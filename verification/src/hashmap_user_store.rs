use vstd::prelude::*;
use crate::domain::{str_eq, User, UserStoreError, UserView};

verus! {

/// The map a record sequence denotes: each record keyed by its email, later
/// records taking precedence (the store never holds two with one email).
spec fn user_map(users: Seq<User>) -> Map<Seq<char>, UserView>
    decreases users.len(),
{
    if users.len() == 0 {
        Map::empty()
    } else {
        user_map(users.drop_last()).insert(users.last().email@, users.last()@)
    }
}

/// What `add` returns on a store holding `m`: the record is refused exactly
/// when its email is already present.
pub open spec fn add_result(m: Map<Seq<char>, UserView>, user: UserView) -> Result<
    (),
    UserStoreError,
> {
    if m.contains_key(user.email) {
        Err(UserStoreError::UserAlreadyExists)
    } else {
        Ok(())
    }
}

/// The store contents after `add`: unchanged on refusal, extended by the
/// record otherwise.
pub open spec fn add_post(m: Map<Seq<char>, UserView>, user: UserView) -> Map<
    Seq<char>,
    UserView,
> {
    if m.contains_key(user.email) {
        m
    } else {
        m.insert(user.email, user)
    }
}

/// What `validate` returns on a store holding `m`: absent email, matching
/// password, or mismatched password, each with its own outcome.
pub open spec fn validate_result(
    m: Map<Seq<char>, UserView>,
    email: Seq<char>,
    password: Seq<char>,
) -> Result<(), UserStoreError> {
    if !m.contains_key(email) {
        Err(UserStoreError::UserNotFound)
    } else if m[email].password == password {
        Ok(())
    } else {
        Err(UserStoreError::InvalidCredentials)
    }
}

/// In-memory credential store. It exclusively owns its records; readers get
/// copies, and at most one record exists per email.
pub struct HashmapUserStore {
    users: Vec<User>,
}

/// Uniqueness: once a record with a given email has been added, a later add
/// with the same email always fails with `UserAlreadyExists` and leaves the
/// store unchanged, whatever password or flag the newcomer carries.
pub proof fn lemma_add_uniqueness(
    m: Map<Seq<char>, UserView>,
    first: UserView,
    second: UserView,
)
    requires
        add_result(m, first) is Ok,
        second.email == first.email,
    ensures
        add_result(add_post(m, first), second) == Err::<(), UserStoreError>(
            UserStoreError::UserAlreadyExists,
        ),
        add_post(add_post(m, first), second) == add_post(m, first),
{
}

proof fn lemma_user_map_contains(users: Seq<User>, email: Seq<char>)
    ensures
        user_map(users).contains_key(email) <==> exists|i: int|
            0 <= i < users.len() && users[i].email@ == email,
    decreases users.len(),
{
    if users.len() > 0 {
        lemma_user_map_contains(users.drop_last(), email);
        if users.last().email@ == email {
            assert(users[users.len() - 1].email@ == email);
        } else if user_map(users).contains_key(email) {
            let i = choose|i: int|
                0 <= i < users.drop_last().len() && users.drop_last()[i].email@ == email;
            assert(users[i].email@ == email);
        } else if exists|i: int| 0 <= i < users.len() && users[i].email@ == email {
            let i = choose|i: int| 0 <= i < users.len() && users[i].email@ == email;
            assert(users.drop_last()[i].email@ == email);
        }
    }
}

proof fn lemma_user_map_index(users: Seq<User>, i: int)
    requires
        0 <= i < users.len(),
        forall|a: int, b: int|
            0 <= a < b < users.len() ==> users[a].email@ != users[b].email@,
    ensures
        user_map(users).contains_key(users[i].email@),
        user_map(users)[users[i].email@] == users[i]@,
    decreases users.len(),
{
    if i < users.len() - 1 {
        assert(users[i].email@ != users.last().email@);
        lemma_user_map_index(users.drop_last(), i);
        assert(users.drop_last()[i] == users[i]);
    }
}

/// Linear scan for the record holding `email`.
fn find_index(users: &Vec<User>, email: &str) -> (found: Option<usize>)
    ensures
        match found {
            Some(i) => i < users@.len() && users@[i as int].email@ == email@,
            None => forall|j: int| 0 <= j < users@.len() ==> users@[j].email@ != email@,
        },
{
    let mut i: usize = 0;
    while i < users.len()
        invariant
            i <= users@.len(),
            forall|j: int| 0 <= j < i ==> users@[j].email@ != email@,
        decreases users@.len() - i,
    {
        if str_eq(users[i].email.as_str(), email) {
            return Some(i);
        }
        i = i + 1;
    }
    None
}

impl HashmapUserStore {
    /// At most one record per email value.
    #[verifier::type_invariant]
    spec fn wf(self) -> bool {
        forall|a: int, b: int|
            0 <= a < b < self.users@.len() ==> self.users@[a].email@ != self.users@[b].email@
    }

    /// Inserts `user` keyed by its email; refuses it with `UserAlreadyExists`
    /// when a record with that email is already present. The record becomes
    /// visible to later `get_user`/`validate_user` calls exactly on success.
    pub fn add_user(&mut self, user: User) -> (added: Result<(), UserStoreError>)
        ensures
            added == add_result(old(self)@, user@),
            final(self)@ == add_post(old(self)@, user@),
    {
        proof {
            use_type_invariant(&*self);
            lemma_user_map_contains(self.users@, user.email@);
        }
        match find_index(&self.users, user.email.as_str()) {
            Some(_) => Err(UserStoreError::UserAlreadyExists),
            None => {
                let ghost previous = self.users@;
                let mut users: Vec<User> = Vec::new();
                std::mem::swap(&mut users, &mut self.users);
                users.push(user);
                proof {
                    assert(users@.drop_last() =~= previous);
                }
                std::mem::swap(&mut users, &mut self.users);
                Ok(())
            },
        }
    }

    /// Returns a copy of the record for `email`, or `UserNotFound` exactly
    /// when no record with that email is present.
    pub fn get_user(&self, email: &str) -> (found: Result<User, UserStoreError>)
        ensures
            found is Ok <==> self@.contains_key(email@),
            match found {
                Ok(user) => user@ == self@[email@],
                Err(e) => e == UserStoreError::UserNotFound,
            },
    {
        proof {
            use_type_invariant(self);
            lemma_user_map_contains(self.users@, email@);
        }
        match find_index(&self.users, email) {
            Some(i) => {
                proof {
                    lemma_user_map_index(self.users@, i as int);
                }
                Ok(self.users[i].clone())
            },
            None => Err(UserStoreError::UserNotFound),
        }
    }

    /// Checks `password` against the record for `email`: `UserNotFound` when
    /// the email is absent, `InvalidCredentials` when the stored password
    /// differs, success otherwise.
    pub fn validate_user(&self, email: &str, password: &str) -> (outcome: Result<
        (),
        UserStoreError,
    >)
        ensures
            outcome == validate_result(self@, email@, password@),
    {
        proof {
            use_type_invariant(self);
            lemma_user_map_contains(self.users@, email@);
        }
        match find_index(&self.users, email) {
            Some(i) => {
                proof {
                    lemma_user_map_index(self.users@, i as int);
                }
                if str_eq(self.users[i].password.as_str(), password) {
                    Ok(())
                } else {
                    Err(UserStoreError::InvalidCredentials)
                }
            },
            None => Err(UserStoreError::UserNotFound),
        }
    }
}

impl View for HashmapUserStore {
    type V = Map<Seq<char>, UserView>;

    closed spec fn view(&self) -> Map<Seq<char>, UserView> {
        user_map(self.users@)
    }
}

impl Default for HashmapUserStore {
    /// An empty store.
    fn default() -> (store: Self)
        ensures
            store@ == Map::<Seq<char>, UserView>::empty(),
    {
        HashmapUserStore { users: Vec::new() }
    }
}

} // verus!
