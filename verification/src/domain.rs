use vstd::prelude::*;
use vstd::string::StrSliceExecFns;

verus! {

/// The mathematical model of one credential record: the email that keys it,
/// the password it was created with, and the two-factor flag.
pub ghost struct UserView {
    pub email: Seq<char>,
    pub password: Seq<char>,
    pub requires_2fa: bool,
}

/// One user's stored login material. At most one `User` per email value
/// exists within a store instance.
#[derive(Debug, PartialEq, Eq)]
pub struct User {
    pub email: String,
    pub password: String,
    pub requires_2fa: bool,
}

impl View for User {
    type V = UserView;

    open spec fn view(&self) -> UserView {
        UserView { email: self.email@, password: self.password@, requires_2fa: self.requires_2fa }
    }
}

impl User {
    pub fn new(email: String, password: String, requires_2fa: bool) -> (user: User)
        ensures
            user@ == (UserView { email: email@, password: password@, requires_2fa }),
    {
        User { email, password, requires_2fa }
    }
}

impl Clone for User {
    fn clone(&self) -> (other: Self)
        ensures
            other == *self,
    {
        User {
            email: self.email.clone(),
            password: self.password.clone(),
            requires_2fa: self.requires_2fa,
        }
    }
}

/// Failures raised by the credential store itself, distinct from the
/// transport-facing taxonomy.
#[derive(Clone, Copy, Debug, PartialEq, Eq, Structural)]
pub enum UserStoreError {
    UserAlreadyExists,
    UserNotFound,
    InvalidCredentials,
}

/// Domain-level failures of the signup workflow, each owed exactly one
/// transport status and message.
#[derive(Clone, Copy, Debug, PartialEq, Eq, Structural)]
pub enum AuthAPIError {
    UserAlreadyExists,
    InvalidCredentials,
    UnexpectedError,
}

/// An email is acceptable when it is non-empty and contains an '@'.
pub open spec fn valid_email(email: Seq<char>) -> bool {
    email.len() > 0 && email.contains('@')
}

/// A password is acceptable when it is at least 8 characters long.
pub open spec fn valid_password(password: Seq<char>) -> bool {
    password.len() >= 8
}

/// Decides `valid_email` on an email string.
pub fn email_is_valid(email: &str) -> (valid: bool)
    ensures
        valid == valid_email(email@),
{
    if email.is_empty() {
        return false;
    }
    let len = email.unicode_len();
    let mut i: usize = 0;
    while i < len
        invariant
            len == email@.len(),
            i <= len,
            forall|j: int| 0 <= j < i ==> email@[j] != '@',
        decreases len - i,
    {
        if email.get_char(i) == '@' {
            proof {
                assert(email@.contains('@')) by {
                    assert(email@[i as int] == '@');
                }
            }
            return true;
        }
        i = i + 1;
    }
    proof {
        assert(!email@.contains('@'));
    }
    false
}

/// Decides `valid_password` on a password string.
pub fn password_is_valid(password: &str) -> (valid: bool)
    ensures
        valid == valid_password(password@),
{
    password.unicode_len() >= 8
}

/// Character-for-character string comparison, so that verified code can
/// compare emails and passwords exactly.
pub fn str_eq(a: &str, b: &str) -> (equal: bool)
    ensures
        equal == (a@ == b@),
{
    let a_len = a.unicode_len();
    let b_len = b.unicode_len();
    if a_len != b_len {
        return false;
    }
    let mut i: usize = 0;
    while i < a_len
        invariant
            a_len == a@.len(),
            a@.len() == b@.len(),
            i <= a_len,
            forall|j: int| 0 <= j < i ==> a@[j] == b@[j],
        decreases a_len - i,
    {
        if a.get_char(i) != b.get_char(i) {
            return false;
        }
        i = i + 1;
    }
    proof {
        assert(a@ =~= b@);
    }
    true
}

} // verus!
