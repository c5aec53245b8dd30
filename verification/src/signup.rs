use vstd::prelude::*;
use crate::domain::{
    email_is_valid, password_is_valid, valid_email, valid_password, AuthAPIError, User,
    UserStoreError, UserView,
};
use crate::hashmap_user_store::{validate_result, HashmapUserStore};

verus! {

/// A decoded signup request. Its view is the credential record it asks for.
pub struct SignupRequest {
    pub email: String,
    pub password: String,
    pub requires_2fa: bool,
}

impl View for SignupRequest {
    type V = UserView;

    open spec fn view(&self) -> UserView {
        UserView { email: self.email@, password: self.password@, requires_2fa: self.requires_2fa }
    }
}

/// The confirmation payload of a successful signup.
#[derive(Debug, PartialEq, Eq)]
pub struct SignupResponse {
    pub message: String,
}

/// A request passes validation when its email and password both do.
pub open spec fn valid_request(request: UserView) -> bool {
    valid_email(request.email) && valid_password(request.password)
}

/// The outcome signup owes on a store holding `m`: validation failures come
/// first, then the uniqueness check, then the confirmation message.
pub open spec fn signup_result(m: Map<Seq<char>, UserView>, request: UserView) -> Result<
    Seq<char>,
    AuthAPIError,
> {
    if !valid_request(request) {
        Err(AuthAPIError::InvalidCredentials)
    } else if m.contains_key(request.email) {
        Err(AuthAPIError::UserAlreadyExists)
    } else {
        Ok("User created successfully!"@)
    }
}

/// The store contents after signup: extended by the requested record exactly
/// on success, untouched on any failure.
pub open spec fn signup_post(m: Map<Seq<char>, UserView>, request: UserView) -> Map<
    Seq<char>,
    UserView,
> {
    if signup_result(m, request) is Ok {
        m.insert(request.email, request)
    } else {
        m
    }
}

/// Validates a signup request against the store and, when it is acceptable,
/// creates the record. A late insert failure, were the exclusion discipline
/// ever to allow one, would surface as `UnexpectedError`; here it is proved
/// unreachable.
pub fn post_signup(store: &mut HashmapUserStore, request: SignupRequest) -> (outcome: Result<
    SignupResponse,
    AuthAPIError,
>)
    ensures
        final(store)@ == signup_post(old(store)@, request@),
        match outcome {
            Ok(response) => signup_result(old(store)@, request@) == Ok::<Seq<char>, AuthAPIError>(
                response.message@,
            ),
            Err(e) => signup_result(old(store)@, request@) == Err::<Seq<char>, AuthAPIError>(e),
        },
{
    if !email_is_valid(request.email.as_str()) {
        return Err(AuthAPIError::InvalidCredentials);
    }
    if !password_is_valid(request.password.as_str()) {
        return Err(AuthAPIError::InvalidCredentials);
    }
    let user = User::new(request.email, request.password, request.requires_2fa);
    if store.get_user(user.email.as_str()).is_ok() {
        return Err(AuthAPIError::UserAlreadyExists);
    }
    match store.add_user(user) {
        Ok(_) => Ok(SignupResponse { message: "User created successfully!".to_owned() }),
        Err(_) => Err(AuthAPIError::UnexpectedError),
    }
}

/// Validation precedence: a request with an invalid email or a password
/// shorter than 8 characters is rejected as `InvalidCredentials` and the
/// store is left exactly as it was.
pub proof fn lemma_validation_precedence(m: Map<Seq<char>, UserView>, request: UserView)
    requires
        !valid_request(request),
    ensures
        signup_result(m, request) == Err::<Seq<char>, AuthAPIError>(
            AuthAPIError::InvalidCredentials,
        ),
        signup_post(m, request) == m,
{
}

/// Uniqueness at the signup level: after a signup for an email succeeds,
/// any later well-formed request for the same email fails with
/// `UserAlreadyExists` and leaves the store unchanged, whatever password or
/// flag it carries. (A malformed later request fails earlier, with
/// `InvalidCredentials`, by validation precedence.)
pub proof fn lemma_signup_uniqueness(
    m: Map<Seq<char>, UserView>,
    first: UserView,
    second: UserView,
)
    requires
        signup_result(m, first) is Ok,
        second.email == first.email,
        valid_request(second),
    ensures
        signup_result(signup_post(m, first), second) == Err::<Seq<char>, AuthAPIError>(
            AuthAPIError::UserAlreadyExists,
        ),
        signup_post(signup_post(m, first), second) == signup_post(m, first),
{
}

/// Round trip: after a signup succeeds, validating its email with its
/// password succeeds, and validating it with any other password fails with
/// `InvalidCredentials`.
pub proof fn lemma_round_trip(m: Map<Seq<char>, UserView>, request: UserView, wrong: Seq<char>)
    requires
        signup_result(m, request) is Ok,
        wrong != request.password,
    ensures
        validate_result(signup_post(m, request), request.email, request.password) == Ok::<
            (),
            UserStoreError,
        >(()),
        validate_result(signup_post(m, request), request.email, wrong) == Err::<
            (),
            UserStoreError,
        >(UserStoreError::InvalidCredentials),
{
}

/// Idempotent rejection: a failed signup leaves the store unchanged, so
/// repeating the identical request yields the identical error — and, since
/// the transport mapping is a function of the error, the identical status
/// and message.
pub proof fn lemma_idempotent_rejection(m: Map<Seq<char>, UserView>, request: UserView)
    requires
        signup_result(m, request) is Err,
    ensures
        signup_post(m, request) == m,
        signup_result(signup_post(m, request), request) == signup_result(m, request),
{
}

} // verus!
