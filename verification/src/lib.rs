use vstd::prelude::*;

pub mod domain;
pub mod hashmap_user_store;
pub mod signup;

use crate::domain::AuthAPIError;

verus! {

/// Transport body for a failed request: a single field carrying the
/// human-readable message of the domain error.
#[derive(Debug, PartialEq, Eq)]
pub struct ErrorResponse {
    pub error: String,
}

/// The transport status owed to each domain error.
pub open spec fn status_of(e: AuthAPIError) -> u16 {
    match e {
        AuthAPIError::UserAlreadyExists => 409,
        AuthAPIError::InvalidCredentials => 400,
        AuthAPIError::UnexpectedError => 500,
    }
}

/// The transport message owed to each domain error.
pub open spec fn message_of(e: AuthAPIError) -> Seq<char> {
    match e {
        AuthAPIError::UserAlreadyExists => "User already exists"@,
        AuthAPIError::InvalidCredentials => "Invalid credentials"@,
        AuthAPIError::UnexpectedError => "Unexpected error"@,
    }
}

impl AuthAPIError {
    /// Maps a domain error to its transport status and body. The mapping is
    /// total: exactly one row per variant.
    pub fn into_response(self) -> (response: (u16, ErrorResponse))
        ensures
            response.0 == status_of(self),
            response.1.error@ == message_of(self),
    {
        match self {
            AuthAPIError::UserAlreadyExists => (
                409,
                ErrorResponse { error: "User already exists".to_owned() },
            ),
            AuthAPIError::InvalidCredentials => (
                400,
                ErrorResponse { error: "Invalid credentials".to_owned() },
            ),
            AuthAPIError::UnexpectedError => (
                500,
                ErrorResponse { error: "Unexpected error".to_owned() },
            ),
        }
    }
}

} // verus!
