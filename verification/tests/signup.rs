use auth_service::domain::{AuthAPIError, UserStoreError};
use auth_service::hashmap_user_store::HashmapUserStore;
use auth_service::signup::{post_signup, SignupRequest, SignupResponse};

fn request(email: &str, password: &str, requires_2fa: bool) -> SignupRequest {
    SignupRequest {
        email: email.to_string(),
        password: password.to_string(),
        requires_2fa,
    }
}

#[test]
fn should_return_201_if_valid_input() {
    let mut store = HashmapUserStore::default();
    let response = post_signup(&mut store, request("test@example.com", "password123", true));
    let expected_response = SignupResponse {
        message: "User created successfully!".to_owned(),
    };
    assert_eq!(response, Ok(expected_response));
}

#[test]
fn should_return_400_if_invalid_input() {
    let test_cases = [
        ("invalidemail", "p@$$w0rd"),
        ("", "p@$$w0rd"),
        ("valid@email.com", "s3v3n"),
    ];

    for test_case in test_cases.iter() {
        let mut store = HashmapUserStore::default();
        let response = post_signup(&mut store, request(test_case.0, test_case.1, true));
        let error = match response {
            Err(e) => e,
            Ok(_) => panic!("Failed for input: {:?}", test_case),
        };
        let (status, body) = error.into_response();
        assert_eq!(status, 400, "Failed for input: {:?}", test_case);
        assert_eq!(body.error, "Invalid credentials".to_owned());
    }
}

#[test]
fn should_return_409_if_email_already_exists() {
    let mut store = HashmapUserStore::default();
    let response = post_signup(&mut store, request("test1@example.com", "password123", true));
    assert!(response.is_ok());

    let response = post_signup(&mut store, request("test1@example.com", "password123", true));
    let error = match response {
        Err(e) => e,
        Ok(_) => panic!("second signup with the same email was accepted"),
    };
    assert_eq!(error, AuthAPIError::UserAlreadyExists);
    let (status, body) = error.into_response();
    assert_eq!(status, 409);
    assert_eq!(body.error, "User already exists".to_owned());
}

#[test]
fn validation_failure_never_mutates_store() {
    let mut store = HashmapUserStore::default();

    let response = post_signup(&mut store, request("", "password123", true));
    assert_eq!(response, Err(AuthAPIError::InvalidCredentials));
    assert_eq!(store.get_user(""), Err(UserStoreError::UserNotFound));

    let response = post_signup(&mut store, request("valid@email.com", "s3v3n", true));
    assert_eq!(response, Err(AuthAPIError::InvalidCredentials));
    assert_eq!(
        store.get_user("valid@email.com"),
        Err(UserStoreError::UserNotFound)
    );
}

#[test]
fn round_trip_after_signup() {
    let mut store = HashmapUserStore::default();
    post_signup(&mut store, request("round@trip.com", "password123", false)).unwrap();
    assert_eq!(store.validate_user("round@trip.com", "password123"), Ok(()));
    assert_eq!(
        store.validate_user("round@trip.com", "password124"),
        Err(UserStoreError::InvalidCredentials)
    );
}

#[test]
fn repeated_failed_signup_yields_same_error_and_status() {
    let mut store = HashmapUserStore::default();
    post_signup(&mut store, request("dup@example.com", "password123", true)).unwrap();

    let first = post_signup(&mut store, request("dup@example.com", "password456", false));
    let second = post_signup(&mut store, request("dup@example.com", "password456", false));
    assert_eq!(first, second);

    let (first_status, first_body) = first.unwrap_err().into_response();
    let (second_status, second_body) = second.unwrap_err().into_response();
    assert_eq!(first_status, 409);
    assert_eq!(first_status, second_status);
    assert_eq!(first_body, second_body);
}

#[test]
fn error_mapping_is_total() {
    let (status, body) = AuthAPIError::UserAlreadyExists.into_response();
    assert_eq!(status, 409);
    assert_eq!(body.error, "User already exists");

    let (status, body) = AuthAPIError::InvalidCredentials.into_response();
    assert_eq!(status, 400);
    assert_eq!(body.error, "Invalid credentials");

    let (status, body) = AuthAPIError::UnexpectedError.into_response();
    assert_eq!(status, 500);
    assert_eq!(body.error, "Unexpected error");
}

#[test]
fn password_of_exactly_eight_characters_is_accepted() {
    let mut store = HashmapUserStore::default();
    let response = post_signup(&mut store, request("edge@example.com", "eight8ch", true));
    assert!(response.is_ok());
}

#[test]
fn password_length_counts_characters() {
    // eight characters, though more than eight bytes
    let mut store = HashmapUserStore::default();
    let response = post_signup(&mut store, request("umlaut@example.com", "p\u{e4}ssw\u{f6}rd", false));
    assert!(response.is_ok());
}

#[test]
fn email_of_a_single_at_sign_is_accepted() {
    let mut store = HashmapUserStore::default();
    let response = post_signup(&mut store, request("@", "password123", false));
    assert!(response.is_ok());
}
