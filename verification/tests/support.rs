//! Tests of the supporting pieces: credential hashing, error mapping, and
//! the small helpers.

use auth_service::credentials::{compute_password_hash, verify_password_hash};
use auth_service::email::Email;
use auth_service::errors::{AuthAPIError, ErrorResponse};
use auth_service::helpers::{get_key, log_error_chain};
use auth_service::mock_email_client::MockEmailClient;
use auth_service::password::Password;

#[test]
fn password_hash_verifies_its_own_password() {
    let password = Password::parse("longpassword1".to_string()).unwrap();
    let hash = compute_password_hash(&password).unwrap();

    // The PHC string embeds algorithm, parameters and salt.
    assert!(hash.starts_with("$argon2"));
    assert!(verify_password_hash(&hash, &password).is_ok());
}

#[test]
fn password_hash_rejects_other_passwords() {
    let password = Password::parse("longpassword1".to_string()).unwrap();
    let other = Password::parse("otherpassword2".to_string()).unwrap();
    let hash = compute_password_hash(&password).unwrap();

    assert_eq!(
        verify_password_hash(&hash, &other).unwrap_err(),
        AuthAPIError::IncorrectCredentials
    );
    assert_eq!(
        verify_password_hash("not a hash", &password).unwrap_err(),
        AuthAPIError::IncorrectCredentials
    );
}

#[test]
fn two_hashes_of_one_password_differ_but_both_verify() {
    let password = Password::parse("longpassword1".to_string()).unwrap();
    let first = compute_password_hash(&password).unwrap();
    let second = compute_password_hash(&password).unwrap();

    assert_ne!(first, second, "salts must differ");
    assert!(verify_password_hash(&first, &password).is_ok());
    assert!(verify_password_hash(&second, &password).is_ok());
}

#[test]
fn error_kinds_map_to_their_status_codes() {
    assert_eq!(AuthAPIError::UserAlreadyExists.status_code(), 409);
    assert_eq!(AuthAPIError::InvalidCredentials.status_code(), 400);
    assert_eq!(AuthAPIError::IncorrectCredentials.status_code(), 401);
    assert_eq!(AuthAPIError::MissingToken.status_code(), 400);
    assert_eq!(AuthAPIError::InvalidToken.status_code(), 401);
    assert_eq!(AuthAPIError::UnexpectedError.status_code(), 500);
}

#[test]
fn error_kinds_map_to_their_messages() {
    assert_eq!(AuthAPIError::UserAlreadyExists.message(), "User already exists");
    assert_eq!(AuthAPIError::InvalidCredentials.message(), "Invalid credentials");
    assert_eq!(
        AuthAPIError::IncorrectCredentials.message(),
        "Incorrect credentials"
    );
    assert_eq!(AuthAPIError::MissingToken.message(), "Missing auth token");
    assert_eq!(AuthAPIError::InvalidToken.message(), "Invalid auth token");
    assert_eq!(AuthAPIError::UnexpectedError.message(), "Unexpected error");

    let body: ErrorResponse = AuthAPIError::InvalidToken.to_response();
    assert_eq!(body.error, "Invalid auth token");
}

#[test]
fn banned_token_keys_are_namespaced() {
    assert_eq!(get_key("abc"), "banned_token:abc");
    assert_eq!(get_key(""), "banned_token:");
}

#[test]
fn error_report_frames_the_message() {
    let report = log_error_chain(&AuthAPIError::UnexpectedError);
    assert!(report.contains("Unexpected error"));
    assert!(report.starts_with("\n-----"));
    assert!(report.ends_with("-----\n"));
}

#[test]
fn mock_email_client_always_confirms() {
    let client = MockEmailClient;
    let recipient = Email::parse("a@b.com".to_string()).unwrap();

    let receipt = client.send_email(&recipient, "2FA Code", "123456").unwrap();
    assert_eq!(receipt, "mock-email-sent");
}
