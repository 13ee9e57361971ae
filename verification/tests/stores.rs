//! Tests of the three stores: credentials, challenges, revocations.

use auth_service::banned_token_store::HashsetBannedTokenStore;
use auth_service::email::Email;
use auth_service::errors::{TwoFACodeStoreError, UserStoreError};
use auth_service::password::Password;
use auth_service::two_fa::{LoginAttemptId, TwoFACode};
use auth_service::two_fa_code_store::HashmapTwoFACodeStore;
use auth_service::user::User;
use auth_service::user_store::HashmapUserStore;

#[test]
fn test_add_user() {
    let mut user_store = HashmapUserStore::default();

    let email = Email::parse("test@example.com".to_owned()).unwrap();
    let password = Password::parse("password123".to_owned()).unwrap();

    let user = User::new(email.clone(), password.clone(), false);

    // Test adding a new user
    let result = user_store.add_user(user.clone());
    assert!(result.is_ok());

    // Test adding an existing user
    let result = user_store.add_user(user);
    assert_eq!(result, Err(UserStoreError::UserAlreadyExists));
}

#[test]
fn test_get_user() {
    let mut user_store = HashmapUserStore::default();

    let email = Email::parse("test@example.com".to_owned()).unwrap();
    let password = Password::parse("password123".to_owned()).unwrap();

    let user = User::new(email.clone(), password.clone(), false);

    // Test getting a user that exists.  The returned record carries the
    // credential hash, never the plaintext secret.
    user_store.add_user(user).unwrap();
    let stored = user_store.get_user(&email).unwrap();
    assert_eq!(stored.email(), &email);
    assert!(!stored.has_2fa());
    assert!(stored.password.as_str().starts_with("$argon2"));
    assert_ne!(stored.password.as_str(), "password123");

    // Test getting a user that doesn't exist
    let result = user_store.get_user(&Email::parse("nonexistent@example.com".to_owned()).unwrap());

    assert_eq!(result, Err(UserStoreError::UserNotFound));
}

#[test]
fn test_validate_user() {
    let mut user_store = HashmapUserStore::default();

    let email = Email::parse("test@example.com".to_owned()).unwrap();
    let password = Password::parse("password123".to_owned()).unwrap();

    let user = User::new(email.clone(), password.clone(), false);

    // Test validating a user that exists with correct password
    user_store.add_user(user.clone()).unwrap();
    let result = user_store.validate_user(&email, &password);
    assert_eq!(result, Ok(()));

    // Test validating a user that exists with incorrect password
    let wrong_password = Password::parse("wrongpassword".to_owned()).unwrap();
    let result = user_store.validate_user(&email, &wrong_password);
    assert_eq!(result, Err(UserStoreError::InvalidCredentials));

    // Test validating a user that doesn't exist
    let result = user_store.validate_user(
        &Email::parse("nonexistent@example.com".to_string()).unwrap(),
        &password,
    );

    assert_eq!(result, Err(UserStoreError::UserNotFound));
}

#[test]
fn test_add_code() {
    let mut two_fa_store = HashmapTwoFACodeStore::default();

    let email = Email::parse("codes@example.com".to_owned()).unwrap();
    let two_fa_code = TwoFACode::default();
    let login_attempt_id = LoginAttemptId::default();

    let response = two_fa_store.add_code(email, login_attempt_id, two_fa_code);

    assert!(response.is_ok())
}

#[test]
fn test_remove_code() {
    let mut two_fa_store = HashmapTwoFACodeStore::default();

    let email = Email::parse("codes@example.com".to_owned()).unwrap();
    let two_fa_code = TwoFACode::default();
    let login_attempt_id = LoginAttemptId::default();

    let response = two_fa_store.add_code(email.clone(), login_attempt_id, two_fa_code);

    assert!(response.is_ok());

    let response = two_fa_store.remove_code(&email);

    assert!(response.is_ok())
}

#[test]
fn test_remove_code_absent_fails_not_found() {
    let mut two_fa_store = HashmapTwoFACodeStore::default();

    let email = Email::parse("codes@example.com".to_owned()).unwrap();
    assert_eq!(
        two_fa_store.remove_code(&email),
        Err(TwoFACodeStoreError::LoginAttemptIdNotFound)
    );
}

#[test]
fn test_get_code() {
    let mut two_fa_store = HashmapTwoFACodeStore::default();

    let email = Email::parse("codes@example.com".to_owned()).unwrap();
    let two_fa_code = TwoFACode::default();
    let login_attempt_id = LoginAttemptId::default();

    let add_code_response =
        two_fa_store.add_code(email.clone(), login_attempt_id.clone(), two_fa_code.clone());

    assert!(add_code_response.is_ok());

    let get_code_response = two_fa_store.get_code(&email);

    assert!(get_code_response.is_ok());
    let (stored_id, stored_code) = get_code_response.unwrap();
    assert_eq!(stored_id, login_attempt_id);
    assert_eq!(stored_code, two_fa_code);

    // in the case code doesnt exist
    let email = Email::parse("other@example.com".to_owned()).unwrap();
    let empty_code_response = two_fa_store.get_code(&email);
    assert_eq!(
        empty_code_response,
        Err(TwoFACodeStoreError::LoginAttemptIdNotFound)
    )
}

#[test]
fn second_challenge_supersedes_first() {
    let mut two_fa_store = HashmapTwoFACodeStore::default();

    let email = Email::parse("codes@example.com".to_owned()).unwrap();
    let first_id = LoginAttemptId::default();
    let first_code = TwoFACode::parse("111111".to_owned()).unwrap();
    let second_id = LoginAttemptId::default();
    let second_code = TwoFACode::parse("222222".to_owned()).unwrap();

    two_fa_store
        .add_code(email.clone(), first_id.clone(), first_code)
        .unwrap();
    two_fa_store
        .add_code(email.clone(), second_id.clone(), second_code)
        .unwrap();

    let (stored_id, stored_code) = two_fa_store.get_code(&email).unwrap();
    assert_eq!(stored_id, second_id);
    assert_eq!(stored_code.as_str(), "222222");
    assert_ne!(stored_id, first_id);
}

#[test]
fn test_store_token() {
    let mut banned_token_store = HashsetBannedTokenStore::default();
    let token = "token";

    let response = banned_token_store.store_token(token);

    assert_eq!(response, Ok(()))
}

#[test]
fn test_has_toke() {
    let mut banned_token_store = HashsetBannedTokenStore::default();
    let token = "token";

    banned_token_store.store_token(token).unwrap();

    assert!(banned_token_store.has_token(token))
}

#[test]
fn test_add_token() {
    let mut store = HashsetBannedTokenStore::default();
    let token = "test_token".to_owned();

    let result = store.add_token(token.clone());

    assert!(result.is_ok());
    assert!(store.has_token(&token));
}

#[test]
fn test_contains_token() {
    let mut store = HashsetBannedTokenStore::default();
    let token = "test_token".to_owned();
    store.add_token(token.clone()).unwrap();

    let result = store.contains_token(&token);

    assert!(result.unwrap());
}

#[test]
fn add_token_is_idempotent_store_token_is_not() {
    let mut store = HashsetBannedTokenStore::default();
    let token = "twice".to_owned();

    assert!(store.add_token(token.clone()).is_ok());
    assert!(store.add_token(token.clone()).is_ok());

    let mut other = HashsetBannedTokenStore::default();
    assert!(other.store_token("twice").is_ok());
    assert!(other.store_token("twice").is_err());
}
