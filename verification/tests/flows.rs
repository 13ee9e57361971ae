//! End-to-end tests of the five flows against the in-memory stores.

use auth_service::app_state::AppState;
use auth_service::banned_token_store::HashsetBannedTokenStore;
use auth_service::email::Email;
use auth_service::errors::AuthAPIError;
use auth_service::mock_email_client::MockEmailClient;
use auth_service::routes::{
    LoginRequest, LoginResponse, SignupRequest, Verify2FARequest, VerifyTokenRequest,
};
use auth_service::two_fa_code_store::HashmapTwoFACodeStore;
use auth_service::user_store::HashmapUserStore;

fn fresh_state() -> AppState {
    AppState::new(
        HashmapUserStore::default(),
        HashsetBannedTokenStore::default(),
        HashmapTwoFACodeStore::default(),
        MockEmailClient,
        "test-signing-key",
    )
}

fn signup_request(email: &str, password: &str, requires_2fa: bool) -> SignupRequest {
    SignupRequest {
        email: email.to_string(),
        password: password.to_string(),
        requires_2fa,
    }
}

fn login_request(email: &str, password: &str) -> LoginRequest {
    LoginRequest {
        email: email.to_string(),
        password: password.to_string(),
    }
}

#[test]
fn signup_login_and_verify_token() {
    let mut state = fresh_state();
    let now = 10_000;

    let response = state
        .signup(&signup_request("a@b.com", "longpassword1", false))
        .unwrap();
    assert_eq!(response.message, "User created successfully!");

    let (response, cookie) = state.login(&login_request("a@b.com", "longpassword1"), now).unwrap();
    assert!(matches!(response, LoginResponse::RegularAuth));
    let token = cookie.expect("no session token issued");
    assert!(!token.is_empty());

    let request = VerifyTokenRequest { token };
    assert!(state.verify_token(&request, now).is_ok());
}

#[test]
fn signup_twice_with_same_identity_fails() {
    let mut state = fresh_state();

    assert!(state.signup(&signup_request("a@b.com", "longpassword1", false)).is_ok());
    assert_eq!(
        state
            .signup(&signup_request("a@b.com", "otherpassword2", true))
            .unwrap_err(),
        AuthAPIError::UserAlreadyExists
    );
}

#[test]
fn signup_rejects_malformed_input() {
    let mut state = fresh_state();

    assert_eq!(
        state.signup(&signup_request("not-an-email", "longpassword1", false)).unwrap_err(),
        AuthAPIError::InvalidCredentials
    );
    assert_eq!(
        state.signup(&signup_request("a@b.com", "short", false)).unwrap_err(),
        AuthAPIError::InvalidCredentials
    );
}

#[test]
fn login_with_unregistered_email_fails_incorrect_credentials() {
    let mut state = fresh_state();

    assert_eq!(
        state.login(&login_request("ghost@b.com", "whateverpw1"), 0).unwrap_err(),
        AuthAPIError::IncorrectCredentials
    );
}

#[test]
fn login_with_wrong_password_fails_incorrect_credentials() {
    let mut state = fresh_state();
    state.signup(&signup_request("a@b.com", "longpassword1", false)).unwrap();

    assert_eq!(
        state.login(&login_request("a@b.com", "wrongpassword9"), 0).unwrap_err(),
        AuthAPIError::IncorrectCredentials
    );
}

#[test]
fn login_with_malformed_input_fails_invalid_credentials() {
    let mut state = fresh_state();

    assert_eq!(
        state.login(&login_request("hello world", ""), 0).unwrap_err(),
        AuthAPIError::InvalidCredentials
    );
}

#[test]
fn two_factor_flow_verifies_once_and_only_once() {
    let mut state = fresh_state();
    let now = 20_000;

    state.signup(&signup_request("a@b.com", "longpassword1", true)).unwrap();

    let (response, cookie) = state.login(&login_request("a@b.com", "longpassword1"), now).unwrap();
    assert!(cookie.is_none(), "no token may be issued before the second factor");
    let attempt_id = match response {
        LoginResponse::TwoFactorAuth(two_fa) => {
            assert_eq!(two_fa.message, "2FA required");
            two_fa.login_attempt_id
        }
        LoginResponse::RegularAuth => panic!("expected a pending second factor"),
    };

    // Read the delivered code where the notifier would: from the store.
    let email = Email::parse("a@b.com".to_string()).unwrap();
    let (stored_id, stored_code) = state.two_fa_code_store.get_code(&email).unwrap();
    assert_eq!(stored_id.as_str(), attempt_id.as_str());

    let request = Verify2FARequest {
        email: "a@b.com".to_string(),
        login_attempt_id: attempt_id.clone(),
        two_fa_code: stored_code.to_string_owned(),
    };
    let token = state.verify_2fa(&request, now).unwrap();
    assert!(state
        .verify_token(&VerifyTokenRequest { token }, now)
        .is_ok());

    // The challenge was consumed: the same pair fails now.
    assert_eq!(
        state.verify_2fa(&request, now).unwrap_err(),
        AuthAPIError::IncorrectCredentials
    );
}

#[test]
fn second_login_invalidates_first_challenge() {
    let mut state = fresh_state();
    let now = 30_000;

    state.signup(&signup_request("a@b.com", "longpassword1", true)).unwrap();

    let (first_response, _) = state.login(&login_request("a@b.com", "longpassword1"), now).unwrap();
    let first_attempt = match first_response {
        LoginResponse::TwoFactorAuth(two_fa) => two_fa.login_attempt_id,
        LoginResponse::RegularAuth => panic!("expected a pending second factor"),
    };
    let email = Email::parse("a@b.com".to_string()).unwrap();
    let (_, first_code) = state.two_fa_code_store.get_code(&email).unwrap();

    // A second login supersedes the outstanding challenge.
    let (second_response, _) =
        state.login(&login_request("a@b.com", "longpassword1"), now).unwrap();
    let second_attempt = match second_response {
        LoginResponse::TwoFactorAuth(two_fa) => two_fa.login_attempt_id,
        LoginResponse::RegularAuth => panic!("expected a pending second factor"),
    };
    assert_ne!(first_attempt, second_attempt);

    let stale = Verify2FARequest {
        email: "a@b.com".to_string(),
        login_attempt_id: first_attempt,
        two_fa_code: first_code.to_string_owned(),
    };
    assert_eq!(
        state.verify_2fa(&stale, now).unwrap_err(),
        AuthAPIError::IncorrectCredentials
    );
}

#[test]
fn verify_2fa_rejects_malformed_input() {
    let mut state = fresh_state();

    let request = Verify2FARequest {
        email: "a@b.com".to_string(),
        login_attempt_id: "not-a-uuid".to_string(),
        two_fa_code: "123456".to_string(),
    };
    assert_eq!(
        state.verify_2fa(&request, 0).unwrap_err(),
        AuthAPIError::InvalidCredentials
    );
}

#[test]
fn logout_revokes_and_second_logout_fails() {
    let mut state = fresh_state();
    let now = 40_000;

    state.signup(&signup_request("a@b.com", "longpassword1", false)).unwrap();
    let (_, cookie) = state.login(&login_request("a@b.com", "longpassword1"), now).unwrap();
    let token = cookie.unwrap();

    assert!(state.logout(Some(&token), now).is_ok());
    assert!(state.banned_token_store.has_token(&token));
    assert_eq!(
        state.verify_token(&VerifyTokenRequest { token: token.clone() }, now).unwrap_err(),
        AuthAPIError::InvalidToken
    );

    // Already revoked: the second logout fails validation.
    assert_eq!(
        state.logout(Some(&token), now).unwrap_err(),
        AuthAPIError::InvalidToken
    );
}

#[test]
fn logout_without_cookie_fails_missing_token() {
    let mut state = fresh_state();

    assert_eq!(
        state.logout(None, 0).unwrap_err(),
        AuthAPIError::MissingToken
    );
}

#[test]
fn logout_with_invalid_token_fails_invalid_token() {
    let mut state = fresh_state();
    let token = "invalid".to_string();

    assert_eq!(
        state.logout(Some(&token), 0).unwrap_err(),
        AuthAPIError::InvalidToken
    );
}

#[test]
fn verify_token_rejects_expired_cookie() {
    let mut state = fresh_state();
    let now = 50_000;

    state.signup(&signup_request("a@b.com", "longpassword1", false)).unwrap();
    let (_, cookie) = state.login(&login_request("a@b.com", "longpassword1"), now).unwrap();
    let token = cookie.unwrap();

    assert_eq!(
        state
            .verify_token(&VerifyTokenRequest { token }, now + 1_000_000)
            .unwrap_err(),
        AuthAPIError::InvalidToken
    );
}
