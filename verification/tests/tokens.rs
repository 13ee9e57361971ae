//! Tests of the token issuer/validator: round trips, expiry, tampering,
//! revocation.

use auth_service::app_state::AppState;
use auth_service::banned_token_store::HashsetBannedTokenStore;
use auth_service::email::Email;
use auth_service::errors::AuthAPIError;
use auth_service::mock_email_client::MockEmailClient;
use auth_service::token::{jwt_cookie_name, TOKEN_TTL_SECONDS};
use auth_service::two_fa_code_store::HashmapTwoFACodeStore;
use auth_service::user_store::HashmapUserStore;

fn fresh_state() -> AppState {
    AppState::new(
        HashmapUserStore::default(),
        HashsetBannedTokenStore::default(),
        HashmapTwoFACodeStore::default(),
        MockEmailClient,
        "test-signing-key",
    )
}

#[test]
fn issued_token_validates_to_its_identity() {
    let state = fresh_state();
    let email = Email::parse("user@example.com".to_string()).unwrap();
    let now = 1_000_000;

    let token = state.generate_auth_token(&email, now);
    let claims = state.validate_token(&token, now).unwrap();

    assert_eq!(claims.sub, "user@example.com");
    assert_eq!(claims.iat, now);
    assert_eq!(claims.exp, now + TOKEN_TTL_SECONDS);
}

#[test]
fn validation_is_repeatable() {
    let state = fresh_state();
    let email = Email::parse("user@example.com".to_string()).unwrap();
    let now = 42;

    let token = state.generate_auth_token(&email, now);
    let first = state.validate_token(&token, now).unwrap();
    let second = state.validate_token(&token, now).unwrap();

    assert_eq!(first.sub, second.sub);
    assert_eq!(first.iat, second.iat);
    assert_eq!(first.exp, second.exp);
}

#[test]
fn expired_token_is_rejected() {
    let state = fresh_state();
    let email = Email::parse("user@example.com".to_string()).unwrap();

    let token = state.generate_auth_token(&email, 1_000);
    // Validity is exclusive at the expiry instant.
    assert!(state.validate_token(&token, 1_000 + TOKEN_TTL_SECONDS - 1).is_ok());
    assert_eq!(
        state.validate_token(&token, 1_000 + TOKEN_TTL_SECONDS).unwrap_err(),
        AuthAPIError::InvalidToken
    );
    assert_eq!(
        state.validate_token(&token, 5_000_000).unwrap_err(),
        AuthAPIError::InvalidToken
    );
}

#[test]
fn tampered_token_is_rejected() {
    let state = fresh_state();
    let email = Email::parse("user@example.com".to_string()).unwrap();
    let now = 1_000_000;

    let token = state.generate_auth_token(&email, now);

    // Change the identity without recomputing the tag.
    let forged = token.replace("user@example.com", "root@example.com");
    assert!(state.validate_token(&forged, now).is_err());

    // Damage the tag itself.
    let mut tag_forged: String = token.clone();
    let first = tag_forged.remove(0);
    let replacement = if first == '0' { '1' } else { '0' };
    tag_forged.insert(0, replacement);
    assert!(state.validate_token(&tag_forged, now).is_err());

    // Garbage is rejected outright.
    assert!(state.validate_token("invalid", now).is_err());
    assert!(state.validate_token("", now).is_err());
}

#[test]
fn token_from_other_key_is_rejected() {
    let state = fresh_state();
    let other = AppState::new(
        HashmapUserStore::default(),
        HashsetBannedTokenStore::default(),
        HashmapTwoFACodeStore::default(),
        MockEmailClient,
        "another-signing-key",
    );
    let email = Email::parse("user@example.com".to_string()).unwrap();
    let now = 7;

    let token = other.generate_auth_token(&email, now);
    assert!(other.validate_token(&token, now).is_ok());
    assert!(state.validate_token(&token, now).is_err());
}

#[test]
fn revoked_token_fails_validation_though_otherwise_valid() {
    let mut state = fresh_state();
    let email = Email::parse("user@example.com".to_string()).unwrap();
    let now = 500;

    let token = state.generate_auth_token(&email, now);
    assert!(state.validate_token(&token, now).is_ok());

    state.banned_token_store.add_token(token.clone()).unwrap();

    assert!(state.banned_token_store.has_token(&token));
    assert_eq!(
        state.validate_token(&token, now).unwrap_err(),
        AuthAPIError::InvalidToken
    );
}

#[test]
fn cookie_name_is_jwt() {
    assert_eq!(jwt_cookie_name(), "jwt");
}
