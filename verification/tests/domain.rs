//! Tests of the domain value types: identities, credentials, and the
//! second-factor artifacts.

use auth_service::email::Email;
use auth_service::errors::AuthAPIError;
use auth_service::helpers::validate_email;
use auth_service::password::Password;
use auth_service::two_fa::{LoginAttemptId, TwoFACode};

#[test]
fn email_empty_string_is_rejected() {
    let email = "".to_string();

    assert!(Email::parse(email).is_err());
}

#[test]
fn email_missing_at_symbol_is_rejected() {
    let email = "".to_string();

    assert!(Email::parse(email).is_err());
}

#[test]
fn email_missing_subject_is_rejected() {
    let email = "@domain.com".to_string();

    assert!(Email::parse(email).is_err());
}

#[test]
fn email_plain_address_is_accepted() {
    let email = Email::parse("a@b.com".to_string()).unwrap();
    assert_eq!(email.as_str(), "a@b.com");
}

#[test]
fn email_without_at_fails_quick_check() {
    assert!(validate_email("ab.com").is_err());
    assert!(validate_email("a@b.com").is_ok());
}

#[test]
fn password_empty_string_is_rejected() {
    let password = "".to_string();

    assert!(Password::parse(password).is_err());
}

#[test]
fn string_less_than_8_characters_is_rejected() {
    let password = "1234567".to_string();

    assert!(Password::parse(password).is_err());
}

#[test]
fn password_of_8_characters_is_accepted() {
    let password = Password::parse("12345678".to_string()).unwrap();
    assert_eq!(password.as_str(), "12345678");
}

#[test]
fn password_parse_error_is_invalid_credentials() {
    assert_eq!(
        Password::parse("short".to_string()).unwrap_err(),
        AuthAPIError::InvalidCredentials
    );
}

#[test]
fn two_fa_code_accepts_exactly_six_digit_values() {
    assert!(TwoFACode::parse("123456".to_string()).is_ok());
    assert!(TwoFACode::parse("100000".to_string()).is_ok());
    assert!(TwoFACode::parse("999999".to_string()).is_ok());
    assert!(TwoFACode::parse("99999".to_string()).is_err());
    assert!(TwoFACode::parse("1000000".to_string()).is_err());
    assert!(TwoFACode::parse("".to_string()).is_err());
    assert!(TwoFACode::parse("12345a".to_string()).is_err());
}

#[test]
fn two_fa_code_keeps_its_text() {
    let code = TwoFACode::parse("123456".to_string()).unwrap();
    assert_eq!(code.as_str(), "123456");
}

#[test]
fn two_fa_default_code_is_six_digits() {
    let code = TwoFACode::default();
    let text = code.to_string_owned();
    assert_eq!(text.len(), 6);
    assert!(text.chars().all(|c| c.is_ascii_digit()));
}

#[test]
fn login_attempt_id_parses_uuid_and_normalises_case() {
    let id = LoginAttemptId::parse("550E8400-E29B-41D4-A716-446655440000".to_string()).unwrap();
    assert_eq!(id.as_str(), "550e8400-e29b-41d4-a716-446655440000");
}

#[test]
fn login_attempt_id_rejects_non_uuid() {
    assert!(LoginAttemptId::parse("not-a-uuid".to_string()).is_err());
}

#[test]
fn login_attempt_id_default_round_trips() {
    let id = LoginAttemptId::default();
    let text = id.to_string_owned();
    assert_eq!(text.len(), 36);
    let reparsed = LoginAttemptId::parse(text.clone()).unwrap();
    assert_eq!(reparsed.as_str(), text.as_str());
}
