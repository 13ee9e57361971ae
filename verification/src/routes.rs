//! The request and reply shapes of the five API operations.  The HTTP layer
//! outside the library turns wire formats into these plain values and back.

use vstd::prelude::*;

verus! {

/// Input of the signup operation.
#[derive(Debug)]
pub struct SignupRequest {
    pub email: String,
    pub password: String,
    pub requires_2fa: bool,
}

/// Reply of a successful signup.
#[derive(Debug)]
pub struct SignupResponse {
    pub message: String,
}

/// Input of the login operation.
#[derive(Debug)]
pub struct LoginRequest {
    pub email: String,
    pub password: String,
}

/// Reply of a login that awaits a second factor.
#[derive(Debug)]
pub struct TwoFactorAuthResponse {
    pub message: String,
    pub login_attempt_id: String,
}

/// Reply of a successful login: either fully authenticated or pending the
/// second factor.
#[derive(Debug)]
pub enum LoginResponse {
    RegularAuth,
    TwoFactorAuth(TwoFactorAuthResponse),
}

/// Input of the second-factor verification operation.
#[derive(Debug)]
pub struct Verify2FARequest {
    pub email: String,
    pub login_attempt_id: String,
    pub two_fa_code: String,
}

/// Reply of a successful second-factor verification.
#[derive(Debug)]
pub struct Verify2FAResponse {
    pub message: String,
}

/// Input of the token verification operation.
#[derive(Debug)]
pub struct VerifyTokenRequest {
    pub token: String,
}

/// Reply of a successful token verification.
#[derive(Debug)]
pub struct VerifyTokenResponse {
    pub message: String,
}

} // verus!
