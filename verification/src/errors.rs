//! Error taxonomy of the authentication engine.
//!
//! Domain errors are plain kind enums compared by tag; infrastructure
//! failures collapse into a single `UnexpectedError` kind so that no internal
//! detail reaches a client.

use vstd::prelude::*;
use vstd::string::StringExecFns;

verus! {

/// Outcome kinds of the credential store.
#[derive(Clone, Copy, Debug, PartialEq, Eq, Structural)]
pub enum UserStoreError {
    UserAlreadyExists,
    UserNotFound,
    InvalidCredentials,
    IncorrectCredentials,
    UnexpectedError,
}

/// Outcome kinds of the revocation (banned token) store.
#[derive(Clone, Copy, Debug, PartialEq, Eq, Structural)]
pub enum BannedTokenStoreError {
    TokenNotFound,
    FailedToStoreToken,
    UnexpectedError,
}

/// Outcome kinds of the two-factor challenge store.
#[derive(Clone, Copy, Debug, PartialEq, Eq, Structural)]
pub enum TwoFACodeStoreError {
    LoginAttemptIdNotFound,
    UnexpectedError,
}

/// Client-facing error kinds of the whole authentication API.
#[derive(Clone, Copy, Debug, PartialEq, Eq, Structural)]
pub enum AuthAPIError {
    UserAlreadyExists,
    InvalidCredentials,
    IncorrectCredentials,
    MissingToken,
    InvalidToken,
    UnexpectedError,
}

/// Body of an error reply: the message shown to the client.
#[derive(Debug)]
pub struct ErrorResponse {
    pub error: String,
}

impl Clone for ErrorResponse {
    fn clone(&self) -> (r: Self)
        ensures
            r.error@ == self.error@,
    {
        ErrorResponse { error: self.error.clone() }
    }
}

/// The HTTP status code that each API error kind maps to.
pub open spec fn spec_error_status(e: AuthAPIError) -> u16 {
    match e {
        AuthAPIError::UserAlreadyExists => 409,
        AuthAPIError::InvalidCredentials => 400,
        AuthAPIError::IncorrectCredentials => 401,
        AuthAPIError::MissingToken => 400,
        AuthAPIError::InvalidToken => 401,
        AuthAPIError::UnexpectedError => 500,
    }
}

/// The message that each API error kind maps to.
pub open spec fn spec_error_message(e: AuthAPIError) -> Seq<char> {
    match e {
        AuthAPIError::UserAlreadyExists => "User already exists"@,
        AuthAPIError::InvalidCredentials => "Invalid credentials"@,
        AuthAPIError::IncorrectCredentials => "Incorrect credentials"@,
        AuthAPIError::MissingToken => "Missing auth token"@,
        AuthAPIError::InvalidToken => "Invalid auth token"@,
        AuthAPIError::UnexpectedError => "Unexpected error"@,
    }
}

impl AuthAPIError {
    /// Status code of the client-facing reply for this error kind.
    pub fn status_code(&self) -> (r: u16)
        ensures
            r == spec_error_status(*self),
    {
        match self {
            AuthAPIError::UserAlreadyExists => 409,
            AuthAPIError::InvalidCredentials => 400,
            AuthAPIError::IncorrectCredentials => 401,
            AuthAPIError::MissingToken => 400,
            AuthAPIError::InvalidToken => 401,
            AuthAPIError::UnexpectedError => 500,
        }
    }

    /// Message of the client-facing reply for this error kind.
    pub fn message(&self) -> (r: String)
        ensures
            r@ == spec_error_message(*self),
    {
        match self {
            AuthAPIError::UserAlreadyExists => String::from_str("User already exists"),
            AuthAPIError::InvalidCredentials => String::from_str("Invalid credentials"),
            AuthAPIError::IncorrectCredentials => String::from_str("Incorrect credentials"),
            AuthAPIError::MissingToken => String::from_str("Missing auth token"),
            AuthAPIError::InvalidToken => String::from_str("Invalid auth token"),
            AuthAPIError::UnexpectedError => String::from_str("Unexpected error"),
        }
    }

    /// The body sent with an error reply.
    pub fn to_response(&self) -> (r: ErrorResponse)
        ensures
            r.error@ == spec_error_message(*self),
    {
        ErrorResponse { error: self.message() }
    }
}

} // verus!
