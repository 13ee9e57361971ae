//! Authentication and session lifecycle engine.
//!
//! The crate verifies credentials, drives the two-factor challenge state
//! machine, issues and validates signed expiring session tokens, and keeps a
//! denylist of revoked tokens.  Every flow is specified by a contract and
//! proved by Verus; the HTTP layer and the networked store backends live
//! outside the library and talk to it through plain values.

pub mod app_state;
pub mod banned_token_store;
pub mod credentials;
pub mod email;
pub mod errors;
pub mod helpers;
pub mod laws;
pub mod mock_email_client;
pub mod password;
pub mod routes;
pub mod strutil;
pub mod token;
pub mod two_fa;
pub mod two_fa_code_store;
pub mod user;
pub mod user_store;
