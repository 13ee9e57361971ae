//! Credential hashing: the memory-hard one-way function behind the
//! credential store.
//!
//! A plaintext secret is never persisted; what a backing store keeps is the
//! PHC hash string produced here, and a candidate secret is only ever
//! checked through [`verify_password_hash`].  The verdict of the check is
//! named by the uninterpreted function [`argon_verifies`].

use vstd::prelude::*;

use crate::errors::AuthAPIError;
use crate::password::Password;

verus! {

/// Whether the Argon2 check accepts `password` against the PHC hash string
/// `hash`.  The verdict is a function of the two strings alone.
pub uninterp spec fn argon_verifies(hash: Seq<char>, password: Seq<char>) -> bool;

/// Relies on `argon2::PasswordHasher::hash_password`: the produced PHC
/// string embeds the salt and parameters, so the same password verifies
/// against it.  The salt is random, so nothing else is promised of the
/// output.
#[verifier::external_body]
fn argon2_hash(password: &str) -> (r: Result<String, ()>)
    ensures
        r matches Ok(h) ==> argon_verifies(h@, password@),
{
    let hasher = argon2::Argon2::default();
    match argon2::PasswordHasher::hash_password(&hasher, password.as_bytes()) {
        Ok(h) => Ok(h.to_string()),
        Err(_) => Err(()),
    }
}

/// Relies on `password_hash::phc::PasswordHash::new` and
/// `argon2::PasswordVerifier::verify_password`: the verdict depends only on
/// the hash string and the candidate.
#[verifier::external_body]
fn argon2_verify(hash: &str, password: &str) -> (r: bool)
    ensures
        r == argon_verifies(hash@, password@),
{
    match argon2::PasswordHash::new(hash) {
        Ok(parsed) => argon2::PasswordVerifier::verify_password(
            &argon2::Argon2::default(),
            password.as_bytes(),
            &parsed,
        ).is_ok(),
        Err(_) => false,
    }
}

/// Computes the credential hash stored for a new user.  The hash is salted,
/// so only its verification behaviour is promised; a failure of the hashing
/// worker surfaces as the opaque unexpected error.
pub fn compute_password_hash(password: &Password) -> (r: Result<String, AuthAPIError>)
    ensures
        r matches Ok(h) ==> argon_verifies(h@, password@),
        r is Err ==> r == Err::<String, AuthAPIError>(AuthAPIError::UnexpectedError),
{
    match argon2_hash(password.as_str()) {
        Ok(h) => Ok(h),
        Err(_) => Err(AuthAPIError::UnexpectedError),
    }
}

/// Checks a candidate credential against a stored hash; accepts exactly
/// when the Argon2 check does.
pub fn verify_password_hash(expected_password_hash: &str, password_candidate: &Password) -> (r:
    Result<(), AuthAPIError>)
    ensures
        r is Ok <==> argon_verifies(expected_password_hash@, password_candidate@),
        r is Err ==> r == Err::<(), AuthAPIError>(AuthAPIError::IncorrectCredentials),
{
    if argon2_verify(expected_password_hash, password_candidate.as_str()) {
        Ok(())
    } else {
        Err(AuthAPIError::IncorrectCredentials)
    }
}

} // verus!
