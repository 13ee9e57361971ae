//! Small verified helpers shared by the stores and the HTTP layer: a quick
//! address shape check, the key prefix of the networked revocation store,
//! and the diagnostic report of an error.

use vstd::prelude::*;
use vstd::string::StringExecFns;

use crate::errors::{spec_error_message, AuthAPIError};
use crate::strutil::{chars_of, find_char, lemma_find_spec, spec_find};

verus! {

/// A coarse address check: the string must contain an `'@'`.
pub fn validate_email(email: &str) -> (r: Result<(), AuthAPIError>)
    ensures
        r is Ok <==> exists|i: int| 0 <= i < email@.len() && email@[i] == '@',
        r is Err ==> r == Err::<(), AuthAPIError>(AuthAPIError::InvalidCredentials),
{
    let v = chars_of(email);
    proof {
        lemma_find_spec(email@, '@', 0);
    }
    match find_char(&v, '@', 0) {
        Option::Some(_) => Ok(()),
        Option::None => Err(AuthAPIError::InvalidCredentials),
    }
}

/// The key under which a networked revocation store files `token`.
pub open spec fn spec_key(token: Seq<char>) -> Seq<char> {
    "banned_token:"@ + token
}

/// Prefixes a token with the revocation namespace, keeping keys of
/// different kinds apart in a shared backing store.
pub fn get_key(token: &str) -> (r: String)
    ensures
        r@ == spec_key(token@),
{
    let mut s = String::from_str("banned_token:");
    s.append(token);
    s
}

/// The separator line of a diagnostic report.
pub open spec fn spec_report_separator() -> Seq<char> {
    "\n-----------------------------------------------------------------------------------\n"@
}

/// The full diagnostic report for an error: its message framed by separator
/// lines.
pub open spec fn spec_error_report(e: AuthAPIError) -> Seq<char> {
    spec_report_separator() + spec_error_message(e) + "\n"@ + spec_report_separator()
}

/// Renders the diagnostic report for an error, ready for a logging sink
/// outside the engine.
pub fn log_error_chain(e: &AuthAPIError) -> (r: String)
    ensures
        r@ == spec_error_report(*e),
{
    let mut s = String::from_str(
        "\n-----------------------------------------------------------------------------------\n",
    );
    s.append(e.message().as_str());
    s.append("\n");
    s.append(
        "\n-----------------------------------------------------------------------------------\n",
    );
    s
}

} // verus!
