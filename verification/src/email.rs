//! The identity type: a syntactically valid address.
//!
//! Syntax checking is delegated to the `validator` crate; its verdict is
//! named by the uninterpreted function [`email_accepted`], so every contract
//! downstream speaks of the same predicate.

use vstd::prelude::*;

use crate::errors::AuthAPIError;

verus! {

/// Whether the `validator` crate accepts `s` as an email address.
/// The verdict is a function of the characters alone.
pub uninterp spec fn email_accepted(s: Seq<char>) -> bool;

/// Relies on `validator::ValidateEmail::validate_email` (HTML5 address
/// syntax): the verdict depends only on the string, an empty string is
/// rejected, and a string without `'@'` is rejected.
#[verifier::external_body]
fn check_email(s: &String) -> (r: bool)
    ensures
        r == email_accepted(s@),
        s@.len() == 0 ==> !r,
        (forall|i: int| 0 <= i < s@.len() ==> s@[i] != '@') ==> !r,
{
    validator::ValidateEmail::validate_email(s)
}

/// A validated identity.  Immutable once created; the primary key of every
/// store in the engine.
#[derive(Debug)]
pub struct Email(String);

impl Email {
    /// Accepts exactly the strings that [`email_accepted`] holds of.
    pub fn parse(email: String) -> (r: Result<Email, AuthAPIError>)
        ensures
            r is Ok <==> email_accepted(email@),
            r matches Ok(e) ==> e@ == email@,
            r is Err ==> r == Err::<Email, AuthAPIError>(AuthAPIError::InvalidCredentials),
    {
        if check_email(&email) {
            Ok(Email(email))
        } else {
            Err(AuthAPIError::InvalidCredentials)
        }
    }

    /// The address as a string slice.
    pub fn as_str(&self) -> (r: &str)
        ensures
            r@ == self@,
    {
        self.0.as_str()
    }

    /// The address as an owned string.
    pub fn to_string_owned(&self) -> (r: String)
        ensures
            r@ == self@,
    {
        self.0.clone()
    }
}

impl View for Email {
    type V = Seq<char>;

    closed spec fn view(&self) -> Seq<char> {
        self.0@
    }
}


impl Clone for Email {
    fn clone(&self) -> (r: Self)
        ensures
            r@ == self@,
    {
        Email(self.0.clone())
    }
}

impl PartialEq for Email {
    fn eq(&self, other: &Self) -> (r: bool) {
        self.0 == other.0
    }
}

impl Eq for Email {}

impl vstd::std_specs::cmp::PartialEqSpecImpl for Email {
    open spec fn obeys_eq_spec() -> bool {
        true
    }

    open spec fn eq_spec(&self, other: &Self) -> bool {
        self@ == other@
    }
}

} // verus!
