//! The credential type: a secret of at least eight characters.

use vstd::prelude::*;
use vstd::string::StrSliceExecFns;

use crate::errors::AuthAPIError;

verus! {

/// The least number of characters a credential may have.
pub const MIN_PASSWORD_CHARS: usize = 8;

/// A credential that passed the length check.
#[derive(Debug)]
pub struct Password(String);

/// Whether a string is refused as a credential.
pub open spec fn spec_invalid_password(s: Seq<char>) -> bool {
    s.len() < MIN_PASSWORD_CHARS
}

impl Password {
    /// Accepts exactly the strings of at least [`MIN_PASSWORD_CHARS`]
    /// characters.
    pub fn parse(password: String) -> (r: Result<Password, AuthAPIError>)
        ensures
            r is Ok <==> !spec_invalid_password(password@),
            r matches Ok(p) ==> p@ == password@,
            r is Err ==> r == Err::<Password, AuthAPIError>(AuthAPIError::InvalidCredentials),
    {
        if Self::invalid_password(&password) {
            return Err(AuthAPIError::InvalidCredentials);
        }
        Ok(Password(password))
    }

    /// The length check behind [`Password::parse`].
    pub fn invalid_password(password: &String) -> (r: bool)
        ensures
            r == spec_invalid_password(password@),
    {
        password.as_str().unicode_len() < MIN_PASSWORD_CHARS
    }

    /// Wraps a string without the length check.  The stores use this to
    /// carry an already-hashed credential inside a user record; a fresh
    /// secret always enters through [`Password::parse`].
    pub fn from_string(value: String) -> (r: Password)
        ensures
            r@ == value@,
    {
        Password(value)
    }

    /// The secret as a string slice.
    pub fn as_str(&self) -> (r: &str)
        ensures
            r@ == self@,
    {
        self.0.as_str()
    }
}

impl View for Password {
    type V = Seq<char>;

    closed spec fn view(&self) -> Seq<char> {
        self.0@
    }
}

impl Clone for Password {
    fn clone(&self) -> (r: Self)
        ensures
            r@ == self@,
    {
        Password(self.0.clone())
    }
}

impl PartialEq for Password {
    fn eq(&self, other: &Self) -> (r: bool) {
        self.0 == other.0
    }
}

impl Eq for Password {}

impl vstd::std_specs::cmp::PartialEqSpecImpl for Password {
    open spec fn obeys_eq_spec() -> bool {
        true
    }

    open spec fn eq_spec(&self, other: &Self) -> bool {
        self@ == other@
    }
}

} // verus!
