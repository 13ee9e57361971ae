//! Second-factor artifacts: the opaque attempt id and the six-digit code.

use vstd::prelude::*;

use crate::errors::AuthAPIError;
use crate::strutil::{
    chars_of, lemma_dec_roundtrip, parse_dec_range, push_dec, spec_parse_dec, string_from_chars,
};

verus! {

/// Whether the `uuid` crate parses `s` as a UUID.  The verdict is a
/// function of the characters alone.
pub uninterp spec fn uuid_accepted(s: Seq<char>) -> bool;

/// The canonical hyphenated lowercase rendering of the UUID written in `s`.
/// A function of the characters alone.
pub uninterp spec fn uuid_canonical(s: Seq<char>) -> Seq<char>;

/// Relies on `uuid::Uuid::parse_str` and `uuid::Uuid::to_string`: whether a
/// string parses as a UUID, and the canonical form it then renders back to,
/// depend only on the string.
#[verifier::external_body]
fn parse_uuid(s: &str) -> (r: Option<String>)
    ensures
        r is Some <==> uuid_accepted(s@),
        r matches Some(c) ==> c@ == uuid_canonical(s@),
{
    match uuid::Uuid::parse_str(s) {
        Ok(u) => Some(u.to_string()),
        Err(_) => None,
    }
}

/// Relies on `uuid::Uuid::new_v4` and `uuid::Uuid::to_string`: the
/// hyphenated rendering of a fresh UUID is 36 characters, parses as a UUID,
/// and is its own canonical form.
#[verifier::external_body]
fn new_uuid_string() -> (r: String)
    ensures
        r@.len() == 36,
        uuid_accepted(r@),
        uuid_canonical(r@) == r@,
{
    uuid::Uuid::new_v4().to_string()
}

/// Relies on `rand::random_range`: the sampled value lies in the requested
/// inclusive range, which must not be empty.
#[verifier::external_body]
fn random_in_range(lo: u64, hi: u64) -> (r: u64)
    requires
        lo <= hi,
    ensures
        lo <= r <= hi,
{
    rand::random_range(lo..=hi)
}

/// The opaque random token that names one login attempt awaiting its second
/// factor.
#[derive(Debug)]
pub struct LoginAttemptId(String);

impl LoginAttemptId {
    /// Accepts exactly the strings the UUID parser accepts, normalised to
    /// canonical form.
    pub fn parse(id: String) -> (r: Result<LoginAttemptId, AuthAPIError>)
        ensures
            r is Ok <==> uuid_accepted(id@),
            r matches Ok(a) ==> a@ == uuid_canonical(id@),
            r is Err ==> r == Err::<LoginAttemptId, AuthAPIError>(AuthAPIError::InvalidCredentials),
    {
        match parse_uuid(id.as_str()) {
            Option::Some(c) => Ok(LoginAttemptId(c)),
            Option::None => Err(AuthAPIError::InvalidCredentials),
        }
    }

    /// The id as a string slice.
    pub fn as_str(&self) -> (r: &str)
        ensures
            r@ == self@,
    {
        self.0.as_str()
    }

    /// The id as an owned string.
    pub fn to_string_owned(&self) -> (r: String)
        ensures
            r@ == self@,
    {
        self.0.clone()
    }
}

impl View for LoginAttemptId {
    type V = Seq<char>;

    closed spec fn view(&self) -> Seq<char> {
        self.0@
    }
}

impl Clone for LoginAttemptId {
    fn clone(&self) -> (r: Self)
        ensures
            r@ == self@,
    {
        LoginAttemptId(self.0.clone())
    }
}

impl PartialEq for LoginAttemptId {
    fn eq(&self, other: &Self) -> (r: bool) {
        self.0 == other.0
    }
}

impl Eq for LoginAttemptId {}

impl vstd::std_specs::cmp::PartialEqSpecImpl for LoginAttemptId {
    open spec fn obeys_eq_spec() -> bool {
        true
    }

    open spec fn eq_spec(&self, other: &Self) -> bool {
        self@ == other@
    }
}

impl Default for LoginAttemptId {
    /// A fresh random attempt id, already in canonical form.
    fn default() -> (r: Self)
        ensures
            r@.len() == 36,
            uuid_accepted(r@),
            uuid_canonical(r@) == r@,
    {
        LoginAttemptId(new_uuid_string())
    }
}

/// Whether `s` is the decimal text of a six-digit code.
pub open spec fn spec_code_accepted(s: Seq<char>) -> bool {
    match spec_parse_dec(s) {
        Option::Some(v) => 100000 <= v <= 999999,
        Option::None => false,
    }
}

/// The six-digit numeric second-factor code.
#[derive(Debug)]
pub struct TwoFACode(String);

impl TwoFACode {
    /// Accepts exactly the decimal texts whose value has six digits.
    pub fn parse(code: String) -> (r: Result<TwoFACode, AuthAPIError>)
        ensures
            r is Ok <==> spec_code_accepted(code@),
            r matches Ok(c) ==> c@ == code@,
            r is Err ==> r == Err::<TwoFACode, AuthAPIError>(AuthAPIError::InvalidCredentials),
    {
        let v = chars_of(code.as_str());
        proof {
            assert(v@.subrange(0, v@.len() as int) =~= code@);
        }
        match parse_dec_range(&v, 0, v.len()) {
            Option::Some(value) => {
                if 100000 <= value && value <= 999999 {
                    Ok(TwoFACode(code))
                } else {
                    Err(AuthAPIError::InvalidCredentials)
                }
            },
            Option::None => Err(AuthAPIError::InvalidCredentials),
        }
    }

    /// The code as a string slice.
    pub fn as_str(&self) -> (r: &str)
        ensures
            r@ == self@,
    {
        self.0.as_str()
    }

    /// The code as an owned string.
    pub fn to_string_owned(&self) -> (r: String)
        ensures
            r@ == self@,
    {
        self.0.clone()
    }
}

impl View for TwoFACode {
    type V = Seq<char>;

    closed spec fn view(&self) -> Seq<char> {
        self.0@
    }
}

impl Clone for TwoFACode {
    fn clone(&self) -> (r: Self)
        ensures
            r@ == self@,
    {
        TwoFACode(self.0.clone())
    }
}

impl PartialEq for TwoFACode {
    fn eq(&self, other: &Self) -> (r: bool) {
        self.0 == other.0
    }
}

impl Eq for TwoFACode {}

impl vstd::std_specs::cmp::PartialEqSpecImpl for TwoFACode {
    open spec fn obeys_eq_spec() -> bool {
        true
    }

    open spec fn eq_spec(&self, other: &Self) -> bool {
        self@ == other@
    }
}

impl Default for TwoFACode {
    /// A fresh random six-digit code.
    fn default() -> (r: Self)
        ensures
            spec_code_accepted(r@),
    {
        let value = random_in_range(100000, 999999);
        let mut digits: Vec<char> = Vec::new();
        push_dec(value, &mut digits);
        proof {
            lemma_dec_roundtrip(value);
            assert(digits@ =~= crate::strutil::spec_dec(value));
        }
        TwoFACode(string_from_chars(&digits))
    }
}

} // verus!
