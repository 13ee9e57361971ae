//! A registered user: identity, credential, and the second-factor flag.

use vstd::prelude::*;

use crate::email::Email;
use crate::password::Password;

verus! {

/// The mathematical value of a [`User`].
pub ghost struct UserV {
    pub email: Seq<char>,
    pub password: Seq<char>,
    pub requires_2fa: bool,
}

/// A user record.  Created once at signup and never updated by this engine.
#[derive(Debug)]
pub struct User {
    pub email: Email,
    pub password: Password,
    pub requires_2fa: bool,
}

impl User {
    pub fn new(email: Email, password: Password, requires_2fa: bool) -> (r: User)
        ensures
            r@ == (UserV { email: email@, password: password@, requires_2fa }),
    {
        User { email, password, requires_2fa }
    }

    /// The user's identity.
    pub fn email(&self) -> (r: &Email)
        ensures
            r@ == self@.email,
    {
        &self.email
    }

    /// Whether a second factor is required at login.
    pub fn has_2fa(&self) -> (r: bool)
        ensures
            r == self@.requires_2fa,
    {
        self.requires_2fa
    }
}

impl View for User {
    type V = UserV;

    open spec fn view(&self) -> UserV {
        UserV { email: self.email@, password: self.password@, requires_2fa: self.requires_2fa }
    }
}

impl Clone for User {
    fn clone(&self) -> (r: Self)
        ensures
            r@ == self@,
    {
        User {
            email: self.email.clone(),
            password: self.password.clone(),
            requires_2fa: self.requires_2fa,
        }
    }
}

impl PartialEq for User {
    fn eq(&self, other: &Self) -> (r: bool) {
        self.email == other.email && self.password == other.password
            && self.requires_2fa == other.requires_2fa
    }
}

impl Eq for User {}

impl vstd::std_specs::cmp::PartialEqSpecImpl for User {
    open spec fn obeys_eq_spec() -> bool {
        true
    }

    open spec fn eq_spec(&self, other: &Self) -> bool {
        self@ == other@
    }
}

} // verus!
