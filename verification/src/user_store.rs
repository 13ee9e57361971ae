//! The credential store: identity to credential hash, identities unique.
//!
//! A plaintext credential never enters the store: registration hashes it
//! with the memory-hard function of [`crate::credentials`], and a later
//! check runs the hash verification — never a direct comparison.

use vstd::prelude::*;

use crate::credentials::{argon_verifies, compute_password_hash, verify_password_hash};
use crate::email::Email;
use crate::errors::UserStoreError;
use crate::password::Password;
use crate::user::{User, UserV};

verus! {

/// The mathematical value of a stored user record.
pub ghost struct StoredUserV {
    pub password_hash: Seq<char>,
    pub requires_2fa: bool,
}

/// One stored record: the identity, the credential hash, the flag.
struct StoredUser {
    email: Email,
    password_hash: String,
    requires_2fa: bool,
}

/// In-memory credential store, keyed by identity.
pub struct HashmapUserStore {
    users: Vec<StoredUser>,
}

impl View for HashmapUserStore {
    type V = Map<Seq<char>, StoredUserV>;

    /// The registered records, identity by identity.
    closed spec fn view(&self) -> Map<Seq<char>, StoredUserV> {
        Map::new(
            |k: Seq<char>| exists|i: int| 0 <= i < self.users@.len() && self.users@[i].email@ == k,
            |k: Seq<char>|
                {
                    let i = choose|i: int|
                        0 <= i < self.users@.len() && self.users@[i].email@ == k;
                    StoredUserV {
                        password_hash: self.users@[i].password_hash@,
                        requires_2fa: self.users@[i].requires_2fa,
                    }
                },
        )
    }
}

impl HashmapUserStore {
    /// No two stored records share an identity.
    pub closed spec fn wf(&self) -> bool {
        forall|i: int, j: int|
            0 <= i < j < self.users@.len() ==> #[trigger] self.users@[i].email@
                != #[trigger] self.users@[j].email@
    }

    /// An empty credential store.
    pub fn new() -> (r: HashmapUserStore)
        ensures
            r.wf(),
            r@ == Map::<Seq<char>, StoredUserV>::empty(),
    {
        let r = HashmapUserStore { users: Vec::new() };
        proof {
            assert(r@ =~= Map::<Seq<char>, StoredUserV>::empty());
        }
        r
    }

    /// The position of the record with `email`, if one is stored.
    fn find_index(&self, email: &Email) -> (r: Option<usize>)
        ensures
            match r {
                Option::Some(i) => i < self.users@.len() && self.users@[i as int].email@ == email@,
                Option::None => forall|i: int|
                    0 <= i < self.users@.len() ==> self.users@[i].email@ != email@,
            },
    {
        let n = self.users.len();
        let mut i: usize = 0;
        while i < n
            invariant
                i <= n,
                n == self.users@.len(),
                forall|j: int| 0 <= j < i ==> self.users@[j].email@ != email@,
            decreases n - i,
        {
            if &self.users[i].email == email {
                return Some(i);
            }
            i = i + 1;
        }
        None
    }

    /// With unique identities, the view reads for an identity exactly the
    /// record stored at its position.
    proof fn lemma_view_at(&self, i: int)
        requires
            self.wf(),
            0 <= i < self.users@.len(),
        ensures
            self@.dom().contains(self.users@[i].email@),
            self@[self.users@[i].email@] == (StoredUserV {
                password_hash: self.users@[i].password_hash@,
                requires_2fa: self.users@[i].requires_2fa,
            }),
    {
        let k = self.users@[i].email@;
        let j = choose|j: int| 0 <= j < self.users@.len() && self.users@[j].email@ == k;
        assert(j == i);
    }

    /// An identity found at no position is not in the view.
    proof fn lemma_view_absent(&self, k: Seq<char>)
        requires
            forall|i: int| 0 <= i < self.users@.len() ==> self.users@[i].email@ != k,
        ensures
            !self@.dom().contains(k),
    {
    }

    /// Registers a new user under the hash of their credential; refuses an
    /// identity that is already taken.  A failure of the hashing worker
    /// surfaces as the opaque unexpected error and stores nothing.
    pub fn add_user(&mut self, user: User) -> (r: Result<(), UserStoreError>)
        requires
            old(self).wf(),
        ensures
            final(self).wf(),
            old(self)@.dom().contains(user@.email) ==> r == Err::<(), UserStoreError>(
                UserStoreError::UserAlreadyExists,
            ) && final(self)@ == old(self)@,
            !old(self)@.dom().contains(user@.email) ==> match r {
                Result::Ok(_) => final(self)@.dom() == old(self)@.dom().insert(user@.email)
                    && final(self)@[user@.email].requires_2fa == user@.requires_2fa
                    && argon_verifies(final(self)@[user@.email].password_hash, user@.password)
                    && final(self)@.remove(user@.email) == old(self)@.remove(user@.email),
                Result::Err(e) => e == UserStoreError::UnexpectedError && final(self)@ == old(
                    self,
                )@,
            },
    {
        let ghost k = user@.email;
        let ghost o = self.users@;
        match self.find_index(&user.email) {
            Option::Some(i) => {
                proof {
                    self.lemma_view_at(i as int);
                }
                Err(UserStoreError::UserAlreadyExists)
            },
            Option::None => {
                proof {
                    self.lemma_view_absent(k);
                }
                let password_hash = match compute_password_hash(&user.password) {
                    Ok(h) => h,
                    Err(_) => {
                        return Err(UserStoreError::UnexpectedError);
                    },
                };
                let ghost hv = password_hash@;
                let record = StoredUser {
                    email: user.email,
                    password_hash,
                    requires_2fa: user.requires_2fa,
                };
                self.users.push(record);
                proof {
                    let n = self.users@;
                    assert(n[o.len() as int].email@ == k);
                    assert forall|a: int, b: int|
                        0 <= a < b < n.len() implies #[trigger] n[a].email@
                        != #[trigger] n[b].email@ by {
                        if b < o.len() {
                            assert(o[a].email@ != o[b].email@);
                        } else {
                            assert(o[a].email@ != k);
                        }
                    }
                    let ghost sv = StoredUserV {
                        password_hash: hv,
                        requires_2fa: user.requires_2fa,
                    };
                    assert forall|t: Seq<char>| #[trigger] self@.dom().contains(t) implies old(
                        self,
                    )@.insert(k, sv).dom().contains(t) by {
                        if t != k {
                            let j = choose|j: int| 0 <= j < n.len() && n[j].email@ == t;
                            assert(o[j].email@ == t);
                        }
                    }
                    assert forall|t: Seq<char>| #[trigger]
                        old(self)@.insert(k, sv).dom().contains(t) implies self@.dom().contains(t)
                        && self@[t] == old(self)@.insert(k, sv)[t] by {
                        if t == k {
                            self.lemma_view_at(o.len() as int);
                        } else {
                            let j0 = choose|j0: int| 0 <= j0 < o.len() && o[j0].email@ == t;
                            old(self).lemma_view_at(j0);
                            assert(n[j0] == o[j0]);
                            self.lemma_view_at(j0);
                        }
                    }
                    assert(self@ =~= old(self)@.insert(k, sv));
                    assert(self@.remove(k) =~= old(self)@.remove(k));
                }
                Ok(())
            },
        }
    }

    /// The record registered under `email`, with the credential hash in the
    /// password slot; fails when none is.
    pub fn get_user(&self, email: &Email) -> (r: Result<User, UserStoreError>)
        requires
            self.wf(),
        ensures
            self@.dom().contains(email@) ==> (r matches Ok(u) && u@ == (UserV {
                email: email@,
                password: self@[email@].password_hash,
                requires_2fa: self@[email@].requires_2fa,
            })),
            !self@.dom().contains(email@) ==> r == Err::<User, UserStoreError>(
                UserStoreError::UserNotFound,
            ),
    {
        match self.find_index(email) {
            Option::Some(i) => {
                proof {
                    self.lemma_view_at(i as int);
                }
                let record = &self.users[i];
                Ok(
                    User::new(
                        record.email.clone(),
                        Password::from_string(record.password_hash.clone()),
                        record.requires_2fa,
                    ),
                )
            },
            Option::None => {
                proof {
                    self.lemma_view_absent(email@);
                }
                Err(UserStoreError::UserNotFound)
            },
        }
    }

    /// Checks a credential through the hash verification: fails
    /// `UserNotFound` for an unknown identity and `InvalidCredentials` for
    /// a secret the stored hash refuses.
    pub fn validate_user(&self, email: &Email, password: &Password) -> (r: Result<
        (),
        UserStoreError,
    >)
        requires
            self.wf(),
        ensures
            !self@.dom().contains(email@) ==> r == Err::<(), UserStoreError>(
                UserStoreError::UserNotFound,
            ),
            self@.dom().contains(email@) && !argon_verifies(
                self@[email@].password_hash,
                password@,
            ) ==> r == Err::<(), UserStoreError>(UserStoreError::InvalidCredentials),
            self@.dom().contains(email@) && argon_verifies(self@[email@].password_hash, password@)
                ==> r == Ok::<(), UserStoreError>(()),
    {
        match self.find_index(email) {
            Option::Some(i) => {
                proof {
                    self.lemma_view_at(i as int);
                }
                match verify_password_hash(self.users[i].password_hash.as_str(), password) {
                    Ok(_) => Ok(()),
                    Err(_) => Err(UserStoreError::InvalidCredentials),
                }
            },
            Option::None => {
                proof {
                    self.lemma_view_absent(email@);
                }
                Err(UserStoreError::UserNotFound)
            },
        }
    }
}

impl Default for HashmapUserStore {
    fn default() -> (r: HashmapUserStore)
        ensures
            r.wf(),
            r@ == Map::<Seq<char>, StoredUserV>::empty(),
    {
        HashmapUserStore::new()
    }
}

} // verus!
