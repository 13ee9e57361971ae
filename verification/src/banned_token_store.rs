//! The revocation store: a denylist of session tokens.
//!
//! A token on the list is invalid even while its tag and expiry would pass.
//! The in-memory store backs single-process deployments and tests; a
//! networked deployment persists the same interface externally, with expiry
//! of entries delegated to the backing store.

use vstd::prelude::*;

use crate::errors::BannedTokenStoreError;

verus! {

/// In-memory denylist of revoked session tokens.
pub struct HashsetBannedTokenStore {
    tokens: Vec<String>,
}

impl View for HashsetBannedTokenStore {
    type V = Set<Seq<char>>;

    /// The set of revoked token texts.
    closed spec fn view(&self) -> Set<Seq<char>> {
        Set::new(
            |t: Seq<char>|
                exists|i: int| 0 <= i < self.tokens@.len() && self.tokens@[i]@ == t,
        )
    }
}

impl HashsetBannedTokenStore {
    /// An empty denylist.
    pub fn new() -> (r: HashsetBannedTokenStore)
        ensures
            r@ == Set::<Seq<char>>::empty(),
    {
        let r = HashsetBannedTokenStore { tokens: Vec::new() };
        proof {
            assert(r@ =~= Set::<Seq<char>>::empty());
        }
        r
    }

    /// Whether `token` is on the denylist.
    pub fn has_token(&self, token: &str) -> (r: bool)
        ensures
            r == self@.contains(token@),
    {
        let t = token.to_owned();
        let n = self.tokens.len();
        let mut i: usize = 0;
        while i < n
            invariant
                i <= n,
                n == self.tokens@.len(),
                t@ == token@,
                forall|j: int| 0 <= j < i ==> self.tokens@[j]@ != token@,
            decreases n - i,
        {
            if self.tokens[i] == t {
                proof {
                    assert(self.tokens@[i as int]@ == token@);
                }
                return true;
            }
            i = i + 1;
        }
        false
    }

    /// Inserts `token`; refuses a token that is already present.
    pub fn store_token(&mut self, token: &str) -> (r: Result<(), BannedTokenStoreError>)
        ensures
            old(self)@.contains(token@) ==> r == Err::<(), BannedTokenStoreError>(
                BannedTokenStoreError::FailedToStoreToken,
            ) && final(self)@ == old(self)@,
            !old(self)@.contains(token@) ==> r == Ok::<(), BannedTokenStoreError>(())
                && final(self)@ == old(self)@.insert(token@),
    {
        if self.has_token(token) {
            return Err(BannedTokenStoreError::FailedToStoreToken);
        }
        let ghost pre = self.tokens@;
        self.tokens.push(token.to_owned());
        proof {
            assert forall|t: Seq<char>| self@.contains(t) implies old(self)@.insert(
                token@,
            ).contains(t) by {
                let i = choose|i: int| 0 <= i < self.tokens@.len() && self.tokens@[i]@ == t;
                if i < pre.len() {
                    assert(pre[i]@ == t);
                }
            }
            assert forall|t: Seq<char>| old(self)@.insert(token@).contains(t) implies self@
                .contains(t) by {
                if t == token@ {
                    assert(self.tokens@[pre.len() as int]@ == t);
                } else {
                    let i = choose|i: int| 0 <= i < pre.len() && pre[i]@ == t;
                    assert(self.tokens@[i]@ == t);
                }
            }
            assert(self@ =~= old(self)@.insert(token@));
        }
        Ok(())
    }

    /// Inserts `token` with the lifetime of its token class; idempotent on
    /// re-insertion.
    pub fn add_token(&mut self, token: String) -> (r: Result<(), BannedTokenStoreError>)
        ensures
            r == Ok::<(), BannedTokenStoreError>(()),
            final(self)@ == old(self)@.insert(token@),
    {
        let r = self.store_token(token.as_str());
        proof {
            if old(self)@.contains(token@) {
                assert(self@ =~= old(self)@.insert(token@));
            }
        }
        Ok(())
    }

    /// Whether `token` is on the denylist, as a store outcome.
    pub fn contains_token(&self, token: &String) -> (r: Result<bool, BannedTokenStoreError>)
        ensures
            r == Ok::<bool, BannedTokenStoreError>(self@.contains(token@)),
    {
        Ok(self.has_token(token.as_str()))
    }
}

impl Default for HashsetBannedTokenStore {
    fn default() -> (r: HashsetBannedTokenStore)
        ensures
            r@ == Set::<Seq<char>>::empty(),
    {
        HashsetBannedTokenStore::new()
    }
}

} // verus!
