//! The challenge store: at most one live second-factor challenge per
//! identity.
//!
//! Issuing a challenge for an identity supersedes any prior one
//! (last-write-wins); a challenge is removed when consumed, so a pair can be
//! used at most once.

use vstd::prelude::*;

use crate::email::Email;
use crate::errors::TwoFACodeStoreError;
use crate::two_fa::{LoginAttemptId, TwoFACode};

verus! {

/// The mathematical value of a stored challenge.
pub ghost struct ChallengeV {
    pub id: Seq<char>,
    pub code: Seq<char>,
}

/// One stored challenge.
struct Challenge {
    email: Email,
    id: LoginAttemptId,
    code: TwoFACode,
}

/// In-memory challenge store, keyed by identity.
pub struct HashmapTwoFACodeStore {
    codes: Vec<Challenge>,
}

impl View for HashmapTwoFACodeStore {
    type V = Map<Seq<char>, ChallengeV>;

    /// The live challenges, identity by identity.
    closed spec fn view(&self) -> Map<Seq<char>, ChallengeV> {
        Map::new(
            |k: Seq<char>| exists|i: int| 0 <= i < self.codes@.len() && self.codes@[i].email@ == k,
            |k: Seq<char>|
                {
                    let i = choose|i: int|
                        0 <= i < self.codes@.len() && self.codes@[i].email@ == k;
                    ChallengeV { id: self.codes@[i].id@, code: self.codes@[i].code@ }
                },
        )
    }
}

impl HashmapTwoFACodeStore {
    /// No two stored challenges share an identity.
    pub closed spec fn wf(&self) -> bool {
        forall|i: int, j: int|
            0 <= i < j < self.codes@.len() ==> #[trigger] self.codes@[i].email@
                != #[trigger] self.codes@[j].email@
    }

    /// An empty challenge store.
    pub fn new() -> (r: HashmapTwoFACodeStore)
        ensures
            r.wf(),
            r@ == Map::<Seq<char>, ChallengeV>::empty(),
    {
        let r = HashmapTwoFACodeStore { codes: Vec::new() };
        proof {
            assert(r@ =~= Map::<Seq<char>, ChallengeV>::empty());
        }
        r
    }

    /// The position of the challenge for `email`, if one is stored.
    fn find_index(&self, email: &Email) -> (r: Option<usize>)
        ensures
            match r {
                Option::Some(i) => i < self.codes@.len() && self.codes@[i as int].email@ == email@,
                Option::None => forall|i: int|
                    0 <= i < self.codes@.len() ==> self.codes@[i].email@ != email@,
            },
    {
        let n = self.codes.len();
        let mut i: usize = 0;
        while i < n
            invariant
                i <= n,
                n == self.codes@.len(),
                forall|j: int| 0 <= j < i ==> self.codes@[j].email@ != email@,
            decreases n - i,
        {
            if &self.codes[i].email == email {
                return Some(i);
            }
            i = i + 1;
        }
        None
    }

    /// With unique identities, the view reads for an identity exactly the
    /// entry stored at its position.
    proof fn lemma_view_at(&self, i: int)
        requires
            self.wf(),
            0 <= i < self.codes@.len(),
        ensures
            self@.dom().contains(self.codes@[i].email@),
            self@[self.codes@[i].email@] == (ChallengeV {
                id: self.codes@[i].id@,
                code: self.codes@[i].code@,
            }),
    {
        let k = self.codes@[i].email@;
        assert(exists|j: int| 0 <= j < self.codes@.len() && self.codes@[j].email@ == k);
        let j = choose|j: int| 0 <= j < self.codes@.len() && self.codes@[j].email@ == k;
        assert(j == i);
    }

    /// An identity found at no position is not in the view.
    proof fn lemma_view_absent(&self, k: Seq<char>)
        requires
            forall|i: int| 0 <= i < self.codes@.len() ==> self.codes@[i].email@ != k,
        ensures
            !self@.dom().contains(k),
    {
    }

    /// Stores a challenge for `email`, superseding any prior one.
    pub fn add_code(
        &mut self,
        email: Email,
        login_attempt_id: LoginAttemptId,
        code: TwoFACode,
    ) -> (r: Result<(), TwoFACodeStoreError>)
        requires
            old(self).wf(),
        ensures
            final(self).wf(),
            r == Ok::<(), TwoFACodeStoreError>(()),
            final(self)@ == old(self)@.insert(
                email@,
                ChallengeV { id: login_attempt_id@, code: code@ },
            ),
    {
        let ghost k = email@;
        let ghost cv = ChallengeV { id: login_attempt_id@, code: code@ };
        let ghost o = self.codes@;
        match self.find_index(&email) {
            Option::Some(i) => {
                self.codes.remove(i);
                proof {
                    lemma_entries_after_remove(o, self.codes@, i as int);
                }
                let ghost m = self.codes@;
                self.codes.push(Challenge { email, id: login_attempt_id, code });
                proof {
                    let n = self.codes@;
                    assert(n[m.len() as int].email@ == k);
                    assert forall|a: int, b: int|
                        0 <= a < b < n.len() implies #[trigger] n[a].email@
                        != #[trigger] n[b].email@ by {
                        if b < m.len() {
                            assert(m[a].email@ != m[b].email@);
                        } else {
                            assert(m[a].email@ != o[i as int].email@);
                        }
                    }
                    assert forall|t: Seq<char>| #[trigger] self@.dom().contains(t) implies old(
                        self,
                    )@.insert(k, cv).dom().contains(t) by {
                        if t != k {
                            let j = choose|j: int| 0 <= j < n.len() && n[j].email@ == t;
                            assert(m[j].email@ == t);
                            let ghost jo: int = if j < i { j } else { j + 1 };
                            assert(o[jo].email@ == t);
                        }
                    }
                    assert forall|t: Seq<char>| #[trigger]
                        old(self)@.insert(k, cv).dom().contains(t) implies self@.dom().contains(t)
                        && self@[t] == old(self)@.insert(k, cv)[t] by {
                        if t == k {
                            self.lemma_view_at(m.len() as int);
                        } else {
                            let j0 = choose|j0: int| 0 <= j0 < o.len() && o[j0].email@ == t;
                            old(self).lemma_view_at(j0);
                            assert(j0 != i);
                            let ghost jm: int = if j0 < i { j0 } else { j0 - 1 };
                            assert(m[jm] == o[j0]);
                            assert(n[jm] == o[j0]);
                            self.lemma_view_at(jm);
                        }
                    }
                    assert(self@ =~= old(self)@.insert(k, cv));
                }
            },
            Option::None => {
                let ghost m = self.codes@;
                self.codes.push(Challenge { email, id: login_attempt_id, code });
                proof {
                    let n = self.codes@;
                    assert(n[m.len() as int].email@ == k);
                    assert forall|a: int, b: int|
                        0 <= a < b < n.len() implies #[trigger] n[a].email@
                        != #[trigger] n[b].email@ by {
                        if b < m.len() {
                            assert(m[a].email@ != m[b].email@);
                        } else {
                            assert(m[a].email@ != k);
                        }
                    }
                    assert forall|t: Seq<char>| #[trigger] self@.dom().contains(t) implies old(
                        self,
                    )@.insert(k, cv).dom().contains(t) by {
                        if t != k {
                            let j = choose|j: int| 0 <= j < n.len() && n[j].email@ == t;
                            assert(o[j].email@ == t);
                        }
                    }
                    assert forall|t: Seq<char>| #[trigger]
                        old(self)@.insert(k, cv).dom().contains(t) implies self@.dom().contains(t)
                        && self@[t] == old(self)@.insert(k, cv)[t] by {
                        if t == k {
                            self.lemma_view_at(m.len() as int);
                        } else {
                            let j0 = choose|j0: int| 0 <= j0 < o.len() && o[j0].email@ == t;
                            old(self).lemma_view_at(j0);
                            assert(n[j0] == o[j0]);
                            self.lemma_view_at(j0);
                        }
                    }
                    assert(self@ =~= old(self)@.insert(k, cv));
                }
            },
        }
        Ok(())
    }

    /// Deletes the challenge for `email`; fails when none is stored.
    pub fn remove_code(&mut self, email: &Email) -> (r: Result<(), TwoFACodeStoreError>)
        requires
            old(self).wf(),
        ensures
            final(self).wf(),
            old(self)@.dom().contains(email@) ==> r == Ok::<(), TwoFACodeStoreError>(())
                && final(self)@ == old(self)@.remove(email@),
            !old(self)@.dom().contains(email@) ==> r == Err::<(), TwoFACodeStoreError>(
                TwoFACodeStoreError::LoginAttemptIdNotFound,
            ) && final(self)@ == old(self)@,
    {
        let ghost k = email@;
        let ghost o = self.codes@;
        match self.find_index(email) {
            Option::Some(i) => {
                proof {
                    old(self).lemma_view_at(i as int);
                }
                self.codes.remove(i);
                proof {
                    lemma_entries_after_remove(o, self.codes@, i as int);
                    let m = self.codes@;
                    assert forall|t: Seq<char>| #[trigger] self@.dom().contains(t) implies old(
                        self,
                    )@.remove(k).dom().contains(t) && self@[t] == old(self)@.remove(k)[t] by {
                        let j = choose|j: int| 0 <= j < m.len() && m[j].email@ == t;
                        let ghost jo: int = if j < i { j } else { j + 1 };
                        assert(o[jo] == m[j]);
                        old(self).lemma_view_at(jo);
                        self.lemma_view_at(j);
                    }
                    assert forall|t: Seq<char>| #[trigger]
                        old(self)@.remove(k).dom().contains(t) implies self@.dom().contains(
                        t,
                    ) by {
                        let j0 = choose|j0: int| 0 <= j0 < o.len() && o[j0].email@ == t;
                        assert(j0 != i);
                        let ghost jm: int = if j0 < i { j0 } else { j0 - 1 };
                        assert(m[jm] == o[j0]);
                        assert(m[jm].email@ == t);
                    }
                    assert(self@ =~= old(self)@.remove(k));
                }
                Ok(())
            },
            Option::None => {
                proof {
                    self.lemma_view_absent(k);
                }
                Err(TwoFACodeStoreError::LoginAttemptIdNotFound)
            },
        }
    }

    /// The current challenge for `email`; fails when none is stored.
    pub fn get_code(&self, email: &Email) -> (r: Result<
        (LoginAttemptId, TwoFACode),
        TwoFACodeStoreError,
    >)
        requires
            self.wf(),
        ensures
            self@.dom().contains(email@) ==> (r matches Ok(p) && p.0@ == self@[email@].id
                && p.1@ == self@[email@].code),
            !self@.dom().contains(email@) ==> r == Err::<
                (LoginAttemptId, TwoFACode),
                TwoFACodeStoreError,
            >(TwoFACodeStoreError::LoginAttemptIdNotFound),
    {
        match self.find_index(email) {
            Option::Some(i) => {
                proof {
                    self.lemma_view_at(i as int);
                }
                Ok((self.codes[i].id.clone(), self.codes[i].code.clone()))
            },
            Option::None => {
                proof {
                    self.lemma_view_absent(email@);
                }
                Err(TwoFACodeStoreError::LoginAttemptIdNotFound)
            },
        }
    }
}

impl Default for HashmapTwoFACodeStore {
    fn default() -> (r: HashmapTwoFACodeStore)
        ensures
            r.wf(),
            r@ == Map::<Seq<char>, ChallengeV>::empty(),
    {
        HashmapTwoFACodeStore::new()
    }
}

/// After removing position `i`, each remaining entry is the old entry at or
/// right after its position, no survivor carries the removed identity, and
/// uniqueness is kept.
proof fn lemma_entries_after_remove(o: Seq<Challenge>, m: Seq<Challenge>, i: int)
    requires
        0 <= i < o.len(),
        m == o.remove(i),
        forall|a: int, b: int|
            0 <= a < b < o.len() ==> #[trigger] o[a].email@ != #[trigger] o[b].email@,
    ensures
        m.len() == o.len() - 1,
        forall|j: int| 0 <= j < m.len() ==> #[trigger] m[j] == if j < i {
            o[j]
        } else {
            o[j + 1]
        },
        forall|j: int| 0 <= j < m.len() ==> #[trigger] m[j].email@ != o[i].email@,
        forall|a: int, b: int|
            0 <= a < b < m.len() ==> #[trigger] m[a].email@ != #[trigger] m[b].email@,
{
    assert forall|j: int| 0 <= j < m.len() implies #[trigger] m[j].email@ != o[i].email@ by {
        if j < i {
            assert(o[j].email@ != o[i].email@);
        } else {
            assert(o[i].email@ != o[j + 1].email@);
        }
    }
    assert forall|a: int, b: int| 0 <= a < b < m.len() implies #[trigger] m[a].email@
        != #[trigger] m[b].email@ by {
        let a0: int = if a < i {
            a
        } else {
            a + 1
        };
        let b0: int = if b < i {
            b
        } else {
            b + 1
        };
        assert(o[a0].email@ != o[b0].email@);
    }
}

} // verus!
