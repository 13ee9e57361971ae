//! The engine's laws: properties that tie several operations together,
//! stated over the same specification functions the operations' contracts
//! use, and proved once for all inputs.

use vstd::prelude::*;

use crate::app_state::AppState;
use crate::token::{spec_token, spec_validate, ClaimsV, TOKEN_TTL_SECONDS};
use crate::token::lemma_token_roundtrip;
use crate::two_fa_code_store::ChallengeV;
use crate::user_store::StoredUserV;

verus! {

/// Law: a token issued for an identity validates back to exactly that
/// identity while it is alive and unrevoked — in particular immediately
/// after issue.
pub proof fn lemma_issue_then_validate(state: &AppState, sub: Seq<char>, now: u64, at: u64)
    requires
        now + TOKEN_TTL_SECONDS <= u64::MAX,
        at < now + TOKEN_TTL_SECONDS,
        !state.banned_token_store@.contains(
            spec_token(state.key(), sub, now, (now + TOKEN_TTL_SECONDS) as u64),
        ),
    ensures
        spec_validate(
            state.key(),
            state.banned_token_store@,
            spec_token(state.key(), sub, now, (now + TOKEN_TTL_SECONDS) as u64),
            at,
        ) == Some(ClaimsV { sub, iat: now, exp: (now + TOKEN_TTL_SECONDS) as u64 }),
{
    lemma_token_roundtrip(state.key(), sub, now, (now + TOKEN_TTL_SECONDS) as u64);
}

/// Law: validation is a pure check.  Its verdict is a function of the key,
/// the revocation set, the token text and the clock alone, so two calls
/// against the same state — as `validate_token` and `verify_token` take
/// `&self`, the state cannot have changed in between — return identical
/// results.
pub proof fn lemma_validate_is_function(
    key: Seq<char>,
    banned: Set<Seq<char>>,
    token: Seq<char>,
    now: u64,
    first: Option<ClaimsV>,
    second: Option<ClaimsV>,
)
    requires
        first == spec_validate(key, banned, token, now),
        second == spec_validate(key, banned, token, now),
    ensures
        first == second,
{
}

/// Law: a revoked token is on the denylist and fails validation, whatever
/// its tag and expiry would say.
pub proof fn lemma_revoked_token_invalid(
    key: Seq<char>,
    banned: Set<Seq<char>>,
    token: Seq<char>,
    now: u64,
)
    ensures
        banned.insert(token).contains(token),
        spec_validate(key, banned.insert(token), token, now) is None,
{
}

/// Law: a consumed challenge is gone.  Storing a challenge for an identity
/// and then removing it — which is what a successful verification does —
/// leaves no challenge for that identity, so a repeated verification finds
/// nothing.
pub proof fn lemma_challenge_single_use(
    challenges: Map<Seq<char>, ChallengeV>,
    email: Seq<char>,
    challenge: ChallengeV,
)
    ensures
        !challenges.insert(email, challenge).remove(email).dom().contains(email),
{
}

/// Law: a second challenge for the same identity supersedes the first.
/// After both are issued, the stored challenge is the second one, so a
/// verification against the first attempt id fails even though that id was
/// the stored one when issued.
pub proof fn lemma_challenge_superseded(
    challenges: Map<Seq<char>, ChallengeV>,
    email: Seq<char>,
    first: ChallengeV,
    second: ChallengeV,
)
    ensures
        challenges.insert(email, first).insert(email, second)[email] == second,
        first.id != second.id ==> challenges.insert(email, first).insert(email, second)[email].id
            != first.id,
{
}

/// Law: an identity can be registered once.  After a successful
/// registration the store contains the identity, and `add_user`'s contract
/// then forces every further registration under it to fail
/// `UserAlreadyExists` with the store unchanged.
pub proof fn lemma_second_signup_refused(
    users: Map<Seq<char>, StoredUserV>,
    email: Seq<char>,
    record: StoredUserV,
)
    ensures
        users.insert(email, record).dom().contains(email),
{
}

} // verus!
