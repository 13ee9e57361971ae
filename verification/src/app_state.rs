//! The orchestrator: one context object holding every store and the signing
//! key, with the five flows of the authentication state machine.
//!
//! Each flow takes plain values and the current time, decides, mutates the
//! stores it owns, and reports its outcome; everything the flow decides is
//! stated in its contract.

use vstd::prelude::*;
use vstd::string::StringExecFns;

use crate::banned_token_store::HashsetBannedTokenStore;
use crate::credentials::argon_verifies;
use crate::email::{email_accepted, Email};
use crate::errors::{AuthAPIError, UserStoreError};
use crate::mock_email_client::MockEmailClient;
use crate::password::{spec_invalid_password, Password};
use crate::routes::{
    LoginRequest, LoginResponse, SignupRequest, SignupResponse, TwoFactorAuthResponse,
    Verify2FARequest, VerifyTokenRequest,
};
use crate::token::{
    check_token, issue_token, spec_token, spec_validate, Claims, TOKEN_TTL_SECONDS,
};
use crate::two_fa::{spec_code_accepted, uuid_accepted, uuid_canonical, LoginAttemptId, TwoFACode};
use crate::two_fa_code_store::{ChallengeV, HashmapTwoFACodeStore};
use crate::user::User;
use crate::user_store::HashmapUserStore;

verus! {

/// The shared context of the engine: the three stores, the notifier, and
/// the process-wide signing key.
pub struct AppState {
    pub user_store: HashmapUserStore,
    pub banned_token_store: HashsetBannedTokenStore,
    pub two_fa_code_store: HashmapTwoFACodeStore,
    pub email_client: MockEmailClient,
    pub token_key: Vec<char>,
}

impl AppState {
    /// Both keyed stores keep their identities unique.
    pub open spec fn wf(&self) -> bool {
        self.user_store.wf() && self.two_fa_code_store.wf()
    }

    /// The process-wide signing key.
    pub open spec fn key(&self) -> Seq<char> {
        self.token_key@
    }

    /// Builds the context from its stores and the signing key.
    pub fn new(
        user_store: HashmapUserStore,
        banned_token_store: HashsetBannedTokenStore,
        two_fa_code_store: HashmapTwoFACodeStore,
        email_client: MockEmailClient,
        secret: &str,
    ) -> (r: AppState)
        ensures
            r.user_store == user_store,
            r.banned_token_store == banned_token_store,
            r.two_fa_code_store == two_fa_code_store,
            r.key() == secret@,
    {
        AppState {
            user_store,
            banned_token_store,
            two_fa_code_store,
            email_client,
            token_key: crate::strutil::chars_of(secret),
        }
    }

    /// Issues a session token for `email`, valid for the fixed lifetime
    /// from `now`.
    pub fn generate_auth_token(&self, email: &Email, now: u64) -> (r: String)
        requires
            now + TOKEN_TTL_SECONDS <= u64::MAX,
        ensures
            r@ == spec_token(self.key(), email@, now, (now + TOKEN_TTL_SECONDS) as u64),
    {
        issue_token(&self.token_key, email.as_str(), now, now + TOKEN_TTL_SECONDS)
    }

    /// Validates a token at time `now`: structure and tag, then expiry,
    /// then the revocation store.  Reads every store only; changes nothing.
    pub fn validate_token(&self, token: &str, now: u64) -> (r: Result<Claims, AuthAPIError>)
        ensures
            match spec_validate(self.key(), self.banned_token_store@, token@, now) {
                Option::Some(cv) => r matches Ok(c) && c@ == cv,
                Option::None => r == Err::<Claims, AuthAPIError>(AuthAPIError::InvalidToken),
            },
    {
        let claims = match check_token(&self.token_key, token, now) {
            Option::Some(c) => c,
            Option::None => {
                return Err(AuthAPIError::InvalidToken);
            },
        };
        if self.banned_token_store.has_token(token) {
            return Err(AuthAPIError::InvalidToken);
        }
        Ok(claims)
    }

    /// Registers a new user.  A malformed identity or credential is
    /// rejected before any store is read; a taken identity is refused.
    pub fn signup(&mut self, request: &SignupRequest) -> (r: Result<SignupResponse, AuthAPIError>)
        requires
            old(self).wf(),
        ensures
            final(self).wf(),
            final(self).key() == old(self).key(),
            final(self).banned_token_store@ == old(self).banned_token_store@,
            final(self).two_fa_code_store@ == old(self).two_fa_code_store@,
            !(email_accepted(request.email@) && !spec_invalid_password(request.password@)) ==> r
                == Err::<SignupResponse, AuthAPIError>(AuthAPIError::InvalidCredentials) && final(self).user_store@ == old(self).user_store@,
            email_accepted(request.email@) && !spec_invalid_password(request.password@) && old(self).user_store@.dom().contains(request.email@) ==> r == Err::<
                SignupResponse,
                AuthAPIError,
            >(AuthAPIError::UserAlreadyExists) && final(self).user_store@ == old(self).user_store@,
            email_accepted(request.email@) && !spec_invalid_password(request.password@) && !old(self).user_store@.dom().contains(request.email@) ==> match r {
                Result::Ok(resp) => resp.message@ == "User created successfully!"@ && final(self).user_store@.dom() == old(self).user_store@.dom().insert(request.email@) && final(self).user_store@[request.email@].requires_2fa == request.requires_2fa
                    && argon_verifies(
                    final(self).user_store@[request.email@].password_hash,
                    request.password@,
                ) && final(self).user_store@.remove(request.email@) == old(self).user_store@.remove(request.email@),
                Result::Err(e) => e == AuthAPIError::UnexpectedError && final(self).user_store@
                    == old(self).user_store@,
            },
    {
        let email = match Email::parse(request.email.clone()) {
            Ok(email) => email,
            Err(e) => {
                return Err(e);
            },
        };
        let password = match Password::parse(request.password.clone()) {
            Ok(password) => password,
            Err(e) => {
                return Err(e);
            },
        };
        let user = User::new(email, password, request.requires_2fa);
        match self.user_store.add_user(user) {
            Ok(_) => Ok(
                SignupResponse { message: String::from_str("User created successfully!") },
            ),
            Err(UserStoreError::UserAlreadyExists) => Err(AuthAPIError::UserAlreadyExists),
            Err(_) => Err(AuthAPIError::UnexpectedError),
        }
    }

    /// Logs a user in.  A malformed request is rejected outright; a missing
    /// identity and a wrong credential are indistinguishable to the caller.
    /// Without a second factor the reply carries a fresh session token;
    /// with one, a fresh challenge supersedes any prior challenge for the
    /// identity, the code goes to the notifier, and the reply carries the
    /// attempt id only.
    pub fn login(&mut self, request: &LoginRequest, now: u64) -> (r: Result<
        (LoginResponse, Option<String>),
        AuthAPIError,
    >)
        requires
            old(self).wf(),
            now + TOKEN_TTL_SECONDS <= u64::MAX,
        ensures
            final(self).wf(),
            final(self).key() == old(self).key(),
            final(self).user_store@ == old(self).user_store@,
            final(self).banned_token_store@ == old(self).banned_token_store@,
            !(email_accepted(request.email@) && !spec_invalid_password(request.password@)) ==> r
                == Err::<(LoginResponse, Option<String>), AuthAPIError>(
                AuthAPIError::InvalidCredentials,
            ) && final(self).two_fa_code_store@ == old(self).two_fa_code_store@,
            email_accepted(request.email@) && !spec_invalid_password(request.password@) && !(old(self).user_store@.dom().contains(request.email@) && argon_verifies(
                old(self).user_store@[request.email@].password_hash,
                request.password@,
            )) ==> r == Err::<(LoginResponse, Option<String>), AuthAPIError>(
                AuthAPIError::IncorrectCredentials,
            ) && final(self).two_fa_code_store@ == old(self).two_fa_code_store@,
            login_accepted(old(self), request) && !old(self).user_store@[request.email@].requires_2fa
                ==> (r matches Ok(pair) && pair.0 is RegularAuth && (pair.1 matches Some(tok)
                && tok@ == spec_token(
                old(self).key(),
                request.email@,
                now,
                (now + TOKEN_TTL_SECONDS) as u64,
            )) && final(self).two_fa_code_store@ == old(self).two_fa_code_store@),
            login_accepted(old(self), request) && old(self).user_store@[request.email@].requires_2fa
                ==> (r matches Ok(pair) && pair.1 is None && (pair.0 matches
                LoginResponse::TwoFactorAuth(resp) && resp.message@ == "2FA required"@
                && uuid_accepted(resp.login_attempt_id@) && final(self).two_fa_code_store@.dom().contains(request.email@) && final(self).two_fa_code_store@[request.email@].id == resp.login_attempt_id@
                && spec_code_accepted(final(self).two_fa_code_store@[request.email@].code)
                && final(self).two_fa_code_store@.remove(request.email@) == old(self).two_fa_code_store@.remove(request.email@))),
    {
        let email = match Email::parse(request.email.clone()) {
            Ok(email) => email,
            Err(e) => {
                return Err(e);
            },
        };
        let password = match Password::parse(request.password.clone()) {
            Ok(password) => password,
            Err(e) => {
                return Err(e);
            },
        };
        if self.user_store.validate_user(&email, &password).is_err() {
            return Err(AuthAPIError::IncorrectCredentials);
        }
        let user = match self.user_store.get_user(&email) {
            Ok(user) => user,
            Err(_) => {
                return Err(AuthAPIError::IncorrectCredentials);
            },
        };
        if !user.has_2fa() {
            return self.handle_no_2fa(&email, now);
        }
        self.handle_2fa(&email, now)
    }

    /// The login tail without a second factor: issue the session token.
    fn handle_no_2fa(&self, email: &Email, now: u64) -> (r: Result<
        (LoginResponse, Option<String>),
        AuthAPIError,
    >)
        requires
            now + TOKEN_TTL_SECONDS <= u64::MAX,
        ensures
            r matches Ok(pair) && pair.0 is RegularAuth && (pair.1 matches Some(tok) && tok@
                == spec_token(self.key(), email@, now, (now + TOKEN_TTL_SECONDS) as u64)),
    {
        let token = self.generate_auth_token(email, now);
        Ok((LoginResponse::RegularAuth, Some(token)))
    }

    /// The login tail with a second factor: store a fresh challenge
    /// (superseding any prior one), hand the code to the notifier, and
    /// reply with the attempt id.
    fn handle_2fa(&mut self, email: &Email, now: u64) -> (r: Result<
        (LoginResponse, Option<String>),
        AuthAPIError,
    >)
        requires
            old(self).wf(),
        ensures
            final(self).wf(),
            final(self).key() == old(self).key(),
            final(self).user_store@ == old(self).user_store@,
            final(self).banned_token_store@ == old(self).banned_token_store@,
            r matches Ok(pair) && pair.1 is None && (pair.0 matches LoginResponse::TwoFactorAuth(
                resp,
            ) && resp.message@ == "2FA required"@ && uuid_accepted(resp.login_attempt_id@) && final(self).two_fa_code_store@.dom().contains(email@) && final(self).two_fa_code_store@[email@].id
                == resp.login_attempt_id@ && spec_code_accepted(
                final(self).two_fa_code_store@[email@].code,
            ) && final(self).two_fa_code_store@.remove(email@) == old(self).two_fa_code_store@.remove(email@)),
    {
        let login_attempt_id = LoginAttemptId::default();
        let two_fa_code = TwoFACode::default();
        let id_text = login_attempt_id.to_string_owned();
        let code_text = two_fa_code.to_string_owned();
        match self.two_fa_code_store.add_code(email.clone(), login_attempt_id, two_fa_code) {
            Ok(_) => {},
            Err(_) => {
                return Err(AuthAPIError::UnexpectedError);
            },
        }
        match self.email_client.send_email(email, "2FA Code", code_text.as_str()) {
            Ok(_) => {},
            Err(_) => {
                return Err(AuthAPIError::UnexpectedError);
            },
        }
        proof {
            assert(self.two_fa_code_store@.remove(email@) =~= old(self).two_fa_code_store@.remove(email@));
        }
        let response = TwoFactorAuthResponse {
            message: String::from_str("2FA required"),
            login_attempt_id: id_text,
        };
        Ok((LoginResponse::TwoFactorAuth(response), None))
    }

    /// Completes a pending second-factor login.  The comparison runs
    /// against the challenge stored now, and a successful verification
    /// consumes it.  A failed comparison leaves the challenge in place, so
    /// the caller may retry until the challenge is superseded or consumed.
    pub fn verify_2fa(&mut self, request: &Verify2FARequest, now: u64) -> (r: Result<
        String,
        AuthAPIError,
    >)
        requires
            old(self).wf(),
            now + TOKEN_TTL_SECONDS <= u64::MAX,
        ensures
            final(self).wf(),
            final(self).key() == old(self).key(),
            final(self).user_store@ == old(self).user_store@,
            final(self).banned_token_store@ == old(self).banned_token_store@,
            !verify_2fa_parsable(request) ==> r == Err::<String, AuthAPIError>(
                AuthAPIError::InvalidCredentials,
            ) && final(self).two_fa_code_store@ == old(self).two_fa_code_store@,
            verify_2fa_parsable(request) && !old(self).two_fa_code_store@.dom().contains(
                request.email@,
            ) ==> r == Err::<String, AuthAPIError>(AuthAPIError::IncorrectCredentials) && final(self).two_fa_code_store@ == old(self).two_fa_code_store@,
            verify_2fa_parsable(request) && old(self).two_fa_code_store@.dom().contains(
                request.email@,
            ) && !challenge_matches(old(self), request) ==> r == Err::<String, AuthAPIError>(
                AuthAPIError::IncorrectCredentials,
            ) && final(self).two_fa_code_store@ == old(self).two_fa_code_store@,
            verify_2fa_parsable(request) && old(self).two_fa_code_store@.dom().contains(
                request.email@,
            ) && challenge_matches(old(self), request) ==> (r matches Ok(tok) && tok@
                == spec_token(
                old(self).key(),
                request.email@,
                now,
                (now + TOKEN_TTL_SECONDS) as u64,
            ) && final(self).two_fa_code_store@ == old(self).two_fa_code_store@.remove(
                request.email@,
            )),
    {
        let email = match Email::parse(request.email.clone()) {
            Ok(email) => email,
            Err(e) => {
                return Err(e);
            },
        };
        let login_attempt_id = match LoginAttemptId::parse(request.login_attempt_id.clone()) {
            Ok(id) => id,
            Err(e) => {
                return Err(e);
            },
        };
        let two_fa_code = match TwoFACode::parse(request.two_fa_code.clone()) {
            Ok(code) => code,
            Err(e) => {
                return Err(e);
            },
        };
        let (stored_id, stored_code) = match self.two_fa_code_store.get_code(&email) {
            Ok(pair) => pair,
            Err(_) => {
                return Err(AuthAPIError::IncorrectCredentials);
            },
        };
        if login_attempt_id != stored_id || two_fa_code != stored_code {
            return Err(AuthAPIError::IncorrectCredentials);
        }
        let token = self.generate_auth_token(&email, now);
        match self.two_fa_code_store.remove_code(&email) {
            Ok(_) => {},
            Err(_) => {
                return Err(AuthAPIError::UnexpectedError);
            },
        }
        Ok(token)
    }

    /// Logs out: the token must currently pass every validation step, and
    /// is then revoked.  A second logout with the same token fails the
    /// revocation check.
    pub fn logout(&mut self, cookie_token: Option<&String>, now: u64) -> (r: Result<
        (),
        AuthAPIError,
    >)
        requires
            old(self).wf(),
        ensures
            final(self).wf(),
            final(self).key() == old(self).key(),
            final(self).user_store@ == old(self).user_store@,
            final(self).two_fa_code_store@ == old(self).two_fa_code_store@,
            cookie_token is None ==> r == Err::<(), AuthAPIError>(AuthAPIError::MissingToken)
                && final(self).banned_token_store@ == old(self).banned_token_store@,
            cookie_token matches Some(t) ==> ((spec_validate(
                old(self).key(),
                old(self).banned_token_store@,
                t@,
                now,
            ) is None ==> r == Err::<(), AuthAPIError>(AuthAPIError::InvalidToken) && final(self).banned_token_store@ == old(self).banned_token_store@) && (spec_validate(
                old(self).key(),
                old(self).banned_token_store@,
                t@,
                now,
            ) is Some ==> r == Ok::<(), AuthAPIError>(()) && final(self).banned_token_store@
                == old(self).banned_token_store@.insert(t@))),
    {
        let token = match cookie_token {
            Option::Some(token) => token,
            Option::None => {
                return Err(AuthAPIError::MissingToken);
            },
        };
        match self.validate_token(token.as_str(), now) {
            Ok(_) => {},
            Err(_) => {
                return Err(AuthAPIError::InvalidToken);
            },
        }
        match self.banned_token_store.add_token(token.clone()) {
            Ok(_) => Ok(()),
            Err(_) => Err(AuthAPIError::UnexpectedError),
        }
    }

    /// Runs the validator alone: no state transition, nothing written.
    pub fn verify_token(&self, request: &VerifyTokenRequest, now: u64) -> (r: Result<
        (),
        AuthAPIError,
    >)
        ensures
            r is Ok <==> spec_validate(
                self.key(),
                self.banned_token_store@,
                request.token@,
                now,
            ) is Some,
            r is Err ==> r == Err::<(), AuthAPIError>(AuthAPIError::InvalidToken),
    {
        match self.validate_token(request.token.as_str(), now) {
            Ok(_) => Ok(()),
            Err(e) => Err(e),
        }
    }
}

/// Whether a login request carries a well-formed identity and credential
/// that match a registered user.
pub open spec fn login_accepted(state: &AppState, request: &LoginRequest) -> bool {
    email_accepted(request.email@) && !spec_invalid_password(request.password@)
        && state.user_store@.dom().contains(request.email@)
        && argon_verifies(state.user_store@[request.email@].password_hash, request.password@)
}

/// Whether every field of a second-factor request parses.
pub open spec fn verify_2fa_parsable(request: &Verify2FARequest) -> bool {
    email_accepted(request.email@) && uuid_accepted(request.login_attempt_id@)
        && spec_code_accepted(request.two_fa_code@)
}

/// Whether a second-factor request names the challenge stored for its
/// identity: the attempt id (in canonical form) and the code must both
/// match.
pub open spec fn challenge_matches(state: &AppState, request: &Verify2FARequest) -> bool {
    &&& state.two_fa_code_store@.dom().contains(request.email@)
    &&& state.two_fa_code_store@[request.email@].id == uuid_canonical(request.login_attempt_id@)
    &&& state.two_fa_code_store@[request.email@].code == request.two_fa_code@
}

} // verus!
