//! The user use-case: login, profile, registration and existence checks.
//!
//! Each operation that talks to the user store is split into steps. A step
//! takes what the store answered and says what to do next: ask the store for
//! a write, or finish with a result. The caller performs the store calls.
use vstd::prelude::*;
use vstd::utf8::encode_utf8;
use crate::clock::{now_timestamp, MAX_CLOCK_SECS};
use crate::domain::{
    auth_payload_valid, create_user_valid, AuthPayload, created_text, AuthBody, CreateUser, NewUser, UserInfo, UserModel,
};
use crate::error::{AuthError, StoreError};
use crate::hasher::{
    bcrypt_prefix, bcrypt_verdict, hash_password, verdict_result, verify_password, HASH_COST,
};
use crate::token::{signed_token, token_fits, ClaimsView, TokenService};

verus! {

/// Lifetime of a session token: one week, in seconds.
pub const TOKEN_TTL: i64 = 604800;

/// The least role that may administer users.
pub const ADMIN_ROLE: i8 = 99;

/// The longest account, in UTF-8 bytes, for which a token is built.
pub const MAX_TOKEN_ACCOUNT_BYTES: usize = 0x3fff_ffff;

/// What a login does after the lookup.
pub enum LoginStep {
    /// Store this user, which carries its new token, then finish.
    SaveToken(UserModel),
    /// Finish with this failure.
    Fail(AuthError),
}

/// What a registration does after the existence check.
pub enum CreateStep {
    /// Insert this user, then finish.
    Insert(NewUser),
    /// Finish with this failure; nothing is written.
    Fail(AuthError),
}

/// Whether a token can be made for `account` expiring `TOKEN_TTL` after `now`.
pub open spec fn token_possible(account: Seq<char>, now: i64) -> bool {
    &&& encode_utf8(account).len() <= MAX_TOKEN_ACCOUNT_BYTES
    &&& now + TOKEN_TTL <= i64::MAX
}

/// The claims of the session token made for `account` and `role` at `now`.
pub open spec fn session_claims(account: Seq<char>, role: i8, now: i64) -> ClaimsView {
    ClaimsView { account, role, exp: (now + TOKEN_TTL) as i64 }
}

/// Whether `saved` is `user` with only its token replaced by one for its own
/// account and role, issued under `key` at `now`.
pub open spec fn logged_in(key: Seq<u8>, user: UserModel, saved: UserModel, now: i64) -> bool {
    &&& saved.account == user.account
    &&& saved.password == user.password
    &&& saved.name == user.name
    &&& saved.role == user.role
    &&& saved.state == user.state
    &&& saved.created_at == user.created_at
    &&& saved.updated_at == user.updated_at
    &&& encode_utf8(saved.token@) == signed_token(key, session_claims(user.account@, user.role, now))
}

/// The failure of a login whose password check answered `verdict`, if any.
pub open spec fn login_failure(verdict: Result<bool, AuthError>) -> Option<AuthError> {
    match verdict {
        Ok(true) => None,
        Ok(false) => Some(AuthError::WrongCredentials),
        Err(e) => Some(e),
    }
}

/// What the login step after a lookup answered `lookup` does: an unknown
/// account fails like a wrong password, with `WrongCredentials`; a matching
/// password stores a fresh session token.
pub open spec fn login_step_spec(
    key: Seq<u8>,
    lookup: Result<Option<UserModel>, StoreError>,
    password: Seq<char>,
    now: i64,
    r: LoginStep,
) -> bool {
    match lookup {
        Err(_) => r == LoginStep::Fail(AuthError::PersistenceError),
        Ok(None) => r == LoginStep::Fail(AuthError::WrongCredentials),
        Ok(Some(user)) => match login_failure(verdict_result(bcrypt_verdict(password, user.password@))) {
            Some(e) => r == LoginStep::Fail(e),
            None => if token_possible(user.account@, now) {
                r matches LoginStep::SaveToken(saved) && logged_in(key, user, saved, now)
            } else {
                r == LoginStep::Fail(AuthError::TokenCreation)
            },
        },
    }
}

/// The projection of a store answer that holds one user.
pub open spec fn info_result(lookup: Result<Option<UserModel>, StoreError>) -> Result<
    (Seq<char>, Seq<char>, i8, i8, Seq<char>),
    AuthError,
> {
    match lookup {
        Err(_) => Err(AuthError::PersistenceError),
        Ok(None) => Err(AuthError::NotFound),
        Ok(Some(m)) => Ok((m.account@, m.name@, m.role, m.state, created_text(m.created_at))),
    }
}

/// The view of a projection result.
pub open spec fn info_view(r: Result<UserInfo, AuthError>) -> Result<
    (Seq<char>, Seq<char>, i8, i8, Seq<char>),
    AuthError,
> {
    match r {
        Ok(i) => Ok((i.account@, i.name@, i.role, i.state, i.created_at@)),
        Err(e) => Err(e),
    }
}

/// A user stored from a registration that hashed `password` logs in with that
/// same password: the login step stores a fresh session token for the user and
/// never fails with `WrongCredentials`, as long as the token can be made.
pub proof fn lemma_registered_user_logs_in(
    key: Seq<u8>,
    password: Seq<char>,
    record: NewUser,
    user: UserModel,
    now: i64,
    r: LoginStep,
)
    requires
        bcrypt_verdict(password, record.password@) == Some(true),
        user.password == record.password,
        token_possible(user.account@, now),
        login_step_spec(key, Ok(Some(user)), password, now, r),
    ensures
        r matches LoginStep::SaveToken(saved) && logged_in(key, user, saved, now),
        r != LoginStep::Fail(AuthError::WrongCredentials),
{
}

/// Runs the user operations; holds the token service.
pub struct UserUcase {
    tokens: TokenService,
}

impl UserUcase {
    /// The secret that signs this use-case's tokens.
    pub closed spec fn key(&self) -> Seq<u8> {
        self.tokens.key()
    }

    pub fn new(tokens: TokenService) -> (r: UserUcase)
        ensures
            r.key() == tokens.key(),
    {
        UserUcase { tokens }
    }

    /// The token service, for the request gate.
    pub fn tokens(&self) -> (r: &TokenService)
        ensures
            r.key() == self.key(),
    {
        &self.tokens
    }

    /// The session token for `account` and `role` issued at `now`; fails with
    /// `TokenCreation` when it cannot be made.
    pub fn gen_token_at(&self, account: &str, role: i8, now: i64) -> (r: Result<String, AuthError>)
        ensures
            match r {
                Ok(t) => token_possible(account@, now) && encode_utf8(t@) == signed_token(
                    self.key(),
                    session_claims(account@, role, now),
                ),
                Err(e) => e == AuthError::TokenCreation && !token_possible(account@, now),
            },
    {
        if account.as_bytes().len() > MAX_TOKEN_ACCOUNT_BYTES {
            return Err(AuthError::TokenCreation);
        }
        if now > i64::MAX - TOKEN_TTL {
            return Err(AuthError::TokenCreation);
        }
        assert(token_fits(account@));
        Ok(self.tokens.issue_at(account, role, now + TOKEN_TTL))
    }

    /// The session token for `account` and `role`, issued now.
    pub fn gen_token(&self, account: &str, role: i8) -> (r: Result<String, AuthError>)
        ensures
            r is Ok <==> encode_utf8(account@).len() <= MAX_TOKEN_ACCOUNT_BYTES,
            match r {
                Ok(t) => exists|now: i64|
                    0 <= now <= MAX_CLOCK_SECS && token_possible(account@, now) && encode_utf8(t@)
                        == signed_token(self.key(), session_claims(account@, role, now)),
                Err(e) => e == AuthError::TokenCreation,
            },
    {
        let now = now_timestamp();
        self.gen_token_at(account, role, now)
    }

    /// The first check of a login, before the lookup: a request that breaks the
    /// field rules cannot name a stored user with a valid password, and fails
    /// like any wrong credentials.
    pub fn login_check(&self, payload: &AuthPayload) -> (r: Result<(), AuthError>)
        ensures
            r == if auth_payload_valid(payload.account@, payload.password@) {
                Ok::<(), AuthError>(())
            } else {
                Err(AuthError::WrongCredentials)
            },
    {
        if payload.validate() {
            Ok(())
        } else {
            Err(AuthError::WrongCredentials)
        }
    }

    /// The login step for a found user once the password check answered
    /// `verdict`: on a match, the user with a new session token issued at `now`.
    pub fn login_decide(&self, user: UserModel, verdict: Result<bool, AuthError>, now: i64) -> (r:
        LoginStep)
        ensures
            match login_failure(verdict) {
                Some(e) => r == LoginStep::Fail(e),
                None => if token_possible(user.account@, now) {
                    r matches LoginStep::SaveToken(saved) && logged_in(self.key(), user, saved, now)
                } else {
                    r == LoginStep::Fail(AuthError::TokenCreation)
                },
            },
    {
        match verdict {
            Err(e) => LoginStep::Fail(e),
            Ok(false) => LoginStep::Fail(AuthError::WrongCredentials),
            Ok(true) => match self.gen_token_at(user.account.as_str(), user.role, now) {
                Err(e) => LoginStep::Fail(e),
                Ok(t) => {
                    let mut saved = user;
                    saved.token = t;
                    LoginStep::SaveToken(saved)
                },
            },
        }
    }

    /// The login step after looking `account` up in the store: an unknown
    /// account and a wrong password fail alike with `WrongCredentials`.
    pub fn login_step(
        &self,
        lookup: Result<Option<UserModel>, StoreError>,
        password: &str,
        now: i64,
    ) -> (r: LoginStep)
        ensures
            login_step_spec(self.key(), lookup, password@, now, r),
    {
        match lookup {
            Err(_) => LoginStep::Fail(AuthError::PersistenceError),
            Ok(None) => LoginStep::Fail(AuthError::WrongCredentials),
            Ok(Some(user)) => {
                let verdict = verify_password(password, user.password.as_str());
                self.login_decide(user, verdict, now)
            },
        }
    }

    /// The end of a login once the store answered the token write.
    pub fn login_finish(&self, token: String, saved: Result<UserModel, StoreError>) -> (r: Result<
        AuthBody,
        AuthError,
    >)
        ensures
            match saved {
                Ok(_) => r matches Ok(body) && body.access_token == token && body.token_type@
                    == "Bearer"@,
                Err(_) => r == Err::<AuthBody, AuthError>(AuthError::PersistenceError),
            },
    {
        match saved {
            Ok(_) => Ok(AuthBody::new(token)),
            Err(_) => Err(AuthError::PersistenceError),
        }
    }

    /// The profile of the user the store answered for.
    pub fn get_info(&self, lookup: Result<Option<UserModel>, StoreError>) -> (r: Result<
        UserInfo,
        AuthError,
    >)
        ensures
            info_view(r) == info_result(lookup),
    {
        match lookup {
            Err(_) => Err(AuthError::PersistenceError),
            Ok(None) => Err(AuthError::NotFound),
            Ok(Some(m)) => Ok(UserInfo::from(m)),
        }
    }

    /// Whether the account exists, from the store's answer; a store failure is reported.
    pub fn is_exist(&self, probe: Result<bool, StoreError>) -> (r: Result<bool, AuthError>)
        ensures
            match probe {
                Ok(b) => r == Ok::<bool, AuthError>(b),
                Err(_) => r == Err::<bool, AuthError>(AuthError::PersistenceError),
            },
    {
        match probe {
            Ok(b) => Ok(b),
            Err(_) => Err(AuthError::PersistenceError),
        }
    }

    /// The first check of a registration: only an administrator may register
    /// users, whatever the request holds; then the request must keep the field rules.
    pub fn create_user_check(&self, requester_role: i8, payload: &CreateUser) -> (r: Result<
        (),
        AuthError,
    >)
        ensures
            requester_role < ADMIN_ROLE ==> r == Err::<(), AuthError>(AuthError::PermissionDenied),
            requester_role >= ADMIN_ROLE ==> r == if create_user_valid(
                payload.account@,
                payload.password@,
                payload.name@,
                payload.role,
            ) {
                Ok::<(), AuthError>(())
            } else {
                Err(AuthError::InvalidPayload)
            },
    {
        if requester_role < ADMIN_ROLE {
            return Err(AuthError::PermissionDenied);
        }
        if !payload.validate() {
            return Err(AuthError::InvalidPayload);
        }
        Ok(())
    }

    /// The record to insert for a request once its password was hashed into `hashed`.
    pub fn create_record(&self, payload: CreateUser, hashed: Result<String, AuthError>) -> (r:
        CreateStep)
        ensures
            match hashed {
                Ok(h) => r == CreateStep::Insert(
                    NewUser {
                        account: payload.account,
                        password: h,
                        name: payload.name,
                        role: payload.role,
                    },
                ),
                Err(e) => r == CreateStep::Fail(e),
            },
    {
        match hashed {
            Ok(h) => CreateStep::Insert(
                NewUser { account: payload.account, password: h, name: payload.name, role: payload.role },
            ),
            Err(e) => CreateStep::Fail(e),
        }
    }

    /// The registration step after asking the store whether the account exists:
    /// a registered account fails with `DuplicateAccount` and writes nothing;
    /// otherwise the password is hashed and the new user is to be inserted.
    pub fn create_step(&self, registered: Result<bool, StoreError>, payload: CreateUser) -> (r:
        CreateStep)
        ensures
            match registered {
                Err(_) => r == CreateStep::Fail(AuthError::PersistenceError),
                Ok(true) => r == CreateStep::Fail(AuthError::DuplicateAccount),
                Ok(false) => match r {
                    CreateStep::Insert(n) => {
                        &&& n.account == payload.account
                        &&& n.name == payload.name
                        &&& n.role == payload.role
                        &&& bcrypt_verdict(payload.password@, n.password@) == Some(true)
                        &&& n.password@.len() >= 7
                        &&& n.password@.subrange(0, 7) == bcrypt_prefix(HASH_COST)
                    },
                    CreateStep::Fail(e) => e == AuthError::HashingError,
                },
            },
    {
        match self.is_exist(registered) {
            Err(e) => CreateStep::Fail(e),
            Ok(true) => CreateStep::Fail(AuthError::DuplicateAccount),
            Ok(false) => {
                let hashed = hash_password(payload.password.as_str());
                self.create_record(payload, hashed)
            },
        }
    }

    /// The end of a registration once the store answered the insert: the
    /// profile of the new user.
    pub fn create_finish(&self, inserted: Result<UserModel, StoreError>) -> (r: Result<
        UserInfo,
        AuthError,
    >)
        ensures
            match inserted {
                Ok(m) => info_view(r) == info_result(Ok(Some(m))),
                Err(_) => r == Err::<UserInfo, AuthError>(AuthError::PersistenceError),
            },
    {
        match inserted {
            Ok(m) => Ok(UserInfo::from(m)),
            Err(_) => Err(AuthError::PersistenceError),
        }
    }
}

} // verus!
