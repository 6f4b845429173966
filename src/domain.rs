//! User records and the request and response shapes of the user operations.
use vstd::prelude::*;
use crate::clock::{datetime_text, datetime_text_of};
use crate::responder::Data;

verus! {

pub const ACCOUNT_MIN: u64 = 4;

pub const ACCOUNT_MAX: u64 = 30;

pub const PASSWORD_MIN: u64 = 6;

pub const PASSWORD_MAX: u64 = 50;

pub const NAME_MIN: u64 = 1;

pub const NAME_MAX: u64 = 30;

pub const ROLE_MIN: i8 = 1;

pub const ROLE_MAX: i8 = 99;

/// Relies on `validator::validate_length` on a `&str`: the length is the number
/// of chars, and with no `equal` bound the answer is `min <= length <= max`.
#[verifier::external_body]
fn length_within(s: &str, min: u64, max: u64) -> (r: bool)
    ensures
        r == (min <= s@.len() <= max),
{
    validator::validate_length(s, Some(min), Some(max), None)
}

/// Relies on `validator::validate_range`: `min <= value <= max`.
#[verifier::external_body]
fn range_within(value: i8, min: i8, max: i8) -> (r: bool)
    ensures
        r == (min <= value <= max),
{
    validator::validate_range(value, Some(min), Some(max))
}

/// A stored user. `password` holds the password's hash, never the password.
pub struct UserModel {
    pub account: String,
    pub password: String,
    pub token: String,
    pub name: String,
    pub role: i8,
    pub state: i8,
    /// Seconds since the epoch.
    pub created_at: i64,
    /// Seconds since the epoch.
    pub updated_at: i64,
}

/// The fields of a user to be created; the store sets the rest.
pub struct NewUser {
    pub account: String,
    /// The password's hash.
    pub password: String,
    pub name: String,
    pub role: i8,
}

/// The body of a request to create a user.
pub struct CreateUser {
    pub account: String,
    pub password: String,
    pub name: String,
    pub role: i8,
}

/// What may be shown of a user: never the password hash or the token.
pub struct UserInfo {
    pub account: String,
    pub name: String,
    pub role: i8,
    pub state: i8,
    pub created_at: String,
}

impl Data for UserInfo {}

/// The body of a login request.
pub struct AuthPayload {
    pub account: String,
    pub password: String,
}

/// The body of a successful login response.
pub struct AuthBody {
    pub access_token: String,
    pub token_type: String,
}

impl Data for AuthBody {}

/// Whether a create-user request keeps the field rules.
pub open spec fn create_user_valid(account: Seq<char>, password: Seq<char>, name: Seq<char>, role: i8) -> bool {
    &&& ACCOUNT_MIN <= account.len() <= ACCOUNT_MAX
    &&& PASSWORD_MIN <= password.len() <= PASSWORD_MAX
    &&& NAME_MIN <= name.len() <= NAME_MAX
    &&& ROLE_MIN <= role <= ROLE_MAX
}

/// Whether a login request keeps the field rules.
pub open spec fn auth_payload_valid(account: Seq<char>, password: Seq<char>) -> bool {
    &&& ACCOUNT_MIN <= account.len() <= ACCOUNT_MAX
    &&& PASSWORD_MIN <= password.len() <= PASSWORD_MAX
}

/// The displayed creation time of a record: empty when the instant cannot be shown.
pub open spec fn created_text(secs: i64) -> Seq<char> {
    match datetime_text_of(secs as int) {
        Some(s) => s,
        None => Seq::empty(),
    }
}

impl CreateUser {
    /// Whether the request keeps the field rules (lengths counted in chars).
    pub fn validate(&self) -> (r: bool)
        ensures
            r == create_user_valid(self.account@, self.password@, self.name@, self.role),
    {
        length_within(self.account.as_str(), ACCOUNT_MIN, ACCOUNT_MAX) && length_within(
            self.password.as_str(),
            PASSWORD_MIN,
            PASSWORD_MAX,
        ) && length_within(self.name.as_str(), NAME_MIN, NAME_MAX) && range_within(
            self.role,
            ROLE_MIN,
            ROLE_MAX,
        )
    }
}

impl AuthPayload {
    /// Whether the request keeps the field rules (lengths counted in chars).
    pub fn validate(&self) -> (r: bool)
        ensures
            r == auth_payload_valid(self.account@, self.password@),
    {
        length_within(self.account.as_str(), ACCOUNT_MIN, ACCOUNT_MAX) && length_within(
            self.password.as_str(),
            PASSWORD_MIN,
            PASSWORD_MAX,
        )
    }
}

impl UserInfo {
    /// The empty projection.
    pub fn default() -> (r: UserInfo)
        ensures
            r.account@ == Seq::<char>::empty(),
            r.name@ == Seq::<char>::empty(),
            r.role == 0,
            r.state == 0,
            r.created_at@ == Seq::<char>::empty(),
    {
        UserInfo {
            account: String::new(),
            name: String::new(),
            role: 0,
            state: 0,
            created_at: String::new(),
        }
    }

    /// The shown part of a stored user.
    pub fn from(model: UserModel) -> (r: UserInfo)
        ensures
            r.account == model.account,
            r.name == model.name,
            r.role == model.role,
            r.state == model.state,
            r.created_at@ == created_text(model.created_at),
    {
        let created_at = match datetime_text(model.created_at) {
            Some(s) => s,
            None => String::new(),
        };
        UserInfo {
            account: model.account,
            name: model.name,
            role: model.role,
            state: model.state,
            created_at,
        }
    }
}

impl AuthBody {
    /// A bearer-token response around `access_token`.
    pub fn new(access_token: String) -> (r: AuthBody)
        ensures
            r.access_token == access_token,
            r.token_type@ == "Bearer"@,
    {
        AuthBody { access_token, token_type: String::from_str("Bearer") }
    }
}

} // verus!
