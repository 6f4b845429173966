//! Response envelopes: a status code, its message and a payload.
use vstd::prelude::*;
use crate::error::AuthError;

verus! {

/// Marker for values that may be carried in a response envelope.
pub trait Data {}

/// A plain text payload.
pub struct Detail(pub String);

impl Data for Detail {}

/// The envelope of every response.
pub struct Content<D> {
    pub status: i32,
    pub msg: String,
    pub data: D,
}

/// An envelope together with paging information.
pub struct Paginate<C> {
    pub content: C,
    pub total: i32,
    pub per_page: i32,
    pub corrent_page: i32,
}

/// Application status codes carried in an envelope.
#[derive(Copy, Clone, Debug, PartialEq, Eq, Structural)]
pub enum StatusCode {
    StatusOK,
    StatusBadReq,
    StatusValidation,
    StatusDuplicate,
    StatusForbidden,
    StatusNotFound,
    StatusInternal,
    StatusUnknownErr,
}

/// The numeric code of a status.
pub open spec fn status_code_value(s: StatusCode) -> i32 {
    match s {
        StatusCode::StatusOK => 2000,
        StatusCode::StatusBadReq => 4000,
        StatusCode::StatusValidation => 4001,
        StatusCode::StatusDuplicate => 4002,
        StatusCode::StatusForbidden => 4003,
        StatusCode::StatusNotFound => 4004,
        StatusCode::StatusInternal => 5000,
        StatusCode::StatusUnknownErr => 5001,
    }
}

/// The human-readable message of a status.
pub open spec fn status_message(s: StatusCode) -> Seq<char> {
    match s {
        StatusCode::StatusOK => "Ok"@,
        StatusCode::StatusBadReq => "Bad request"@,
        StatusCode::StatusValidation => "Validation failed"@,
        StatusCode::StatusDuplicate => "Already exists"@,
        StatusCode::StatusForbidden => "Forbidden"@,
        StatusCode::StatusNotFound => "Resource not found"@,
        StatusCode::StatusInternal => "Internal error"@,
        StatusCode::StatusUnknownErr => "Unknown error"@,
    }
}

impl StatusCode {
    pub fn to_int(&self) -> (r: i32)
        ensures
            r == status_code_value(*self),
    {
        match self {
            StatusCode::StatusOK => 2000,
            StatusCode::StatusBadReq => 4000,
            StatusCode::StatusValidation => 4001,
            StatusCode::StatusDuplicate => 4002,
            StatusCode::StatusForbidden => 4003,
            StatusCode::StatusNotFound => 4004,
            StatusCode::StatusInternal => 5000,
            StatusCode::StatusUnknownErr => 5001,
        }
    }

    /// The message of this status, as text.
    pub fn to_string(&self) -> (r: String)
        ensures
            r@ == status_message(*self),
    {
        match self {
            StatusCode::StatusOK => String::from_str("Ok"),
            StatusCode::StatusBadReq => String::from_str("Bad request"),
            StatusCode::StatusValidation => String::from_str("Validation failed"),
            StatusCode::StatusDuplicate => String::from_str("Already exists"),
            StatusCode::StatusForbidden => String::from_str("Forbidden"),
            StatusCode::StatusNotFound => String::from_str("Resource not found"),
            StatusCode::StatusInternal => String::from_str("Internal error"),
            StatusCode::StatusUnknownErr => String::from_str("Unknown error"),
        }
    }
}

/// How a failure is answered: the HTTP status, the envelope's status code and
/// its detail text.
pub struct ErrorReply {
    pub http_status: u16,
    pub code: StatusCode,
    pub message: String,
}

/// The answer to each failure: a missing or invalid token is 401; bad
/// credentials, bad fields, a forbidden or duplicate registration are 400; an
/// unknown user is 404; failures of the token, store or hasher are 500.
pub open spec fn error_reply_of(e: AuthError) -> (u16, StatusCode, Seq<char>) {
    match e {
        AuthError::MissingCredentials => (401, StatusCode::StatusBadReq, "Missing credentials"@),
        AuthError::InvalidToken => (401, StatusCode::StatusBadReq, "Invalid token"@),
        AuthError::WrongCredentials => (400, StatusCode::StatusValidation, "Wrong credentials"@),
        AuthError::InvalidPayload => (400, StatusCode::StatusBadReq, "validate error"@),
        AuthError::PermissionDenied => (400, StatusCode::StatusValidation, "Permission error"@),
        AuthError::DuplicateAccount => (400, StatusCode::StatusDuplicate, "Account already exist"@),
        AuthError::NotFound => (404, StatusCode::StatusNotFound, "User not found"@),
        AuthError::TokenCreation => (500, StatusCode::StatusInternal, "Token creation error"@),
        AuthError::PersistenceError => (500, StatusCode::StatusInternal, "Storage error"@),
        AuthError::HashingError => (500, StatusCode::StatusInternal, "Hashing error"@),
    }
}

/// The answer to a failure.
pub fn error_reply(e: AuthError) -> (r: ErrorReply)
    ensures
        (r.http_status, r.code, r.message@) == error_reply_of(e),
{
    let (http_status, code, text) = match e {
        AuthError::MissingCredentials => (401, StatusCode::StatusBadReq, "Missing credentials"),
        AuthError::InvalidToken => (401, StatusCode::StatusBadReq, "Invalid token"),
        AuthError::WrongCredentials => (400, StatusCode::StatusValidation, "Wrong credentials"),
        AuthError::InvalidPayload => (400, StatusCode::StatusBadReq, "validate error"),
        AuthError::PermissionDenied => (400, StatusCode::StatusValidation, "Permission error"),
        AuthError::DuplicateAccount => (400, StatusCode::StatusDuplicate, "Account already exist"),
        AuthError::NotFound => (404, StatusCode::StatusNotFound, "User not found"),
        AuthError::TokenCreation => (500, StatusCode::StatusInternal, "Token creation error"),
        AuthError::PersistenceError => (500, StatusCode::StatusInternal, "Storage error"),
        AuthError::HashingError => (500, StatusCode::StatusInternal, "Hashing error"),
    };
    ErrorReply { http_status, code, message: String::from_str(text) }
}

/// A failed envelope for a failure, with its HTTP status.
pub fn failure_envelope(e: AuthError) -> (r: (u16, Content<Detail>))
    ensures
        r.0 == error_reply_of(e).0,
        r.1.status == status_code_value(error_reply_of(e).1),
        r.1.msg@ == status_message(error_reply_of(e).1),
        r.1.data.0@ == error_reply_of(e).2,
{
    let reply = error_reply(e);
    let (_, content) = failed(reply.code, Detail(reply.message));
    (reply.http_status, content)
}

/// A successful envelope around `data`, with its status code.
pub fn success<D: Data>(data: D) -> (r: (i32, Content<D>))
    ensures
        r.0 == 2000,
        r.1.status == 2000,
        r.1.msg@ == "Ok"@,
        r.1.data == data,
{
    let status = StatusCode::StatusOK;
    let cnt = Content { status: status.to_int(), msg: status.to_string(), data };
    (status.to_int(), cnt)
}

/// A failed envelope with the given status around `data`, with its status code.
pub fn failed<D: Data>(status: StatusCode, data: D) -> (r: (i32, Content<D>))
    ensures
        r.0 == status_code_value(status),
        r.1.status == status_code_value(status),
        r.1.msg@ == status_message(status),
        r.1.data == data,
{
    let cnt = Content { status: status.to_int(), msg: status.to_string(), data };
    (status.to_int(), cnt)
}

/// A successful envelope around one page of `data`.
pub fn pagination<D: Data>(data: D, page: i32, size: i32, total: i32) -> (r: (
    i32,
    Paginate<Content<D>>,
))
    ensures
        r.0 == 2000,
        r.1.content.status == 2000,
        r.1.content.msg@ == "Ok"@,
        r.1.content.data == data,
        r.1.total == total,
        r.1.per_page == size,
        r.1.corrent_page == page,
{
    let status = StatusCode::StatusOK;
    let cnt = Content { status: status.to_int(), msg: status.to_string(), data };
    let pagin = Paginate { content: cnt, total: total, per_page: size, corrent_page: page };
    (status.to_int(), pagin)
}

} // verus!
