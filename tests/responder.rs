use user_auth::responder::{failed, pagination, success, Detail, StatusCode};

#[test]
fn status_codes_have_their_numbers() {
    assert_eq!(StatusCode::StatusOK.to_int(), 2000);
    assert_eq!(StatusCode::StatusBadReq.to_int(), 4000);
    assert_eq!(StatusCode::StatusValidation.to_int(), 4001);
    assert_eq!(StatusCode::StatusDuplicate.to_int(), 4002);
    assert_eq!(StatusCode::StatusForbidden.to_int(), 4003);
    assert_eq!(StatusCode::StatusNotFound.to_int(), 4004);
    assert_eq!(StatusCode::StatusInternal.to_int(), 5000);
    assert_eq!(StatusCode::StatusUnknownErr.to_int(), 5001);
}

#[test]
fn status_codes_have_their_messages() {
    assert_eq!(StatusCode::StatusOK.to_string(), "Ok");
    assert_eq!(StatusCode::StatusBadReq.to_string(), "Bad request");
    assert_eq!(StatusCode::StatusValidation.to_string(), "Validation failed");
    assert_eq!(StatusCode::StatusDuplicate.to_string(), "Already exists");
    assert_eq!(StatusCode::StatusForbidden.to_string(), "Forbidden");
    assert_eq!(StatusCode::StatusNotFound.to_string(), "Resource not found");
    assert_eq!(StatusCode::StatusInternal.to_string(), "Internal error");
    assert_eq!(StatusCode::StatusUnknownErr.to_string(), "Unknown error");
}

#[test]
fn success_wraps_data_with_ok() {
    let (code, content) = success(Detail("hello".to_string()));
    assert_eq!(code, 2000);
    assert_eq!(content.status, 2000);
    assert_eq!(content.msg, "Ok");
    assert_eq!(content.data.0, "hello");
}

#[test]
fn failed_wraps_data_with_the_status() {
    let (code, content) = failed(StatusCode::StatusDuplicate, Detail("Account already exist".to_string()));
    assert_eq!(code, 4002);
    assert_eq!(content.status, 4002);
    assert_eq!(content.msg, "Already exists");
    assert_eq!(content.data.0, "Account already exist");
}

#[test]
fn pagination_carries_page_size_and_total() {
    let (code, page) = pagination(Detail("rows".to_string()), 3, 20, 75);
    assert_eq!(code, 2000);
    assert_eq!(page.content.status, 2000);
    assert_eq!(page.content.msg, "Ok");
    assert_eq!(page.content.data.0, "rows");
    assert_eq!(page.corrent_page, 3);
    assert_eq!(page.per_page, 20);
    assert_eq!(page.total, 75);
}

use user_auth::error::AuthError;
use user_auth::responder::{error_reply, failure_envelope};

#[test]
fn each_failure_has_its_reply() {
    let cases = [
        (AuthError::MissingCredentials, 401, StatusCode::StatusBadReq, "Missing credentials"),
        (AuthError::InvalidToken, 401, StatusCode::StatusBadReq, "Invalid token"),
        (AuthError::WrongCredentials, 400, StatusCode::StatusValidation, "Wrong credentials"),
        (AuthError::InvalidPayload, 400, StatusCode::StatusBadReq, "validate error"),
        (AuthError::PermissionDenied, 400, StatusCode::StatusValidation, "Permission error"),
        (AuthError::DuplicateAccount, 400, StatusCode::StatusDuplicate, "Account already exist"),
        (AuthError::NotFound, 404, StatusCode::StatusNotFound, "User not found"),
        (AuthError::TokenCreation, 500, StatusCode::StatusInternal, "Token creation error"),
        (AuthError::PersistenceError, 500, StatusCode::StatusInternal, "Storage error"),
        (AuthError::HashingError, 500, StatusCode::StatusInternal, "Hashing error"),
    ];
    for (e, http, code, text) in cases {
        let r = error_reply(e);
        assert_eq!(r.http_status, http);
        assert_eq!(r.code, code);
        assert_eq!(r.message, text);
    }
}

#[test]
fn failure_envelope_carries_status_and_detail() {
    let (http, content) = failure_envelope(AuthError::DuplicateAccount);
    assert_eq!(http, 400);
    assert_eq!(content.status, 4002);
    assert_eq!(content.msg, "Already exists");
    assert_eq!(content.data.0, "Account already exist");
}
