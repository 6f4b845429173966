use user_auth::domain::{AuthPayload, CreateUser, UserModel};
use user_auth::error::{AuthError, StoreError};
use user_auth::hasher::{hash_password, verify_password};
use user_auth::token::TokenService;
use user_auth::usecase::{CreateStep, LoginStep, UserUcase};

fn ucase() -> UserUcase {
    UserUcase::new(TokenService::new(b"use-case secret".to_vec()))
}

fn alice(password_hash: String) -> UserModel {
    UserModel {
        account: "alice".to_string(),
        password: password_hash,
        token: String::new(),
        name: "Alice".to_string(),
        role: 1,
        state: 1,
        created_at: 1431648000,
        updated_at: 1431648000,
    }
}

fn request(account: &str, password: &str, role: i8) -> CreateUser {
    CreateUser {
        account: account.to_string(),
        password: password.to_string(),
        name: "New User".to_string(),
        role,
    }
}

fn failure(step: LoginStep) -> AuthError {
    match step {
        LoginStep::Fail(e) => e,
        LoginStep::SaveToken(u) => panic!("unexpected login of {}", u.account),
    }
}

fn create_failure(step: CreateStep) -> AuthError {
    match step {
        CreateStep::Fail(e) => e,
        CreateStep::Insert(n) => panic!("unexpected insert of {}", n.account),
    }
}

#[test]
fn login_with_wrong_password_is_wrong_credentials() {
    let u = ucase();
    let stored = alice(hash_password("rightpass").unwrap());
    let step = u.login_step(Ok(Some(stored)), "wrongpass", 1000);
    assert_eq!(failure(step), AuthError::WrongCredentials);
}

#[test]
fn login_of_unknown_account_is_wrong_credentials() {
    let u = ucase();
    let step = u.login_step(Ok(None), "x", 1000);
    assert_eq!(failure(step), AuthError::WrongCredentials);
}

#[test]
fn login_with_store_failure_is_persistence_error() {
    let u = ucase();
    assert_eq!(failure(u.login_step(Err(StoreError), "rightpass", 1000)), AuthError::PersistenceError);
}

#[test]
fn login_with_corrupt_hash_is_hashing_error() {
    let u = ucase();
    let step = u.login_step(Ok(Some(alice("corrupt".to_string()))), "rightpass", 1000);
    assert_eq!(failure(step), AuthError::HashingError);
}

#[test]
fn login_with_right_password_stores_a_fresh_token() {
    let u = ucase();
    let hash = hash_password("rightpass").unwrap();
    let step = u.login_step(Ok(Some(alice(hash.clone()))), "rightpass", 1000);
    let saved = match step {
        LoginStep::SaveToken(saved) => saved,
        LoginStep::Fail(e) => panic!("login failed: {:?}", e),
    };
    assert_eq!(saved.account, "alice");
    assert_eq!(saved.password, hash);
    assert_eq!(saved.name, "Alice");
    assert_eq!(saved.token, u.gen_token_at("alice", 1, 1000).unwrap());
    match u.tokens().verify(&saved.token, 1000 + 604799) {
        Ok(c) => {
            assert_eq!(c.account, "alice");
            assert_eq!(c.role, 1);
            assert_eq!(c.exp, 1000 + 604800);
        }
        Err(e) => panic!("token rejected: {:?}", e),
    }
    let token = saved.token.clone();
    let body = u.login_finish(token.clone(), Ok(saved)).unwrap();
    assert_eq!(body.access_token, token);
    assert_eq!(body.token_type, "Bearer");
}

#[test]
fn login_decide_follows_the_verdict() {
    let u = ucase();
    let user = || alice("h".to_string());
    assert_eq!(failure(u.login_decide(user(), Ok(false), 0)), AuthError::WrongCredentials);
    assert_eq!(failure(u.login_decide(user(), Err(AuthError::HashingError), 0)), AuthError::HashingError);
    assert!(matches!(u.login_decide(user(), Ok(true), 0), LoginStep::SaveToken(_)));
    assert_eq!(failure(u.login_decide(user(), Ok(true), i64::MAX - 10)), AuthError::TokenCreation);
}

#[test]
fn login_finish_reports_a_failed_token_write() {
    let u = ucase();
    assert!(matches!(u.login_finish("t".to_string(), Err(StoreError)), Err(AuthError::PersistenceError)));
}

#[test]
fn gen_token_at_expires_one_week_later() {
    let u = ucase();
    let t = u.gen_token_at("dave", 7, 500).unwrap();
    assert_eq!(t, u.tokens().issue_at("dave", 7, 500 + 604800));
    assert_eq!(u.gen_token_at("dave", 7, i64::MAX - 604799), Err(AuthError::TokenCreation));
    assert!(u.gen_token_at("dave", 7, i64::MAX - 604800).is_ok());
}

#[test]
fn get_info_projects_or_reports() {
    let u = ucase();
    let info = u.get_info(Ok(Some(alice("h".to_string())))).unwrap();
    assert_eq!(info.account, "alice");
    assert_eq!(info.name, "Alice");
    assert_eq!(info.created_at, "2015-05-15 00:00:00");
    assert!(matches!(u.get_info(Ok(None)), Err(AuthError::NotFound)));
    assert!(matches!(u.get_info(Err(StoreError)), Err(AuthError::PersistenceError)));
}

#[test]
fn is_exist_reports_store_failures() {
    let u = ucase();
    assert_eq!(u.is_exist(Ok(true)), Ok(true));
    assert_eq!(u.is_exist(Ok(false)), Ok(false));
    assert_eq!(u.is_exist(Err(StoreError)), Err(AuthError::PersistenceError));
}

#[test]
fn ordinary_user_may_not_create_users() {
    let u = ucase();
    assert_eq!(u.create_user_check(1, &request("newuser", "password1", 1)), Err(AuthError::PermissionDenied));
    assert_eq!(u.create_user_check(1, &request("x", "", 0)), Err(AuthError::PermissionDenied));
    assert_eq!(u.create_user_check(98, &request("newuser", "password1", 1)), Err(AuthError::PermissionDenied));
}

#[test]
fn admin_request_must_keep_the_field_rules() {
    let u = ucase();
    assert_eq!(u.create_user_check(99, &request("newuser", "password1", 1)), Ok(()));
    assert_eq!(u.create_user_check(99, &request("x", "password1", 1)), Err(AuthError::InvalidPayload));
}

#[test]
fn admin_creating_a_registered_account_is_duplicate() {
    let u = ucase();
    let step = u.create_step(Ok(true), request("alice", "password1", 1));
    assert_eq!(create_failure(step), AuthError::DuplicateAccount);
}

#[test]
fn create_step_reports_store_failure() {
    let u = ucase();
    let step = u.create_step(Err(StoreError), request("alice", "password1", 1));
    assert_eq!(create_failure(step), AuthError::PersistenceError);
}

#[test]
fn create_step_hashes_the_password() {
    let u = ucase();
    let step = u.create_step(Ok(false), request("newuser", "password1", 5));
    let n = match step {
        CreateStep::Insert(n) => n,
        CreateStep::Fail(e) => panic!("create failed: {:?}", e),
    };
    assert_eq!(n.account, "newuser");
    assert_eq!(n.name, "New User");
    assert_eq!(n.role, 5);
    assert_ne!(n.password, "password1");
    assert_eq!(verify_password("password1", &n.password), Ok(true));
}

#[test]
fn create_record_follows_the_hash_result() {
    let u = ucase();
    match u.create_record(request("newuser", "password1", 5), Ok("HASH".to_string())) {
        CreateStep::Insert(n) => {
            assert_eq!(n.account, "newuser");
            assert_eq!(n.password, "HASH");
        }
        CreateStep::Fail(e) => panic!("create failed: {:?}", e),
    }
    let step = u.create_record(request("newuser", "password1", 5), Err(AuthError::HashingError));
    assert_eq!(create_failure(step), AuthError::HashingError);
}

#[test]
fn create_finish_projects_the_new_user() {
    let u = ucase();
    let info = u.create_finish(Ok(alice("h".to_string()))).unwrap();
    assert_eq!(info.account, "alice");
    assert_eq!(info.role, 1);
    assert!(matches!(u.create_finish(Err(StoreError)), Err(AuthError::PersistenceError)));
}

#[test]
fn login_fields_out_of_rule_are_wrong_credentials() {
    let u = ucase();
    let ghost = AuthPayload { account: "ghost".to_string(), password: "x".to_string() };
    assert_eq!(u.login_check(&ghost), Err(AuthError::WrongCredentials));
    let alice = AuthPayload { account: "alice".to_string(), password: "wrongpass".to_string() };
    assert_eq!(u.login_check(&alice), Ok(()));
}

#[test]
fn gen_token_succeeds_now_for_an_ordinary_account() {
    let u = ucase();
    let t = u.gen_token("erin", 3).unwrap();
    match u.tokens().verify(&t, 0) {
        Ok(c) => {
            assert_eq!(c.account, "erin");
            assert_eq!(c.role, 3);
            assert!(c.exp > 604800);
        }
        Err(e) => panic!("token rejected: {:?}", e),
    }
}

#[test]
fn created_record_uses_the_configured_cost() {
    let u = ucase();
    match u.create_step(Ok(false), request("newuser", "password1", 5)) {
        CreateStep::Insert(n) => assert!(n.password.starts_with("$2b$12$")),
        CreateStep::Fail(e) => panic!("create failed: {:?}", e),
    }
}
