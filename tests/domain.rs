use user_auth::domain::{AuthBody, AuthPayload, CreateUser, UserInfo, UserModel};

fn request(account: &str, password: &str, name: &str, role: i8) -> CreateUser {
    CreateUser {
        account: account.to_string(),
        password: password.to_string(),
        name: name.to_string(),
        role,
    }
}

fn model(created_at: i64) -> UserModel {
    UserModel {
        account: "alice".to_string(),
        password: "$2b$12$hash".to_string(),
        token: "old".to_string(),
        name: "Alice".to_string(),
        role: 1,
        state: 1,
        created_at,
        updated_at: created_at,
    }
}

#[test]
fn create_user_bounds_are_inclusive() {
    assert!(request("abcd", "123456", "A", 1).validate());
    assert!(request(&"a".repeat(30), &"p".repeat(50), &"n".repeat(30), 99).validate());
    assert!(!request("abc", "123456", "A", 1).validate());
    assert!(!request(&"a".repeat(31), "123456", "A", 1).validate());
    assert!(!request("abcd", "12345", "A", 1).validate());
    assert!(!request("abcd", &"p".repeat(51), "A", 1).validate());
    assert!(!request("abcd", "123456", "", 1).validate());
    assert!(!request("abcd", "123456", &"n".repeat(31), 1).validate());
    assert!(!request("abcd", "123456", "A", 0).validate());
    assert!(!request("abcd", "123456", "A", 100).validate());
    assert!(!request("abcd", "123456", "A", -1).validate());
}

#[test]
fn lengths_count_chars_not_bytes() {
    assert!(request("éééé", "ü12345", "名", 1).validate());
    assert!(!request("ééé", "123456", "A", 1).validate());
}

#[test]
fn auth_payload_bounds() {
    let ok = AuthPayload { account: "alice".to_string(), password: "wrongpass".to_string() };
    assert!(ok.validate());
    let short = AuthPayload { account: "ghost".to_string(), password: "x".to_string() };
    assert!(!short.validate());
    let empty = AuthPayload { account: String::new(), password: String::new() };
    assert!(!empty.validate());
}

#[test]
fn user_info_shows_creation_time() {
    let info = UserInfo::from(model(1431648000));
    assert_eq!(info.account, "alice");
    assert_eq!(info.name, "Alice");
    assert_eq!(info.role, 1);
    assert_eq!(info.state, 1);
    assert_eq!(info.created_at, "2015-05-15 00:00:00");
    assert_eq!(UserInfo::from(model(0)).created_at, "1970-01-01 00:00:00");
    assert_eq!(UserInfo::from(model(253402300799)).created_at, "9999-12-31 23:59:59");
}

#[test]
fn user_info_of_unshowable_time_is_empty() {
    assert_eq!(UserInfo::from(model(i64::MAX)).created_at, "");
}

#[test]
fn user_info_default_is_empty() {
    let d = UserInfo::default();
    assert_eq!(d.account, "");
    assert_eq!(d.name, "");
    assert_eq!(d.role, 0);
    assert_eq!(d.state, 0);
    assert_eq!(d.created_at, "");
}

#[test]
fn auth_body_is_a_bearer_token() {
    let b = AuthBody::new("tok".to_string());
    assert_eq!(b.access_token, "tok");
    assert_eq!(b.token_type, "Bearer");
}
