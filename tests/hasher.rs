use user_auth::error::AuthError;
use user_auth::hasher::{hash_password, verify_password};

#[test]
fn hash_verifies_for_its_password_only() {
    let h = hash_password("secret1").unwrap();
    assert_ne!(h, "secret1");
    assert!(h.starts_with("$2b$12$"));
    assert_eq!(verify_password("secret1", &h), Ok(true));
    assert_eq!(verify_password("secret2", &h), Ok(false));
    assert_eq!(verify_password("", &h), Ok(false));
}

#[test]
fn hashes_are_salted() {
    let a = hash_password("same password").unwrap();
    let b = hash_password("same password").unwrap();
    assert_ne!(a, b);
    assert_eq!(verify_password("same password", &a), Ok(true));
    assert_eq!(verify_password("same password", &b), Ok(true));
}

#[test]
fn malformed_hash_is_a_hashing_error() {
    assert_eq!(verify_password("secret1", "not a hash"), Err(AuthError::HashingError));
    assert_eq!(verify_password("secret1", ""), Err(AuthError::HashingError));
    assert_eq!(verify_password("secret1", "$9z$12$abc"), Err(AuthError::HashingError));
}
