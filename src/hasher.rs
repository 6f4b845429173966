//! One-way password hashing with bcrypt.
use vstd::prelude::*;
use crate::error::AuthError;

verus! {

#[verifier::external_type_specification]
#[verifier::external_body]
pub struct ExBcryptError(bcrypt::BcryptError);

/// The work factor of new hashes.
pub const HASH_COST: u32 = 12;

/// What bcrypt's verification says of `password` against the stored `hash`:
/// `Some(true)` on a match, `Some(false)` on a mismatch, `None` when the hash
/// cannot be read.
pub uninterp spec fn bcrypt_verdict(password: Seq<char>, hash: Seq<char>) -> Option<bool>;

/// The start of a bcrypt hash text of version `2b` with work factor `cost`
/// (two decimal digits): `$2b$NN$`.
pub open spec fn bcrypt_prefix(cost: u32) -> Seq<char> {
    seq!['$', '2', 'b', '$', ((48 + cost / 10) as u8) as char, ((48 + cost % 10) as u8) as char, '$']
}

/// Relies on `bcrypt::hash`: it rejects a cost outside 4..=31, salts randomly,
/// and formats the hash as `$2b$`, the cost in two digits, `$`, then salt and
/// digest, so that `bcrypt::verify` of the same password against it re-derives
/// the same digest.
#[verifier::external_body]
fn bcrypt_hash(password: &str, cost: u32) -> (r: Result<String, bcrypt::BcryptError>)
    ensures
        r matches Ok(h) ==> bcrypt_verdict(password@, h@) == Some(true),
        r matches Ok(h) ==> 4 <= cost <= 31 && h@.len() >= 7 && h@.subrange(0, 7)
            == bcrypt_prefix(cost),
{
    bcrypt::hash(password, cost)
}

/// Relies on `bcrypt::verify`: it re-hashes `password` with the cost and salt
/// read from `hash` and compares; it fails when `hash` is malformed.
#[verifier::external_body]
fn bcrypt_verify(password: &str, hash: &str) -> (r: Result<bool, bcrypt::BcryptError>)
    ensures
        match r {
            Ok(b) => bcrypt_verdict(password@, hash@) == Some(b),
            Err(_) => bcrypt_verdict(password@, hash@) is None,
        },
{
    bcrypt::verify(password, hash)
}

/// A verdict as a result: a malformed hash is a `HashingError`, not a mismatch.
pub open spec fn verdict_result(v: Option<bool>) -> Result<bool, AuthError> {
    match v {
        Some(b) => Ok(b),
        None => Err(AuthError::HashingError),
    }
}

/// Hashes a password with a fresh random salt, at work factor `HASH_COST`.
pub fn hash_password(password: &str) -> (r: Result<String, AuthError>)
    ensures
        match r {
            Ok(h) => bcrypt_verdict(password@, h@) == Some(true) && h@.len() >= 7 && h@.subrange(
                0,
                7,
            ) == bcrypt_prefix(HASH_COST),
            Err(e) => e == AuthError::HashingError,
        },
{
    match bcrypt_hash(password, HASH_COST) {
        Ok(h) => Ok(h),
        Err(_) => Err(AuthError::HashingError),
    }
}

/// Checks a password against a stored hash.
pub fn verify_password(password: &str, hash: &str) -> (r: Result<bool, AuthError>)
    ensures
        r == verdict_result(bcrypt_verdict(password@, hash@)),
{
    match bcrypt_verify(password, hash) {
        Ok(b) => Ok(b),
        Err(_) => Err(AuthError::HashingError),
    }
}

} // verus!
