//! Failures of the authentication core.
use vstd::prelude::*;

verus! {

/// Every way an authentication or user operation can fail.
#[derive(Copy, Clone, Debug, PartialEq, Eq, Structural)]
pub enum AuthError {
    /// No bearer credential was presented.
    MissingCredentials,
    /// The account is unknown or the password does not match.
    WrongCredentials,
    /// The token is malformed, carries a bad signature, or has expired.
    InvalidToken,
    /// A token could not be produced.
    TokenCreation,
    /// The requester's role does not allow the action.
    PermissionDenied,
    /// The account is already registered.
    DuplicateAccount,
    /// No user has the account.
    NotFound,
    /// The user store failed.
    PersistenceError,
    /// Password hashing or verification could not run, or the stored hash is malformed.
    HashingError,
    /// A request body breaks the field rules.
    InvalidPayload,
}

/// A failure reported by the user store; the core treats it as opaque.
#[derive(Copy, Clone, Debug, PartialEq, Eq, Structural)]
pub struct StoreError;

} // verus!
