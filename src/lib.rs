//! Authentication core of a small multi-user API: password hashing, signed
//! session tokens, the bearer-token gate and the user use-case decisions.
pub mod responder;
pub mod codec;
pub mod error;
pub mod token;
pub mod hasher;
pub mod clock;
pub mod domain;
pub mod extractor;
pub mod usecase;
