//! Credential handling for user accounts: a plaintext password is turned into
//! a salted Argon2 verifier before it is stored, and a plaintext presented at
//! login is checked against the stored verifier.

pub mod codec;
pub mod error;
pub mod kdf;
pub mod user;
