//! The errors of credential handling.

use vstd::prelude::*;
use crate::kdf::KdfFault;

verus! {

/// A failure of the credential codec. A wrong password is no error: it is
/// the answer `Ok(false)`.
#[derive(Clone, Copy, Debug, PartialEq, Eq, Structural)]
pub enum CredentialError {
    /// The key-derivation function could not produce a verifier.
    Hashing(KdfFault),
    /// The stored verifier could not be decoded or names parameters that the
    /// key-derivation function does not support.
    Verification(KdfFault),
}

/// The status under which every failure of the codec is reported: an
/// internal error.
pub const INTERNAL_ERROR: u16 = 500;

impl CredentialError {
    /// The text of this error: what was attempted, then the fault.
    pub open spec fn message_spec(self) -> Seq<char> {
        match self {
            CredentialError::Hashing(fault) => "Failed to hash password: "@ + fault.reason_spec(),
            CredentialError::Verification(fault) => "Failed to verify password: "@
                + fault.reason_spec(),
        }
    }

    /// The status code under which this error is reported.
    pub fn status_code(&self) -> (r: u16)
        ensures
            r == INTERNAL_ERROR,
    {
        INTERNAL_ERROR
    }

    /// The text of this error: what was attempted, then the fault.
    pub fn message(&self) -> (r: String)
        ensures
            r@ == self.message_spec(),
    {
        match self {
            CredentialError::Hashing(fault) => String::from_str("Failed to hash password: ").concat(
                fault.reason(),
            ),
            CredentialError::Verification(fault) => String::from_str(
                "Failed to verify password: ",
            ).concat(fault.reason()),
        }
    }
}

} // verus!
