//! The credential codec: `hash` turns a plaintext password into a verifier
//! that is safe to store, `verify` checks a plaintext against a verifier.

use vstd::prelude::*;
use crate::error::CredentialError;
use crate::kdf::{
    argon2_encoding, argon2_hash_encoded, argon2_verification, argon2_verify_encoded,
    carries_salt, hash_rejection, is_encoding_of, is_encoding_with, random_salt, well_framed,
    KdfFault, MAX_INPUT_LENGTH, SALT_LENGTH,
};

verus! {

/// The outcome of hashing `plaintext` with `salt`: the verifier, or the
/// reason for which the key-derivation function refuses the input.
pub open spec fn hash_spec(plaintext: Seq<u8>, salt: Seq<u8>) -> Result<
    Seq<char>,
    CredentialError,
> {
    match hash_rejection(plaintext, salt) {
        Some(fault) => Err(CredentialError::Hashing(fault)),
        None => Ok(argon2_encoding(plaintext, salt)),
    }
}

/// The outcome of checking `plaintext` against `verifier`: whether the
/// derived keys agree, or the reason for which the verifier cannot be used.
pub open spec fn verify_spec(verifier: Seq<char>, plaintext: Seq<u8>) -> Result<
    bool,
    CredentialError,
> {
    if is_encoding_of(verifier, plaintext) {
        Ok(true)
    } else if !well_framed(verifier) {
        Err(CredentialError::Verification(KdfFault::Malformed))
    } else {
        match argon2_verification(verifier, plaintext) {
            Ok(matches) => Ok(matches),
            Err(fault) => Err(CredentialError::Verification(fault)),
        }
    }
}

/// A verifier as the contracts see it: its characters.
pub open spec fn verifier_view(r: Result<String, CredentialError>) -> Result<
    Seq<char>,
    CredentialError,
> {
    match r {
        Ok(verifier) => Ok(verifier@),
        Err(e) => Err(e),
    }
}

/// `verifier` is what hashing `plaintext` yields for some salt of
/// `SALT_LENGTH` bytes.
pub open spec fn is_verifier_of(verifier: Seq<char>, plaintext: Seq<u8>) -> bool {
    exists|salt: Seq<u8>|
        salt.len() == SALT_LENGTH && #[trigger] is_encoding_with(verifier, plaintext, salt)
}

/// Turns what the key-derivation function returned into the codec's answer:
/// the verifier as it is, a refusal as a hashing error.
pub fn hashing_outcome(result: Result<String, KdfFault>) -> (r: Result<String, CredentialError>)
    ensures
        match result {
            Ok(encoded) => r matches Ok(verifier) && verifier == encoded,
            Err(fault) => r matches Err(e) && e == CredentialError::Hashing(fault),
        },
{
    match result {
        Ok(encoded) => Ok(encoded),
        Err(fault) => Err(CredentialError::Hashing(fault)),
    }
}

/// Turns what the key-derivation function returned into the codec's answer:
/// a comparison as it is, a refusal as a verification error.
pub fn verification_outcome(result: Result<bool, KdfFault>) -> (r: Result<bool, CredentialError>)
    ensures
        match result {
            Ok(matches) => r matches Ok(b) && b == matches,
            Err(fault) => r matches Err(e) && e == CredentialError::Verification(fault),
        },
{
    match result {
        Ok(matches) => Ok(matches),
        Err(fault) => Err(CredentialError::Verification(fault)),
    }
}

/// Hashes `plaintext` with the given salt.
///
/// A plaintext of more than `MAX_INPUT_LENGTH` bytes is refused; if the
/// plaintext passes, so is a salt of fewer than `MIN_SALT_LENGTH` or more
/// than `MAX_INPUT_LENGTH` bytes. The same plaintext and salt always give
/// the same verifier, and the verifier carries the salt.
pub fn hash_with_salt(plaintext: &[u8], salt: &[u8]) -> (r: Result<String, CredentialError>)
    ensures
        verifier_view(r) == hash_spec(plaintext@, salt@),
        r matches Ok(verifier) ==> {
            &&& well_framed(verifier@)
            &&& carries_salt(verifier@, salt@)
            &&& verify_spec(verifier@, plaintext@) matches Ok(true)
        },
{
    let r = hashing_outcome(argon2_hash_encoded(plaintext, salt));
    proof {
        if r is Ok {
            assert(is_encoding_with(r->Ok_0@, plaintext@, salt@));
        }
    }
    r
}

/// Hashes `plaintext` with a salt of `SALT_LENGTH` random bytes, drawn anew
/// for every call.
///
/// Hashing succeeds unless the plaintext is longer than `MAX_INPUT_LENGTH`
/// bytes; the empty plaintext is hashed like any other. The verifier is not
/// empty, and `verify` accepts it for `plaintext`.
pub fn hash(plaintext: &[u8]) -> (r: Result<String, CredentialError>)
    ensures
        match r {
            Ok(verifier) => {
                &&& plaintext@.len() <= MAX_INPUT_LENGTH
                &&& is_verifier_of(verifier@, plaintext@)
                &&& well_framed(verifier@)
                &&& verify_spec(verifier@, plaintext@) matches Ok(true)
            },
            Err(e) => {
                &&& plaintext@.len() > MAX_INPUT_LENGTH
                &&& e == CredentialError::Hashing(KdfFault::PasswordTooLong)
            },
        },
{
    let salt = random_salt();
    let r = hash_with_salt(plaintext, salt.as_slice());
    proof {
        if r is Ok {
            assert(is_encoding_with(r->Ok_0@, plaintext@, salt@));
        }
    }
    r
}

/// Checks `plaintext` against `verifier`.
///
/// `Ok(true)` says that the key derived from `plaintext` under the
/// verifier's own parameters and salt is the key in the verifier, `Ok(false)`
/// that it is not. A verifier that cannot be decoded is an error, never
/// `Ok(true)`.
pub fn verify(verifier: &str, plaintext: &[u8]) -> (r: Result<bool, CredentialError>)
    ensures
        r == verify_spec(verifier@, plaintext@),
        !well_framed(verifier@) ==> r matches Err(
            CredentialError::Verification(KdfFault::Malformed),
        ),
{
    verification_outcome(argon2_verify_encoded(verifier, plaintext))
}

/// A verifier made from a plaintext verifies that plaintext, whatever the
/// salt.
pub proof fn lemma_hashed_plaintext_verifies(plaintext: Seq<u8>, salt: Seq<u8>)
    requires
        hash_spec(plaintext, salt) is Ok,
    ensures
        verify_spec(hash_spec(plaintext, salt)->Ok_0, plaintext) matches Ok(true),
{
    assert(is_encoding_with(argon2_encoding(plaintext, salt), plaintext, salt));
}

/// Two verifiers made with two salts differ, whatever the plaintexts: where
/// `first` carries its salt and `second` is made with another, they are not
/// the same string.
pub proof fn lemma_salts_tell_verifiers_apart(
    first: Seq<char>,
    first_salt: Seq<u8>,
    second: Seq<char>,
    second_plaintext: Seq<u8>,
    second_salt: Seq<u8>,
)
    requires
        carries_salt(first, first_salt),
        is_encoding_with(second, second_plaintext, second_salt),
        first_salt != second_salt,
    ensures
        first != second,
{
    if first == second {
        assert(is_encoding_with(first, second_plaintext, second_salt));
    }
}

} // verus!
