//! The boundary to the `argon2` and `rand` crates.
//!
//! Everything in this module that is marked `external_body` is believed, not
//! proved. The doc comment of each such function says what is claimed of the
//! outside code.

use vstd::prelude::*;

verus! {

/// Number of random bytes in the salt of a new verifier.
pub const SALT_LENGTH: usize = 32;

/// Shortest salt that Argon2 accepts, in bytes.
pub const MIN_SALT_LENGTH: usize = 8;

/// Longest password and longest salt that Argon2 accepts, in bytes.
pub const MAX_INPUT_LENGTH: u64 = 0xFFFF_FFFF;

/// Why the key-derivation function refused its input.
#[derive(Clone, Copy, Debug, PartialEq, Eq, Structural)]
pub enum KdfFault {
    /// The password is longer than `MAX_INPUT_LENGTH` bytes.
    PasswordTooLong,
    /// The salt is shorter than `MIN_SALT_LENGTH` bytes.
    SaltTooShort,
    /// The salt is longer than `MAX_INPUT_LENGTH` bytes.
    SaltTooLong,
    /// The encoded verifier could not be decoded.
    Malformed,
    /// The cost parameters or lengths are outside what Argon2 supports.
    Unsupported,
}

impl KdfFault {
    /// The words for this fault.
    pub open spec fn reason_spec(self) -> Seq<char> {
        match self {
            KdfFault::PasswordTooLong => "Password is too long"@,
            KdfFault::SaltTooShort => "Salt is too short"@,
            KdfFault::SaltTooLong => "Salt is too long"@,
            KdfFault::Malformed => "Decoding failed"@,
            KdfFault::Unsupported => "Unsupported parameters"@,
        }
    }

    /// The words for this fault.
    pub fn reason(&self) -> (r: &'static str)
        ensures
            r@ == self.reason_spec(),
    {
        match self {
            KdfFault::PasswordTooLong => "Password is too long",
            KdfFault::SaltTooShort => "Salt is too short",
            KdfFault::SaltTooLong => "Salt is too long",
            KdfFault::Malformed => "Decoding failed",
            KdfFault::Unsupported => "Unsupported parameters",
        }
    }
}

/// The encoded verifier that `argon2::hash_encoded` returns for a password and
/// a salt under `argon2::Config::default()`, on inputs that it accepts.
pub uninterp spec fn argon2_encoding(password: Seq<u8>, salt: Seq<u8>) -> Seq<char>;

/// What `argon2::verify_encoded` returns for an encoded verifier and a
/// password, its error told as a `KdfFault`.
pub uninterp spec fn argon2_verification(encoded: Seq<char>, password: Seq<u8>) -> Result<
    bool,
    KdfFault,
>;

/// The reason, if any, for which Argon2 under its default configuration
/// refuses to hash `password` with `salt`. The password length is tested
/// first.
pub open spec fn hash_rejection(password: Seq<u8>, salt: Seq<u8>) -> Option<KdfFault> {
    if password.len() > MAX_INPUT_LENGTH {
        Some(KdfFault::PasswordTooLong)
    } else if salt.len() < MIN_SALT_LENGTH {
        Some(KdfFault::SaltTooShort)
    } else if salt.len() > MAX_INPUT_LENGTH {
        Some(KdfFault::SaltTooLong)
    } else {
        None
    }
}

/// Number of `$` characters in `text`.
pub open spec fn separator_count(text: Seq<char>) -> nat
    decreases text.len(),
{
    if text.len() == 0 {
        0
    } else {
        separator_count(text.drop_last()) + if text.last() == '$' {
            1nat
        } else {
            0nat
        }
    }
}

/// An encoded verifier starts with `$` and consists of five or six fields,
/// each introduced by a `$`, the first of them empty.
pub open spec fn well_framed(encoded: Seq<char>) -> bool {
    &&& encoded.len() > 0
    &&& encoded[0] == '$'
    &&& (separator_count(encoded) == 4 || separator_count(encoded) == 5)
}

/// `encoded` is what hashing `password` with `salt` yields.
pub open spec fn is_encoding_with(encoded: Seq<char>, password: Seq<u8>, salt: Seq<u8>) -> bool {
    hash_rejection(password, salt) is None && argon2_encoding(password, salt) == encoded
}

/// `encoded` is what hashing `password` yields for some salt.
pub open spec fn is_encoding_of(encoded: Seq<char>, password: Seq<u8>) -> bool {
    exists|salt: Seq<u8>| #[trigger] is_encoding_with(encoded, password, salt)
}

/// `encoded` carries `salt`: no other salt yields it, whatever the password.
pub open spec fn carries_salt(encoded: Seq<char>, salt: Seq<u8>) -> bool {
    forall|password: Seq<u8>, other: Seq<u8>| #[trigger]
        is_encoding_with(encoded, password, other) ==> other == salt
}

/// Calls `rand::thread_rng().gen()` for an array of `SALT_LENGTH` bytes.
///
/// Nothing is claimed of the bytes: they come from the operating system's
/// random source, and two calls need not agree.
#[verifier::external_body]
pub(crate) fn random_salt() -> (salt: [u8; SALT_LENGTH]) {
    rand::Rng::gen(&mut rand::thread_rng())
}

/// Calls `argon2::hash_encoded` with `argon2::Config::default()`.
///
/// Claimed of the outside function: under the default configuration it
/// refuses exactly a password longer than `MAX_INPUT_LENGTH` bytes and a salt
/// shorter than `MIN_SALT_LENGTH` or longer than `MAX_INPUT_LENGTH` bytes,
/// testing the password first; on every other input it returns an encoded
/// verifier that depends on the password and the salt alone, in which five
/// `$` each introduce a field, and one of whose fields is the salt in
/// base64, so that no other salt gives the same verifier. An error of the
/// crate that is none of the three would come back as `Unsupported`; the
/// contract says that none does.
#[verifier::external_body]
pub(crate) fn argon2_hash_encoded(password: &[u8], salt: &[u8]) -> (r: Result<String, KdfFault>)
    ensures
        match r {
            Ok(encoded) => {
                &&& hash_rejection(password@, salt@) is None
                &&& encoded@ == argon2_encoding(password@, salt@)
                &&& well_framed(encoded@)
                &&& carries_salt(encoded@, salt@)
            },
            Err(fault) => hash_rejection(password@, salt@) == Some(fault),
        },
{
    match argon2::hash_encoded(password, salt, &argon2::Config::default()) {
        Ok(encoded) => Ok(encoded),
        Err(argon2::Error::PwdTooLong) => Err(KdfFault::PasswordTooLong),
        Err(argon2::Error::SaltTooShort) => Err(KdfFault::SaltTooShort),
        Err(argon2::Error::SaltTooLong) => Err(KdfFault::SaltTooLong),
        Err(_) => Err(KdfFault::Unsupported),
    }
}

/// Calls `argon2::verify_encoded`.
///
/// Claimed of the outside function: its result depends on the encoded
/// verifier and the password alone; it accepts every verifier that
/// `argon2::hash_encoded` produces under the default configuration when it is
/// given the password that was hashed; and it reports a decoding failure for
/// every string that does not split at `$` into an empty field followed by
/// four or five more. A decoding failure comes back as `Malformed`, a
/// password or salt outside its bounds under its own name, every other
/// refusal as `Unsupported`. The claims hold of calls that return: a
/// verifier that asks for more memory or threads than the machine has makes
/// the outside function abort.
#[verifier::external_body]
pub(crate) fn argon2_verify_encoded(encoded: &str, password: &[u8]) -> (r: Result<bool, KdfFault>)
    ensures
        r == argon2_verification(encoded@, password@),
        is_encoding_of(encoded@, password@) ==> r matches Ok(true),
        !well_framed(encoded@) ==> r matches Err(KdfFault::Malformed),
{
    match argon2::verify_encoded(encoded, password) {
        Ok(matches) => Ok(matches),
        Err(argon2::Error::DecodingFail) => Err(KdfFault::Malformed),
        Err(argon2::Error::PwdTooLong) => Err(KdfFault::PasswordTooLong),
        Err(argon2::Error::SaltTooShort) => Err(KdfFault::SaltTooShort),
        Err(argon2::Error::SaltTooLong) => Err(KdfFault::SaltTooLong),
        Err(_) => Err(KdfFault::Unsupported),
    }
}

} // verus!
