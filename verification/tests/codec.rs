use user_credentials::codec::{hash, hash_with_salt, hashing_outcome, verification_outcome, verify};
use user_credentials::error::{CredentialError, INTERNAL_ERROR};
use user_credentials::kdf::{KdfFault, MAX_INPUT_LENGTH, MIN_SALT_LENGTH, SALT_LENGTH};

const PASSWORD_VERIFIER: &str =
    "$argon2i$v=19$m=4096,t=3,p=1$c29tZXNhbHQ$iWh06vD8Fy27wf9npn6FXWiCX4K6pW6Ue1Bnzz07Z8A";

fn field_after(verifier: &str, place: usize) -> String {
    verifier.split('$').nth(place).unwrap().to_string()
}

#[test]
fn hash_then_verify_with_one_verifier() {
    let v1 = hash(b"correct horse battery staple").unwrap();
    assert!(!v1.is_empty());
    assert!(v1.starts_with("$argon2i$"));
    assert_eq!(verify(&v1, b"correct horse battery staple"), Ok(true));
    assert_eq!(verify(&v1, b"wrong password"), Ok(false));
}

#[test]
fn hash_then_verify_accepts_the_plaintext() {
    for plaintext in [&b"a"[..], &b"hunter2"[..], &b"\x00\xff\x00"[..], &[b'x'; 300][..]] {
        let verifier = hash(plaintext).unwrap();
        assert_eq!(verify(&verifier, plaintext), Ok(true));
    }
}

#[test]
fn hash_then_verify_rejects_another_plaintext() {
    let v1 = hash(b"correct horse battery staple").unwrap();
    assert_eq!(verify(&v1, b"correct horse battery stapl"), Ok(false));
    assert_eq!(verify(&v1, b"correct horse battery staple "), Ok(false));
    assert_eq!(verify(&v1, b"Correct horse battery staple"), Ok(false));
    assert_eq!(verify(&v1, b""), Ok(false));
}

#[test]
fn hash_twice_gives_two_verifiers() {
    let first = hash(b"same plaintext").unwrap();
    let second = hash(b"same plaintext").unwrap();
    assert_ne!(first, second);
    assert_ne!(field_after(&first, 4), field_after(&second, 4));
    assert_eq!(verify(&first, b"same plaintext"), Ok(true));
    assert_eq!(verify(&second, b"same plaintext"), Ok(true));
}

#[test]
fn hash_embeds_its_parameters_and_a_salt_of_full_length() {
    let v = hash(b"hunter2").unwrap();
    let fields: Vec<&str> = v.split('$').collect();
    assert_eq!(fields.len(), 6);
    assert_eq!(fields[0], "");
    assert_eq!(fields[1], "argon2i");
    assert_eq!(fields[2], "v=19");
    assert_eq!(fields[3], "m=4096,t=3,p=1");
    // 32 bytes in unpadded base64
    assert_eq!(SALT_LENGTH, 32);
    assert_eq!(fields[4].len(), 43);
    assert_eq!(fields[5].len(), 43);
}

#[test]
fn hash_does_not_hold_the_plaintext() {
    let v = hash(b"plaintext-to-hide").unwrap();
    assert!(!v.contains("plaintext-to-hide"));
}

#[test]
fn hash_accepts_the_empty_plaintext() {
    let v = hash(b"").unwrap();
    assert_eq!(verify(&v, b""), Ok(true));
    assert_eq!(verify(&v, b"x"), Ok(false));
}

#[test]
fn hash_with_salt_gives_the_known_encoding() {
    assert_eq!(hash_with_salt(b"password", b"somesalt"), Ok(PASSWORD_VERIFIER.to_string()));
}

#[test]
fn hash_with_salt_of_full_length_gives_the_known_encoding() {
    let salt: Vec<u8> = (0u8..32).collect();
    assert_eq!(
        hash_with_salt(b"correct horse battery staple", &salt),
        Ok("$argon2i$v=19$m=4096,t=3,p=1$AAECAwQFBgcICQoLDA0ODxAREhMUFRYXGBkaGxwdHh8\
            $EJsvP/xVroRzNst8iLYHE8JyFfSnVCBJ+4QF7hzuyTU"
            .to_string())
    );
}

#[test]
fn hash_with_salt_depends_on_the_plaintext() {
    assert_eq!(
        hash_with_salt(b"", b"somesalt"),
        Ok("$argon2i$v=19$m=4096,t=3,p=1$c29tZXNhbHQ$bcF3y6mdsBzKwFwQPBz1siQixw7Im65HH1YPjB03f+A"
            .to_string())
    );
}

#[test]
fn hash_with_salt_is_a_function_of_its_arguments() {
    let first = hash_with_salt(b"again", b"0123456789abcdef").unwrap();
    let second = hash_with_salt(b"again", b"0123456789abcdef").unwrap();
    assert_eq!(first, second);
    let other = hash_with_salt(b"again", b"0123456789abcdeg").unwrap();
    assert_ne!(first, other);
}

#[test]
fn hash_with_salt_then_verify_for_salts_of_several_lengths() {
    for length in [8usize, 9, 10, 16, 31, 32, 33, 64] {
        let salt = vec![0xa5u8; length];
        let verifier = hash_with_salt(b"plaintext", &salt).unwrap();
        assert_eq!(verifier.matches('$').count(), 5);
        assert!(verifier.starts_with("$argon2i$v=19$m=4096,t=3,p=1$"));
        assert_eq!(verify(&verifier, b"plaintext"), Ok(true));
        assert_eq!(verify(&verifier, b"plaintexT"), Ok(false));
    }
}

#[test]
fn hash_with_salt_refuses_a_short_salt() {
    assert_eq!(MIN_SALT_LENGTH, 8);
    assert_eq!(
        hash_with_salt(b"password", b"7 bytes"),
        Err(CredentialError::Hashing(KdfFault::SaltTooShort))
    );
    assert_eq!(
        hash_with_salt(b"password", b""),
        Err(CredentialError::Hashing(KdfFault::SaltTooShort))
    );
    assert!(hash_with_salt(b"password", b"8 bytes!").is_ok());
}

#[test]
fn hash_with_salt_result_verifies() {
    let v = hash_with_salt(b"p\xc3\xa4ssw\xc3\xb6rd", b"0123456789abcdef0123456789abcdef").unwrap();
    assert_eq!(
        v,
        "$argon2i$v=19$m=4096,t=3,p=1$MDEyMzQ1Njc4OWFiY2RlZjAxMjM0NTY3ODlhYmNkZWY\
         $NqoVXUpq2JsVlhfWYRU8+GUi9vfoq1xRwxfDh6XA7to"
    );
    assert_eq!(verify(&v, "pässwörd".as_bytes()), Ok(true));
    assert_eq!(verify(&v, b"password"), Ok(false));
}

#[test]
fn verify_accepts_the_known_verifier() {
    assert_eq!(verify(PASSWORD_VERIFIER, b"password"), Ok(true));
    assert_eq!(verify(PASSWORD_VERIFIER, b"Password"), Ok(false));
}

#[test]
fn verify_reads_the_parameters_from_the_verifier() {
    let other = "$argon2id$v=19$m=64,t=2,p=1$c2FsdHNhbHQ$IwEMr44ubUWbX57Ryup3YQ";
    assert_eq!(verify(other, b"open sesame"), Ok(true));
    assert_eq!(verify(other, b"open sesame!"), Ok(false));
}

#[test]
fn verify_of_a_malformed_verifier_is_an_error() {
    let malformed = Err(CredentialError::Verification(KdfFault::Malformed));
    assert_eq!(verify("", b"password"), malformed);
    assert_eq!(verify("not a verifier", b"password"), malformed);
    assert_eq!(verify("password", b"password"), malformed);
    assert_eq!(verify("$", b"password"), malformed);
    assert_eq!(verify("$$$$$$$", b"password"), malformed);
    // the leading field is not empty
    assert_eq!(verify(&format!("x{}", PASSWORD_VERIFIER), b"password"), malformed);
    // a tag that names no variant of the function
    assert_eq!(
        verify(&PASSWORD_VERIFIER.replace("argon2i", "scrypt"), b"password"),
        malformed
    );
    // a version that does not exist
    assert_eq!(verify(&PASSWORD_VERIFIER.replace("v=19", "v=20"), b"password"), malformed);
    // a cost that is no number
    assert_eq!(verify(&PASSWORD_VERIFIER.replace("t=3", "t=three"), b"password"), malformed);
    // a salt that is not base64
    assert_eq!(
        verify(&PASSWORD_VERIFIER.replace("c29tZXNhbHQ", "c29t*XNhbHQ"), b"password"),
        malformed
    );
}

#[test]
fn verify_of_a_truncated_verifier_is_an_error() {
    let malformed = Err(CredentialError::Verification(KdfFault::Malformed));
    // cut within the parameters, within the salt, and before the last field
    assert_eq!(verify(&PASSWORD_VERIFIER[..20], b"password"), malformed);
    assert_eq!(verify(&PASSWORD_VERIFIER[..35], b"password"), malformed);
    assert_eq!(verify(&PASSWORD_VERIFIER[..40], b"password"), malformed);
}

#[test]
fn verify_of_a_shortened_key_is_never_true() {
    for cut in 42..PASSWORD_VERIFIER.len() {
        assert_ne!(verify(&PASSWORD_VERIFIER[..cut], b"password"), Ok(true));
    }
}

#[test]
fn verify_reports_parameters_out_of_range() {
    assert_eq!(
        verify(&PASSWORD_VERIFIER.replace("t=3", "t=0"), b"password"),
        Err(CredentialError::Verification(KdfFault::Unsupported))
    );
    assert_eq!(
        verify(&PASSWORD_VERIFIER.replace("p=1", "p=0"), b"password"),
        Err(CredentialError::Verification(KdfFault::Unsupported))
    );
    assert_eq!(
        verify(&PASSWORD_VERIFIER.replace("m=4096", "m=7"), b"password"),
        Err(CredentialError::Verification(KdfFault::Unsupported))
    );
    // a salt of four bytes
    assert_eq!(
        verify(&PASSWORD_VERIFIER.replace("c29tZXNhbHQ", "c2FsdA"), b"password"),
        Err(CredentialError::Verification(KdfFault::SaltTooShort))
    );
}

#[test]
fn hashing_outcome_keeps_the_verifier_and_wraps_the_fault() {
    assert_eq!(hashing_outcome(Ok("$a$b$c$d$e".to_string())), Ok("$a$b$c$d$e".to_string()));
    assert_eq!(hashing_outcome(Ok(String::new())), Ok(String::new()));
    assert_eq!(
        hashing_outcome(Err(KdfFault::PasswordTooLong)),
        Err(CredentialError::Hashing(KdfFault::PasswordTooLong))
    );
    assert_eq!(
        hashing_outcome(Err(KdfFault::SaltTooLong)),
        Err(CredentialError::Hashing(KdfFault::SaltTooLong))
    );
    assert_eq!(
        hashing_outcome(Err(KdfFault::Unsupported)),
        Err(CredentialError::Hashing(KdfFault::Unsupported))
    );
}

#[test]
fn verification_outcome_keeps_the_answer_and_wraps_the_fault() {
    assert_eq!(verification_outcome(Ok(true)), Ok(true));
    assert_eq!(verification_outcome(Ok(false)), Ok(false));
    assert_eq!(
        verification_outcome(Err(KdfFault::Malformed)),
        Err(CredentialError::Verification(KdfFault::Malformed))
    );
    assert_eq!(
        verification_outcome(Err(KdfFault::PasswordTooLong)),
        Err(CredentialError::Verification(KdfFault::PasswordTooLong))
    );
}

#[test]
fn errors_carry_a_status_and_a_text() {
    let hashing = CredentialError::Hashing(KdfFault::PasswordTooLong);
    assert_eq!(INTERNAL_ERROR, 500);
    assert_eq!(hashing.status_code(), 500);
    assert_eq!(hashing.message(), "Failed to hash password: Password is too long");
    let verification = CredentialError::Verification(KdfFault::Malformed);
    assert_eq!(verification.status_code(), 500);
    assert_eq!(verification.message(), "Failed to verify password: Decoding failed");
    assert_ne!(hashing, verification);
    assert_eq!(
        CredentialError::Hashing(KdfFault::SaltTooShort).message(),
        "Failed to hash password: Salt is too short"
    );
    assert_eq!(
        CredentialError::Hashing(KdfFault::SaltTooLong).message(),
        "Failed to hash password: Salt is too long"
    );
    assert_eq!(
        CredentialError::Verification(KdfFault::Unsupported).message(),
        "Failed to verify password: Unsupported parameters"
    );
}

#[test]
fn faults_have_their_words() {
    assert_eq!(KdfFault::PasswordTooLong.reason(), "Password is too long");
    assert_eq!(KdfFault::SaltTooShort.reason(), "Salt is too short");
    assert_eq!(KdfFault::SaltTooLong.reason(), "Salt is too long");
    assert_eq!(KdfFault::Malformed.reason(), "Decoding failed");
    assert_eq!(KdfFault::Unsupported.reason(), "Unsupported parameters");
    assert_eq!(MAX_INPUT_LENGTH, 4_294_967_295);
}

#[test]
fn verify_of_a_verifier_cut_within_its_key_is_no_match() {
    // what is left of the key still decodes, to fewer bytes
    assert_eq!(verify(&PASSWORD_VERIFIER[..81], b"password"), Ok(false));
}
