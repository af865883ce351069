use dashlens::credential::{
    hash_password, hash_password_with_salt, sign_in_verdict, verify_password, VerifyPasswordRequest, VerifyResponse,
    DEFAULT_PHC_PREFIX,
};
use dashlens::phc_text::has_excessive_parallelism;
use dashlens::error::AuthError;

fn check(password: &str, hash: &str) -> Result<VerifyResponse, AuthError> {
    verify_password(VerifyPasswordRequest { password: password.to_string(), hash: hash.to_string() })
}

#[test]
fn hashed_password_verifies() {
    let h = hash_password("hunter2".to_string()).unwrap();
    assert_eq!(check("hunter2", &h.hash), Ok(VerifyResponse { valid: true }));
}

#[test]
fn hash_is_argon2_phc_text_not_the_password() {
    let h = hash_password("hunter2".to_string()).unwrap();
    assert_ne!(h.hash, "hunter2");
    assert!(h.hash.starts_with("$argon2id$v=19$m=19456,t=2,p=1$"));
    assert_eq!(DEFAULT_PHC_PREFIX, "$argon2id$v=19$m=19456,t=2,p=1$");
}

#[test]
fn other_password_does_not_verify() {
    let h = hash_password("open sesame".to_string()).unwrap();
    assert_eq!(check("open sesamE", &h.hash), Ok(VerifyResponse { valid: false }));
    assert_eq!(check("", &h.hash), Ok(VerifyResponse { valid: false }));
}

#[test]
fn two_hashes_of_one_password_differ_and_both_verify() {
    let a = hash_password("same".to_string()).unwrap();
    let b = hash_password("same".to_string()).unwrap();
    assert_ne!(a.hash, b.hash);
    assert_eq!(check("same", &a.hash), Ok(VerifyResponse { valid: true }));
    assert_eq!(check("same", &b.hash), Ok(VerifyResponse { valid: true }));
}

#[test]
fn empty_password_hashes_and_verifies() {
    let h = hash_password(String::new()).unwrap();
    assert_eq!(check("", &h.hash), Ok(VerifyResponse { valid: true }));
}

#[test]
fn malformed_hash_is_a_parse_error() {
    let r = check("anything", "not-a-valid-hash");
    match &r {
        Err(AuthError::HashParse(detail)) => assert!(!detail.is_empty()),
        other => panic!("expected a parse error, got {:?}", other),
    }
    assert_eq!(sign_in_verdict(&r), VerifyResponse { valid: false });
}

#[test]
fn empty_hash_is_a_parse_error() {
    assert!(matches!(check("x", ""), Err(AuthError::HashParse(_))));
}

#[test]
fn hash_without_salt_parses_but_never_matches() {
    assert_eq!(check("x", "$argon2id$v=19$m=19456"), Ok(VerifyResponse { valid: false }));
}

#[test]
fn verdict_passes_through_a_comparison() {
    assert_eq!(sign_in_verdict(&Ok(VerifyResponse { valid: true })), VerifyResponse { valid: true });
    assert_eq!(sign_in_verdict(&Ok(VerifyResponse { valid: false })), VerifyResponse { valid: false });
}

#[test]
fn error_messages() {
    assert_eq!(AuthError::Hashing("out of memory".to_string()).message(), "Failed to hash password: out of memory");
    assert_eq!(AuthError::HashParse("bad field".to_string()).message(), "Failed to parse hash: bad field");
    assert_eq!(AuthError::LockAcquisition.message(), "Failed to lock the session state");
}

#[test]
fn parse_error_message_carries_the_parser_description() {
    match check("x", "plain text") {
        Err(e) => {
            let m = e.message();
            assert!(m.starts_with("Failed to parse hash: "));
            assert!(m.len() > "Failed to parse hash: ".len());
        }
        Ok(v) => panic!("expected a parse error, got {:?}", v),
    }
}

#[test]
fn salted_hash_depends_on_password_and_salt_alone() {
    let a = hash_password_with_salt("pw".to_string(), [0u8; 16]).unwrap();
    let b = hash_password_with_salt("pw".to_string(), [0u8; 16]).unwrap();
    assert_eq!(a, b);
    assert!(a.hash.starts_with("$argon2id$v=19$m=19456,t=2,p=1$AAAAAAAAAAAAAAAAAAAAAA$"));
    assert_eq!(check("pw", &a.hash), Ok(VerifyResponse { valid: true }));
    let c = hash_password_with_salt("pw".to_string(), [1u8; 16]).unwrap();
    assert_ne!(a.hash, c.hash);
    assert!(c.hash.starts_with("$argon2id$v=19$m=19456,t=2,p=1$AQEBAQEBAQEBAQEBAQEBAQ$"));
}

#[test]
fn huge_parallelism_is_a_mismatch_not_a_crash() {
    let h = hash_password_with_salt("pw".to_string(), [7u8; 16]).unwrap();
    let bad = h.hash.replacen("p=1$", "p=536870912$", 1);
    assert!(has_excessive_parallelism(&bad));
    assert_eq!(check("pw", &bad), Ok(VerifyResponse { valid: false }));
    let largest = h.hash.replacen("p=1$", "p=16777215$", 1);
    assert!(!has_excessive_parallelism(&largest));
    assert_eq!(check("pw", &largest), Ok(VerifyResponse { valid: false }));
}

#[test]
fn parallelism_scan() {
    assert!(has_excessive_parallelism("$argon2id$v=19$m=8,t=1,p=16777216$c2FsdHNhbHQ$aGFzaA"));
    assert!(has_excessive_parallelism("$argon2id$p=99999999999"));
    assert!(!has_excessive_parallelism("$argon2id$v=19$m=8,t=1,p=16777215$c2FsdHNhbHQ$aGFzaA"));
    assert!(!has_excessive_parallelism("$argon2id$v=19$m=8,t=1,xp=99999999$c2FsdHNhbHQ$aGFzaA"));
    assert!(!has_excessive_parallelism("p=99999999"));
    assert!(!has_excessive_parallelism(""));
    assert!(!has_excessive_parallelism("$"));
}

#[test]
fn same_malformed_hash_gives_same_error() {
    assert_eq!(check("a", "$$"), check("a", "$$"));
}
