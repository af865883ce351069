//! Salted Argon2 password hashes: deriving one, and checking a password against one.
use vstd::prelude::*;
use argon2::password_hash::rand_core::{OsRng, RngCore};
use argon2::password_hash::{PasswordHash, PasswordHasher, PasswordVerifier, SaltString};
use argon2::Argon2;
use crate::error::AuthError;
use crate::phc_text::{excessive_parallelism, has_excessive_parallelism, excessive_p_at, digit_run_len, digits_value};

verus! {

#[verifier::external_type_specification]
#[verifier::external_body]
pub struct ExPasswordHashError(argon2::password_hash::Error);

#[verifier::external_type_specification]
#[verifier::external_body]
pub struct ExRandError(argon2::password_hash::rand_core::Error);

/// What `PasswordHash::new` makes of `encoded`: `Ok` when it parses, else the
/// `Display` text of its error.
pub uninterp spec fn phc_parse_outcome(encoded: Seq<char>) -> Result<(), Seq<char>>;

/// Whether Argon2 verification of `password` against the parsed `encoded` hash succeeds.
pub uninterp spec fn argon2_accepts(password: Seq<char>, encoded: Seq<char>) -> bool;

/// The PHC text of the Argon2 hash of `password` under the sixteen salt bytes
/// `salt`, with the default algorithm, version and cost parameters.
pub uninterp spec fn argon2_phc(password: Seq<char>, salt: Seq<u8>) -> Seq<char>;

/// The start of every hash this library derives: Argon2id, version 19, and the
/// default costs (19 MiB of memory, two passes, one lane).
pub const DEFAULT_PHC_PREFIX: &'static str = "$argon2id$v=19$m=19456,t=2,p=1$";

/// The longest password, in characters, that Argon2 is sure to accept: at four
/// bytes a character it stays within Argon2's limit of 2^32 - 1 bytes.
pub const MAX_PASSWORD_CHARS: usize = 0x3FFF_FFFF;

pub open spec fn phc_parses(encoded: Seq<char>) -> bool {
    phc_parse_outcome(encoded) is Ok
}

/// Whether the text begins with the PHC field separator `$`.
pub open spec fn begins_with_separator(encoded: Seq<char>) -> bool {
    encoded.len() > 0 && encoded[0] == '$'
}

/// What checking `password` against `encoded` comes to: `Err` with the parser's
/// description when `encoded` is not a well-formed hash, else whether the
/// password matches it. A hash asking for more parallelism than Argon2 allows
/// never matches.
pub open spec fn verification_result(password: Seq<char>, encoded: Seq<char>) -> Result<bool, Seq<char>> {
    if excessive_parallelism(encoded) {
        Ok(false)
    } else {
        match phc_parse_outcome(encoded) {
            Ok(_) => Ok(argon2_accepts(password, encoded)),
            Err(d) => Err(d),
        }
    }
}

/// Relies on `RngCore::try_fill_bytes` of `OsRng`: sixteen bytes from the
/// operating system's random source, or the error it reports. Nothing is
/// promised of the bytes.
#[verifier::external_body]
fn fresh_salt() -> Result<[u8; 16], argon2::password_hash::rand_core::Error> {
    let mut bytes = [0u8; 16];
    OsRng.try_fill_bytes(&mut bytes).map(|_| bytes)
}

/// Relies on `SaltString::encode_b64` and `PasswordHasher::hash_password` of
/// `Argon2::default()`, and on the PHC text of the result. With a sixteen-byte
/// salt and the default parameters Argon2 fails only on a password of more than
/// 2^32 - 1 bytes. The text is `$argon2id$v=19$m=19456,t=2,p=1$`, then the salt
/// and the output in unpadded Base64 separated by `$`, so no `=` follows the
/// parameters. As argon2's documentation shows, it parses with
/// `PasswordHash::new` and verifies against the same password.
#[verifier::external_body]
fn argon2_encode(password: &str, salt: &[u8; 16]) -> (r: Result<String, argon2::password_hash::Error>)
    ensures
        password@.len() <= MAX_PASSWORD_CHARS ==> r is Ok,
        r matches Ok(encoded) ==> encoded@ == argon2_phc(password@, salt@),
        r matches Ok(encoded) ==> phc_parses(encoded@) && argon2_accepts(password@, encoded@),
        r matches Ok(encoded) ==> encoded@.len() >= DEFAULT_PHC_PREFIX@.len()
            && encoded@.subrange(0, DEFAULT_PHC_PREFIX@.len() as int) == DEFAULT_PHC_PREFIX@,
        r matches Ok(encoded) ==> forall|i: int|
            DEFAULT_PHC_PREFIX@.len() <= i < encoded@.len() ==> encoded@[i] != '=',
{
    let salt = SaltString::encode_b64(salt)?;
    Argon2::default().hash_password(password.as_bytes(), &salt).map(|h| h.to_string())
}

/// Relies on `PasswordHash::new`, which parses the PHC text and refuses one whose
/// first character is not `$`, and on `PasswordVerifier::verify_password` of
/// `Argon2::default()` applied to the parsed hash. Parsing only turns the text
/// into the argument that the verifier takes; its error is passed on as its
/// `Display` text. The verifier rebuilds Argon2's parameters from the text, and
/// that multiplies the `p` value by 8 in `u32` arithmetic before it checks the
/// bound, so text whose `p` value is above 2^24 - 1 is kept out.
#[verifier::external_body]
fn argon2_check(password: &str, encoded: &str) -> (r: Result<bool, String>)
    requires
        !excessive_parallelism(encoded@),
    ensures
        r is Err <==> !phc_parses(encoded@),
        r matches Ok(valid) ==> valid == argon2_accepts(password@, encoded@),
        r is Err ==> phc_parse_outcome(encoded@) == Err::<(), Seq<char>>(r->Err_0@),
        !begins_with_separator(encoded@) ==> r is Err,
{
    match PasswordHash::new(encoded) {
        Ok(parsed) => Ok(Argon2::default().verify_password(password.as_bytes(), &parsed).is_ok()),
        Err(e) => Err(e.to_string()),
    }
}

/// The text of a hash this library derives asks for a parallelism of one.
proof fn lemma_derived_hash_parallelism(encoded: Seq<char>)
    requires
        encoded.len() >= DEFAULT_PHC_PREFIX@.len(),
        encoded.subrange(0, DEFAULT_PHC_PREFIX@.len() as int) == DEFAULT_PHC_PREFIX@,
        forall|i: int| DEFAULT_PHC_PREFIX@.len() <= i < encoded.len() ==> encoded[i] != '=',
    ensures
        !excessive_parallelism(encoded),
{
    reveal_strlit("$argon2id$v=19$m=19456,t=2,p=1$");
    assert(DEFAULT_PHC_PREFIX@.len() == 31);
    assert forall|i: int| 0 <= i < 31 implies encoded[i] == DEFAULT_PHC_PREFIX@[i] by {
        assert(encoded.subrange(0, 31)[i] == encoded[i]);
    }
    assert(digit_run_len(encoded, 30) == 0);
    assert(digit_run_len(encoded, 29) == 1);
    assert(digits_value(encoded, 29, 0) == 0);
    assert(digits_value(encoded, 29, 1) == 1);
    assert forall|i: int| !excessive_p_at(encoded, i) by {
        if excessive_p_at(encoded, i) {
            assert(i + 1 < 31);
        }
    }
}

/// A password and the stored hash to check it against.
#[derive(Debug, Clone, PartialEq, Eq)]
pub struct VerifyPasswordRequest {
    pub password: String,
    pub hash: String,
}

/// A newly derived hash, in PHC text form.
#[derive(Debug, Clone, PartialEq, Eq)]
pub struct HashResponse {
    pub hash: String,
}

/// The answer to a password check.
#[derive(Debug, Clone, Copy, PartialEq, Eq)]
pub struct VerifyResponse {
    pub valid: bool,
}

/// Derives the Argon2 hash of `password` under the sixteen bytes `salt`, with
/// the default cost parameters. The result depends on the two alone, begins
/// with [`DEFAULT_PHC_PREFIX`], and verifies against `password`; it is owed for
/// every password of at most [`MAX_PASSWORD_CHARS`] characters.
pub fn hash_password_with_salt(password: String, salt: [u8; 16]) -> (r: Result<HashResponse, AuthError>)
    ensures
        password@.len() <= MAX_PASSWORD_CHARS ==> r is Ok,
        r matches Ok(resp) ==> resp.hash@ == argon2_phc(password@, salt@),
        r matches Ok(resp) ==> verification_result(password@, resp.hash@) == Ok::<bool, Seq<char>>(true),
        r matches Ok(resp) ==> resp.hash@.len() >= DEFAULT_PHC_PREFIX@.len()
            && resp.hash@.subrange(0, DEFAULT_PHC_PREFIX@.len() as int) == DEFAULT_PHC_PREFIX@,
        r matches Err(e) ==> e is Hashing,
{
    match argon2_encode(password.as_str(), &salt) {
        Ok(hash) => {
            proof {
                lemma_derived_hash_parallelism(hash@);
            }
            Ok(HashResponse { hash })
        },
        Err(e) => Err(AuthError::Hashing(e.to_string())),
    }
}

/// Derives a salted Argon2 hash of `password` with sixteen fresh random salt
/// bytes from the operating system. The hash returned verifies against
/// `password`; when the random source fails, or the derivation does, the
/// result is a hashing error.
pub fn hash_password(password: String) -> (r: Result<HashResponse, AuthError>)
    ensures
        r matches Ok(resp) ==> verification_result(password@, resp.hash@) == Ok::<bool, Seq<char>>(true),
        r matches Ok(resp) ==> resp.hash@.len() >= DEFAULT_PHC_PREFIX@.len()
            && resp.hash@.subrange(0, DEFAULT_PHC_PREFIX@.len() as int) == DEFAULT_PHC_PREFIX@,
        r matches Err(e) ==> e is Hashing,
{
    match fresh_salt() {
        Ok(salt) => hash_password_with_salt(password, salt),
        Err(e) => Err(AuthError::Hashing(e.to_string())),
    }
}

/// Checks `request.password` against `request.hash`. A hash that does not parse
/// is reported as a parse error, never as a plain mismatch; in particular any
/// text that does not begin with `$` is one. A hash that asks for more
/// parallelism than Argon2 allows is a mismatch.
pub fn verify_password(request: VerifyPasswordRequest) -> (r: Result<VerifyResponse, AuthError>)
    ensures
        r matches Ok(resp) ==> verification_result(request.password@, request.hash@) == Ok::<bool, Seq<char>>(resp.valid),
        r matches Err(e) ==> e matches AuthError::HashParse(d)
            && verification_result(request.password@, request.hash@) == Err::<bool, Seq<char>>(d@),
        r is Ok <==> verification_result(request.password@, request.hash@) is Ok,
        !begins_with_separator(request.hash@) ==> r is Err,
{
    if has_excessive_parallelism(request.hash.as_str()) {
        return Ok(VerifyResponse { valid: false });
    }
    match argon2_check(request.password.as_str(), request.hash.as_str()) {
        Ok(valid) => Ok(VerifyResponse { valid }),
        Err(d) => Err(AuthError::HashParse(d)),
    }
}

/// Whether the password may sign in, as the front end is told: a malformed
/// stored hash reads the same as a wrong password.
pub fn sign_in_verdict(outcome: &Result<VerifyResponse, AuthError>) -> (r: VerifyResponse)
    ensures
        r.valid == (outcome matches Ok(resp) && resp.valid),
{
    match outcome {
        Ok(resp) => VerifyResponse { valid: resp.valid },
        Err(_) => VerifyResponse { valid: false },
    }
}

} // verus!
