//! Irreversible password hashing.
//!
//! Each hash call draws a fresh random salt and derives a memory-hard
//! Argon2 hash; the parameters and the salt are embedded in the encoded
//! string, so verification is self-describing. Verification re-derives the
//! hash and compares; a mismatch is a normal `false`, never an error, while
//! a stored string that is not a hash at all signals corruption.

use vstd::prelude::*;

use crate::errors::ApiError;

verus! {

/// The Argon2 limits on the byte lengths hashing accepts. A character
/// encodes as at most four bytes, so the password bound is stated over a
/// quarter of the byte limit.
pub const MAX_PASSWORD_CHARS: u64 = 0x3FFFFFFF;

/// What argon2::hash_encoded returns under the default configuration for a
/// password and a salt: the self-describing encoded hash string. A pure
/// function of the two.
pub uninterp spec fn argon2_hash(password: Seq<char>, salt: Seq<u8>) -> Seq<char>;

/// What argon2::verify_encoded answers for an encoded hash string and a
/// candidate password: whether the hash re-derived from the embedded
/// parameters and salt matches. A pure function of the two.
pub uninterp spec fn argon2_verifies(encoded: Seq<char>, password: Seq<char>) -> bool;

/// Whether a string is something hashing can have produced: the image of
/// argon2_hash.
pub open spec fn well_formed_hash(encoded: Seq<char>) -> bool {
    exists|p: Seq<char>, s: Seq<u8>| encoded == #[trigger] argon2_hash(p, s)
}

/// The outside error type hashing reports; opaque here.
#[verifier::external_type_specification]
#[verifier::external_body]
pub struct ExArgonError(argon2::Error);

/// Relies on argon2::hash_encoded (rust-argon2) under Config::default: a
/// pure function of password and salt; it accepts any password of at most
/// 2^32 - 1 bytes and any salt of 8 to 2^32 - 1 bytes; and its own
/// documentation shows verify_encoded answering true for its output and the
/// same password.
#[verifier::external_body]
fn argon2_hash_encoded(password: &str, salt: &[u8]) -> (r: Result<String, argon2::Error>)
    ensures
        r matches Ok(h) ==> h@ == argon2_hash(password@, salt@) && argon2_verifies(h@, password@),
        4 * password@.len() <= 0xFFFFFFFF && 8 <= salt@.len() <= 0xFFFFFFFF ==> r is Ok,
{
    argon2::hash_encoded(password.as_bytes(), salt, &argon2::Config::default())
}

/// Relies on argon2::verify_encoded (rust-argon2): re-derives the hash from
/// the parameters and salt embedded in the encoded string and compares; it
/// answers rather than fails whenever the encoded string is something
/// hash_encoded produced and the candidate fits the length limit.
#[verifier::external_body]
fn argon2_verify_encoded(encoded: &str, password: &str) -> (r: Result<bool, argon2::Error>)
    ensures
        r matches Ok(b) ==> b == argon2_verifies(encoded@, password@),
        well_formed_hash(encoded@) && 4 * password@.len() <= 0xFFFFFFFF ==> r is Ok,
{
    argon2::verify_encoded(encoded, password.as_bytes())
}

/// Relies on rand::random: 32 bytes from the thread-local cryptographically
/// secure generator. Nothing can be promised of their values.
#[verifier::external_body]
fn generate_salt() -> (s: Vec<u8>)
    ensures
        s@.len() == 32,
{
    let salt: [u8; 32] = rand::random();
    salt.to_vec()
}

/// Derives a salted, self-describing hash of `plaintext` under a fresh
/// 32-byte random salt. The result always verifies against `plaintext`;
/// only a password over the Argon2 length limit is refused, and that
/// failure is internal, never user-facing.
pub fn hash_password(plaintext: &str) -> (r: Result<String, ApiError>)
    ensures
        r matches Ok(h) ==> argon2_verifies(h@, plaintext@) && well_formed_hash(h@) && (
        exists|s: Seq<u8>| s.len() == 32 && h@ == #[trigger] argon2_hash(plaintext@, s)),
        plaintext@.len() <= MAX_PASSWORD_CHARS ==> r is Ok,
        r matches Err(e) ==> e.status_code == 500 && e.message@ == "Failed to hash password"@,
{
    let salt = generate_salt();
    match argon2_hash_encoded(plaintext, salt.as_slice()) {
        Ok(h) => {
            proof {
                assert(h@ == argon2_hash(plaintext@, salt@));
            }
            Ok(h)
        },
        Err(_) => Err(ApiError::new(500, "Failed to hash password".to_owned())),
    }
}

/// Law: hashing then verifying answers true. The first three premises are
/// what hash_password ensures of a string it returned for `plaintext`,
/// with the Argon2 length cap as the one machine limit; the last two are
/// what verify_password ensures of its answer `r` for that pair. Under
/// them the answer is owed, and it is Ok(true): verification re-derives
/// the hash from the salt and parameters embedded in the stored string.
pub proof fn lemma_hash_roundtrip_verifies(
    plaintext: Seq<char>,
    stored: Seq<char>,
    r: Result<bool, ApiError>,
)
    requires
        argon2_verifies(stored, plaintext),
        well_formed_hash(stored),
        plaintext.len() <= MAX_PASSWORD_CHARS,
        r matches Ok(b) ==> b == argon2_verifies(stored, plaintext),
        well_formed_hash(stored) && plaintext.len() <= MAX_PASSWORD_CHARS ==> r is Ok,
    ensures
        r == Ok::<bool, ApiError>(true),
{
}

/// Law: every fresh hash of one password verifies against it — when two
/// hashes are drawn for the same password, each under its own salt, both
/// answer true. That the two encoded strings differ is the salt's
/// randomness, of which nothing can be proved.
pub proof fn lemma_fresh_hashes_both_verify(
    plaintext: Seq<char>,
    h1: Seq<char>,
    h2: Seq<char>,
    r1: Result<bool, ApiError>,
    r2: Result<bool, ApiError>,
)
    requires
        argon2_verifies(h1, plaintext),
        well_formed_hash(h1),
        argon2_verifies(h2, plaintext),
        well_formed_hash(h2),
        plaintext.len() <= MAX_PASSWORD_CHARS,
        r1 matches Ok(b) ==> b == argon2_verifies(h1, plaintext),
        well_formed_hash(h1) && plaintext.len() <= MAX_PASSWORD_CHARS ==> r1 is Ok,
        r2 matches Ok(b) ==> b == argon2_verifies(h2, plaintext),
        well_formed_hash(h2) && plaintext.len() <= MAX_PASSWORD_CHARS ==> r2 is Ok,
    ensures
        r1 == Ok::<bool, ApiError>(true),
        r2 == Ok::<bool, ApiError>(true),
{
    lemma_hash_roundtrip_verifies(plaintext, h1, r1);
    lemma_hash_roundtrip_verifies(plaintext, h2, r2);
}

/// Re-derives the hash described by `stored_hash` for `candidate` and
/// compares. A wrong password is a normal `false`; only a stored string
/// that is not a hash at all errors, signalling corruption.
pub fn verify_password(stored_hash: &str, candidate: &str) -> (r: Result<bool, ApiError>)
    ensures
        r matches Ok(b) ==> b == argon2_verifies(stored_hash@, candidate@),
        well_formed_hash(stored_hash@) && candidate@.len() <= MAX_PASSWORD_CHARS ==> r is Ok,
        r matches Err(e) ==> e.status_code == 500 && e.message@
            == "Failed to verify password"@,
{
    match argon2_verify_encoded(stored_hash, candidate) {
        Ok(b) => Ok(b),
        Err(_) => Err(ApiError::new(500, "Failed to verify password".to_owned())),
    }
}

} // verus!
