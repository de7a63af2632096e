use vstd::prelude::*;

use argon2::password_hash::rand_core::OsRng;
use argon2::password_hash::{PasswordHash, PasswordHasher, PasswordVerifier, SaltString};
use argon2::Argon2;

use crate::text::utf8_len;

verus! {

/// Whether `phc` parses as a PHC password-hash string.
pub uninterp spec fn phc_well_formed(phc: Seq<char>) -> bool;

/// Whether Argon2 accepts `password` against the PHC string `phc`, with the
/// parameters and salt that `phc` records.
pub uninterp spec fn argon2_accepts(password: Seq<char>, phc: Seq<char>) -> bool;

/// `PasswordHasher::hash_password` of argon2 (`Argon2::default()`), with a salt from
/// `SaltString::generate(&mut OsRng)`, rendered as a PHC string. The salt is
/// random, so nothing names the result; what holds of every result is that
/// it parses and that Argon2 accepts the hashed password against it. With
/// the default parameters and a generated salt, argon2 reports an error
/// exactly for a password longer than `MAX_PWD_LEN` (`0xFFFF_FFFF`) bytes,
/// and then the result is `None`.
#[verifier::external_body]
fn argon2_hash(plaintext: &str) -> (r: Option<String>)
    ensures
        r is Some <==> vstd::utf8::encode_utf8(plaintext@).len() <= 0xFFFF_FFFF,
        r matches Some(h) ==> phc_well_formed(h@) && argon2_accepts(plaintext@, h@),
{
    let salt = SaltString::generate(&mut OsRng);
    Argon2::default().hash_password(plaintext.as_bytes(), &salt).ok().map(|h| h.to_string())
}

/// `PasswordHash::new` of password-hash, then `PasswordVerifier::verify_password` of
/// `Argon2::default()`: `None` when the PHC string does not parse, else whether
/// the password is accepted.
#[verifier::external_body]
fn argon2_verify(plaintext: &str, phc: &str) -> (r: Option<bool>)
    ensures
        r is Some <==> phc_well_formed(phc@),
        r matches Some(b) ==> b == argon2_accepts(plaintext@, phc@),
{
    match PasswordHash::new(phc) {
        Ok(parsed) => Some(Argon2::default().verify_password(plaintext.as_bytes(), &parsed).is_ok()),
        Err(_) => None,
    }
}

/// Why a password could not be hashed or checked.
#[derive(Debug, Clone, Copy, PartialEq, Eq, Structural)]
pub enum PasswordError {
    /// The Argon2 backend rejected the input.
    HashingFailed,
    /// The stored hash could not be parsed (corrupted column).
    InvalidHash,
}

/// `phc` is a hash of `password`: it parses and Argon2 accepts the password against it.
pub open spec fn is_hash_of(phc: Seq<char>, password: Seq<char>) -> bool {
    phc_well_formed(phc) && argon2_accepts(password, phc)
}

/// A password Argon2 can hash: at most `0xFFFF_FFFF` bytes of UTF-8.
pub open spec fn hashable(password: Seq<char>) -> bool {
    utf8_len(password) <= 0xFFFF_FFFF
}

/// What checking `password` against `phc` yields.
pub open spec fn verification(password: Seq<char>, phc: Seq<char>) -> Result<bool, PasswordError> {
    if phc_well_formed(phc) {
        Ok(argon2_accepts(password, phc))
    } else {
        Err(PasswordError::InvalidHash)
    }
}

/// Hash a plaintext password with Argon2id and a fresh random salt; only a
/// password too long for Argon2 fails.
pub fn hash(plaintext: &str) -> (r: Result<String, PasswordError>)
    ensures
        r is Ok <==> hashable(plaintext@),
        r matches Ok(h) ==> is_hash_of(h@, plaintext@),
        r matches Err(e) ==> e == PasswordError::HashingFailed,
{
    match argon2_hash(plaintext) {
        Some(h) => Ok(h),
        None => Err(PasswordError::HashingFailed),
    }
}

/// Verify a plaintext password against a previously produced hash.
pub fn verify(plaintext: &str, phc_hash: &str) -> (r: Result<bool, PasswordError>)
    ensures
        r == verification(plaintext@, phc_hash@),
{
    match argon2_verify(plaintext, phc_hash) {
        Some(b) => Ok(b),
        None => Err(PasswordError::InvalidHash),
    }
}

/// A password checks out against any hash made of it.
pub proof fn hash_then_verify(phc: Seq<char>, password: Seq<char>)
    requires
        is_hash_of(phc, password),
    ensures
        verification(password, phc) == Ok::<bool, PasswordError>(true),
{
}

} // verus!
