//! Password hashing with Argon2 (default parameters, PHC string format).

use argon2::password_hash::rand_core::OsRng;
use argon2::password_hash::{PasswordHash, PasswordHasher, PasswordVerifier, SaltString};
use argon2::Argon2;
use vstd::prelude::*;
use vstd::utf8::encode_utf8;

verus! {

/// Whether `argon2::PasswordHash::new` parses `phc` and `Argon2::default().verify_password`
/// then accepts `password` (taken as its UTF-8 bytes) against it.
pub uninterp spec fn argon2_accepts(password: Seq<char>, phc: Seq<char>) -> bool;

/// Hashes `password` with `Argon2::default()` and a fresh random salt from `OsRng`
/// (`PasswordHasher::hash_password`), rendered as a PHC string.
///
/// The salt is random, so only what holds of every outcome is stated: a hash
/// that comes back verifies the password it was made from, since verification
/// recomputes the hash with the algorithm, version, parameters and salt that
/// the PHC string records. With the default parameters and a 16-byte salt,
/// hashing fails only for a password longer than `argon2::MAX_PWD_LEN`
/// (0xFFFFFFFF bytes). The error is given as its display text.
#[verifier::external_body]
pub(crate) fn argon2_hash(password: &str) -> (r: Result<String, String>)
    ensures
        r matches Ok(phc) ==> argon2_accepts(password@, phc@),
        encode_utf8(password@).len() <= 0xFFFF_FFFF ==> r is Ok,
{
    let salt = SaltString::generate(&mut OsRng);
    match Argon2::default().hash_password(password.as_bytes(), &salt) {
        Ok(hash) => Ok(hash.to_string()),
        Err(e) => Err(e.to_string()),
    }
}

/// Parses `phc` with `argon2::PasswordHash::new` and checks `password` against it with
/// `Argon2::default().verify_password`; `true` when both succeed.
#[verifier::external_body]
pub(crate) fn argon2_verify(password: &str, phc: &str) -> (b: bool)
    ensures
        b == argon2_accepts(password@, phc@),
{
    match PasswordHash::new(phc) {
        Ok(hash) => Argon2::default().verify_password(password.as_bytes(), &hash).is_ok(),
        Err(_) => false,
    }
}

} // verus!
