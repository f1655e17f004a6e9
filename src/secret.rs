//! Calls into the passphrase hasher and the identifier generator.
use argon2::password_hash::{rand_core::OsRng, PasswordHash, PasswordHasher, PasswordVerifier, SaltString};
use argon2::Argon2;
use vstd::prelude::*;

verus! {

/// Whether `passphrase` is the one that `hash`, a PHC string, was made from.
pub uninterp spec fn passphrase_matches(passphrase: Seq<char>, hash: Seq<char>) -> bool;

/// Relies on argon2's `PasswordHasher::hash_password`, with the default
/// parameters and a salt from `SaltString::generate` on the system's
/// generator: the PHC string of the hash, or the hasher's error as text. The
/// salt is random, so nothing is promised of the value.
#[verifier::external_body]
pub(crate) fn hash_passphrase(passphrase: &str) -> (r: Result<String, String>) {
    let salt = SaltString::generate(&mut OsRng);
    Argon2::default()
        .hash_password(passphrase.as_bytes(), &salt)
        .map(|hash| hash.to_string())
        .map_err(|e| e.to_string())
}

/// Relies on `PasswordHash::new` and argon2's
/// `PasswordVerifier::verify_password`: whether the passphrase hashes, with
/// the salt and parameters that `hash` records, to the output that `hash`
/// records. A `hash` that does not parse matches nothing. The answer depends
/// on the two strings alone.
#[verifier::external_body]
pub(crate) fn verify_passphrase(passphrase: &str, hash: &str) -> (r: bool)
    ensures
        r == passphrase_matches(passphrase@, hash@),
{
    match PasswordHash::new(hash) {
        Ok(parsed) => Argon2::default().verify_password(passphrase.as_bytes(), &parsed).is_ok(),
        Err(_) => false,
    }
}

/// Relies on `uuid::Uuid::new_v4`: a random identifier, as its 128-bit value.
#[verifier::external_body]
pub(crate) fn new_repo_id() -> (r: u128) {
    uuid::Uuid::new_v4().as_u128()
}

} // verus!
