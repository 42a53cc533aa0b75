use vstd::prelude::*;

use argon2::PasswordHasher as _;
use argon2::PasswordVerifier as _;

use crate::errors::ServiceError;

verus! {

/// Whether argon2 verification of `password` against the self-describing
/// hash string `hashed` succeeds. Verification recomputes the hash with the
/// salt and parameters embedded in `hashed`, so the outcome depends on the
/// two strings alone; this name stands for that outcome.
pub uninterp spec fn password_matches(password: Seq<char>, hashed: Seq<char>) -> bool;

/// Relies on argon2's `PasswordHasher::hash_password`: it hashes the
/// password under a fresh random salt and, by the crate's documented
/// round trip, `PasswordVerifier::verify_password` accepts the same
/// password against the produced PHC string.
#[verifier::external_body]
fn argon2_hash(password: &str) -> (r: Option<String>)
    ensures
        r matches Some(h) ==> password_matches(password@, h@),
{
    match argon2::Argon2::default().hash_password(password.as_bytes()) {
        Ok(hash) => Some(hash.to_string()),
        Err(_) => None,
    }
}

/// Relies on argon2's `PasswordVerifier::verify_password` for `str`: it
/// parses the PHC string, recomputes the hash with the parameters and salt
/// embedded there, and compares; a malformed hash string is reported as a
/// mismatch, never as a panic.
#[verifier::external_body]
fn argon2_verify(password: &str, hashed: &str) -> (r: bool)
    ensures
        r == password_matches(password@, hashed@),
{
    argon2::Argon2::default().verify_password(password.as_bytes(), hashed).is_ok()
}

/// One-way salted hashing of user secrets.
pub struct Argon2PasswordHash {}

impl Argon2PasswordHash {
    /// Hashes `password` under a fresh random salt. Two calls on the same
    /// password give different strings, but each resulting hash verifies
    /// against the password it was made from.
    pub fn hash_password(password: String) -> (r: Result<String, ServiceError>)
        ensures
            r matches Ok(h) ==> password_matches(password@, h@),
            r matches Err(e) ==> e == ServiceError::Internal,
    {
        match argon2_hash(password.as_str()) {
            Some(h) => Ok(h),
            None => Err(ServiceError::Internal),
        }
    }

    /// Recomputes the hash with the salt and parameters embedded in
    /// `hashed_password` and compares; `false` on any malformed input.
    pub fn verify_password(password: String, hashed_password: String) -> (r: bool)
        ensures
            r == password_matches(password@, hashed_password@),
    {
        argon2_verify(password.as_str(), hashed_password.as_str())
    }
}

} // verus!
