//! Password hashing with Argon2id.

use vstd::prelude::*;

use argon2::password_hash::rand_core::{OsRng, RngCore};
use argon2::password_hash::{PasswordHash, PasswordHasher, PasswordVerifier, SaltString};
use argon2::Argon2;

use crate::error::ApiError;

verus! {

#[verifier::external_type_specification]
#[verifier::external_body]
pub struct ExPasswordHashError(argon2::password_hash::Error);

/// The start of every hash this library produces: the PHC string of Argon2id,
/// version 19.
pub open spec fn argon2id_prefix() -> Seq<char> {
    "$argon2id$v=19$"@
}

/// Whether argon2 accepts `password` against the PHC string `stored`.
pub uninterp spec fn argon2_accepts(password: Seq<char>, stored: Seq<char>) -> bool;

/// Relies on argon2's `PasswordHasher::hash_password` for `Argon2::default()`
/// (Argon2id, version 19, default parameters), with a salt of 16 bytes that
/// `OsRng::try_fill_bytes` draws from the operating system's random source and
/// `SaltString::encode_b64` encodes. When the random source fails, the result
/// is `Error::Crypto` (no panic). The salt differs from call to call, so of
/// the hash only the PHC string's leading fields are known, and that
/// verification with the same password recomputes it
/// (`PasswordVerifier::verify_password` hashes again with the algorithm,
/// version, parameters and salt that the string holds).
#[verifier::external_body]
fn argon2_hash(password: &str) -> (r: Result<String, argon2::password_hash::Error>)
    ensures
        r is Ok ==> argon2id_prefix().is_prefix_of(r->Ok_0@),
        r is Ok ==> argon2_accepts(password@, r->Ok_0@),
{
    let mut bytes = [0u8; 16];
    match OsRng.try_fill_bytes(&mut bytes) {
        Ok(()) => {},
        Err(_) => return Err(argon2::password_hash::Error::Crypto),
    }
    let salt = SaltString::encode_b64(&bytes)?;
    let hash = Argon2::default().hash_password(password.as_bytes(), &salt)?;
    Ok(hash.to_string())
}

/// Relies on `PasswordHash::new`, which parses a PHC string, and on argon2's
/// `PasswordVerifier::verify_password`, which recomputes the hash with the
/// salt and parameters that the string holds. The answer depends on the two
/// strings alone; a string that does not parse is rejected.
#[verifier::external_body]
fn argon2_verify(password: &str, stored: &str) -> (r: bool)
    ensures
        r == argon2_accepts(password@, stored@),
{
    match PasswordHash::new(stored) {
        Ok(parsed) => Argon2::default().verify_password(password.as_bytes(), &parsed).is_ok(),
        Err(_) => false,
    }
}

/// Hashes a password into a storable PHC string, with a fresh random salt on
/// every call. Fails only when the hasher itself fails (for instance when the
/// random source is unavailable), never because of what the password holds.
pub fn hash_password(password: &str) -> (r: Result<String, ApiError>)
    ensures
        r is Ok ==> argon2id_prefix().is_prefix_of(r->Ok_0@),
        r is Ok ==> argon2_accepts(password@, r->Ok_0@),
        r is Err ==> r == Err::<String, ApiError>(ApiError::Hashing),
{
    match argon2_hash(password) {
        Ok(h) => Ok(h),
        Err(_) => Err(ApiError::Hashing),
    }
}

/// Checks a password attempt against a stored hash.
pub fn verify_password(password: &str, stored: &str) -> (r: bool)
    ensures
        r == argon2_accepts(password@, stored@),
{
    argon2_verify(password, stored)
}

} // verus!
