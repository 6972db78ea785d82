use argon2::password_hash::rand_core::{OsRng, RngCore};
use argon2::password_hash::{PasswordHasher, PasswordVerifier, Salt, SaltString};
use argon2::{Argon2, PasswordHash};
use vstd::prelude::*;
use crate::error::ApiError;

verus! {

/// Whether `PasswordHash::new` parses the string as a PHC hash.
pub uninterp spec fn phc_parses(encoded: Seq<char>) -> bool;

/// Whether Argon2's `verify_password` accepts the password against the
/// parsed hash.
pub uninterp spec fn argon2_accepts(encoded: Seq<char>, password: Seq<char>) -> bool;

/// A stored hash that cannot be parsed.
#[derive(Debug, Clone, Copy, PartialEq, Eq, Structural)]
pub enum HashError {
    Malformed,
}

/// The encoded string is a hash of the password: it parses, and the
/// password checks against it.
pub open spec fn is_hash_of(encoded: Seq<char>, password: Seq<char>) -> bool {
    phc_parses(encoded) && argon2_accepts(encoded, password)
}

/// What checking a password against a stored hash gives.
pub open spec fn verify_result(encoded: Seq<char>, password: Seq<char>) -> Result<bool, HashError> {
    if phc_parses(encoded) {
        Ok(argon2_accepts(encoded, password))
    } else {
        Err(HashError::Malformed)
    }
}

/// Relies on `OsRng::try_fill_bytes` for the salt (an error, not a panic,
/// when the OS source fails), `SaltString::encode_b64`, and
/// `Argon2::hash_password` with default parameters: the PHC string it gives
/// parses again, and `verify_password` recomputes the same digest from the
/// embedded salt and parameters, so it accepts the same password.
#[verifier::external_body]
fn argon2_hash(password: &str) -> (r: Option<String>)
    ensures
        r matches Some(s) ==> is_hash_of(s@, password@),
{
    let mut bytes = [0u8; Salt::RECOMMENDED_LENGTH];
    OsRng.try_fill_bytes(&mut bytes).ok()?;
    let salt = SaltString::encode_b64(&bytes).ok()?;
    Argon2::default().hash_password(password.as_bytes(), &salt).ok().map(|h| h.to_string())
}

/// Relies on `PasswordHash::new` to parse the PHC string, and on
/// `Argon2::verify_password` (default parameters) to check the password.
#[verifier::external_body]
fn argon2_check(encoded: &str, password: &str) -> (r: Option<bool>)
    ensures
        r.is_some() == phc_parses(encoded@),
        r matches Some(b) ==> b == argon2_accepts(encoded@, password@),
{
    match PasswordHash::new(encoded) {
        Ok(h) => Some(Argon2::default().verify_password(password.as_bytes(), &h).is_ok()),
        Err(_) => None,
    }
}

/// Hashes a password with Argon2 and a fresh random salt. Fails with
/// `Internal` only where the hash function reports a failure.
pub fn hash_password(password: &str) -> (r: Result<String, ApiError>)
    ensures
        match r {
            Ok(s) => is_hash_of(s@, password@),
            Err(e) => e == ApiError::Internal,
        },
{
    match argon2_hash(password) {
        Some(s) => Ok(s),
        None => Err(ApiError::Internal),
    }
}

/// Checks a password against a stored hash; a hash that does not parse is a
/// recoverable `Malformed` error.
pub fn verify_password(hash: &str, password: &str) -> (r: Result<bool, HashError>)
    ensures
        r == verify_result(hash@, password@),
{
    match argon2_check(hash, password) {
        Some(b) => Ok(b),
        None => Err(HashError::Malformed),
    }
}

/// The account found for a sign-in, by username: its id and stored hash.
pub enum UserLookup {
    Found(u128, String),
    Missing,
    Failed,
}

/// What a sign-in's credential check gives: the account id, `Unauthorized`
/// for an unknown name or a wrong password alike, `Internal` for a store
/// failure or a stored hash that does not parse.
pub open spec fn credentials_result(lookup: UserLookup, password: Seq<char>) -> Result<u128, ApiError> {
    match lookup {
        UserLookup::Failed => Err(ApiError::Internal),
        UserLookup::Missing => Err(ApiError::Unauthorized),
        UserLookup::Found(id, hash) => match verify_result(hash@, password) {
            Ok(true) => Ok(id),
            Ok(false) => Err(ApiError::Unauthorized),
            Err(_) => Err(ApiError::Internal),
        },
    }
}

/// Checks sign-in credentials against the store's answer for the username.
pub fn check_credentials(lookup: UserLookup, password: &str) -> (r: Result<u128, ApiError>)
    ensures
        r == credentials_result(lookup, password@),
{
    match lookup {
        UserLookup::Failed => Err(ApiError::Internal),
        UserLookup::Missing => Err(ApiError::Unauthorized),
        UserLookup::Found(id, hash) => match verify_password(hash.as_str(), password) {
            Ok(true) => Ok(id),
            Ok(false) => Err(ApiError::Unauthorized),
            Err(_) => Err(ApiError::Internal),
        },
    }
}

/// A hash made from a password verifies that password.
pub proof fn hash_verifies_own_password(encoded: Seq<char>, password: Seq<char>)
    requires
        is_hash_of(encoded, password),
    ensures
        verify_result(encoded, password) == Ok::<bool, HashError>(true),
{
}

/// A stored hash that does not parse gives the `Malformed` error, never a
/// verdict.
pub proof fn malformed_hash_is_an_error(encoded: Seq<char>, password: Seq<char>)
    requires
        !phc_parses(encoded),
    ensures
        verify_result(encoded, password) == Err::<bool, HashError>(HashError::Malformed),
{
}

} // verus!
