//! Password hashing at registration and password checks at sign-in.

use argon2::password_hash::rand_core::OsRng;
use argon2::password_hash::{PasswordHash, PasswordHasher, PasswordVerifier, SaltString};
use argon2::Argon2;
use vstd::prelude::*;

verus! {

/// Why registering or signing in failed.
#[derive(Clone, Debug)]
pub enum AuthError {
    InvalidData(String),
    NotUniqueError(String),
    DatabaseError(String),
    PasswordHashError(String),
    PasswordVerificationError(String),
    UserNotFound,
}

/// What checking a password against a stored hash finds.
#[derive(Clone, Copy, Debug, PartialEq, Eq, Structural)]
pub enum PasswordCheck {
    /// The password matches the hash.
    Verified,
    /// The hash is well formed but the password does not match it.
    Mismatch,
    /// The stored text is not a PHC password hash.
    MalformedHash,
}

/// What argon2's default verifier finds for a password and a stored hash.
pub uninterp spec fn argon2_check_outcome(password: Seq<char>, stored_hash: Seq<char>) -> PasswordCheck;

/// Checks a password with `PasswordHash::new` and `Argon2::default().verify_password`.
///
/// Trusted: the outcome depends on the password and the stored hash alone.
#[verifier::external_body]
fn argon2_check(password: &str, stored_hash: &str) -> (check: PasswordCheck)
    ensures
        check == argon2_check_outcome(password@, stored_hash@),
{
    match PasswordHash::new(stored_hash) {
        Err(_) => PasswordCheck::MalformedHash,
        Ok(hash) => match Argon2::default().verify_password(password.as_bytes(), &hash) {
            Ok(()) => PasswordCheck::Verified,
            Err(_) => PasswordCheck::Mismatch,
        },
    }
}

/// Hashes a password with `Argon2::default().hash_password` and a salt that
/// `SaltString::generate(&mut OsRng)` draws, rendered in PHC format.
///
/// Trusted: the salt is random, so no clause names the hash; argon2's
/// documentation promises that a hash it made verifies the same password with
/// the default verifier. The failure message is left unsaid.
#[verifier::external_body]
fn argon2_hash(password: &str) -> (hash: Result<String, String>)
    ensures
        hash matches Ok(h) ==> argon2_check_outcome(password@, h@) == PasswordCheck::Verified,
{
    let salt = SaltString::generate(&mut OsRng);
    match Argon2::default().hash_password(password.as_bytes(), &salt) {
        Ok(hash) => Ok(hash.to_string()),
        Err(e) => Err(e.to_string()),
    }
}

/// Signing in with `password` against the stored hash succeeds.
pub open spec fn sign_in_accepts(password: Seq<char>, stored_hash: Seq<char>) -> bool {
    argon2_check_outcome(password, stored_hash) == PasswordCheck::Verified
}

/// Hashes the password of a new account; signing in later with the same
/// password against the hash succeeds.
pub fn hash_new_password(password: &str) -> (hash: Result<String, AuthError>)
    ensures
        hash matches Ok(h) ==> sign_in_accepts(password@, h@),
        hash matches Err(e) ==> e is PasswordHashError,
{
    match argon2_hash(password) {
        Ok(h) => Ok(h),
        Err(message) => Err(AuthError::PasswordHashError(message)),
    }
}

/// Checks a sign-in password against the account's stored hash: a malformed
/// hash is a `PasswordHashError`, a wrong password a `PasswordVerificationError`.
pub fn verify_login_password(password: &str, stored_hash: &str) -> (verified: Result<(), AuthError>)
    ensures
        verified is Ok <==> sign_in_accepts(password@, stored_hash@),
        argon2_check_outcome(password@, stored_hash@) == PasswordCheck::MalformedHash ==> (
        verified matches Err(e) && e is PasswordHashError),
        argon2_check_outcome(password@, stored_hash@) == PasswordCheck::Mismatch ==> (
        verified matches Err(e) && e is PasswordVerificationError),
{
    match argon2_check(password, stored_hash) {
        PasswordCheck::Verified => Ok(()),
        PasswordCheck::Mismatch => Err(
            AuthError::PasswordVerificationError("password does not match".to_string()),
        ),
        PasswordCheck::MalformedHash => Err(
            AuthError::PasswordHashError("stored password hash is malformed".to_string()),
        ),
    }
}

/// The answer to a failed sign-in: whether it is an authorization failure
/// (otherwise a server error), and the message. An unknown account and a wrong
/// password read alike, so the answer does not tell which accounts exist.
pub fn sign_in_failure(error: &AuthError) -> (answer: (bool, String))
    ensures
        (error is UserNotFound || error is PasswordVerificationError) ==> answer.0 && answer.1@
            == "Invalid username or password."@,
        !(error is UserNotFound || error is PasswordVerificationError) ==> !answer.0 && answer.1@
            == "An internal error occurred."@,
{
    match error {
        AuthError::UserNotFound | AuthError::PasswordVerificationError(_) => (
            true,
            "Invalid username or password.".to_string(),
        ),
        _ => (false, "An internal error occurred.".to_string()),
    }
}

} // verus!
