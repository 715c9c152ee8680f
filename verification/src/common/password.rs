//! Passwords: how they are stored and how they are checked.
//!
//! Passwords are stored as bcrypt hashes. Hashing draws a fresh salt each
//! time, so the hash of a password is not a function of the password;
//! checking a password against a stored hash is.

use crate::common::error::{explains, AppError, AppResult};
use bcrypt::BcryptError;
use vstd::prelude::*;

verus! {

/// `bcrypt::BcryptError`: a failure of hashing or checking, carried along
/// without looking inside.
#[verifier::external_type_specification]
#[verifier::external_body]
pub struct ExBcryptError(BcryptError);

/// The work factor passwords are hashed with.
pub const PASSWORD_HASH_COST: u32 = 12;

/// What `bcrypt::verify` makes of a password and a stored hash: whether the
/// password is the one that was hashed, or `None` where the stored text is no
/// bcrypt hash.
pub uninterp spec fn password_matches(password: Seq<char>, hash: Seq<char>) -> Option<bool>;

/// `bcrypt::hash`: the bcrypt hash of the password under a salt drawn from
/// the operating system, or the crate's error. Which hash comes out, and
/// whether one comes out at all, is left open. A hash that does come out
/// names its salt and its cost, and `bcrypt::verify` hashes the password
/// again under just these: it finds the password to be the one that was
/// hashed.
#[verifier::external_body]
fn bcrypt_hash(password: &str, cost: u32) -> (outcome: Result<String, BcryptError>)
    ensures
        outcome matches Ok(hash) ==> password_matches(password@, hash@) == Some(true),
{
    bcrypt::hash(password, cost)
}

/// `bcrypt::verify`: hashes the password again under the salt and the cost
/// that the stored hash names and compares. The outcome is a function of the
/// two texts alone and is known here only by its name,
/// [`password_matches`]; an error of the crate stands for `None`.
#[verifier::external_body]
fn bcrypt_verify(password: &str, hash: &str) -> (outcome: Result<bool, BcryptError>)
    ensures
        match outcome {
            Ok(same) => password_matches(password@, hash@) == Some(same),
            Err(_) => password_matches(password@, hash@) is None,
        },
{
    bcrypt::verify(password, hash)
}

/// `BcryptError`'s `Display`: the error in words. Nothing is claimed of the
/// words.
#[verifier::external_body]
fn bcrypt_error_text(error: &BcryptError) -> String {
    error.to_string()
}

/// The bcrypt hash of `password` under a fresh salt: a text against which
/// `password` checks as the password that was hashed. Where no hash can be
/// made, an internal error that begins with `Failed to hash password`.
pub fn hash_password(password: &str) -> (hashed: AppResult<String>)
    ensures
        match hashed {
            Ok(hash) => password_matches(password@, hash@) == Some(true),
            Err(failure) => failure matches AppError::InternalError(message) && explains(
                message@,
                "Failed to hash password"@,
            ),
        },
{
    match bcrypt_hash(password, PASSWORD_HASH_COST) {
        Ok(hash) => Ok(hash),
        Err(error) => {
            let detail = bcrypt_error_text(&error);
            let failure = AppError::internal("Failed to hash password", detail.as_str());
            Err(failure)
        },
    }
}

/// Whether `password` is the password that `hash` was made of, or an
/// internal error that begins with `Password verification failed` where
/// `hash` is no bcrypt hash.
pub fn verify_password(password: &str, hash: &str) -> (checked: AppResult<bool>)
    ensures
        match password_matches(password@, hash@) {
            Some(same) => checked == Ok::<bool, AppError>(same),
            None => checked matches Err(AppError::InternalError(message)) && explains(
                message@,
                "Password verification failed"@,
            ),
        },
{
    match bcrypt_verify(password, hash) {
        Ok(same) => Ok(same),
        Err(error) => {
            let detail = bcrypt_error_text(&error);
            let failure = AppError::internal("Password verification failed", detail.as_str());
            Err(failure)
        },
    }
}

} // verus!
