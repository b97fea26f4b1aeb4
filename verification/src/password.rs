//! Password hashing and verification with Argon2.

use vstd::prelude::*;
use argon2::password_hash::SaltString;
use argon2::password_hash::rand_core::OsRng;
use argon2::{Argon2, PasswordHash, PasswordHasher, PasswordVerifier};
use crate::error::AppError;

verus! {

/// `argon2::password_hash::Error`: why hashing or verification failed.
#[verifier::external_type_specification]
#[verifier::external_body]
pub struct ExPasswordHashError(argon2::password_hash::Error);

/// Whether Argon2 with its default parameters accepts `password` for the encoded
/// hash `hash`: the hash parses, and hashing the password with the salt and the
/// parameters recorded in it gives the recorded output.
pub uninterp spec fn password_accepted(hash: Seq<char>, password: Seq<u8>) -> bool;

/// Hashes a password with a fresh random salt
/// (`SaltString::generate`, then `Argon2::default().hash_password`) and returns the
/// encoded hash. The salt is random, so the text differs from call to call; whatever
/// it is, it records salt and parameters, so Argon2 accepts the password for it.
#[verifier::external_body]
pub fn hash_password(password: &[u8]) -> (hashed: Result<String, argon2::password_hash::Error>)
    ensures
        hashed matches Ok(h) ==> password_accepted(h@, password@),
{
    let salt = SaltString::generate(&mut OsRng);
    Ok(Argon2::default().hash_password(password, &salt)?.to_string())
}

/// Checks a password against an encoded hash
/// (`PasswordHash::new`, then `Argon2::default().verify_password`). It succeeds exactly
/// where Argon2 accepts the password for the hash.
#[verifier::external_body]
pub fn verify_password(hash: &str, password: &[u8]) -> (checked: Result<
    (),
    argon2::password_hash::Error,
>)
    ensures
        checked is Ok == password_accepted(hash@, password@),
{
    Argon2::default().verify_password(password, &PasswordHash::new(hash)?)
}

/// The text of a password-hashing error, by its `Display`.
#[verifier::external_body]
fn password_error_text(err: &argon2::password_hash::Error) -> (text: String) {
    err.to_string()
}

/// A password-hashing failure as an error of this service.
pub fn hashing_failed(err: &argon2::password_hash::Error) -> (e: AppError)
    ensures
        e is ProcessError,
{
    AppError::ProcessError(password_error_text(err))
}

} // verus!
