//! Passwords, as `argon2` hashes and checks them.

use argon2::password_hash::rand_core::OsRng;
use argon2::password_hash::{PasswordHash, PasswordHasher, PasswordVerifier, SaltString};
use argon2::Argon2;
use vstd::prelude::*;

verus! {

/// A salt of `argon2`, encoded and ready for hashing.
#[verifier::external_type_specification]
#[verifier::external_body]
pub struct ExSaltString(SaltString);

/// Whether `argon2::password_hash::PasswordHash::new` accepts `stored` as a
/// hash in its text form.
pub uninterp spec fn is_password_hash(stored: Seq<char>) -> bool;

/// Whether `Argon2::default().verify_password` accepts `password` for the
/// hash that `stored` spells out.
pub uninterp spec fn password_matches(password: Seq<char>, stored: Seq<char>) -> bool;

/// `PasswordHash::new(stored)`, kept only as the answer to whether it
/// succeeded.
#[verifier::external_body]
pub(crate) fn parses_as_hash(stored: &str) -> (ok: bool)
    ensures
        ok == is_password_hash(stored@),
{
    PasswordHash::new(stored).is_ok()
}

/// `Argon2::default().verify_password(password, hash)` for the hash that
/// `stored` spells out: whether hashing `password` with the salt and the
/// parameters recorded in the hash gives the recorded output.
#[verifier::external_body]
pub(crate) fn verifies_against(password: &str, stored: &str) -> (ok: bool)
    requires
        is_password_hash(stored@),
    ensures
        ok == password_matches(password@, stored@),
{
    match PasswordHash::new(stored) {
        Ok(hash) => Argon2::default().verify_password(password.as_bytes(), &hash).is_ok(),
        Err(_) => false,
    }
}

/// `SaltString::generate(&mut OsRng)`: a salt drawn at random. Nothing is
/// promised of it.
#[verifier::external_body]
pub(crate) fn fresh_salt() -> (salt: SaltString) {
    SaltString::generate(&mut OsRng)
}

/// `Argon2::default().hash_password(password, salt)`, written out as text;
/// `None` where it fails. Where it succeeds, the text is a hash in the form
/// that `PasswordHash::new` reads back, and it records the salt and the
/// parameters it was made with, so the same password verifies against it.
#[verifier::external_body]
pub(crate) fn hash_with_salt(password: &str, salt: &SaltString) -> (hashed: Option<String>)
    ensures
        hashed matches Some(text) ==> is_password_hash(text@) && password_matches(
            password@,
            text@,
        ),
{
    Argon2::default().hash_password(password.as_bytes(), salt).ok().map(|hash| hash.to_string())
}

} // verus!
