use vstd::prelude::*;

use argon2::{PasswordHasher, PasswordVerifier};

verus! {

/// Whether `password` verifies against the PHC hash string `hash` under
/// Argon2: the string parses, and hashing the password with the hash's own
/// algorithm, parameters and salt gives the stored digest.
pub uninterp spec fn argon2_verifies(password: Seq<char>, hash: Seq<char>) -> bool;

/// The normalized form of a PHC hash string, where the text parses as one.
pub uninterp spec fn phc_normal_form(text: Seq<char>) -> Option<Seq<char>>;

/// `argon2::Argon2::default().hash_password` with a fresh random salt
/// (`password_hash::SaltString::generate` on the operating system's random
/// source), rendered as a PHC string; the error's text on failure. The salt
/// is random, so no value is claimed, only that the password verifies
/// against the hash it gave (the crate's documented round trip). With the
/// default parameters and a 16-byte salt, hashing fails only for a password
/// over `0xFFFF_FFFF` bytes; a password of at most `0x3FFF_FFFF` characters
/// has at most `0xFFFF_FFFC` bytes in UTF-8, so it is hashed. (The call
/// panics if the operating system cannot supply random bytes; no input
/// decides that.)
#[verifier::external_body]
pub(crate) fn argon2_hash_password(password: &str) -> (res: Result<String, String>)
    ensures
        res matches Ok(hash) ==> argon2_verifies(password@, hash@),
        password@.len() <= 0x3FFF_FFFF ==> res is Ok,
{
    let salt = password_hash::SaltString::generate(&mut password_hash::rand_core::OsRng);
    match argon2::Argon2::default().hash_password(password.as_bytes(), &salt) {
        Ok(hash) => Ok(hash.to_string()),
        Err(e) => Err(e.to_string()),
    }
}

/// `password_hash::PasswordHash::new` followed by
/// `argon2::Argon2::default().verify_password`: true exactly when the hash
/// string parses and the password verifies against it.
#[verifier::external_body]
pub(crate) fn argon2_verify_password(password: &str, hash: &str) -> (ok: bool)
    ensures
        ok == argon2_verifies(password@, hash@),
{
    match password_hash::PasswordHash::new(hash) {
        Ok(parsed) => argon2::Argon2::default().verify_password(password.as_bytes(), &parsed).is_ok(),
        Err(_) => false,
    }
}

/// `password_hash::PasswordHashString::new`: parses a PHC hash string and
/// gives its normalized text, or the parse error's text.
#[verifier::external_body]
pub(crate) fn phc_parse(text: &str) -> (res: Result<String, String>)
    ensures
        res matches Ok(normal) ==> phc_normal_form(text@) == Some(normal@),
        res is Err ==> phc_normal_form(text@) is None,
{
    match password_hash::PasswordHashString::new(text) {
        Ok(parsed) => Ok(parsed.as_str().to_string()),
        Err(e) => Err(e.to_string()),
    }
}

} // verus!
