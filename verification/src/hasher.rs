//! Password hashing: a salted, memory-hard, one-way hash of the plaintext,
//! and the check of a plaintext against a stored hash.
//!
//! The hash itself is Argon2's; what stands here is how its outcomes are
//! told apart.

use vstd::prelude::*;
use vstd::string::*;
use vstd::utf8::encode_utf8;
use crate::error::AuthError;

verus! {

/// The hash string in PHC format that Argon2 with its default parameters
/// gives for a password under a salt written in B64, or `None` where it
/// fails (a salt, for one, that is no B64 of an accepted length).
pub uninterp spec fn argon2_phc(password: Seq<u8>, salt: Seq<char>) -> Option<Seq<char>>;

/// The outcome of checking a password against a stored hash string: `None`
/// where the string is no hash in PHC format, else whether the password
/// matches it.
pub uninterp spec fn argon2_verdict(password: Seq<u8>, stored: Seq<char>) -> Option<bool>;

/// Whether `password` matches the stored hash.
pub open spec fn password_matches(password: Seq<char>, stored: Seq<char>) -> bool {
    argon2_verdict(encode_utf8(password), stored) == Some(true)
}

/// The hasher matches what it hashed: the hash that it gives for the
/// password under the salt, if any, is one that the password matches.
pub open spec fn hash_is_faithful(password: Seq<char>, salt: Seq<char>) -> bool {
    argon2_phc(encode_utf8(password), salt) matches Some(hash) ==> password_matches(password, hash)
}

#[verifier::external_type_specification]
#[verifier::external_body]
pub struct ExPasswordHashError(argon2::password_hash::Error);

/// The characters of a salt that is drawn: sixteen random bytes written in
/// B64 without padding.
pub const DRAWN_SALT_CHARS: usize = 22;

/// Calls `SaltString::generate` on the thread's random number generator and
/// gives the salt as text. Each call draws anew, so of the text only its
/// length is claimed: sixteen bytes in B64 without padding are 22 characters.
#[verifier::external_body]
pub(crate) fn random_salt() -> (r: String)
    ensures
        r@.len() == DRAWN_SALT_CHARS,
{
    argon2::password_hash::SaltString::generate(&mut rand::thread_rng()).as_str().to_string()
}

/// Calls `SaltString::from_b64` on the salt and `hash_password` of
/// `Argon2::default()` on the password, and gives the hash as a PHC string.
///
/// Believed: the outcome is a function of password and salt alone, and a
/// hash that comes out is one that the same password matches when checked.
#[verifier::external_body]
fn argon2_hash(password: &[u8], salt: &str) -> (r: Result<String, argon2::password_hash::Error>)
    ensures
        r matches Ok(h) ==> argon2_phc(password@, salt@) == Some(h@),
        r is Err ==> argon2_phc(password@, salt@) is None,
        r matches Ok(h) ==> argon2_verdict(password@, h@) == Some(true),
{
    let salt = argon2::password_hash::SaltString::from_b64(salt)?;
    let hash = argon2::PasswordHasher::hash_password(&argon2::Argon2::default(), password, &salt)?;
    Ok(hash.to_string())
}

/// Calls `PasswordHash::new` on the stored string and, where that parses,
/// `verify_password` of `Argon2::default()` on the password.
///
/// Believed: the outcome is a function of password and stored string alone.
#[verifier::external_body]
fn argon2_check(password: &[u8], stored: &str) -> (r: Option<bool>)
    ensures
        r == argon2_verdict(password@, stored@),
{
    match argon2::PasswordHash::new(stored) {
        Ok(parsed) => Some(
            argon2::PasswordVerifier::verify_password(&argon2::Argon2::default(), password, &parsed).is_ok(),
        ),
        Err(_) => None,
    }
}

/// Hashes `password` under the given salt.
pub fn hash_password_with_salt(password: &str, salt: &str) -> (r: Result<String, AuthError>)
    ensures
        r matches Ok(h) ==> argon2_phc(encode_utf8(password@), salt@) == Some(h@)
            && password_matches(password@, h@),
        r matches Err(e) ==> e == AuthError::HashingFailed
            && argon2_phc(encode_utf8(password@), salt@) is None,
        hash_is_faithful(password@, salt@),
{
    match argon2_hash(password.as_bytes(), salt) {
        Ok(hash) => Ok(hash),
        Err(_) => Err(AuthError::HashingFailed),
    }
}

/// Hashes `password` under a salt drawn for this call: the outcome is what
/// the hasher gives for the password under some salt of the length that is
/// drawn.
pub fn hash_password(password: &str) -> (r: Result<String, AuthError>)
    ensures
        exists|salt: Seq<char>|
            salt.len() == DRAWN_SALT_CHARS && match r {
                Ok(h) => #[trigger] argon2_phc(encode_utf8(password@), salt) == Some(h@),
                Err(_) => argon2_phc(encode_utf8(password@), salt) is None,
            },
        r matches Ok(h) ==> password_matches(password@, h@),
        r matches Err(e) ==> e == AuthError::HashingFailed,
{
    let salt = random_salt();
    let r = hash_password_with_salt(password, salt.as_str());
    assert(salt@.len() == DRAWN_SALT_CHARS && match r {
        Ok(h) => argon2_phc(encode_utf8(password@), salt@) == Some(h@),
        Err(_) => argon2_phc(encode_utf8(password@), salt@) is None,
    });
    r
}

/// Checks `password` against a stored hash. A wrong password is an ordinary
/// outcome, `Ok(false)`; only a stored string that is no hash is an error.
pub fn verify_password(password: &str, stored: &str) -> (r: Result<bool, AuthError>)
    ensures
        r == match argon2_verdict(encode_utf8(password@), stored@) {
            Some(matches) => Ok::<bool, AuthError>(matches),
            None => Err::<bool, AuthError>(AuthError::UnreadableHash),
        },
        r == Ok::<bool, AuthError>(true) <==> password_matches(password@, stored@),
{
    match argon2_check(password.as_bytes(), stored) {
        Some(matches) => Ok(matches),
        None => Err(AuthError::UnreadableHash),
    }
}

} // verus!
