//! The ways in which an authentication request can fail.

use vstd::prelude::*;
use crate::password::PasswordError;

verus! {

/// Why an authentication request was turned down.
///
/// The variants keep the causes apart for the service's own records;
/// `AuthError::message` is what a caller gets to see.
#[derive(Clone, Copy, Debug, PartialEq, Eq, Structural)]
pub enum AuthError {
    /// Registration for an email that already has an account.
    UserExists,
    /// Registration with a password that the admission policy turns down.
    WeakPassword(PasswordError),
    /// The password hasher failed.
    HashingFailed,
    /// Unknown email or wrong password, not told apart.
    InvalidCredentials,
    /// The stored password hash could not be read.
    UnreadableHash,
    /// An access token that is malformed, badly signed or expired.
    InvalidToken,
    /// A refresh token that is unknown or expired.
    InvalidRefreshToken,
    /// The access token could not be signed.
    SigningFailed,
    /// An expiry instant that the clock's number type cannot hold.
    TimeOutOfRange,
    /// The store failed.
    Store,
}

/// The kinds of failure, by what a caller can do about them.
#[derive(Clone, Copy, Debug, PartialEq, Eq, Structural)]
pub enum ErrorClass {
    /// The input was not acceptable; the reason is told.
    Validation,
    /// The caller did not prove who they are; which check failed is not told.
    Authentication,
    /// The service or its store failed; no detail is told.
    Infrastructure,
}

/// The kind of failure an error is.
pub open spec fn auth_error_class(e: AuthError) -> ErrorClass {
    match e {
        AuthError::UserExists => ErrorClass::Validation,
        AuthError::WeakPassword(_) => ErrorClass::Validation,
        AuthError::InvalidCredentials => ErrorClass::Authentication,
        AuthError::InvalidToken => ErrorClass::Authentication,
        AuthError::InvalidRefreshToken => ErrorClass::Authentication,
        AuthError::HashingFailed => ErrorClass::Infrastructure,
        AuthError::UnreadableHash => ErrorClass::Infrastructure,
        AuthError::SigningFailed => ErrorClass::Infrastructure,
        AuthError::TimeOutOfRange => ErrorClass::Infrastructure,
        AuthError::Store => ErrorClass::Infrastructure,
    }
}

/// The text that goes with a failed password rule.
pub open spec fn password_error_text(e: PasswordError) -> Seq<char> {
    match e {
        PasswordError::TooShort => "Password must be at least 8 characters"@,
        PasswordError::NoUppercase => "Password must contain at least one uppercase letter"@,
        PasswordError::NoLowercase => "Password must contain at least one lowercase letter"@,
        PasswordError::NoDigit => "Password must contain at least one digit"@,
        PasswordError::NoSpecial => "Password must contain at least one special character"@,
    }
}

/// The text a caller is shown for an error.
pub open spec fn auth_error_text(e: AuthError) -> Seq<char> {
    match e {
        AuthError::UserExists => "User already exists"@,
        AuthError::WeakPassword(rule) => password_error_text(rule),
        AuthError::HashingFailed => "unable to hash password"@,
        AuthError::InvalidCredentials => "Invalid credentials"@,
        AuthError::UnreadableHash => "unable to generate password"@,
        AuthError::InvalidToken => "Invalid token"@,
        AuthError::InvalidRefreshToken => "Invalid refresh token"@,
        AuthError::SigningFailed => "unable to sign token"@,
        AuthError::TimeOutOfRange => "time out of range"@,
        AuthError::Store => "store failure"@,
    }
}

impl PasswordError {
    /// The text that names the rule that failed.
    pub fn message(&self) -> (r: String)
        ensures
            r@ == password_error_text(*self),
    {
        match self {
            PasswordError::TooShort => "Password must be at least 8 characters".to_owned(),
            PasswordError::NoUppercase => "Password must contain at least one uppercase letter".to_owned(),
            PasswordError::NoLowercase => "Password must contain at least one lowercase letter".to_owned(),
            PasswordError::NoDigit => "Password must contain at least one digit".to_owned(),
            PasswordError::NoSpecial => "Password must contain at least one special character".to_owned(),
        }
    }
}

impl AuthError {
    /// The kind of failure this is.
    pub fn class(&self) -> (r: ErrorClass)
        ensures
            r == auth_error_class(*self),
    {
        match self {
            AuthError::UserExists => ErrorClass::Validation,
            AuthError::WeakPassword(_) => ErrorClass::Validation,
            AuthError::InvalidCredentials => ErrorClass::Authentication,
            AuthError::InvalidToken => ErrorClass::Authentication,
            AuthError::InvalidRefreshToken => ErrorClass::Authentication,
            AuthError::HashingFailed => ErrorClass::Infrastructure,
            AuthError::UnreadableHash => ErrorClass::Infrastructure,
            AuthError::SigningFailed => ErrorClass::Infrastructure,
            AuthError::TimeOutOfRange => ErrorClass::Infrastructure,
            AuthError::Store => ErrorClass::Infrastructure,
        }
    }

    /// The text a caller is shown.
    pub fn message(&self) -> (r: String)
        ensures
            r@ == auth_error_text(*self),
    {
        match self {
            AuthError::UserExists => "User already exists".to_owned(),
            AuthError::WeakPassword(rule) => rule.message(),
            AuthError::HashingFailed => "unable to hash password".to_owned(),
            AuthError::InvalidCredentials => "Invalid credentials".to_owned(),
            AuthError::UnreadableHash => "unable to generate password".to_owned(),
            AuthError::InvalidToken => "Invalid token".to_owned(),
            AuthError::InvalidRefreshToken => "Invalid refresh token".to_owned(),
            AuthError::SigningFailed => "unable to sign token".to_owned(),
            AuthError::TimeOutOfRange => "time out of range".to_owned(),
            AuthError::Store => "store failure".to_owned(),
        }
    }
}

} // verus!
