//! Password admission policy.
//!
//! A password is admitted when it is long enough and holds a character of
//! each of four classes. The rules are tried in a fixed order and the first
//! one that fails is the one reported.

use vstd::prelude::*;
use vstd::string::*;
use vstd::utf8::encode_utf8;

verus! {

/// The least number of bytes an admissible password has.
pub const MIN_PASSWORD_BYTES: usize = 8;

/// The Unicode property `Uppercase` of a character, as `char::is_uppercase`
/// computes it.
pub uninterp spec fn unicode_uppercase(c: char) -> bool;

/// The Unicode property `Lowercase` of a character, as `char::is_lowercase`
/// computes it.
pub uninterp spec fn unicode_lowercase(c: char) -> bool;

/// Whether a character is alphabetic or numeric in Unicode's sense, as
/// `char::is_alphanumeric` computes it.
pub uninterp spec fn unicode_alphanumeric(c: char) -> bool;

/// Calls `char::is_uppercase`. The result is a fixed property of the
/// character and is known to the proofs only by its name.
#[verifier::external_body]
fn char_is_uppercase(c: char) -> (r: bool)
    ensures
        r == unicode_uppercase(c),
{
    c.is_uppercase()
}

/// Calls `char::is_lowercase`. The result is a fixed property of the
/// character and is known to the proofs only by its name.
#[verifier::external_body]
fn char_is_lowercase(c: char) -> (r: bool)
    ensures
        r == unicode_lowercase(c),
{
    c.is_lowercase()
}

/// Calls `char::is_alphanumeric`. The result is a fixed property of the
/// character and is known to the proofs only by its name.
#[verifier::external_body]
fn char_is_alphanumeric(c: char) -> (r: bool)
    ensures
        r == unicode_alphanumeric(c),
{
    c.is_alphanumeric()
}

/// The character classes the policy asks for.
#[derive(Clone, Copy, Debug, PartialEq, Eq, Structural)]
pub enum CharClass {
    Uppercase,
    Lowercase,
    Digit,
    Special,
}

/// Whether `c` is one of the ten ASCII decimal digits.
pub open spec fn is_decimal_digit(c: char) -> bool {
    '0' <= c <= '9'
}

/// Whether `c` belongs to `class`.
pub open spec fn in_class(class: CharClass, c: char) -> bool {
    match class {
        CharClass::Uppercase => unicode_uppercase(c),
        CharClass::Lowercase => unicode_lowercase(c),
        CharClass::Digit => is_decimal_digit(c),
        CharClass::Special => !unicode_alphanumeric(c),
    }
}

/// Whether some character of `s` belongs to `class`.
pub open spec fn has_class(s: Seq<char>, class: CharClass) -> bool {
    exists|i: int| 0 <= i < s.len() && in_class(class, #[trigger] s[i])
}

/// Why a password was turned down.
#[derive(Clone, Copy, Debug, PartialEq, Eq, Structural)]
pub enum PasswordError {
    TooShort,
    NoUppercase,
    NoLowercase,
    NoDigit,
    NoSpecial,
}

/// The verdict of the policy on a password: the first rule that fails, in the
/// order length, uppercase, lowercase, digit, special character.
pub open spec fn password_verdict(s: Seq<char>) -> Result<(), PasswordError> {
    if encode_utf8(s).len() < MIN_PASSWORD_BYTES {
        Err(PasswordError::TooShort)
    } else if !has_class(s, CharClass::Uppercase) {
        Err(PasswordError::NoUppercase)
    } else if !has_class(s, CharClass::Lowercase) {
        Err(PasswordError::NoLowercase)
    } else if !has_class(s, CharClass::Digit) {
        Err(PasswordError::NoDigit)
    } else if !has_class(s, CharClass::Special) {
        Err(PasswordError::NoSpecial)
    } else {
        Ok(())
    }
}

/// Whether the policy admits the password.
pub open spec fn admissible(s: Seq<char>) -> bool {
    &&& encode_utf8(s).len() >= MIN_PASSWORD_BYTES
    &&& has_class(s, CharClass::Uppercase)
    &&& has_class(s, CharClass::Lowercase)
    &&& has_class(s, CharClass::Digit)
    &&& has_class(s, CharClass::Special)
}

/// Tells whether `c` belongs to `class`.
pub fn char_in_class(class: CharClass, c: char) -> (r: bool)
    ensures
        r == in_class(class, c),
{
    match class {
        CharClass::Uppercase => char_is_uppercase(c),
        CharClass::Lowercase => char_is_lowercase(c),
        CharClass::Digit => '0' <= c && c <= '9',
        CharClass::Special => !char_is_alphanumeric(c),
    }
}

/// Tells whether some character of `s` belongs to `class`.
pub fn contains_class(s: &str, class: CharClass) -> (r: bool)
    ensures
        r == has_class(s@, class),
{
    let mut found = false;
    for c in it: s.chars()
        invariant
            it.seq() == s@,
            found == exists|i: int| 0 <= i < it.index() && in_class(class, #[trigger] s@[i]),
    {
        if char_in_class(class, c) {
            found = true;
        }
    }
    found
}

/// Applies the admission policy to `password`.
pub fn check_password(password: &str) -> (r: Result<(), PasswordError>)
    ensures
        r == password_verdict(password@),
        r is Ok <==> admissible(password@),
{
    if password.as_bytes().len() < MIN_PASSWORD_BYTES {
        return Err(PasswordError::TooShort);
    }
    if !contains_class(password, CharClass::Uppercase) {
        return Err(PasswordError::NoUppercase);
    }
    if !contains_class(password, CharClass::Lowercase) {
        return Err(PasswordError::NoLowercase);
    }
    if !contains_class(password, CharClass::Digit) {
        return Err(PasswordError::NoDigit);
    }
    if !contains_class(password, CharClass::Special) {
        return Err(PasswordError::NoSpecial);
    }
    Ok(())
}

} // verus!
