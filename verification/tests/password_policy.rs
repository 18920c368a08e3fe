use account_ledger::password::{check_password, contains_class, CharClass, PasswordError};

#[test]
fn admits_password_with_all_classes() {
    assert_eq!(check_password("Abcdef1!"), Ok(()));
}

#[test]
fn rejects_short_password() {
    assert_eq!(check_password("Ab1!"), Err(PasswordError::TooShort));
}

#[test]
fn length_is_counted_in_bytes() {
    // Seven characters, eight bytes.
    assert_eq!("Abcde1\u{e9}".chars().count(), 7);
    assert_eq!("Abcde1\u{e9}".len(), 8);
    assert_ne!(check_password("Abcde1\u{e9}"), Err(PasswordError::TooShort));
}

#[test]
fn rejects_missing_uppercase() {
    assert_eq!(check_password("abcdef1!"), Err(PasswordError::NoUppercase));
}

#[test]
fn rejects_missing_lowercase() {
    assert_eq!(check_password("ABCDEF1!"), Err(PasswordError::NoLowercase));
}

#[test]
fn rejects_missing_digit() {
    assert_eq!(check_password("Abcdefg!"), Err(PasswordError::NoDigit));
}

#[test]
fn rejects_missing_special() {
    assert_eq!(check_password("Abcdefg1"), Err(PasswordError::NoSpecial));
}

#[test]
fn first_failing_rule_is_reported() {
    assert_eq!(check_password("abcdefgh"), Err(PasswordError::NoUppercase));
    assert_eq!(check_password("ABCDEFGH"), Err(PasswordError::NoLowercase));
    assert_eq!(check_password(""), Err(PasswordError::TooShort));
}

#[test]
fn classes_follow_unicode() {
    assert!(contains_class("\u{c9}", CharClass::Uppercase));
    assert!(contains_class("\u{e9}", CharClass::Lowercase));
    assert!(!contains_class("\u{e9}", CharClass::Special));
    assert!(!contains_class("\u{663}", CharClass::Digit));
    assert!(contains_class("a b", CharClass::Special));
    assert!(!contains_class("", CharClass::Special));
}

#[test]
fn password_messages() {
    assert_eq!(PasswordError::TooShort.message(), "Password must be at least 8 characters");
    assert_eq!(PasswordError::NoUppercase.message(), "Password must contain at least one uppercase letter");
    assert_eq!(PasswordError::NoLowercase.message(), "Password must contain at least one lowercase letter");
    assert_eq!(PasswordError::NoDigit.message(), "Password must contain at least one digit");
    assert_eq!(PasswordError::NoSpecial.message(), "Password must contain at least one special character");
}
