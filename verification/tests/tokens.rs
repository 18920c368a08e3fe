use account_ledger::error::AuthError;
use account_ledger::hasher::{hash_password, hash_password_with_salt, verify_password};
use account_ledger::ids::UserId;
use account_ledger::token::{admit_claims, sign_claims, verify_token_at, Claims};

const SECRET: &[u8] = b"a-test-secret";

#[test]
fn issued_claims_last_fifteen_minutes() {
    let c = Claims::issue(UserId::new(7), 1_700_000_000).unwrap();
    assert_eq!(c, Claims { sub: UserId::new(7), exp: 1_700_000_900, iat: 1_700_000_000 });
    assert_eq!(Claims::issue(UserId::new(7), i64::MAX - 899), None);
    assert!(Claims::issue(UserId::new(7), i64::MAX - 900).is_some());
}

#[test]
fn token_round_trip_names_subject() {
    let sub = UserId::new(0x1234_5678_9abc_def0_1234_5678_9abc_def0);
    let c = Claims::issue(sub, 1_700_000_000).unwrap();
    let token = sign_claims(&c, SECRET).unwrap();
    assert_eq!(token.split('.').count(), 3);
    assert_eq!(verify_token_at(&token, SECRET, 1_700_000_300), Ok(sub));
}

#[test]
fn token_expires_after_lifetime_and_leeway() {
    let sub = UserId::new(42);
    let c = Claims::issue(sub, 1_700_000_000).unwrap();
    let token = sign_claims(&c, SECRET).unwrap();
    assert_eq!(verify_token_at(&token, SECRET, 1_700_000_900), Ok(sub));
    assert_eq!(verify_token_at(&token, SECRET, 1_700_000_910), Ok(sub));
    assert_eq!(verify_token_at(&token, SECRET, 1_700_000_911), Err(AuthError::InvalidToken));
}

#[test]
fn token_under_other_secret_is_refused() {
    let c = Claims::issue(UserId::new(42), 1_700_000_000).unwrap();
    let token = sign_claims(&c, SECRET).unwrap();
    assert_eq!(verify_token_at(&token, b"another", 1_700_000_000), Err(AuthError::InvalidToken));
}

#[test]
fn malformed_token_is_refused() {
    assert_eq!(verify_token_at("", SECRET, 0), Err(AuthError::InvalidToken));
    assert_eq!(verify_token_at("a.b.c", SECRET, 0), Err(AuthError::InvalidToken));
    assert_eq!(verify_token_at("not a token", SECRET, 0), Err(AuthError::InvalidToken));
}

#[test]
fn tampered_token_is_refused() {
    let c = Claims::issue(UserId::new(42), 1_700_000_000).unwrap();
    let mut token = sign_claims(&c, SECRET).unwrap();
    let last = token.pop().unwrap();
    token.push(if last == 'A' { 'B' } else { 'A' });
    assert_eq!(verify_token_at(&token, SECRET, 1_700_000_000), Err(AuthError::InvalidToken));
}

#[test]
fn admit_claims_judges_expiry() {
    let c = Claims { sub: UserId::new(1), exp: 100, iat: 0 };
    assert_eq!(admit_claims(Some(c), 110), Ok(UserId::new(1)));
    assert_eq!(admit_claims(Some(c), 111), Err(AuthError::InvalidToken));
    assert_eq!(admit_claims(None, 0), Err(AuthError::InvalidToken));
    let far = Claims { sub: UserId::new(1), exp: i64::MAX, iat: 0 };
    assert_eq!(admit_claims(Some(far), i64::MAX), Ok(UserId::new(1)));
}

#[test]
fn hashed_password_verifies() {
    let h = hash_password("Abcdef1!").unwrap();
    assert!(h.starts_with("$argon2id$"));
    assert_ne!(h, "Abcdef1!");
    assert_eq!(verify_password("Abcdef1!", &h), Ok(true));
    assert_eq!(verify_password("Abcdef1?", &h), Ok(false));
}

#[test]
fn hashing_draws_a_fresh_salt() {
    let a = hash_password("Abcdef1!").unwrap();
    let b = hash_password("Abcdef1!").unwrap();
    assert_ne!(a, b);
}

#[test]
fn hashing_under_a_salt_is_repeatable() {
    let a = hash_password_with_salt("Abcdef1!", "c29tZXNhbHR2YWx1ZQ").unwrap();
    let b = hash_password_with_salt("Abcdef1!", "c29tZXNhbHR2YWx1ZQ").unwrap();
    assert_eq!(a, b);
    assert_eq!(verify_password("Abcdef1!", &a), Ok(true));
    assert_eq!(hash_password_with_salt("Abcdef1!", "!"), Err(AuthError::HashingFailed));
}

#[test]
fn unreadable_hash_is_an_error() {
    assert_eq!(verify_password("Abcdef1!", "not a hash"), Err(AuthError::UnreadableHash));
}
