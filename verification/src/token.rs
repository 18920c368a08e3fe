//! Access tokens: what they claim, how long they last, how they are signed
//! and when a presented token is honoured.

use vstd::prelude::*;
use crate::error::AuthError;
use crate::ids::UserId;

verus! {

/// Seconds an access token lasts from the instant it is issued.
pub const ACCESS_TOKEN_LIFETIME_SECS: i64 = 900;

/// Seconds a refresh token lasts from the instant it is issued.
pub const REFRESH_TOKEN_LIFETIME_SECS: i64 = 3600;

/// Seconds of clock skew allowed when an access token's expiry is judged.
pub const CLOCK_SKEW_LEEWAY_SECS: i64 = 10;

/// What an access token states: whom it stands for, and from when until when.
/// Instants are seconds since the Unix epoch.
#[derive(Clone, Copy, Debug, PartialEq, Eq, Structural)]
pub struct Claims {
    pub sub: UserId,
    pub exp: i64,
    pub iat: i64,
}

/// The claims of a token issued to `sub` at `now`.
pub open spec fn issued_claims(sub: UserId, now: i64) -> Claims
    recommends
        now + ACCESS_TOKEN_LIFETIME_SECS <= i64::MAX,
{
    Claims { sub, exp: (now + ACCESS_TOKEN_LIFETIME_SECS) as i64, iat: now }
}

/// Whether a token that expires at `exp` is past honouring at `now`: its
/// expiry lies more than the leeway behind.
pub open spec fn expired_at(exp: i64, now: i64) -> bool {
    exp + CLOCK_SKEW_LEEWAY_SECS < now
}

/// Whom a presented token stands for at `now`, given the claims that its
/// signature check and decoding gave, if any.
pub open spec fn token_verdict(decoded: Option<Claims>, now: i64) -> Result<UserId, AuthError> {
    match decoded {
        Some(claims) => if expired_at(claims.exp, now) {
            Err(AuthError::InvalidToken)
        } else {
            Ok(claims.sub)
        },
        None => Err(AuthError::InvalidToken),
    }
}

/// The compact HS256 token that `jsonwebtoken::encode` builds for the three
/// claims under a secret, or `None` where it fails.
pub uninterp spec fn hs256_token(sub: u128, exp: i64, iat: i64, secret: Seq<u8>) -> Option<Seq<char>>;

/// The three claims `(sub, exp, iat)` that `jsonwebtoken::decode` hands out
/// for a token under a secret when expiry is left unjudged, or `None` where
/// the token is turned down.
pub uninterp spec fn hs256_claims(token: Seq<char>, secret: Seq<u8>) -> Option<(u128, i64, i64)>;

/// Three decoded values as claims.
pub open spec fn claims_of(raw: Option<(u128, i64, i64)>) -> Option<Claims> {
    match raw {
        Some((sub, exp, iat)) => Some(Claims { sub: UserId { value: sub }, exp, iat }),
        None => None,
    }
}

/// The claims that decoding a token under a secret gives, if any.
pub open spec fn decoded_claims(token: Seq<char>, secret: Seq<u8>) -> Option<Claims> {
    claims_of(hs256_claims(token, secret))
}

/// The signer's tokens decode to what was signed: the token that it gives
/// for `user` at `now`, if any, decodes under the same secret to the claims
/// issued to `user` at `now`.
pub open spec fn signature_is_faithful(secret: Seq<u8>, user: UserId, now: i64) -> bool {
    hs256_token(user.value, (now + ACCESS_TOKEN_LIFETIME_SECS) as i64, now, secret) matches Some(token)
        ==> decoded_claims(token, secret) == Some(issued_claims(user, now))
}

#[verifier::external_type_specification]
#[verifier::external_body]
pub struct ExJwtError(jsonwebtoken::errors::Error);

/// Calls `jsonwebtoken::encode` with the default header (HS256) and an HMAC
/// key made of `secret`, on a JSON object with the members `sub` (the id as
/// a hyphenated UUID), `exp` and `iat`.
///
/// Believed: the outcome is a function of the arguments alone, and a token
/// that comes out with an expiry that is not negative decodes, under the same
/// secret, to the claims that went in.
#[verifier::external_body]
fn jwt_encode(claims: &Claims, secret: &[u8]) -> (r: Result<String, jsonwebtoken::errors::Error>)
    ensures
        r matches Ok(t) ==> hs256_token(claims.sub.value, claims.exp, claims.iat, secret@) == Some(t@),
        r is Err ==> hs256_token(claims.sub.value, claims.exp, claims.iat, secret@) is None,
        r matches Ok(t) ==> claims.exp >= 0 ==> claims_of(hs256_claims(t@, secret@)) == Some(*claims),
{
    let mut body = serde_json::Map::new();
    let sub = uuid::Uuid::from_u128(claims.sub.value).to_string();
    body.insert("sub".to_string(), serde_json::Value::from(sub));
    body.insert("exp".to_string(), serde_json::Value::from(claims.exp));
    body.insert("iat".to_string(), serde_json::Value::from(claims.iat));
    let key = jsonwebtoken::EncodingKey::from_secret(secret);
    jsonwebtoken::encode(&jsonwebtoken::Header::default(), &body, &key)
}

/// Calls `jsonwebtoken::decode` for HS256 with an HMAC key made of `secret`
/// and with the expiry check switched off, then reads `sub` (a UUID in
/// text), `exp` and `iat` out of the payload.
///
/// Believed: the outcome is a function of the arguments alone. Nothing is
/// said of which tokens are accepted.
#[verifier::external_body]
fn jwt_decode(token: &str, secret: &[u8]) -> (r: Option<Claims>)
    ensures
        r == claims_of(hs256_claims(token@, secret@)),
{
    let mut rules = jsonwebtoken::Validation::new(jsonwebtoken::Algorithm::HS256);
    rules.validate_exp = false;
    let key = jsonwebtoken::DecodingKey::from_secret(secret);
    let body = jsonwebtoken::decode::<serde_json::Value>(token, &key, &rules).ok()?.claims;
    let sub = uuid::Uuid::parse_str(body.get("sub")?.as_str()?).ok()?.as_u128();
    let exp = body.get("exp")?.as_i64()?;
    let iat = body.get("iat")?.as_i64()?;
    Some(Claims { sub: UserId { value: sub }, exp, iat })
}

impl Claims {
    /// The claims of a token issued to `sub` at `now`, unless its expiry
    /// instant cannot be held.
    pub fn issue(sub: UserId, now: i64) -> (r: Option<Claims>)
        ensures
            now + ACCESS_TOKEN_LIFETIME_SECS <= i64::MAX ==> r == Some(issued_claims(sub, now)),
            now + ACCESS_TOKEN_LIFETIME_SECS > i64::MAX ==> r is None,
    {
        match now.checked_add(ACCESS_TOKEN_LIFETIME_SECS) {
            Some(exp) => Some(Claims { sub, exp, iat: now }),
            None => None,
        }
    }

    /// Whether these claims are past honouring at `now`.
    pub fn is_expired_at(&self, now: i64) -> (r: bool)
        ensures
            r == expired_at(self.exp, now),
    {
        if self.exp > i64::MAX - CLOCK_SKEW_LEEWAY_SECS {
            false
        } else {
            self.exp + CLOCK_SKEW_LEEWAY_SECS < now
        }
    }
}

/// Signs `claims` under `secret` into a compact token.
pub fn sign_claims(claims: &Claims, secret: &[u8]) -> (r: Result<String, AuthError>)
    ensures
        r matches Ok(t) ==> hs256_token(claims.sub.value, claims.exp, claims.iat, secret@) == Some(t@),
        r matches Ok(t) ==> claims.exp >= 0 ==> decoded_claims(t@, secret@) == Some(*claims),
        r matches Err(e) ==> e == AuthError::SigningFailed
            && hs256_token(claims.sub.value, claims.exp, claims.iat, secret@) is None,
{
    match jwt_encode(claims, secret) {
        Ok(token) => Ok(token),
        Err(_) => Err(AuthError::SigningFailed),
    }
}

/// Judges at `now` the claims that decoding gave.
pub fn admit_claims(decoded: Option<Claims>, now: i64) -> (r: Result<UserId, AuthError>)
    ensures
        r == token_verdict(decoded, now),
{
    match decoded {
        Some(claims) => if claims.is_expired_at(now) {
            Err(AuthError::InvalidToken)
        } else {
            Ok(claims.sub)
        },
        None => Err(AuthError::InvalidToken),
    }
}

/// Checks a presented token under `secret` and tells whom it stands for at
/// `now`. Every cause of refusal gives the same error.
pub fn verify_token_at(token: &str, secret: &[u8], now: i64) -> (r: Result<UserId, AuthError>)
    ensures
        r == token_verdict(decoded_claims(token@, secret@), now),
{
    admit_claims(jwt_decode(token, secret), now)
}

/// An access token that has outlived its lifetime and the leeway is refused,
/// whatever else holds of it.
pub proof fn expired_token_is_refused(claims: Claims, issued: i64, now: i64)
    requires
        issued + ACCESS_TOKEN_LIFETIME_SECS <= i64::MAX,
        claims == issued_claims(claims.sub, issued),
        now > issued + ACCESS_TOKEN_LIFETIME_SECS + CLOCK_SKEW_LEEWAY_SECS,
    ensures
        token_verdict(Some(claims), now) == Err::<UserId, AuthError>(AuthError::InvalidToken),
{
}

/// An access token is honoured from its issue up to the end of its lifetime
/// and of the leeway, and then names the one it was issued to.
pub proof fn live_token_names_its_subject(claims: Claims, issued: i64, now: i64)
    requires
        issued + ACCESS_TOKEN_LIFETIME_SECS <= i64::MAX,
        claims == issued_claims(claims.sub, issued),
        now <= issued + ACCESS_TOKEN_LIFETIME_SECS + CLOCK_SKEW_LEEWAY_SECS,
    ensures
        token_verdict(Some(claims), now) == Ok::<UserId, AuthError>(claims.sub),
{
}

} // verus!
