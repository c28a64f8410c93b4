//! The token codec: issues and validates signed, time-bounded bearer tokens.
//!
//! A token is an opaque signed string carrying the claims `iat` (issued at)
//! and `exp` (expires at), both Unix timestamps in seconds. Tokens are signed
//! with HMAC-SHA256 under a process-wide secret; no identity is embedded in
//! the token itself. Validation is pure: it checks the signature, parses the
//! claims and compares the expiry against the caller's clock, so that a
//! mismatched or unsigned token is rejected as malformed, never accepted.

use crate::errors::AuthError;
use vstd::prelude::*;

verus! {

/// How long a freshly issued token stays valid, in seconds: one day.
pub const TOKEN_LIFETIME_SECONDS: u64 = 86400;

/// The signed token that encodes the claims `(iat, exp)` under `secret`.
/// HMAC-SHA256 signing and the fixed claims serialization make the token a
/// function of the secret and the claims alone.
pub uninterp spec fn jwt_token(secret: Seq<u8>, iat: u64, exp: u64) -> Seq<char>;

/// The claims `(iat, exp)` that signature checking recovers from `token`
/// under `secret`: `None` when the token's structure, signature or claims do
/// not parse, independent of any clock.
pub uninterp spec fn jwt_payload(secret: Seq<u8>, token: Seq<char>) -> Option<(u64, u64)>;

/// Relies on jsonwebtoken's `encode` with the default (HMAC-SHA256) header
/// and a secret key: signing a plain claims map never fails, is
/// deterministic in the secret and the claims, and `decode` under the same
/// secret recovers exactly the claims that were signed.
#[verifier::external_body]
fn encode_claims(secret: &[u8], iat: u64, exp: u64) -> (token: String)
    ensures
        token@ == jwt_token(secret@, iat, exp),
        jwt_payload(secret@, token@) == Some((iat, exp)),
{
    let mut claims = std::collections::BTreeMap::new();
    claims.insert("iat", iat);
    claims.insert("exp", exp);
    jsonwebtoken::encode(
        &jsonwebtoken::Header::default(),
        &claims,
        &jsonwebtoken::EncodingKey::from_secret(secret),
    ).expect("HMAC signing of a plain claims map cannot fail")
}

/// Relies on jsonwebtoken's `decode`, restricted to HMAC-SHA256 and with its
/// own expiry check turned off: the outcome then depends on the secret and
/// the token alone. It verifies the signature, rejects any other or missing
/// algorithm, and parses the claims.
#[verifier::external_body]
fn decode_claims(secret: &[u8], token: &str) -> (claims: Option<(u64, u64)>)
    ensures
        claims == jwt_payload(secret@, token@),
{
    let mut validation = jsonwebtoken::Validation::new(jsonwebtoken::Algorithm::HS256);
    validation.validate_exp = false;
    validation.required_spec_claims = std::collections::HashSet::new();
    let data = jsonwebtoken::decode::<std::collections::BTreeMap<String, u64>>(
        token,
        &jsonwebtoken::DecodingKey::from_secret(secret),
        &validation,
    ).ok()?;
    Some((*data.claims.get("iat")?, *data.claims.get("exp")?))
}

/// The outcome of validating `token` under `secret` when the clock reads
/// `now`: expired when the clock is past the token's expiry, malformed when
/// the signature or structure does not check out.
pub open spec fn spec_validate(secret: Seq<u8>, token: Seq<char>, now: u64) -> Result<
    (),
    AuthError,
> {
    match jwt_payload(secret, token) {
        Option::None => Result::Err(AuthError::TokenMalformed),
        Option::Some(claims) => if now > claims.1 {
            Result::Err(AuthError::TokenExpired)
        } else {
            Result::Ok(())
        },
    }
}

/// Mints a token issued at `now` and expiring one day later, signed under
/// `secret`. The fresh token carries exactly those claims, so it validates
/// under the same secret at any clock up to its expiry.
pub fn create_jwt(secret: &[u8], now: u64) -> (token: String)
    requires
        now + TOKEN_LIFETIME_SECONDS <= u64::MAX,
    ensures
        token@ == jwt_token(secret@, now, (now + TOKEN_LIFETIME_SECONDS) as u64),
        jwt_payload(secret@, token@) == Some((now, (now + TOKEN_LIFETIME_SECONDS) as u64)),
        spec_validate(secret@, token@, now) is Ok,
{
    let exp: u64 = now + TOKEN_LIFETIME_SECONDS;
    encode_claims(secret, now, exp)
}

/// Validates `token` under `secret` at clock `now`: distinguishes an expired
/// token from a malformed one, and accepts exactly the tokens whose
/// signature checks out and whose expiry has not passed.
pub fn is_valid(secret: &[u8], token: &str, now: u64) -> (r: Result<(), AuthError>)
    ensures
        r == spec_validate(secret@, token@, now),
{
    match decode_claims(secret, token) {
        Option::None => Result::Err(AuthError::TokenMalformed),
        Option::Some((_iat, exp)) => if now > exp {
            Result::Err(AuthError::TokenExpired)
        } else {
            Result::Ok(())
        },
    }
}

} // verus!
