//! Trusted wrappers around the password-hashing and token-signing
//! crates. Each wrapper's contract states only what the outside crate's
//! own source shows; everything built on top of them is verified.

use vstd::prelude::*;

verus! {

/// Whether bcrypt's verification accepts `password` against `hash`.
/// bcrypt recomputes the hash from the salt embedded in `hash` and
/// compares, so the outcome is a pure function of the two arguments;
/// a malformed hash never verifies.
pub uninterp spec fn hash_matches(password: Seq<char>, hash: Seq<char>) -> bool;

/// Relies on `bcrypt::hash` at the default cost: the salted hash it
/// produces verifies against the password it was produced from. `None`
/// only when the OS random source fails.
#[verifier::external_body]
pub(crate) fn hash_password(password: &str) -> (r: Option<String>)
    ensures
        r matches Some(h) ==> hash_matches(password@, h@),
{
    match bcrypt::hash(password.as_bytes(), bcrypt::DEFAULT_COST) {
        Ok(h) => Some(h),
        Err(_) => None,
    }
}

/// Relies on `bcrypt::verify`: the deterministic comparison behind
/// `hash_matches`; an error (malformed hash) counts as no match.
#[verifier::external_body]
pub(crate) fn verify_password(password: &str, hash: &str) -> (r: bool)
    ensures
        r == hash_matches(password@, hash@),
{
    match bcrypt::verify(password.as_bytes(), hash) {
        Ok(b) => b,
        Err(_) => false,
    }
}

/// The claims (subject, role spelling, issued-at, expiry) that token
/// verification recovers from `token` under `secret`, if its signature
/// is valid. Signature checking is deterministic, so this is a pure
/// function of the two arguments.
pub uninterp spec fn token_claims(token: Seq<char>, secret: Seq<char>) -> Option<
    (Seq<char>, Seq<char>, u64, u64),
>;

/// Relies on `jsonwebtoken::encode` with HS256 and its round trip with
/// `jsonwebtoken::decode`: decoding a freshly signed token under the
/// same secret recovers exactly the claims that were signed. Signing
/// always succeeds: for HS256 the key family matches, an HMAC key of
/// any length is accepted, HMAC signing is infallible, and a
/// string-keyed JSON object always serializes.
#[verifier::external_body]
pub(crate) fn sign_token(sub: &str, role: &str, iat: u64, exp: u64, secret: &str) -> (r: Option<
    String,
>)
    ensures
        r is Some,
        r matches Some(t) ==> token_claims(t@, secret@) == Some((sub@, role@, iat, exp)),
{
    let mut claims = serde_json::Map::new();
    claims.insert("sub".to_string(), serde_json::Value::from(sub));
    claims.insert("role".to_string(), serde_json::Value::from(role));
    claims.insert("iat".to_string(), serde_json::Value::from(iat));
    claims.insert("exp".to_string(), serde_json::Value::from(exp));
    let key = jsonwebtoken::EncodingKey::from_secret(secret.as_bytes());
    let header = jsonwebtoken::Header::default();
    match jsonwebtoken::encode(&header, &serde_json::Value::Object(claims), &key) {
        Ok(t) => Some(t),
        Err(_) => None,
    }
}

/// Relies on `jsonwebtoken::decode` with HS256, with expiry validation
/// turned off: the deterministic signature check behind `token_claims`.
/// Expiry is enforced by the verified caller against an explicit clock.
#[verifier::external_body]
pub(crate) fn decode_token(token: &str, secret: &str) -> (r: Option<(String, String, u64, u64)>)
    ensures
        match r {
            Some(c) => token_claims(token@, secret@) == Some((c.0@, c.1@, c.2, c.3)),
            None => token_claims(token@, secret@) is None,
        },
{
    let key = jsonwebtoken::DecodingKey::from_secret(secret.as_bytes());
    let mut validation = jsonwebtoken::Validation::new(jsonwebtoken::Algorithm::HS256);
    validation.validate_exp = false;
    let data = match jsonwebtoken::decode::<serde_json::Value>(token, &key, &validation) {
        Ok(d) => d,
        Err(_) => return None,
    };
    let sub = data.claims.get("sub")?.as_str()?.to_string();
    let role = data.claims.get("role")?.as_str()?.to_string();
    let iat = data.claims.get("iat")?.as_u64()?;
    let exp = data.claims.get("exp")?.as_u64()?;
    Some((sub, role, iat, exp))
}

} // verus!
