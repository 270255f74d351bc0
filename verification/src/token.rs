//! Session credentials: signed claims minted and checked through the
//! `jsonwebtoken` crate (HMAC-SHA256, default header).
//!
//! A credential self-encodes the username it is bound to, so the store
//! needs no credential map: a credential is valid exactly when its
//! signature verifies under the store's secret and its claims carry a
//! string `sub`.  What the two calls return is a function of their
//! arguments alone, so each result is given a name here, and the
//! dispatcher's contracts are stated over those names.

use vstd::prelude::*;

verus! {

/// The credential that signing the claim `sub` under `secret` yields.
pub uninterp spec fn token_of(sub: Seq<char>, secret: Seq<char>) -> Seq<char>;

/// The `sub` claim that verifying `token` under `secret` extracts:
/// `Some(sub)` when the signature checks out and the claims hold a
/// string `sub`, `None` otherwise.
pub uninterp spec fn jwt_claims_of(token: Seq<char>, secret: Seq<char>) -> Option<Seq<char>>;

/// Relies on `jsonwebtoken::encode`: with the default header (HS256) and
/// a claims object holding the single string field `sub`, the result is
/// a function of `sub` and `secret` alone (fixed header, deterministic
/// serialization, HMAC and base64url), and `jsonwebtoken::decode` of it
/// under the same secret recovers exactly that `sub` claim.  For the
/// HMAC family `encode` accepts a secret of any length and cannot fail:
/// key setup, serialization of a one-field string map, and signing are
/// all infallible there.
#[verifier::external_body]
pub(crate) fn sign_token(sub: &str, secret: &str) -> (t: String)
    ensures
        t@ == token_of(sub@, secret@),
        jwt_claims_of(t@, secret@) == Some(sub@),
{
    let mut claims = serde_json::Map::new();
    claims.insert("sub".to_string(), serde_json::Value::String(sub.to_string()));
    let claims = serde_json::Value::Object(claims);
    let key = jsonwebtoken::EncodingKey::from_secret(secret.as_bytes());
    jsonwebtoken::encode(&jsonwebtoken::Header::default(), &claims, &key).unwrap()
}

/// Relies on `jsonwebtoken::decode`: it checks the HS256 signature of
/// the token against the secret and deserializes the claims.  With the
/// time-based checks switched off and no claim required, the outcome is
/// a function of `token` and `secret` alone.  The `sub` claim is handed
/// back when the token verifies and carries one as a string.
#[verifier::external_body]
pub(crate) fn verify_token(token: &str, secret: &str) -> (r: Option<String>)
    ensures
        match r {
            Some(u) => jwt_claims_of(token@, secret@) == Some(u@),
            None => jwt_claims_of(token@, secret@) is None,
        },
{
    let key = jsonwebtoken::DecodingKey::from_secret(secret.as_bytes());
    let mut validation = jsonwebtoken::Validation::new(jsonwebtoken::Algorithm::HS256);
    validation.required_spec_claims = std::collections::HashSet::new();
    validation.validate_exp = false;
    match jsonwebtoken::decode::<serde_json::Value>(token, &key, &validation) {
        Ok(data) => match data.claims.get("sub") {
            Some(serde_json::Value::String(u)) => Some(u.clone()),
            _ => None,
        },
        Err(_) => None,
    }
}

} // verus!
