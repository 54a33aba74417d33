use vstd::prelude::*;

use crate::errors::{GatewayError, TokenError};

verus! {

/// Token lifetime: a fixed window of 24 hours from issuance.
pub const TOKEN_LIFETIME: u64 = 60 * 60 * 24;

/// The claims carried by a signed bearer token.
#[derive(Clone, Debug)]
pub struct Claims {
    pub subject: String,
    pub audience: String,
    pub scope: String,
    pub issued_at: u64,
    pub expires_at: u64,
}

#[verifier::external_type_specification]
#[verifier::external_body]
pub struct ExEncodingKey(jsonwebtoken::EncodingKey);

#[verifier::external_type_specification]
#[verifier::external_body]
pub struct ExDecodingKey(jsonwebtoken::DecodingKey);

/// Relies on jsonwebtoken::encode with ES256: signs the claims set
/// `{sub, aud, scp, iat, exp}` under the private key. The signature is
/// randomized per call, so nothing is stated of the returned string;
/// the claims themselves are pinned by the callers' contracts.
#[verifier::external_body]
fn sign_claims(key: &jsonwebtoken::EncodingKey, c: &Claims) -> Result<String, GatewayError> {
    let mut m = serde_json::Map::new();
    m.insert("sub".to_string(), serde_json::Value::String(c.subject.clone()));
    m.insert("aud".to_string(), serde_json::Value::String(c.audience.clone()));
    m.insert("scp".to_string(), serde_json::Value::String(c.scope.clone()));
    m.insert("iat".to_string(), serde_json::Value::from(c.issued_at));
    m.insert("exp".to_string(), serde_json::Value::from(c.expires_at));
    let header = jsonwebtoken::Header::new(jsonwebtoken::Algorithm::ES256);
    jsonwebtoken::encode(&header, &serde_json::Value::Object(m), key)
        .map_err(|_| GatewayError::General)
}

/// What the signature check yields for a public key and a token: the
/// claims carried, or nothing if the token is malformed, the signature
/// does not verify, or a claim is missing or of the wrong type. With
/// expiry, audience and required-claim validation turned off,
/// jsonwebtoken's decode is a deterministic function of the two
/// arguments — ECDSA verification involves no randomness — so the
/// result can be named and callers' contracts can speak of it.
pub uninterp spec fn decoded_of(key: jsonwebtoken::DecodingKey, token: Seq<char>) -> Option<
    Claims,
>;

/// Relies on jsonwebtoken::decode with ES256: checks the token framing
/// and its signature under the public key only (audience and expiry are
/// checked by the verified callers against an explicit clock). Returns
/// the claims fields, or `None` if the token is malformed, the signature
/// does not verify, or a claim is missing or of the wrong type.
#[verifier::external_body]
fn decode_signed(key: &jsonwebtoken::DecodingKey, token: &String) -> (r: Option<Claims>)
    ensures
        r == decoded_of(*key, token@),
{
    let mut v = jsonwebtoken::Validation::new(jsonwebtoken::Algorithm::ES256);
    v.set_required_spec_claims::<&str>(&[]);
    v.validate_exp = false;
    v.validate_aud = false;
    let c = jsonwebtoken::decode::<serde_json::Value>(token, key, &v).ok()?.claims;
    Some(Claims {
        subject: c.get("sub")?.as_str()?.to_string(),
        audience: c.get("aud")?.as_str()?.to_string(),
        scope: c.get("scp")?.as_str()?.to_string(),
        issued_at: c.get("iat")?.as_u64()?,
        expires_at: c.get("exp")?.as_u64()?,
    })
}

/// A claims set passes validation against an expected audience at a
/// given instant exactly when the audience matches and the expiry
/// instant has not yet been reached (zero leeway: the instant
/// `expires_at` itself is already rejected).
pub open spec fn claims_accepted(c: Claims, expected_audience: Seq<char>, now: u64) -> bool {
    c.audience@ == expected_audience && now < c.expires_at
}

/// Build the claims set for a fresh token: exactly
/// `{subject, audience, scope, issued_at = now, expires_at = now + lifetime}`.
pub fn build_claims(
    subject: &String,
    audience: &String,
    scope: String,
    now: u64,
    lifetime: u64,
) -> (c: Claims)
    requires
        now + lifetime <= u64::MAX,
    ensures
        c.subject@ == subject@,
        c.audience@ == audience@,
        c.scope == scope,
        c.issued_at == now,
        c.expires_at == now + lifetime,
{
    Claims {
        subject: subject.clone(),
        audience: audience.clone(),
        scope,
        issued_at: now,
        expires_at: now + lifetime,
    }
}

/// Validate a decoded claims set: audience first, then expiry, with
/// zero clock-skew leeway.
pub fn check_claims(c: &Claims, expected_audience: &String, now: u64) -> (r: Result<
    (),
    TokenError,
>)
    ensures
        r is Ok <==> claims_accepted(*c, expected_audience@, now),
        r == Err::<(), TokenError>(TokenError::AudienceMismatch) <==> c.audience@
            != expected_audience@,
        r == Err::<(), TokenError>(TokenError::Expired) <==> (c.audience@ == expected_audience@
            && now >= c.expires_at),
{
    if !(c.audience == *expected_audience) {
        Err(TokenError::AudienceMismatch)
    } else if now >= c.expires_at {
        Err(TokenError::Expired)
    } else {
        Ok(())
    }
}

/// Issue a signed token: the claims are exactly those of `build_claims`;
/// the opaque token string is produced by the signing collaborator and
/// is deliberately not byte-pinned (its signature is randomized).
pub fn issue(
    key: &jsonwebtoken::EncodingKey,
    subject: &String,
    audience: &String,
    scope: String,
    now: u64,
    lifetime: u64,
) -> (r: Result<(String, Claims), GatewayError>)
    requires
        now + lifetime <= u64::MAX,
    ensures
        r matches Ok(p) ==> p.1.subject@ == subject@ && p.1.audience@ == audience@ && p.1.scope
            == scope && p.1.issued_at == now && p.1.expires_at == now + lifetime,
        r matches Err(e) ==> e == GatewayError::General,
{
    let c = build_claims(subject, audience, scope, now, lifetime);
    match sign_claims(key, &c) {
        Ok(t) => Ok((t, c)),
        Err(_) => Err(GatewayError::General),
    }
}

/// Verify a token against an expected audience at an explicit instant:
/// the result is `Ok` exactly when the signature check yields claims
/// that pass `claims_accepted`, and those claims are what is returned;
/// each error is pinned to its exact cause.
pub fn verify(
    key: &jsonwebtoken::DecodingKey,
    token: &String,
    expected_audience: &String,
    now: u64,
) -> (r: Result<Claims, TokenError>)
    ensures
        r is Ok <==> (match decoded_of(*key, token@) {
            Option::Some(c) => claims_accepted(c, expected_audience@, now),
            Option::None => false,
        }),
        r matches Ok(c) ==> decoded_of(*key, token@) == Option::Some(c) && claims_accepted(
            c,
            expected_audience@,
            now,
        ),
        r == Err::<Claims, TokenError>(TokenError::InvalidSignature) <==> decoded_of(*key, token@)
            is None,
        (match decoded_of(*key, token@) {
            Option::Some(c) => (r == Err::<Claims, TokenError>(TokenError::AudienceMismatch)
                <==> c.audience@ != expected_audience@) && (r == Err::<Claims, TokenError>(
                TokenError::Expired,
            ) <==> (c.audience@ == expected_audience@ && now >= c.expires_at)),
            Option::None => true,
        }),
{
    match decode_signed(key, token) {
        None => Err(TokenError::InvalidSignature),
        Some(c) => match check_claims(&c, expected_audience, now) {
            Ok(()) => Ok(c),
            Err(e) => Err(e),
        },
    }
}

/// Token round trip at the claims level: a claims set whose expiry is
/// `issued_at + lifetime` is accepted against its own audience strictly
/// before the lifetime has elapsed, and rejected from the instant the
/// lifetime has elapsed on.
pub proof fn lemma_token_round_trip(c: Claims, lifetime: u64, now: u64)
    requires
        c.expires_at == c.issued_at + lifetime,
    ensures
        now < c.issued_at + lifetime ==> claims_accepted(c, c.audience@, now),
        now >= c.issued_at + lifetime ==> !claims_accepted(c, c.audience@, now),
{
}

/// Audience isolation: a claims set carrying one audience is never
/// accepted against a different audience, at any instant.
pub proof fn lemma_audience_isolation(c: Claims, other: Seq<char>, now: u64)
    requires
        c.audience@ != other,
    ensures
        !claims_accepted(c, other, now),
{
}

/// Zero-leeway boundary: at the very instant `expires_at` the claims
/// set is already rejected, whatever the audience.
pub proof fn lemma_leeway_zero_boundary(c: Claims, audience: Seq<char>)
    ensures
        !claims_accepted(c, audience, c.expires_at),
{
}

} // verus!
