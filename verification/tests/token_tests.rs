use bridge::errors::TokenError;
use bridge::token::{build_claims, check_claims, issue, verify, TOKEN_LIFETIME};

use ring::signature::{EcdsaKeyPair, KeyPair, ECDSA_P256_SHA256_FIXED_SIGNING};

fn make_keys() -> (jsonwebtoken::EncodingKey, jsonwebtoken::DecodingKey) {
    let rng = ring::rand::SystemRandom::new();
    let pkcs8 = EcdsaKeyPair::generate_pkcs8(&ECDSA_P256_SHA256_FIXED_SIGNING, &rng).unwrap();
    let pair =
        EcdsaKeyPair::from_pkcs8(&ECDSA_P256_SHA256_FIXED_SIGNING, pkcs8.as_ref(), &rng).unwrap();
    let enc = jsonwebtoken::EncodingKey::from_ec_der(pkcs8.as_ref());
    let dec = jsonwebtoken::DecodingKey::from_ec_der(pair.public_key().as_ref());
    (enc, dec)
}

#[test]
fn token_round_trip() {
    let (enc, dec) = make_keys();
    let now: u64 = 1_700_000_000;
    let (token, claims) = issue(
        &enc,
        &"alice".to_string(),
        &"openad-user".to_string(),
        "viewer".to_string(),
        now,
        TOKEN_LIFETIME,
    )
    .unwrap();
    assert_eq!(claims.subject, "alice");
    assert_eq!(claims.scope, "viewer");
    assert_eq!(claims.issued_at, now);
    assert_eq!(claims.expires_at, now + TOKEN_LIFETIME);
    // before the lifetime elapses the token verifies with the same claims
    let got = verify(&dec, &token, &"openad-user".to_string(), now + TOKEN_LIFETIME - 1).unwrap();
    assert_eq!(got.subject, "alice");
    assert_eq!(got.scope, "viewer");
    // after the lifetime has elapsed it is expired
    let late = verify(&dec, &token, &"openad-user".to_string(), now + TOKEN_LIFETIME);
    assert_eq!(late.unwrap_err(), TokenError::Expired);
}

#[test]
fn audience_isolation() {
    let (enc, dec) = make_keys();
    let now: u64 = 1_700_000_000;
    let (token, _) = issue(
        &enc,
        &"alice".to_string(),
        &"audience-a".to_string(),
        "viewer".to_string(),
        now,
        TOKEN_LIFETIME,
    )
    .unwrap();
    let r = verify(&dec, &token, &"audience-b".to_string(), now + 1);
    assert_eq!(r.unwrap_err(), TokenError::AudienceMismatch);
}

#[test]
fn leeway_zero_boundary() {
    let (enc, dec) = make_keys();
    let now: u64 = 1_700_000_000;
    let (token, claims) = issue(
        &enc,
        &"alice".to_string(),
        &"openad-user".to_string(),
        "viewer".to_string(),
        now,
        TOKEN_LIFETIME,
    )
    .unwrap();
    // a token checked at the very instant expires_at is already rejected
    let r = verify(&dec, &token, &"openad-user".to_string(), claims.expires_at);
    assert_eq!(r.unwrap_err(), TokenError::Expired);
    // one instant earlier it still verifies
    assert!(verify(&dec, &token, &"openad-user".to_string(), claims.expires_at - 1).is_ok());
}

#[test]
fn invalid_signature_rejected() {
    let (enc, _) = make_keys();
    let (_, other_dec) = make_keys();
    let now: u64 = 1_700_000_000;
    let (token, _) = issue(
        &enc,
        &"alice".to_string(),
        &"openad-user".to_string(),
        "viewer".to_string(),
        now,
        TOKEN_LIFETIME,
    )
    .unwrap();
    // verifying under a different key pair fails on the signature
    let r = verify(&other_dec, &token, &"openad-user".to_string(), now + 1);
    assert_eq!(r.unwrap_err(), TokenError::InvalidSignature);
    // garbage is rejected the same way
    let r2 = verify(&other_dec, &"not.a.token".to_string(), &"openad-user".to_string(), now + 1);
    assert_eq!(r2.unwrap_err(), TokenError::InvalidSignature);
}

#[test]
fn check_claims_exact_errors() {
    let c = build_claims(
        &"bob".to_string(),
        &"openad-user".to_string(),
        "".to_string(),
        100,
        50,
    );
    assert!(check_claims(&c, &"openad-user".to_string(), 149).is_ok());
    assert_eq!(
        check_claims(&c, &"openad-user".to_string(), 150).unwrap_err(),
        TokenError::Expired
    );
    // audience is checked before expiry
    assert_eq!(
        check_claims(&c, &"someone-else".to_string(), 150).unwrap_err(),
        TokenError::AudienceMismatch
    );
}
