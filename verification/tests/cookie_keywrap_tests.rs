use bridge::cookie::CredentialCookie;
use bridge::keywrap::sec1_to_pkcs8;

#[test]
fn cookie_encoding_without_token() {
    let c = CredentialCookie { subject: "alice".to_string(), token: None };
    assert_eq!(c.encode(), r#"{"subject":"alice","token":null}"#);
}

#[test]
fn cookie_encoding_with_token() {
    let c = CredentialCookie { subject: "alice".to_string(), token: Some("t.t.t".to_string()) };
    let s = c.encode();
    assert_eq!(s, r#"{"subject":"alice","token":"t.t.t"}"#);
    // the collaborator deserializer reads the same envelope back
    let v: serde_json::Value = serde_json::from_str(&s).unwrap();
    assert_eq!(v.get("subject").unwrap().as_str().unwrap(), "alice");
    assert_eq!(v.get("token").unwrap().as_str().unwrap(), "t.t.t");
}

#[test]
fn cookie_encoding_escapes() {
    let c = CredentialCookie { subject: "a\"b\\c\nd".to_string(), token: None };
    let s = c.encode();
    assert_eq!(s, "{\"subject\":\"a\\\"b\\\\c\\nd\",\"token\":null}");
    let v: serde_json::Value = serde_json::from_str(&s).unwrap();
    assert_eq!(v.get("subject").unwrap().as_str().unwrap(), "a\"b\\c\nd");
}

#[test]
fn cookie_encoding_escapes_control_characters() {
    // every control character below U+0020 is escaped the way the
    // collaborator serializer writes it, so the envelope always parses
    let c = CredentialCookie { subject: "a\u{0}b\u{8}c\u{c}d\u{1f}e".to_string(), token: None };
    let s = c.encode();
    assert_eq!(s, "{\"subject\":\"a\\u0000b\\bc\\fd\\u001fe\",\"token\":null}");
    let v: serde_json::Value = serde_json::from_str(&s).unwrap();
    assert_eq!(v.get("subject").unwrap().as_str().unwrap(), "a\u{0}b\u{8}c\u{c}d\u{1f}e");
    // and it matches the collaborator's own encoding of the same value
    assert_eq!(
        serde_json::to_string(&serde_json::Value::String("a\u{0}b\u{8}c\u{c}d\u{1f}e".to_string()))
            .unwrap(),
        "\"a\\u0000b\\bc\\fd\\u001fe\""
    );
}

#[test]
fn rotation_replaces_token_only() {
    let c = CredentialCookie { subject: "alice".to_string(), token: Some("old".to_string()) };
    let r = c.rotated("new".to_string());
    assert_eq!(r.subject, "alice");
    assert_eq!(r.token.as_deref(), Some("new"));
}

#[test]
fn pkcs8_wrap_short_payload() {
    // a four-byte stand-in payload keeps every length in the one-byte form
    let sec1 = vec![0xAAu8, 0xBB, 0xCC, 0xDD];
    let out = sec1_to_pkcs8(&sec1);
    let expected: Vec<u8> = vec![
        0x30, 0x1E, // outer SEQUENCE, 30 bytes
        0x02, 0x01, 0x00, // INTEGER 0
        0x30, 0x13, // AlgorithmIdentifier SEQUENCE, 19 bytes
        0x06, 0x07, 0x2A, 0x86, 0x48, 0xCE, 0x3D, 0x02, 0x01, // id-ecPublicKey
        0x06, 0x08, 0x2A, 0x86, 0x48, 0xCE, 0x3D, 0x03, 0x01, 0x07, // prime256v1
        0x04, 0x04, // OCTET STRING, 4 bytes
        0xAA, 0xBB, 0xCC, 0xDD,
    ];
    assert_eq!(out, expected);
}

#[test]
fn pkcs8_wrap_long_payload() {
    // a 200-byte payload forces the two-byte length form on both levels
    let sec1: Vec<u8> = (0..200u16).map(|i| i as u8).collect();
    let out = sec1_to_pkcs8(&sec1);
    // OCTET STRING header: tag, long-form length
    let body_prefix: Vec<u8> = vec![0x02, 0x01, 0x00];
    assert_eq!(&out[0], &0x30);
    // body length = 3 (version) + 21 (alg id) + 3 (octet header) + 200 = 227
    assert_eq!(&out[1..3], &[0x81, 227]);
    assert_eq!(&out[3..6], &body_prefix[..]);
    // the curve-point bytes are carried unchanged at the tail
    assert_eq!(&out[out.len() - 200..], &sec1[..]);
    assert_eq!(&out[out.len() - 203..out.len() - 200], &[0x04, 0x81, 200]);
    assert_eq!(out.len(), 3 + 227);
}
