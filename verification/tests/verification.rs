//! End-to-end tests of the token verification pipeline, with real
//! signatures produced by the hmac and sha2 crates.

use base64::Engine;
use jwt_verifier::base64url::b64url_decode;
use jwt_verifier::claims::{Claims, FieldValue};
use jwt_verifier::errors::{ConfigError, VerifyError};
use jwt_verifier::pipeline::{Algorithm, JWTVerifier};
use jwt_verifier::segments::split_segments;

fn b64url(data: &[u8]) -> String {
    base64::engine::general_purpose::URL_SAFE_NO_PAD.encode(data)
}

fn hmac_digest(alg: Algorithm, key: &[u8], msg: &[u8]) -> Vec<u8> {
    match alg {
        Algorithm::HS256 => {
            let mut mac =
                <hmac::Hmac<sha2::Sha256> as hmac::KeyInit>::new_from_slice(key).unwrap();
            hmac::Mac::update(&mut mac, msg);
            hmac::Mac::finalize(mac).into_bytes().to_vec()
        }
        Algorithm::HS384 => {
            let mut mac =
                <hmac::Hmac<sha2::Sha384> as hmac::KeyInit>::new_from_slice(key).unwrap();
            hmac::Mac::update(&mut mac, msg);
            hmac::Mac::finalize(mac).into_bytes().to_vec()
        }
        Algorithm::HS512 => {
            let mut mac =
                <hmac::Hmac<sha2::Sha512> as hmac::KeyInit>::new_from_slice(key).unwrap();
            hmac::Mac::update(&mut mac, msg);
            hmac::Mac::finalize(mac).into_bytes().to_vec()
        }
    }
}

fn alg_name(alg: Algorithm) -> &'static str {
    match alg {
        Algorithm::HS256 => "HS256",
        Algorithm::HS384 => "HS384",
        Algorithm::HS512 => "HS512",
    }
}

/// Builds a signed token over `payload_json` with the given algorithm.
fn sign_token(alg: Algorithm, secret: &[u8], payload_json: &str) -> String {
    let header = format!("{{\"alg\":\"{}\"}}", alg_name(alg));
    let h = b64url(header.as_bytes());
    let p = b64url(payload_json.as_bytes());
    let msg = format!("{}.{}", h, p);
    let sig = hmac_digest(alg, secret, msg.as_bytes());
    format!("{}.{}", msg, b64url(&sig))
}

fn make_verifier(secret: &[u8], aud: Option<&str>, iss: Option<&str>) -> JWTVerifier {
    JWTVerifier::new(
        secret.to_vec(),
        aud.map(|s| s.to_string()),
        iss.map(|s| s.to_string()),
    )
    .unwrap()
}

const NOW: u64 = 1_700_000_000;

fn ok_claims(r: Result<Claims, VerifyError>) -> Claims {
    match r {
        Ok(c) => c,
        Err(e) => panic!("expected success, got {:?}", e),
    }
}

#[test]
fn signed_token_roundtrip_hs256() {
    let v = make_verifier(b"top-secret", None, None);
    let t = sign_token(
        Algorithm::HS256,
        b"top-secret",
        "{\"exp\":1800000000,\"iss\":\"idp1\",\"aud\":\"svcA\"}",
    );
    let c = ok_claims(v.verify_at(&t, NOW));
    assert_eq!(c.exp, 1_800_000_000);
    assert_eq!(c.iss.as_deref(), Some("idp1"));
    assert!(matches!(c.aud, FieldValue::Text(ref s) if s == "svcA"));
}

#[test]
fn signed_token_roundtrip_hs384() {
    let v = make_verifier(b"another-secret", None, None);
    let t = sign_token(Algorithm::HS384, b"another-secret", "{\"sub\":\"u1\"}");
    let c = ok_claims(v.verify_at(&t, NOW));
    assert_eq!(c.exp, 0);
    assert!(c.iss.is_none());
    assert!(matches!(c.aud, FieldValue::Absent));
}

#[test]
fn signed_token_roundtrip_hs512() {
    let v = make_verifier(b"k3", None, None);
    let t = sign_token(Algorithm::HS512, b"k3", "{\"exp\":1800000000}");
    let c = ok_claims(v.verify_at(&t, NOW));
    assert_eq!(c.exp, 1_800_000_000);
}

#[test]
fn wrong_secret_fails() {
    let v = make_verifier(b"right-secret", None, None);
    let t = sign_token(Algorithm::HS256, b"wrong-secret", "{}");
    assert_eq!(v.verify_at(&t, NOW), Err(VerifyError::InvalidSignature));
}

#[test]
fn tampered_signature_bit_flip_fails() {
    let v = make_verifier(b"top-secret", None, None);
    let t = sign_token(Algorithm::HS256, b"top-secret", "{\"exp\":1800000000}");
    assert!(v.verify_at(&t, NOW).is_ok());
    // flip every single bit of every byte of the signature segment in
    // turn; only a flip that turns a byte into a dot is out of scope
    // (it changes the segment count instead)
    let dot2 = t.rfind('.').unwrap();
    for i in (dot2 + 1)..t.len() {
        for bit in 0..8 {
            let mut bytes = t.as_bytes().to_vec();
            bytes[i] ^= 1u8 << bit;
            if bytes[i] == b'.' {
                continue;
            }
            assert_eq!(
                v.verify_bytes(&bytes, NOW),
                Err(VerifyError::InvalidSignature),
                "flip of bit {} at byte {} was accepted",
                bit,
                i
            );
        }
    }
}

#[test]
fn truncated_signature_fails() {
    let v = make_verifier(b"top-secret", None, None);
    let t = sign_token(Algorithm::HS256, b"top-secret", "{}");
    let mut short = t.clone();
    short.pop();
    assert_eq!(v.verify_at(&short, NOW), Err(VerifyError::InvalidSignature));
}

#[test]
fn expired_token_fails() {
    let v = make_verifier(b"s", None, None);
    let t = sign_token(Algorithm::HS256, b"s", "{\"exp\":1000}");
    assert_eq!(v.verify_at(&t, NOW), Err(VerifyError::TokenExpired));
}

#[test]
fn expiration_boundary_is_strict() {
    let v = make_verifier(b"s", None, None);
    let t = sign_token(Algorithm::HS256, b"s", &format!("{{\"exp\":{}}}", NOW));
    // equality counts as expired; one second earlier is accepted
    assert_eq!(v.verify_at(&t, NOW), Err(VerifyError::TokenExpired));
    assert!(v.verify_at(&t, NOW - 1).is_ok());
}

#[test]
fn expiration_one_second_in_future_succeeds() {
    let v = make_verifier(b"s", None, None);
    let t = sign_token(Algorithm::HS256, b"s", &format!("{{\"exp\":{}}}", NOW + 1));
    assert!(v.verify_at(&t, NOW).is_ok());
}

#[test]
fn expired_token_fails_against_real_clock() {
    let v = make_verifier(b"s", None, None);
    let t = sign_token(Algorithm::HS256, b"s", "{\"exp\":1}");
    assert_eq!(v.verify(&t), Err(VerifyError::TokenExpired));
}

#[test]
fn missing_exp_never_expires() {
    let v = make_verifier(b"s", None, None);
    let t = sign_token(Algorithm::HS256, b"s", "{\"iss\":\"idp1\"}");
    assert!(v.verify_at(&t, u64::MAX).is_ok());
}

#[test]
fn non_integer_exp_is_ignored() {
    let v = make_verifier(b"s", None, None);
    let t = sign_token(Algorithm::HS256, b"s", "{\"exp\":\"soon\"}");
    let c = ok_claims(v.verify_at(&t, NOW));
    assert_eq!(c.exp, 0);
}

#[test]
fn audience_list_containing_expected_succeeds() {
    let v = make_verifier(b"s", Some("svcA"), None);
    let t = sign_token(Algorithm::HS256, b"s", "{\"aud\":[\"svcA\",\"svcB\"]}");
    assert!(v.verify_at(&t, NOW).is_ok());
}

#[test]
fn audience_list_without_expected_fails() {
    let v = make_verifier(b"s", Some("svcA"), None);
    let t = sign_token(Algorithm::HS256, b"s", "{\"aud\":[\"svcB\"]}");
    assert_eq!(v.verify_at(&t, NOW), Err(VerifyError::InvalidAudience));
}

#[test]
fn audience_single_text_match_succeeds() {
    let v = make_verifier(b"s", Some("svcA"), None);
    let t = sign_token(Algorithm::HS256, b"s", "{\"aud\":\"svcA\"}");
    assert!(v.verify_at(&t, NOW).is_ok());
}

#[test]
fn audience_single_text_mismatch_fails() {
    let v = make_verifier(b"s", Some("svcA"), None);
    let t = sign_token(Algorithm::HS256, b"s", "{\"aud\":\"svcB\"}");
    assert_eq!(v.verify_at(&t, NOW), Err(VerifyError::InvalidAudience));
}

#[test]
fn audience_absent_passes_unconstrained() {
    let v = make_verifier(b"s", Some("svcA"), None);
    let t = sign_token(Algorithm::HS256, b"s", "{}");
    assert!(v.verify_at(&t, NOW).is_ok());
}

#[test]
fn audience_of_other_shape_fails() {
    let v = make_verifier(b"s", Some("svcA"), None);
    let t = sign_token(Algorithm::HS256, b"s", "{\"aud\":5}");
    assert_eq!(v.verify_at(&t, NOW), Err(VerifyError::InvalidAudience));
}

#[test]
fn audience_list_with_non_text_entries_still_matches() {
    let v = make_verifier(b"s", Some("svcA"), None);
    let t = sign_token(Algorithm::HS256, b"s", "{\"aud\":[7,\"svcA\"]}");
    assert!(v.verify_at(&t, NOW).is_ok());
}

#[test]
fn issuer_absent_in_token_passes() {
    let v = make_verifier(b"s", None, Some("idp1"));
    let t = sign_token(Algorithm::HS256, b"s", "{}");
    assert!(v.verify_at(&t, NOW).is_ok());
}

#[test]
fn issuer_mismatch_fails() {
    let v = make_verifier(b"s", None, Some("idp1"));
    let t = sign_token(Algorithm::HS256, b"s", "{\"iss\":\"idp2\"}");
    assert_eq!(v.verify_at(&t, NOW), Err(VerifyError::InvalidIssuer));
}

#[test]
fn issuer_match_succeeds() {
    let v = make_verifier(b"s", None, Some("idp1"));
    let t = sign_token(Algorithm::HS256, b"s", "{\"iss\":\"idp1\"}");
    assert!(v.verify_at(&t, NOW).is_ok());
}

#[test]
fn two_segments_is_malformed() {
    let v = make_verifier(b"s", None, None);
    assert_eq!(v.verify_at("abc.def", NOW), Err(VerifyError::MalformedToken));
}

#[test]
fn empty_token_is_malformed() {
    let v = make_verifier(b"s", None, None);
    assert_eq!(v.verify_at("", NOW), Err(VerifyError::MalformedToken));
}

#[test]
fn four_segments_is_malformed() {
    let v = make_verifier(b"s", None, None);
    assert_eq!(
        v.verify_at("aa.bb.cc.dd", NOW),
        Err(VerifyError::MalformedToken)
    );
}

#[test]
fn empty_segment_is_malformed() {
    let v = make_verifier(b"s", None, None);
    assert_eq!(v.verify_at("aa..cc", NOW), Err(VerifyError::MalformedToken));
    assert_eq!(v.verify_at(".bb.cc", NOW), Err(VerifyError::MalformedToken));
    assert_eq!(v.verify_at("aa.bb.", NOW), Err(VerifyError::MalformedToken));
}

#[test]
fn bad_base64_header_is_malformed() {
    let v = make_verifier(b"s", None, None);
    let t = sign_token(Algorithm::HS256, b"s", "{}");
    let rest = &t[t.find('.').unwrap()..];
    let bad = format!("!!!!{}", rest);
    assert_eq!(v.verify_at(&bad, NOW), Err(VerifyError::MalformedToken));
}

#[test]
fn invalid_json_payload_is_malformed() {
    let v = make_verifier(b"s", None, None);
    let t = sign_token(Algorithm::HS256, b"s", "not json");
    assert_eq!(v.verify_at(&t, NOW), Err(VerifyError::MalformedToken));
}

#[test]
fn unknown_algorithm_is_unsupported() {
    let v = make_verifier(b"s", None, None);
    let header = b64url(b"{\"alg\":\"HS1\"}");
    let payload = b64url(b"{}");
    let t = format!("{}.{}.{}", header, payload, b64url(b"sig"));
    assert_eq!(v.verify_at(&t, NOW), Err(VerifyError::UnsupportedAlgorithm));
}

#[test]
fn missing_algorithm_is_unsupported() {
    let v = make_verifier(b"s", None, None);
    let header = b64url(b"{}");
    let payload = b64url(b"{}");
    let t = format!("{}.{}.{}", header, payload, b64url(b"sig"));
    assert_eq!(v.verify_at(&t, NOW), Err(VerifyError::UnsupportedAlgorithm));
}

#[test]
fn non_text_algorithm_is_unsupported() {
    let v = make_verifier(b"s", None, None);
    let header = b64url(b"{\"alg\":256}");
    let payload = b64url(b"{}");
    let t = format!("{}.{}.{}", header, payload, b64url(b"sig"));
    assert_eq!(v.verify_at(&t, NOW), Err(VerifyError::UnsupportedAlgorithm));
}

#[test]
fn empty_secret_is_a_config_error() {
    assert_eq!(
        JWTVerifier::new(Vec::new(), None, None).err(),
        Some(ConfigError::EmptySecret)
    );
}

#[test]
fn signature_checks_both_raw_segments() {
    // swapping header and payload changes the signed message
    let v = make_verifier(b"s", None, None);
    let t = sign_token(Algorithm::HS256, b"s", "{\"alg\":\"HS256\",\"sub\":\"u1\"}");
    let parts: Vec<&str> = t.split('.').collect();
    let swapped = format!("{}.{}.{}", parts[1], parts[0], parts[2]);
    assert_eq!(v.verify_at(&swapped, NOW), Err(VerifyError::InvalidSignature));
}

#[test]
fn algorithm_mismatch_fails_signature() {
    // signed with HS256 but presented under HS384
    let v = make_verifier(b"s", None, None);
    let payload = b64url(b"{}");
    let header256 = b64url(b"{\"alg\":\"HS256\"}");
    let header384 = b64url(b"{\"alg\":\"HS384\"}");
    let msg = format!("{}.{}", header256, payload);
    let sig = b64url(&hmac_digest(Algorithm::HS256, b"s", msg.as_bytes()));
    let forged = format!("{}.{}.{}", header384, payload, sig);
    assert_eq!(v.verify_at(&forged, NOW), Err(VerifyError::InvalidSignature));
}

#[test]
fn non_canonical_signature_encoding_fails() {
    let v = make_verifier(b"s", None, None);
    let t = sign_token(Algorithm::HS256, b"s", "{}");
    // the digest is 32 bytes, encoded as 43 characters, so the last
    // character carries 2 unused bits that must be zero; set one
    let dot2 = t.rfind('.').unwrap();
    let sig: &str = &t[dot2 + 1..];
    let last = sig.as_bytes()[sig.len() - 1];
    let bumped = bump_b64_char(last);
    let mut tampered = t.as_bytes().to_vec();
    let last_idx = tampered.len() - 1;
    tampered[last_idx] = bumped;
    let tampered = String::from_utf8(tampered).unwrap();
    assert_eq!(v.verify_at(&tampered, NOW), Err(VerifyError::InvalidSignature));
}

/// Returns an alphabet byte whose 6-bit value sets one trailing bit
/// that canonical encodings of 32-byte digests leave at zero.
fn bump_b64_char(c: u8) -> u8 {
    let val = b64_value(c);
    b64_char(val ^ 0x01)
}

fn b64_value(c: u8) -> u8 {
    match c {
        b'A'..=b'Z' => c - b'A',
        b'a'..=b'z' => c - b'a' + 26,
        b'0'..=b'9' => c - b'0' + 52,
        b'-' => 62,
        b'_' => 63,
        _ => panic!("not an alphabet byte"),
    }
}

fn b64_char(v: u8) -> u8 {
    match v {
        0..=25 => b'A' + v,
        26..=51 => b'a' + v - 26,
        52..=61 => b'0' + v - 52,
        62 => b'-',
        63 => b'_',
        _ => panic!("not a 6-bit value"),
    }
}

#[test]
fn non_ascii_payload_segment_is_malformed() {
    let v = make_verifier(b"s", None, None);
    assert_eq!(v.verify_at("aa.b\u{e9}b.cc", NOW), Err(VerifyError::MalformedToken));
}

#[test]
fn decode_roundtrip_direct() {
    let data: &[u8] = b"any bytes at all, of any length";
    for n in 0..data.len() {
        let enc = b64url(&data[..n]);
        let dec = jwt_verifier::base64url::b64url_decode(enc.as_bytes());
        assert_eq!(dec.as_deref(), Some(&data[..n]));
    }
}

#[test]
fn decode_rejects_bad_input_direct() {
    assert_eq!(b64url_decode(b"QQ"), Some(vec![b'A']));
    // non-canonical: the trailing bits of the last character are set
    assert_eq!(b64url_decode(b"QR"), None);
    // impossible length: 1 modulo 4
    assert_eq!(b64url_decode(b"QQQQQ"), None);
    // byte outside the alphabet
    assert_eq!(b64url_decode(b"Q+=="), None);
    assert_eq!(b64url_decode(b""), Some(vec![]));
}

#[test]
fn split_segments_direct() {
    let r = split_segments(b"aa.b.cc").unwrap();
    assert_eq!((r.0.as_slice(), r.1.as_slice(), r.2.as_slice()), (&b"aa"[..], &b"b"[..], &b"cc"[..]));
    assert!(split_segments(b"aa.bb").is_none());
    assert!(split_segments(b"aa.bb.cc.dd").is_none());
    assert!(split_segments(b"..").is_none());
}

#[test]
fn error_messages_name_the_reason() {
    assert_eq!(VerifyError::MalformedToken.message(), "malformed token");
    assert_eq!(VerifyError::UnsupportedAlgorithm.message(), "unsupported algorithm");
    assert_eq!(VerifyError::InvalidSignature.message(), "signature verification failed");
    assert_eq!(VerifyError::TokenExpired.message(), "token expired");
    assert_eq!(VerifyError::InvalidIssuer.message(), "token issuer invalid");
    assert_eq!(VerifyError::InvalidAudience.message(), "token audience invalid");
    assert_eq!(ConfigError::EmptySecret.message(), "secret cannot be empty");
}

#[test]
fn negative_exp_counts_as_expired() {
    let v = make_verifier(b"s", None, None);
    let t = sign_token(Algorithm::HS256, b"s", "{\"exp\":-5}");
    assert_eq!(v.verify_at(&t, 0), Err(VerifyError::TokenExpired));
}

#[test]
fn empty_audience_list_fails_when_audience_expected() {
    let v = make_verifier(b"s", Some("svcA"), None);
    let t = sign_token(Algorithm::HS256, b"s", "{\"aud\":[]}");
    assert_eq!(v.verify_at(&t, NOW), Err(VerifyError::InvalidAudience));
}

#[test]
fn issuer_of_other_shape_is_unconstrained() {
    let v = make_verifier(b"s", None, Some("idp1"));
    let t = sign_token(Algorithm::HS256, b"s", "{\"iss\":42}");
    assert!(v.verify_at(&t, NOW).is_ok());
}
