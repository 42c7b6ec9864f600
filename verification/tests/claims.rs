//! Claim decoding and login payload construction.

use authd::client::{login_claim, login_request_body, AuthenticationToken, LOGIN_CLAIM_VALIDITY_SECS};
use authd::error::Error;

/// Header segment of every hand-built token: `{"alg":"HS256","typ":"JWT"}`.
const HEADER: &str = "eyJhbGciOiJIUzI1NiIsInR5cCI6IkpXVCJ9";

fn token_with_payload(payload: &str, signature: &str) -> AuthenticationToken {
    AuthenticationToken { token: format!("{}.{}.{}", HEADER, payload, signature) }
}

#[test]
fn decode_valid_claim() {
    // payload {"exp":1000}
    let token = token_with_payload("eyJleHAiOjEwMDB9", "sig");
    let claim = token.claim().unwrap();
    assert_eq!(claim.exp, 1000);
}

#[test]
fn decode_round_trip_with_real_encoder() {
    let mut claims = serde_json::Map::new();
    claims.insert("exp".to_string(), serde_json::Value::from(1700000060i64));
    claims.insert("sub".to_string(), serde_json::Value::from("someone"));
    let signed = jsonwebtoken::encode(
        &jsonwebtoken::Header::default(),
        &serde_json::Value::Object(claims),
        &jsonwebtoken::EncodingKey::from_secret(b"test-secret"),
    )
    .unwrap();
    let token = AuthenticationToken { token: signed };
    let claim = token.claim().unwrap();
    assert_eq!(claim.exp, 1700000060);
}

#[test]
fn decode_malformed_token_fails() {
    let token = AuthenticationToken { token: "not-a-token".to_string() };
    let err = token.claim().unwrap_err();
    assert!(matches!(err, Error::Jwt(_)));
    assert_eq!(err.category(), "JWT generation error");
}

#[test]
fn decode_missing_exp_fails() {
    // payload {"sub":"x"}
    let token = token_with_payload("eyJzdWIiOiJ4In0", "sig");
    assert!(matches!(token.claim(), Err(Error::Jwt(_))));
}

#[test]
fn decode_non_numeric_exp_fails() {
    // payload {"exp":"soon"}
    let token = token_with_payload("eyJleHAiOiJzb29uIn0", "sig");
    assert!(matches!(token.claim(), Err(Error::Jwt(_))));
}

#[test]
fn login_claim_fields() {
    let claim = login_claim(5000);
    assert_eq!(claim.uid, "strict-usi");
    assert_eq!(claim.exp, 5000 + LOGIN_CLAIM_VALIDITY_SECS);
}

#[test]
fn login_request_body_pairs_uid_and_token() {
    let claim = login_claim(0);
    let body = login_request_body(&claim, "signed.jwt.assertion".to_string());
    assert_eq!(body.uid, "strict-usi");
    assert_eq!(body.token, "signed.jwt.assertion");
}
