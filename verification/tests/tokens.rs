use token_rotation::codec::{JWTClaim, TokenCodec, TokenError};

const NOW: u64 = 1_700_000_000;
const UID: u128 = 0x0123_4567_89ab_cdef_0123_4567_89ab_cdef;

fn codec() -> TokenCodec {
    TokenCodec::new(b"access-secret".to_vec(), b"refresh-secret".to_vec())
}

fn forge_token(secret: &[u8], exp: u64, user_id: &str) -> String {
    let mut claims = serde_json::Map::new();
    claims.insert("exp".to_string(), serde_json::Value::from(exp));
    claims.insert("user_id".to_string(), serde_json::Value::from(user_id));
    jsonwebtoken::encode(
        &jsonwebtoken::Header::default(),
        &serde_json::Value::Object(claims),
        &jsonwebtoken::EncodingKey::from_secret(secret),
    )
    .unwrap()
}

#[test]
fn issue_then_verify_returns_same_user() {
    let codec = codec();
    let at = JWTClaim::access_token(&codec, UID, NOW);
    assert_eq!(JWTClaim::verify_access_token(&codec, &at, NOW), Ok(UID));
    assert_eq!(JWTClaim::verify_access_token(&codec, &at, NOW + 299), Ok(UID));
}

#[test]
fn issued_token_is_not_the_identity_text() {
    let codec = codec();
    let at = JWTClaim::access_token(&codec, UID, NOW);
    assert_ne!(at, uuid::Uuid::from_u128(UID).to_string());
    assert_eq!(at.matches('.').count(), 2);
}

#[test]
fn access_token_expires_at_exactly_ttl() {
    let codec = codec();
    let at = JWTClaim::access_token(&codec, UID, NOW);
    assert_eq!(
        JWTClaim::verify_access_token(&codec, &at, NOW + 300),
        Err(TokenError::Expired)
    );
    assert_eq!(
        JWTClaim::verify_access_token(&codec, &at, NOW + 301),
        Err(TokenError::Expired)
    );
}

#[test]
fn access_token_carries_exact_expiry_claim() {
    let codec = codec();
    let at = JWTClaim::access_token(&codec, UID, NOW);
    let mut validation = jsonwebtoken::Validation::default();
    validation.validate_exp = false;
    let data = jsonwebtoken::decode::<serde_json::Value>(
        &at,
        &jsonwebtoken::DecodingKey::from_secret(b"access-secret"),
        &validation,
    )
    .unwrap();
    assert_eq!(data.claims.get("exp").and_then(|v| v.as_u64()), Some(NOW + 300));
    assert_eq!(
        data.claims.get("user_id").and_then(|v| v.as_str()),
        Some(uuid::Uuid::from_u128(UID).to_string().as_str())
    );
}

#[test]
fn refresh_token_carries_exact_expiry_claim() {
    let codec = codec();
    let rt = JWTClaim::mint_refresh_token(&codec, UID, NOW);
    let mut validation = jsonwebtoken::Validation::default();
    validation.validate_exp = false;
    let data = jsonwebtoken::decode::<serde_json::Value>(
        &rt,
        &jsonwebtoken::DecodingKey::from_secret(b"refresh-secret"),
        &validation,
    )
    .unwrap();
    assert_eq!(data.claims.get("exp").and_then(|v| v.as_u64()), Some(NOW + 172_800));
}

#[test]
fn access_token_never_verifies_as_refresh() {
    let codec = codec();
    let at = JWTClaim::access_token(&codec, UID, NOW);
    assert_eq!(
        JWTClaim::verify_refresh_token(&codec, &at, NOW),
        Err(TokenError::Malformed)
    );
}

#[test]
fn refresh_token_never_verifies_as_access() {
    let codec = codec();
    let rt = JWTClaim::mint_refresh_token(&codec, UID, NOW);
    assert_eq!(
        JWTClaim::verify_access_token(&codec, &rt, NOW),
        Err(TokenError::Malformed)
    );
}

#[test]
fn garbage_token_is_malformed() {
    let codec = codec();
    assert_eq!(
        JWTClaim::verify_access_token(&codec, "not.a.token", NOW),
        Err(TokenError::Malformed)
    );
    assert_eq!(
        JWTClaim::verify_access_token(&codec, "", NOW),
        Err(TokenError::Malformed)
    );
}

#[test]
fn tampered_token_is_malformed() {
    let codec = codec();
    let mut at = JWTClaim::access_token(&codec, UID, NOW);
    at.pop();
    at.push('x');
    assert_eq!(
        JWTClaim::verify_access_token(&codec, &at, NOW),
        Err(TokenError::Malformed)
    );
}

#[test]
fn ill_formed_identity_in_claims_is_rejected() {
    let codec = codec();
    let tok = forge_token(b"access-secret", NOW + 300, "not-a-uuid");
    assert_eq!(
        JWTClaim::verify_access_token(&codec, &tok, NOW),
        Err(TokenError::InvalidIdentity)
    );
}

#[test]
fn expiry_outranks_identity_check() {
    let codec = codec();
    let tok = forge_token(b"access-secret", NOW, "not-a-uuid");
    assert_eq!(
        JWTClaim::verify_access_token(&codec, &tok, NOW),
        Err(TokenError::Expired)
    );
}

#[test]
fn token_without_identity_claim_is_malformed() {
    let codec = codec();
    let mut claims = serde_json::Map::new();
    claims.insert("exp".to_string(), serde_json::Value::from(NOW + 300));
    let tok = jsonwebtoken::encode(
        &jsonwebtoken::Header::default(),
        &serde_json::Value::Object(claims),
        &jsonwebtoken::EncodingKey::from_secret(b"access-secret"),
    )
    .unwrap();
    assert_eq!(
        JWTClaim::verify_access_token(&codec, &tok, NOW),
        Err(TokenError::Malformed)
    );
}

#[test]
fn authorization_header_round_trip() {
    let codec = codec();
    let at = JWTClaim::access_token(&codec, UID, NOW);
    let header = format!("Bearer {}", at);
    let extracted = token_rotation::auth::bearer_token(&header);
    assert_eq!(extracted, at);
    assert_eq!(JWTClaim::verify_access_token(&codec, &extracted, NOW), Ok(UID));
}

#[test]
fn error_mapping_for_access_verification() {
    let e = TokenError::Expired.to_access_error();
    assert_eq!(e.status_code, 401);
    assert_eq!(e.error_code, "EXPIRED_ACCESS_TOKEN");
    let m = TokenError::Malformed.to_access_error();
    assert_eq!(m.status_code, 401);
    assert_eq!(m.error_code, "INVALID_ACCESS_TOKEN");
    let i = TokenError::InvalidIdentity.to_access_error();
    assert_eq!(i.status_code, 401);
    assert_eq!(i.error_code, "INVALID_UID_ACCESS_TOKEN");
}
