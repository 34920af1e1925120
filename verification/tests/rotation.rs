use token_rotation::codec::{JWTClaim, TokenCodec};
use token_rotation::lifecycle::{issue_token_pair, RotateError};
use token_rotation::store::RefreshTokenStore;

const NOW: u64 = 1_700_000_000;
const ALICE: u128 = 0x00aa_bbcc_ddee_ff00_1122_3344_5566_7788;
const NOBODY: u128 = 0x0f0f_0f0f_0f0f_0f0f_0f0f_0f0f_0f0f_0f0f;

fn codec() -> TokenCodec {
    TokenCodec::new(b"access-secret".to_vec(), b"refresh-secret".to_vec())
}

#[test]
fn rotation_returns_fresh_pair_and_cycles_store() {
    let codec = codec();
    let mut store = RefreshTokenStore::new();
    let (_, refresh_a) = issue_token_pair(&codec, &mut store, ALICE, NOW);
    assert_eq!(store.get(ALICE), Some(refresh_a.clone()));

    let rotated = store.refresh_tokens(&codec, refresh_a.clone(), NOW + 1).unwrap();
    assert_ne!(rotated.1, refresh_a);
    assert_eq!(store.get(ALICE), Some(rotated.1.clone()));
}

#[test]
fn replayed_refresh_token_is_cycled() {
    let codec = codec();
    let mut store = RefreshTokenStore::new();
    let (_, refresh_a) = issue_token_pair(&codec, &mut store, ALICE, NOW);

    let first = store.refresh_tokens(&codec, refresh_a.clone(), NOW + 1);
    assert!(first.is_ok());
    let second = store.refresh_tokens(&codec, refresh_a.clone(), NOW + 2);
    assert_eq!(second, Err(RotateError::RefreshTokenCycled));
}

#[test]
fn racing_rotations_let_exactly_one_win() {
    let codec = codec();
    let mut store = RefreshTokenStore::new();
    let (_, refresh_a) = issue_token_pair(&codec, &mut store, ALICE, NOW);

    // Two handlers present the same token; exclusive access to the store
    // serializes them, and both run at the same timestamp.
    let first = store.refresh_tokens(&codec, refresh_a.clone(), NOW + 1);
    let second = store.refresh_tokens(&codec, refresh_a.clone(), NOW + 1);
    assert!(first.is_ok());
    assert_eq!(second, Err(RotateError::RefreshTokenCycled));
}

#[test]
fn rotation_for_unknown_user_reports_no_token() {
    let codec = codec();
    let mut store = RefreshTokenStore::new();
    let unregistered = JWTClaim::mint_refresh_token(&codec, NOBODY, NOW);
    assert_eq!(
        store.refresh_tokens(&codec, unregistered, NOW + 1),
        Err(RotateError::NoRefreshToken)
    );
}

#[test]
fn expired_refresh_token_is_rejected_as_expired() {
    let codec = codec();
    let mut store = RefreshTokenStore::new();
    let (_, refresh_a) = issue_token_pair(&codec, &mut store, ALICE, NOW);
    assert_eq!(
        store.refresh_tokens(&codec, refresh_a, NOW + 172_800),
        Err(RotateError::ExpiredRefreshToken)
    );
}

#[test]
fn garbage_refresh_token_is_rejected_as_invalid() {
    let codec = codec();
    let mut store = RefreshTokenStore::new();
    assert_eq!(
        store.refresh_tokens(&codec, "garbage".to_string(), NOW),
        Err(RotateError::InvalidRefreshToken)
    );
}

#[test]
fn refresh_token_with_bad_identity_is_rejected() {
    let codec = codec();
    let mut store = RefreshTokenStore::new();
    let mut claims = serde_json::Map::new();
    claims.insert("exp".to_string(), serde_json::Value::from(NOW + 172_800));
    claims.insert("user_id".to_string(), serde_json::Value::from("alice"));
    let tok = jsonwebtoken::encode(
        &jsonwebtoken::Header::default(),
        &serde_json::Value::Object(claims),
        &jsonwebtoken::EncodingKey::from_secret(b"refresh-secret"),
    )
    .unwrap();
    assert_eq!(
        store.refresh_tokens(&codec, tok, NOW),
        Err(RotateError::InvalidUidInRefreshToken)
    );
}

#[test]
fn rejected_rotation_leaves_store_unchanged() {
    let codec = codec();
    let mut store = RefreshTokenStore::new();
    let (_, refresh_a) = issue_token_pair(&codec, &mut store, ALICE, NOW);
    let _ = store.refresh_tokens(&codec, "garbage".to_string(), NOW + 1);
    assert_eq!(store.get(ALICE), Some(refresh_a));
}

#[test]
fn issuing_again_invalidates_previous_refresh_token() {
    let codec = codec();
    let mut store = RefreshTokenStore::new();
    let (_, refresh_a) = issue_token_pair(&codec, &mut store, ALICE, NOW);
    let (_, refresh_b) = issue_token_pair(&codec, &mut store, ALICE, NOW + 1);
    assert_eq!(store.get(ALICE), Some(refresh_b));
    assert_eq!(
        store.refresh_tokens(&codec, refresh_a, NOW + 2),
        Err(RotateError::RefreshTokenCycled)
    );
}

#[test]
fn end_to_end_register_verify_rotate_replay() {
    let codec = codec();
    let mut store = RefreshTokenStore::new();

    // Register "alice": credentials are checked by the user store; the
    // token layer sees only her identity.
    let (access_a, refresh_a) = issue_token_pair(&codec, &mut store, ALICE, NOW);

    // An authenticated request with the fresh access token names alice.
    assert_eq!(JWTClaim::verify_access_token(&codec, &access_a, NOW + 1), Ok(ALICE));

    // Rotation hands back a fresh pair.
    let (access_b, refresh_b) = store
        .refresh_tokens(&codec, refresh_a.clone(), NOW + 2)
        .unwrap();
    assert_ne!(access_b, access_a);

    // Replaying the superseded refresh token fails.
    assert_eq!(
        store.refresh_tokens(&codec, refresh_a, NOW + 3),
        Err(RotateError::RefreshTokenCycled)
    );

    // The fresh refresh token rotates fine.
    let (access_c, refresh_c) = store
        .refresh_tokens(&codec, refresh_b, NOW + 4)
        .unwrap();
    assert_eq!(JWTClaim::verify_access_token(&codec, &access_c, NOW + 5), Ok(ALICE));
    assert!(!refresh_c.is_empty());
}

#[test]
fn rotation_error_mapping() {
    let e = RotateError::ExpiredRefreshToken.to_app_error();
    assert_eq!((e.status_code, e.error_code.as_str()), (401, "EXPIRED_REFRESH_TOKEN"));
    let e = RotateError::InvalidRefreshToken.to_app_error();
    assert_eq!((e.status_code, e.error_code.as_str()), (401, "INVALID_REFRESH_TOKEN"));
    let e = RotateError::InvalidUidInRefreshToken.to_app_error();
    assert_eq!((e.status_code, e.error_code.as_str()), (401, "INVALID_UID_REFRESH_TOKEN"));
    let e = RotateError::NoRefreshToken.to_app_error();
    assert_eq!((e.status_code, e.error_code.as_str()), (401, "NO_REFRESH_TOKEN"));
    let e = RotateError::RefreshTokenCycled.to_app_error();
    assert_eq!((e.status_code, e.error_code.as_str()), (401, "REFRESH_TOKEN_CYCLED"));
}
