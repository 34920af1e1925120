use vstd::prelude::*;

use crate::errors::{AppError, AppErrorType};
use crate::identity::{parse_user_id, uuid_of, uuid_str};

verus! {

/// Validity window of an access token, in seconds.
pub const ACCESS_TOKEN_TTL_SECS: u64 = 300;

/// Validity window of a refresh token, in seconds.
pub const REFRESH_TOKEN_TTL_SECS: u64 = 172800;

/// The claims carried by a signed token: the identity it was minted for and
/// the absolute timestamp at which it expires.
#[derive(Clone, Debug)]
pub struct JWTClaim {
    pub exp: u64,
    pub user_id: String,
}

/// The signed token that encodes the claims `(exp, user_id)` under `secret`.
pub uninterp spec fn jwt_of(secret: Seq<u8>, exp: u64, user_id: Seq<char>) -> Seq<char>;

/// The claims recovered from `token` under `secret`: the `(exp, user_id)`
/// pair when the signature is valid and the payload well formed, and
/// nothing otherwise.
pub uninterp spec fn jwt_claims(secret: Seq<u8>, token: Seq<char>) -> Option<(u64, Seq<char>)>;

/// The claims of a decoded token, as the mathematical pair they stand for.
pub open spec fn claims_view(r: Option<JWTClaim>) -> Option<(u64, Seq<char>)> {
    match r {
        Some(c) => Some((c.exp, c.user_id@)),
        None => None,
    }
}

/// Relies on jsonwebtoken::encode with the default header (HS256) and an
/// HMAC secret: the token is a deterministic function of the secret and the
/// claims, the signing path cannot fail, and jsonwebtoken::decode with the
/// same secret recovers exactly the claims that were signed.
#[verifier::external_body]
fn jwt_encode(secret: &Vec<u8>, exp: u64, user_id: &str) -> (r: String)
    ensures
        r@ == jwt_of(secret@, exp, user_id@),
        jwt_claims(secret@, r@) == Some((exp, user_id@)),
{
    let mut claims = serde_json::Map::new();
    claims.insert("exp".to_owned(), serde_json::Value::from(exp));
    claims.insert("user_id".to_owned(), serde_json::Value::from(user_id));
    jsonwebtoken::encode(
        &jsonwebtoken::Header::default(),
        &serde_json::Value::Object(claims),
        &jsonwebtoken::EncodingKey::from_secret(secret),
    )
    .expect("HMAC signing cannot fail")
}

/// Relies on jsonwebtoken::decode restricted to HS256, with expiry
/// validation turned off so that the outcome depends on the token and the
/// secret alone: yields the `exp` and `user_id` claims exactly when the
/// signature is valid and the payload is well formed.
#[verifier::external_body]
fn jwt_decode(secret: &Vec<u8>, token: &str) -> (r: Option<JWTClaim>)
    ensures
        claims_view(r) == jwt_claims(secret@, token@),
{
    let mut validation = jsonwebtoken::Validation::default();
    validation.validate_exp = false;
    let key = jsonwebtoken::DecodingKey::from_secret(secret);
    let data = jsonwebtoken::decode::<serde_json::Value>(token, &key, &validation).ok()?;
    let exp = data.claims.get("exp").and_then(|v| v.as_u64())?;
    let user_id = data.claims.get("user_id").and_then(|v| v.as_str())?;
    Some(JWTClaim { exp, user_id: user_id.to_owned() })
}

/// Why verification of a presented token failed.  The three causes are
/// disjoint and are reported in this priority order: an expired token whose
/// signature still validates reports `Expired`, never `Malformed`.
#[derive(Clone, Copy, Debug, PartialEq, Eq, Structural)]
pub enum TokenError {
    /// The token's expiry timestamp has passed.
    Expired,
    /// The token is garbled or its signature does not validate.
    Malformed,
    /// The claims are signed and fresh, but name no well-formed identity.
    InvalidIdentity,
}

impl TokenError {
    /// The caller-facing auth error for a failed access-token
    /// verification; every cause is an authentication failure with
    /// status 401.
    pub fn to_access_error(&self) -> (r: AppError)
        ensures
            r.status_code == 401,
            r.error_type == AppErrorType::AuthError,
            r.error_code@ == match self {
                TokenError::Expired => "EXPIRED_ACCESS_TOKEN"@,
                TokenError::Malformed => "INVALID_ACCESS_TOKEN"@,
                TokenError::InvalidIdentity => "INVALID_UID_ACCESS_TOKEN"@,
            },
    {
        match self {
            TokenError::Expired => AppError::auth_error(
                401,
                "EXPIRED_ACCESS_TOKEN",
                Some("your access token has expired, please refresh it".to_owned()),
            ),
            TokenError::Malformed => AppError::auth_error(
                401,
                "INVALID_ACCESS_TOKEN",
                Some("cannot decode access token".to_owned()),
            ),
            TokenError::InvalidIdentity => AppError::auth_error(
                401,
                "INVALID_UID_ACCESS_TOKEN",
                Some("invalid user_id in access token".to_owned()),
            ),
        }
    }
}

/// What verifying `token` under `secret` at time `now` returns: the claims
/// are recovered, then expiry is checked (`exp <= now` is expired), then
/// the identity in the claims must parse as a UUID.
pub open spec fn spec_verify_token(secret: Seq<u8>, token: Seq<char>, now: u64) -> Result<
    u128,
    TokenError,
> {
    match jwt_claims(secret, token) {
        None => Err(TokenError::Malformed),
        Some(claim) => if claim.0 <= now {
            Err(TokenError::Expired)
        } else {
            match uuid_of(claim.1) {
                None => Err(TokenError::InvalidIdentity),
                Some(u) => Ok(u),
            }
        },
    }
}

/// The token codec: sole owner of signature and expiry semantics.  It holds
/// the two independent signing secrets, injected at construction.
pub struct TokenCodec {
    access_secret: Vec<u8>,
    refresh_secret: Vec<u8>,
}

impl TokenCodec {
    /// The secret that signs access tokens.
    pub closed spec fn spec_access_secret(&self) -> Seq<u8> {
        self.access_secret@
    }

    /// The secret that signs refresh tokens.
    pub closed spec fn spec_refresh_secret(&self) -> Seq<u8> {
        self.refresh_secret@
    }

    /// The two secrets must be distinct, so that a token of one kind never
    /// carries the signature expected of the other.
    pub open spec fn wf(&self) -> bool {
        self.spec_access_secret() != self.spec_refresh_secret()
    }

    /// Builds a codec from the two signing secrets.
    pub fn new(access_secret: Vec<u8>, refresh_secret: Vec<u8>) -> (r: TokenCodec)
        requires
            access_secret@ != refresh_secret@,
        ensures
            r.wf(),
            r.spec_access_secret() == access_secret@,
            r.spec_refresh_secret() == refresh_secret@,
    {
        TokenCodec { access_secret, refresh_secret }
    }

    /// The access token minted for `user_id` at time `now`.
    pub open spec fn spec_access_token(&self, user_id: u128, now: u64) -> Seq<char> {
        jwt_of(self.spec_access_secret(), (now + ACCESS_TOKEN_TTL_SECS) as u64, uuid_str(user_id))
    }

    /// The refresh token minted for `user_id` at time `now`.
    pub open spec fn spec_refresh_token(&self, user_id: u128, now: u64) -> Seq<char> {
        jwt_of(self.spec_refresh_secret(), (now + REFRESH_TOKEN_TTL_SECS) as u64, uuid_str(user_id))
    }
}

impl JWTClaim {
    /// Mints a signed access token for `user_id`, expiring
    /// `ACCESS_TOKEN_TTL_SECS` after `now`.
    pub fn access_token(codec: &TokenCodec, user_id: u128, now: u64) -> (t: String)
        requires
            now + ACCESS_TOKEN_TTL_SECS <= u64::MAX,
        ensures
            t@ == codec.spec_access_token(user_id, now),
            jwt_claims(codec.spec_access_secret(), t@) == Some(
                ((now + ACCESS_TOKEN_TTL_SECS) as u64, uuid_str(user_id)),
            ),
            uuid_of(uuid_str(user_id)) == Some(user_id),
    {
        let uid = crate::identity::user_id_string(user_id);
        jwt_encode(&codec.access_secret, now + ACCESS_TOKEN_TTL_SECS, uid.as_str())
    }

    /// Mints a signed refresh token for `user_id`, expiring
    /// `REFRESH_TOKEN_TTL_SECS` after `now`.  The token is not yet
    /// registered in any store.
    pub fn mint_refresh_token(codec: &TokenCodec, user_id: u128, now: u64) -> (t: String)
        requires
            now + REFRESH_TOKEN_TTL_SECS <= u64::MAX,
        ensures
            t@ == codec.spec_refresh_token(user_id, now),
            jwt_claims(codec.spec_refresh_secret(), t@) == Some(
                ((now + REFRESH_TOKEN_TTL_SECS) as u64, uuid_str(user_id)),
            ),
            uuid_of(uuid_str(user_id)) == Some(user_id),
    {
        let uid = crate::identity::user_id_string(user_id);
        jwt_encode(&codec.refresh_secret, now + REFRESH_TOKEN_TTL_SECS, uid.as_str())
    }

    /// Verifies an access token and returns the user identity it names.
    pub fn verify_access_token(codec: &TokenCodec, at: &str, now: u64) -> (r: Result<
        u128,
        TokenError,
    >)
        ensures
            r == spec_verify_token(codec.spec_access_secret(), at@, now),
    {
        verify_token(&codec.access_secret, at, now)
    }

    /// Verifies a refresh token and returns the user identity it names.
    pub fn verify_refresh_token(codec: &TokenCodec, rt: &str, now: u64) -> (r: Result<
        u128,
        TokenError,
    >)
        ensures
            r == spec_verify_token(codec.spec_refresh_secret(), rt@, now),
    {
        verify_token(&codec.refresh_secret, rt, now)
    }
}

/// Shared verification path: recover the claims, check expiry, then check
/// that the identity in the claims is well formed.
fn verify_token(secret: &Vec<u8>, token: &str, now: u64) -> (r: Result<u128, TokenError>)
    ensures
        r == spec_verify_token(secret@, token@, now),
{
    match jwt_decode(secret, token) {
        None => Err(TokenError::Malformed),
        Some(claim) => {
            if claim.exp <= now {
                Err(TokenError::Expired)
            } else {
                match parse_user_id(claim.user_id.as_str()) {
                    None => Err(TokenError::InvalidIdentity),
                    Some(u) => Ok(u),
                }
            }
        },
    }
}

} // verus!
