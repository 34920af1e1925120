use vstd::prelude::*;

use crate::codec::{
    spec_verify_token, JWTClaim, TokenCodec, TokenError, jwt_claims, ACCESS_TOKEN_TTL_SECS,
    REFRESH_TOKEN_TTL_SECS,
};
use crate::errors::{AppError, AppErrorType};
use crate::identity::{uuid_of, uuid_str};
use crate::store::RefreshTokenStore;

verus! {

/// Why a rotation request was rejected.  Each cause is distinct, so a
/// caller can tell a stale token (re-authenticate) from a replayed one.
#[derive(Clone, Copy, Debug, PartialEq, Eq, Structural)]
pub enum RotateError {
    /// The presented refresh token has passed its expiry.
    ExpiredRefreshToken,
    /// The presented refresh token is garbled or carries a bad signature.
    InvalidRefreshToken,
    /// The refresh token is valid but names no well-formed identity.
    InvalidUidInRefreshToken,
    /// The named user has no refresh token on record.
    NoRefreshToken,
    /// The presented token was superseded by a later rotation: a replay.
    RefreshTokenCycled,
}

/// A successfully decoded rotation result, as the pair of token texts
/// `(access, refresh)` it stands for.
pub open spec fn rotate_pair_view(r: Result<(String, String), RotateError>) -> Result<
    (Seq<char>, Seq<char>),
    RotateError,
> {
    match r {
        Ok(p) => Ok((p.0@, p.1@)),
        Err(e) => Err(e),
    }
}

/// What rotating `old_tok` against `store` at time `now` returns: the
/// token is cryptographically verified, the store must hold a registration
/// for the user it names, the registration must be exactly the presented
/// token, and only then is a fresh pair minted.
pub open spec fn spec_rotate_result(
    codec: &TokenCodec,
    store: Map<u128, Seq<char>>,
    old_tok: Seq<char>,
    now: u64,
) -> Result<(Seq<char>, Seq<char>), RotateError> {
    match spec_verify_token(codec.spec_refresh_secret(), old_tok, now) {
        Err(TokenError::Expired) => Err(RotateError::ExpiredRefreshToken),
        Err(TokenError::Malformed) => Err(RotateError::InvalidRefreshToken),
        Err(TokenError::InvalidIdentity) => Err(RotateError::InvalidUidInRefreshToken),
        Ok(uid) => if !store.contains_key(uid) {
            Err(RotateError::NoRefreshToken)
        } else if store[uid] != old_tok {
            Err(RotateError::RefreshTokenCycled)
        } else {
            Ok((codec.spec_access_token(uid, now), codec.spec_refresh_token(uid, now)))
        },
    }
}

/// How rotating `old_tok` changes `store`: on success the user's
/// registration is overwritten with the fresh refresh token; any rejection
/// leaves the store untouched.
pub open spec fn spec_rotate_store(
    codec: &TokenCodec,
    store: Map<u128, Seq<char>>,
    old_tok: Seq<char>,
    now: u64,
) -> Map<u128, Seq<char>> {
    match spec_verify_token(codec.spec_refresh_secret(), old_tok, now) {
        Ok(uid) => if store.contains_key(uid) && store[uid] == old_tok {
            store.insert(uid, codec.spec_refresh_token(uid, now))
        } else {
            store
        },
        Err(_) => store,
    }
}

impl JWTClaim {
    /// Mints a refresh token for `user_id` and registers it, invalidating
    /// any previously registered token for that user.
    pub fn refresh_token(
        codec: &TokenCodec,
        store: &mut RefreshTokenStore,
        user_id: u128,
        now: u64,
    ) -> (t: String)
        requires
            now + REFRESH_TOKEN_TTL_SECS <= u64::MAX,
        ensures
            t@ == codec.spec_refresh_token(user_id, now),
            final(store)@ == old(store)@.insert(user_id, t@),
            jwt_claims(codec.spec_refresh_secret(), t@) == Some(
                ((now + REFRESH_TOKEN_TTL_SECS) as u64, uuid_str(user_id)),
            ),
            uuid_of(uuid_str(user_id)) == Some(user_id),
    {
        let t = JWTClaim::mint_refresh_token(codec, user_id, now);
        store.put(user_id, t.clone());
        t
    }
}

/// The pair issued on login or register, once the caller has verified the
/// user's credentials: one access token and one refresh token, the latter
/// registered as the user's only valid one.
pub fn issue_token_pair(
    codec: &TokenCodec,
    store: &mut RefreshTokenStore,
    user_id: u128,
    now: u64,
) -> (r: (String, String))
    requires
        now + REFRESH_TOKEN_TTL_SECS <= u64::MAX,
    ensures
        r.0@ == codec.spec_access_token(user_id, now),
        r.1@ == codec.spec_refresh_token(user_id, now),
        final(store)@ == old(store)@.insert(user_id, r.1@),
        jwt_claims(codec.spec_access_secret(), r.0@) == Some(
            ((now + ACCESS_TOKEN_TTL_SECS) as u64, uuid_str(user_id)),
        ),
        jwt_claims(codec.spec_refresh_secret(), r.1@) == Some(
            ((now + REFRESH_TOKEN_TTL_SECS) as u64, uuid_str(user_id)),
        ),
        uuid_of(uuid_str(user_id)) == Some(user_id),
{
    let access = JWTClaim::access_token(codec, user_id, now);
    let refresh = JWTClaim::refresh_token(codec, store, user_id, now);
    (access, refresh)
}

impl RefreshTokenStore {
    /// Rotation: exchanges the currently valid refresh token for a fresh
    /// access/refresh pair, invalidating the presented token.  The caller
    /// must hold this store exclusively for the whole call, which makes
    /// the verify–lookup–compare–swap sequence atomic per store.
    pub fn refresh_tokens(&mut self, codec: &TokenCodec, old_reftok: String, now: u64) -> (r:
        Result<(String, String), RotateError>)
        requires
            now + REFRESH_TOKEN_TTL_SECS <= u64::MAX,
        ensures
            rotate_pair_view(r) == spec_rotate_result(codec, old(self)@, old_reftok@, now),
            final(self)@ == spec_rotate_store(codec, old(self)@, old_reftok@, now),
    {
        let uid = match JWTClaim::verify_refresh_token(codec, old_reftok.as_str(), now) {
            Err(TokenError::Expired) => return Err(RotateError::ExpiredRefreshToken),
            Err(TokenError::Malformed) => return Err(RotateError::InvalidRefreshToken),
            Err(TokenError::InvalidIdentity) => return Err(RotateError::InvalidUidInRefreshToken),
            Ok(u) => u,
        };
        let curr = match self.get(uid) {
            None => return Err(RotateError::NoRefreshToken),
            Some(c) => c,
        };
        if curr == old_reftok {
            let new_acctok = JWTClaim::access_token(codec, uid, now);
            let new_reftok = JWTClaim::mint_refresh_token(codec, uid, now);
            // Exclusive access since the lookup means the registration is
            // still `curr`, so the swap always takes effect here.
            let _swapped = self.compare_and_set(uid, &curr, new_reftok.clone());
            Ok((new_acctok, new_reftok))
        } else {
            Err(RotateError::RefreshTokenCycled)
        }
    }
}

impl RotateError {
    /// The caller-facing auth error for a rejected rotation; every cause
    /// is an authentication failure with status 401.
    pub fn to_app_error(&self) -> (r: AppError)
        ensures
            r.status_code == 401,
            r.error_type == AppErrorType::AuthError,
            r.error_code@ == match self {
                RotateError::ExpiredRefreshToken => "EXPIRED_REFRESH_TOKEN"@,
                RotateError::InvalidRefreshToken => "INVALID_REFRESH_TOKEN"@,
                RotateError::InvalidUidInRefreshToken => "INVALID_UID_REFRESH_TOKEN"@,
                RotateError::NoRefreshToken => "NO_REFRESH_TOKEN"@,
                RotateError::RefreshTokenCycled => "REFRESH_TOKEN_CYCLED"@,
            },
    {
        match self {
            RotateError::ExpiredRefreshToken => AppError::auth_error(
                401,
                "EXPIRED_REFRESH_TOKEN",
                Some("your refresh token has expired, please login again".to_owned()),
            ),
            RotateError::InvalidRefreshToken => AppError::auth_error(
                401,
                "INVALID_REFRESH_TOKEN",
                Some("cannot decode refresh token".to_owned()),
            ),
            RotateError::InvalidUidInRefreshToken => AppError::auth_error(
                401,
                "INVALID_UID_REFRESH_TOKEN",
                Some("invalid user_id in refresh token".to_owned()),
            ),
            RotateError::NoRefreshToken => AppError::auth_error(
                401,
                "NO_REFRESH_TOKEN",
                Some("you have an invalid refresh token".to_owned()),
            ),
            RotateError::RefreshTokenCycled => AppError::auth_error(
                401,
                "REFRESH_TOKEN_CYCLED",
                Some("your refresh token has been cycled".to_owned()),
            ),
        }
    }
}

} // verus!
