use vstd::prelude::*;

use crate::codec::{
    spec_verify_token, TokenCodec, TokenError, jwt_claims, ACCESS_TOKEN_TTL_SECS,
    REFRESH_TOKEN_TTL_SECS,
};
use crate::identity::{uuid_of, uuid_str};
use crate::lifecycle::{spec_rotate_result, spec_rotate_store, RotateError};

verus! {

/// Issue–verify agreement: an access token minted for `user_id` at time
/// `now1` verifies back to exactly `user_id` at any time `now2` at which
/// fewer than `ACCESS_TOKEN_TTL_SECS` seconds have elapsed.
///
/// The hypotheses of the implication are what the minting functions'
/// contracts state of every token they return: decoding under the same
/// secret recovers the signed claims, and the canonical identity text
/// parses back to the identity it was printed from.
pub proof fn lemma_issue_then_verify_access(
    codec: &TokenCodec,
    user_id: u128,
    now1: u64,
    now2: u64,
)
    requires
        now1 + ACCESS_TOKEN_TTL_SECS <= u64::MAX,
        now2 < now1 + ACCESS_TOKEN_TTL_SECS,
    ensures
        (jwt_claims(codec.spec_access_secret(), codec.spec_access_token(user_id, now1)) == Some(
            ((now1 + ACCESS_TOKEN_TTL_SECS) as u64, uuid_str(user_id)),
        ) && uuid_of(uuid_str(user_id)) == Some(user_id)) ==> spec_verify_token(
            codec.spec_access_secret(),
            codec.spec_access_token(user_id, now1),
            now2,
        ) == Result::<u128, TokenError>::Ok(user_id),
{
}

/// Expiry dominance: once `ACCESS_TOKEN_TTL_SECS` seconds have elapsed, a
/// minted access token is reported as `Expired` — never as `Malformed` —
/// because its signature still validates and the expiry check comes
/// before every other rejection.
pub proof fn lemma_access_expired_never_malformed(
    codec: &TokenCodec,
    user_id: u128,
    now1: u64,
    now2: u64,
)
    requires
        now1 + ACCESS_TOKEN_TTL_SECS <= u64::MAX,
        now2 >= now1 + ACCESS_TOKEN_TTL_SECS,
    ensures
        jwt_claims(codec.spec_access_secret(), codec.spec_access_token(user_id, now1)) == Some(
            ((now1 + ACCESS_TOKEN_TTL_SECS) as u64, uuid_str(user_id)),
        ) ==> spec_verify_token(
            codec.spec_access_secret(),
            codec.spec_access_token(user_id, now1),
            now2,
        ) == Result::<u128, TokenError>::Err(TokenError::Expired),
{
}

/// Kind separation: a token signed under one secret is rejected as
/// malformed when verified under the other kind's secret, whatever its
/// claims and whatever the time.
///
/// The hypotheses say that the token's signature does not validate under
/// the other secret; with two distinct HMAC secrets this fails only on a
/// signature collision, which the codec's trusted base cannot rule out,
/// so it is carried as a hypothesis rather than asserted of the crypto.
pub proof fn lemma_cross_kind_rejected(codec: &TokenCodec, user_id: u128, now1: u64, now2: u64)
    ensures
        jwt_claims(codec.spec_refresh_secret(), codec.spec_access_token(user_id, now1)) == None::<
            (u64, Seq<char>),
        > ==> spec_verify_token(
            codec.spec_refresh_secret(),
            codec.spec_access_token(user_id, now1),
            now2,
        ) == Result::<u128, TokenError>::Err(TokenError::Malformed),
        jwt_claims(codec.spec_access_secret(), codec.spec_refresh_token(user_id, now1)) == None::<
            (u64, Seq<char>),
        > ==> spec_verify_token(
            codec.spec_access_secret(),
            codec.spec_refresh_token(user_id, now1),
            now2,
        ) == Result::<u128, TokenError>::Err(TokenError::Malformed),
{
}

/// A rotation mints a refresh token that differs from the presented one
/// whenever their expiry stamps differ: the claims recovered from the two
/// tokens differ, so the token texts must too.
pub proof fn lemma_fresh_refresh_token_differs(
    codec: &TokenCodec,
    user_id: u128,
    now1: u64,
    exp: u64,
    utext: Seq<char>,
    old_tok: Seq<char>,
)
    requires
        now1 + REFRESH_TOKEN_TTL_SECS <= u64::MAX,
    ensures
        (jwt_claims(codec.spec_refresh_secret(), old_tok) == Some((exp, utext)) && jwt_claims(
            codec.spec_refresh_secret(),
            codec.spec_refresh_token(user_id, now1),
        ) == Some(((now1 + REFRESH_TOKEN_TTL_SECS) as u64, uuid_str(user_id))) && exp != (now1
            + REFRESH_TOKEN_TTL_SECS) as u64) ==> codec.spec_refresh_token(user_id, now1)
            != old_tok,
{
}

/// Single-use rotation (idempotence of rejection): when a rotation with
/// `old_tok` succeeds and registers a fresh refresh token different from
/// `old_tok`, presenting `old_tok` a second time — still signed, still
/// unexpired — is rejected as cycled, and the replay leaves the store
/// unchanged.
///
/// The hypotheses spell out the success of the first rotation (the token
/// decodes to an unexpired claim naming a registered identity whose
/// registration is exactly `old_tok`) and that the fresh token differs
/// from the old one; `lemma_fresh_refresh_token_differs` discharges the
/// latter whenever the expiry stamps differ.
pub proof fn lemma_rotate_replay_cycled(
    codec: &TokenCodec,
    store: Map<u128, Seq<char>>,
    old_tok: Seq<char>,
    now1: u64,
    now2: u64,
    exp: u64,
    utext: Seq<char>,
    user_id: u128,
)
    ensures
        ({
            &&& jwt_claims(codec.spec_refresh_secret(), old_tok) == Some((exp, utext))
            &&& exp > now1
            &&& exp > now2
            &&& uuid_of(utext) == Some(user_id)
            &&& store.contains_key(user_id)
            &&& store[user_id] == old_tok
            &&& codec.spec_refresh_token(user_id, now1) != old_tok
        }) ==> {
            let store1 = spec_rotate_store(codec, store, old_tok, now1);
            &&& spec_rotate_result(codec, store, old_tok, now1) == Result::<
                (Seq<char>, Seq<char>),
                RotateError,
            >::Ok(
                (
                    codec.spec_access_token(user_id, now1),
                    codec.spec_refresh_token(user_id, now1),
                ),
            )
            &&& store1 == store.insert(user_id, codec.spec_refresh_token(user_id, now1))
            &&& spec_rotate_result(codec, store1, old_tok, now2) == Result::<
                (Seq<char>, Seq<char>),
                RotateError,
            >::Err(RotateError::RefreshTokenCycled)
            &&& spec_rotate_store(codec, store1, old_tok, now2) == store1
        },
{
}

/// A refresh token for an identity that never completed a login is
/// rejected with `NoRefreshToken` — not with `RefreshTokenCycled` — and
/// the store is untouched: absence of a registration is distinguished
/// from a superseded one.
pub proof fn lemma_rotate_without_registration(
    codec: &TokenCodec,
    store: Map<u128, Seq<char>>,
    old_tok: Seq<char>,
    now: u64,
    exp: u64,
    utext: Seq<char>,
    user_id: u128,
)
    ensures
        ({
            &&& jwt_claims(codec.spec_refresh_secret(), old_tok) == Some((exp, utext))
            &&& exp > now
            &&& uuid_of(utext) == Some(user_id)
            &&& !store.contains_key(user_id)
        }) ==> spec_rotate_result(codec, store, old_tok, now) == Result::<
            (Seq<char>, Seq<char>),
            RotateError,
        >::Err(RotateError::NoRefreshToken) && spec_rotate_store(codec, store, old_tok, now)
            == store,
{
}

/// Rotation race: two rotations that present the same currently valid
/// refresh token are serialized by exclusive access to the store, and
/// whichever runs first succeeds while the other is rejected as cycled —
/// exactly one succeeds, never both and never neither.  The statement is
/// the same-timestamp instance of `lemma_rotate_replay_cycled`; since the
/// two calls are symmetric, it covers both orders.
pub proof fn lemma_rotate_race_exactly_one(
    codec: &TokenCodec,
    store: Map<u128, Seq<char>>,
    old_tok: Seq<char>,
    now: u64,
    exp: u64,
    utext: Seq<char>,
    user_id: u128,
)
    ensures
        ({
            &&& jwt_claims(codec.spec_refresh_secret(), old_tok) == Some((exp, utext))
            &&& exp > now
            &&& uuid_of(utext) == Some(user_id)
            &&& store.contains_key(user_id)
            &&& store[user_id] == old_tok
            &&& codec.spec_refresh_token(user_id, now) != old_tok
        }) ==> {
            let store1 = spec_rotate_store(codec, store, old_tok, now);
            &&& spec_rotate_result(codec, store, old_tok, now) is Ok
            &&& spec_rotate_result(codec, store1, old_tok, now) == Result::<
                (Seq<char>, Seq<char>),
                RotateError,
            >::Err(RotateError::RefreshTokenCycled)
        },
{
    lemma_rotate_replay_cycled(codec, store, old_tok, now, now, exp, utext, user_id);
}

} // verus!
