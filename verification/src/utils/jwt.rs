//! The claims of a signed-in user's token. The token itself is signed and
//! checked with the server's secret outside this library.

use crate::errors::{answer, PersErrors, INTERNAL_SERVER_ERROR, UNAUTHORIZED};
use crate::models::user::UserTypeEnum;
use crate::structs::EncodedUserData;
use crate::time::{utc_now, UtcTime, MAX_TIMESTAMP};
use vstd::prelude::*;

verus! {

/// How long a token stays valid: 24 hours.
pub const TOKEN_LIFETIME_SECS: i64 = 86_400;

/// The claims of a token issued at `now`: the user, its wallet, its role, and
/// an expiry 24 hours later, in Unix seconds.
pub open spec fn claims_issued_at(
    user_id: u128,
    user_wallet_address: String,
    user_type: UserTypeEnum,
    now: UtcTime,
) -> EncodedUserData {
    EncodedUserData {
        user_id,
        user_wallet_address,
        user_type,
        exp: (now.secs + TOKEN_LIFETIME_SECS) as usize,
    }
}

/// The claims of a token issued at `now`.
pub fn user_claims_at(
    user_id: u128,
    user_wallet_address: String,
    user_type: UserTypeEnum,
    now: UtcTime,
) -> (claims: EncodedUserData)
    requires
        now.secs + TOKEN_LIFETIME_SECS <= MAX_TIMESTAMP,
    ensures
        claims == claims_issued_at(user_id, user_wallet_address, user_type, now),
{
    let exp = now.plus_secs(TOKEN_LIFETIME_SECS);
    EncodedUserData { user_id, user_wallet_address, user_type, exp: exp.secs as usize }
}

/// Whether a clock reading is so late that a day more leaves chrono's range
/// (where adding it panics).
pub open spec fn token_clock_too_late(now: UtcTime) -> bool {
    now.secs > MAX_TIMESTAMP - TOKEN_LIFETIME_SECS
}

/// What issuing claims at `now` gives: nothing when the clock is too late,
/// else the claims issued at `now`.
pub open spec fn claims_for_clock(
    user_id: u128,
    user_wallet_address: String,
    user_type: UserTypeEnum,
    now: UtcTime,
    res: Option<EncodedUserData>,
) -> bool {
    if token_clock_too_late(now) {
        res is None
    } else {
        res == Some(claims_issued_at(user_id, user_wallet_address, user_type, now))
    }
}

/// The claims issued at the clock reading `now`: `None` exactly when a day
/// more would leave chrono's range.
pub fn user_claims_for_clock(
    user_id: u128,
    user_wallet_address: String,
    user_type: UserTypeEnum,
    now: UtcTime,
) -> (claims: Option<EncodedUserData>)
    ensures
        claims_for_clock(user_id, user_wallet_address, user_type, now, claims),
        claims is None <==> now.secs > MAX_TIMESTAMP - TOKEN_LIFETIME_SECS,
{
    if now.secs > MAX_TIMESTAMP - TOKEN_LIFETIME_SECS {
        None
    } else {
        Some(user_claims_at(user_id, user_wallet_address, user_type, now))
    }
}

/// The claims that `encode_user_info` signs: issued at the clock's reading,
/// expiring 24 hours later. The outcome is that of `user_claims_for_clock` on
/// that reading: `None` only when the reading is within a day of the end of
/// chrono's range.
pub fn encode_user_info(
    user_id: u128,
    user_wallet_address: String,
    user_type: UserTypeEnum,
) -> (claims: Option<EncodedUserData>)
    ensures
        exists|now: UtcTime|
            0 <= now.secs <= MAX_TIMESTAMP && now.nanos < 1_000_000_000 && #[trigger] claims_for_clock(
                user_id,
                user_wallet_address,
                user_type,
                now,
                claims,
            ),
        claims is None ==> exists|now: UtcTime|
            MAX_TIMESTAMP - TOKEN_LIFETIME_SECS < now.secs <= MAX_TIMESTAMP && #[trigger]
            token_clock_too_late(now),
        claims matches Some(c) ==> exists|now: UtcTime|
            0 <= now.secs && #[trigger] claims_issued_at(
                user_id,
                user_wallet_address,
                user_type,
                now,
            ) == c,
{
    let now = utc_now();
    user_claims_for_clock(user_id, user_wallet_address, user_type, now)
}

/// 500 "error in fetching jwt secret <detail>": the secret is not configured.
pub fn jwt_secret_missing(detail: &str) -> (e: PersErrors)
    ensures
        e@ == answer(INTERNAL_SERVER_ERROR, "error in fetching jwt secret "@ + detail@),
{
    PersErrors::with_detail("error in fetching jwt secret ", detail, INTERNAL_SERVER_ERROR)
}

/// 500 "gettig error in creating auth token => <detail>": signing failed.
pub fn token_not_created(detail: &str) -> (e: PersErrors)
    ensures
        e@ == answer(INTERNAL_SERVER_ERROR, "gettig error in creating auth token => "@ + detail@),
{
    PersErrors::with_detail("gettig error in creating auth token => ", detail, INTERNAL_SERVER_ERROR)
}

/// 401 "user unauthorized <detail>": the token did not verify or has expired.
pub fn token_rejected(detail: &str) -> (e: PersErrors)
    ensures
        e@ == answer(UNAUTHORIZED, "user unauthorized "@ + detail@),
{
    PersErrors::with_detail("user unauthorized ", detail, UNAUTHORIZED)
}

} // verus!
