//! The answers to failures of the nonce store.

use crate::errors::{answer, PersErrors, INTERNAL_SERVER_ERROR};
use vstd::prelude::*;

verus! {

/// How long the store keeps a nonce: 300 seconds.
pub const NAUNCE_STORE_SECS: u64 = 300;

/// The largest number of store connections in the pool.
pub const REDIS_POOL_SIZE: u32 = 10;

/// 500 "getting error in redis con url - <detail>": the store's URL is not configured.
pub fn redis_url_missing(detail: &str) -> (e: PersErrors)
    ensures
        e@ == answer(INTERNAL_SERVER_ERROR, "getting error in redis con url - "@ + detail@),
{
    PersErrors::with_detail("getting error in redis con url - ", detail, INTERNAL_SERVER_ERROR)
}

/// 500 "getting error while connecting to redis <detail>".
pub fn redis_unreachable(detail: &str) -> (e: PersErrors)
    ensures
        e@ == answer(INTERNAL_SERVER_ERROR, "getting error while connecting to redis "@ + detail@),
{
    PersErrors::with_detail("getting error while connecting to redis ", detail, INTERNAL_SERVER_ERROR)
}

/// 500 "getting error in redis while creating connection pool - <detail>".
pub fn redis_pool_not_created(detail: &str) -> (e: PersErrors)
    ensures
        e@ == answer(
            INTERNAL_SERVER_ERROR,
            "getting error in redis while creating connection pool - "@ + detail@,
        ),
{
    PersErrors::with_detail(
        "getting error in redis while creating connection pool - ",
        detail,
        INTERNAL_SERVER_ERROR,
    )
}

/// 500 "error while getting connnection for redis connection pool => <detail>".
pub fn no_redis_connection(detail: &str) -> (e: PersErrors)
    ensures
        e@ == answer(
            INTERNAL_SERVER_ERROR,
            "error while getting connnection for redis connection pool => "@ + detail@,
        ),
{
    PersErrors::with_detail(
        "error while getting connnection for redis connection pool => ",
        detail,
        INTERNAL_SERVER_ERROR,
    )
}

} // verus!
