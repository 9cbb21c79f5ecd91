//! Freshness of cached data.
use vstd::prelude::*;

verus! {

/// Cached comments of a task are fresh when they were fetched (the latest
/// fetch time, in Unix seconds) less than `ttl_secs` before `now_secs`;
/// with nothing cached they are not.
pub open spec fn cache_fresh(now_secs: int, latest_fetch: Option<i64>, ttl_secs: int) -> bool {
    match latest_fetch {
        Some(f) => now_secs - f < ttl_secs,
        None => false,
    }
}

/// Whether cached comments are still fresh (see `cache_fresh`).
pub fn comments_cache_valid(now_secs: i64, latest_fetch: Option<i64>, ttl_secs: i64) -> (b: bool)
    requires
        latest_fetch matches Some(f) ==> i64::MIN <= now_secs - f <= i64::MAX,
    ensures
        b == cache_fresh(now_secs as int, latest_fetch, ttl_secs as int),
{
    match latest_fetch {
        Some(fetched_at) => now_secs - fetched_at < ttl_secs,
        None => false,
    }
}

} // verus!
