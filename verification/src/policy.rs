//! The rule that decides whether a snapshot may still answer a lookup.

use vstd::prelude::*;
use crate::models::{CacheItem, Timestamp, NANOS_PER_SEC};

verus! {

/// The age, in seconds, from which a snapshot is no longer trusted: one
/// hour.
pub const CACHE_DURATION_SECS: u64 = 3600;

/// A snapshot stamped `stamped` is fresh at `now` when the time that has
/// passed since it was fetched is shorter than `ttl_secs` seconds. A stamp
/// that lies after `now` has no age, and the snapshot is not fresh.
pub open spec fn is_fresh_at(stamped: Timestamp, now: Timestamp, ttl_secs: u64) -> bool {
    &&& stamped.nanos() <= now.nanos()
    &&& now.nanos() - stamped.nanos() < ttl_secs * NANOS_PER_SEC
}

/// Whether `item` may still be trusted at `now`, for a time-to-live of
/// `ttl_secs` seconds.
pub fn is_fresh(item: &CacheItem, now: Timestamp, ttl_secs: u64) -> (fresh: bool)
    ensures
        fresh == is_fresh_at(item.timestamp, now, ttl_secs),
{
    let scale: u128 = NANOS_PER_SEC as u128;
    let stamped: u128 = item.timestamp.secs_since_epoch as u128 * scale
        + item.timestamp.nanos_since_epoch as u128;
    let current: u128 = now.secs_since_epoch as u128 * scale + now.nanos_since_epoch as u128;
    let limit: u128 = ttl_secs as u128 * scale;
    stamped <= current && current - stamped < limit
}

/// A snapshot is fresh exactly while its age is below the time-to-live:
/// fresh at every age short of it, and stale from the moment its age
/// reaches it.
pub proof fn freshness_ends_at_ttl(stamped: Timestamp, now: Timestamp, ttl_secs: u64)
    requires
        stamped.nanos() <= now.nanos(),
    ensures
        is_fresh_at(stamped, now, ttl_secs) <==> now.nanos() - stamped.nanos() < ttl_secs
            * NANOS_PER_SEC,
        now.nanos() - stamped.nanos() == ttl_secs * NANOS_PER_SEC ==> !is_fresh_at(
            stamped,
            now,
            ttl_secs,
        ),
{
}

/// A snapshot stamped later than the present is never fresh.
pub proof fn future_stamp_is_stale(stamped: Timestamp, now: Timestamp, ttl_secs: u64)
    requires
        now.nanos() < stamped.nanos(),
    ensures
        !is_fresh_at(stamped, now, ttl_secs),
{
}

} // verus!
