use currency_converter::models::{CacheItem, Rates, Timestamp};
use currency_converter::policy::{is_fresh, CACHE_DURATION_SECS};

fn stamped(secs: u64, nanos: u32) -> CacheItem {
    CacheItem {
        rates: Rates::new(),
        timestamp: Timestamp { secs_since_epoch: secs, nanos_since_epoch: nanos },
    }
}

fn at(secs: u64, nanos: u32) -> Timestamp {
    Timestamp { secs_since_epoch: secs, nanos_since_epoch: nanos }
}

#[test]
fn cache_duration_is_one_hour() {
    assert_eq!(CACHE_DURATION_SECS, 60 * 60);
}

#[test]
fn snapshot_is_fresh_until_its_age_reaches_the_ttl() {
    let item = stamped(1_000, 0);
    assert!(is_fresh(&item, at(1_000, 0), 3_600));
    assert!(is_fresh(&item, at(2_000, 0), 3_600));
    assert!(is_fresh(&item, at(4_599, 999_999_999), 3_600));
    assert!(!is_fresh(&item, at(4_600, 0), 3_600));
    assert!(!is_fresh(&item, at(4_600, 1), 3_600));
    assert!(!is_fresh(&item, at(9_000, 0), 3_600));
}

#[test]
fn age_is_measured_to_the_nanosecond() {
    let item = stamped(10, 500);
    assert!(is_fresh(&item, at(11, 499), 1));
    assert!(!is_fresh(&item, at(11, 500), 1));
    assert!(!is_fresh(&item, at(10, 499), 1));
    assert!(is_fresh(&item, at(10, 500), 1));
}

#[test]
fn zero_ttl_trusts_nothing() {
    let item = stamped(10, 0);
    assert!(!is_fresh(&item, at(10, 0), 0));
    assert!(!is_fresh(&item, at(11, 0), 0));
}

#[test]
fn stamp_in_the_future_is_stale() {
    let item = stamped(5_000, 0);
    assert!(!is_fresh(&item, at(4_999, 999_999_999), 3_600));
    assert!(!is_fresh(&item, at(0, 0), u64::MAX));
}

#[test]
fn extreme_times_do_not_overflow() {
    let item = stamped(0, 0);
    assert!(is_fresh(&item, at(u64::MAX - 1, 999_999_999), u64::MAX));
    assert!(!is_fresh(&item, at(u64::MAX, 0), u64::MAX));
    let late = stamped(u64::MAX, u32::MAX);
    assert!(is_fresh(&late, at(u64::MAX, u32::MAX), 1));
    assert!(!is_fresh(&late, at(u64::MAX, 0), 1));
}

#[test]
fn nanoseconds_beyond_a_second_carry_over() {
    let item = stamped(10, 2_000_000_000);
    assert!(!is_fresh(&item, at(11, 0), 5));
    assert!(is_fresh(&item, at(12, 0), 5));
    assert!(!is_fresh(&item, at(17, 0), 5));
}
