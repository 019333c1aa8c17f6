//! The conversation with the exchange-rate service, one event at a time.
//!
//! The library does not talk to the service. A caller reports what
//! happened as an [`Event`], and the library answers with the [`Action`] to
//! carry out next: read the credential, send a request, read the body, or
//! finish with a result. The rate store changes only when a body with a
//! usable rate table arrives.

use vstd::prelude::*;
use vstd::string::StringExecFns;
use crate::code_map::{CodeMap, pairs_map};
use crate::error::{RateError, RemoteFailure};
use crate::models::{all_positive_finite, CacheItem, Rates, Snapshot, Timestamp};
use crate::policy::{is_fresh, is_fresh_at, CACHE_DURATION_SECS};

verus! {

/// The snapshots of the cache, one for each base currency.
pub type RateStore = CodeMap<CacheItem>;

/// The HTTP status with which the service reports success.
pub const STATUS_OK: u16 = 200;

/// The HTTP status with which the service reports that the request limit
/// is exceeded.
pub const STATUS_FORBIDDEN: u16 = 403;

/// Something that happened while a rate was being resolved.
#[derive(Debug)]
pub enum Event {
    /// Resolution starts at this time.
    Begin(Timestamp),
    /// The access credential was looked up: it is this, or there is none.
    Credential(Option<String>),
    /// The request was sent and no response was received.
    Unreachable,
    /// The service responded with this HTTP status.
    Status(u16),
    /// The body of the response was read at this time. It decoded to these
    /// pairs of currency code and rate, or it could not be decoded.
    Body(Option<Vec<(String, u64)>>, Timestamp),
}

/// What the caller is to do next.
#[derive(Debug)]
pub enum Action<T> {
    /// Look up the access credential and report it.
    ReadCredential,
    /// Send one GET request to this address and report the status.
    Get(String),
    /// Read and decode the body of the response and report it.
    ReadBody,
    /// Stop: this is the result.
    Finish(Result<T, RateError>),
}

/// An [`Action`] as contracts see it: the address as a sequence of
/// characters, the result by its view.
pub enum Step<T> {
    ReadCredential,
    Get(Seq<char>),
    ReadBody,
    Finish(Result<T, RateError>),
}

impl<T: View> View for Action<T> {
    type V = Step<T::V>;

    open spec fn view(&self) -> Step<T::V> {
        match self {
            Action::ReadCredential => Step::ReadCredential,
            Action::Get(url) => Step::Get(url@),
            Action::ReadBody => Step::ReadBody,
            Action::Finish(Ok(value)) => Step::Finish(Ok(value@)),
            Action::Finish(Err(error)) => Step::Finish(Err(*error)),
        }
    }
}

/// The address of the rate table of `base`, for the credential `key`.
pub open spec fn url_of(base: Seq<char>, key: Seq<char>) -> Seq<char> {
    "https://api.exchangerate-api.com/v4/latest/"@ + base + "?access_key="@ + key
}

/// The address of the rate table of `base`, for the credential `key`.
pub fn request_url(base: &str, key: &str) -> (url: String)
    ensures
        url@ == url_of(base@, key@),
{
    let mut url = String::from_str("https://api.exchangerate-api.com/v4/latest/");
    url.append(base);
    url.append("?access_key=");
    url.append(key);
    url
}

/// The failure that an HTTP status stands for, if it is not success.
pub open spec fn status_failure(status: u16) -> Option<RateError> {
    if status == STATUS_OK {
        None
    } else if status == STATUS_FORBIDDEN {
        Some(RateError::RateLimit)
    } else {
        Some(RateError::Remote(RemoteFailure::Status(status)))
    }
}

/// Classifies an HTTP status: success, the rate-limit status, or any other
/// status, which is reported as it came.
pub fn classify_status(status: u16) -> (outcome: Result<(), RateError>)
    ensures
        outcome == (match status_failure(status) {
            None => Ok::<(), RateError>(()),
            Some(error) => Err(error),
        }),
{
    if status == STATUS_OK {
        Ok(())
    } else if status == STATUS_FORBIDDEN {
        Err(RateError::RateLimit)
    } else {
        Err(RateError::Remote(RemoteFailure::Status(status)))
    }
}

/// The rate table that a decoded body holds, if it holds one: the body was
/// decoded and every rate in it is positive and finite.
pub open spec fn body_rates(body: Option<Vec<(String, u64)>>) -> Option<Map<Seq<char>, u64>> {
    match body {
        Some(pairs) => if all_positive_finite(pairs@) {
            Some(pairs_map(pairs@))
        } else {
            None
        },
        None => None,
    }
}

/// The rate from `from` to `to` that the store can answer with at `now`:
/// the store has a snapshot for `from`, the snapshot is younger than the
/// cache duration, and it holds a rate for `to`.
pub open spec fn cached_rate(
    store: Map<Seq<char>, Snapshot>,
    from: Seq<char>,
    to: Seq<char>,
    now: Timestamp,
) -> Option<u64> {
    if store.contains_key(from) && is_fresh_at(store[from].timestamp, now, CACHE_DURATION_SECS)
        && store[from].rates.contains_key(to) {
        Some(store[from].rates[to])
    } else {
        None
    }
}

/// What follows the lookup of the credential: without one the resolution
/// fails at once, and with one the rate table of `base` is requested.
pub open spec fn credential_step<T>(base: Seq<char>, credential: Option<String>) -> Step<T> {
    match credential {
        Some(key) => Step::Get(url_of(base, key@)),
        None => Step::Finish(Err(RateError::Config)),
    }
}

/// What follows a response with this status: the body is read after
/// success, and any other status ends the resolution with its failure.
pub open spec fn status_step<T>(status: u16) -> Step<T> {
    match status_failure(status) {
        None => Step::ReadBody,
        Some(error) => Step::Finish(Err(error)),
    }
}

/// The action with which a conversion from `from` to `to` goes on after
/// `event`, given the store before the event.
pub open spec fn exchange_step(
    store: Map<Seq<char>, Snapshot>,
    from: Seq<char>,
    to: Seq<char>,
    event: Event,
) -> Step<u64> {
    match event {
        Event::Begin(now) => match cached_rate(store, from, to, now) {
            Some(rate) => Step::Finish(Ok(rate)),
            None => Step::ReadCredential,
        },
        Event::Body(body, _) => match body_rates(body) {
            Some(rates) => if rates.contains_key(to) {
                Step::Finish(Ok(rates[to]))
            } else {
                Step::Finish(Err(RateError::RateNotFound))
            },
            None => Step::Finish(Err(RateError::Remote(RemoteFailure::MalformedBody))),
        },
        Event::Credential(credential) => credential_step(from, credential),
        Event::Unreachable => Step::Finish(Err(RateError::Network)),
        Event::Status(status) => status_step(status),
    }
}

/// The store after `event`, in a conversion from `from`: a body with a
/// usable rate table becomes the snapshot of `from`, in place of the one
/// that was there; nothing else changes the store.
pub open spec fn exchange_store(
    store: Map<Seq<char>, Snapshot>,
    from: Seq<char>,
    event: Event,
) -> Map<Seq<char>, Snapshot> {
    match event {
        Event::Body(body, now) => match body_rates(body) {
            Some(rates) => store.insert(from, Snapshot { rates, timestamp: now }),
            None => store,
        },
        _ => store,
    }
}

/// The action with which listing the rates of `base` goes on after
/// `event`.
pub open spec fn listing_step(base: Seq<char>, event: Event) -> Step<Snapshot> {
    match event {
        Event::Begin(_) => Step::ReadCredential,
        Event::Body(body, now) => match body_rates(body) {
            Some(rates) => Step::Finish(Ok(Snapshot { rates, timestamp: now })),
            None => Step::Finish(Err(RateError::Remote(RemoteFailure::MalformedBody))),
        },
        Event::Credential(credential) => credential_step(base, credential),
        Event::Unreachable => Step::Finish(Err(RateError::Network)),
        Event::Status(status) => status_step(status),
    }
}

/// The rate table of a decoded body, if it holds one.
fn decode_body(body: Option<Vec<(String, u64)>>) -> (decoded: Option<Rates>)
    ensures
        match decoded {
            Some(rates) => body_rates(body) == Some(rates@),
            None => body_rates(body).is_none(),
        },
{
    match body {
        Some(pairs) => Rates::from_pairs(pairs.as_slice()),
        None => None,
    }
}

/// The answer to the lookup of the credential.
fn credential_action<T: View>(base: &str, credential: Option<String>) -> (action: Action<T>)
    ensures
        action@ == credential_step::<T::V>(base@, credential),
{
    match credential {
        Some(key) => Action::Get(request_url(base, key.as_str())),
        None => Action::Finish(Err(RateError::Config)),
    }
}

/// The answer to a response with this status.
fn status_action<T: View>(status: u16) -> (action: Action<T>)
    ensures
        action@ == status_step::<T::V>(status),
{
    match classify_status(status) {
        Ok(()) => Action::ReadBody,
        Err(error) => Action::Finish(Err(error)),
    }
}

/// Advances the conversion from `from` to `to` by one event.
///
/// At the start the store answers alone, without any request, if it holds
/// a fresh snapshot for `from` with a rate for `to`. Otherwise the rates of
/// `from` are requested once; when they arrive they replace the snapshot
/// of `from`, stamped with the time of arrival, and the rate for `to` is
/// taken from them. A failure ends the conversion and leaves the store as
/// it was.
pub fn fetch_exchange_rate(
    from: &str,
    to: &str,
    cache: &mut RateStore,
    event: Event,
) -> (action: Action<u64>)
    ensures
        action@ == exchange_step(old(cache)@, from@, to@, event),
        final(cache)@ == exchange_store(old(cache)@, from@, event),
{
    match event {
        Event::Begin(now) => {
            match cache.get(from) {
                Some(item) => {
                    if is_fresh(item, now, CACHE_DURATION_SECS) {
                        match item.rates.get(to) {
                            Some(rate) => Action::Finish(Ok(rate)),
                            None => Action::ReadCredential,
                        }
                    } else {
                        Action::ReadCredential
                    }
                },
                None => Action::ReadCredential,
            }
        },
        Event::Body(body, now) => {
            match decode_body(body) {
                Some(rates) => {
                    let found = rates.get(to);
                    cache.insert(from.to_owned(), CacheItem { rates, timestamp: now });
                    match found {
                        Some(rate) => Action::Finish(Ok(rate)),
                        None => Action::Finish(Err(RateError::RateNotFound)),
                    }
                },
                None => Action::Finish(Err(RateError::Remote(RemoteFailure::MalformedBody))),
            }
        },
        Event::Credential(credential) => credential_action(from, credential),
        Event::Unreachable => Action::Finish(Err(RateError::Network)),
        Event::Status(status) => status_action(status),
    }
}

/// Advances the listing of all rates of `base` by one event.
///
/// The cache plays no part: the rates are requested once, and the table
/// that arrives is the result, stamped with the time of arrival.
pub fn fetch_all_exchange_rates(base: &str, event: Event) -> (action: Action<CacheItem>)
    ensures
        action@ == listing_step(base@, event),
{
    match event {
        Event::Begin(_) => Action::ReadCredential,
        Event::Body(body, now) => {
            match decode_body(body) {
                Some(rates) => Action::Finish(Ok(CacheItem { rates, timestamp: now })),
                None => Action::Finish(Err(RateError::Remote(RemoteFailure::MalformedBody))),
            }
        },
        Event::Credential(credential) => credential_action(base, credential),
        Event::Unreachable => Action::Finish(Err(RateError::Network)),
        Event::Status(status) => status_action(status),
    }
}

} // verus!
