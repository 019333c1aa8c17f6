//! A resolution from its first event to its result, and what holds of it.
//!
//! A caller starts with [`Event::Begin`], carries out each action that the
//! library answers with, and reports what came of it as the next event,
//! until the action is to finish. [`Remote`] fixes what the world outside
//! would answer; the functions here say what the whole exchange then comes
//! to, and how many requests it makes.

use vstd::prelude::*;
use crate::api::{
    body_rates, cached_rate, exchange_step, exchange_store, listing_step, status_failure, url_of,
    Event, Step, STATUS_FORBIDDEN, STATUS_OK,
};
use crate::error::{RateError, RemoteFailure};
use crate::models::{
    all_positive_finite, lemma_pairs_map_positive_finite, store_positive_finite, Snapshot,
    Timestamp,
};
use crate::policy::{is_fresh_at, CACHE_DURATION_SECS};

verus! {

/// What the world outside answers in the course of one resolution.
pub struct Remote {
    /// The time at which the resolution starts.
    pub started: Timestamp,
    /// The access credential, if one is configured.
    pub credential: Option<String>,
    /// The status of the response to a request, or `None` where no
    /// response is received.
    pub status: Option<u16>,
    /// What the body of the response decodes to, if it can be decoded.
    pub body: Option<Vec<(String, u64)>>,
    /// The time at which the body has been read.
    pub received: Timestamp,
}

/// What a resolution comes to.
pub struct Run {
    /// The store when the resolution has finished.
    pub store: Map<Seq<char>, Snapshot>,
    /// The result that the caller is handed.
    pub outcome: Result<u64, RateError>,
    /// The addresses that were requested, in the order of the requests.
    pub requests: Seq<Seq<char>>,
}

/// How far a resolution has come when `event` is reported.
pub open spec fn progress(event: Event) -> nat {
    match event {
        Event::Begin(_) => 0,
        Event::Credential(_) => 1,
        Event::Unreachable => 2,
        Event::Status(_) => 2,
        Event::Body(_, _) => 3,
    }
}

/// The event that a caller reports after it has carried out an action
/// other than to finish.
pub open spec fn reply<T>(remote: Remote, step: Step<T>) -> Event {
    match step {
        Step::ReadCredential => Event::Credential(remote.credential),
        Step::ReadBody => Event::Body(remote.body, remote.received),
        _ => match remote.status {
            Some(status) => Event::Status(status),
            None => Event::Unreachable,
        },
    }
}

/// The addresses requested by one action: its own, if it is a request.
pub open spec fn requested<T>(step: Step<T>) -> Seq<Seq<char>> {
    match step {
        Step::Get(url) => seq![url],
        _ => Seq::empty(),
    }
}

/// The conversion from `from` to `to` that starts from `store` with
/// `event`, carried through to its end against `remote`.
pub open spec fn exchange_run(
    store: Map<Seq<char>, Snapshot>,
    from: Seq<char>,
    to: Seq<char>,
    event: Event,
    remote: Remote,
) -> Run
    decreases 3 - progress(event),
{
    let step = exchange_step(store, from, to, event);
    let next = exchange_store(store, from, event);
    match step {
        Step::Finish(outcome) => Run { store: next, outcome, requests: Seq::empty() },
        _ => {
            let rest = exchange_run(next, from, to, reply(remote, step), remote);
            Run {
                store: rest.store,
                outcome: rest.outcome,
                requests: requested(step) + rest.requests,
            }
        },
    }
}

/// The whole conversion from `from` to `to` against `remote`.
pub open spec fn resolve(
    store: Map<Seq<char>, Snapshot>,
    from: Seq<char>,
    to: Seq<char>,
    remote: Remote,
) -> Run {
    exchange_run(store, from, to, Event::Begin(remote.started), remote)
}

/// What a conversion comes to once the store could not answer it and a
/// credential was found: the one request has been made, and the response
/// decides the rest.
pub open spec fn refresh(
    store: Map<Seq<char>, Snapshot>,
    from: Seq<char>,
    to: Seq<char>,
    remote: Remote,
) -> (Map<Seq<char>, Snapshot>, Result<u64, RateError>) {
    match remote.status {
        None => (store, Err(RateError::Network)),
        Some(status) => match status_failure(status) {
            Some(error) => (store, Err(error)),
            None => match body_rates(remote.body) {
                None => (store, Err(RateError::Remote(RemoteFailure::MalformedBody))),
                Some(rates) => (
                    store.insert(from, Snapshot { rates, timestamp: remote.received }),
                    if rates.contains_key(to) {
                        Ok(rates[to])
                    } else {
                        Err(RateError::RateNotFound)
                    },
                ),
            },
        },
    }
}

/// A conversion in one piece. The store answers alone where it can;
/// without a credential the conversion fails before any request; otherwise
/// exactly one request is made, for the rate table of `from`, and the
/// response decides the result and the store.
pub proof fn resolve_unfolded(
    store: Map<Seq<char>, Snapshot>,
    from: Seq<char>,
    to: Seq<char>,
    remote: Remote,
)
    ensures
        resolve(store, from, to, remote) == (match cached_rate(store, from, to, remote.started) {
            Some(rate) => Run { store, outcome: Ok(rate), requests: Seq::empty() },
            None => match remote.credential {
                None => Run { store, outcome: Err(RateError::Config), requests: Seq::empty() },
                Some(key) => Run {
                    store: refresh(store, from, to, remote).0,
                    outcome: refresh(store, from, to, remote).1,
                    requests: seq![url_of(from, key@)],
                },
            },
        }),
{
    reveal_with_fuel(exchange_run, 4);
    let run = resolve(store, from, to, remote);
    if cached_rate(store, from, to, remote.started).is_none() {
        if let Some(key) = remote.credential {
            assert(run.requests =~= seq![url_of(from, key@)]);
        }
    }
}

/// A resolution whose snapshot is fresh and holds the target currency
/// makes no request, returns exactly the stored rate and leaves the store
/// as it was.
pub proof fn cache_hit_is_pure(
    store: Map<Seq<char>, Snapshot>,
    from: Seq<char>,
    to: Seq<char>,
    remote: Remote,
)
    requires
        store.contains_key(from),
        is_fresh_at(store[from].timestamp, remote.started, CACHE_DURATION_SECS),
        store[from].rates.contains_key(to),
    ensures
        resolve(store, from, to, remote).requests.len() == 0,
        resolve(store, from, to, remote).outcome == Ok::<u64, RateError>(store[from].rates[to]),
        resolve(store, from, to, remote).store == store,
{
}

/// A resolution that the store cannot answer, because the snapshot of
/// `from` is absent, stale or without the target currency, makes exactly
/// one request, for the rate table of `from`, provided that a credential
/// is configured.
pub proof fn cache_miss_requests_once(
    store: Map<Seq<char>, Snapshot>,
    from: Seq<char>,
    to: Seq<char>,
    remote: Remote,
)
    requires
        cached_rate(store, from, to, remote.started).is_none(),
        remote.credential.is_some(),
    ensures
        resolve(store, from, to, remote).requests == seq![
            url_of(from, remote.credential.unwrap()@),
        ],
{
    resolve_unfolded(store, from, to, remote);
}

/// Without a credential a resolution that the store cannot answer fails
/// before any request is made, and leaves the store as it was.
pub proof fn missing_credential_stops_resolution(
    store: Map<Seq<char>, Snapshot>,
    from: Seq<char>,
    to: Seq<char>,
    remote: Remote,
)
    requires
        cached_rate(store, from, to, remote.started).is_none(),
        remote.credential.is_none(),
    ensures
        resolve(store, from, to, remote).requests.len() == 0,
        resolve(store, from, to, remote).outcome == Err::<u64, RateError>(RateError::Config),
        resolve(store, from, to, remote).store == store,
{
    resolve_unfolded(store, from, to, remote);
}

/// When the request of a resolution succeeds, the rate table that came
/// replaces the snapshot of `from` entirely: afterwards the snapshot holds
/// the currencies of the response and no others, stamped with the time of
/// arrival. The result is the rate of the target currency in the response,
/// or that the rate was not found.
pub proof fn refresh_replaces_snapshot(
    store: Map<Seq<char>, Snapshot>,
    from: Seq<char>,
    to: Seq<char>,
    remote: Remote,
    rates: Map<Seq<char>, u64>,
)
    requires
        cached_rate(store, from, to, remote.started).is_none(),
        remote.credential.is_some(),
        remote.status == Some(STATUS_OK),
        body_rates(remote.body) == Some(rates),
    ensures
        resolve(store, from, to, remote).store == store.insert(
            from,
            Snapshot { rates, timestamp: remote.received },
        ),
        forall|code: Seq<char>|
            resolve(store, from, to, remote).store[from].rates.contains_key(code)
                <==> rates.contains_key(code),
        resolve(store, from, to, remote).outcome == (if rates.contains_key(to) {
            Ok::<u64, RateError>(rates[to])
        } else {
            Err(RateError::RateNotFound)
        }),
{
    resolve_unfolded(store, from, to, remote);
}

/// A resolution that fails for any reason but a missing target currency
/// leaves the store as it was.
pub proof fn failure_leaves_store(
    store: Map<Seq<char>, Snapshot>,
    from: Seq<char>,
    to: Seq<char>,
    remote: Remote,
)
    requires
        resolve(store, from, to, remote).outcome is Err,
        resolve(store, from, to, remote).outcome != Err::<u64, RateError>(RateError::RateNotFound),
    ensures
        resolve(store, from, to, remote).store == store,
{
    resolve_unfolded(store, from, to, remote);
}

/// When the service answers the request of a resolution with the
/// rate-limit status, the resolution fails with the rate-limit error and
/// the store is as it was.
pub proof fn rate_limit_is_reported(
    store: Map<Seq<char>, Snapshot>,
    from: Seq<char>,
    to: Seq<char>,
    remote: Remote,
)
    requires
        cached_rate(store, from, to, remote.started).is_none(),
        remote.credential.is_some(),
        remote.status == Some(STATUS_FORBIDDEN),
    ensures
        resolve(store, from, to, remote).outcome == Err::<u64, RateError>(RateError::RateLimit),
        resolve(store, from, to, remote).store == store,
{
    resolve_unfolded(store, from, to, remote);
}

/// What a listing comes to.
pub struct Listing {
    /// The result that the caller is handed.
    pub outcome: Result<Snapshot, RateError>,
    /// The addresses that were requested, in the order of the requests.
    pub requests: Seq<Seq<char>>,
}

/// The listing of the rates of `base` that starts with `event`, carried
/// through to its end against `remote`.
pub open spec fn listing_run(base: Seq<char>, event: Event, remote: Remote) -> Listing
    decreases 3 - progress(event),
{
    let step = listing_step(base, event);
    match step {
        Step::Finish(outcome) => Listing { outcome, requests: Seq::empty() },
        _ => {
            let rest = listing_run(base, reply(remote, step), remote);
            Listing { outcome: rest.outcome, requests: requested(step) + rest.requests }
        },
    }
}

/// The whole listing of the rates of `base` against `remote`.
pub open spec fn list_all(base: Seq<char>, remote: Remote) -> Listing {
    listing_run(base, Event::Begin(remote.started), remote)
}

/// A listing in one piece. Without a credential it fails before any
/// request; otherwise exactly one request is made, for the rate table of
/// `base`, and the response decides the result: the table that came,
/// stamped with the time of arrival, or the failure that the response
/// stands for.
pub proof fn list_all_unfolded(base: Seq<char>, remote: Remote)
    ensures
        list_all(base, remote) == (match remote.credential {
            None => Listing { outcome: Err(RateError::Config), requests: Seq::empty() },
            Some(key) => Listing {
                outcome: match remote.status {
                    None => Err(RateError::Network),
                    Some(status) => match status_failure(status) {
                        Some(error) => Err(error),
                        None => match body_rates(remote.body) {
                            None => Err(RateError::Remote(RemoteFailure::MalformedBody)),
                            Some(rates) => Ok(Snapshot { rates, timestamp: remote.received }),
                        },
                    },
                },
                requests: seq![url_of(base, key@)],
            },
        }),
{
    reveal_with_fuel(listing_run, 4);
    if let Some(key) = remote.credential {
        assert(list_all(base, remote).requests =~= seq![url_of(base, key@)]);
    }
}

/// No event of a conversion brings a rate into the store that is not
/// positive and finite.
pub proof fn event_keeps_rates_positive_finite(
    store: Map<Seq<char>, Snapshot>,
    from: Seq<char>,
    event: Event,
)
    requires
        store_positive_finite(store),
    ensures
        store_positive_finite(exchange_store(store, from, event)),
{
    if let Event::Body(Some(pairs), _) = event {
        if all_positive_finite(pairs@) {
            lemma_pairs_map_positive_finite(pairs@);
        }
    }
}

/// No event of a conversion from `from` touches the snapshot of another
/// base currency.
pub proof fn event_keeps_other_bases(
    store: Map<Seq<char>, Snapshot>,
    from: Seq<char>,
    event: Event,
    other: Seq<char>,
)
    requires
        other != from,
    ensures
        exchange_store(store, from, event).contains_key(other) <==> store.contains_key(other),
        exchange_store(store, from, event)[other] == store[other],
{
}

/// A whole resolution for `from` never touches the snapshot of another
/// base currency.
pub proof fn resolution_keeps_other_bases(
    store: Map<Seq<char>, Snapshot>,
    from: Seq<char>,
    to: Seq<char>,
    remote: Remote,
    other: Seq<char>,
)
    requires
        other != from,
    ensures
        resolve(store, from, to, remote).store.contains_key(other) <==> store.contains_key(other),
        resolve(store, from, to, remote).store[other] == store[other],
{
    resolve_unfolded(store, from, to, remote);
}

} // verus!
