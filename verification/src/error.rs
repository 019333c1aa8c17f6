//! The ways in which resolving a rate can fail.

use vstd::prelude::*;

verus! {

/// What was wrong with an answer of the exchange-rate service.
#[derive(Clone, Copy, Debug, PartialEq, Eq, Structural)]
pub enum RemoteFailure {
    /// The service answered with this HTTP status, which is neither
    /// success nor the rate-limit status.
    Status(u16),
    /// The service reported success, but its body is not a table of
    /// positive finite rates.
    MalformedBody,
}

/// Why a rate could not be resolved or the store could not be kept.
#[derive(Clone, Copy, Debug, PartialEq, Eq, Structural)]
pub enum RateError {
    /// No access credential is configured. No request is made.
    Config,
    /// The service answered with the rate-limit status.
    RateLimit,
    /// The service answered, but not with a usable rate table.
    Remote(RemoteFailure),
    /// No answer was received from the service.
    Network,
    /// The service answered with a rate table that lacks the target
    /// currency.
    RateNotFound,
    /// The store could not be written. The library writes nothing itself:
    /// this kind is for the caller that does.
    Persistence,
}

} // verus!
