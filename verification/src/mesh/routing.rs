//! What an attempt to route a request to one server comes to.

use vstd::prelude::*;

verus! {

/// The result of an attempt. `R` holds what the relay alone tells apart.
#[derive(Debug, Clone, Copy, PartialEq, Eq)]
pub enum RouteAttemptResult<R> {
    /// The server cannot be used; another may be tried.
    RetryableUnavailable,
    /// The client went away while its response was relayed.
    ClientDisconnected,
    Other(R),
}

/// How far an attempt got. Where an error ended it, `verdict` is what such an
/// error means.
#[derive(Debug, Clone, Copy, PartialEq, Eq)]
pub enum AttemptEnd<R> {
    /// The server could not be reached.
    Unreachable { verdict: RouteAttemptResult<R> },
    /// The request could not be written.
    NotForwarded,
    /// The response could not be read.
    NotAnswered { verdict: RouteAttemptResult<R> },
    /// The response was relayed.
    Relayed(RouteAttemptResult<R>),
}

/// What an attempt on this node comes to, and whether the server's connection
/// is shut down because the client went away.
pub fn route_local_attempt<R>(end: AttemptEnd<R>) -> (result: (RouteAttemptResult<R>, bool))
    ensures
        result.0 == match end {
            AttemptEnd::Unreachable { .. } => RouteAttemptResult::RetryableUnavailable,
            AttemptEnd::NotForwarded => RouteAttemptResult::RetryableUnavailable,
            AttemptEnd::NotAnswered { verdict } => verdict,
            AttemptEnd::Relayed(relayed) => relayed,
        },
        result.1 == (end matches AttemptEnd::Relayed(relayed) && relayed is ClientDisconnected),
{
    match end {
        AttemptEnd::Unreachable { .. } => (RouteAttemptResult::RetryableUnavailable, false),
        AttemptEnd::NotForwarded => (RouteAttemptResult::RetryableUnavailable, false),
        AttemptEnd::NotAnswered { verdict } => (verdict, false),
        AttemptEnd::Relayed(relayed) => {
            let gone = matches!(relayed, RouteAttemptResult::ClientDisconnected);
            (relayed, gone)
        },
    }
}

/// What an attempt at a peer comes to.
pub fn route_remote_attempt<R>(end: AttemptEnd<R>) -> (result: RouteAttemptResult<R>)
    ensures
        result == match end {
            AttemptEnd::Unreachable { verdict } => verdict,
            AttemptEnd::NotForwarded => RouteAttemptResult::RetryableUnavailable,
            AttemptEnd::NotAnswered { verdict } => verdict,
            AttemptEnd::Relayed(relayed) => relayed,
        },
{
    match end {
        AttemptEnd::Unreachable { verdict } => verdict,
        AttemptEnd::NotForwarded => RouteAttemptResult::RetryableUnavailable,
        AttemptEnd::NotAnswered { verdict } => verdict,
        AttemptEnd::Relayed(relayed) => relayed,
    }
}

} // verus!
