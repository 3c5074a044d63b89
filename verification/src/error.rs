//! Error types.

use vstd::prelude::*;

verus! {

/// No proxy in the pool is currently healthy. Terminal for the request
/// being dispatched; not retried, and not attributed to any proxy.
#[derive(Debug, Clone, Copy, PartialEq, Eq, Structural)]
pub struct NoProxyAvailable;

impl NoProxyAvailable {
    /// A human-readable description of the condition.
    pub fn message(&self) -> (r: String)
        ensures
            r@ == "no proxy available in pool"@,
    {
        String::from_str("no proxy available in pool")
    }
}

/// Why one dispatch attempt against one chosen proxy failed.
#[derive(Debug, Clone, Copy, PartialEq, Eq, Structural)]
pub enum AttemptFailure {
    /// The proxy URL was malformed or a transport could not be bound to it.
    Construction,
    /// A network-level failure while executing the request through the
    /// proxy.
    Execution,
}

/// Terminal outcome of dispatching one logical request.
#[derive(Debug, Clone, Copy, PartialEq, Eq, Structural)]
pub enum DispatchError {
    /// No proxy in the pool is currently healthy; not a per-proxy fault.
    NoProxyAvailable,
    /// The request body cannot be resent, so it was rejected before any
    /// proxy was touched.
    NonReplayableRequest,
    /// The final attempt failed to construct a transport for its proxy.
    ProxyConstruction,
    /// The final attempt failed at network level through its proxy.
    RequestExecution,
}

} // verus!
