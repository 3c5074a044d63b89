//! Proxy records and their health status.
//!
//! A proxy is one upstream relay endpoint identified by its URL, with
//! tracked health state, success/failure counters, the latency of its most
//! recent successful probe, and its own rate-limiting token bucket.
//!
//! Latencies and timestamps are carried as plain integers (milliseconds for
//! latency, nanoseconds for bucket time), handed in by the caller that read
//! the clock; nothing in this module reads a clock itself.

use vstd::prelude::*;

use crate::limiter::TokenBucket;

verus! {

/// Health status of a proxy.
#[derive(Debug, Clone, Copy, PartialEq, Eq, Structural)]
pub enum ProxyStatus {
    /// The proxy has not been probed yet.
    Unknown,
    /// The proxy answered its most recent probe or request.
    Healthy,
    /// The proxy failed its most recent probe, or was demoted for
    /// accumulating too many request failures.
    Unhealthy,
}

/// One proxy record.
#[derive(Debug)]
pub struct Proxy {
    /// The proxy URL (for example `socks5://127.0.0.1:1080`); unique key
    /// within a pool, immutable after creation.
    pub url: String,
    /// Current health status.
    pub status: ProxyStatus,
    /// Requests that succeeded through this proxy; never reset. Saturates
    /// at `u32::MAX`.
    pub success_count: u32,
    /// Requests that failed through this proxy; never reset. Saturates at
    /// `u32::MAX`.
    pub failure_count: u32,
    /// Timestamp of the most recent health probe, in milliseconds; absent
    /// until the first probe result is applied.
    pub last_check: Option<u64>,
    /// Latency of the most recent successful probe, in milliseconds; absent
    /// until a probe succeeds.
    pub response_time: Option<u64>,
    /// This proxy's rate-limiting token bucket.
    pub limiter: TokenBucket,
}

/// The success rate of the given counters in parts per million, defined as
/// zero when no request has been recorded yet.
pub open spec fn spec_success_rate_ppm(success: u32, failure: u32) -> int {
    if success + failure == 0 {
        0
    } else {
        success * 1_000_000 / (success + failure)
    }
}

impl Clone for Proxy {
    /// An exact copy of the record.
    fn clone(&self) -> (r: Self)
        ensures
            r == *self,
    {
        Proxy {
            url: self.url.clone(),
            status: self.status,
            success_count: self.success_count,
            failure_count: self.failure_count,
            last_check: self.last_check,
            response_time: self.response_time,
            limiter: self.limiter,
        }
    }
}

impl Proxy {
    /// Well-formedness: the token bucket is well-formed.
    pub open spec fn wf(self) -> bool {
        self.limiter.wf()
    }

    /// A fresh record for `url` in `Unknown` status with zeroed counters, no
    /// probe history, and a full token bucket sized for `max_rps_milli`
    /// thousandths of a request per second.
    pub fn new(url: String, max_rps_milli: u64, now_nanos: u64) -> (p: Proxy)
        ensures
            p == spec_new_proxy(url, max_rps_milli, now_nanos),
            p.wf(),
    {
        Proxy {
            url,
            status: ProxyStatus::Unknown,
            success_count: 0,
            failure_count: 0,
            last_check: None,
            response_time: None,
            limiter: TokenBucket::new(max_rps_milli, now_nanos),
        }
    }

    /// The success rate of this proxy in parts per million: successes over
    /// total recorded requests, zero when nothing has been recorded.
    pub fn success_rate(&self) -> (r: u64)
        ensures
            r == spec_success_rate_ppm(self.success_count, self.failure_count),
    {
        let total: u64 = self.success_count as u64 + self.failure_count as u64;
        if total == 0 {
            0
        } else {
            (self.success_count as u64 * 1_000_000) / total
        }
    }
}

/// The record `Proxy::new` produces.
pub open spec fn spec_new_proxy(url: String, max_rps_milli: u64, now_nanos: u64) -> Proxy {
    Proxy {
        url,
        status: ProxyStatus::Unknown,
        success_count: 0,
        failure_count: 0,
        last_check: None,
        response_time: None,
        limiter: TokenBucket {
            capacity: crate::limiter::spec_capacity_for(max_rps_milli),
            micro_tokens: (crate::limiter::spec_capacity_for(max_rps_milli)
                * crate::limiter::MICROS_PER_TOKEN) as u64,
            last_refill_nanos: now_nanos,
        },
    }
}

} // verus!
