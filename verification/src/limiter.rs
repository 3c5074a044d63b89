//! Per-proxy token-bucket rate limiting.
//!
//! Each proxy owns one bucket. The bucket's capacity is the configured
//! maximum requests per second, rounded up to a whole number of tokens and
//! clamped to at least one. Tokens refill continuously at `capacity` tokens
//! per second; a caller takes one whole token per request, or is told for
//! how long to wait.
//!
//! Token amounts are tracked in micro-tokens and time in nanoseconds, so
//! that the continuous refill can be stated exactly over integers.

use vstd::prelude::*;

verus! {

/// Micro-tokens making up one whole token.
pub const MICROS_PER_TOKEN: u64 = 1_000_000;

/// Largest bucket capacity, in whole tokens per second.
pub const MAX_CAPACITY: u64 = 1_000_000;

/// Requests-per-second settings (in thousandths) at or above this value are
/// clamped to `MAX_CAPACITY` whole tokens.
pub const MAX_RPS_MILLI: u64 = 1_000_000_000;

/// The bucket capacity derived from a maximum requests-per-second setting
/// given in thousandths of a request per second: the setting rounded up to a
/// whole number of tokens, clamped to the range `1 ..= MAX_CAPACITY`.
pub open spec fn spec_capacity_for(max_rps_milli: u64) -> u64 {
    if max_rps_milli == 0 {
        1
    } else if max_rps_milli >= MAX_RPS_MILLI {
        MAX_CAPACITY
    } else {
        ((max_rps_milli + 999) / 1000) as u64
    }
}

/// One token bucket: `capacity` whole tokens per second, a current balance
/// in micro-tokens, and the instant of the most recent refill.
#[derive(Debug, Clone, Copy, PartialEq, Eq, Structural)]
pub struct TokenBucket {
    /// Whole tokens held when full; also the refill rate in tokens/second.
    pub capacity: u64,
    /// Current balance, in micro-tokens.
    pub micro_tokens: u64,
    /// Instant of the most recent refill, in nanoseconds.
    pub last_refill_nanos: u64,
}

/// Outcome of asking the bucket for one token.
#[derive(Debug, Clone, Copy, PartialEq, Eq, Structural)]
pub enum AcquireDecision {
    /// A token was taken; the request may proceed now.
    Granted,
    /// No whole token is available; a token will have refilled after this
    /// many nanoseconds.
    WaitNanos(u64),
}

/// How [`TokenBucket::try_acquire`] at `now_nanos` relates the bucket
/// before (`b`) to the bucket after (`nb`) and to its decision `d`.
pub open spec fn spec_acquire_transition(
    b: TokenBucket,
    nb: TokenBucket,
    d: AcquireDecision,
    now_nanos: u64,
) -> bool {
    let avail = b.spec_available(now_nanos);
    &&& nb.capacity == b.capacity
    &&& nb.last_refill_nanos == now_nanos
    &&& if avail >= MICROS_PER_TOKEN {
        d == AcquireDecision::Granted && nb.micro_tokens == avail - MICROS_PER_TOKEN
    } else {
        d == (AcquireDecision::WaitNanos(b.spec_wait_nanos(now_nanos) as u64)) && nb.micro_tokens
            == avail
    }
}

impl TokenBucket {
    /// Well-formedness: the capacity is in range and the balance never
    /// exceeds a full bucket.
    pub open spec fn wf(self) -> bool {
        &&& 1 <= self.capacity <= MAX_CAPACITY
        &&& self.micro_tokens <= self.capacity * MICROS_PER_TOKEN
    }

    /// The balance in micro-tokens after refilling at `now_nanos`:
    /// the stored balance plus `capacity` micro-tokens per 1000 elapsed
    /// nanoseconds, capped at a full bucket. A clock that moved backwards
    /// adds nothing.
    pub open spec fn spec_available(self, now_nanos: u64) -> int {
        let elapsed: int = if now_nanos > self.last_refill_nanos {
            now_nanos - self.last_refill_nanos
        } else {
            0
        };
        let refilled: int = self.micro_tokens + elapsed * self.capacity / 1000;
        if refilled > self.capacity * MICROS_PER_TOKEN {
            self.capacity * MICROS_PER_TOKEN
        } else {
            refilled
        }
    }

    /// Nanoseconds until a full token will have refilled, given the balance
    /// after refilling at `now_nanos` is short of one token: the shortfall
    /// converted to time at `capacity` tokens per second, rounded up.
    pub open spec fn spec_wait_nanos(self, now_nanos: u64) -> int {
        let needed: int = MICROS_PER_TOKEN - self.spec_available(now_nanos);
        (needed * 1000 + (self.capacity - 1)) / (self.capacity as int)
    }

    /// A fresh, full bucket sized for `max_rps_milli` thousandths of a
    /// request per second.
    pub fn new(max_rps_milli: u64, now_nanos: u64) -> (b: TokenBucket)
        ensures
            b.wf(),
            b.capacity == spec_capacity_for(max_rps_milli),
            b.micro_tokens == b.capacity * MICROS_PER_TOKEN,
            b.last_refill_nanos == now_nanos,
    {
        let capacity: u64 = if max_rps_milli == 0 {
            1
        } else if max_rps_milli >= MAX_RPS_MILLI {
            MAX_CAPACITY
        } else {
            (max_rps_milli + 999) / 1000
        };
        TokenBucket {
            capacity,
            micro_tokens: capacity * MICROS_PER_TOKEN,
            last_refill_nanos: now_nanos,
        }
    }

    /// Refill the bucket for the time elapsed up to `now_nanos`, then take
    /// one token if a whole one is available; otherwise report how long the
    /// caller must wait before a whole token will have refilled.
    pub fn try_acquire(&mut self, now_nanos: u64) -> (r: AcquireDecision)
        requires
            old(self).wf(),
        ensures
            final(self).wf(),
            final(self).capacity == old(self).capacity,
            final(self).last_refill_nanos == now_nanos,
            ({
                let avail = old(self).spec_available(now_nanos);
                if avail >= MICROS_PER_TOKEN {
                    &&& r == AcquireDecision::Granted
                    &&& final(self).micro_tokens == avail - MICROS_PER_TOKEN
                } else {
                    &&& r == (AcquireDecision::WaitNanos(
                        old(self).spec_wait_nanos(now_nanos) as u64,
                    ))
                    &&& old(self).spec_wait_nanos(now_nanos) > 0
                    &&& final(self).micro_tokens == avail
                }
            }),
    {
        let elapsed: u64 = if now_nanos > self.last_refill_nanos {
            now_nanos - self.last_refill_nanos
        } else {
            0
        };
        let cap_micro: u64 = self.capacity * MICROS_PER_TOKEN;
        proof {
            assert((elapsed as u128) * (self.capacity as u128) <= u64::MAX as u128 * MAX_CAPACITY
                as u128) by (nonlinear_arith)
                requires
                    elapsed <= u64::MAX,
                    self.capacity <= MAX_CAPACITY,
            ;
        }
        let added: u128 = (elapsed as u128) * (self.capacity as u128) / 1000;
        let total: u128 = (self.micro_tokens as u128) + added;
        let avail: u64 = if total > (cap_micro as u128) {
            cap_micro
        } else {
            total as u64
        };
        self.last_refill_nanos = now_nanos;
        if avail >= MICROS_PER_TOKEN {
            self.micro_tokens = avail - MICROS_PER_TOKEN;
            AcquireDecision::Granted
        } else {
            self.micro_tokens = avail;
            let needed: u64 = MICROS_PER_TOKEN - avail;
            let wait: u64 = (needed * 1000 + (self.capacity - 1)) / self.capacity;
            proof {
                let num: int = needed * 1000 + (self.capacity - 1);
                assert(wait == num / (self.capacity as int));
                assert(num >= self.capacity);
                assert(num / (self.capacity as int) >= 1) by (nonlinear_arith)
                    requires
                        num >= self.capacity,
                        self.capacity >= 1,
                ;
            }
            AcquireDecision::WaitNanos(wait)
        }
    }
}

} // verus!

