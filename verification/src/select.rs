//! Pure selection over a healthy-proxy snapshot.
//!
//! Each strategy is a deterministic function of the snapshot (and, for
//! round-robin, of a shared counter; for random, of a drawn index). Ties are
//! broken by the first proxy encountered in iteration order.

use vstd::prelude::*;

use crate::proxy::Proxy;

verus! {

/// Sort key for fastest-response selection: the measured latency in
/// milliseconds; a proxy with no measurement ranks after every measured one.
pub open spec fn spec_rt_key(p: Proxy) -> int {
    match p.response_time {
        Some(t) => t as int,
        None => u64::MAX as int + 1,
    }
}

/// Numerator of the success rate: recorded successes.
pub open spec fn spec_rate_num(p: Proxy) -> int {
    p.success_count as int
}

/// Denominator of the success rate: total recorded requests, or 1 when
/// nothing has been recorded (making the rate an exact 0).
pub open spec fn spec_rate_den(p: Proxy) -> int {
    if p.success_count + p.failure_count == 0 {
        1
    } else {
        p.success_count + p.failure_count
    }
}

/// `a`'s success rate is strictly higher than `b`'s, compared exactly as
/// rationals by cross-multiplication.
pub open spec fn spec_more_reliable(a: Proxy, b: Proxy) -> bool {
    spec_rate_num(a) * spec_rate_den(b) > spec_rate_num(b) * spec_rate_den(a)
}

/// Index of the first proxy with the lowest response-time key.
pub open spec fn spec_fastest_idx(s: Seq<Proxy>) -> int
    recommends
        s.len() > 0,
    decreases s.len(),
{
    if s.len() <= 1 {
        0
    } else {
        let k = spec_fastest_idx(s.drop_last());
        if spec_rt_key(s.last()) < spec_rt_key(s[k]) {
            s.len() - 1
        } else {
            k
        }
    }
}

/// Index of the first proxy with the highest success rate.
pub open spec fn spec_most_reliable_idx(s: Seq<Proxy>) -> int
    recommends
        s.len() > 0,
    decreases s.len(),
{
    if s.len() <= 1 {
        0
    } else {
        let k = spec_most_reliable_idx(s.drop_last());
        if spec_more_reliable(s.last(), s[k]) {
            s.len() - 1
        } else {
            k
        }
    }
}

/// The round-robin counter moved forward by one, wrapping to zero at the
/// top of its range.
pub open spec fn spec_advance_counter(c: u64) -> u64 {
    if c == u64::MAX {
        0
    } else {
        (c + 1) as u64
    }
}

/// `a` has a strictly lower response-time key than `b`.
pub fn faster(a: &Proxy, b: &Proxy) -> (r: bool)
    ensures
        r == (spec_rt_key(*a) < spec_rt_key(*b)),
{
    match (a.response_time, b.response_time) {
        (Some(x), Some(y)) => x < y,
        (Some(_), None) => true,
        (None, _) => false,
    }
}

/// `a`'s success rate is strictly higher than `b`'s, as exact rationals.
pub fn more_reliable(a: &Proxy, b: &Proxy) -> (r: bool)
    ensures
        r == spec_more_reliable(*a, *b),
{
    let den_a: u64 = {
        let t = a.success_count as u64 + a.failure_count as u64;
        if t == 0 {
            1
        } else {
            t
        }
    };
    let den_b: u64 = {
        let t = b.success_count as u64 + b.failure_count as u64;
        if t == 0 {
            1
        } else {
            t
        }
    };
    proof {
        assert((a.success_count as u128) * (den_b as u128) <= (u32::MAX as u128) * (2 * u32::MAX
            as u128) && (b.success_count as u128) * (den_a as u128) <= (u32::MAX as u128) * (2
            * u32::MAX as u128)) by (nonlinear_arith)
            requires
                a.success_count <= u32::MAX,
                b.success_count <= u32::MAX,
                1 <= den_a <= 2 * (u32::MAX as u64),
                1 <= den_b <= 2 * (u32::MAX as u64),
        ;
    }
    let lhs: u128 = (a.success_count as u128) * (den_b as u128);
    let rhs: u128 = (b.success_count as u128) * (den_a as u128);
    lhs > rhs
}

/// Index of the first proxy in `proxies` with the lowest response-time key.
pub fn select_fastest(proxies: &Vec<Proxy>) -> (i: usize)
    requires
        proxies@.len() > 0,
    ensures
        i == spec_fastest_idx(proxies@),
        i < proxies@.len(),
{
    let mut best: usize = 0;
    let mut j: usize = 1;
    while j < proxies.len()
        invariant
            1 <= j <= proxies@.len(),
            best < j,
            best == spec_fastest_idx(proxies@.subrange(0, j as int)),
        decreases proxies@.len() - j,
    {
        if faster(&proxies[j], &proxies[best]) {
            best = j;
        }
        proof {
            let pre = proxies@.subrange(0, j + 1);
            assert(pre.drop_last() =~= proxies@.subrange(0, j as int));
            assert(pre.last() == proxies@[j as int]);
        }
        j = j + 1;
    }
    proof {
        assert(proxies@.subrange(0, proxies@.len() as int) =~= proxies@);
    }
    best
}

/// Index of the first proxy in `proxies` with the highest success rate.
pub fn select_most_reliable(proxies: &Vec<Proxy>) -> (i: usize)
    requires
        proxies@.len() > 0,
    ensures
        i == spec_most_reliable_idx(proxies@),
        i < proxies@.len(),
{
    let mut best: usize = 0;
    let mut j: usize = 1;
    while j < proxies.len()
        invariant
            1 <= j <= proxies@.len(),
            best < j,
            best == spec_most_reliable_idx(proxies@.subrange(0, j as int)),
        decreases proxies@.len() - j,
    {
        if more_reliable(&proxies[j], &proxies[best]) {
            best = j;
        }
        proof {
            let pre = proxies@.subrange(0, j + 1);
            assert(pre.drop_last() =~= proxies@.subrange(0, j as int));
            assert(pre.last() == proxies@[j as int]);
        }
        j = j + 1;
    }
    proof {
        assert(proxies@.subrange(0, proxies@.len() as int) =~= proxies@);
    }
    best
}

/// The index the advanced round-robin counter lands on in a snapshot of
/// `n` proxies.
pub fn round_robin_index(counter: u64, n: usize) -> (i: usize)
    requires
        n > 0,
    ensures
        i == spec_advance_counter(counter) as int % n as int,
        i < n,
{
    let advanced: u64 = if counter == u64::MAX {
        0
    } else {
        counter + 1
    };
    (advanced % (n as u64)) as usize
}

} // verus!
