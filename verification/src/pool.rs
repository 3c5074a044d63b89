//! The proxy pool: the registry of proxy records, outcome recording,
//! health-round application, and strategy-driven selection.
//!
//! The pool is a sequential core: callers that share it across tasks wrap
//! it in a lock and read the clock themselves, handing timestamps in as
//! plain integers. No entry is ever removed; only the mutable health and
//! performance fields of each record change.

use vstd::prelude::*;

use crate::config::ProxyPoolConfig;
use crate::config::ProxySelectionStrategy;
use crate::error::NoProxyAvailable;
use crate::limiter::AcquireDecision;
use crate::proxy::Proxy;
use crate::proxy::ProxyStatus;
use crate::select;

verus! {

/// A proxy is eligible for selection.
pub open spec fn spec_is_healthy(p: Proxy) -> bool {
    p.status is Healthy
}

/// The healthy subset of a registry snapshot, in registry order.
pub open spec fn spec_healthy_of(s: Seq<Proxy>) -> Seq<Proxy> {
    s.filter(|p: Proxy| spec_is_healthy(p))
}

/// Some record in `s` has this URL.
pub open spec fn spec_has_url(s: Seq<Proxy>, url: Seq<char>) -> bool {
    exists|i: int| 0 <= i < s.len() && (#[trigger] s[i]).url@ == url
}

/// No two records in `s` share a URL.
pub open spec fn spec_urls_unique(s: Seq<Proxy>) -> bool {
    forall|i: int, j: int|
        0 <= i < j < s.len() ==> (#[trigger] s[i]).url@ != (#[trigger] s[j]).url@
}

/// A counter bumped by one, staying put at its ceiling.
pub open spec fn spec_saturating_inc(c: u32) -> u32 {
    if c == u32::MAX {
        c
    } else {
        (c + 1) as u32
    }
}

/// A record after a reported success: one more success, and the proxy is
/// optimistically promoted to `Healthy` whatever its prior status.
pub open spec fn spec_record_success(p: Proxy) -> Proxy {
    Proxy { success_count: spec_saturating_inc(p.success_count), status: ProxyStatus::Healthy, ..p }
}

/// The demotion rule: at least three recorded failures, and failures are
/// more than half of all recorded requests.
pub open spec fn spec_should_demote(success: u32, failure: u32) -> bool {
    failure >= 3 && 2 * (failure as int) > success + failure
}

/// A record after a reported failure: one more failure, and the proxy is
/// demoted to `Unhealthy` exactly when the demotion rule holds of the new
/// counters; otherwise its status is unchanged.
pub open spec fn spec_record_failure(p: Proxy) -> Proxy {
    let f = spec_saturating_inc(p.failure_count);
    Proxy {
        failure_count: f,
        status: if spec_should_demote(p.success_count, f) {
            ProxyStatus::Unhealthy
        } else {
            p.status
        },
        ..p
    }
}

/// A record after a health probe at `checked_at` (milliseconds): the status
/// follows the probe outcome, the latency is recorded only on success, and
/// the counters are untouched.
pub open spec fn spec_update_health(
    p: Proxy,
    healthy: bool,
    response_time: Option<u64>,
    checked_at: u64,
) -> Proxy {
    Proxy {
        status: if healthy {
            ProxyStatus::Healthy
        } else {
            ProxyStatus::Unhealthy
        },
        response_time: if healthy {
            response_time
        } else {
            p.response_time
        },
        last_check: Some(checked_at),
        ..p
    }
}

/// The outcome of one health probe against one proxy.
#[derive(Debug, Clone, PartialEq, Eq)]
pub struct ProbeResult {
    /// The probed proxy's URL.
    pub url: String,
    /// Whether a success-class response arrived within the timeout.
    pub healthy: bool,
    /// Measured latency in milliseconds; present only on success.
    pub response_time: Option<u64>,
}

/// The registry after applying one probe result: every record with the
/// probed URL (at most one, when URLs are unique) follows
/// [`spec_update_health`]; all others are untouched.
pub open spec fn spec_apply_one(s: Seq<Proxy>, r: ProbeResult, checked_at: u64) -> Seq<Proxy> {
    Seq::new(
        s.len(),
        |i: int|
            if s[i].url@ == r.url@ {
                spec_update_health(s[i], r.healthy, r.response_time, checked_at)
            } else {
                s[i]
            },
    )
}

/// The registry after applying a whole probe round, result by result, in
/// order.
pub open spec fn spec_apply_results(
    s: Seq<Proxy>,
    results: Seq<ProbeResult>,
    checked_at: u64,
) -> Seq<Proxy>
    decreases results.len(),
{
    if results.len() == 0 {
        s
    } else {
        spec_apply_results(spec_apply_one(s, results[0], checked_at), results.drop_first(), checked_at)
    }
}

/// The registry after inserting records for `urls` in order, skipping any
/// URL that already has a record (in the registry or earlier in `urls`).
pub open spec fn spec_merge_urls(
    s: Seq<Proxy>,
    urls: Seq<String>,
    max_rps_milli: u64,
    now_nanos: u64,
) -> Seq<Proxy>
    decreases urls.len(),
{
    if urls.len() == 0 {
        s
    } else {
        let s1 = if spec_has_url(s, urls[0]@) {
            s
        } else {
            s.push(crate::proxy::spec_new_proxy(urls[0], max_rps_milli, now_nanos))
        };
        spec_merge_urls(s1, urls.drop_first(), max_rps_milli, now_nanos)
    }
}

/// How many records in `s` carry this URL.
pub open spec fn spec_url_count(s: Seq<Proxy>, url: Seq<char>) -> int
    decreases s.len(),
{
    if s.len() == 0 {
        0
    } else {
        spec_url_count(s.drop_last(), url) + if s.last().url@ == url {
            1int
        } else {
            0int
        }
    }
}

/// A pool of proxies: the registry, the configuration, and the shared
/// round-robin counter.
///
/// The fields are public so that contracts can speak about them; callers
/// are expected to go through the methods.
#[derive(Debug)]
pub struct ProxyPool {
    /// All proxy records, in insertion order.
    pub proxies: Vec<Proxy>,
    /// The pool's configuration.
    pub config: ProxyPoolConfig,
    /// Shared round-robin counter; advanced before indexing on each
    /// round-robin selection and never reset.
    pub last_proxy_index: u64,
}

impl View for ProxyPool {
    type V = Seq<Proxy>;

    open spec fn view(&self) -> Seq<Proxy> {
        self.proxies@
    }
}

impl ProxyPool {
    /// Well-formedness: URLs are unique and every record's bucket is
    /// well-formed.
    pub open spec fn wf(self) -> bool {
        &&& spec_urls_unique(self@)
        &&& forall|i: int| 0 <= i < self@.len() ==> (#[trigger] self@[i]).wf()
    }

    /// An empty pool holding `config`.
    pub fn new(config: ProxyPoolConfig) -> (pool: ProxyPool)
        ensures
            pool.wf(),
            pool@ == Seq::<Proxy>::empty(),
            pool.config == config,
            pool.last_proxy_index == 0,
    {
        let pool = ProxyPool { proxies: Vec::new(), config, last_proxy_index: 0 };
        proof {
            assert(pool@ =~= Seq::<Proxy>::empty());
        }
        pool
    }

    /// The index of the record with this URL, if any.
    pub fn find_index(&self, url: &String) -> (r: Option<usize>)
        ensures
            match r {
                Some(i) => i < self@.len() && self@[i as int].url@ == url@,
                None => !spec_has_url(self@, url@),
            },
    {
        let n = self.proxies.len();
        let mut i: usize = 0;
        while i < n
            invariant
                i <= n,
                n == self@.len(),
                forall|k: int| 0 <= k < i ==> (#[trigger] self@[k]).url@ != url@,
            decreases n - i,
        {
            if self.proxies[i].url == *url {
                return Some(i);
            }
            i = i + 1;
        }
        None
    }

    /// Record a successful request through the proxy with this URL: its
    /// success counter grows by exactly one (saturating at its ceiling) and
    /// its status becomes `Healthy`, whatever it was before. A URL not in
    /// the registry changes nothing.
    pub fn report_proxy_success(&mut self, url: &String)
        requires
            old(self).wf(),
        ensures
            final(self).wf(),
            final(self).config == old(self).config,
            final(self).last_proxy_index == old(self).last_proxy_index,
            final(self)@.len() == old(self)@.len(),
            !spec_has_url(old(self)@, url@) ==> final(self)@ == old(self)@,
            forall|i: int|
                0 <= i < old(self)@.len() && (#[trigger] old(self)@[i]).url@ == url@ ==> final(self)@ == old(self)@.update(i, spec_record_success(old(self)@[i])),
    {
        match self.find_index(url) {
            None => {},
            Some(i) => {
                let p = &mut self.proxies[i];
                if p.success_count < u32::MAX {
                    p.success_count = p.success_count + 1;
                }
                p.status = ProxyStatus::Healthy;
                proof {
                    lemma_same_urls_preserve_wf(old(self)@, self@);
                    assert forall|k: int|
                        0 <= k < old(self)@.len() && (#[trigger] old(self)@[k]).url@
                            == url@ implies self@ == old(self)@.update(k, spec_record_success(old(self)@[k])) by {
                        assert(k == i);
                    }
                }
            },
        }
    }

    /// Record a failed request through the proxy with this URL: its failure
    /// counter grows by exactly one (saturating at its ceiling), and it is
    /// demoted to `Unhealthy` exactly when the new counters satisfy the
    /// demotion rule — at least three failures, and failures more than half
    /// of all recorded requests; otherwise its status is unchanged. A URL
    /// not in the registry changes nothing.
    pub fn report_proxy_failure(&mut self, url: &String)
        requires
            old(self).wf(),
        ensures
            final(self).wf(),
            final(self).config == old(self).config,
            final(self).last_proxy_index == old(self).last_proxy_index,
            final(self)@.len() == old(self)@.len(),
            !spec_has_url(old(self)@, url@) ==> final(self)@ == old(self)@,
            forall|i: int|
                0 <= i < old(self)@.len() && (#[trigger] old(self)@[i]).url@ == url@ ==> final(self)@ == old(self)@.update(i, spec_record_failure(old(self)@[i])),
    {
        match self.find_index(url) {
            None => {},
            Some(i) => {
                let p = &mut self.proxies[i];
                if p.failure_count < u32::MAX {
                    p.failure_count = p.failure_count + 1;
                }
                if p.failure_count >= 3 && p.failure_count > p.success_count {
                    p.status = ProxyStatus::Unhealthy;
                }
                proof {
                    lemma_same_urls_preserve_wf(old(self)@, self@);
                    assert forall|k: int|
                        0 <= k < old(self)@.len() && (#[trigger] old(self)@[k]).url@
                            == url@ implies self@ == old(self)@.update(k, spec_record_failure(old(self)@[k])) by {
                        assert(k == i);
                    }
                }
            },
        }
    }

    /// Apply one health-probe result to the proxy with this URL: status
    /// follows the probe, latency is recorded only on success, and
    /// `checked_at` (milliseconds) becomes the time of the most recent
    /// check. Counters are untouched. A URL not in the registry changes
    /// nothing.
    pub fn update_health(
        &mut self,
        url: &String,
        healthy: bool,
        response_time: Option<u64>,
        checked_at: u64,
    )
        requires
            old(self).wf(),
        ensures
            final(self).wf(),
            final(self).config == old(self).config,
            final(self).last_proxy_index == old(self).last_proxy_index,
            final(self)@.len() == old(self)@.len(),
            !spec_has_url(old(self)@, url@) ==> final(self)@ == old(self)@,
            forall|i: int|
                0 <= i < old(self)@.len() && (#[trigger] old(self)@[i]).url@ == url@ ==> final(self)@ == old(self)@.update(
                    i,
                    spec_update_health(old(self)@[i], healthy, response_time, checked_at),
                ),
    {
        match self.find_index(url) {
            None => {},
            Some(i) => {
                let p = &mut self.proxies[i];
                if healthy {
                    p.status = ProxyStatus::Healthy;
                    p.response_time = response_time;
                } else {
                    p.status = ProxyStatus::Unhealthy;
                }
                p.last_check = Some(checked_at);
                proof {
                    lemma_same_urls_preserve_wf(old(self)@, self@);
                    assert forall|k: int|
                        0 <= k < old(self)@.len() && (#[trigger] old(self)@[k]).url@
                            == url@ implies self@ == old(self)@.update(k, spec_update_health(old(self)@[k], healthy, response_time, checked_at)) by {
                        assert(k == i);
                    }
                }
            },
        }
    }

    /// Insert a record in `Unknown` status for each URL in `urls` that has
    /// none yet, in order, deduplicating by exact URL; existing records are
    /// left untouched. Each new record's bucket is sized from the
    /// configuration and stamped with `now_nanos`.
    pub fn add_proxies(&mut self, urls: &Vec<String>, now_nanos: u64)
        requires
            old(self).wf(),
        ensures
            final(self).wf(),
            final(self).config == old(self).config,
            final(self).last_proxy_index == old(self).last_proxy_index,
            final(self)@ == spec_merge_urls(
                old(self)@,
                urls@,
                old(self).config.max_requests_per_second_milli,
                now_nanos,
            ),
    {
        let ghost rps = self.config.max_requests_per_second_milli;
        let n = urls.len();
        let mut k: usize = 0;
        proof {
            assert(urls@.skip(0) =~= urls@);
        }
        while k < n
            invariant
                k <= n,
                n == urls@.len(),
                self.wf(),
                self.config == old(self).config,
                self.last_proxy_index == old(self).last_proxy_index,
                rps == self.config.max_requests_per_second_milli,
                spec_merge_urls(old(self)@, urls@, rps, now_nanos) == spec_merge_urls(
                    self@,
                    urls@.skip(k as int),
                    rps,
                    now_nanos,
                ),
            decreases n - k,
        {
            let url_k = urls[k].clone();
            let ghost pre = self@;
            match self.find_index(&url_k) {
                Some(_) => {},
                None => {
                    let rps_now = self.config.max_requests_per_second_milli;
                    let p = Proxy::new(url_k, rps_now, now_nanos);
                    proof {
                        let q = crate::proxy::spec_new_proxy(urls@[k as int], rps, now_nanos);
                        assert(p == q);
                        assert forall|i: int, j: int|
                            0 <= i < j < pre.push(q).len() implies (#[trigger] pre.push(q)[i]).url@
                            != (#[trigger] pre.push(q)[j]).url@ by {
                            if j < pre.len() {
                                assert(pre[i].url@ != pre[j].url@);
                            } else {
                                assert(!spec_has_url(pre, urls@[k as int]@));
                                assert(pre.push(q)[i] == pre[i]);
                            }
                        }
                    }
                    self.proxies.push(p);
                },
            }
            proof {
                assert(urls@.skip(k as int).drop_first() =~= urls@.skip(k + 1));
                assert(urls@.skip(k as int)[0] == urls@[k as int]);
                assert(spec_merge_urls(pre, urls@.skip(k as int), rps, now_nanos)
                    == spec_merge_urls(self@, urls@.skip(k + 1), rps, now_nanos));
            }
            k = k + 1;
        }
        proof {
            assert(urls@.skip(n as int) =~= Seq::<String>::empty());
        }
    }

    /// Apply a whole health round: every result, in order, updates its
    /// proxy as [`ProxyPool::update_health`] does. Collected first and
    /// applied in one batch, a round replaces each touched proxy's status
    /// and latency wholesale.
    pub fn apply_health_results(&mut self, results: &Vec<ProbeResult>, checked_at: u64)
        requires
            old(self).wf(),
        ensures
            final(self).wf(),
            final(self).config == old(self).config,
            final(self).last_proxy_index == old(self).last_proxy_index,
            final(self)@ == spec_apply_results(old(self)@, results@, checked_at),
    {
        let n = results.len();
        let mut k: usize = 0;
        proof {
            assert(results@.skip(0) =~= results@);
        }
        while k < n
            invariant
                k <= n,
                n == results@.len(),
                self.wf(),
                self.config == old(self).config,
                self.last_proxy_index == old(self).last_proxy_index,
                spec_apply_results(old(self)@, results@, checked_at) == spec_apply_results(
                    self@,
                    results@.skip(k as int),
                    checked_at,
                ),
            decreases n - k,
        {
            let ghost pre = self@;
            let r = &results[k];
            self.update_health(&r.url, r.healthy, r.response_time, checked_at);
            proof {
                let rs = results@[k as int];
                if spec_has_url(pre, rs.url@) {
                    let i = choose|i: int| 0 <= i < pre.len() && (#[trigger] pre[i]).url@
                        == rs.url@;
                    assert(self@ == pre.update(
                        i,
                        spec_update_health(pre[i], rs.healthy, rs.response_time, checked_at),
                    ));
                    assert forall|j: int| 0 <= j < pre.len() && j != i implies (
                    #[trigger] pre[j]).url@ != rs.url@ by {
                        assert(spec_urls_unique(pre));
                    }
                    assert(self@ =~= spec_apply_one(pre, rs, checked_at));
                } else {
                    assert(self@ == pre);
                    assert(forall|j: int|
                        0 <= j < pre.len() ==> (#[trigger] pre[j]).url@ != rs.url@);
                    assert(self@ =~= spec_apply_one(pre, rs, checked_at));
                }
                assert(results@.skip(k as int).drop_first() =~= results@.skip(k + 1));
                assert(results@.skip(k as int)[0] == rs);
                assert(spec_apply_results(pre, results@.skip(k as int), checked_at)
                    == spec_apply_results(self@, results@.skip(k + 1), checked_at));
            }
            k = k + 1;
        }
        proof {
            assert(results@.skip(n as int) =~= Seq::<ProbeResult>::empty());
        }
    }

    /// A point-in-time copy of the healthy subset, in registry order.
    pub fn list_healthy(&self) -> (r: Vec<Proxy>)
        ensures
            r@ == spec_healthy_of(self@),
    {
        let mut healthy: Vec<Proxy> = Vec::new();
        let n = self.proxies.len();
        let mut i: usize = 0;
        proof {
            assert(self@.take(0) =~= Seq::<Proxy>::empty());
            assert(healthy@ =~= spec_healthy_of(self@.take(0)));
        }
        while i < n
            invariant
                i <= n,
                n == self@.len(),
                healthy@ == spec_healthy_of(self@.take(i as int)),
            decreases n - i,
        {
            broadcast use vstd::seq_lib::group_filter_ensures;

            let p = &self.proxies[i];
            proof {
                assert(self@.take(i + 1) =~= self@.take(i as int).push(self@[i as int]));
                self@.take(i as int).lemma_filter_push(
                    self@[i as int],
                    |q: Proxy| spec_is_healthy(q),
                );
            }
            if matches!(p.status, ProxyStatus::Healthy) {
                healthy.push(p.clone());
            }
            i = i + 1;
        }
        proof {
            assert(self@.take(n as int) =~= self@);
        }
        healthy
    }

    /// Select a proxy from the current healthy subset under the configured
    /// strategy. Returns `NoProxyAvailable` exactly when no proxy is
    /// healthy, whatever the strategy. On success the returned snapshot is
    /// a healthy record of the registry: the first-encountered fastest one,
    /// the first-encountered most reliable one, a uniformly random one, or
    /// the one the advanced round-robin counter lands on. Only round-robin
    /// selection moves the counter; the registry itself never changes.
    pub fn get_proxy(&mut self) -> (r: Result<Proxy, NoProxyAvailable>)
        requires
            old(self).wf(),
        ensures
            final(self).wf(),
            final(self)@ == old(self)@,
            final(self).config == old(self).config,
            ({
                let h = spec_healthy_of(old(self)@);
                match r {
                    Err(_) => h.len() == 0 && final(self).last_proxy_index == old(
                        self,
                    ).last_proxy_index,
                    Ok(p) => {
                        &&& h.len() > 0
                        &&& p.status is Healthy
                        &&& (match old(self).config.selection_strategy {
                            ProxySelectionStrategy::FastestResponse => p == h[select::spec_fastest_idx(
                                h,
                            )] && final(self).last_proxy_index == old(self).last_proxy_index,
                            ProxySelectionStrategy::MostReliable => p == h[select::spec_most_reliable_idx(
                                h,
                            )] && final(self).last_proxy_index == old(self).last_proxy_index,
                            ProxySelectionStrategy::Random => (exists|i: int|
                                0 <= i < h.len() && p == h[i]) && final(self).last_proxy_index
                                == old(self).last_proxy_index,
                            ProxySelectionStrategy::RoundRobin => p == h[select::spec_advance_counter(
                                old(self).last_proxy_index,
                            ) as int % h.len() as int] && final(self).last_proxy_index
                                == select::spec_advance_counter(old(self).last_proxy_index),
                        })
                    },
                }
            }),
    {
        let healthy = self.list_healthy();
        if healthy.len() == 0 {
            return Err(NoProxyAvailable);
        }
        let idx: usize = match self.config.selection_strategy {
            ProxySelectionStrategy::FastestResponse => select::select_fastest(&healthy),
            ProxySelectionStrategy::MostReliable => select::select_most_reliable(&healthy),
            ProxySelectionStrategy::Random => random_index(healthy.len()),
            ProxySelectionStrategy::RoundRobin => {
                let i = select::round_robin_index(self.last_proxy_index, healthy.len());
                self.last_proxy_index = if self.last_proxy_index == u64::MAX {
                    0
                } else {
                    self.last_proxy_index + 1
                };
                i
            },
        };
        let chosen = healthy[idx].clone();
        proof {
            broadcast use vstd::seq_lib::group_filter_ensures;

            assert(spec_is_healthy(spec_healthy_of(old(self)@)[idx as int]));
        }
        Ok(chosen)
    }

    /// Ask the bucket of the proxy with this URL for one token, refilled up
    /// to `now_nanos`. Returns `None`, changing nothing, when the URL has no
    /// record; otherwise exactly the bucket decision: a token was taken, or
    /// how long the caller must wait. Only that proxy's bucket changes.
    pub fn try_acquire(&mut self, url: &String, now_nanos: u64) -> (r: Option<AcquireDecision>)
        requires
            old(self).wf(),
        ensures
            final(self).wf(),
            final(self).config == old(self).config,
            final(self).last_proxy_index == old(self).last_proxy_index,
            final(self)@.len() == old(self)@.len(),
            match r {
                None => !spec_has_url(old(self)@, url@) && final(self)@ == old(self)@,
                Some(d) => spec_has_url(old(self)@, url@) && (forall|i: int|
                    0 <= i < old(self)@.len() && (#[trigger] old(self)@[i]).url@ == url@
                        ==> final(self)@ == old(self)@.update(
                        i,
                        (Proxy { limiter: final(self)@[i].limiter, ..old(self)@[i] }),
                    ) && crate::limiter::spec_acquire_transition(
                        old(self)@[i].limiter,
                        final(self)@[i].limiter,
                        d,
                        now_nanos,
                    )),
            },
    {
        match self.find_index(url) {
            None => None,
            Some(i) => {
                let p = &mut self.proxies[i];
                let d = p.limiter.try_acquire(now_nanos);
                proof {
                    lemma_same_urls_unique(old(self)@, self@);
                    assert forall|k: int| 0 <= k < self@.len() implies (
                    #[trigger] self@[k]).wf() by {
                        assert(old(self)@[k].wf());
                        if k != i {
                            assert(self@[k] == old(self)@[k]);
                        }
                    }
                    assert forall|k: int|
                        0 <= k < old(self)@.len() && (#[trigger] old(self)@[k]).url@
                            == url@ implies self@ == old(self)@.update(
                        k,
                        (Proxy { limiter: self@[k].limiter, ..old(self)@[k] }),
                    ) by {
                        assert(k == i);
                    }
                }
                Some(d)
            },
        }
    }

    /// Registry statistics: total records, and how many are healthy.
    pub fn get_stats(&self) -> (r: (usize, usize))
        ensures
            r.0 == self@.len(),
            r.1 == spec_healthy_of(self@).len(),
    {
        let healthy = self.list_healthy();
        (self.proxies.len(), healthy.len())
    }
}

/// Inserting URLs never breaks URL uniqueness.
proof fn lemma_merge_preserves_unique(s: Seq<Proxy>, urls: Seq<String>, rps: u64, now: u64)
    requires
        spec_urls_unique(s),
    ensures
        spec_urls_unique(spec_merge_urls(s, urls, rps, now)),
    decreases urls.len(),
{
    if urls.len() > 0 {
        let q = crate::proxy::spec_new_proxy(urls[0], rps, now);
        let s1 = if spec_has_url(s, urls[0]@) {
            s
        } else {
            s.push(q)
        };
        if !spec_has_url(s, urls[0]@) {
            assert forall|i: int, j: int| 0 <= i < j < s1.len() implies (#[trigger] s1[i]).url@
                != (#[trigger] s1[j]).url@ by {
                if j < s.len() {
                    assert(s[i].url@ != s[j].url@);
                } else {
                    assert(s1[i] == s[i]);
                }
            }
        }
        lemma_merge_preserves_unique(s1, urls.drop_first(), rps, now);
    }
}

/// A URL already present, or contributed by the inserted list, has a
/// record after the merge.
proof fn lemma_merge_has_url(s: Seq<Proxy>, urls: Seq<String>, rps: u64, now: u64, u: Seq<char>)
    requires
        spec_has_url(s, u) || (exists|k: int| 0 <= k < urls.len() && (#[trigger] urls[k])@ == u),
    ensures
        spec_has_url(spec_merge_urls(s, urls, rps, now), u),
    decreases urls.len(),
{
    if urls.len() == 0 {
    } else {
        let q = crate::proxy::spec_new_proxy(urls[0], rps, now);
        let s1 = if spec_has_url(s, urls[0]@) {
            s
        } else {
            s.push(q)
        };
        if spec_has_url(s, u) {
            let i = choose|i: int| 0 <= i < s.len() && (#[trigger] s[i]).url@ == u;
            assert(s1[i].url@ == u);
        } else {
            let k = choose|k: int| 0 <= k < urls.len() && (#[trigger] urls[k])@ == u;
            if k == 0 {
                if spec_has_url(s, urls[0]@) {
                    assert(spec_has_url(s, u));
                } else {
                    assert(s1[s.len() as int] == q);
                    assert(spec_has_url(s1, u));
                }
            } else {
                assert(urls.drop_first()[k - 1]@ == u);
            }
        }
        lemma_merge_has_url(s1, urls.drop_first(), rps, now, u);
    }
}

/// In a registry with pairwise distinct URLs, a URL that is present at all
/// is present exactly once.
proof fn lemma_unique_url_count(s: Seq<Proxy>, u: Seq<char>)
    requires
        spec_urls_unique(s),
    ensures
        spec_url_count(s, u) == if spec_has_url(s, u) {
            1int
        } else {
            0int
        },
    decreases s.len(),
{
    if s.len() == 0 {
        assert(!spec_has_url(s, u));
    } else {
        let t = s.drop_last();
        let last = s.last();
        assert(spec_urls_unique(t)) by {
            assert(forall|i: int| 0 <= i < t.len() ==> #[trigger] t[i] == s[i]);
        }
        lemma_unique_url_count(t, u);
        if last.url@ == u {
            assert(spec_has_url(s, u));
            assert(!spec_has_url(t, u)) by {
                if spec_has_url(t, u) {
                    let i = choose|i: int| 0 <= i < t.len() && (#[trigger] t[i]).url@ == u;
                    assert(s[i].url@ == s[s.len() - 1].url@);
                    assert(false);
                }
            }
            assert(spec_url_count(s, u) == 1);
        } else {
            assert(spec_url_count(s, u) == spec_url_count(t, u));
            assert(spec_has_url(s, u) == spec_has_url(t, u)) by {
                if spec_has_url(s, u) {
                    let i = choose|i: int| 0 <= i < s.len() && (#[trigger] s[i]).url@ == u;
                    assert(i < t.len() && t[i] == s[i]);
                }
            }
        }
    }
}

/// Merging any lists of source URLs into a well-formed registry
/// deduplicates by exact URL: a URL contributed by the merged list, or
/// already present, ends up with exactly one registry record — in
/// particular, two sources that both yield the same URL produce one entry.
pub proof fn lemma_merge_dedup(s: Seq<Proxy>, urls: Seq<String>, rps: u64, now: u64, u: Seq<char>)
    requires
        spec_urls_unique(s),
        spec_has_url(s, u) || (exists|k: int| 0 <= k < urls.len() && (#[trigger] urls[k])@ == u),
    ensures
        spec_url_count(spec_merge_urls(s, urls, rps, now), u) == 1,
{
    lemma_merge_preserves_unique(s, urls, rps, now);
    lemma_merge_has_url(s, urls, rps, now, u);
    lemma_unique_url_count(spec_merge_urls(s, urls, rps, now), u);
}

/// Relies on rand::random_range: a uniform draw over the half-open range
/// `0..n` is always within it; an empty range panics, which the
/// precondition rules out.
#[verifier::external_body]
fn random_index(n: usize) -> (r: usize)
    requires
        n > 0,
    ensures
        r < n,
{
    rand::random_range(0..n)
}

/// Two registry snapshots of equal length whose records carry the same
/// URLs pairwise: uniqueness carries over.
proof fn lemma_same_urls_unique(a: Seq<Proxy>, b: Seq<Proxy>)
    requires
        spec_urls_unique(a),
        a.len() == b.len(),
        forall|i: int| 0 <= i < a.len() ==> (#[trigger] b[i]).url@ == a[i].url@,
    ensures
        spec_urls_unique(b),
{
    assert forall|i: int, j: int| 0 <= i < j < b.len() implies (#[trigger] b[i]).url@ != (
    #[trigger] b[j]).url@ by {
        assert(a[i].url@ != a[j].url@);
    }
}

/// Two registry snapshots of equal length whose records carry the same URLs
/// and buckets pairwise are either both well-formed or neither.
proof fn lemma_same_urls_preserve_wf(a: Seq<Proxy>, b: Seq<Proxy>)
    requires
        spec_urls_unique(a),
        forall|i: int| 0 <= i < a.len() ==> (#[trigger] a[i]).wf(),
        a.len() == b.len(),
        forall|i: int|
            0 <= i < a.len() ==> (#[trigger] b[i]).url@ == a[i].url@ && b[i].limiter
                == a[i].limiter,
    ensures
        spec_urls_unique(b),
        forall|i: int| 0 <= i < b.len() ==> (#[trigger] b[i]).wf(),
{
    assert forall|i: int, j: int| 0 <= i < j < b.len() implies (#[trigger] b[i]).url@ != (
    #[trigger] b[j]).url@ by {
        assert(a[i].url@ != a[j].url@);
    }
    assert forall|i: int| 0 <= i < b.len() implies (#[trigger] b[i]).wf() by {
        assert(a[i].wf());
    }
}

} // verus!
