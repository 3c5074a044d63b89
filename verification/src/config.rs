//! Pool configuration.
//!
//! A configuration is built once and then consumed read-only. Durations are
//! carried in milliseconds and the per-proxy request rate in thousandths of
//! a request per second, so that every field is a plain integer.

use vstd::prelude::*;

verus! {

/// Strategy for selecting a proxy from the healthy subset.
#[derive(Debug, Clone, Copy, PartialEq, Eq, Structural)]
pub enum ProxySelectionStrategy {
    /// Select the proxy with the lowest measured latency; proxies with no
    /// measurement rank after every measured one.
    FastestResponse,
    /// Select the proxy with the highest success rate.
    MostReliable,
    /// Select a uniformly random healthy proxy.
    Random,
    /// Rotate through the healthy subset with a shared counter.
    RoundRobin,
}

/// Immutable configuration for a proxy pool.
#[derive(Debug)]
pub struct ProxyPoolConfig {
    /// Source URLs or file paths to load proxy lists from.
    pub sources: Vec<String>,
    /// Milliseconds between background health-check rounds.
    pub health_check_interval_millis: u64,
    /// Milliseconds before a health probe or a dispatched request times out.
    pub health_check_timeout_millis: u64,
    /// Advisory minimum number of available proxies; recorded but not
    /// enforced anywhere.
    pub min_available_proxies: usize,
    /// URL probed by health checks.
    pub health_check_url: String,
    /// How many times a failed request is retried against another proxy.
    pub retry_count: usize,
    /// Strategy for selecting proxies.
    pub selection_strategy: ProxySelectionStrategy,
    /// Per-proxy request budget, in thousandths of a request per second.
    pub max_requests_per_second_milli: u64,
}

impl ProxyPoolConfig {
    /// A builder with every field still unset.
    pub fn builder() -> (b: ProxyPoolConfigBuilder)
        ensures
            b.spec_is_empty(),
    {
        ProxyPoolConfigBuilder::new()
    }
}

/// Builder for [`ProxyPoolConfig`]; fields left unset fall back to defaults
/// in [`ProxyPoolConfigBuilder::build`].
#[derive(Debug)]
pub struct ProxyPoolConfigBuilder {
    /// Source URLs or file paths to load proxy lists from.
    pub sources: Vec<String>,
    /// Milliseconds between background health-check rounds.
    pub health_check_interval_millis: Option<u64>,
    /// Milliseconds before a health probe or a request times out.
    pub health_check_timeout_millis: Option<u64>,
    /// Advisory minimum number of available proxies.
    pub min_available_proxies: Option<usize>,
    /// URL probed by health checks.
    pub health_check_url: Option<String>,
    /// How many times a failed request is retried against another proxy.
    pub retry_count: Option<usize>,
    /// Strategy for selecting proxies.
    pub selection_strategy: Option<ProxySelectionStrategy>,
    /// Per-proxy request budget, in thousandths of a request per second.
    pub max_requests_per_second_milli: Option<u64>,
}

impl ProxyPoolConfigBuilder {
    /// Every field is still unset.
    pub open spec fn spec_is_empty(self) -> bool {
        &&& self.sources@ == Seq::<String>::empty()
        &&& self.health_check_interval_millis is None
        &&& self.health_check_timeout_millis is None
        &&& self.min_available_proxies is None
        &&& self.health_check_url is None
        &&& self.retry_count is None
        &&& self.selection_strategy is None
        &&& self.max_requests_per_second_milli is None
    }

    /// A builder with every field still unset.
    pub fn new() -> (b: Self)
        ensures
            b.spec_is_empty(),
    {
        Self {
            sources: Vec::new(),
            health_check_interval_millis: None,
            health_check_timeout_millis: None,
            min_available_proxies: None,
            health_check_url: None,
            retry_count: None,
            selection_strategy: None,
            max_requests_per_second_milli: None,
        }
    }

    /// Set the source URLs or file paths to load proxy lists from.
    pub fn sources(self, sources: Vec<String>) -> (r: Self)
        ensures
            r == (Self { sources, ..self }),
    {
        Self { sources, ..self }
    }

    /// Set the interval between health-check rounds, in milliseconds.
    pub fn health_check_interval_millis(self, millis: u64) -> (r: Self)
        ensures
            r == (Self { health_check_interval_millis: Some(millis), ..self }),
    {
        Self { health_check_interval_millis: Some(millis), ..self }
    }

    /// Set the probe and request timeout, in milliseconds.
    pub fn health_check_timeout_millis(self, millis: u64) -> (r: Self)
        ensures
            r == (Self { health_check_timeout_millis: Some(millis), ..self }),
    {
        Self { health_check_timeout_millis: Some(millis), ..self }
    }

    /// Set the advisory minimum number of available proxies.
    pub fn min_available_proxies(self, count: usize) -> (r: Self)
        ensures
            r == (Self { min_available_proxies: Some(count), ..self }),
    {
        Self { min_available_proxies: Some(count), ..self }
    }

    /// Set the URL probed by health checks.
    pub fn health_check_url(self, url: String) -> (r: Self)
        ensures
            r == (Self { health_check_url: Some(url), ..self }),
    {
        Self { health_check_url: Some(url), ..self }
    }

    /// Set how many times a failed request is retried against another proxy.
    pub fn retry_count(self, count: usize) -> (r: Self)
        ensures
            r == (Self { retry_count: Some(count), ..self }),
    {
        Self { retry_count: Some(count), ..self }
    }

    /// Set the strategy for selecting proxies.
    pub fn selection_strategy(self, strategy: ProxySelectionStrategy) -> (r: Self)
        ensures
            r == (Self { selection_strategy: Some(strategy), ..self }),
    {
        Self { selection_strategy: Some(strategy), ..self }
    }

    /// Set the per-proxy request budget, in thousandths of a request per
    /// second.
    pub fn max_requests_per_second_milli(self, milli: u64) -> (r: Self)
        ensures
            r == (Self { max_requests_per_second_milli: Some(milli), ..self }),
    {
        Self { max_requests_per_second_milli: Some(milli), ..self }
    }

    /// Build the configuration, filling every unset field with its default:
    /// a 300 s health-check interval, a 10 s timeout, 3 proxies as advisory
    /// minimum, 3 retries, fastest-response selection, 5 requests per
    /// second per proxy, and a well-known probe URL.
    pub fn build(self) -> (c: ProxyPoolConfig)
        ensures
            c.sources == self.sources,
            c.health_check_interval_millis == self.health_check_interval_millis.unwrap_or(
                300_000u64,
            ),
            c.health_check_timeout_millis == self.health_check_timeout_millis.unwrap_or(10_000u64),
            c.min_available_proxies == self.min_available_proxies.unwrap_or(3usize),
            (match self.health_check_url {
                Some(u) => c.health_check_url == u,
                None => c.health_check_url@ == "https://www.google.com"@,
            }),
            c.retry_count == self.retry_count.unwrap_or(3usize),
            c.selection_strategy == self.selection_strategy.unwrap_or(
                ProxySelectionStrategy::FastestResponse,
            ),
            c.max_requests_per_second_milli == self.max_requests_per_second_milli.unwrap_or(
                5_000u64,
            ),
    {
        ProxyPoolConfig {
            sources: self.sources,
            health_check_interval_millis: match self.health_check_interval_millis {
                Some(v) => v,
                None => 300_000,
            },
            health_check_timeout_millis: match self.health_check_timeout_millis {
                Some(v) => v,
                None => 10_000,
            },
            min_available_proxies: match self.min_available_proxies {
                Some(v) => v,
                None => 3,
            },
            health_check_url: match self.health_check_url {
                Some(u) => u,
                None => String::from_str("https://www.google.com"),
            },
            retry_count: match self.retry_count {
                Some(v) => v,
                None => 3,
            },
            selection_strategy: match self.selection_strategy {
                Some(s) => s,
                None => ProxySelectionStrategy::FastestResponse,
            },
            max_requests_per_second_milli: match self.max_requests_per_second_milli {
                Some(v) => v,
                None => 5_000,
            },
        }
    }
}

impl Default for ProxyPoolConfigBuilder {
    /// Same as [`ProxyPoolConfigBuilder::new`].
    fn default() -> (b: Self)
        ensures
            b.spec_is_empty(),
    {
        Self::new()
    }
}

} // verus!
