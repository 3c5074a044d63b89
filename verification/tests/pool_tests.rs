use proxy_pool::config::{ProxyPoolConfig, ProxySelectionStrategy};
use proxy_pool::limiter::AcquireDecision;
use proxy_pool::pool::{ProbeResult, ProxyPool};
use proxy_pool::proxy::ProxyStatus;

fn pool_with(strategy: ProxySelectionStrategy, urls: &[&str]) -> ProxyPool {
    let config = ProxyPoolConfig::builder()
        .selection_strategy(strategy)
        .build();
    let mut pool = ProxyPool::new(config);
    let urls: Vec<String> = urls.iter().map(|u| u.to_string()).collect();
    pool.add_proxies(&urls, 0);
    pool
}

fn mark_healthy(pool: &mut ProxyPool, url: &str, response_time: Option<u64>) {
    pool.update_health(&url.to_string(), true, response_time, 0);
}

#[test]
fn record_success_increments_and_promotes() {
    let mut pool = pool_with(ProxySelectionStrategy::FastestResponse, &["socks5://a:1"]);
    assert_eq!(pool.proxies[0].status, ProxyStatus::Unknown);
    assert_eq!(pool.proxies[0].success_count, 0);

    pool.report_proxy_success(&"socks5://a:1".to_string());
    assert_eq!(pool.proxies[0].status, ProxyStatus::Healthy);
    assert_eq!(pool.proxies[0].success_count, 1);

    // Promotion happens whatever the prior status, here from Unhealthy.
    pool.update_health(&"socks5://a:1".to_string(), false, None, 0);
    assert_eq!(pool.proxies[0].status, ProxyStatus::Unhealthy);
    pool.report_proxy_success(&"socks5://a:1".to_string());
    assert_eq!(pool.proxies[0].status, ProxyStatus::Healthy);
    assert_eq!(pool.proxies[0].success_count, 2);
}

#[test]
fn record_failure_increments_and_demotes_exactly_by_rule() {
    let url = "socks5://a:1".to_string();
    let mut pool = pool_with(ProxySelectionStrategy::FastestResponse, &["socks5://a:1"]);
    mark_healthy(&mut pool, "socks5://a:1", None);

    // Two failures: count too low, no demotion.
    pool.report_proxy_failure(&url);
    pool.report_proxy_failure(&url);
    assert_eq!(pool.proxies[0].failure_count, 2);
    assert_eq!(pool.proxies[0].status, ProxyStatus::Healthy);

    // Third failure with no successes: ratio 1.0 > 0.5 and count >= 3.
    pool.report_proxy_failure(&url);
    assert_eq!(pool.proxies[0].failure_count, 3);
    assert_eq!(pool.proxies[0].status, ProxyStatus::Unhealthy);
}

#[test]
fn record_failure_without_majority_keeps_status() {
    let url = "socks5://a:1".to_string();
    let mut pool = pool_with(ProxySelectionStrategy::FastestResponse, &["socks5://a:1"]);
    // Four successes first: the success also promotes to Healthy.
    for _ in 0..4 {
        pool.report_proxy_success(&url);
    }
    // Three failures: count >= 3, but 3/7 <= 0.5, so no demotion.
    for _ in 0..3 {
        pool.report_proxy_failure(&url);
    }
    assert_eq!(pool.proxies[0].failure_count, 3);
    assert_eq!(pool.proxies[0].status, ProxyStatus::Healthy);
    // A fourth failure makes 4/8, still not more than half: no demotion.
    pool.report_proxy_failure(&url);
    assert_eq!(pool.proxies[0].status, ProxyStatus::Healthy);
    // A fifth failure makes 5/9 > 0.5: demoted.
    pool.report_proxy_failure(&url);
    assert_eq!(pool.proxies[0].status, ProxyStatus::Unhealthy);
}

#[test]
fn unknown_url_changes_nothing() {
    let mut pool = pool_with(ProxySelectionStrategy::FastestResponse, &["socks5://a:1"]);
    pool.report_proxy_success(&"socks5://other:2".to_string());
    pool.report_proxy_failure(&"socks5://other:2".to_string());
    assert_eq!(pool.proxies[0].success_count, 0);
    assert_eq!(pool.proxies[0].failure_count, 0);
    assert_eq!(pool.get_stats(), (1, 0));
}

#[test]
fn merging_sources_deduplicates_urls() {
    let mut pool = pool_with(ProxySelectionStrategy::FastestResponse, &[]);
    let first = vec!["socks5://1.1.1.1:1".to_string()];
    let second = vec!["socks5://1.1.1.1:1".to_string(), "socks5://2.2.2.2:2".to_string()];
    pool.add_proxies(&first, 0);
    pool.add_proxies(&second, 0);
    assert_eq!(pool.get_stats(), (2, 0));
    let count = pool
        .proxies
        .iter()
        .filter(|p| p.url == "socks5://1.1.1.1:1")
        .count();
    assert_eq!(count, 1);
}

#[test]
fn obtain_proxy_fails_iff_no_healthy_for_every_strategy() {
    let strategies = [
        ProxySelectionStrategy::FastestResponse,
        ProxySelectionStrategy::MostReliable,
        ProxySelectionStrategy::Random,
        ProxySelectionStrategy::RoundRobin,
    ];
    for strategy in strategies {
        let mut pool = pool_with(strategy, &["socks5://a:1", "socks5://b:2"]);
        // All records start Unknown: nothing is healthy.
        assert!(pool.get_proxy().is_err());
        mark_healthy(&mut pool, "socks5://b:2", None);
        let got = pool.get_proxy().expect("one proxy is healthy");
        assert_eq!(got.url, "socks5://b:2");
        // Demote it again: back to no proxy available.
        pool.update_health(&"socks5://b:2".to_string(), false, None, 0);
        assert!(pool.get_proxy().is_err());
    }
}

#[test]
fn fastest_response_picks_lowest_latency() {
    let mut pool = pool_with(
        ProxySelectionStrategy::FastestResponse,
        &["socks5://a:1", "socks5://b:2"],
    );
    mark_healthy(&mut pool, "socks5://a:1", Some(100));
    mark_healthy(&mut pool, "socks5://b:2", Some(50));
    let got = pool.get_proxy().unwrap();
    assert_eq!(got.url, "socks5://b:2");
}

#[test]
fn fastest_response_unmeasured_ranks_last_and_ties_go_first() {
    let mut pool = pool_with(
        ProxySelectionStrategy::FastestResponse,
        &["socks5://a:1", "socks5://b:2", "socks5://c:3"],
    );
    mark_healthy(&mut pool, "socks5://a:1", None);
    mark_healthy(&mut pool, "socks5://b:2", Some(70));
    mark_healthy(&mut pool, "socks5://c:3", Some(70));
    let got = pool.get_proxy().unwrap();
    assert_eq!(got.url, "socks5://b:2");
}

#[test]
fn most_reliable_picks_highest_exact_rate() {
    let mut pool = pool_with(
        ProxySelectionStrategy::MostReliable,
        &["socks5://a:1", "socks5://b:2"],
    );
    let a = "socks5://a:1".to_string();
    let b = "socks5://b:2".to_string();
    // A: 9 successes, 1 failure -> 0.9; B: 3 successes, 1 failure -> 0.75.
    pool.report_proxy_failure(&a);
    for _ in 0..9 {
        pool.report_proxy_success(&a);
    }
    pool.report_proxy_failure(&b);
    for _ in 0..3 {
        pool.report_proxy_success(&b);
    }
    let got = pool.get_proxy().unwrap();
    assert_eq!(got.url, "socks5://a:1");
}

#[test]
fn round_robin_skips_first_then_cycles() {
    let mut pool = pool_with(
        ProxySelectionStrategy::RoundRobin,
        &["socks5://p0:1", "socks5://p1:1", "socks5://p2:1"],
    );
    mark_healthy(&mut pool, "socks5://p0:1", None);
    mark_healthy(&mut pool, "socks5://p1:1", None);
    mark_healthy(&mut pool, "socks5://p2:1", None);
    let seq: Vec<String> = (0..4).map(|_| pool.get_proxy().unwrap().url).collect();
    assert_eq!(
        seq,
        vec![
            "socks5://p1:1".to_string(),
            "socks5://p2:1".to_string(),
            "socks5://p0:1".to_string(),
            "socks5://p1:1".to_string(),
        ]
    );
}

#[test]
fn random_returns_a_healthy_member() {
    let mut pool = pool_with(
        ProxySelectionStrategy::Random,
        &["socks5://a:1", "socks5://b:2", "socks5://c:3"],
    );
    mark_healthy(&mut pool, "socks5://b:2", None);
    mark_healthy(&mut pool, "socks5://c:3", None);
    for _ in 0..32 {
        let got = pool.get_proxy().unwrap();
        assert!(got.url == "socks5://b:2" || got.url == "socks5://c:3");
        assert_eq!(got.status, ProxyStatus::Healthy);
    }
}

#[test]
fn update_health_records_latency_only_on_success() {
    let url = "socks5://a:1".to_string();
    let mut pool = pool_with(ProxySelectionStrategy::FastestResponse, &["socks5://a:1"]);
    assert_eq!(pool.proxies[0].response_time, None);
    assert_eq!(pool.proxies[0].last_check, None);

    pool.update_health(&url, true, Some(42), 1000);
    assert_eq!(pool.proxies[0].status, ProxyStatus::Healthy);
    assert_eq!(pool.proxies[0].response_time, Some(42));
    assert_eq!(pool.proxies[0].last_check, Some(1000));

    pool.update_health(&url, false, None, 2000);
    assert_eq!(pool.proxies[0].status, ProxyStatus::Unhealthy);
    // Latency from the last successful probe is kept.
    assert_eq!(pool.proxies[0].response_time, Some(42));
    assert_eq!(pool.proxies[0].last_check, Some(2000));
}

#[test]
fn pool_try_acquire_follows_bucket() {
    let url = "socks5://a:1".to_string();
    let config = ProxyPoolConfig::builder()
        .max_requests_per_second_milli(2_000)
        .build();
    let mut pool = ProxyPool::new(config);
    pool.add_proxies(&vec![url.clone()], 0);

    assert_eq!(pool.try_acquire(&"socks5://nope:1".to_string(), 0), None);
    assert_eq!(pool.try_acquire(&url, 0), Some(AcquireDecision::Granted));
    assert_eq!(pool.try_acquire(&url, 0), Some(AcquireDecision::Granted));
    match pool.try_acquire(&url, 0) {
        Some(AcquireDecision::WaitNanos(w)) => assert!(w > 0),
        other => panic!("expected a wait, got {:?}", other),
    }
}

#[test]
fn health_round_applies_as_a_batch() {
    let mut pool = pool_with(
        ProxySelectionStrategy::FastestResponse,
        &["socks5://a:1", "socks5://b:2", "socks5://c:3"],
    );
    let round = vec![
        ProbeResult { url: "socks5://a:1".to_string(), healthy: true, response_time: Some(10) },
        ProbeResult { url: "socks5://b:2".to_string(), healthy: false, response_time: None },
        ProbeResult { url: "socks5://zzz:9".to_string(), healthy: true, response_time: Some(1) },
    ];
    pool.apply_health_results(&round, 777);
    assert_eq!(pool.proxies[0].status, ProxyStatus::Healthy);
    assert_eq!(pool.proxies[0].response_time, Some(10));
    assert_eq!(pool.proxies[0].last_check, Some(777));
    assert_eq!(pool.proxies[1].status, ProxyStatus::Unhealthy);
    assert_eq!(pool.proxies[1].response_time, None);
    // An unknown URL in the round touches nothing; the untouched proxy
    // keeps its state.
    assert_eq!(pool.proxies[2].status, ProxyStatus::Unknown);
    assert_eq!(pool.get_stats(), (3, 1));
}

#[test]
fn stats_count_total_and_healthy() {
    let mut pool = pool_with(
        ProxySelectionStrategy::FastestResponse,
        &["socks5://a:1", "socks5://b:2", "socks5://c:3"],
    );
    assert_eq!(pool.get_stats(), (3, 0));
    mark_healthy(&mut pool, "socks5://a:1", None);
    mark_healthy(&mut pool, "socks5://c:3", None);
    assert_eq!(pool.get_stats(), (3, 2));
    let healthy = pool.list_healthy();
    let urls: Vec<String> = healthy.into_iter().map(|p| p.url).collect();
    assert_eq!(urls, vec!["socks5://a:1".to_string(), "socks5://c:3".to_string()]);
}
