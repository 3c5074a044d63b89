use proxy_pool::config::{ProxyPoolConfig, ProxyPoolConfigBuilder, ProxySelectionStrategy};

#[test]
fn build_fills_defaults() {
    let config = ProxyPoolConfig::builder().build();
    assert!(config.sources.is_empty());
    assert_eq!(config.health_check_interval_millis, 300_000);
    assert_eq!(config.health_check_timeout_millis, 10_000);
    assert_eq!(config.min_available_proxies, 3);
    assert_eq!(config.health_check_url, "https://www.google.com");
    assert_eq!(config.retry_count, 3);
    assert_eq!(
        config.selection_strategy,
        ProxySelectionStrategy::FastestResponse
    );
    assert_eq!(config.max_requests_per_second_milli, 5_000);
}

#[test]
fn setters_override_defaults() {
    let config = ProxyPoolConfig::builder()
        .sources(vec!["https://example.com/proxies.txt".to_string()])
        .health_check_interval_millis(60_000)
        .health_check_timeout_millis(5_000)
        .min_available_proxies(1)
        .health_check_url("https://example.com/ok".to_string())
        .retry_count(5)
        .selection_strategy(ProxySelectionStrategy::RoundRobin)
        .max_requests_per_second_milli(3_000)
        .build();
    assert_eq!(config.sources, vec!["https://example.com/proxies.txt".to_string()]);
    assert_eq!(config.health_check_interval_millis, 60_000);
    assert_eq!(config.health_check_timeout_millis, 5_000);
    assert_eq!(config.min_available_proxies, 1);
    assert_eq!(config.health_check_url, "https://example.com/ok");
    assert_eq!(config.retry_count, 5);
    assert_eq!(config.selection_strategy, ProxySelectionStrategy::RoundRobin);
    assert_eq!(config.max_requests_per_second_milli, 3_000);
}

#[test]
fn default_builder_is_empty() {
    let config = ProxyPoolConfigBuilder::default().build();
    assert_eq!(config.retry_count, 3);
    assert_eq!(config.health_check_interval_millis, 300_000);
}
