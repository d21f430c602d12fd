//! Configuration: key lists and the debounce decision per key.

use intercept_bounce::cli::Args;
use intercept_bounce::config::{sorted_contains, sorted_unique, Config};
use intercept_bounce::duration::Duration;

fn base_config() -> Config {
    Config::new(
        Duration::from_millis(25),
        Duration::from_millis(100),
        Duration::from_secs(15 * 60),
        false,
        false,
        false,
        false,
        "intercept_bounce=info".to_string(),
        None,
        0,
        Vec::new(),
        Vec::new(),
    )
}

#[test]
fn ignores_configured_keys_when_no_debounce_allowlist() {
    let cfg = Config::new(
        Duration::from_millis(25),
        Duration::from_millis(100),
        Duration::from_secs(15 * 60),
        false,
        false,
        false,
        false,
        "intercept_bounce=info".to_string(),
        None,
        0,
        Vec::new(),
        vec![30],
    );

    assert!(cfg.is_key_ignored(30));
    assert!(!cfg.should_debounce(30));
    assert!(cfg.should_debounce(31));
}

#[test]
fn debounce_keys_take_precedence_over_ignore_keys() {
    let cfg = Config::new(
        Duration::from_millis(25),
        Duration::from_millis(100),
        Duration::from_secs(15 * 60),
        false,
        false,
        false,
        false,
        "intercept_bounce=info".to_string(),
        None,
        0,
        vec![30, 40],
        vec![30],
    );

    assert!(
        cfg.should_debounce(30),
        "allowlisted keys must be debounced even if ignored"
    );
    assert!(cfg.should_debounce(40));
    assert!(!cfg.should_debounce(31));
    assert!(!cfg.should_debounce(0));
}

#[test]
fn should_debounce_respects_sorted_dedup_lists() {
    let cfg = Config::new(
        Duration::from_millis(25),
        Duration::from_millis(100),
        Duration::from_secs(15 * 60),
        false,
        false,
        false,
        false,
        "intercept_bounce=info".to_string(),
        None,
        0,
        vec![40, 30, 30],
        vec![10, 10],
    );

    assert!(cfg.should_debounce(30));
    assert!(cfg.should_debounce(40));
    assert!(!cfg.should_debounce(10));
}

#[test]
fn base_config_debounces_all_keys_by_default() {
    let cfg = base_config();
    assert!(cfg.should_debounce(0));
    assert!(cfg.should_debounce(u16::MAX));
}

#[test]
fn key_lists_are_sorted_and_deduplicated() {
    let cfg = Config::new(
        Duration::from_millis(25),
        Duration::from_millis(100),
        Duration::from_secs(15 * 60),
        false,
        false,
        false,
        false,
        "x".to_string(),
        None,
        0,
        vec![40, 30, 30, 5, 40],
        vec![10, 10, 2],
    );
    assert_eq!(cfg.debounce_keys(), &[5, 30, 40]);
    assert_eq!(cfg.ignored_keys(), &[2, 10]);
    assert_eq!(sorted_unique(vec![]), Vec::<u16>::new());
    assert_eq!(sorted_unique(vec![3, 1, 2, 3, 1]), vec![1, 2, 3]);
}

#[test]
fn sorted_contains_finds_exactly_the_members() {
    let keys = [2u16, 7, 30, 65535];
    for k in [2u16, 7, 30, 65535] {
        assert!(sorted_contains(&keys, k));
    }
    for k in [0u16, 1, 3, 29, 31, 65534] {
        assert!(!sorted_contains(&keys, k));
    }
    assert!(!sorted_contains(&[], 0));
}

#[test]
fn durations_in_microseconds_saturate() {
    let cfg = Config::new(
        Duration::from_millis(25),
        Duration::new(0, 1_500),
        Duration::from_secs(u64::MAX),
        false,
        false,
        false,
        false,
        "x".to_string(),
        None,
        0,
        Vec::new(),
        Vec::new(),
    );
    assert_eq!(cfg.debounce_us(), 25_000);
    assert_eq!(cfg.near_miss_threshold_us(), 1);
    assert_eq!(cfg.log_interval_us(), u64::MAX);
}

fn args(verbose: bool) -> Args {
    Args {
        debounce_time: Duration::from_millis(25),
        near_miss_threshold_time: Duration::from_millis(100),
        log_interval: Duration::from_secs(900),
        log_all_events: true,
        log_bounces: false,
        list_devices: false,
        stats_json: true,
        verbose,
        ring_buffer_size: 4,
        debounce_keys: vec![28, 28],
        ignore_keys: vec![115, 114],
        otel_endpoint: Some("http://localhost:4317".to_string()),
    }
}

#[test]
fn config_from_args_picks_the_log_filter() {
    let quiet = Config::from_args(&args(false), None);
    assert_eq!(quiet.log_filter, "intercept_bounce=info");
    let verbose = Config::from_args(&args(true), None);
    assert_eq!(verbose.log_filter, "intercept_bounce=debug");
    let env = Config::from_args(&args(true), Some("warn".to_string()));
    assert_eq!(env.log_filter, "warn");
    assert_eq!(env.debounce_keys(), &[28]);
    assert_eq!(env.ignored_keys(), &[114, 115]);
    assert_eq!(env.debounce_us(), 25_000);
    assert!(env.log_all_events && env.stats_json && env.verbose);
    assert_eq!(env.ring_buffer_size, 4);
    assert_eq!(env.otel_endpoint.as_deref(), Some("http://localhost:4317"));
    assert!(env.should_debounce(28));
    assert!(!env.should_debounce(115));
}
