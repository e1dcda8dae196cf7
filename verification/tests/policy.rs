//! Retry policy and pipeline configuration.

use scraper_rs::driver::{
    drive, plan_pipeline, DriverPhase, PipelineConfig, DEFAULT_CONCURRENCY, INPUT_CHANNEL_CAPACITY,
};
use scraper_rs::errors::ConfigError;
use scraper_rs::retry::{FetchPolicy, DEFAULT_BASE_DELAY_MS, DEFAULT_MAX_ATTEMPTS};
use scraper_rs::text::parse_decimal;

#[test]
fn default_policy_values() {
    let p = FetchPolicy::default_policy();
    assert_eq!(p.max_attempts, 10);
    assert_eq!(p.base_delay_ms, 300);
    assert!(p.jitter);
    assert_eq!(DEFAULT_MAX_ATTEMPTS, 10);
    assert_eq!(DEFAULT_BASE_DELAY_MS, 300);
}

#[test]
fn backoff_doubles_from_base() {
    let p = FetchPolicy { max_attempts: 10, base_delay_ms: 300, jitter: false };
    assert_eq!(p.delay_before_ms(1), 300);
    assert_eq!(p.delay_before_ms(2), 600);
    assert_eq!(p.delay_before_ms(3), 1200);
    assert_eq!(p.delay_before_ms(4), 2400);
    assert_eq!(p.delay_before_ms(11), 300 * 1024);
}

#[test]
fn backoff_is_monotone_before_jitter() {
    let p = FetchPolicy { max_attempts: 10, base_delay_ms: 300, jitter: false };
    let mut last = 0u64;
    let mut k = 1u64;
    while k <= 20 {
        let d = p.delay_before_ms(k);
        assert!(d >= last);
        last = d;
        k += 1;
    }
}

#[test]
fn backoff_saturates() {
    let p = FetchPolicy { max_attempts: 10, base_delay_ms: u64::MAX, jitter: false };
    assert_eq!(p.delay_before_ms(1), u64::MAX);
    assert_eq!(p.delay_before_ms(2), u64::MAX);
}

#[test]
fn only_transport_failures_retry() {
    let p = FetchPolicy::default_policy();
    assert!(p.may_retry(true, 1));
    assert!(p.may_retry(true, 9));
    assert!(!p.may_retry(true, 10));
    assert!(!p.may_retry(false, 1));
    assert!(!p.may_retry(false, 0));
}

#[test]
fn jitter_stays_in_the_upper_half() {
    let p = FetchPolicy { max_attempts: 10, base_delay_ms: 300, jitter: true };
    for entropy in [0u64, 1, 7, 299, 300, 12345, u64::MAX] {
        let d = p.jittered_delay_ms(1000, entropy);
        assert!(d >= 500);
        assert!(d <= 1000);
    }
    let plain = FetchPolicy { jitter: false, ..p };
    assert_eq!(plain.jittered_delay_ms(1000, 12345), 1000);
}

#[test]
fn no_override_means_default_concurrency() {
    let c = PipelineConfig::from_override(None).unwrap();
    assert_eq!(c.concurrency, DEFAULT_CONCURRENCY);
    assert_eq!(c.concurrency, 128);
    assert_eq!(c.input_capacity, INPUT_CHANNEL_CAPACITY);
    assert_eq!(c.input_capacity, 1);
    assert_eq!(c.policy, FetchPolicy::default_policy());
}

#[test]
fn decimal_override_is_taken_verbatim() {
    let c = PipelineConfig::from_override(Some("16")).unwrap();
    assert_eq!(c.concurrency, 16);
    let c = PipelineConfig::from_override(Some("007")).unwrap();
    assert_eq!(c.concurrency, 7);
}

#[test]
fn bad_override_is_fatal() {
    assert_eq!(PipelineConfig::from_override(Some("")), Err(ConfigError::InvalidConcurrency));
    assert_eq!(PipelineConfig::from_override(Some("abc")), Err(ConfigError::InvalidConcurrency));
    assert_eq!(PipelineConfig::from_override(Some("1 2")), Err(ConfigError::InvalidConcurrency));
    assert_eq!(PipelineConfig::from_override(Some("-3")), Err(ConfigError::InvalidConcurrency));
    assert_eq!(
        PipelineConfig::from_override(Some("999999999999999999999999999999")),
        Err(ConfigError::InvalidConcurrency)
    );
}

#[test]
fn parse_decimal_edges() {
    assert_eq!(parse_decimal("0"), Some(0));
    assert_eq!(parse_decimal("42"), Some(42));
    assert_eq!(parse_decimal("18446744073709551615"), Some(usize::MAX));
    assert_eq!(parse_decimal("18446744073709551616"), None);
    assert_eq!(parse_decimal(""), None);
    assert_eq!(parse_decimal("4x2"), None);
    assert_eq!(parse_decimal("+5"), None);
}

#[test]
fn plan_wires_exactly_the_configured_pool() {
    let config = PipelineConfig::from_override(Some("3")).unwrap();
    let urls = vec![String::from("https://a/1"), String::from("https://a/2")];
    let plan = plan_pipeline(&config, urls.clone());
    assert_eq!(plan.worker_count, 3);
    assert_eq!(plan.input_capacity, 1);
    assert_eq!(plan.urls, urls);
}

#[test]
fn the_driver_keeps_its_shutdown_order() {
    let config = PipelineConfig::from_override(Some("2")).unwrap();
    let urls = vec![String::from("https://a/1"), String::from("https://a/2")];
    let plan = plan_pipeline(&config, urls);
    let mut trace = Vec::new();
    let mut phase = DriverPhase::Spawn;
    while phase != DriverPhase::Finished {
        trace.push(phase);
        phase = drive(&plan, phase);
    }
    assert_eq!(trace, vec![
        DriverPhase::Spawn,
        DriverPhase::Feed { next: 0 },
        DriverPhase::Feed { next: 1 },
        DriverPhase::Feed { next: 2 },
        DriverPhase::CloseInput,
        DriverPhase::AwaitWorkers,
        DriverPhase::CloseOutput,
        DriverPhase::AwaitCollector,
    ]);
}
