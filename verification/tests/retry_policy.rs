use broker_gateway_service::patterns::retry_policy::{
    AsyncRetryPolicy, BackoffStrategy, RetryConfig, RetryPolicy,
};

#[test]
fn test_fixed_backoff() {
    let strategy = BackoffStrategy::Fixed(100);
    assert_eq!(strategy.delay_for(0), 100);
    assert_eq!(strategy.delay_for(1), 100);
    assert_eq!(strategy.delay_for(5), 100);
}

#[test]
fn test_exponential_backoff() {
    let strategy = BackoffStrategy::Exponential { base: 100, max: 1_000 };

    assert_eq!(strategy.delay_for(0), 100); // 100 * 2^0
    assert_eq!(strategy.delay_for(1), 200); // 100 * 2^1
    assert_eq!(strategy.delay_for(2), 400); // 100 * 2^2
    assert_eq!(strategy.delay_for(3), 800); // 100 * 2^3
}

#[test]
fn test_exponential_backoff_with_cap() {
    let strategy = BackoffStrategy::Exponential { base: 100, max: 500 };

    assert_eq!(strategy.delay_for(0), 100);
    assert_eq!(strategy.delay_for(1), 200);
    assert_eq!(strategy.delay_for(2), 400);
    assert_eq!(strategy.delay_for(3), 500); // Capped
    assert_eq!(strategy.delay_for(10), 500); // Capped
}

#[test]
fn test_linear_backoff() {
    let strategy = BackoffStrategy::Linear { base: 100, max: 1_000 };

    assert_eq!(strategy.delay_for(0), 100); // 100 * 1
    assert_eq!(strategy.delay_for(1), 200); // 100 * 2
    assert_eq!(strategy.delay_for(2), 300); // 100 * 3
}

#[test]
fn test_no_backoff() {
    let strategy = BackoffStrategy::NoBackoff;
    assert_eq!(strategy.delay_for(0), 0);
    assert_eq!(strategy.delay_for(100), 0);
}

#[test]
fn test_retry_config_default() {
    let config = RetryConfig::default();
    assert_eq!(config.max_retries, 3);
    assert!(matches!(config.backoff, BackoffStrategy::Exponential { .. }));
}

#[test]
fn test_retry_config_no_retries() {
    let config = RetryConfig::no_retries();
    assert_eq!(config.max_retries, 0);
}

#[test]
fn test_retry_config_with_fixed_backoff() {
    let config = RetryConfig::with_fixed_backoff(500);
    assert!(matches!(config.backoff, BackoffStrategy::Fixed(d) if d == 500));
}

#[test]
fn default_backoff_is_exponential_from_100ms_to_5s() {
    let b = BackoffStrategy::default();
    assert_eq!(b, BackoffStrategy::Exponential { base: 100, max: 5_000 });
    assert_eq!(b.delay_for(6), 5_000);
    let c = RetryConfig::with_exponential_backoff(10, 40);
    assert_eq!(c.max_retries, 3);
    assert_eq!(c.backoff.delay_for(5), 40);
}

#[test]
fn linear_backoff_is_capped() {
    let strategy = BackoffStrategy::Linear { base: 100, max: 250 };
    assert_eq!(strategy.delay_for(1), 200);
    assert_eq!(strategy.delay_for(2), 250);
    assert_eq!(strategy.delay_for(50), 250);
}

#[test]
fn sync_policy_retries_then_gives_up() {
    // Two retries: attempts 0 and 1 are followed by a retry, attempt 2 is the last.
    let policy = RetryPolicy::new(2);
    assert_eq!(policy.after_failure(0), Some(0));
    assert_eq!(policy.after_failure(1), Some(0));
    assert_eq!(policy.after_failure(2), None);
    let p = RetryPolicy::with_exponential_backoff(3, 10, 1_000);
    assert_eq!(p.after_failure(0), Some(10));
    assert_eq!(p.after_failure(2), Some(40));
    assert_eq!(p.after_failure(3), None);
    assert_eq!(RetryPolicy::default().retries, 3);
}

#[test]
fn async_policy_follows_its_config() {
    let none = AsyncRetryPolicy::no_retries();
    assert_eq!(none.after_failure(0), None);
    let policy = AsyncRetryPolicy::default();
    assert_eq!(policy.config().max_retries, 3);
    assert_eq!(policy.after_failure(0), Some(100));
    assert_eq!(policy.after_failure(1), Some(200));
    assert_eq!(policy.after_failure(2), Some(400));
    assert_eq!(policy.after_failure(3), None);
    let fixed = AsyncRetryPolicy::new(RetryConfig::with_fixed_backoff(10));
    assert_eq!(fixed.after_failure(1), Some(10));
}

#[test]
fn capped_delays_saturate_for_every_attempt() {
    let exp = BackoffStrategy::Exponential { base: 100, max: 5_000 };
    assert_eq!(exp.delay_for(0), 100);
    assert_eq!(exp.delay_for(5), 3_200);
    assert_eq!(exp.delay_for(6), 5_000);
    assert_eq!(exp.delay_for(64), 5_000);
    assert_eq!(exp.delay_for(usize::MAX), 5_000);
    let huge = BackoffStrategy::Exponential { base: u64::MAX, max: u64::MAX };
    assert_eq!(huge.delay_for(3), u64::MAX);
    let lin = BackoffStrategy::Linear { base: 1_000, max: 10_000 };
    assert_eq!(lin.delay_for(2), 3_000);
    assert_eq!(lin.delay_for(usize::MAX), 10_000);
}

#[test]
fn errors_refused_by_the_retry_condition_are_given_up_at_once() {
    let policy = AsyncRetryPolicy::new(RetryConfig::with_fixed_backoff(50));
    assert_eq!(policy.after_failure_if(0, true), Some(50));
    assert_eq!(policy.after_failure_if(0, false), None);
    assert_eq!(policy.after_failure_if(3, true), None);
}
