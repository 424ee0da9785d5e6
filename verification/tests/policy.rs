use rust_python_lab::binary64::Binary64;
use rust_python_lab::error::{RuntimeError, ValueError};
use rust_python_lab::policy::{Backoff, RetryConfig, RetryPolicy};
use rust_python_lab::timeout::{
    is_representable, parse_optional_timeout, parse_timeout_secs, Timeout,
};

fn number(value: f64) -> Binary64 {
    Binary64 { bits: value.to_bits() }
}

#[test]
fn numbers_at_least_one() {
    for value in [1.0, 1.0 + f64::EPSILON, 2.0, 1e300, f64::MAX] {
        assert!(number(value).is_finite_at_least_one(), "{}", value);
    }
    for value in [
        0.0,
        -0.0,
        1.0 - f64::EPSILON / 2.0,
        -1.0,
        -2.0,
        f64::MIN_POSITIVE,
        f64::INFINITY,
        f64::NEG_INFINITY,
        f64::NAN,
        -f64::NAN,
    ] {
        assert!(!number(value).is_finite_at_least_one(), "{}", value);
    }
}

#[test]
fn numbers_not_below_zero() {
    for value in [0.0, -0.0, 5e-324, 0.5, 1.0, f64::MAX] {
        assert!(number(value).is_finite_non_negative(), "{}", value);
    }
    for value in [-5e-324, -1.0, f64::MIN, f64::INFINITY, f64::NEG_INFINITY, f64::NAN] {
        assert!(!number(value).is_finite_non_negative(), "{}", value);
    }
}

#[test]
fn numbers_below_two_pow_64() {
    let limit = 18446744073709551616.0f64;
    assert!(!number(limit).is_below_two_pow_64());
    assert!(number(18446744073709549568.0).is_below_two_pow_64());
    assert!(number(-1e300).is_below_two_pow_64());
    assert!(!number(1e300).is_below_two_pow_64());
}

#[test]
fn timeouts_are_parsed() {
    assert_eq!(parse_timeout_secs(number(10.5)).unwrap().secs(), number(10.5));
    assert_eq!(parse_timeout_secs(number(0.0)).unwrap().secs(), number(0.0));
    assert_eq!(parse_timeout_secs(number(-0.0)).unwrap().secs(), number(-0.0));
    for bad in [-0.001, f64::NAN, f64::INFINITY, f64::NEG_INFINITY] {
        assert_eq!(parse_timeout_secs(number(bad)).err(), Some(ValueError::Timeout));
    }
    assert!(parse_optional_timeout(None).unwrap().is_none());
    assert_eq!(parse_optional_timeout(Some(number(3.0))).unwrap().unwrap().secs(), number(3.0));
    assert_eq!(parse_optional_timeout(Some(number(-3.0))).err(), Some(ValueError::Timeout));
    assert_eq!(Timeout::cancel_grace().secs(), number(5.0));
}

#[test]
fn representable_seconds_are_those_a_duration_holds() {
    assert!(is_representable(number(1e19)));
    assert!(!is_representable(number(2e19)));
    assert!(is_representable(number(f64::NAN)));
    assert!(is_representable(number(-2e19)));
    let largest = number(18446744073709549568.0);
    assert!(is_representable(largest));
    let _ = std::time::Duration::from_secs_f64(f64::from_bits(largest.bits));
}

#[test]
fn retry_policy_defaults() {
    let policy = RetryPolicy::default();
    assert_eq!(policy.max_attempts(), 3);
    assert_eq!(policy.backoff_ms(), 100);
    assert_eq!(policy.backoff_multiplier(), number(2.0));
    assert_eq!(policy.max_backoff_ms(), 5000);
    assert!(policy.jitter());
}

#[test]
fn retry_policy_rejects_bad_parameters() {
    let no_attempts = RetryPolicy::new(0, 100, number(0.5), 5000, true);
    assert_eq!(no_attempts.err(), Some(ValueError::MaxAttempts));
    for multiplier in [0.5, -2.0, f64::NAN, f64::INFINITY] {
        let policy = RetryPolicy::new(1, 100, number(multiplier), 5000, true);
        assert_eq!(policy.err(), Some(ValueError::BackoffMultiplier));
    }
    assert!(RetryPolicy::new(1, 0, number(1.0), 0, false).is_ok());
}

#[test]
fn config_follows_policy() {
    let policy = RetryPolicy::new(4, 20, number(1.5), 90, false).unwrap();
    let config = RetryConfig::from_policy(&policy);
    assert_eq!(config.max_attempts, 4);
    assert_eq!(config.backoff_ms, 20);
    assert_eq!(config.multiplier, number(1.5));
    assert_eq!(config.max_backoff_ms, 90);
    assert!(!config.jitter);
}

#[test]
fn no_policy_means_one_attempt_without_pause() {
    let config = RetryConfig::none();
    assert_eq!(config.max_attempts, 1);
    assert_eq!(config.multiplier, number(1.0));
    for attempt in 0..5 {
        assert_eq!(config.backoff_for(attempt, 7), Backoff::Zero);
    }
}

#[test]
fn backoff_operands() {
    let config = RetryConfig::from_policy(&RetryPolicy::default());
    assert_eq!(config.backoff_for(0, 1), Backoff::Zero);
    assert_eq!(
        config.backoff_for(2, 5),
        Backoff::Scaled {
            base_ms: 100,
            multiplier: number(2.0),
            exponent: 1,
            cap_ms: Some(5000),
            jitter_hundredths: Some(17),
        }
    );
    let plain = RetryConfig { jitter: false, max_backoff_ms: 0, ..config };
    assert_eq!(
        plain.backoff_for(3, 5),
        Backoff::Scaled {
            base_ms: 100,
            multiplier: number(2.0),
            exponent: 2,
            cap_ms: None,
            jitter_hundredths: None,
        }
    );
}

#[test]
fn jitter_stays_within_half_and_whole() {
    let config = RetryConfig::from_policy(&RetryPolicy::default());
    for task_id in [0, 1, 2, 3, 50, 51, 52, u64::MAX - 1, u64::MAX] {
        for attempt in 1..60 {
            match config.backoff_for(attempt, task_id) {
                Backoff::Scaled { jitter_hundredths: Some(step), .. } => {
                    let sum = task_id.wrapping_add(attempt as u64).wrapping_mul(17);
                    assert_eq!(step, sum % 51);
                    assert!(step <= 50);
                }
                other => panic!("unexpected pause {:?}", other),
            }
        }
    }
}

#[test]
fn error_texts() {
    assert_eq!(ValueError::MaxAttempts.message(), "max_attempts must be at least 1");
    assert_eq!(
        ValueError::BackoffMultiplier.message(),
        "backoff_multiplier must be finite and >= 1"
    );
    assert_eq!(ValueError::Timeout.message(), "timeout must be a non-negative finite number");
    assert_eq!(ValueError::MaxConcurrency.message(), "max_concurrency must be at least 1");
    assert_eq!(ValueError::QueueCapacity.message(), "queue_capacity is too large");
    assert_eq!(ValueError::Buffer.message(), "buffer must be at least 1");
    assert_eq!(RuntimeError::QueueFull.message(), "admission queue is full");
    assert_eq!(RuntimeError::RuntimeClosed.message(), "runtime is closed");
    assert_eq!(RuntimeError::Value(ValueError::Buffer).message(), "buffer must be at least 1");
}
