use fluss_gateway::resilience::{
    random, CircuitBreaker, CircuitBreakerConfig, HealthStatus, RetryConfig, RetryDecision,
    RetryState, INITIAL_SEED,
};

/// Nanoseconds in a millisecond: the breaker's times are nanoseconds.
const MS: u64 = 1_000_000;

#[test]
fn test_circuit_breaker_healthy_initially() {
    let mut cb = CircuitBreaker::new(CircuitBreakerConfig::default());
    assert_eq!(cb.health(), HealthStatus::Healthy);
    assert!(cb.allow_request());
}

#[test]
fn test_circuit_breaker_opens_after_failures() {
    let mut cb = CircuitBreaker::new(CircuitBreakerConfig {
        failure_threshold: 3,
        recovery_timeout_ms: 1000,
    });

    for _ in 0..3 {
        cb.record_failure_at(10_000 * MS);
    }

    assert_eq!(cb.health_at_time(10_000 * MS), HealthStatus::Unhealthy);
    assert!(!cb.allow_request_at(10_000 * MS));
    assert_eq!(cb.blocked_count, 1);
}

#[test]
fn test_circuit_breaker_recovers() {
    let mut cb = CircuitBreaker::new(CircuitBreakerConfig {
        failure_threshold: 2,
        recovery_timeout_ms: 100,
    });

    // Open the circuit
    cb.record_failure_at(1_000 * MS);
    cb.record_failure_at(1_000 * MS);
    assert_eq!(cb.health_at_time(1_000 * MS), HealthStatus::Unhealthy);

    // 150 ms later the recovery timeout has elapsed: half-open
    assert_eq!(cb.health_at_time(1_150 * MS), HealthStatus::Degraded);

    // Allow request and record success
    assert!(cb.allow_request_at(1_150 * MS));
    cb.record_success();

    // Should be healthy again
    assert_eq!(cb.health_at_time(1_150 * MS), HealthStatus::Healthy);
}

#[test]
fn circuit_breaker_with_real_clock() {
    let mut cb = CircuitBreaker::new(CircuitBreakerConfig {
        failure_threshold: 1,
        recovery_timeout_ms: 60_000,
    });
    cb.record_failure();
    assert!(cb.is_open());
    assert_eq!(cb.health(), HealthStatus::Unhealthy);
    assert!(!cb.allow_request());
    cb.record_success();
    assert_eq!(cb.health(), HealthStatus::Healthy);
    assert_eq!(cb.failures(), 0);
}

#[test]
fn failures_below_threshold_degrade_without_blocking() {
    let mut cb = CircuitBreaker::new(CircuitBreakerConfig::default());
    cb.record_failure_at(5 * MS);
    cb.record_failure_at(6 * MS);
    assert_eq!(cb.health_at_time(7 * MS), HealthStatus::Degraded);
    assert!(cb.allow_request_at(7 * MS));
    assert_eq!(cb.failure_count, 2);
    cb.record_success();
    assert_eq!(cb.success_count, 1);
    assert_eq!(cb.health_at_time(8 * MS), HealthStatus::Healthy);
}

#[test]
fn clock_going_backwards_counts_as_no_time_elapsed() {
    let mut cb = CircuitBreaker::new(CircuitBreakerConfig { failure_threshold: 1, recovery_timeout_ms: 10 });
    cb.record_failure_at(1_000 * MS);
    assert_eq!(cb.health_at_time(500 * MS), HealthStatus::Unhealthy);
    assert!(!cb.allow_request_at(500 * MS));
    assert!(cb.allow_request_at(1_010 * MS));
}

#[test]
fn health_status_text() {
    assert_eq!(HealthStatus::Healthy.to_string(), "healthy");
    assert_eq!(HealthStatus::Degraded.to_string(), "degraded");
    assert_eq!(HealthStatus::Unhealthy.to_string(), "unhealthy");
}

fn xorshift(mut s: u64) -> u64 {
    s ^= s << 13;
    s ^= s >> 7;
    s ^= s << 17;
    s
}

#[test]
fn random_is_xorshift() {
    let mut seed = INITIAL_SEED;
    let r = random(&mut seed);
    assert_eq!(r, xorshift(0x1234567890abcdef));
    assert_eq!(seed, r);
    let r2 = random(&mut seed);
    assert_eq!(r2, xorshift(r));
    assert_ne!(r2, 0);
}

#[test]
fn test_retry_with_success() {
    let mut cb = CircuitBreaker::new(CircuitBreakerConfig::default());
    let config = RetryConfig::default();
    let state = RetryState::start(&config);
    assert!(cb.allow_request());
    // the first attempt succeeds
    cb.record_success();
    assert_eq!(state.attempt, 0);
    assert_eq!(cb.success_count, 1);
    assert_eq!(cb.failure_count, 0);
}

#[test]
fn retries_then_gives_up() {
    let mut cb = CircuitBreaker::new(CircuitBreakerConfig { failure_threshold: 100, recovery_timeout_ms: 1 });
    let config = RetryConfig::default();
    let mut state = RetryState::start(&config);
    let mut seed = INITIAL_SEED;
    let mut sleeps = Vec::new();
    loop {
        let scaled = state.backoff_ms * 2;
        match state.on_failure(&mut cb, &config, scaled, &mut seed) {
            RetryDecision::RetryAfter(ms) => sleeps.push(ms),
            RetryDecision::GiveUp => break,
        }
    }
    // three retries, then the fourth failure gives up
    assert_eq!(sleeps.len(), 3);
    assert_eq!(state.attempt, 4);
    assert_eq!(cb.failure_count, 4);
    assert_eq!(sleeps[0], 100);
    // 200 ms plus up to 10% jitter, then 400 ms plus jitter
    assert!(sleeps[1] >= 200 && sleeps[1] <= 220);
    assert!(sleeps[2] >= 400 && sleeps[2] <= 481);
}

#[test]
fn backoff_is_capped() {
    let mut cb = CircuitBreaker::new(CircuitBreakerConfig::default());
    let config = RetryConfig { max_retries: 5, initial_backoff_ms: 4000, max_backoff_ms: 5000 };
    let mut state = RetryState::start(&config);
    let mut seed = INITIAL_SEED;
    let d = state.on_failure(&mut cb, &config, 8000, &mut seed);
    assert_eq!(d, RetryDecision::RetryAfter(4000));
    assert!(state.backoff_ms >= 5000 && state.backoff_ms <= 5500);
    // small backoffs get no jitter and leave the generator untouched
    let mut state = RetryState { attempt: 0, backoff_ms: 5 };
    let before = seed;
    let _ = state.on_failure(&mut cb, &config, 9, &mut seed);
    assert_eq!(state.backoff_ms, 9);
    assert_eq!(seed, before);
}

#[test]
fn circuit_recovers_on_the_monotonic_clock() {
    let mut cb = CircuitBreaker::new(CircuitBreakerConfig { failure_threshold: 1, recovery_timeout_ms: 0 });
    cb.record_failure();
    assert!(cb.is_open());
    assert_eq!(cb.health(), HealthStatus::Degraded);
    assert!(cb.allow_request());
    assert!(!cb.is_open());
}

#[test]
fn half_open_admits_a_single_trial() {
    let mut cb = CircuitBreaker::new(CircuitBreakerConfig { failure_threshold: 2, recovery_timeout_ms: 100 });
    cb.record_failure_at(1_000 * MS);
    cb.record_failure_at(1_000 * MS);
    assert!(!cb.allow_request_at(1_050 * MS));
    assert_eq!(cb.blocked_count, 1);
    // the trial goes through, every other request waits for its outcome
    assert!(cb.allow_request_at(1_100 * MS));
    assert!(!cb.allow_request_at(1_101 * MS));
    assert!(!cb.allow_request_at(5_000 * MS));
    assert_eq!(cb.blocked_count, 3);
    assert_eq!(cb.health_at_time(1_101 * MS), HealthStatus::Degraded);
    // a failed trial opens the circuit again
    cb.record_failure_at(1_200 * MS);
    assert!(cb.is_open());
    assert!(!cb.allow_request_at(1_250 * MS));
    assert_eq!(cb.health_at_time(1_250 * MS), HealthStatus::Unhealthy);
    // the next trial succeeds and closes the circuit
    assert!(cb.allow_request_at(1_300 * MS));
    cb.record_success();
    assert!(cb.allow_request_at(1_301 * MS));
    assert!(cb.allow_request_at(1_302 * MS));
    assert_eq!(cb.health_at_time(1_302 * MS), HealthStatus::Healthy);
}

#[test]
fn recovery_is_measured_to_the_nanosecond() {
    let mut cb = CircuitBreaker::new(CircuitBreakerConfig { failure_threshold: 1, recovery_timeout_ms: 1 });
    cb.record_failure_at(999_999);
    assert!(!cb.allow_request_at(1_999_998));
    assert!(cb.allow_request_at(1_999_999));
}

#[test]
fn refused_request_is_an_error() {
    let mut cb = CircuitBreaker::new(CircuitBreakerConfig { failure_threshold: 1, recovery_timeout_ms: 60_000 });
    assert!(cb.try_admit().is_ok());
    cb.record_failure();
    match cb.try_admit() {
        Err(e) => {
            assert_eq!(e.to_string(), "internal error: circuit breaker is open, request rejected");
            assert_eq!(e.status_code(), 500);
        }
        Ok(()) => panic!("an open circuit admitted a request"),
    }
    assert_eq!(cb.blocked_count, 1);
}
