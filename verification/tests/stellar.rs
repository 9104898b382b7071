use cadence_contract::circuit_breaker::CircuitBreaker;
use cadence_contract::config::{
    AppConfig, CircuitBreakerConfig, RetryJitter, RetryPolicy, StellarClientConfig,
};
use cadence_contract::rate_limit::{build_rate_limiter, StellarRateLimiter};
use cadence_contract::retry::{
    connection_check_step, retry_delay, verify_retry_step, ConnectionCheckStep, RetryDelay,
    RetryStep,
};
use cadence_contract::stellar::{
    check_response_status, found_verification, is_retryable_status, response_parse_error,
    transactions_url, transport_error, trim_trailing_slash, truncate_body,
    verification_from_record, CircuitState, HorizonRecord, StellarError, StellarResult,
    VerificationResult,
};

/// Nanoseconds in a millisecond.
const MS: u128 = 1_000_000;

fn test_config() -> StellarClientConfig {
    StellarClientConfig {
        retry: RetryPolicy {
            max_retries: 3,
            base_delay_ns: 0,
            max_delay_ns: 1 * MS,
            jitter: RetryJitter::Disabled,
        },
        circuit_breaker: CircuitBreakerConfig {
            failure_threshold: 5,
            open_duration_ns: 20 * MS,
            half_open_max_calls: 1,
        },
        request_timeout_ns: 2000 * MS,
        rate_limit_per_second: 100,
        rate_limit_burst: 100,
    }
}

fn status_503(url: &str) -> StellarError {
    check_response_status(503, url.to_string(), "").unwrap_err()
}

#[test]
fn rate_limiter_allows_burst_within_configured_limit() {
    let limiter = StellarRateLimiter::new(1, 2);

    assert!(limiter.try_acquire());
    assert!(limiter.try_acquire());
    assert!(!limiter.try_acquire());
}

#[test]
fn rate_limiter_wait_time_reports_delay_once_exhausted() {
    let limiter = StellarRateLimiter::new(1, 1);
    assert!(limiter.wait_time().is_none());
    let wait = limiter.wait_time().expect("second request must wait");
    assert!(wait.as_millis() <= 1000);
    let _ = build_rate_limiter(5, 5);
}

#[test]
fn retry_delay_uses_exponential_backoff_without_jitter() {
    let policy = RetryPolicy {
        max_retries: 3,
        base_delay_ns: 100 * MS,
        max_delay_ns: 10_000 * MS,
        jitter: RetryJitter::Disabled,
    };

    assert_eq!(retry_delay(&policy, 0), RetryDelay::Exact(100 * MS));
    assert_eq!(retry_delay(&policy, 1), RetryDelay::Exact(200 * MS));
    assert_eq!(retry_delay(&policy, 2), RetryDelay::Exact(400 * MS));
}

#[test]
fn retry_delay_caps_and_jitters() {
    let policy = RetryPolicy {
        max_retries: 3,
        base_delay_ns: 100 * MS,
        max_delay_ns: 1_000 * MS,
        jitter: RetryJitter::Full,
    };
    assert_eq!(retry_delay(&policy, 3), RetryDelay::UpTo(800 * MS));
    assert_eq!(retry_delay(&policy, 4), RetryDelay::UpTo(1_000 * MS));
    assert_eq!(retry_delay(&policy, 40), RetryDelay::UpTo(1_000 * MS));
    let huge = RetryPolicy { base_delay_ns: u128::MAX, max_delay_ns: 7 * MS, ..policy };
    assert_eq!(retry_delay(&huge, 31), RetryDelay::UpTo(7 * MS));
}

#[test]
fn verify_retry_succeeds_after_transient_failures() {
    let policy = test_config().retry;
    let url = "https://h/transactions?memo=document-hash";
    let mut breaker = CircuitBreaker::new(test_config().circuit_breaker);
    assert!(breaker.allow_call(0).is_ok());

    let outcomes: Vec<StellarResult<VerificationResult>> = vec![
        Err(status_503(url)),
        Err(status_503(url)),
        Ok(found_verification(Some("transaction-id".to_string()), Some(1_704_067_200))),
    ];
    let mut result = None;
    for (attempt, outcome) in outcomes.into_iter().enumerate() {
        match verify_retry_step(&policy, attempt as u32, outcome) {
            RetryStep::Finished(r) => {
                result = Some(r);
                break;
            }
            RetryStep::RetryAfter(delay) => assert_eq!(delay, RetryDelay::Exact(0)),
        }
    }
    let result = result.unwrap();
    breaker.record_result(&result, 1 * MS);
    let result = result.unwrap();
    assert!(result.verified);
    assert_eq!(result.transaction_id.as_deref(), Some("transaction-id"));
    assert_eq!(result.timestamp, Some(1_704_067_200));
    assert_eq!(breaker.metrics().successful_calls, 1);
}

#[test]
fn verify_retry_reports_attempts_and_final_error() {
    let mut config = test_config();
    config.retry.max_retries = 1;
    config.circuit_breaker.failure_threshold = 1;
    let url = "https://h/transactions?memo=document-hash";
    let mut breaker = CircuitBreaker::new(config.circuit_breaker);
    assert!(breaker.allow_call(0).is_ok());

    let first = verify_retry_step::<VerificationResult>(&config.retry, 0, Err(status_503(url)));
    assert!(matches!(first, RetryStep::RetryAfter(_)));
    let second = verify_retry_step::<VerificationResult>(&config.retry, 1, Err(status_503(url)));
    let result = match second {
        RetryStep::Finished(r) => r,
        RetryStep::RetryAfter(_) => panic!("expected the retries to be exhausted"),
    };
    breaker.record_result(&result, 5 * MS);
    match result.unwrap_err() {
        StellarError::RetryExhausted { operation, attempts, retries_attempted, final_error } => {
            assert_eq!(operation, "verify_hash");
            assert_eq!(attempts, 2);
            assert_eq!(retries_attempted, 1);
            assert!(matches!(*final_error, StellarError::RetryableHttpStatus { status: 503, .. }));
        }
        other => panic!("expected RetryExhausted, got {other:?}"),
    }
    assert_eq!(breaker.state(), CircuitState::Open);
    assert_eq!(breaker.metrics().trips, 1);
}

#[test]
fn verify_retry_stops_at_non_retryable_error() {
    let policy = test_config().retry;
    let err = check_response_status(404, "u".to_string(), "missing").unwrap_err();
    match verify_retry_step::<VerificationResult>(&policy, 0, Err(err)) {
        RetryStep::Finished(Err(StellarError::RetryExhausted { attempts, retries_attempted, final_error, .. })) => {
            assert_eq!(attempts, 1);
            assert_eq!(retries_attempted, 0);
            assert!(!final_error.is_retryable());
        }
        _ => panic!("expected the loop to stop"),
    }
}

#[test]
fn circuit_breaker_rejects_calls_while_open() {
    let mut config = test_config();
    config.circuit_breaker.failure_threshold = 1;
    config.circuit_breaker.open_duration_ns = 50 * MS;
    let mut breaker = CircuitBreaker::new(config.circuit_breaker);

    assert!(breaker.allow_call(100 * MS).is_ok());
    let failed: StellarResult<()> = Err(check_response_status(500, "u".to_string(), "").unwrap_err());
    breaker.record_result(&failed, 100 * MS);
    assert_eq!(breaker.state(), CircuitState::Open);

    match breaker.allow_call(110 * MS).unwrap_err() {
        StellarError::CircuitOpen { state, retry_after_ns } => {
            assert_eq!(state, CircuitState::Open);
            assert_eq!(retry_after_ns, 40 * MS);
            assert!(retry_after_ns <= 50 * MS);
        }
        other => panic!("expected CircuitOpen, got {other:?}"),
    }
    assert_eq!(breaker.metrics().rejected_calls, 1);
}

#[test]
fn circuit_breaker_recovers_from_half_open_success() {
    let mut config = test_config();
    config.circuit_breaker.failure_threshold = 1;
    config.circuit_breaker.open_duration_ns = 10 * MS;
    let mut breaker = CircuitBreaker::new(config.circuit_breaker);

    assert!(breaker.allow_call(0).is_ok());
    breaker.record_failure(0);
    assert_eq!(breaker.state(), CircuitState::Open);
    assert!(breaker.allow_call(15 * MS).is_ok());
    assert_eq!(breaker.state(), CircuitState::HalfOpen);
    // the call that half-opens the circuit is not counted in flight; the next
    // one is, and fills the single trial slot
    assert!(breaker.allow_call(16 * MS).is_ok());
    match breaker.allow_call(16 * MS).unwrap_err() {
        StellarError::CircuitOpen { state, retry_after_ns } => {
            assert_eq!(state, CircuitState::HalfOpen);
            assert_eq!(retry_after_ns, 0);
        }
        other => panic!("expected CircuitOpen, got {other:?}"),
    }
    breaker.record_success();

    assert_eq!(breaker.state(), CircuitState::Closed);
    assert_eq!(breaker.metrics().recoveries, 1);
    assert_eq!(breaker.metrics().half_open_successes, 1);
}

#[test]
fn circuit_breaker_half_open_failure_reopens() {
    let config = CircuitBreakerConfig { failure_threshold: 2, open_duration_ns: 10 * MS, half_open_max_calls: 2 };
    let mut breaker = CircuitBreaker::new(config);
    breaker.record_failure(0);
    assert_eq!(breaker.state(), CircuitState::Closed);
    breaker.record_success();
    breaker.record_failure(1 * MS);
    assert_eq!(breaker.state(), CircuitState::Closed);
    breaker.record_failure(2 * MS);
    assert_eq!(breaker.state(), CircuitState::Open);
    assert!(breaker.allow_call(12 * MS).is_ok());
    assert!(breaker.allow_call(12 * MS).is_ok());
    assert!(breaker.allow_call(12 * MS).is_ok());
    assert!(breaker.allow_call(12 * MS).is_err());
    breaker.record_success();
    assert_eq!(breaker.state(), CircuitState::HalfOpen);
    breaker.record_failure(13 * MS);
    assert_eq!(breaker.state(), CircuitState::Open);
    let m = breaker.metrics();
    assert_eq!(m.trips, 2);
    assert_eq!(m.half_open_failures, 1);
    assert_eq!(m.failed_calls, 4);
    assert_eq!(m.successful_calls, 2);
    assert_eq!(m.rejected_calls, 1);
}

#[test]
fn circuit_breaker_ignores_errors_that_do_not_count() {
    let mut breaker = CircuitBreaker::new(CircuitBreakerConfig { failure_threshold: 1, open_duration_ns: 5 * MS, half_open_max_calls: 1 });
    let not_found: StellarResult<()> = Err(StellarError::VerificationNotFound { hash: "h".to_string() });
    breaker.record_result(&not_found, 0);
    assert_eq!(breaker.state(), CircuitState::Closed);
    assert_eq!(breaker.metrics().failed_calls, 0);
    let timeout: StellarResult<()> = Err(transport_error("u".to_string(), 9, true, "t".to_string()));
    breaker.record_result(&timeout, 0);
    assert_eq!(breaker.state(), CircuitState::Open);
}

#[test]
fn connection_check_gives_up_after_all_attempts() {
    let policy = RetryPolicy { max_retries: 2, base_delay_ns: 10 * MS, max_delay_ns: 100 * MS, jitter: RetryJitter::Disabled };
    let url = "https://h".to_string();
    assert!(matches!(connection_check_step(&policy, &url, 0, true), ConnectionCheckStep::Connected));
    assert!(matches!(connection_check_step(&policy, &url, 1, false), ConnectionCheckStep::RetryAfter(RetryDelay::Exact(d)) if d == 20 * MS));
    match connection_check_step(&policy, &url, 2, false) {
        ConnectionCheckStep::GaveUp(StellarError::RetryExhausted { operation, attempts, retries_attempted, final_error }) => {
            assert_eq!(operation, "check_connection");
            assert_eq!(attempts, 3);
            assert_eq!(retries_attempted, 2);
            match *final_error {
                StellarError::Request { url, source } => {
                    assert_eq!(url, "https://h");
                    assert_eq!(source, "connection check returned a non-success response");
                }
                other => panic!("unexpected final error {other:?}"),
            }
        }
        _ => panic!("expected to give up"),
    }
    let once = RetryPolicy { max_retries: 0, ..policy };
    match connection_check_step(&once, &url, 0, false) {
        ConnectionCheckStep::GaveUp(StellarError::RetryExhausted { attempts, final_error, .. }) => {
            assert_eq!(attempts, 1);
            assert!(matches!(*final_error, StellarError::Request { ref source, .. } if source == "connection check failed"));
        }
        _ => panic!("expected to give up"),
    }
}

#[test]
fn error_classification() {
    assert!(is_retryable_status(408));
    assert!(is_retryable_status(429));
    assert!(is_retryable_status(500));
    assert!(is_retryable_status(599));
    assert!(!is_retryable_status(404));
    assert!(!is_retryable_status(600));
    let open = StellarError::CircuitOpen { state: CircuitState::Open, retry_after_ns: 1 };
    assert!(open.is_retryable());
    assert!(!open.affects_circuit_breaker());
    let wrapped = StellarError::RetryExhausted {
        operation: "verify_hash",
        attempts: 2,
        retries_attempted: 1,
        final_error: Box::new(StellarError::NonRetryableHttpStatus { status: 400, url: "u".into(), body: "b".into() }),
    };
    assert!(!wrapped.is_retryable());
    assert!(!wrapped.affects_circuit_breaker());
    let parse = response_parse_error("u".to_string(), "{", serde_json::from_str::<u32>("{").unwrap_err());
    assert!(parse.is_retryable());
    assert!(!parse.affects_circuit_breaker());
    let request = transport_error("u".to_string(), 9, false, "refused".to_string());
    assert!(matches!(request, StellarError::Request { ref source, .. } if source == "refused"));
}

#[test]
fn response_status_handling() {
    assert!(check_response_status(200, "u".to_string(), "ok").is_ok());
    assert!(check_response_status(299, "u".to_string(), "ok").is_ok());
    match check_response_status(503, "u".to_string(), "busy").unwrap_err() {
        StellarError::RetryableHttpStatus { status, url, body } => {
            assert_eq!(status, 503);
            assert_eq!(url, "u");
            assert_eq!(body, "busy");
        }
        other => panic!("unexpected {other:?}"),
    }
    assert!(matches!(
        check_response_status(404, "u".to_string(), "nope").unwrap_err(),
        StellarError::NonRetryableHttpStatus { status: 404, .. }
    ));
}

#[test]
fn body_truncation() {
    let short = "é".repeat(512);
    assert_eq!(truncate_body(&short), short);
    let long = "é".repeat(600);
    let t = truncate_body(&long);
    assert_eq!(t.chars().count(), 515);
    assert!(t.ends_with("..."));
    assert_eq!(t, format!("{}...", "é".repeat(512)));
}

#[test]
fn url_handling() {
    assert_eq!(trim_trailing_slash("https://horizon.stellar.org///"), "https://horizon.stellar.org");
    assert_eq!(trim_trailing_slash("https://horizon.stellar.org"), "https://horizon.stellar.org");
    assert_eq!(trim_trailing_slash("///"), "");
    assert_eq!(transactions_url("https://h", "abc"), "https://h/transactions?memo=abc");
}

#[test]
fn verification_from_horizon_records() {
    let found = verification_from_record(Some(HorizonRecord {
        hash: Some("transaction-id".to_string()),
        created_at: Some("2024-01-01T00:00:00Z".to_string()),
    }));
    assert_eq!(
        found,
        VerificationResult { verified: true, transaction_id: Some("transaction-id".to_string()), timestamp: Some(1_704_067_200) }
    );
    let offset = verification_from_record(Some(HorizonRecord {
        hash: Some(String::new()),
        created_at: Some("2024-01-01T02:00:00+02:00".to_string()),
    }));
    assert_eq!(offset.transaction_id, None);
    assert_eq!(offset.timestamp, Some(1_704_067_200));
    let bad = verification_from_record(Some(HorizonRecord { hash: None, created_at: Some("yesterday".to_string()) }));
    assert!(bad.verified);
    assert_eq!(bad.timestamp, None);
    let none = verification_from_record(None);
    assert_eq!(none, VerificationResult { verified: false, transaction_id: None, timestamp: None });
}

#[test]
fn config_from_app_config_and_defaults() {
    let app = AppConfig {
        stellar_horizon_url: "https://h".to_string(),
        rate_limit_per_second: 7,
        rate_limit_burst: 9,
        stellar_max_retries: 4,
        stellar_retry_base_delay_ms: 50,
        stellar_retry_max_delay_ms: 500,
        stellar_retry_jitter_enabled: false,
        stellar_circuit_breaker_failure_threshold: 3,
        stellar_circuit_breaker_open_duration_ms: 1000,
        stellar_circuit_breaker_half_open_max_calls: 2,
        stellar_request_timeout_ms: 1500,
    };
    let c = StellarClientConfig::from_app_config(&app);
    assert_eq!(c.retry, RetryPolicy { max_retries: 4, base_delay_ns: 50 * MS, max_delay_ns: 500 * MS, jitter: RetryJitter::Disabled });
    assert_eq!(c.circuit_breaker, CircuitBreakerConfig { failure_threshold: 3, open_duration_ns: 1000 * MS, half_open_max_calls: 2 });
    assert_eq!(c.request_timeout_ns, 1500 * MS);
    assert_eq!((c.rate_limit_per_second, c.rate_limit_burst), (7, 9));
    let jittered = StellarClientConfig::from_app_config(&AppConfig { stellar_retry_jitter_enabled: true, ..app });
    assert_eq!(jittered.retry.jitter, RetryJitter::Full);

    let d = StellarClientConfig::default();
    assert_eq!(d.retry, RetryPolicy { max_retries: 3, base_delay_ns: 100 * MS, max_delay_ns: 10_000 * MS, jitter: RetryJitter::Full });
    assert_eq!(d.circuit_breaker, CircuitBreakerConfig::default());
    assert_eq!(d.circuit_breaker, CircuitBreakerConfig { failure_threshold: 5, open_duration_ns: 30_000 * MS, half_open_max_calls: 1 });
    assert_eq!(d.request_timeout_ns, 10_000 * MS);
    assert_eq!((d.rate_limit_per_second, d.rate_limit_burst), (10, 10));
}

#[test]
fn circuit_state_names() {
    assert_eq!(CircuitState::Closed.as_str(), "closed");
    assert_eq!(CircuitState::Open.as_str(), "open");
    assert_eq!(CircuitState::HalfOpen.as_str(), "half-open");
}

#[test]
fn circuit_breaker_times_to_the_nanosecond() {
    let mut breaker = CircuitBreaker::new(CircuitBreakerConfig { failure_threshold: 1, open_duration_ns: 1_500, half_open_max_calls: 1 });
    breaker.record_failure(1_000);
    match breaker.allow_call(2_499).unwrap_err() {
        StellarError::CircuitOpen { retry_after_ns, .. } => assert_eq!(retry_after_ns, 1),
        other => panic!("expected CircuitOpen, got {other:?}"),
    }
    assert!(breaker.allow_call(2_500).is_ok());
    assert_eq!(breaker.state(), CircuitState::HalfOpen);
    let sub_ms = RetryPolicy { max_retries: 1, base_delay_ns: 250, max_delay_ns: 10_000, jitter: RetryJitter::Disabled };
    assert_eq!(retry_delay(&sub_ms, 1), RetryDelay::Exact(500));
}
