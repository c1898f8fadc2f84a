use golem_tts::error::DomainError;
use golem_tts::retry::{is_retryable, retry_default, retry_with_config, RetryConfig};

#[test]
fn test_retry_config_delay_calculation() {
    let config = RetryConfig::default();

    assert_eq!(config.calculate_delay(0), 1000);
    assert_eq!(config.calculate_delay(1), 2000);
    assert_eq!(config.calculate_delay(2), 4000);

    // Should cap at max_delay_ms
    assert_eq!(config.calculate_delay(10), 30000);
}

#[test]
fn test_is_retryable() {
    assert!(is_retryable(&DomainError::NetworkError("test".to_string())));
    assert!(is_retryable(&DomainError::RateLimited(60)));
    assert!(is_retryable(&DomainError::ServiceUnavailable(
        "test".to_string()
    )));

    assert!(!is_retryable(&DomainError::InvalidText("test".to_string())));
    assert!(!is_retryable(&DomainError::VoiceNotFound("test".to_string())));
}

#[test]
fn test_internal_error_is_retryable() {
    assert!(is_retryable(&DomainError::InternalError("test".to_string())));
    assert!(!is_retryable(&DomainError::Unauthorized("test".to_string())));
    assert!(!is_retryable(&DomainError::AccessDenied("test".to_string())));
    assert!(!is_retryable(&DomainError::TextTooLong(3000)));
    assert!(!is_retryable(&DomainError::UnsupportedOperation(
        "test".to_string()
    )));
    assert!(!is_retryable(&DomainError::SessionNotFound("0".to_string())));
}

#[test]
fn retry_exhausts_budget_and_returns_final_error() {
    // An operation that always fails with a retryable error runs exactly
    // max_retries + 1 times and the final error comes back.
    let config = RetryConfig::default();
    let outcomes: Vec<Result<u32, DomainError>> = vec![
        Err(DomainError::NetworkError("attempt 0".to_string())),
        Err(DomainError::NetworkError("attempt 1".to_string())),
        Err(DomainError::NetworkError("attempt 2".to_string())),
        Err(DomainError::NetworkError("attempt 3".to_string())),
    ];
    let run = retry_with_config(&config, outcomes);
    assert_eq!(run.attempts, 4);
    match run.result {
        Err(DomainError::NetworkError(m)) => assert_eq!(m, "attempt 3"),
        other => panic!("unexpected outcome: {:?}", other),
    }
    // Every failed attempt before the last slept its backoff delay.
    assert_eq!(run.total_sleep_ms, 1000 + 2000 + 4000);
}

#[test]
fn retry_two_failures_then_success() {
    // Two retryable failures then a success: exactly three invocations,
    // and the cumulative sleep is calculate_delay(0) + calculate_delay(1).
    let config = RetryConfig::default();
    let outcomes: Vec<Result<u32, DomainError>> = vec![
        Err(DomainError::ServiceUnavailable("busy".to_string())),
        Err(DomainError::RateLimited(60)),
        Ok(7),
        Ok(99),
    ];
    let run = retry_with_config(&config, outcomes);
    assert_eq!(run.attempts, 3);
    assert_eq!(run.result.unwrap(), 7);
    assert_eq!(
        run.total_sleep_ms,
        config.calculate_delay(0) + config.calculate_delay(1)
    );
}

#[test]
fn retry_stops_on_permanent_error() {
    let config = RetryConfig::default();
    let outcomes: Vec<Result<u32, DomainError>> = vec![
        Err(DomainError::NetworkError("flaky".to_string())),
        Err(DomainError::InvalidText("permanent".to_string())),
        Ok(1),
        Ok(2),
    ];
    let run = retry_with_config(&config, outcomes);
    assert_eq!(run.attempts, 2);
    match run.result {
        Err(DomainError::InvalidText(m)) => assert_eq!(m, "permanent"),
        other => panic!("unexpected outcome: {:?}", other),
    }
    assert_eq!(run.total_sleep_ms, 1000);
}

#[test]
fn retry_default_uses_standard_schedule() {
    let outcomes: Vec<Result<u32, DomainError>> = vec![Ok(5), Ok(6), Ok(7), Ok(8)];
    let run = retry_default(outcomes);
    assert_eq!(run.attempts, 1);
    assert_eq!(run.result.unwrap(), 5);
    assert_eq!(run.total_sleep_ms, 0);
}

#[test]
fn builders_replace_fields() {
    let config = RetryConfig::default()
        .with_max_retries(5)
        .with_initial_delay(200);
    assert_eq!(config.max_retries, 5);
    assert_eq!(config.initial_delay_ms, 200);
    assert_eq!(config.max_delay_ms, 30000);
    assert_eq!(config.calculate_delay(0), 200);
    assert_eq!(config.calculate_delay(3), 1600);
}

#[test]
fn zero_initial_delay_stays_zero() {
    let config = RetryConfig::default().with_initial_delay(0);
    assert_eq!(config.calculate_delay(0), 0);
    assert_eq!(config.calculate_delay(17), 0);
}
