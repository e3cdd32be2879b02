use cloud_speed::retry::{
    is_retryable_error, RetryConfig, RetryError, RetryResult, RetryState, RetryStep,
    DEFAULT_BASE_DELAY_MS, DEFAULT_MAX_DELAY_MS, DEFAULT_MAX_RETRIES,
};
use std::time::Duration;

#[test]
fn test_retry_config_default() {
    let config = RetryConfig::default();
    assert_eq!(config.max_retries, DEFAULT_MAX_RETRIES);
    assert_eq!(config.base_delay_ms, DEFAULT_BASE_DELAY_MS);
    assert_eq!(config.max_delay_ms, DEFAULT_MAX_DELAY_MS);
}

#[test]
fn test_delay_for_attempt_exponential() {
    let config = RetryConfig::new(3, 100, 5000);

    // Attempt 0: 100 * 2^0 = 100ms
    assert_eq!(config.delay_for_attempt(0), Duration::from_millis(100));
    // Attempt 1: 100 * 2^1 = 200ms
    assert_eq!(config.delay_for_attempt(1), Duration::from_millis(200));
    // Attempt 2: 100 * 2^2 = 400ms
    assert_eq!(config.delay_for_attempt(2), Duration::from_millis(400));
    // Attempt 3: 100 * 2^3 = 800ms
    assert_eq!(config.delay_for_attempt(3), Duration::from_millis(800));
}

#[test]
fn test_delay_for_attempt_capped() {
    let config = RetryConfig::new(10, 100, 500);

    // Attempt 5: 100 * 2^5 = 3200ms, but capped at 500ms
    assert_eq!(config.delay_for_attempt(5), Duration::from_millis(500));
}

#[test]
fn test_delay_for_attempt_extremes() {
    // A huge exponent saturates at the cap.
    let config = RetryConfig::new(3, 1, u64::MAX);
    assert_eq!(config.delay_ms_for_attempt(63), 1u64 << 63);
    assert_eq!(config.delay_ms_for_attempt(64), u64::MAX);
    assert_eq!(config.delay_ms_for_attempt(u32::MAX), u64::MAX);
    // A zero base delay stays zero.
    let zero = RetryConfig::new(3, 0, 500);
    assert_eq!(zero.delay_ms_for_attempt(u32::MAX), 0);
    assert_eq!(zero.delay_for_attempt(7), Duration::from_millis(0));
    // The cap can be below the base.
    let low = RetryConfig::new(3, 100, 50);
    assert_eq!(low.delay_ms_for_attempt(0), 50);
    // Exactly at the cap.
    let at = RetryConfig::new(3, 100, 400);
    assert_eq!(at.delay_ms_for_attempt(2), 400);
    assert_eq!(at.delay_ms_for_attempt(3), 400);
}

#[test]
fn test_retry_result_is_success() {
    let success: RetryResult<i32> = RetryResult::Success(42);
    assert!(success.is_success());
    assert!(!success.is_failed());
}

#[test]
fn test_retry_result_is_failed() {
    let failed: RetryResult<i32> = RetryResult::Failed {
        last_error: std::io::Error::new(std::io::ErrorKind::Other, "test error").to_string(),
        attempts: 3,
    };
    assert!(!failed.is_success());
    assert!(failed.is_failed());
}

#[test]
fn test_retry_result_ok() {
    let success: RetryResult<i32> = RetryResult::Success(42);
    assert_eq!(success.ok(), Some(42));

    let failed: RetryResult<i32> = RetryResult::Failed {
        last_error: std::io::Error::new(std::io::ErrorKind::Other, "test error").to_string(),
        attempts: 3,
    };
    assert_eq!(failed.ok(), None);
}

#[test]
fn test_retry_result_into_result() {
    let success: RetryResult<i32> = RetryResult::Success(7);
    assert_eq!(success.into_result("op").ok(), Some(7));
    let failed: RetryResult<i32> =
        RetryResult::Failed { last_error: "boom".to_string(), attempts: 4 };
    let err = failed.into_result("upload 1MB").err().unwrap();
    assert_eq!(err.last_error, "boom");
    assert_eq!(err.attempts, 4);
    assert_eq!(err.operation, "upload 1MB");
    assert_eq!(err.to_string(), "upload 1MB failed after 4 attempts: boom");
}

#[test]
fn test_retry_error_display() {
    let error = RetryError {
        last_error: std::io::Error::new(
            std::io::ErrorKind::ConnectionRefused,
            "connection refused",
        )
        .to_string(),
        attempts: 3,
        operation: "download test".to_string(),
    };

    let display = error.to_string();
    assert!(display.contains("download test"));
    assert!(display.contains("3 attempts"));
    assert!(display.contains("connection refused"));
}

#[test]
fn test_retry_error_display_numbers() {
    let mut error = RetryError {
        last_error: "e".to_string(),
        attempts: 0,
        operation: "op".to_string(),
    };
    assert_eq!(error.to_string(), "op failed after 0 attempts: e");
    error.attempts = 10;
    assert_eq!(error.to_string(), "op failed after 10 attempts: e");
    error.attempts = u32::MAX;
    assert_eq!(error.to_string(), "op failed after 4294967295 attempts: e");
}

#[test]
fn test_is_retryable_error() {
    // Retryable errors
    let timeout_err =
        std::io::Error::new(std::io::ErrorKind::TimedOut, "connection timed out");
    assert!(is_retryable_error(&timeout_err.to_string()));

    let refused_err =
        std::io::Error::new(std::io::ErrorKind::ConnectionRefused, "connection refused");
    assert!(is_retryable_error(&refused_err.to_string()));

    // Non-retryable errors
    let perm_err =
        std::io::Error::new(std::io::ErrorKind::PermissionDenied, "permission denied");
    assert!(!is_retryable_error(&perm_err.to_string()));
}

#[test]
fn test_is_retryable_error_patterns() {
    for message in [
        "Connection Reset by peer",
        "request timeout",
        "resource temporarily unavailable",
        "Network unreachable",
        "host unreachable",
        "no route to host",
        "Broken pipe",
        "connection aborted",
        "operation would block",
        "please try again",
        "Interrupted system call",
        "DNS failure",
        "could not resolve name",
    ] {
        assert!(is_retryable_error(message), "{}", message);
    }
    assert!(!is_retryable_error(""));
    assert!(!is_retryable_error("invalid argument"));
}

/// Drives a run the way a caller does: performs the operation, reports the
/// outcome, and goes on as told. Returns the result, the number of calls of
/// the operation, and the delays waited.
fn drive<T>(
    config: &RetryConfig,
    mut operation: impl FnMut() -> Result<T, String>,
) -> (RetryResult<T>, u32, Vec<Duration>) {
    let mut state = RetryState::start(config);
    let mut calls = 0;
    let mut delays = Vec::new();
    loop {
        calls += 1;
        match state.next(operation()) {
            RetryStep::Done(result) => return (result, calls, delays),
            RetryStep::Retry { state: next, delay } => {
                delays.push(delay);
                state = next;
            }
        }
    }
}

#[test]
fn test_retry_async_success_first_attempt() {
    let config = RetryConfig::new(3, 10, 100);
    let (result, calls, delays) = drive(&config, || Ok::<_, String>(42));

    assert!(result.is_success());
    assert_eq!(result.ok(), Some(42));
    assert_eq!(calls, 1);
    assert!(delays.is_empty());
}

#[test]
fn test_retry_async_success_after_retries() {
    let config = RetryConfig::new(3, 10, 100);
    let mut counter = 0;
    let (result, calls, delays) = drive(&config, || {
        let attempt = counter;
        counter += 1;
        if attempt < 2 {
            Err("temporary failure".to_string())
        } else {
            Ok(42)
        }
    });

    assert!(result.is_success());
    assert_eq!(result.ok(), Some(42));
    assert_eq!(calls, 3);
    assert_eq!(delays, vec![Duration::from_millis(10), Duration::from_millis(20)]);
}

#[test]
fn test_retry_async_all_attempts_fail() {
    let config = RetryConfig::new(2, 10, 100);
    let (result, calls, delays): (RetryResult<i32>, _, _) =
        drive(&config, || Err("persistent failure".to_string()));

    assert!(result.is_failed());
    // 1 initial + 2 retries = 3 total attempts
    assert_eq!(calls, 3);
    assert_eq!(delays, vec![Duration::from_millis(10), Duration::from_millis(20)]);
    match result {
        RetryResult::Failed { last_error, attempts } => {
            assert_eq!(attempts, 3);
            assert_eq!(last_error, "persistent failure");
        }
        RetryResult::Success(_) => panic!("the run cannot have succeeded"),
    }
}

#[test]
fn test_retry_without_retries_makes_one_attempt() {
    let config = RetryConfig::new(0, 10, 100);
    let (result, calls, delays): (RetryResult<i32>, _, _) =
        drive(&config, || Err("down".to_string()));
    assert_eq!(calls, 1);
    assert!(delays.is_empty());
    match result {
        RetryResult::Failed { attempts, .. } => assert_eq!(attempts, 1),
        RetryResult::Success(_) => panic!("the run cannot have succeeded"),
    }
}

#[test]
fn test_retry_reports_the_last_error_and_caps_delays() {
    let config = RetryConfig::new(4, 100, 250);
    let mut n = 0;
    let (result, calls, delays): (RetryResult<i32>, _, _) = drive(&config, || {
        n += 1;
        Err(format!("failure {}", n))
    });
    assert_eq!(calls, 5);
    assert_eq!(
        delays,
        vec![
            Duration::from_millis(100),
            Duration::from_millis(200),
            Duration::from_millis(250),
            Duration::from_millis(250),
        ]
    );
    match result {
        RetryResult::Failed { last_error, attempts } => {
            assert_eq!(attempts, 5);
            assert_eq!(last_error, "failure 5");
        }
        RetryResult::Success(_) => panic!("the run cannot have succeeded"),
    }
}
