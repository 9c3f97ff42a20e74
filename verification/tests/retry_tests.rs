use glm_vision_rs::retry::{
    backoff_ms, next_decision, run_retry_schedule, AttemptOutcome, RetryDecision,
};
use glm_vision_rs::VisionError;

fn retryable_failure(status: u16) -> AttemptOutcome {
    AttemptOutcome::Failure {
        error: VisionError::ApiError {
            status,
            body: "server said no".to_string(),
        },
    }
}

#[test]
fn test_backoff_values() {
    assert_eq!(backoff_ms(0), 1000);
    assert_eq!(backoff_ms(1), 2000);
    assert_eq!(backoff_ms(2), 4000);
    assert_eq!(backoff_ms(10), 1024000);
}

#[test]
fn test_retryable_classification() {
    let retryable = [429u16, 500, 502, 503, 599];
    for status in retryable {
        let e = VisionError::ApiError {
            status,
            body: String::new(),
        };
        assert!(e.is_retryable(), "status {} should be retryable", status);
    }
    let fatal = [400u16, 401, 404, 418, 428, 430, 600];
    for status in fatal {
        let e = VisionError::ApiError {
            status,
            body: String::new(),
        };
        assert!(!e.is_retryable(), "status {} should be fatal", status);
    }
    assert!(!VisionError::ParseError.is_retryable());
    assert!(!VisionError::MissingContent.is_retryable());
    assert!(!VisionError::TransportError {
        detail: "dns".to_string()
    }
    .is_retryable());
}

#[test]
fn test_next_decision() {
    let transient = VisionError::ApiError {
        status: 429,
        body: String::new(),
    };
    assert_eq!(
        next_decision(0, 2, &transient),
        RetryDecision::RetryAfterMs { delay_ms: 1000 }
    );
    assert_eq!(
        next_decision(1, 2, &transient),
        RetryDecision::RetryAfterMs { delay_ms: 2000 }
    );
    // Last allowed attempt: no retries remain.
    assert_eq!(next_decision(2, 2, &transient), RetryDecision::GiveUp);
    // A fatal error gives up regardless of remaining attempts.
    assert_eq!(
        next_decision(0, 2, &VisionError::ParseError),
        RetryDecision::GiveUp
    );
}

#[test]
fn test_backoff_sequence_with_only_retryable_failures() {
    let outcomes = vec![
        retryable_failure(500),
        retryable_failure(429),
        retryable_failure(502),
        retryable_failure(503),
    ];
    let trace = run_retry_schedule(&outcomes, 3);
    assert_eq!(trace.sleeps_ms, vec![1000, 2000, 4000]);
    assert_eq!(trace.attempts, 4);
    match trace.result {
        Err(VisionError::ApiError { status, .. }) => assert_eq!(status, 503),
        other => panic!("expected the last ApiError, got {:?}", other),
    }
}

#[test]
fn test_fatal_error_terminates_immediately() {
    let outcomes = vec![
        AttemptOutcome::Failure {
            error: VisionError::ParseError,
        },
        AttemptOutcome::Success {
            text: "never reached".to_string(),
        },
    ];
    let trace = run_retry_schedule(&outcomes, 1);
    assert_eq!(trace.sleeps_ms, Vec::<u64>::new());
    assert_eq!(trace.attempts, 1);
    assert_eq!(trace.result, Err(VisionError::ParseError));
}

#[test]
fn test_success_on_first_attempt() {
    let outcomes = vec![AttemptOutcome::Success {
        text: "answer".to_string(),
    }];
    let trace = run_retry_schedule(&outcomes, 0);
    assert_eq!(trace.result, Ok("answer".to_string()));
    assert_eq!(trace.sleeps_ms, Vec::<u64>::new());
    assert_eq!(trace.attempts, 1);
}

#[test]
fn test_retry_then_success() {
    let outcomes = vec![
        retryable_failure(500),
        AttemptOutcome::Success {
            text: "recovered".to_string(),
        },
        retryable_failure(500),
    ];
    let trace = run_retry_schedule(&outcomes, 2);
    assert_eq!(trace.result, Ok("recovered".to_string()));
    assert_eq!(trace.sleeps_ms, vec![1000]);
    assert_eq!(trace.attempts, 2);
}

#[test]
fn test_max_retries_zero_means_one_attempt() {
    let outcomes = vec![retryable_failure(500)];
    let trace = run_retry_schedule(&outcomes, 0);
    assert_eq!(trace.sleeps_ms, Vec::<u64>::new());
    assert_eq!(trace.attempts, 1);
    assert!(trace.result.is_err());
}

#[test]
fn test_error_messages() {
    let e = VisionError::ApiError {
        status: 500,
        body: "oops".to_string(),
    };
    assert_eq!(e.message(), "Vision API error HTTP 500: oops");
    let e = VisionError::NotFound {
        kind: glm_vision_rs::MediaKind::Image,
        source: "/a/b.png".to_string(),
    };
    assert_eq!(e.message(), "Image file not found: /a/b.png");
    let e = VisionError::UnsupportedFormat {
        kind: glm_vision_rs::MediaKind::Image,
        ext: "gif".to_string(),
    };
    assert_eq!(e.message(), "Unsupported image format: .gif");
    assert_eq!(
        VisionError::ParseError.message(),
        "Failed to parse vision API response"
    );
    assert_eq!(
        VisionError::MissingContent.message(),
        "Vision API response missing content"
    );
}
