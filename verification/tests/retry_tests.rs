use whis_core::retry::{
    is_rate_limited, is_retryable_status, AttemptOutcome, RetryConfig, RetryDecision, RetryState,
};

#[test]
fn test_retryable_status_codes() {
    assert!(is_retryable_status(408));
    assert!(is_retryable_status(429));
    assert!(is_retryable_status(500));
    assert!(is_retryable_status(502));
    assert!(is_retryable_status(503));
    assert!(is_retryable_status(504));

    assert!(!is_retryable_status(400));
    assert!(!is_retryable_status(401));
    assert!(!is_retryable_status(403));
    assert!(!is_retryable_status(404));
}

#[test]
fn test_delay_calculation() {
    let config = RetryConfig::default();

    // Normal delays: 1s, 2s, 4s, 8s (capped at 16s)
    assert_eq!(config.delay_for_attempt(0, false), 1000);
    assert_eq!(config.delay_for_attempt(1, false), 2000);
    assert_eq!(config.delay_for_attempt(2, false), 4000);
    assert_eq!(config.delay_for_attempt(3, false), 8000);
    assert_eq!(config.delay_for_attempt(4, false), 16000); // capped

    // Rate limited: 2x multiplier
    assert_eq!(config.delay_for_attempt(0, true), 2000);
    assert_eq!(config.delay_for_attempt(1, true), 4000);
}

#[test]
fn test_delay_sequence_for_four_failures() {
    let config = RetryConfig::default();
    let normal: Vec<u64> = (0..4).map(|a| config.delay_for_attempt(a, false)).collect();
    assert_eq!(normal, vec![1000, 2000, 4000, 8000]);

    let limited: Vec<u64> = (0..4).map(|a| config.delay_for_attempt(a, true)).collect();
    assert_eq!(limited, vec![2000, 4000, 8000, 16000]);

    // The cap applies before the multiplier: a capped delay is still doubled.
    assert_eq!(config.delay_for_attempt(4, true), 32000);
}

#[test]
fn test_rate_limited_is_429_only() {
    assert!(is_rate_limited(429));
    assert!(!is_rate_limited(408));
    assert!(!is_rate_limited(500));
}

#[test]
fn test_two_rate_limited_failures_then_success() {
    let mut state = RetryState::new(RetryConfig::default());

    let first = state.on_outcome(AttemptOutcome::Http { status: 429 });
    assert_eq!(first, RetryDecision::Waiting { delay_ms: 2000 });

    let second = state.on_outcome(AttemptOutcome::Http { status: 429 });
    assert_eq!(second, RetryDecision::Waiting { delay_ms: 4000 });

    let third = state.on_outcome(AttemptOutcome::Success);
    assert_eq!(third, RetryDecision::Succeeded);
}

#[test]
fn test_non_retryable_fails_immediately() {
    let mut state = RetryState::new(RetryConfig::default());
    assert_eq!(
        state.on_outcome(AttemptOutcome::Http { status: 401 }),
        RetryDecision::Failed
    );
    assert_eq!(state.attempt, 0);
}

#[test]
fn test_budget_exhaustion_fails() {
    let mut state = RetryState::new(RetryConfig::default());
    assert_eq!(
        state.on_outcome(AttemptOutcome::Http { status: 500 }),
        RetryDecision::Waiting { delay_ms: 1000 }
    );
    assert_eq!(
        state.on_outcome(AttemptOutcome::Transport { retryable: true }),
        RetryDecision::Waiting { delay_ms: 2000 }
    );
    assert_eq!(
        state.on_outcome(AttemptOutcome::Http { status: 503 }),
        RetryDecision::Waiting { delay_ms: 4000 }
    );
    // The retry budget (3) is exhausted: the fourth failure is fatal.
    assert_eq!(
        state.on_outcome(AttemptOutcome::Http { status: 503 }),
        RetryDecision::Failed
    );
}

#[test]
fn test_non_retryable_transport_fails() {
    let mut state = RetryState::new(RetryConfig::default());
    assert_eq!(
        state.on_outcome(AttemptOutcome::Transport { retryable: false }),
        RetryDecision::Failed
    );
}
