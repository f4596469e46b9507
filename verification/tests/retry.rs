use arcflow_core::error::RuntimeError;
use arcflow_core::providers::error::ProviderCallError;
use arcflow_core::rcs::types::RetryPolicy;
use arcflow_core::retry::config::{BackoffStrategy, RetryConfig};
use arcflow_core::retry::engine::{after_failed_attempt, after_failed_attempt_seeded, RetryError};
use arcflow_core::retry::timeout::{step_timed_out, TimeoutConfig, TimeoutDuration};
use arcflow_core::tracing::events::TraceEventKind;
use arcflow_core::tracing::sprint5_emitter::TraceEventEmitter;
use arcflow_core::tracing::store::TraceStore;

fn invalid(reason: &str) -> Result<(), RuntimeError> {
    Err(RuntimeError::InvalidWorkflowDefinition { reason: reason.to_string() })
}

fn exponential(base_ms: u64, multiplier_x100: u64, max_ms: u64, jitter_ms: u64) -> BackoffStrategy {
    BackoffStrategy::Exponential { base_ms, multiplier_x100, max_ms, jitter_ms }
}

#[test]
fn default_exponential_doubles_up_to_the_cap() {
    let s = BackoffStrategy::default_exponential();
    assert_eq!(s.compute_delay_ms(0, 0), 100);
    assert_eq!(s.compute_delay_ms(1, 0), 100);
    assert_eq!(s.compute_delay_ms(2, 0), 200);
    assert_eq!(s.compute_delay_ms(3, 0), 400);
    assert_eq!(s.compute_delay_ms(7, 0), 6400);
    assert_eq!(s.compute_delay_ms(8, 0), 10_000);
    assert_eq!(s.compute_delay_ms(u32::MAX, 0), 10_000);
}

#[test]
fn exponential_growth_truncates_each_step() {
    let s = exponential(10, 150, 1000, 0);
    assert_eq!(s.compute_delay_ms(2, 0), 15);
    assert_eq!(s.compute_delay_ms(3, 0), 22);
    assert_eq!(s.compute_delay_ms(4, 0), 33);
}

#[test]
fn linear_backoff_adds_increments_up_to_the_cap() {
    let s = BackoffStrategy::Linear { base_ms: 100, increment_ms: 50, max_ms: 300, jitter_ms: 0 };
    assert_eq!(s.compute_delay_ms(1, 0), 100);
    assert_eq!(s.compute_delay_ms(3, 0), 200);
    assert_eq!(s.compute_delay_ms(10, 0), 300);
    let huge = BackoffStrategy::Linear { base_ms: 1, increment_ms: u64::MAX, max_ms: 500, jitter_ms: 0 };
    assert_eq!(huge.compute_delay_ms(3, 0), 500);
}

#[test]
fn constant_backoff_adds_jitter_from_the_seed() {
    let s = BackoffStrategy::Constant { delay_ms: 250, jitter_ms: 10 };
    assert_eq!(s.compute_delay_ms(1, 0), 250);
    assert_eq!(s.compute_delay_ms(1, 7), 257);
    assert_eq!(s.compute_delay_ms(4, 23), 253);
    let saturating = BackoffStrategy::Constant { delay_ms: u64::MAX, jitter_ms: 10 };
    assert_eq!(saturating.compute_delay_ms(1, 9), u64::MAX);
}

#[test]
fn backoff_never_exceeds_cap_plus_jitter() {
    let strategies = [
        exponential(100, 300, 5000, 0),
        exponential(100, 300, 5000, 40),
        BackoffStrategy::Linear { base_ms: 10, increment_ms: 700, max_ms: 2000, jitter_ms: 25 },
    ];
    for s in strategies.iter() {
        let (max_ms, jitter) = match s {
            BackoffStrategy::Exponential { max_ms, jitter_ms, .. } => (*max_ms, *jitter_ms),
            BackoffStrategy::Linear { max_ms, jitter_ms, .. } => (*max_ms, *jitter_ms),
            BackoffStrategy::Constant { .. } => unreachable!(),
        };
        for attempt in 0..40u32 {
            for seed in [0u64, 1, 39, 1_000_003] {
                let d = s.compute_delay_ms(attempt, seed);
                if jitter == 0 || seed == 0 {
                    assert!(d <= max_ms);
                } else {
                    assert!(d < max_ms + jitter);
                }
            }
        }
    }
}

#[test]
fn backoff_is_monotone_in_the_attempt() {
    let strategies = [
        BackoffStrategy::default_exponential(),
        exponential(3, 101, 1_000_000, 0),
        BackoffStrategy::Linear { base_ms: 10, increment_ms: 7, max_ms: 500, jitter_ms: 0 },
    ];
    for s in strategies.iter() {
        let mut last = 0u64;
        for attempt in 0..200u32 {
            let d = s.compute_delay_ms(attempt, 0);
            assert!(d >= last);
            last = d;
        }
    }
}

#[test]
fn saturating_growth_can_shrink_the_delay() {
    let s = exponential(1u64 << 62, 400, u64::MAX, 0);
    assert!(s.compute_delay_ms(2, 0) < s.compute_delay_ms(1, 0));
}

#[test]
fn retry_config_validation_reports_each_error() {
    let ok = RetryConfig { max_attempts: 3, backoff: BackoffStrategy::default_exponential() };
    assert_eq!(ok.validate(), Ok(()));
    let zero = RetryConfig { max_attempts: 0, backoff: BackoffStrategy::default_exponential() };
    assert_eq!(zero.validate(), invalid("retry max_attempts must be at least 1"));
    let many = RetryConfig { max_attempts: 11, backoff: BackoffStrategy::default_exponential() };
    assert_eq!(many.validate(), invalid("retry max_attempts exceeds maximum 10"));
    let cases = [
        (exponential(0, 200, 100, 0), "ExponentialBackoff base_ms must be at least 1"),
        (exponential(10, 99, 100, 0), "ExponentialBackoff multiplier must be at least 1.0"),
        (exponential(10, 200, 10, 0), "ExponentialBackoff max_ms must exceed base_ms"),
        (BackoffStrategy::Linear { base_ms: 0, increment_ms: 1, max_ms: 5, jitter_ms: 0 }, "LinearBackoff base_ms must be at least 1"),
        (BackoffStrategy::Linear { base_ms: 6, increment_ms: 1, max_ms: 5, jitter_ms: 0 }, "LinearBackoff max_ms must be >= base_ms"),
        (BackoffStrategy::Constant { delay_ms: 0, jitter_ms: 0 }, "ConstantBackoff delay_ms must be at least 1"),
    ];
    for (backoff, reason) in cases {
        let c = RetryConfig { max_attempts: 2, backoff };
        assert_eq!(c.validate(), invalid(reason));
    }
    let linear_equal = RetryConfig { max_attempts: 1, backoff: BackoffStrategy::Linear { base_ms: 5, increment_ms: 0, max_ms: 5, jitter_ms: 0 } };
    assert_eq!(linear_equal.validate(), Ok(()));
}

#[test]
fn retry_config_from_rcs_uses_default_multiplier() {
    let c = RetryConfig::from_rcs(&RetryPolicy { max_attempts: 4, backoff_ms: 50, max_backoff_ms: 800 });
    assert_eq!(c.max_attempts, 4);
    match c.backoff {
        BackoffStrategy::Exponential { base_ms, multiplier_x100, max_ms, jitter_ms } => {
            assert_eq!((base_ms, multiplier_x100, max_ms, jitter_ms), (50, 200, 800, 0));
        }
        other => panic!("unexpected {:?}", other),
    }
}

fn network_error() -> ProviderCallError {
    ProviderCallError::NetworkError { provider_id: "openai".into(), sanitized_message: "request failed".into() }
}

#[test]
fn retryable_failure_before_the_last_attempt_emits_retry_attempted() {
    let config = RetryConfig { max_attempts: 3, backoff: BackoffStrategy::default_exponential() };
    let mut emitter = TraceEventEmitter::new("run-1".to_string(), TraceStore::new());
    let r = after_failed_attempt_seeded(&config, 2, network_error(), "step-a", &mut emitter, 0);
    assert_eq!(r.ok(), Some(200));
    let store = emitter.into_store();
    let events = store.get_events("run-1").unwrap();
    assert_eq!(events.len(), 1);
    assert_eq!(events[0].sequence, 0);
    match &events[0].kind {
        TraceEventKind::RetryAttempted { run_id, step_id, attempt_number, max_attempts, backoff_ms, trigger_error_code } => {
            assert_eq!(run_id, "run-1");
            assert_eq!(step_id, "step-a");
            assert_eq!((*attempt_number, *max_attempts, *backoff_ms), (2, 3, 200));
            assert_eq!(trigger_error_code, "provider_network_error");
        }
        other => panic!("unexpected {:?}", other),
    }
}

#[test]
fn retryable_failure_on_the_last_attempt_is_exhausted() {
    let config = RetryConfig { max_attempts: 3, backoff: BackoffStrategy::default_exponential() };
    let mut emitter = TraceEventEmitter::new("run-2".to_string(), TraceStore::new());
    let timeout = ProviderCallError::Timeout { provider_id: "gemini".into(), timeout_secs: 60 };
    let err = after_failed_attempt(&config, 3, timeout, "step-b", &mut emitter).unwrap_err();
    let store = emitter.into_store();
    assert!(err.is_exhausted());
    assert_eq!(err.attempts_made(), 3);
    match &err {
        RetryError::Exhausted { last_error_code, .. } => assert_eq!(last_error_code, "provider_timeout"),
        other => panic!("unexpected {:?}", other),
    }
    let events = store.get_events("run-2").unwrap();
    assert!(matches!(
        &events[0].kind,
        TraceEventKind::RetryExhausted { total_attempts: 3, last_error_code, .. } if last_error_code == "provider_timeout"
    ));
}

#[test]
fn non_retryable_failure_stops_without_events() {
    let config = RetryConfig { max_attempts: 5, backoff: BackoffStrategy::default_exponential() };
    let api = ProviderCallError::ApiError { provider_id: "openai".into(), status_code: 404, sanitized_message: "api error".into() };
    let mut emitter = TraceEventEmitter::new("run-3".to_string(), TraceStore::new());
    let err = after_failed_attempt_seeded(&config, 1, api.clone(), "s", &mut emitter, 0).unwrap_err();
    let store = emitter.into_store();
    assert!(!err.is_exhausted());
    assert_eq!(err.attempts_made(), 1);
    assert!(matches!(err, RetryError::NonRetryable(e) if e == api));
    assert!(store.get_events("run-3").is_none());
}

#[test]
fn api_error_code_carries_the_status() {
    let config = RetryConfig { max_attempts: 1, backoff: BackoffStrategy::default_exponential() };
    let limited = ProviderCallError::RateLimited { provider_id: "anthropic".into(), retry_after_seconds: Some(3) };
    let mut emitter = TraceEventEmitter::new("r".to_string(), TraceStore::new());
    let err = after_failed_attempt_seeded(&config, 1, limited, "s", &mut emitter, 0).unwrap_err();
    match err {
        RetryError::Exhausted { last_error_code, .. } => assert_eq!(last_error_code, "provider_rate_limited"),
        other => panic!("unexpected {:?}", other),
    }
}

#[test]
fn clock_jitter_stays_below_one_billion() {
    let config = RetryConfig { max_attempts: 3, backoff: BackoffStrategy::Constant { delay_ms: 100, jitter_ms: u64::MAX } };
    for _ in 0..10 {
        let mut emitter = TraceEventEmitter::new("j".to_string(), TraceStore::new());
        let d = after_failed_attempt(&config, 1, network_error(), "s", &mut emitter).unwrap();
        assert!(d >= 100 && d < 100 + 1_000_000_000);
    }
}

#[test]
fn timeout_validation() {
    let d = |secs: u64, nanos: u32| Some(TimeoutDuration { secs, nanos });
    assert_eq!(TimeoutConfig { workflow_timeout: None, step_timeout: None }.validate(), Ok(()));
    assert_eq!(TimeoutConfig { workflow_timeout: d(30, 0), step_timeout: d(0, 5) }.validate(), Ok(()));
    assert_eq!(
        TimeoutConfig { workflow_timeout: d(0, 0), step_timeout: None }.validate(),
        invalid("workflow timeout must be positive")
    );
    assert_eq!(
        TimeoutConfig { workflow_timeout: None, step_timeout: d(86_401, 0) }.validate(),
        invalid("step timeout 86401s exceeds maximum 86400s")
    );
    assert_eq!(
        TimeoutConfig { workflow_timeout: d(90_000, 0), step_timeout: d(0, 0) }.validate(),
        invalid("workflow timeout 90000s exceeds maximum 86400s")
    );
    assert_eq!(TimeoutConfig { workflow_timeout: d(86_400, 999), step_timeout: None }.validate(), Ok(()));
}

#[test]
fn step_timeout_emits_and_returns_error() {
    let mut emitter = TraceEventEmitter::new("run-t".to_string(), TraceStore::new());
    let e = step_timed_out("step-x", 500, 750, &mut emitter);
    let store = emitter.into_store();
    assert_eq!(e, RuntimeError::StepTimeout { step_id: "step-x".into(), configured_ms: 500, elapsed_ms: 750 });
    let events = store.get_events("run-t").unwrap();
    assert!(matches!(
        &events[0].kind,
        TraceEventKind::TimeoutEnforced { timeout_type, configured_ms: 500, elapsed_ms: 750, .. } if timeout_type == "step"
    ));
}
