//! Retry decisions: what happens after an attempt fails, and the trace event
//! emitted before each backoff sleep or on exhaustion. The caller runs the
//! attempts, sleeps for the returned backoff and stops on an error.

use vstd::prelude::*;
use crate::clock::clock_subsec_nanos;
use crate::providers::error::ProviderCallError;
use crate::retry::config::RetryConfig;
use crate::text::{append_str, decimal, owned, u64_decimal};
use crate::tracing::events::TraceEventKind;
use crate::tracing::sprint5_emitter::{emits, TraceEventEmitter};

verus! {

/// Errors the retry engine can classify.
pub trait Retryable {
    /// Whether the failure is transient.
    spec fn spec_retryable(&self) -> bool;

    /// Stable machine-readable code of the failure.
    spec fn spec_error_code(&self) -> Seq<char>;

    fn is_retryable(&self) -> (b: bool)
        ensures
            b == self.spec_retryable(),
    ;

    fn error_code(&self) -> (c: String)
        ensures
            c@ == self.spec_error_code(),
    ;
}

/// Trace code of a provider failure.
pub open spec fn provider_error_code(e: ProviderCallError) -> Seq<char> {
    match e {
        ProviderCallError::RateLimited { .. } => "provider_rate_limited"@,
        ProviderCallError::Timeout { .. } => "provider_timeout"@,
        ProviderCallError::NetworkError { .. } => "provider_network_error"@,
        ProviderCallError::AuthenticationFailed { .. } => "provider_auth_failed"@,
        ProviderCallError::ApiError { status_code, .. } =>
            "provider_api_error_"@ + decimal(status_code as nat),
        ProviderCallError::ResponseParseError { .. } => "provider_response_parse_error"@,
        ProviderCallError::NotConfigured { .. } => "provider_not_configured"@,
        ProviderCallError::ContentFiltered { .. } => "provider_content_filtered"@,
    }
}

impl Retryable for ProviderCallError {
    open spec fn spec_retryable(&self) -> bool {
        self.spec_is_retryable()
    }

    open spec fn spec_error_code(&self) -> Seq<char> {
        provider_error_code(*self)
    }

    fn is_retryable(&self) -> (b: bool) {
        ProviderCallError::is_retryable(self)
    }

    fn error_code(&self) -> (c: String) {
        match self {
            ProviderCallError::RateLimited { .. } => owned("provider_rate_limited"),
            ProviderCallError::Timeout { .. } => owned("provider_timeout"),
            ProviderCallError::NetworkError { .. } => owned("provider_network_error"),
            ProviderCallError::AuthenticationFailed { .. } => owned("provider_auth_failed"),
            ProviderCallError::ApiError { status_code, .. } => {
                let mut code = owned("provider_api_error_");
                let digits = u64_decimal(*status_code as u64);
                append_str(&mut code, digits.as_str());
                code
            },
            ProviderCallError::ResponseParseError { .. } => owned("provider_response_parse_error"),
            ProviderCallError::NotConfigured { .. } => owned("provider_not_configured"),
            ProviderCallError::ContentFiltered { .. } => owned("provider_content_filtered"),
        }
    }
}

/// Why a retried operation gave up.
#[derive(Debug)]
pub enum RetryError<E> {
    /// The failure was not transient; no further attempt was made.
    NonRetryable(E),
    /// Every allowed attempt failed with a transient error.
    Exhausted { attempts_made: u32, last_error_code: String, error: E },
}

impl<E: Retryable> RetryError<E> {
    pub fn is_exhausted(&self) -> (b: bool)
        ensures
            b == (self is Exhausted),
    {
        match self {
            RetryError::Exhausted { .. } => true,
            RetryError::NonRetryable(_) => false,
        }
    }

    /// Attempts made before giving up: 1 for a non-retryable failure.
    pub fn attempts_made(&self) -> (n: u32)
        ensures
            n == (match self {
                RetryError::NonRetryable(_) => 1u32,
                RetryError::Exhausted { attempts_made, .. } => *attempts_made,
            }),
    {
        match self {
            RetryError::NonRetryable(_) => 1,
            RetryError::Exhausted { attempts_made, .. } => *attempts_made,
        }
    }
}

/// Jitter seed from the wall clock: its sub-second nanoseconds, or 42 when the
/// clock reads before the epoch.
fn jitter_seed_from_time() -> (seed: u64)
    ensures
        seed < 1_000_000_000,
{
    match clock_subsec_nanos() {
        Some(n) => n as u64,
        None => 42,
    }
}

/// Whether `kind` is the exhaustion event for `run`/`step` after `attempts`
/// attempts, the last failing with `code`.
pub open spec fn is_retry_exhausted(
    kind: TraceEventKind,
    run: Seq<char>,
    step: Seq<char>,
    attempts: u32,
    code: Seq<char>,
) -> bool {
    &&& kind matches TraceEventKind::RetryExhausted { run_id, step_id, total_attempts, last_error_code }
    &&& run_id@ == run
    &&& step_id@ == step
    &&& total_attempts == attempts
    &&& last_error_code@ == code
}

/// Whether `kind` announces retry attempt `attempt` of `max` for `run`/`step`,
/// sleeping `backoff` ms after a failure with `code`.
pub open spec fn is_retry_attempted(
    kind: TraceEventKind,
    run: Seq<char>,
    step: Seq<char>,
    attempt: u32,
    max: u32,
    backoff: u64,
    code: Seq<char>,
) -> bool {
    &&& kind matches TraceEventKind::RetryAttempted {
        run_id,
        step_id,
        attempt_number,
        max_attempts,
        backoff_ms,
        trigger_error_code,
    }
    &&& run_id@ == run
    &&& step_id@ == step
    &&& attempt_number == attempt
    &&& max_attempts == max
    &&& backoff_ms == backoff
    &&& trigger_error_code@ == code
}

/// What one failed attempt leads to, given the jitter seed: the result `r`
/// and the emitter going from `e0` to `e1`. A non-retryable error stops with
/// the emitter unchanged; a retryable error on the last allowed attempt is
/// exhausted and reported by `RetryExhausted`; an earlier one is reported by
/// `RetryAttempted` and gives the backoff for that seed.
pub open spec fn retry_outcome<E: Retryable>(
    config: RetryConfig,
    attempt: u32,
    err: E,
    step: Seq<char>,
    e0: TraceEventEmitter,
    e1: TraceEventEmitter,
    r: Result<u64, RetryError<E>>,
    seed: u64,
) -> bool {
    &&& (!err.spec_retryable() ==> {
        &&& r matches Err(RetryError::NonRetryable(e)) && e == err
        &&& e1.next_seq() == e0.next_seq()
        &&& e1.current_store() == e0.current_store()
    })
    &&& (err.spec_retryable() && attempt == config.max_attempts ==> {
        &&& r matches Err(RetryError::Exhausted { attempts_made, last_error_code, error })
            && attempts_made == attempt && last_error_code@ == err.spec_error_code() && error == err
        &&& exists|kind: TraceEventKind|
            is_retry_exhausted(kind, e0.run(), step, attempt, err.spec_error_code())
            && emits(
                e0.run(),
                e0.next_seq(),
                e0.current_store(),
                e1.next_seq(),
                e1.current_store(),
                kind,
            )
    })
    &&& (err.spec_retryable() && attempt < config.max_attempts ==> {
        &&& r == Ok::<u64, RetryError<E>>(config.backoff.delay(attempt, seed))
        &&& exists|kind: TraceEventKind|
            is_retry_attempted(
                kind,
                e0.run(),
                step,
                attempt,
                config.max_attempts,
                config.backoff.delay(attempt, seed),
                err.spec_error_code(),
            ) && emits(
                e0.run(),
                e0.next_seq(),
                e0.current_store(),
                e1.next_seq(),
                e1.current_store(),
                kind,
            )
    })
}

/// Decides what follows failed attempt `attempt` (1-based) of `step_id`, given
/// the jitter seed for the backoff:
/// a non-retryable error stops at once with nothing emitted; a retryable error
/// on the last allowed attempt emits `RetryExhausted` and stops; otherwise
/// `RetryAttempted` is emitted and `Ok` carries the backoff to sleep before
/// attempt `attempt + 1`.
pub fn after_failed_attempt_seeded<E: Retryable>(
    config: &RetryConfig,
    attempt: u32,
    err: E,
    step_id: &str,
    emitter: &mut TraceEventEmitter,
    jitter_seed: u64,
) -> (r: Result<u64, RetryError<E>>)
    requires
        1 <= attempt <= config.max_attempts,
        old(emitter).emit_ready(),
    ensures
        final(emitter).run() == old(emitter).run(),
        retry_outcome(*config, attempt, err, step_id@, *old(emitter), *final(emitter), r, jitter_seed),
{
    if !err.is_retryable() {
        return Err(RetryError::NonRetryable(err));
    }
    let run_id = owned(emitter.trace_id());
    if attempt == config.max_attempts {
        let error_code = err.error_code();
        let kind = TraceEventKind::RetryExhausted {
            run_id,
            step_id: owned(step_id),
            total_attempts: attempt,
            last_error_code: error_code.clone(),
        };
        let ghost k = kind;
        emitter.emit(kind);
        assert(is_retry_exhausted(k, old(emitter).run(), step_id@, attempt, err.spec_error_code()));
        return Err(RetryError::Exhausted { attempts_made: attempt, last_error_code: error_code, error: err });
    }
    let backoff_ms = config.backoff.compute_delay_ms(attempt, jitter_seed);
    let error_code = err.error_code();
    let kind = TraceEventKind::RetryAttempted {
        run_id,
        step_id: owned(step_id),
        attempt_number: attempt,
        max_attempts: config.max_attempts,
        backoff_ms,
        trigger_error_code: error_code,
    };
    let ghost k = kind;
    emitter.emit(kind);
    assert(is_retry_attempted(
        k,
        old(emitter).run(),
        step_id@,
        attempt,
        config.max_attempts,
        config.backoff.delay(attempt, jitter_seed),
        err.spec_error_code(),
    ));
    Ok(backoff_ms)
}

/// [`after_failed_attempt_seeded`] with the jitter seed read from the wall clock.
/// Whatever the clock reads, the outcome is the seeded one for some seed below
/// one billion.
pub fn after_failed_attempt<E: Retryable>(
    config: &RetryConfig,
    attempt: u32,
    err: E,
    step_id: &str,
    emitter: &mut TraceEventEmitter,
) -> (r: Result<u64, RetryError<E>>)
    requires
        1 <= attempt <= config.max_attempts,
        old(emitter).emit_ready(),
    ensures
        final(emitter).run() == old(emitter).run(),
        exists|seed: u64| seed < 1_000_000_000
            && retry_outcome(*config, attempt, err, step_id@, *old(emitter), *final(emitter), r, seed),
{
    let seed = jitter_seed_from_time();
    after_failed_attempt_seeded(config, attempt, err, step_id, emitter, seed)
}

} // verus!
