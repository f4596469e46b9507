//! Step and workflow timeout validation, and the outcome of an enforced step timeout.

use vstd::prelude::*;
use crate::constants::TIMEOUT_MAX_SECONDS;
use crate::error::RuntimeError;
use crate::retry::config::reports;
use crate::text::{append_str, decimal, owned, u64_decimal};
use crate::tracing::events::TraceEventKind;
use crate::tracing::sprint5_emitter::{emits, TraceEventEmitter};

verus! {

/// A span of time as whole seconds plus nanoseconds (below one billion), the
/// parts `std::time::Duration` is made of.
#[derive(Debug, Clone, Copy, PartialEq, Eq)]
pub struct TimeoutDuration {
    pub secs: u64,
    pub nanos: u32,
}

/// Optional workflow-wide and per-step timeouts.
#[derive(Debug, Clone, Copy, Default)]
pub struct TimeoutConfig {
    pub workflow_timeout: Option<TimeoutDuration>,
    pub step_timeout: Option<TimeoutDuration>,
}

impl Default for TimeoutDuration {
    fn default() -> (d: Self)
        ensures
            d.secs == 0 && d.nanos == 0,
    {
        TimeoutDuration { secs: 0, nanos: 0 }
    }
}

/// Error text for a timeout of the given label, or `None` when it is acceptable:
/// it must be positive and at most `TIMEOUT_MAX_SECONDS` whole seconds.
pub open spec fn duration_error(d: TimeoutDuration, label: Seq<char>) -> Option<Seq<char>> {
    if d.secs == 0 && d.nanos == 0 {
        Some(label + " timeout must be positive"@)
    } else if d.secs > TIMEOUT_MAX_SECONDS {
        Some(label + " timeout "@ + decimal(d.secs as nat) + "s exceeds maximum "@
            + decimal(TIMEOUT_MAX_SECONDS as nat) + "s"@)
    } else {
        None
    }
}

/// Error text for a timeout configuration: the workflow timeout is checked first.
pub open spec fn timeout_config_error(c: TimeoutConfig) -> Option<Seq<char>> {
    let workflow = match c.workflow_timeout {
        Some(d) => duration_error(d, "workflow"@),
        None => None,
    };
    if workflow is Some {
        workflow
    } else {
        match c.step_timeout {
            Some(d) => duration_error(d, "step"@),
            None => None,
        }
    }
}

/// Whether an optional timeout is acceptable: absent, or non-zero and at most
/// `TIMEOUT_MAX_SECONDS` whole seconds.
pub open spec fn acceptable(o: Option<TimeoutDuration>) -> bool {
    match o {
        Some(d) => !(d.secs == 0 && d.nanos == 0) && d.secs <= TIMEOUT_MAX_SECONDS,
        None => true,
    }
}

/// Which timeouts are accepted: each configured timeout must be non-zero and
/// at most `TIMEOUT_MAX_SECONDS` whole seconds; an absent one is always fine.
/// A bad workflow timeout is reported before a bad step timeout, and each
/// report begins with the label of the timeout it is about.
pub proof fn law_timeout_validity(c: TimeoutConfig)
    ensures
        timeout_config_error(c) is None <==> acceptable(c.workflow_timeout) && acceptable(c.step_timeout),
        !acceptable(c.workflow_timeout) ==> (timeout_config_error(c) matches Some(msg) && msg.take(8) == "workflow"@),
        acceptable(c.workflow_timeout) && !acceptable(c.step_timeout) ==> (timeout_config_error(c) matches Some(msg)
            && msg.take(4) == "step"@),
{
    reveal_strlit("workflow");
    reveal_strlit("step");
    assert("workflow"@.len() == 8 && "step"@.len() == 4);
    match c.workflow_timeout {
        Some(d) => {
            if let Some(msg) = duration_error(d, "workflow"@) {
                assert(msg.take(8) =~= "workflow"@);
            }
        },
        None => {},
    }
    match c.step_timeout {
        Some(d) => {
            if let Some(msg) = duration_error(d, "step"@) {
                assert(msg.take(4) =~= "step"@);
            }
        },
        None => {},
    }
}

impl TimeoutConfig {
    /// Accepts each configured timeout that is positive and within the maximum.
    pub fn validate(&self) -> (r: Result<(), RuntimeError>)
        ensures
            reports(r, timeout_config_error(*self)),
    {
        if let Some(wt) = self.workflow_timeout {
            let r = validate_duration(wt, "workflow");
            if r.is_err() {
                return r;
            }
        }
        if let Some(st) = self.step_timeout {
            let r = validate_duration(st, "step");
            if r.is_err() {
                return r;
            }
        }
        Ok(())
    }
}

fn validate_duration(d: TimeoutDuration, label: &str) -> (r: Result<(), RuntimeError>)
    ensures
        reports(r, duration_error(d, label@)),
{
    if d.secs == 0 && d.nanos == 0 {
        let mut reason = owned(label);
        append_str(&mut reason, " timeout must be positive");
        return Err(RuntimeError::InvalidWorkflowDefinition { reason });
    }
    if d.secs > TIMEOUT_MAX_SECONDS {
        let mut reason = owned(label);
        append_str(&mut reason, " timeout ");
        let secs = u64_decimal(d.secs);
        append_str(&mut reason, secs.as_str());
        append_str(&mut reason, "s exceeds maximum ");
        let max = u64_decimal(TIMEOUT_MAX_SECONDS);
        append_str(&mut reason, max.as_str());
        append_str(&mut reason, "s");
        return Err(RuntimeError::InvalidWorkflowDefinition { reason });
    }
    Ok(())
}

/// Whether `kind` reports an enforced step timeout for `run`/`step`.
pub open spec fn is_step_timeout_event(
    kind: TraceEventKind,
    run: Seq<char>,
    step: Seq<char>,
    configured: u64,
    elapsed: u64,
) -> bool {
    &&& kind matches TraceEventKind::TimeoutEnforced {
        run_id,
        step_id,
        timeout_type,
        configured_ms,
        elapsed_ms,
    }
    &&& run_id@ == run
    &&& step_id@ == step
    &&& timeout_type@ == "step"@
    &&& configured_ms == configured
    &&& elapsed_ms == elapsed
}

/// Records that `step_id` ran past its timeout of `configured_ms` after
/// `elapsed_ms`: emits `TimeoutEnforced` and returns the `StepTimeout` error.
pub fn step_timed_out(
    step_id: &str,
    configured_ms: u64,
    elapsed_ms: u64,
    emitter: &mut TraceEventEmitter,
) -> (e: RuntimeError)
    requires
        old(emitter).emit_ready(),
    ensures
        e matches RuntimeError::StepTimeout { step_id: s, configured_ms: c, elapsed_ms: el }
            && s@ == step_id@ && c == configured_ms && el == elapsed_ms,
        final(emitter).run() == old(emitter).run(),
        exists|kind: TraceEventKind|
            is_step_timeout_event(kind, old(emitter).run(), step_id@, configured_ms, elapsed_ms)
            && emits(
                old(emitter).run(),
                old(emitter).next_seq(),
                old(emitter).current_store(),
                final(emitter).next_seq(),
                final(emitter).current_store(),
                kind,
            ),
{
    let kind = TraceEventKind::TimeoutEnforced {
        run_id: owned(emitter.trace_id()),
        step_id: owned(step_id),
        timeout_type: owned("step"),
        configured_ms,
        elapsed_ms,
    };
    let ghost k = kind;
    emitter.emit(kind);
    assert(is_step_timeout_event(k, old(emitter).run(), step_id@, configured_ms, elapsed_ms));
    RuntimeError::StepTimeout { step_id: owned(step_id), configured_ms, elapsed_ms }
}

} // verus!
