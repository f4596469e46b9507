//! Coordinates tool validation and trace emission around one tool call. The
//! caller runs the tool with the timeout `begin_tool_call` returns and hands
//! the outcome to `finish_tool_call`.

use vstd::prelude::*;
use crate::text::{byte_len, owned, utf8_len};
use crate::rcs::types::EventData;
use crate::text::uuid_text;
use crate::tracing::dual::{step_text, tool_finished, tool_started};
use crate::tracing::emitter::TraceEmitter;
use crate::tracing::events::TraceEventKind;
use crate::tracing::sprint5_emitter::{emitted, TraceEventEmitter};
use super::error::ToolError;
use super::registry::{tool_for, RegisteredTool, ToolRegistry};
use super::validation::{draft7_outcome, validate_tool_input};

verus! {

/// Tool execution coordinator for one workflow run.
#[derive(Debug)]
pub struct ToolRuntime {
    registry: ToolRegistry,
}

/// What running a tool came to.
#[derive(Debug)]
pub enum ToolOutcome {
    /// The tool returned its output.
    Completed(String),
    /// The tool reported an error.
    Failed(ToolError),
    /// The timeout passed first.
    TimedOut,
}

/// Seconds to wait for a tool: its timeout, at least one second.
pub open spec fn wait_secs(timeout_secs: u64) -> u64 {
    if timeout_secs == 0 { 1 } else { timeout_secs }
}

/// The result a finished tool call reports: the output, the tool's error (an
/// execution failure re-labelled with this call's step), or a timeout.
pub open spec fn call_result(
    name: Seq<char>,
    timeout_secs: u64,
    outcome: ToolOutcome,
    step_id: Option<u128>,
    r: Result<String, ToolError>,
) -> bool {
    match outcome {
        ToolOutcome::Completed(v) => r == Ok::<String, ToolError>(v),
        ToolOutcome::Failed(ToolError::ExecutionFailed { name: n, reason, .. }) =>
            r == Err::<String, ToolError>(ToolError::ExecutionFailed { name: n, step_id: step_id, reason: reason }),
        ToolOutcome::Failed(e) => r == Err::<String, ToolError>(e),
        ToolOutcome::TimedOut => r matches Err(ToolError::Timeout { name: n, timeout_secs: t })
            && n@ == name && t == timeout_secs,
    }
}

impl ToolRuntime {
    pub closed spec fn tools(&self) -> ToolRegistry {
        self.registry
    }

    /// Empty runtime.
    pub fn new() -> (r: Self)
        ensures
            r.tools()@ == Seq::<RegisteredTool>::empty(),
            r.tools().well_formed(),
    {
        ToolRuntime { registry: ToolRegistry::new() }
    }

    /// Registers a tool definition (see [`ToolRegistry::register`]).
    pub fn register(&mut self, tool: RegisteredTool) -> (r: Result<(), ToolError>)
        requires
            old(self).tools().well_formed(),
        ensures
            final(self).tools().well_formed(),
            old(self).tools().has(tool.name@) ==> {
                &&& r matches Err(ToolError::DuplicateName { name }) && name@ == tool.name@
                &&& final(self).tools()@ == old(self).tools()@
            },
            !old(self).tools().has(tool.name@) ==> {
                &&& r is Ok
                &&& final(self).tools()@ == old(self).tools()@.push(tool)
            },
    {
        self.registry.register(tool)
    }

    /// The underlying registry.
    pub fn registry(&self) -> (r: &ToolRegistry)
        ensures
            *r == self.tools(),
    {
        &self.registry
    }

    /// Whether any tool is registered.
    pub fn has_tools(&self) -> (b: bool)
        ensures
            b == (self.tools()@.len() > 0),
    {
        !self.registry.is_empty()
    }

    /// Looks up and validates a call of tool `name`, then (when the call runs
    /// under a step) emits its start. Returns the tool's configured timeout.
    /// An unknown tool is `NotRegistered`; a rejected input `ValidationFailed`;
    /// neither emits anything.
    pub fn begin_tool_call(
        &self,
        name: &str,
        input: &serde_json::Value,
        sprint5: &mut TraceEventEmitter,
        run_id: &str,
        step_id: Option<u128>,
    ) -> (r: Result<u64, ToolError>)
        requires
            old(sprint5).emit_ready(),
        ensures
            !self.tools().has(name@) ==> (r matches Err(ToolError::NotRegistered { name: n }) && n@ == name@),
            r matches Ok(t) ==> self.tools().has(name@) && exists|i: int|
                0 <= i < self.tools()@.len() && self.tools()@[i].name@ == name@
                    && self.tools()@[i].timeout_secs == t,
            r matches Err(ToolError::ValidationFailed { name: n, .. }) ==> n@ == name@,
            self.tools().well_formed() && self.tools().has(name@) ==> ({
                let t = tool_for(self.tools()@, name@)->0;
                &&& r is Ok <==> draft7_outcome(t.input_schema, *input) == Some(true)
                &&& r matches Ok(secs) ==> secs == t.timeout_secs
                &&& r is Err ==> (r matches Err(ToolError::ValidationFailed { name: n, .. }) && n@ == name@)
            }),
            r is Err || step_id is None ==> *final(sprint5) == *old(sprint5),
            r is Ok && step_id is Some ==> exists|k: TraceEventKind| emitted(*old(sprint5), *final(sprint5), k) && (
                k matches TraceEventKind::ToolCallStarted { run_id: rid, step_id: s, tool_name: t, input_schema_hash: h }
                    && rid@ == run_id@ && s@ == uuid_text(step_id->0) && t@ == name@ && h@ == Seq::<char>::empty()),
    {
        let tool = match self.registry.get(name) {
            Some(t) => t,
            None => {
                return Err(ToolError::NotRegistered { name: owned(name) });
            },
        };
        let checked = validate_tool_input(name, &tool.input_schema, input);
        if let Err(e) = checked {
            return Err(e);
        }
        proof {
            let i = choose|i: int| 0 <= i < self.registry@.len() && self.registry@[i] == *tool;
            assert(self.tools()@[i].timeout_secs == tool.timeout_secs);
        }
        if let Some(sid) = step_id {
            tool_started(sprint5, run_id, sid, name);
        }
        Ok(tool.timeout_secs)
    }

    /// Seconds to wait for a tool with the given timeout (at least one).
    pub fn wait_secs(timeout_secs: u64) -> (s: u64)
        ensures
            s == wait_secs(timeout_secs),
    {
        if timeout_secs == 0 { 1 } else { timeout_secs }
    }

    /// Records the outcome of a call of tool `name` on both traces (see
    /// [`tool_finished`]: a failure is reported with code "tool_failed") and
    /// returns its result, an execution failure carrying this call's step.
    pub fn finish_tool_call(
        name: &str,
        timeout_secs: u64,
        outcome: ToolOutcome,
        duration_ms: u64,
        legacy: &mut TraceEmitter,
        sprint5: &mut TraceEventEmitter,
        run_id: &str,
        step_id: Option<u128>,
    ) -> (r: Result<String, ToolError>)
        requires
            old(sprint5).emit_ready(),
        ensures
            call_result(name@, timeout_secs, outcome, step_id, r),
            final(legacy).trace() == old(legacy).trace(),
            final(legacy)@.len() == old(legacy)@.len() + 1,
            final(legacy)@.drop_last() =~= old(legacy)@,
            final(legacy)@.last().trace_id == old(legacy).trace(),
            final(legacy)@.last().event_kind == crate::rcs::types::TraceEventKind::ToolExecuted,
            final(legacy)@.last().step_id == step_id,
            final(legacy)@.last().data matches Some(EventData::Tool { tool_name: t, status, duration_ms: d })
                && t@ == name@ && d == duration_ms
                && status@ == (if outcome is Completed { "ok"@ } else { "failed"@ }),
            final(sprint5).run() == old(sprint5).run(),
            outcome matches ToolOutcome::Completed(v) ==> exists|k: TraceEventKind|
                emitted(*old(sprint5), *final(sprint5), k) && (
                k matches TraceEventKind::ToolCallCompleted { run_id: rid, step_id: s, tool_name: t, duration_ms: d, output_size_bytes: o }
                    && rid@ == run_id@ && s@ == step_text(step_id) && t@ == name@ && d == duration_ms
                    && o == utf8_len(v@)),
            !(outcome is Completed) ==> exists|k: TraceEventKind| emitted(*old(sprint5), *final(sprint5), k) && (
                k matches TraceEventKind::ToolCallFailed { run_id: rid, step_id: s, tool_name: t, duration_ms: d, failure_reason, error_code: c }
                    && rid@ == run_id@ && s@ == step_text(step_id) && t@ == name@ && d == duration_ms
                    && failure_reason@ == "tool_failed"@ && c@ == "tool_failed"@),
    {
        let result = match outcome {
            ToolOutcome::Completed(v) => Ok(v),
            ToolOutcome::Failed(e) => Err(e),
            ToolOutcome::TimedOut => Err(ToolError::Timeout { name: owned(name), timeout_secs }),
        };
        let ok = result.is_ok();
        let out_len = match &result {
            Ok(s) => byte_len(s),
            Err(_) => 0,
        };
        let code = if ok { None } else { Some("tool_failed") };
        tool_finished(legacy, sprint5, run_id, step_id, name, ok, duration_ms, out_len, code);
        match result {
            Err(ToolError::ExecutionFailed { name: n, step_id: _, reason }) =>
                Err(ToolError::ExecutionFailed { name: n, step_id, reason }),
            other => other,
        }
    }
}

impl Default for ToolRuntime {
    fn default() -> (r: Self)
        ensures
            r.tools()@ == Seq::<RegisteredTool>::empty(),
            r.tools().well_formed(),
    {
        ToolRuntime::new()
    }
}

} // verus!
