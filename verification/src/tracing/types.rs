//! Core trace aggregate types.

use vstd::prelude::*;
use crate::clock::{utc_now, UtcTimestamp};
use super::events::TraceEventKind;

verus! {

/// Token counts for a step or run (never token strings).
#[derive(Debug, Clone, Copy, Default, PartialEq, Eq)]
pub struct TokenUsage {
    pub prompt_tokens: u32,
    pub completion_tokens: u32,
    pub total_tokens: u32,
}

/// Component-wise sum of two usages, as unbounded integers.
pub open spec fn usage_fits(a: TokenUsage, b: TokenUsage) -> bool {
    &&& a.prompt_tokens + b.prompt_tokens <= u32::MAX
    &&& a.completion_tokens + b.completion_tokens <= u32::MAX
    &&& a.total_tokens + b.total_tokens <= u32::MAX
}

impl TokenUsage {
    /// The usage with every count zero.
    pub open spec fn zero() -> TokenUsage {
        TokenUsage { prompt_tokens: 0, completion_tokens: 0, total_tokens: 0 }
    }

    /// Sums two usage records field by field.
    pub fn add(&self, other: &TokenUsage) -> (r: TokenUsage)
        requires
            usage_fits(*self, *other),
        ensures
            r.prompt_tokens == self.prompt_tokens + other.prompt_tokens,
            r.completion_tokens == self.completion_tokens + other.completion_tokens,
            r.total_tokens == self.total_tokens + other.total_tokens,
    {
        TokenUsage {
            prompt_tokens: self.prompt_tokens + other.prompt_tokens,
            completion_tokens: self.completion_tokens + other.completion_tokens,
            total_tokens: self.total_tokens + other.total_tokens,
        }
    }
}

/// Single structured trace event.
#[derive(Debug)]
pub struct TraceEvent {
    pub trace_id: String,
    pub timestamp: UtcTimestamp,
    pub sequence: u64,
    pub kind: TraceEventKind,
}

impl TraceEvent {
    /// An event stamped with the current time.
    pub(crate) fn new(trace_id: String, sequence: u64, kind: TraceEventKind) -> (e: Self)
        ensures
            e.trace_id == trace_id,
            e.sequence == sequence,
            e.kind == kind,
    {
        TraceEvent { trace_id, timestamp: utc_now(), sequence, kind }
    }
}

impl Clone for TraceEvent {
    fn clone(&self) -> (r: Self)
        ensures
            r == *self,
    {
        TraceEvent {
            trace_id: self.trace_id.clone(),
            timestamp: self.timestamp,
            sequence: self.sequence,
            kind: self.kind.clone(),
        }
    }
}

/// Workflow-level execution status in a completed trace.
#[derive(Debug, Clone, Copy, PartialEq, Eq)]
pub enum ExecutionStatus {
    Completed,
    Failed,
    Partial,
}

/// Step-level status in an assembled trace.
#[derive(Debug, Clone, Copy, PartialEq, Eq)]
pub enum StepExecutionStatus {
    InProgress,
    Completed,
    Failed,
}

/// Outcome of a recorded tool call.
#[derive(Debug, Clone, Copy, PartialEq, Eq)]
pub enum ToolCallStatus {
    Success,
}

/// Tool call recorded under a step.
#[derive(Debug, Clone)]
pub struct ToolCallTrace {
    pub tool_name: String,
    pub status: ToolCallStatus,
    pub duration_ms: u64,
    pub input_schema_hash: String,
    pub output_size_bytes: Option<usize>,
    pub error_code: Option<String>,
}

/// Kind of memory access.
#[derive(Debug, Clone, Copy, PartialEq, Eq)]
pub enum MemoryOperation {
    Read,
    Write,
}

/// Memory access recorded under a step (keys only, never values).
#[derive(Debug, Clone)]
pub struct MemoryOperationTrace {
    pub operation: MemoryOperation,
    pub memory_type: String,
    pub key: String,
    pub hit: Option<bool>,
    pub duration_ms: u64,
}

/// Failure recorded on a step.
#[derive(Debug, Clone)]
pub struct StepError {
    pub error_code: String,
    pub message: String,
}

/// Per-step summary assembled from the events of one step.
#[derive(Debug, Clone)]
pub struct StepTrace {
    pub step_index: usize,
    pub step_id: String,
    pub agent_name: String,
    pub agent_role: String,
    pub status: StepExecutionStatus,
    pub started_at: UtcTimestamp,
    pub completed_at: Option<UtcTimestamp>,
    pub duration_ms: Option<u64>,
    pub tokens: TokenUsage,
    pub tool_calls: Vec<ToolCallTrace>,
    pub memory_operations: Vec<MemoryOperationTrace>,
    pub error: Option<StepError>,
}

/// Complete trace for one workflow run.
#[derive(Debug, Clone)]
pub struct ExecutionTrace {
    pub run_id: String,
    pub workflow_name: String,
    pub status: ExecutionStatus,
    pub started_at: UtcTimestamp,
    pub completed_at: Option<UtcTimestamp>,
    pub duration_ms: Option<u64>,
    pub total_tokens: TokenUsage,
    pub steps: Vec<StepTrace>,
    pub events: Vec<TraceEvent>,
    pub is_complete: bool,
    pub events_dropped: u32,
}

/// Plain-value view of a recorded tool call.
pub struct ToolCallTraceView {
    pub tool_name: Seq<char>,
    pub status: ToolCallStatus,
    pub duration_ms: u64,
    pub input_schema_hash: Seq<char>,
    pub output_size_bytes: Option<usize>,
    pub error_code: Option<Seq<char>>,
}

impl View for ToolCallTrace {
    type V = ToolCallTraceView;

    open spec fn view(&self) -> ToolCallTraceView {
        ToolCallTraceView {
            tool_name: self.tool_name@,
            status: self.status,
            duration_ms: self.duration_ms,
            input_schema_hash: self.input_schema_hash@,
            output_size_bytes: self.output_size_bytes,
            error_code: match self.error_code {
                Some(c) => Some(c@),
                None => None,
            },
        }
    }
}

/// Plain-value view of a recorded memory access.
pub struct MemoryOperationTraceView {
    pub operation: MemoryOperation,
    pub memory_type: Seq<char>,
    pub key: Seq<char>,
    pub hit: Option<bool>,
    pub duration_ms: u64,
}

impl View for MemoryOperationTrace {
    type V = MemoryOperationTraceView;

    open spec fn view(&self) -> MemoryOperationTraceView {
        MemoryOperationTraceView {
            operation: self.operation,
            memory_type: self.memory_type@,
            key: self.key@,
            hit: self.hit,
            duration_ms: self.duration_ms,
        }
    }
}

/// Plain-value view of a step failure.
pub struct StepErrorView {
    pub error_code: Seq<char>,
    pub message: Seq<char>,
}

impl View for StepError {
    type V = StepErrorView;

    open spec fn view(&self) -> StepErrorView {
        StepErrorView { error_code: self.error_code@, message: self.message@ }
    }
}

/// Plain-value view of a step summary.
pub struct StepTraceView {
    pub step_index: usize,
    pub step_id: Seq<char>,
    pub agent_name: Seq<char>,
    pub agent_role: Seq<char>,
    pub status: StepExecutionStatus,
    pub started_at: UtcTimestamp,
    pub completed_at: Option<UtcTimestamp>,
    pub duration_ms: Option<u64>,
    pub tokens: TokenUsage,
    pub tool_calls: Seq<ToolCallTraceView>,
    pub memory_operations: Seq<MemoryOperationTraceView>,
    pub error: Option<StepErrorView>,
}

impl View for StepTrace {
    type V = StepTraceView;

    open spec fn view(&self) -> StepTraceView {
        StepTraceView {
            step_index: self.step_index,
            step_id: self.step_id@,
            agent_name: self.agent_name@,
            agent_role: self.agent_role@,
            status: self.status,
            started_at: self.started_at,
            completed_at: self.completed_at,
            duration_ms: self.duration_ms,
            tokens: self.tokens,
            tool_calls: self.tool_calls@.map_values(|t: ToolCallTrace| t@),
            memory_operations: self.memory_operations@.map_values(|m: MemoryOperationTrace| m@),
            error: match self.error {
                Some(e) => Some(e@),
                None => None,
            },
        }
    }
}

} // verus!
