//! User-facing stream events.

use vstd::prelude::*;

verus! {

/// One event on the per-run stream channel when streaming is enabled.
#[derive(Debug, Clone, PartialEq, Eq)]
pub enum StreamEvent {
    /// LLM token chunk (text on the stream channel only, never persisted to traces).
    Token { text: String, step_id: String },
    /// Step or graph node execution started.
    StepStart { step_id: String, node_id: Option<String> },
    /// Step finished successfully.
    StepComplete { step_id: String, duration_ms: u64 },
    /// Tool invocation started (argument keys only, not values).
    ToolCall { tool_name: String, args_keys: Vec<String> },
    /// Step or workflow failure surfaced to the consumer.
    Error { code: String, message: String, step_id: String },
}

} // verus!
