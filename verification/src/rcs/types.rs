use vstd::prelude::*;
use crate::clock::UtcTimestamp;

verus! {

/// Retry policy applied at workflow or step level.
#[derive(Debug, Clone, PartialEq, Eq)]
pub struct RetryPolicy {
    /// Maximum number of attempts including the first run.
    pub max_attempts: u32,
    /// Initial backoff delay in milliseconds.
    pub backoff_ms: u64,
    /// Upper bound on backoff delay in milliseconds.
    pub max_backoff_ms: u64,
}

/// Dispatch label on every RCS envelope.
#[derive(Debug, Clone, Copy, PartialEq, Eq, Structural)]
pub enum MessageType {
    /// Register a workflow definition with the runtime.
    RegisterWorkflow,
    /// Start execution of a registered workflow.
    RunWorkflow,
    /// Final workflow execution outcome.
    WorkflowResult,
    /// Observability trace event emitted during execution.
    TraceEvent,
    /// Protocol or execution error payload.
    Error,
}

/// LLM provider a run is configured for.
#[derive(Debug, Clone, Copy, PartialEq, Eq, Structural)]
pub enum ProviderId {
    /// OpenAI-compatible provider.
    OpenAI,
    /// Anthropic provider.
    Anthropic,
    /// Google Gemini provider.
    Gemini,
    /// Custom provider implementation.
    Custom,
}

/// LLM provider configuration for a run.
#[derive(Debug, Clone)]
pub struct ProviderConfig {
    /// Provider identifier.
    pub provider_id: ProviderId,
    /// Model name passed to the provider API.
    pub model: String,
    /// Environment variable name holding the API key.
    pub api_key_env: String,
    /// Optional provider-specific parameters.
    pub params: Option<serde_json::Value>,
}

/// Workflow execution strategy.
#[derive(Debug, Clone, Copy, PartialEq, Eq)]
pub enum ExecutionMode {
    Linear,
    Graph,
}

/// Lifecycle state for workflows and individual steps.
#[derive(Debug, Clone, Copy, PartialEq, Eq)]
pub enum ExecutionStatus {
    Pending,
    Running,
    Completed,
    Failed,
    Retrying,
    Cancelled,
    Interrupted,
}

/// Kind of an RCS observability event.
#[derive(Debug, Clone, Copy, PartialEq, Eq, Structural)]
pub enum TraceEventKind {
    WorkflowStarted,
    StepStarted,
    AgentInvoked,
    MemoryRead,
    MemoryWrite,
    ToolExecuted,
    StepCompleted,
    WorkflowCompleted,
    StepFailed,
    WorkflowFailed,
    RetryAttempted,
    GraphNodeStarted,
    GraphNodeCompleted,
    GraphIterationLimitReached,
}

/// Metadata payload of an RCS event (never values, only names, sizes and timings).
#[derive(Debug, Clone, PartialEq, Eq)]
pub enum EventData {
    /// `{"tool_name", "status", "duration_ms"}`
    Tool { tool_name: String, status: String, duration_ms: u64 },
    /// `{"memory_type", "key_len"}`
    MemoryRead { memory_type: String, key_len: usize },
    /// `{"memory_type", "value_len"}`
    MemoryWrite { memory_type: String, value_len: usize },
}

/// Single RCS observability event. Trace and step ids are the 128-bit values
/// of their UUIDs.
#[derive(Debug, Clone, PartialEq, Eq)]
pub struct TraceEvent {
    pub trace_id: u128,
    pub event_kind: TraceEventKind,
    pub timestamp: UtcTimestamp,
    pub step_id: Option<u128>,
    pub data: Option<EventData>,
}

} // verus!
