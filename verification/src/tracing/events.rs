//! Trace event kinds: metadata only, never prompt, completion or tool values.

use vstd::prelude::*;
use super::types::TokenUsage;

verus! {

/// All observable events in the execution lifecycle.
#[derive(Debug)]
pub enum TraceEventKind {
    WorkflowStarted { run_id: String, workflow_name: String, step_count: usize },
    WorkflowCompleted { run_id: String, duration_ms: u64, total_tokens: TokenUsage },
    WorkflowFailed {
        run_id: String,
        duration_ms: u64,
        failed_step_index: Option<usize>,
        error_code: String,
    },
    WorkflowValidationFailed { run_id: String, reason: String },
    StepStarted {
        run_id: String,
        step_id: String,
        step_index: usize,
        agent_name: String,
        agent_role: String,
    },
    StepCompleted {
        run_id: String,
        step_id: String,
        step_index: usize,
        duration_ms: u64,
        tokens: TokenUsage,
        output_size_bytes: usize,
    },
    StepFailed {
        run_id: String,
        step_id: String,
        step_index: usize,
        duration_ms: u64,
        error_code: String,
        error_message: String,
    },
    StateCommitted { run_id: String, step_id: String, committed_step_count: usize },
    AgentInvoked { run_id: String, step_id: String, agent_name: String, input_size_bytes: usize },
    AgentResponseReceived {
        run_id: String,
        step_id: String,
        agent_name: String,
        output_size_bytes: usize,
    },
    TokensConsumed { run_id: String, step_id: String, agent_name: String, tokens: TokenUsage },
    ProviderRequestSent {
        run_id: String,
        step_id: String,
        provider_id: String,
        model_id: String,
        max_tokens: u32,
        prompt_size_bytes: usize,
    },
    ProviderResponseReceived {
        run_id: String,
        step_id: String,
        provider_id: String,
        model_id: String,
        tokens: TokenUsage,
        latency_ms: u64,
    },
    ProviderRateLimited {
        run_id: String,
        step_id: String,
        provider_id: String,
        retry_after_seconds: Option<u64>,
    },
    ProviderError {
        run_id: String,
        step_id: String,
        provider_id: String,
        error_code: String,
        error_message: String,
    },
    ToolCallStarted { run_id: String, step_id: String, tool_name: String, input_schema_hash: String },
    ToolCallCompleted {
        run_id: String,
        step_id: String,
        tool_name: String,
        duration_ms: u64,
        output_size_bytes: usize,
    },
    ToolCallFailed {
        run_id: String,
        step_id: String,
        tool_name: String,
        duration_ms: u64,
        failure_reason: String,
        error_code: String,
    },
    ToolInputValidationFailed {
        run_id: String,
        step_id: String,
        tool_name: String,
        violation_description: String,
    },
    MemoryWrite {
        run_id: String,
        step_id: String,
        agent_name: String,
        memory_type: String,
        key: String,
        duration_ms: u64,
    },
    MemoryRead {
        run_id: String,
        step_id: String,
        agent_name: String,
        memory_type: String,
        key: String,
        hit: bool,
        duration_ms: u64,
    },
    MemoryDegraded { run_id: String, memory_type: String, backend: String, reason: String },
    MemoryEvicted { run_id: String, memory_type: String, key: String, eviction_reason: String },
    TraceStorageWarning { run_id: String, events_dropped: u32, capacity_limit: u32 },
    RetryAttempted {
        run_id: String,
        step_id: String,
        attempt_number: u32,
        max_attempts: u32,
        backoff_ms: u64,
        trigger_error_code: String,
    },
    RetryExhausted { run_id: String, step_id: String, total_attempts: u32, last_error_code: String },
    TimeoutEnforced {
        run_id: String,
        step_id: String,
        timeout_type: String,
        configured_ms: u64,
        elapsed_ms: u64,
    },
    StepFallbackActivated {
        run_id: String,
        step_id: String,
        primary_agent_name: String,
        fallback_agent_name: String,
    },
    WorkflowRecoveryStarted { run_id: String, original_run_id: String, resume_from_step: usize },
    WorkflowRecoveryCompleted { run_id: String, original_run_id: String, steps_re_executed: usize },
    /// Streaming chunk metadata only, no token text.
    StreamChunkReceived { run_id: String, step_id: String, chunk_bytes: usize },
    /// Token count delta during streaming, counts only.
    TokenEmitted {
        run_id: String,
        step_id: String,
        completion_token_delta: u32,
        prompt_token_delta: u32,
    },
}

impl Clone for TraceEventKind {
    fn clone(&self) -> (r: Self)
        ensures
            r == *self,
    {
        match self {
            TraceEventKind::WorkflowStarted { run_id, workflow_name, step_count } => TraceEventKind::WorkflowStarted {
                run_id: run_id.clone(), workflow_name: workflow_name.clone(), step_count: *step_count,
            },
            TraceEventKind::WorkflowCompleted { run_id, duration_ms, total_tokens } => TraceEventKind::WorkflowCompleted {
                run_id: run_id.clone(), duration_ms: *duration_ms, total_tokens: *total_tokens,
            },
            TraceEventKind::WorkflowFailed { run_id, duration_ms, failed_step_index, error_code } => TraceEventKind::WorkflowFailed {
                run_id: run_id.clone(), duration_ms: *duration_ms, failed_step_index: *failed_step_index, error_code: error_code.clone(),
            },
            TraceEventKind::WorkflowValidationFailed { run_id, reason } => TraceEventKind::WorkflowValidationFailed {
                run_id: run_id.clone(), reason: reason.clone(),
            },
            TraceEventKind::StepStarted { run_id, step_id, step_index, agent_name, agent_role } => TraceEventKind::StepStarted {
                run_id: run_id.clone(), step_id: step_id.clone(), step_index: *step_index, agent_name: agent_name.clone(), agent_role: agent_role.clone(),
            },
            TraceEventKind::StepCompleted { run_id, step_id, step_index, duration_ms, tokens, output_size_bytes } => TraceEventKind::StepCompleted {
                run_id: run_id.clone(), step_id: step_id.clone(), step_index: *step_index, duration_ms: *duration_ms, tokens: *tokens, output_size_bytes: *output_size_bytes,
            },
            TraceEventKind::StepFailed { run_id, step_id, step_index, duration_ms, error_code, error_message } => TraceEventKind::StepFailed {
                run_id: run_id.clone(), step_id: step_id.clone(), step_index: *step_index, duration_ms: *duration_ms, error_code: error_code.clone(), error_message: error_message.clone(),
            },
            TraceEventKind::StateCommitted { run_id, step_id, committed_step_count } => TraceEventKind::StateCommitted {
                run_id: run_id.clone(), step_id: step_id.clone(), committed_step_count: *committed_step_count,
            },
            TraceEventKind::AgentInvoked { run_id, step_id, agent_name, input_size_bytes } => TraceEventKind::AgentInvoked {
                run_id: run_id.clone(), step_id: step_id.clone(), agent_name: agent_name.clone(), input_size_bytes: *input_size_bytes,
            },
            TraceEventKind::AgentResponseReceived { run_id, step_id, agent_name, output_size_bytes } => TraceEventKind::AgentResponseReceived {
                run_id: run_id.clone(), step_id: step_id.clone(), agent_name: agent_name.clone(), output_size_bytes: *output_size_bytes,
            },
            TraceEventKind::TokensConsumed { run_id, step_id, agent_name, tokens } => TraceEventKind::TokensConsumed {
                run_id: run_id.clone(), step_id: step_id.clone(), agent_name: agent_name.clone(), tokens: *tokens,
            },
            TraceEventKind::ProviderRequestSent { run_id, step_id, provider_id, model_id, max_tokens, prompt_size_bytes } => TraceEventKind::ProviderRequestSent {
                run_id: run_id.clone(), step_id: step_id.clone(), provider_id: provider_id.clone(), model_id: model_id.clone(), max_tokens: *max_tokens, prompt_size_bytes: *prompt_size_bytes,
            },
            TraceEventKind::ProviderResponseReceived { run_id, step_id, provider_id, model_id, tokens, latency_ms } => TraceEventKind::ProviderResponseReceived {
                run_id: run_id.clone(), step_id: step_id.clone(), provider_id: provider_id.clone(), model_id: model_id.clone(), tokens: *tokens, latency_ms: *latency_ms,
            },
            TraceEventKind::ProviderRateLimited { run_id, step_id, provider_id, retry_after_seconds } => TraceEventKind::ProviderRateLimited {
                run_id: run_id.clone(), step_id: step_id.clone(), provider_id: provider_id.clone(), retry_after_seconds: *retry_after_seconds,
            },
            TraceEventKind::ProviderError { run_id, step_id, provider_id, error_code, error_message } => TraceEventKind::ProviderError {
                run_id: run_id.clone(), step_id: step_id.clone(), provider_id: provider_id.clone(), error_code: error_code.clone(), error_message: error_message.clone(),
            },
            TraceEventKind::ToolCallStarted { run_id, step_id, tool_name, input_schema_hash } => TraceEventKind::ToolCallStarted {
                run_id: run_id.clone(), step_id: step_id.clone(), tool_name: tool_name.clone(), input_schema_hash: input_schema_hash.clone(),
            },
            TraceEventKind::ToolCallCompleted { run_id, step_id, tool_name, duration_ms, output_size_bytes } => TraceEventKind::ToolCallCompleted {
                run_id: run_id.clone(), step_id: step_id.clone(), tool_name: tool_name.clone(), duration_ms: *duration_ms, output_size_bytes: *output_size_bytes,
            },
            TraceEventKind::ToolCallFailed { run_id, step_id, tool_name, duration_ms, failure_reason, error_code } => TraceEventKind::ToolCallFailed {
                run_id: run_id.clone(), step_id: step_id.clone(), tool_name: tool_name.clone(), duration_ms: *duration_ms, failure_reason: failure_reason.clone(), error_code: error_code.clone(),
            },
            TraceEventKind::ToolInputValidationFailed { run_id, step_id, tool_name, violation_description } => TraceEventKind::ToolInputValidationFailed {
                run_id: run_id.clone(), step_id: step_id.clone(), tool_name: tool_name.clone(), violation_description: violation_description.clone(),
            },
            TraceEventKind::MemoryWrite { run_id, step_id, agent_name, memory_type, key, duration_ms } => TraceEventKind::MemoryWrite {
                run_id: run_id.clone(), step_id: step_id.clone(), agent_name: agent_name.clone(), memory_type: memory_type.clone(), key: key.clone(), duration_ms: *duration_ms,
            },
            TraceEventKind::MemoryRead { run_id, step_id, agent_name, memory_type, key, hit, duration_ms } => TraceEventKind::MemoryRead {
                run_id: run_id.clone(), step_id: step_id.clone(), agent_name: agent_name.clone(), memory_type: memory_type.clone(), key: key.clone(), hit: *hit, duration_ms: *duration_ms,
            },
            TraceEventKind::MemoryDegraded { run_id, memory_type, backend, reason } => TraceEventKind::MemoryDegraded {
                run_id: run_id.clone(), memory_type: memory_type.clone(), backend: backend.clone(), reason: reason.clone(),
            },
            TraceEventKind::MemoryEvicted { run_id, memory_type, key, eviction_reason } => TraceEventKind::MemoryEvicted {
                run_id: run_id.clone(), memory_type: memory_type.clone(), key: key.clone(), eviction_reason: eviction_reason.clone(),
            },
            TraceEventKind::TraceStorageWarning { run_id, events_dropped, capacity_limit } => TraceEventKind::TraceStorageWarning {
                run_id: run_id.clone(), events_dropped: *events_dropped, capacity_limit: *capacity_limit,
            },
            TraceEventKind::RetryAttempted { run_id, step_id, attempt_number, max_attempts, backoff_ms, trigger_error_code } => TraceEventKind::RetryAttempted {
                run_id: run_id.clone(), step_id: step_id.clone(), attempt_number: *attempt_number, max_attempts: *max_attempts, backoff_ms: *backoff_ms, trigger_error_code: trigger_error_code.clone(),
            },
            TraceEventKind::RetryExhausted { run_id, step_id, total_attempts, last_error_code } => TraceEventKind::RetryExhausted {
                run_id: run_id.clone(), step_id: step_id.clone(), total_attempts: *total_attempts, last_error_code: last_error_code.clone(),
            },
            TraceEventKind::TimeoutEnforced { run_id, step_id, timeout_type, configured_ms, elapsed_ms } => TraceEventKind::TimeoutEnforced {
                run_id: run_id.clone(), step_id: step_id.clone(), timeout_type: timeout_type.clone(), configured_ms: *configured_ms, elapsed_ms: *elapsed_ms,
            },
            TraceEventKind::StepFallbackActivated { run_id, step_id, primary_agent_name, fallback_agent_name } => TraceEventKind::StepFallbackActivated {
                run_id: run_id.clone(), step_id: step_id.clone(), primary_agent_name: primary_agent_name.clone(), fallback_agent_name: fallback_agent_name.clone(),
            },
            TraceEventKind::WorkflowRecoveryStarted { run_id, original_run_id, resume_from_step } => TraceEventKind::WorkflowRecoveryStarted {
                run_id: run_id.clone(), original_run_id: original_run_id.clone(), resume_from_step: *resume_from_step,
            },
            TraceEventKind::WorkflowRecoveryCompleted { run_id, original_run_id, steps_re_executed } => TraceEventKind::WorkflowRecoveryCompleted {
                run_id: run_id.clone(), original_run_id: original_run_id.clone(), steps_re_executed: *steps_re_executed,
            },
            TraceEventKind::StreamChunkReceived { run_id, step_id, chunk_bytes } => TraceEventKind::StreamChunkReceived {
                run_id: run_id.clone(), step_id: step_id.clone(), chunk_bytes: *chunk_bytes,
            },
            TraceEventKind::TokenEmitted { run_id, step_id, completion_token_delta, prompt_token_delta } => TraceEventKind::TokenEmitted {
                run_id: run_id.clone(), step_id: step_id.clone(), completion_token_delta: *completion_token_delta, prompt_token_delta: *prompt_token_delta,
            },
        }
    }
}

} // verus!
