use arcflow_core::clock::UtcTimestamp;
use arcflow_core::tracing::builder::ExecutionTraceBuilder;
use arcflow_core::tracing::error::TracingError;
use arcflow_core::tracing::events::TraceEventKind;
use arcflow_core::tracing::otel_config::{export_requested, otlp_configured};
use arcflow_core::tracing::otel_sec1::{attributes_are_sec1_clean, lowered_attributes_are_sec1_clean};
use arcflow_core::tracing::registry::{execution_trace_for, is_buildable, trace_from_persisted};
use arcflow_core::tracing::store::TraceStore;
use arcflow_core::tracing::otel_export::{step_metadata_attrs, SpanAttrValue};
use arcflow_core::tracing::types::{ExecutionStatus, StepExecutionStatus, StepTrace, TokenUsage, TraceEvent};

fn at(secs: i64) -> UtcTimestamp {
    UtcTimestamp { secs, nanos: 0 }
}

fn ev(seq: u64, secs: i64, kind: TraceEventKind) -> TraceEvent {
    TraceEvent { trace_id: "run".into(), timestamp: at(secs), sequence: seq, kind }
}

fn tokens(p: u32, c: u32) -> TokenUsage {
    TokenUsage { prompt_tokens: p, completion_tokens: c, total_tokens: p + c }
}

fn step_started(seq: u64, secs: i64, id: &str, index: usize) -> TraceEvent {
    ev(seq, secs, TraceEventKind::StepStarted {
        run_id: "run".into(),
        step_id: id.into(),
        step_index: index,
        agent_name: "agent".into(),
        agent_role: "role".into(),
    })
}

fn sample_events() -> Vec<TraceEvent> {
    vec![
        ev(0, 10, TraceEventKind::WorkflowStarted { run_id: "run".into(), workflow_name: "demo".into(), step_count: 2 }),
        step_started(1, 11, "s1", 0),
        ev(2, 12, TraceEventKind::ToolCallCompleted {
            run_id: "run".into(), step_id: "s1".into(), tool_name: "search".into(), duration_ms: 5, output_size_bytes: 42,
        }),
        ev(3, 13, TraceEventKind::StepCompleted {
            run_id: "run".into(), step_id: "s1".into(), step_index: 0, duration_ms: 2000, tokens: tokens(10, 5), output_size_bytes: 3,
        }),
        step_started(4, 14, "s2", 1),
        ev(5, 15, TraceEventKind::StepFailed {
            run_id: "run".into(), step_id: "s2".into(), step_index: 1, duration_ms: 900, error_code: "boom".into(), error_message: "it broke".into(),
        }),
        ev(6, 16, TraceEventKind::WorkflowFailed { run_id: "run".into(), duration_ms: 6000, failed_step_index: Some(1), error_code: "boom".into() }),
    ]
}

#[test]
fn build_assembles_steps_in_start_order() {
    let events = sample_events();
    let trace = ExecutionTraceBuilder::build_at("run", &events, 0, at(99));
    assert_eq!(trace.run_id, "run");
    assert_eq!(trace.workflow_name, "demo");
    assert_eq!(trace.status, ExecutionStatus::Failed);
    assert_eq!(trace.started_at, at(10));
    assert_eq!(trace.completed_at, Some(at(16)));
    assert_eq!(trace.duration_ms, Some(6000));
    assert_eq!(trace.steps.len(), 2);
    assert_eq!(trace.steps[0].step_id, "s1");
    assert_eq!(trace.steps[0].status, StepExecutionStatus::Completed);
    assert_eq!(trace.steps[0].tool_calls.len(), 1);
    assert_eq!(trace.steps[0].tool_calls[0].tool_name, "search");
    assert_eq!(trace.steps[0].tool_calls[0].output_size_bytes, Some(42));
    assert_eq!(trace.steps[1].step_id, "s2");
    assert_eq!(trace.steps[1].status, StepExecutionStatus::Failed);
    assert_eq!(trace.steps[1].error.as_ref().unwrap().error_code, "boom");
    assert_eq!(trace.steps[1].error.as_ref().unwrap().message, "it broke");
    assert_eq!(trace.total_tokens, tokens(10, 5));
    assert_eq!(trace.events.len(), events.len());
    assert!(trace.is_complete);
    assert_eq!(trace.events_dropped, 0);
}

#[test]
fn build_without_events_is_a_partial_unknown_run() {
    let trace = ExecutionTraceBuilder::build_at("empty", &[], 3, at(5));
    assert_eq!(trace.workflow_name, "unknown");
    assert_eq!(trace.status, ExecutionStatus::Partial);
    assert_eq!(trace.started_at, at(5));
    assert!(trace.completed_at.is_none());
    assert!(trace.duration_ms.is_none());
    assert!(trace.steps.is_empty());
    assert!(!trace.is_complete);
    assert_eq!(trace.events_dropped, 3);
}

#[test]
fn reported_total_wins_over_step_sum() {
    let mut events = sample_events();
    events.pop();
    events.push(ev(6, 17, TraceEventKind::WorkflowCompleted { run_id: "run".into(), duration_ms: 7000, total_tokens: tokens(100, 1) }));
    let trace = ExecutionTraceBuilder::build_at("run", &events, 0, at(0));
    assert_eq!(trace.status, ExecutionStatus::Completed);
    assert_eq!(trace.total_tokens, tokens(100, 1));
    assert_eq!(trace.duration_ms, Some(7000));
}

#[test]
fn token_sum_overflow_is_detected() {
    let big = TokenUsage { prompt_tokens: u32::MAX, completion_tokens: 0, total_tokens: u32::MAX };
    let events = vec![
        step_started(0, 1, "a", 0),
        ev(1, 2, TraceEventKind::StepCompleted { run_id: "run".into(), step_id: "a".into(), step_index: 0, duration_ms: 1, tokens: big, output_size_bytes: 0 }),
        step_started(2, 3, "b", 1),
        ev(3, 4, TraceEventKind::StepCompleted { run_id: "run".into(), step_id: "b".into(), step_index: 1, duration_ms: 1, tokens: tokens(1, 0), output_size_bytes: 0 }),
    ];
    assert!(!is_buildable(&events));
    assert!(ExecutionTraceBuilder::try_build("run", &events, 0).is_none());
    assert!(is_buildable(&sample_events()));
    assert!(ExecutionTraceBuilder::try_build("run", &sample_events(), 0).is_some());
}

#[test]
fn build_stamps_current_time_without_start_event() {
    let events = vec![step_started(0, 1, "a", 0)];
    let trace = ExecutionTraceBuilder::build("run", &events, 0);
    assert!(trace.started_at.secs > 1_600_000_000);
    assert_eq!(trace.steps[0].started_at, at(1));
}

#[test]
fn store_lookup_builds_with_drop_count() {
    let mut store = TraceStore::new();
    for e in sample_events() {
        store.append("run", e);
    }
    assert!(execution_trace_for(&store, "missing").is_none());
    let trace = execution_trace_for(&store, "run").unwrap();
    assert_eq!(trace.steps.len(), 2);
    assert_eq!(trace.events_dropped, 0);
    assert!(trace.is_complete);
}

#[test]
fn persisted_events_build_a_complete_trace() {
    assert!(trace_from_persisted("run", &[]).is_none());
    let trace = trace_from_persisted("run", &sample_events()).unwrap();
    assert_eq!(trace.workflow_name, "demo");
    assert!(trace.is_complete);
    assert_eq!(trace.events_dropped, 0);
}

#[test]
fn tracing_error_messages() {
    assert_eq!(TracingError::TraceNotFound { run_id: "r-9".into() }.message(), "trace not found for run_id 'r-9'");
    assert_eq!(TracingError::OtlpExportFailed { reason: "timeout".into() }.message(), "otlp export failed: timeout");
}

#[test]
fn export_requested_needs_a_non_blank_endpoint() {
    assert!(!export_requested(None));
    assert!(!export_requested(Some("")));
    assert!(!export_requested(Some(" \t\n\u{3000}")));
    assert!(export_requested(Some(" http://collector:4317 ")));
    assert!(otlp_configured(true, Some("http://x")));
    assert!(!otlp_configured(true, None));
    assert!(!otlp_configured(false, Some("http://x")));
}

#[test]
fn sec1_audit_rejects_prompt_and_completion_bodies() {
    assert!(attributes_are_sec1_clean("KeyValue { key: \"duration_ms\", value: I64(42) }"));
    assert!(attributes_are_sec1_clean("tokens.prompt=100 tokens.completion=50"));
    assert!(!attributes_are_sec1_clean("prompt.text=hello"));
    assert!(!attributes_are_sec1_clean("x COMPLETION_TEXT y"));
    assert!(!attributes_are_sec1_clean("Prompt_Text"));
    assert!(!attributes_are_sec1_clean("completion.text"));
    assert!(lowered_attributes_are_sec1_clean("PROMPT.TEXT"));
    assert!(!lowered_attributes_are_sec1_clean("a prompt_text b"));
}

fn step(status: StepExecutionStatus, duration_ms: Option<u64>) -> StepTrace {
    StepTrace {
        step_index: 2,
        step_id: "s-2".into(),
        agent_name: "writer".into(),
        agent_role: "author".into(),
        status,
        started_at: UtcTimestamp { secs: 0, nanos: 0 },
        completed_at: None,
        duration_ms,
        tokens: TokenUsage { prompt_tokens: 7, completion_tokens: 3, total_tokens: 10 },
        tool_calls: vec![],
        memory_operations: vec![],
        error: None,
    }
}

#[test]
fn step_span_attributes_are_metadata_only() {
    let attrs = step_metadata_attrs(&step(StepExecutionStatus::Completed, Some(42)));
    assert_eq!(
        attrs,
        vec![
            ("step_index".to_string(), SpanAttrValue::Int(2)),
            ("step_id".to_string(), SpanAttrValue::Text("s-2".into())),
            ("agent_name".to_string(), SpanAttrValue::Text("writer".into())),
            ("agent_role".to_string(), SpanAttrValue::Text("author".into())),
            ("status".to_string(), SpanAttrValue::Text("Completed".into())),
            ("duration_ms".to_string(), SpanAttrValue::Int(42)),
        ]
    );
    let running = step_metadata_attrs(&step(StepExecutionStatus::InProgress, None));
    assert_eq!(running[4].1, SpanAttrValue::Text("InProgress".into()));
    assert_eq!(running[5].1, SpanAttrValue::Int(0));
}
