use arcflow_core::clock::{millis_between_exec, UtcTimestamp};
use arcflow_core::rcs::types::{EventData, TraceEventKind as RcsKind};
use arcflow_core::tracing::dual::{memory_read, memory_write, tokens_consumed, tool_started};
use arcflow_core::tracing::emitter::TraceEmitter;
use arcflow_core::tracing::events::TraceEventKind;
use arcflow_core::tracing::sprint5_emitter::TraceEventEmitter;
use arcflow_core::tracing::store::TraceStore;
use arcflow_core::providers::error::ProviderCallError;
use arcflow_core::streaming::engine::{BoundedCollector, StreamingEngine};
use arcflow_core::text::{append_str, blank, byte_len, chars_of, contains_str, owned, str_eq, u64_decimal, uuid_string};
use arcflow_core::tracing::types::TokenUsage;

#[test]
fn decimal_text() {
    assert_eq!(u64_decimal(0), "0");
    assert_eq!(u64_decimal(7), "7");
    assert_eq!(u64_decimal(1024), "1024");
    assert_eq!(u64_decimal(u64::MAX), "18446744073709551615");
}

#[test]
fn uuid_text_matches_the_uuid_crate() {
    for u in [0u128, 1, 0xdead_beef, u128::MAX, 0x0123_4567_89ab_cdef_0123_4567_89ab_cdef] {
        assert_eq!(uuid_string(u), uuid::Uuid::from_u128(u).to_string());
    }
}

#[test]
fn string_helpers() {
    let mut s = owned("ab");
    append_str(&mut s, "cd");
    assert_eq!(s, "abcd");
    assert!(str_eq("x", "x"));
    assert!(!str_eq("x", "y"));
    assert_eq!(byte_len(&"€".to_string()), 3);
    assert_eq!(chars_of("añb"), vec!['a', 'ñ', 'b']);
    assert!(blank(""));
    assert!(blank(" \u{2003}\r\n"));
    assert!(!blank(" x "));
    assert!(contains_str("hello world", "o w"));
    assert!(contains_str("abc", ""));
    assert!(!contains_str("ab", "abc"));
    assert!(!contains_str("hello", "hex"));
}

#[test]
fn millis_between_timestamps() {
    let a = UtcTimestamp { secs: 10, nanos: 500_000_000 };
    let b = UtcTimestamp { secs: 12, nanos: 250_000_000 };
    assert_eq!(millis_between_exec(a, b), 1750);
    assert_eq!(millis_between_exec(b, a), 0);
    assert_eq!(millis_between_exec(a, a), 0);
    let c = UtcTimestamp { secs: 12, nanos: 250_999_999 };
    assert_eq!(millis_between_exec(b, c), 0);
}

#[test]
fn memory_activity_reaches_both_traces() {
    let mut legacy = TraceEmitter::new(9);
    let mut em = TraceEventEmitter::new("run".to_string(), TraceStore::new());
    let started = std::time::Instant::now();
    memory_read(&mut legacy, &mut em, "run", Some(1), "agent", "kv", "clé", true, started);
    memory_write(&mut legacy, &mut em, "run", None, "agent", "kv", "k2", started);
    tool_started(&mut em, "run", 2, "search");
    tokens_consumed(&mut em, "run", 2, "agent");
    let store = em.into_store();
    let rcs = legacy.events();
    assert_eq!(rcs.len(), 2);
    assert_eq!(rcs[0].step_id, Some(1));
    assert_eq!(rcs[0].data, Some(EventData::MemoryRead { memory_type: "kv".into(), key_len: 4 }));
    assert_eq!(rcs[1].data, Some(EventData::MemoryWrite { memory_type: "kv".into(), value_len: 2 }));
    let events = store.get_events("run").unwrap();
    assert_eq!(events.len(), 4);
    match &events[0].kind {
        TraceEventKind::MemoryRead { step_id, key, hit, duration_ms, .. } => {
            assert_eq!(step_id, "00000000-0000-0000-0000-000000000001");
            assert_eq!(key, "clé");
            assert!(*hit);
            assert!(*duration_ms < 60_000);
        }
        other => panic!("unexpected {:?}", other),
    }
    assert!(matches!(&events[1].kind, TraceEventKind::MemoryWrite { step_id, key, .. } if step_id.is_empty() && key == "k2"));
    assert!(matches!(&events[2].kind, TraceEventKind::ToolCallStarted { tool_name, .. } if tool_name == "search"));
    assert!(matches!(
        &events[3].kind,
        TraceEventKind::TokensConsumed { tokens, .. } if *tokens == TokenUsage::default()
    ));
}

#[test]
fn legacy_emitter_records_workflow_events() {
    let mut legacy = TraceEmitter::new(77);
    legacy.workflow_started();
    legacy.tool_executed(None, "t", "ok", 5);
    legacy.workflow_completed();
    let kinds: Vec<RcsKind> = legacy.events().iter().map(|e| e.event_kind).collect();
    assert_eq!(kinds, vec![RcsKind::WorkflowStarted, RcsKind::ToolExecuted, RcsKind::WorkflowCompleted]);
    assert!(legacy.events().iter().all(|e| e.trace_id == 77));
    assert_eq!(legacy.events()[1].data, Some(EventData::Tool { tool_name: "t".into(), status: "ok".into(), duration_ms: 5 }));
}

#[test]
fn collector_appends_until_final_chunk() {
    let mut c = BoundedCollector::new();
    assert!(c.accept("Hello", false));
    assert!(!c.accept(", world", true));
    assert_eq!(c.finish(), "Hello, world");
}

#[test]
fn collector_stops_past_the_token_budget() {
    let mut c = BoundedCollector::new();
    let chunk = "x".repeat(4 * 32_768);
    assert!(c.accept(&chunk, false));
    assert!(!c.accept("abcd", false));
    let out = c.finish();
    assert_eq!(out.len(), 4 * 32_768);
}

#[test]
fn stream_timeout_error() {
    assert_eq!(StreamingEngine::timeout_error(), ProviderCallError::Timeout { provider_id: "stream".into(), timeout_secs: 120 });
}

#[test]
fn token_usage_adds_field_by_field() {
    let a = TokenUsage { prompt_tokens: 1, completion_tokens: 2, total_tokens: 3 };
    let b = TokenUsage { prompt_tokens: 10, completion_tokens: 20, total_tokens: 30 };
    assert_eq!(a.add(&b), TokenUsage { prompt_tokens: 11, completion_tokens: 22, total_tokens: 33 });
}
