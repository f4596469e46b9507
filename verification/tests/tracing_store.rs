use arcflow_core::clock::UtcTimestamp;
use arcflow_core::tracing::events::TraceEventKind;
use arcflow_core::tracing::sprint5_emitter::TraceEventEmitter;
use arcflow_core::tracing::store::TraceStore;
use arcflow_core::tracing::types::TraceEvent;

const CAP: usize = 10_000;

fn started(run: &str, seq: u64) -> TraceEvent {
    TraceEvent {
        trace_id: run.to_string(),
        timestamp: UtcTimestamp { secs: 0, nanos: 0 },
        sequence: seq,
        kind: TraceEventKind::WorkflowStarted { run_id: run.to_string(), workflow_name: "wf".into(), step_count: 1 },
    }
}

fn warning(run: &str, seq: u64) -> TraceEvent {
    TraceEvent {
        trace_id: run.to_string(),
        timestamp: UtcTimestamp { secs: 0, nanos: 0 },
        sequence: seq,
        kind: TraceEventKind::TraceStorageWarning { run_id: run.to_string(), events_dropped: 1, capacity_limit: 10_000 },
    }
}

#[test]
fn new_store_knows_no_run() {
    let store = TraceStore::new();
    assert!(store.get_events("r").is_none());
    assert_eq!(store.events_dropped_for_run("r"), 0);
}

#[test]
fn append_keeps_order_and_separates_runs() {
    let mut store = TraceStore::new();
    assert!(store.append("a", started("a", 0)));
    assert!(store.append("b", started("b", 0)));
    assert!(store.append("a", started("a", 1)));
    let a = store.get_events("a").unwrap();
    assert_eq!(a.iter().map(|e| e.sequence).collect::<Vec<_>>(), vec![0, 1]);
    assert_eq!(store.get_events("b").unwrap().len(), 1);
}

#[test]
fn full_run_refuses_events_but_takes_one_warning() {
    let mut store = TraceStore::new();
    for i in 0..CAP {
        assert!(store.append("full", started("full", i as u64)));
    }
    assert!(!store.append("full", started("full", CAP as u64)));
    assert_eq!(store.events_dropped_for_run("full"), 1);
    assert!(store.append("full", warning("full", CAP as u64 + 1)));
    assert!(!store.append("full", warning("full", CAP as u64 + 2)));
    assert_eq!(store.events_dropped_for_run("full"), 2);
    assert_eq!(store.get_events("full").unwrap().len(), CAP + 1);
    assert!(store.append("other", started("other", 0)));
    assert_eq!(store.events_dropped_for_run("other"), 0);
}

#[test]
fn emitter_numbers_events_from_zero() {
    let mut emitter = TraceEventEmitter::new("run".to_string(), TraceStore::new());
    assert_eq!(emitter.trace_id(), "run");
    assert!(emitter.can_emit());
    for _ in 0..3 {
        emitter.emit(TraceEventKind::WorkflowValidationFailed { run_id: "run".into(), reason: "x".into() });
    }
    let store = emitter.into_store();
    let seqs: Vec<u64> = store.get_events("run").unwrap().iter().map(|e| e.sequence).collect();
    assert_eq!(seqs, vec![0, 1, 2]);
}

#[test]
fn emitter_sequences_strictly_increase_past_the_cap() {
    let mut emitter = TraceEventEmitter::new("big".to_string(), TraceStore::new());
    for _ in 0..(CAP + 5) {
        emitter.emit(TraceEventKind::WorkflowValidationFailed { run_id: "big".into(), reason: "x".into() });
    }
    let store = emitter.into_store();
    let events = store.get_events("big").unwrap();
    assert_eq!(events.len(), CAP + 1);
    for w in events.windows(2) {
        assert!(w[0].sequence < w[1].sequence);
    }
    match &events[CAP].kind {
        TraceEventKind::TraceStorageWarning { run_id, events_dropped, capacity_limit } => {
            assert_eq!(run_id, "big");
            assert_eq!(*events_dropped, 1);
            assert_eq!(*capacity_limit, 10_000);
        }
        other => panic!("unexpected {:?}", other),
    }
    assert_eq!(events[CAP].sequence, CAP as u64 + 1);
    assert_eq!(store.events_dropped_for_run("big"), 1 + 2 * 4);
}

#[test]
fn run_ids_list_each_run_once_in_creation_order() {
    let mut store = TraceStore::new();
    assert!(store.run_ids().is_empty());
    store.append("b", started("b", 0));
    store.append("a", started("a", 0));
    store.append("b", started("b", 1));
    assert_eq!(store.run_ids(), vec!["b".to_string(), "a".to_string()]);
}

#[test]
fn emitted_events_read_back_from_the_handed_back_store() {
    let mut emitter = TraceEventEmitter::new("r".to_string(), TraceStore::new());
    emitter.emit(TraceEventKind::WorkflowValidationFailed { run_id: "r".into(), reason: "a".into() });
    emitter.emit(TraceEventKind::WorkflowValidationFailed { run_id: "r".into(), reason: "b".into() });
    let store = emitter.into_store();
    let events = store.get_events("r").unwrap();
    assert_eq!(events.len(), 2);
    assert!(events.iter().all(|e| e.trace_id == "r"));
    assert_eq!(events.iter().map(|e| e.sequence).collect::<Vec<_>>(), vec![0, 1]);
    assert!(matches!(&events[0].kind, TraceEventKind::WorkflowValidationFailed { reason, .. } if reason == "a"));
    assert!(matches!(&events[1].kind, TraceEventKind::WorkflowValidationFailed { reason, .. } if reason == "b"));
    assert_eq!(store.events_dropped_for_run("r"), 0);
    assert_eq!(store.run_ids(), vec!["r".to_string()]);
}

#[test]
fn mark_complete_records_each_known_run_once_in_order() {
    let mut store = TraceStore::new();
    assert!(store.append("a", started("a", 0)));
    assert!(store.append("b", started("b", 0)));
    assert!(!store.is_complete("a"));
    store.mark_complete("b");
    store.mark_complete("a");
    store.mark_complete("b");
    assert!(store.is_complete("a"));
    assert!(store.is_complete("b"));
    assert_eq!(store.completed_runs(), vec!["b".to_string(), "a".to_string()]);
    assert_eq!(store.get_events("a").unwrap().len(), 1);
}

#[test]
fn mark_complete_ignores_an_unknown_run() {
    let mut store = TraceStore::new();
    assert!(store.append("a", started("a", 0)));
    store.mark_complete("ghost");
    assert!(!store.is_complete("ghost"));
    assert!(store.get_events("ghost").is_none());
    assert!(store.completed_runs().is_empty());
}

#[test]
fn appending_after_completion_keeps_the_mark() {
    let mut store = TraceStore::new();
    assert!(store.append("a", started("a", 0)));
    store.mark_complete("a");
    assert!(store.append("a", started("a", 1)));
    assert!(store.is_complete("a"));
    assert_eq!(store.completed_runs(), vec!["a".to_string()]);
}
