use arcflow_core::error::StateError;
use arcflow_core::rcs::types::ExecutionStatus;
use arcflow_core::state::engine::{ExecutionStepOutput, StateEngine};

fn sample_output(step_id: u128) -> ExecutionStepOutput {
    ExecutionStepOutput {
        step_id,
        agent_id: uuid::Uuid::new_v4().as_u128(),
        content: "x".into(),
        status: ExecutionStatus::Completed,
    }
}

#[test]
fn new_state_engine_has_no_committed_steps() {
    let engine = StateEngine::new();
    assert!(engine.snapshot().steps.is_empty());
}

#[test]
fn commit_adds_step_to_state() {
    let mut engine = StateEngine::new();
    let sid = uuid::Uuid::new_v4().as_u128();
    engine.commit(sample_output(sid)).unwrap();
    assert_eq!(engine.snapshot().steps.len(), 1);
}

#[test]
fn snapshot_reflects_all_committed_steps() {
    let mut engine = StateEngine::new();
    let a = uuid::Uuid::new_v4().as_u128();
    let b = uuid::Uuid::new_v4().as_u128();
    engine.commit(sample_output(a)).unwrap();
    engine.commit(sample_output(b)).unwrap();
    let snap = engine.snapshot();
    assert_eq!(snap.steps.len(), 2);
}

#[test]
fn commit_returns_error_on_duplicate_step_id() {
    let mut engine = StateEngine::new();
    let sid = uuid::Uuid::new_v4().as_u128();
    engine.commit(sample_output(sid)).unwrap();
    let err = engine.commit(sample_output(sid)).unwrap_err();
    assert_eq!(err, StateError::DuplicateCommit { step_id: sid });
}

#[test]
fn step_output_returns_none_for_unknown_step() {
    let engine = StateEngine::new();
    assert!(engine.step_output(uuid::Uuid::new_v4().as_u128()).is_none());
}

#[test]
fn step_output_returns_correct_output_for_known_step() {
    let mut engine = StateEngine::new();
    let sid = uuid::Uuid::new_v4().as_u128();
    let out = sample_output(sid);
    engine.commit(out.clone()).unwrap();
    assert_eq!(engine.step_output(sid), Some(&out));
}

#[test]
fn committed_state_is_not_mutable_after_commit() {
    let mut engine = StateEngine::new();
    let sid = uuid::Uuid::new_v4().as_u128();
    engine.commit(sample_output(sid)).unwrap();
    assert_eq!(engine.snapshot().steps.len(), 1);

    let mut snap = engine.snapshot();
    snap.steps.clear();
    assert!(snap.steps.is_empty());
    assert_eq!(engine.snapshot().steps.len(), 1);
}

#[test]
fn commit_then_read_returns_the_commit_and_keeps_others() {
    let mut engine = StateEngine::new();
    let first = ExecutionStepOutput { step_id: 1, agent_id: 10, content: "one".into(), status: ExecutionStatus::Completed };
    let second = ExecutionStepOutput { step_id: 2, agent_id: 20, content: "two".into(), status: ExecutionStatus::Failed };
    engine.commit(first.clone()).unwrap();
    engine.commit(second.clone()).unwrap();
    assert_eq!(engine.step_output(2), Some(&second));
    assert_eq!(engine.step_output(1), Some(&first));
    assert!(engine.step_output(3).is_none());
}

#[test]
fn rejected_duplicate_leaves_state_unchanged() {
    let mut engine = StateEngine::new();
    let first = ExecutionStepOutput { step_id: 7, agent_id: 1, content: "kept".into(), status: ExecutionStatus::Completed };
    engine.commit(first.clone()).unwrap();
    let again = ExecutionStepOutput { step_id: 7, agent_id: 2, content: "other".into(), status: ExecutionStatus::Completed };
    assert_eq!(engine.commit(again), Err(StateError::DuplicateCommit { step_id: 7 }));
    let snap = engine.snapshot();
    assert_eq!(snap.steps, vec![first.clone()]);
    assert_eq!(engine.step_output(7), Some(&first));
}

#[test]
fn snapshot_keeps_commit_order() {
    let mut engine = StateEngine::new();
    for id in [5u128, 3, 9] {
        engine.commit(ExecutionStepOutput { step_id: id, agent_id: 0, content: String::new(), status: ExecutionStatus::Completed }).unwrap();
    }
    let ids: Vec<u128> = engine.snapshot().steps.iter().map(|s| s.step_id).collect();
    assert_eq!(ids, vec![5, 3, 9]);
}
