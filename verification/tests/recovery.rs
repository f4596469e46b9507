use arcflow_core::clock::UtcTimestamp;
use arcflow_core::error::RuntimeError;
use arcflow_core::rcs::types::{ExecutionMode, ExecutionStatus};
use arcflow_core::recovery::plan::{check_recovery_enabled, human_interrupt_code, plan_resume, plan_resume_parsed, replay_outputs};
use arcflow_core::recovery::state::{execution_mode_str, CompletedStepSnapshot, RecoveryState};
use arcflow_core::state::engine::ExecutionStepOutput;

const WF: u128 = 0x1111_2222_3333_4444_5555_6666_7777_8888;
const RUN: u128 = 0xa0a0_b1b1_c2c2_d3d3_e4e4_f5f5_0606_1717;

fn out(step: u128, agent: u128, content: &str) -> ExecutionStepOutput {
    ExecutionStepOutput { step_id: step, agent_id: agent, content: content.into(), status: ExecutionStatus::Completed }
}

fn failed_state(code: &str, failed_at: usize) -> RecoveryState {
    let completed = vec![out(1, 2, "first"), out(3, 4, "second")];
    RecoveryState::after_failure(
        "rec-1".into(),
        WF,
        RUN,
        "the input",
        &completed,
        failed_at,
        code,
        UtcTimestamp { secs: 1_700_000_000, nanos: 5 },
    )
}

fn run_text() -> String {
    uuid::Uuid::from_u128(RUN).to_string()
}

#[test]
fn state_after_failure_records_uuid_text_and_snapshots() {
    let st = failed_state("provider_timeout", 2);
    assert_eq!(st.recovery_id, "rec-1");
    assert_eq!(st.original_run_id, run_text());
    assert_eq!(st.workflow_definition_id, uuid::Uuid::from_u128(WF).to_string());
    assert_eq!(st.original_input, "the input");
    assert_eq!(st.completed_step_count(), 2);
    assert_eq!(
        st.completed_steps[0],
        CompletedStepSnapshot {
            step_id: "00000000-0000-0000-0000-000000000001".into(),
            agent_id: "00000000-0000-0000-0000-000000000002".into(),
            content: "first".into(),
        }
    );
    assert_eq!(st.failed_at_step_index, 2);
    assert_eq!(st.failure_error_code, "provider_timeout");
    assert!(st.is_resumable());
    assert_eq!(st.execution_mode, ExecutionMode::Linear);
    assert!(st.current_node_id.is_none());
    assert_eq!(st.graph_iteration_count, 0);
    assert!(st.pending_join.is_none());
}

#[test]
fn resume_round_trips_the_completed_steps() {
    let plan = plan_resume(WF, &run_text(), Some(failed_state("provider_timeout", 2))).unwrap();
    assert_eq!(plan.original_run_id, RUN);
    assert_eq!(plan.recovery_id, "rec-1");
    assert_eq!(plan.precompleted, vec![out(1, 2, "first"), out(3, 4, "second")]);
    assert_eq!(plan.start_step_index, 3);
    assert_eq!(plan.run_input, "the input");
}

#[test]
fn human_interrupt_resumes_at_the_same_step() {
    assert_eq!(human_interrupt_code(), "human_interrupt");
    let plan = plan_resume(WF, &run_text(), Some(failed_state("human_interrupt", 1))).unwrap();
    assert_eq!(plan.start_step_index, 1);
    let last = plan_resume(WF, &run_text(), Some(failed_state("x", usize::MAX))).unwrap();
    assert_eq!(last.start_step_index, usize::MAX);
}

#[test]
fn resume_rejections() {
    let storage = |reason: &str| RuntimeError::RecoveryStorageError { reason: reason.into() };
    assert_eq!(plan_resume(WF, "abc", None).unwrap_err(), storage("no recovery state for run_id 'abc'"));
    let mut consumed = failed_state("e", 0);
    consumed.is_consumed = true;
    assert_eq!(plan_resume(WF, &run_text(), Some(consumed)).unwrap_err(), storage("recovery state has already been consumed"));
    assert_eq!(
        plan_resume(WF + 1, &run_text(), Some(failed_state("e", 0))).unwrap_err(),
        RuntimeError::InvalidWorkflowDefinition { reason: "workflow definition id does not match recovery state".into() }
    );
    assert_eq!(plan_resume(WF, "not-a-uuid", Some(failed_state("e", 0))).unwrap_err(), storage("invalid original_run_id"));
}

#[test]
fn unparsable_snapshot_ids_are_skipped() {
    let mut st = failed_state("e", 0);
    st.completed_steps[0].step_id = "garbage".into();
    let plan = plan_resume(WF, &run_text(), Some(st)).unwrap();
    assert_eq!(plan.precompleted, vec![out(3, 4, "second")]);
}

#[test]
fn run_id_in_other_uuid_formats_parses() {
    let simple = uuid::Uuid::from_u128(RUN).simple().to_string();
    let plan = plan_resume(WF, &simple, Some(failed_state("e", 0))).unwrap();
    assert_eq!(plan.original_run_id, RUN);
}

#[test]
fn recovery_must_be_enabled() {
    assert_eq!(check_recovery_enabled(true), Ok(()));
    assert_eq!(
        check_recovery_enabled(false),
        Err(RuntimeError::InvalidWorkflowDefinition { reason: "recovery is not enabled for this run".into() })
    );
}

#[test]
fn execution_mode_labels() {
    assert_eq!(execution_mode_str(&ExecutionMode::Linear), "linear");
    assert_eq!(execution_mode_str(&ExecutionMode::Graph), "graph");
}

#[test]
fn replay_uses_the_given_parsed_ids() {
    let snaps = vec![
        CompletedStepSnapshot { step_id: "a".into(), agent_id: "b".into(), content: "one".into() },
        CompletedStepSnapshot { step_id: "c".into(), agent_id: "d".into(), content: "two".into() },
        CompletedStepSnapshot { step_id: "e".into(), agent_id: "f".into(), content: "three".into() },
    ];
    let ids = vec![(Some(1u128), Some(2u128)), (None, Some(4)), (Some(5), Some(6))];
    assert_eq!(replay_outputs(&snaps, &ids), vec![out(1, 2, "one"), out(5, 6, "three")]);
}

#[test]
fn parsed_plan_follows_the_given_ids() {
    let st = failed_state("human_interrupt", 4);
    let ids = vec![(Some(10u128), Some(20u128)), (Some(30), None)];
    let plan = plan_resume_parsed(WF, "whatever", Some(77), Some(st), &ids).unwrap();
    assert_eq!(plan.original_run_id, 77);
    assert_eq!(plan.precompleted, vec![out(10, 20, "first")]);
    assert_eq!(plan.start_step_index, 4);
    assert_eq!(
        plan_resume_parsed(WF, "whatever", None, Some(failed_state("e", 0)), &ids).unwrap_err(),
        RuntimeError::RecoveryStorageError { reason: "invalid original_run_id".into() }
    );
    assert_eq!(
        plan_resume_parsed(WF, "r", Some(1), None, &vec![]).unwrap_err(),
        RuntimeError::RecoveryStorageError { reason: "no recovery state for run_id 'r'".into() }
    );
}
