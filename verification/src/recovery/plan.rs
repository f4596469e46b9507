//! Planning the resumption of a failed run from its recovery state.

use vstd::prelude::*;
use crate::error::RuntimeError;
use crate::rcs::types::ExecutionStatus;
use crate::state::engine::ExecutionStepOutput;
use crate::text::{append_str, owned, str_eq, uuid_string, uuid_text};
use super::state::{snapshot_of, CompletedStepSnapshot, RecoveryState};

verus! {

/// The 128-bit value `uuid::Uuid::parse_str` yields for `s`, if it parses.
pub uninterp spec fn uuid_parse(s: Seq<char>) -> Option<u128>;

/// Parses a UUID (`uuid::Uuid::parse_str`, then `as_u128`). The result is
/// named by `uuid_parse`; the crate documents that every format it prints
/// parses back, so the hyphenated text of a UUID yields that UUID. Which other
/// texts parse is left to the name.
#[verifier::external_body]
fn parse_uuid(s: &str) -> (r: Option<u128>)
    ensures
        r == uuid_parse(s@),
        forall|u: u128| s@ == uuid_text(u) ==> r == Some(u),
{
    uuid::Uuid::parse_str(s).ok().map(|u| u.as_u128())
}

/// Error code of a run paused for human approval: resuming re-runs that step.
pub open spec fn human_interrupt() -> Seq<char> {
    "human_interrupt"@
}

/// Error code of a run paused for human approval.
pub fn human_interrupt_code() -> (c: &'static str)
    ensures
        c@ == human_interrupt(),
{
    "human_interrupt"
}

/// What resuming a run starts from.
#[derive(Debug)]
pub struct ResumePlan {
    pub original_run_id: u128,
    pub recovery_id: String,
    /// Completed steps to replay, as committed outputs.
    pub precompleted: Vec<ExecutionStepOutput>,
    /// Index of the first step to execute.
    pub start_step_index: usize,
    pub run_input: String,
}

/// Step and agent ids of each snapshot as `uuid::Uuid::parse_str` reads them.
pub open spec fn parsed_ids_of(snaps: Seq<CompletedStepSnapshot>) -> Seq<(Option<u128>, Option<u128>)> {
    snaps.map_values(|s: CompletedStepSnapshot| (uuid_parse(s.step_id@), uuid_parse(s.agent_id@)))
}

/// Completed outputs recovered from snapshots, given their parsed ids: those
/// whose ids both parsed, in order; the others are skipped.
pub open spec fn recovered_with(
    snaps: Seq<CompletedStepSnapshot>,
    ids: Seq<(Option<u128>, Option<u128>)>,
) -> Seq<(u128, u128, Seq<char>)>
    decreases snaps.len(),
{
    if snaps.len() == 0 || ids.len() == 0 {
        Seq::empty()
    } else {
        let rest = recovered_with(snaps.drop_last(), ids.drop_last());
        match ids.last() {
            (Some(step), Some(agent)) => rest.push((step, agent, snaps.last().content@)),
            _ => rest,
        }
    }
}

/// Completed outputs recovered from snapshots whose ids both parse; the others are skipped.
pub open spec fn recovered_steps(snaps: Seq<CompletedStepSnapshot>) -> Seq<(u128, u128, Seq<char>)> {
    recovered_with(snaps, parsed_ids_of(snaps))
}

/// Step id, agent id and content of each output, all marked completed.
pub open spec fn replayed(outs: Seq<ExecutionStepOutput>) -> Seq<(u128, u128, Seq<char>)> {
    outs.map_values(|o: ExecutionStepOutput| (o.step_id, o.agent_id, o.content@))
}

/// Whether `snaps` persist `outs`, one snapshot per output, in order.
pub open spec fn persisted_from(snaps: Seq<CompletedStepSnapshot>, outs: Seq<ExecutionStepOutput>) -> bool {
    &&& snaps.len() == outs.len()
    &&& forall|i: int| 0 <= i < outs.len() ==> snapshot_of(#[trigger] snaps[i], outs[i])
}

/// Every output is marked completed.
pub open spec fn all_completed(outs: Seq<ExecutionStepOutput>) -> bool {
    forall|i: int| 0 <= i < outs.len() ==> (#[trigger] outs[i]).status == ExecutionStatus::Completed
}

/// First step to run on resume: the failed step itself after a human
/// interrupt, otherwise the one after it (saturating).
pub open spec fn resume_index(failure_code: Seq<char>, failed_at: usize) -> usize {
    if failure_code == human_interrupt() {
        failed_at
    } else if failed_at == usize::MAX {
        usize::MAX
    } else {
        (failed_at + 1) as usize
    }
}

/// Whether `r` is `RecoveryStorageError` with `reason`.
pub open spec fn is_storage_error(r: RuntimeError, reason: Seq<char>) -> bool {
    r matches RuntimeError::RecoveryStorageError { reason: m } && m@ == reason
}

/// Whether `r` is `InvalidWorkflowDefinition` with `reason`.
pub open spec fn is_invalid_definition(r: RuntimeError, reason: Seq<char>) -> bool {
    r matches RuntimeError::InvalidWorkflowDefinition { reason: m } && m@ == reason
}

/// Resuming needs recovery to be enabled for the run.
pub fn check_recovery_enabled(recovery_enabled: bool) -> (r: Result<(), RuntimeError>)
    ensures
        recovery_enabled ==> r is Ok,
        !recovery_enabled ==> (r matches Err(e) && is_invalid_definition(e, "recovery is not enabled for this run"@)),
{
    if !recovery_enabled {
        return Err(RuntimeError::InvalidWorkflowDefinition { reason: owned("recovery is not enabled for this run") });
    }
    Ok(())
}

proof fn lemma_recovered_with_prefix(snaps: Seq<CompletedStepSnapshot>, ids: Seq<(Option<u128>, Option<u128>)>, i: int)
    requires
        snaps.len() == ids.len(),
        0 <= i < snaps.len(),
    ensures
        recovered_with(snaps.take(i + 1), ids.take(i + 1)) == (match ids[i] {
            (Some(step), Some(agent)) => recovered_with(snaps.take(i), ids.take(i)).push((step, agent, snaps[i].content@)),
            _ => recovered_with(snaps.take(i), ids.take(i)),
        }),
{
    assert(snaps.take(i + 1).drop_last() =~= snaps.take(i));
    assert(ids.take(i + 1).drop_last() =~= ids.take(i));
}

/// Saving and resuming gives the saved outputs back: when the snapshots
/// persist committed outputs and each snapshot's ids parse back to the ids
/// they were saved from, the outputs recovered for replay are exactly the
/// persisted ones, in order.
pub proof fn law_saved_outputs_replay(snaps: Seq<CompletedStepSnapshot>, ids: Seq<(Option<u128>, Option<u128>)>, outs: Seq<ExecutionStepOutput>)
    requires
        persisted_from(snaps, outs),
        ids.len() == snaps.len(),
        forall|j: int| 0 <= j < ids.len() ==> #[trigger] ids[j] == (Some(outs[j].step_id), Some(outs[j].agent_id)),
    ensures
        recovered_with(snaps, ids) == replayed(outs),
    decreases snaps.len(),
{
    if snaps.len() > 0 {
        let n = snaps.len() - 1;
        assert(snapshot_of(snaps[n], outs[n]));
        assert forall|j: int| 0 <= j < n implies #[trigger] snapshot_of(snaps.drop_last()[j], outs.drop_last()[j]) by {
            assert(snapshot_of(snaps[j], outs[j]));
        };
        assert forall|j: int| 0 <= j < n implies #[trigger] ids.drop_last()[j] == (Some(outs.drop_last()[j].step_id), Some(outs.drop_last()[j].agent_id)) by {
            assert(ids[j] == (Some(outs[j].step_id), Some(outs[j].agent_id)));
        };
        law_saved_outputs_replay(snaps.drop_last(), ids.drop_last(), outs.drop_last());
        assert(ids.last() == (Some(outs[n].step_id), Some(outs[n].agent_id)));
        assert(replayed(outs) =~= replayed(outs.drop_last()).push((outs[n].step_id, outs[n].agent_id, outs[n].content@)));
    } else {
        assert(replayed(outs) =~= Seq::<(u128, u128, Seq<char>)>::empty());
    }
}

/// Completed outputs to replay from `snaps`, given the parsed ids of each
/// snapshot: one output per snapshot whose ids both parsed, in order, marked
/// completed.
pub fn replay_outputs(snaps: &Vec<CompletedStepSnapshot>, ids: &Vec<(Option<u128>, Option<u128>)>) -> (r: Vec<
    ExecutionStepOutput,
>)
    requires
        ids@.len() == snaps@.len(),
    ensures
        replayed(r@) == recovered_with(snaps@, ids@),
        all_completed(r@),
{
    let mut out: Vec<ExecutionStepOutput> = Vec::new();
    let mut i: usize = 0;
    assert(snaps@.take(0) =~= Seq::<CompletedStepSnapshot>::empty());
    assert(replayed(out@) =~= Seq::<(u128, u128, Seq<char>)>::empty());
    while i < snaps.len()
        invariant
            i <= snaps@.len(),
            ids@.len() == snaps@.len(),
            replayed(out@) == recovered_with(snaps@.take(i as int), ids@.take(i as int)),
            all_completed(out@),
        decreases snaps.len() - i,
    {
        proof { lemma_recovered_with_prefix(snaps@, ids@, i as int); }
        match ids[i] {
            (Some(step_id), Some(agent_id)) => {
                let ghost before = out@;
                out.push(ExecutionStepOutput {
                    step_id,
                    agent_id,
                    content: snaps[i].content.clone(),
                    status: ExecutionStatus::Completed,
                });
                assert(replayed(out@) =~= replayed(before).push((step_id, agent_id, snaps@[i as int].content@)));
            },
            _ => {},
        }
        i = i + 1;
    }
    assert(snaps@.take(snaps@.len() as int) =~= snaps@);
    assert(ids@.take(ids@.len() as int) =~= ids@);
    out
}

/// Parses the step and agent ids of every snapshot.
fn parse_snapshot_ids(snaps: &Vec<CompletedStepSnapshot>) -> (r: Vec<(Option<u128>, Option<u128>)>)
    ensures
        r@ == parsed_ids_of(snaps@),
        forall|outs: Seq<ExecutionStepOutput>| #[trigger] persisted_from(snaps@, outs) ==> forall|j: int|
            0 <= j < r@.len() ==> #[trigger] r@[j] == (Some(outs[j].step_id), Some(outs[j].agent_id)),
{
    let mut out: Vec<(Option<u128>, Option<u128>)> = Vec::new();
    let mut i: usize = 0;
    while i < snaps.len()
        invariant
            i <= snaps@.len(),
            out@ == parsed_ids_of(snaps@).take(i as int),
            forall|outs: Seq<ExecutionStepOutput>| #[trigger] persisted_from(snaps@, outs) ==> forall|j: int|
                0 <= j < i ==> #[trigger] out@[j] == (Some(outs[j].step_id), Some(outs[j].agent_id)),
        decreases snaps.len() - i,
    {
        let s = &snaps[i];
        let step = parse_uuid(s.step_id.as_str());
        let agent = parse_uuid(s.agent_id.as_str());
        out.push((step, agent));
        assert(out@ =~= parsed_ids_of(snaps@).take(i + 1));
        assert forall|outs: Seq<ExecutionStepOutput>| #[trigger] persisted_from(snaps@, outs) implies forall|j: int|
            0 <= j < i + 1 ==> #[trigger] out@[j] == (Some(outs[j].step_id), Some(outs[j].agent_id)) by {
            assert(snapshot_of(snaps@[i as int], outs[i as int]));
        };
        i = i + 1;
    }
    assert(parsed_ids_of(snaps@).take(snaps@.len() as int) =~= parsed_ids_of(snaps@));
    out
}

/// The plan for resuming run `original_run_id` (parsed as `parsed_run_id`) of
/// workflow `workflow_id` from the loaded recovery state, given the parsed
/// ids of its completed steps: the state must exist, be unconsumed and belong
/// to the workflow, and the run id must have parsed. Completed steps whose ids
/// did not parse are skipped.
pub fn plan_resume_parsed(
    workflow_id: u128,
    original_run_id: &str,
    parsed_run_id: Option<u128>,
    loaded: Option<RecoveryState>,
    step_ids: &Vec<(Option<u128>, Option<u128>)>,
) -> (r: Result<ResumePlan, RuntimeError>)
    requires
        loaded matches Some(st) ==> step_ids@.len() == st.completed_steps@.len(),
    ensures
        loaded is None ==> (r matches Err(e) && is_storage_error(e,
            "no recovery state for run_id '"@ + original_run_id@ + "'"@)),
        loaded matches Some(st) ==> {
            if st.is_consumed {
                r matches Err(e) && is_storage_error(e, "recovery state has already been consumed"@)
            } else if st.workflow_definition_id@ != uuid_text(workflow_id) {
                r matches Err(e) && is_invalid_definition(e, "workflow definition id does not match recovery state"@)
            } else if parsed_run_id is None {
                r matches Err(e) && is_storage_error(e, "invalid original_run_id"@)
            } else {
                r matches Ok(plan) && {
                    &&& Some(plan.original_run_id) == parsed_run_id
                    &&& plan.recovery_id == st.recovery_id
                    &&& replayed(plan.precompleted@) == recovered_with(st.completed_steps@, step_ids@)
                    &&& all_completed(plan.precompleted@)
                    &&& plan.start_step_index == resume_index(st.failure_error_code@, st.failed_at_step_index)
                    &&& plan.run_input == st.original_input
                }
            }
        },
{
    let recovery = match loaded {
        Some(st) => st,
        None => {
            let mut reason = owned("no recovery state for run_id '");
            append_str(&mut reason, original_run_id);
            append_str(&mut reason, "'");
            return Err(RuntimeError::RecoveryStorageError { reason });
        },
    };
    if !recovery.is_resumable() {
        return Err(RuntimeError::RecoveryStorageError { reason: owned("recovery state has already been consumed") });
    }
    let expected = uuid_string(workflow_id);
    if !str_eq(recovery.workflow_definition_id.as_str(), expected.as_str()) {
        return Err(RuntimeError::InvalidWorkflowDefinition {
            reason: owned("workflow definition id does not match recovery state"),
        });
    }
    let precompleted = replay_outputs(&recovery.completed_steps, step_ids);
    let original_uuid = match parsed_run_id {
        Some(u) => u,
        None => {
            return Err(RuntimeError::RecoveryStorageError { reason: owned("invalid original_run_id") });
        },
    };
    let start_step_index = if str_eq(recovery.failure_error_code.as_str(), human_interrupt_code()) {
        recovery.failed_at_step_index
    } else {
        recovery.failed_at_step_index.saturating_add(1)
    };
    Ok(ResumePlan {
        original_run_id: original_uuid,
        recovery_id: recovery.recovery_id,
        precompleted,
        start_step_index,
        run_input: recovery.original_input,
    })
}

/// Plans resuming run `original_run_id` of workflow `workflow_id` from the
/// loaded recovery state: it must exist, be unconsumed and belong to the
/// workflow, and the run id must parse as a UUID. Completed steps whose ids
/// do not parse are skipped; a state saved from committed outputs gives those
/// outputs back.
pub fn plan_resume(
    workflow_id: u128,
    original_run_id: &str,
    loaded: Option<RecoveryState>,
) -> (r: Result<ResumePlan, RuntimeError>)
    ensures
        loaded is None ==> (r matches Err(e) && is_storage_error(e,
            "no recovery state for run_id '"@ + original_run_id@ + "'"@)),
        loaded matches Some(st) ==> {
            if st.is_consumed {
                r matches Err(e) && is_storage_error(e, "recovery state has already been consumed"@)
            } else if st.workflow_definition_id@ != uuid_text(workflow_id) {
                r matches Err(e) && is_invalid_definition(e, "workflow definition id does not match recovery state"@)
            } else if uuid_parse(original_run_id@) is None {
                r matches Err(e) && is_storage_error(e, "invalid original_run_id"@)
            } else {
                r matches Ok(plan) && {
                    &&& Some(plan.original_run_id) == uuid_parse(original_run_id@)
                    &&& plan.recovery_id == st.recovery_id
                    &&& replayed(plan.precompleted@) == recovered_steps(st.completed_steps@)
                    &&& forall|outs: Seq<ExecutionStepOutput>| #[trigger] persisted_from(st.completed_steps@, outs)
                        ==> replayed(plan.precompleted@) == replayed(outs)
                    &&& all_completed(plan.precompleted@)
                    &&& plan.start_step_index == resume_index(st.failure_error_code@, st.failed_at_step_index)
                    &&& plan.run_input == st.original_input
                }
            }
        },
{
    let parsed_run_id = parse_uuid(original_run_id);
    let step_ids = match &loaded {
        Some(st) => parse_snapshot_ids(&st.completed_steps),
        None => Vec::new(),
    };
    let ghost ids = step_ids@;
    proof {
        if loaded is Some {
            let st = loaded->0;
            assert forall|outs: Seq<ExecutionStepOutput>| #[trigger] persisted_from(st.completed_steps@, outs)
                implies recovered_with(st.completed_steps@, ids) == replayed(outs) by {
                law_saved_outputs_replay(st.completed_steps@, ids, outs);
            };
        }
    }
    plan_resume_parsed(workflow_id, original_run_id, parsed_run_id, loaded, &step_ids)
}

} // verus!
