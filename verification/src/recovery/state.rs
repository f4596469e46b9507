//! Recovery state. The original input and step outputs are never traced or logged.

use vstd::prelude::*;
use crate::clock::UtcTimestamp;
use crate::rcs::types::ExecutionMode;
use crate::state::engine::ExecutionStepOutput;
use crate::text::{owned, uuid_string, uuid_text};

verus! {

/// A completed step as persisted: ids as UUID text.
#[derive(Debug, PartialEq, Eq)]
pub struct CompletedStepSnapshot {
    pub step_id: String,
    pub agent_id: String,
    pub content: String,
}

/// Persisted state of a failed run, enough to resume it. Run and workflow ids
/// are UUID text.
#[derive(Debug)]
pub struct RecoveryState {
    pub recovery_id: String,
    pub original_run_id: String,
    pub workflow_definition_id: String,
    pub original_input: String,
    pub completed_steps: Vec<CompletedStepSnapshot>,
    pub failed_at_step_index: usize,
    pub failure_error_code: String,
    pub created_at: UtcTimestamp,
    pub is_consumed: bool,
    pub execution_mode: ExecutionMode,
    pub current_node_id: Option<String>,
    pub graph_iteration_count: u32,
    /// Join nodes still waiting, with the branches they have seen.
    pub pending_join: Option<Vec<(String, Vec<String>)>>,
}

/// Whether `snap` persists `out`.
pub open spec fn snapshot_of(snap: CompletedStepSnapshot, out: ExecutionStepOutput) -> bool {
    &&& snap.step_id@ == uuid_text(out.step_id)
    &&& snap.agent_id@ == uuid_text(out.agent_id)
    &&& snap.content@ == out.content@
}

impl RecoveryState {
    pub fn completed_step_count(&self) -> (n: usize)
        ensures
            n == self.completed_steps@.len(),
    {
        self.completed_steps.len()
    }

    /// A state can be resumed once.
    pub fn is_resumable(&self) -> (b: bool)
        ensures
            b == !self.is_consumed,
    {
        !self.is_consumed
    }

    /// The state persisted when a linear run fails at `failed_at_step_index`
    /// after completing `completed`: not consumed, linear, no graph position.
    pub fn after_failure(
        recovery_id: String,
        workflow_definition_id: u128,
        original_run_id: u128,
        original_input: &str,
        completed: &[ExecutionStepOutput],
        failed_at_step_index: usize,
        failure_error_code: &str,
        created_at: UtcTimestamp,
    ) -> (s: Self)
        ensures
            s.recovery_id == recovery_id,
            s.original_run_id@ == uuid_text(original_run_id),
            s.workflow_definition_id@ == uuid_text(workflow_definition_id),
            s.original_input@ == original_input@,
            s.completed_steps@.len() == completed@.len(),
            forall|i: int| 0 <= i < completed@.len() ==> snapshot_of(#[trigger] s.completed_steps@[i], completed@[i]),
            s.failed_at_step_index == failed_at_step_index,
            s.failure_error_code@ == failure_error_code@,
            s.created_at == created_at,
            !s.is_consumed,
            s.execution_mode == ExecutionMode::Linear,
            s.current_node_id is None,
            s.graph_iteration_count == 0,
            s.pending_join is None,
    {
        let mut completed_steps: Vec<CompletedStepSnapshot> = Vec::new();
        let mut i: usize = 0;
        while i < completed.len()
            invariant
                i <= completed@.len(),
                completed_steps@.len() == i,
                forall|j: int| 0 <= j < i ==> snapshot_of(#[trigger] completed_steps@[j], completed@[j]),
            decreases completed.len() - i,
        {
            let out = &completed[i];
            completed_steps.push(CompletedStepSnapshot {
                step_id: uuid_string(out.step_id),
                agent_id: uuid_string(out.agent_id),
                content: out.content.clone(),
            });
            i = i + 1;
        }
        RecoveryState {
            recovery_id,
            original_run_id: uuid_string(original_run_id),
            workflow_definition_id: uuid_string(workflow_definition_id),
            original_input: owned(original_input),
            completed_steps,
            failed_at_step_index,
            failure_error_code: owned(failure_error_code),
            created_at,
            is_consumed: false,
            execution_mode: ExecutionMode::Linear,
            current_node_id: None,
            graph_iteration_count: 0,
            pending_join: None,
        }
    }
}

/// Storage label of an execution mode.
pub open spec fn mode_label(mode: ExecutionMode) -> Seq<char> {
    match mode {
        ExecutionMode::Linear => "linear"@,
        ExecutionMode::Graph => "graph"@,
    }
}

/// Storage label of an execution mode.
pub fn execution_mode_str(mode: &ExecutionMode) -> (s: &'static str)
    ensures
        s@ == mode_label(*mode),
{
    match mode {
        ExecutionMode::Linear => "linear",
        ExecutionMode::Graph => "graph",
    }
}

} // verus!
