//! Append-only execution state for one workflow run.

use vstd::prelude::*;
use crate::error::StateError;
use crate::rcs::types::ExecutionStatus;

verus! {

/// Output of a single step, ready to commit to state. Step and agent ids are
/// the 128-bit values of their UUIDs.
#[derive(Debug, PartialEq, Eq)]
pub struct ExecutionStepOutput {
    /// Step that produced this output.
    pub step_id: u128,
    /// Agent that ran the step.
    pub agent_id: u128,
    /// Step output text.
    pub content: String,
    /// Outcome for this step.
    pub status: ExecutionStatus,
}

impl Clone for ExecutionStepOutput {
    fn clone(&self) -> (r: Self)
        ensures
            r == *self,
    {
        ExecutionStepOutput {
            step_id: self.step_id,
            agent_id: self.agent_id,
            content: self.content.clone(),
            status: self.status,
        }
    }
}

/// Owned, read-only copy of committed step outputs.
#[derive(Debug)]
pub struct StateSnapshot {
    /// Steps committed in execution order.
    pub steps: Vec<ExecutionStepOutput>,
}

/// Holds committed step outputs for one run; grows forward only.
pub struct StateEngine {
    committed_steps: Vec<ExecutionStepOutput>,
}

/// No step id occurs twice.
pub open spec fn distinct_step_ids(steps: Seq<ExecutionStepOutput>) -> bool {
    forall|i: int, j: int| 0 <= i < j < steps.len() ==> (#[trigger] steps[i]).step_id != (#[trigger] steps[j]).step_id
}

/// Whether some step carries `step_id`.
pub open spec fn has_step(steps: Seq<ExecutionStepOutput>, step_id: u128) -> bool {
    exists|i: int| 0 <= i < steps.len() && (#[trigger] steps[i]).step_id == step_id
}

/// The output committed under `step_id`, if any.
pub open spec fn output_for(steps: Seq<ExecutionStepOutput>, step_id: u128) -> Option<ExecutionStepOutput> {
    if has_step(steps, step_id) {
        Some(steps[choose|i: int| 0 <= i < steps.len() && (#[trigger] steps[i]).step_id == step_id])
    } else {
        None
    }
}

proof fn lemma_output_at(steps: Seq<ExecutionStepOutput>, i: int)
    requires
        distinct_step_ids(steps),
        0 <= i < steps.len(),
    ensures
        output_for(steps, steps[i].step_id) == Some(steps[i]),
{
    let id = steps[i].step_id;
    assert(has_step(steps, id));
    let k = choose|k: int| 0 <= k < steps.len() && (#[trigger] steps[k]).step_id == id;
    if k < i {
        assert(steps[k].step_id != steps[i].step_id);
    } else if i < k {
        assert(steps[i].step_id != steps[k].step_id);
    }
}

/// Reading back a commit: after a successful commit of `output` the output
/// stored under its step id is `output`, the output stored under any other
/// step id is unchanged, and step ids stay distinct.
pub proof fn law_commit_then_read(steps: Seq<ExecutionStepOutput>, output: ExecutionStepOutput, other: u128)
    requires
        distinct_step_ids(steps),
        !has_step(steps, output.step_id),
    ensures
        distinct_step_ids(steps.push(output)),
        output_for(steps.push(output), output.step_id) == Some(output),
        other != output.step_id ==> output_for(steps.push(output), other) == output_for(steps, other),
{
    let after = steps.push(output);
    assert forall|i: int, j: int| 0 <= i < j < after.len() implies (#[trigger] after[i]).step_id
        != (#[trigger] after[j]).step_id by {
        if j == steps.len() {
            assert(steps[i] == after[i]);
        } else {
            assert(steps[i] == after[i] && steps[j] == after[j]);
        }
    };
    lemma_output_at(after, steps.len() as int);
    if other != output.step_id && has_step(steps, other) {
        let k = choose|k: int| 0 <= k < steps.len() && (#[trigger] steps[k]).step_id == other;
        lemma_output_at(steps, k);
        assert(after[k] == steps[k]);
        lemma_output_at(after, k);
    }
    if other != output.step_id && has_step(after, other) {
        let k = choose|k: int| 0 <= k < after.len() && (#[trigger] after[k]).step_id == other;
        assert(k < steps.len());
        assert(steps[k] == after[k]);
    }
}

impl View for StateEngine {
    type V = Seq<ExecutionStepOutput>;

    closed spec fn view(&self) -> Seq<ExecutionStepOutput> {
        self.committed_steps@
    }
}

impl StateEngine {
    /// Committed step ids are distinct.
    pub open spec fn well_formed(&self) -> bool {
        distinct_step_ids(self@)
    }

    /// Starts with no committed steps.
    pub fn new() -> (e: Self)
        ensures
            e@ == Seq::<ExecutionStepOutput>::empty(),
            e.well_formed(),
    {
        StateEngine { committed_steps: Vec::new() }
    }

    /// Records a step output, or errors if its step id was already committed.
    pub fn commit(&mut self, output: ExecutionStepOutput) -> (r: Result<(), StateError>)
        requires
            old(self).well_formed(),
        ensures
            final(self).well_formed(),
            has_step(old(self)@, output.step_id) ==> {
                &&& r == Err::<(), StateError>(StateError::DuplicateCommit { step_id: output.step_id })
                &&& final(self)@ == old(self)@
            },
            !has_step(old(self)@, output.step_id) ==> {
                &&& r is Ok
                &&& final(self)@ == old(self)@.push(output)
            },
    {
        let mut i: usize = 0;
        while i < self.committed_steps.len()
            invariant
                i <= self.committed_steps@.len(),
                self.well_formed(),
                forall|j: int| 0 <= j < i ==> (#[trigger] self.committed_steps@[j]).step_id != output.step_id,
            decreases self.committed_steps.len() - i,
        {
            if self.committed_steps[i].step_id == output.step_id {
                return Err(StateError::DuplicateCommit { step_id: output.step_id });
            }
            i = i + 1;
        }
        self.committed_steps.push(output);
        Ok(())
    }

    /// Copies all committed outputs.
    pub fn snapshot(&self) -> (s: StateSnapshot)
        ensures
            s.steps@ == self@,
    {
        let mut steps: Vec<ExecutionStepOutput> = Vec::new();
        let mut i: usize = 0;
        while i < self.committed_steps.len()
            invariant
                i <= self.committed_steps@.len(),
                steps@ == self.committed_steps@.take(i as int),
            decreases self.committed_steps.len() - i,
        {
            steps.push(self.committed_steps[i].clone());
            assert(steps@ =~= self.committed_steps@.take(i + 1));
            i = i + 1;
        }
        assert(steps@ =~= self.committed_steps@);
        StateSnapshot { steps }
    }

    /// Looks up a committed step by id.
    pub fn step_output(&self, step_id: u128) -> (r: Option<&ExecutionStepOutput>)
        requires
            self.well_formed(),
        ensures
            r is Some == has_step(self@, step_id),
            r matches Some(out) ==> Some(*out) == output_for(self@, step_id),
    {
        let mut i: usize = 0;
        while i < self.committed_steps.len()
            invariant
                i <= self.committed_steps@.len(),
                self.well_formed(),
                forall|j: int| 0 <= j < i ==> (#[trigger] self.committed_steps@[j]).step_id != step_id,
            decreases self.committed_steps.len() - i,
        {
            if self.committed_steps[i].step_id == step_id {
                proof { lemma_output_at(self@, i as int); }
                return Some(&self.committed_steps[i]);
            }
            i = i + 1;
        }
        None
    }
}

impl Default for StateEngine {
    fn default() -> (e: Self)
        ensures
            e@ == Seq::<ExecutionStepOutput>::empty(),
            e.well_formed(),
    {
        StateEngine::new()
    }
}

} // verus!
