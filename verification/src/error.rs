use vstd::prelude::*;

verus! {

/// Runtime failures surfaced to callers of the workflow engine.
#[derive(Debug, Clone, PartialEq, Eq)]
pub enum RuntimeError {
    /// The workflow definition or one of its policies is not acceptable.
    InvalidWorkflowDefinition { reason: String },
    /// Recovery state could not be stored, loaded or used.
    RecoveryStorageError { reason: String },
    /// A step ran past its configured timeout.
    StepTimeout { step_id: String, configured_ms: u64, elapsed_ms: u64 },
}

/// Failures of the append-only run state.
#[derive(Debug, Clone, Copy, PartialEq, Eq)]
pub enum StateError {
    /// A step id was committed twice.
    DuplicateCommit { step_id: u128 },
}

} // verus!
