//! Execution state: one append-only [`StateEngine`] per workflow run.

pub mod engine;

pub use engine::{ExecutionStepOutput, StateEngine, StateSnapshot};
