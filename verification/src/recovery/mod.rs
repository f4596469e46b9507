//! Partial workflow recovery: the persisted state of a failed run and the plan
//! for resuming it.

pub mod state;

pub mod plan;
