//! Workflow runtime core: retry and timeout policy, append-only run state,
//! bounded trace storage and trace assembly, tool registration, provider
//! message types and response classification, and recovery planning.

pub mod constants;
pub mod error;
pub mod text;
pub mod clock;
pub mod rcs;
pub mod providers;
pub mod retry;
pub mod state;
pub mod tracing;
pub mod tools;
pub mod recovery;
pub mod streaming;
