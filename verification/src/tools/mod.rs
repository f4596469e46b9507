//! Tool registration, input validation and the decisions around one tool call.

pub mod error;
pub mod registry;
pub mod validation;
pub mod runtime;
