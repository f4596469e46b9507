//! Runtime Contract Specification: the message envelope, protocol errors and
//! the policy types the runtime reads.

pub mod envelope;
pub mod error;
pub mod types;
