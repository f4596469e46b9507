//! Retry and timeout policy.

pub mod config;
pub mod engine;
pub mod timeout;
