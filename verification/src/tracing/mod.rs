//! Trace events, bounded per-run storage, emission and trace assembly.

pub mod types;
pub mod events;
pub mod error;
pub mod store;
pub mod sprint5_emitter;
pub mod builder;
pub mod emitter;
pub mod dual;
pub mod registry;
pub mod otel_config;
pub mod otel_sec1;
pub mod otel_export;
