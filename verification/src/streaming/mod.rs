//! Stream events for SDK consumers and bounded collection of provider streams.

pub mod events;
pub mod engine;
pub mod bridge;
