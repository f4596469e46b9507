//! Provider boundary: error classification, message and response types, the
//! deterministic mock provider and HTTP outcome classification.

pub mod error;
pub mod request;
pub mod response;
pub mod mock;
pub mod runtime;
pub mod http;
pub mod wire;
