use vstd::prelude::*;

verus! {

/// Largest `max_attempts` a retry configuration may ask for.
pub const RETRY_MAX_ALLOWED_ATTEMPTS: u32 = 10;

/// Initial delay of the default exponential backoff, in milliseconds.
pub const RETRY_DEFAULT_BASE_MS: u64 = 100;

/// Growth factor of exponential backoff, in hundredths (200 doubles the delay).
pub const RETRY_DEFAULT_MULTIPLIER_X100: u64 = 200;

/// Cap of the default exponential backoff, in milliseconds.
pub const RETRY_DEFAULT_MAX_MS: u64 = 10_000;

/// Longest step or workflow timeout that validation accepts, in seconds.
pub const TIMEOUT_MAX_SECONDS: u64 = 86_400;

/// Default completion budget handed to providers when a run does not set one.
pub const PROVIDER_DEFAULT_MAX_TOKENS: u32 = 1024;

/// Estimated-token budget after which a provider stream stops being collected.
pub const PROVIDER_MAX_STREAM_TOKENS: u32 = 32_768;

/// Wall-clock budget for collecting one provider stream, in seconds.
pub const PROVIDER_STREAM_TIMEOUT_SECS: u64 = 120;

/// Per-run cap on stored trace events (one storage warning may exceed it).
pub const MAX_TRACE_EVENTS_PER_RUN: u32 = 10_000;

/// Per-request HTTP timeout for provider calls, in seconds.
pub const PROVIDER_REQUEST_TIMEOUT_SECS: u64 = 60;

} // verus!
