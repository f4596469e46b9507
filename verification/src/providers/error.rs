//! Provider API failure types. Messages never carry credentials or prompts.

use vstd::prelude::*;

verus! {

/// Errors from LLM provider calls.
#[derive(Debug, Clone, PartialEq, Eq)]
pub enum ProviderCallError {
    AuthenticationFailed { provider_id: String, key_env_var: String },
    RateLimited { provider_id: String, retry_after_seconds: Option<u64> },
    Timeout { provider_id: String, timeout_secs: u64 },
    ApiError { provider_id: String, status_code: u16, sanitized_message: String },
    ResponseParseError { provider_id: String, reason: String },
    NotConfigured { provider_id: String, key_env_var: String },
    ContentFiltered { provider_id: String },
    NetworkError { provider_id: String, sanitized_message: String },
}

impl ProviderCallError {
    /// The provider id every variant carries.
    pub open spec fn spec_provider_id(&self) -> Seq<char> {
        match self {
            ProviderCallError::AuthenticationFailed { provider_id, .. } => provider_id@,
            ProviderCallError::RateLimited { provider_id, .. } => provider_id@,
            ProviderCallError::Timeout { provider_id, .. } => provider_id@,
            ProviderCallError::ApiError { provider_id, .. } => provider_id@,
            ProviderCallError::ResponseParseError { provider_id, .. } => provider_id@,
            ProviderCallError::NotConfigured { provider_id, .. } => provider_id@,
            ProviderCallError::ContentFiltered { provider_id } => provider_id@,
            ProviderCallError::NetworkError { provider_id, .. } => provider_id@,
        }
    }

    /// Transient failures: rate limiting, timeouts and network errors.
    pub open spec fn spec_is_retryable(&self) -> bool {
        self is RateLimited || self is Timeout || self is NetworkError
    }

    /// Stable provider id for trace events.
    pub fn provider_id(&self) -> (r: &str)
        ensures
            r@ == self.spec_provider_id(),
    {
        match self {
            ProviderCallError::AuthenticationFailed { provider_id, .. } => provider_id.as_str(),
            ProviderCallError::RateLimited { provider_id, .. } => provider_id.as_str(),
            ProviderCallError::Timeout { provider_id, .. } => provider_id.as_str(),
            ProviderCallError::ApiError { provider_id, .. } => provider_id.as_str(),
            ProviderCallError::ResponseParseError { provider_id, .. } => provider_id.as_str(),
            ProviderCallError::NotConfigured { provider_id, .. } => provider_id.as_str(),
            ProviderCallError::ContentFiltered { provider_id } => provider_id.as_str(),
            ProviderCallError::NetworkError { provider_id, .. } => provider_id.as_str(),
        }
    }

    /// Whether the retry engine may retry this error.
    pub fn is_retryable(&self) -> (b: bool)
        ensures
            b == self.spec_is_retryable(),
    {
        match self {
            ProviderCallError::RateLimited { .. } => true,
            ProviderCallError::Timeout { .. } => true,
            ProviderCallError::NetworkError { .. } => true,
            _ => false,
        }
    }
}

} // verus!
