//! Classification of provider HTTP outcomes and assembly of responses from
//! the fields of a parsed provider reply. Sending requests and parsing JSON
//! happen outside this library; everything decided from their results is here.

use vstd::prelude::*;
use crate::constants::PROVIDER_REQUEST_TIMEOUT_SECS;
use crate::text::{append_str, joined, owned, str_eq};
use crate::tracing::types::TokenUsage;
use super::error::ProviderCallError;
use super::request::ToolCallRequest;
use super::response::{FinishReason, ProviderResponse};

verus! {

/// Environment variable holding the OpenAI API key.
pub open spec fn openai_key_env() -> Seq<char> { "OPENAI_API_KEY"@ }

/// Environment variable holding the Anthropic API key.
pub open spec fn anthropic_key_env() -> Seq<char> { "ANTHROPIC_API_KEY"@ }

/// Environment variable holding the Gemini API key.
pub open spec fn gemini_key_env() -> Seq<char> { "GEMINI_API_KEY"@ }

/// Name of the environment variable holding the OpenAI API key.
pub fn openai_api_key_env() -> (r: &'static str)
    ensures
        r@ == openai_key_env(),
{
    "OPENAI_API_KEY"
}

/// Name of the environment variable holding the Anthropic API key.
pub fn anthropic_api_key_env() -> (r: &'static str)
    ensures
        r@ == anthropic_key_env(),
{
    "ANTHROPIC_API_KEY"
}

/// Name of the environment variable holding the Gemini API key.
pub fn gemini_api_key_env() -> (r: &'static str)
    ensures
        r@ == gemini_key_env(),
{
    "GEMINI_API_KEY"
}

/// Error for a missing API key.
pub fn not_configured(provider_id: &str, key_env_var: &str) -> (e: ProviderCallError)
    ensures
        e matches ProviderCallError::NotConfigured { provider_id: p, key_env_var: k }
            && p@ == provider_id@ && k@ == key_env_var@,
{
    ProviderCallError::NotConfigured { provider_id: owned(provider_id), key_env_var: owned(key_env_var) }
}

/// Whether `e` is the error for a request of `provider` that got no
/// response: a timeout, or any other network failure (details not passed on).
pub open spec fn transport_outcome(provider: Seq<char>, is_timeout: bool, e: ProviderCallError) -> bool {
    if is_timeout {
        e matches ProviderCallError::Timeout { provider_id: p, timeout_secs }
            && p@ == provider && timeout_secs == PROVIDER_REQUEST_TIMEOUT_SECS
    } else {
        e matches ProviderCallError::NetworkError { provider_id: p, sanitized_message }
            && p@ == provider && sanitized_message@ == "request failed"@
    }
}

/// Error for a request that never got a response: a timeout, or any other
/// network failure (whose details are not passed on).
pub fn transport_error(provider_id: &str, is_timeout: bool) -> (e: ProviderCallError)
    ensures
        transport_outcome(provider_id@, is_timeout, e),
{
    if is_timeout {
        ProviderCallError::Timeout { provider_id: owned(provider_id), timeout_secs: PROVIDER_REQUEST_TIMEOUT_SECS }
    } else {
        ProviderCallError::NetworkError {
            provider_id: owned(provider_id),
            sanitized_message: owned("request failed"),
        }
    }
}

/// HTTP success: status 200 through 299.
pub open spec fn is_success(status: u16) -> bool {
    200 <= status <= 299
}

/// Whether `e` is `AuthenticationFailed` for `provider` naming `key`.
pub open spec fn is_auth_failed(e: ProviderCallError, provider: Seq<char>, key: Seq<char>) -> bool {
    e matches ProviderCallError::AuthenticationFailed { provider_id, key_env_var }
        && provider_id@ == provider && key_env_var@ == key
}

/// Whether `e` is `RateLimited` for `provider` with no retry hint.
pub open spec fn is_rate_limited(e: ProviderCallError, provider: Seq<char>) -> bool {
    e matches ProviderCallError::RateLimited { provider_id, retry_after_seconds }
        && provider_id@ == provider && retry_after_seconds is None
}

/// Whether `e` is `ApiError` for `provider` with `status` and `message`.
pub open spec fn is_api_error(e: ProviderCallError, provider: Seq<char>, status: u16, message: Seq<char>) -> bool {
    e matches ProviderCallError::ApiError { provider_id, status_code, sanitized_message }
        && provider_id@ == provider && status_code == status && sanitized_message@ == message
}

/// OpenAI error for a non-success `status`: 401 is an authentication failure,
/// 429 rate limiting, anything else an API error carrying `code` (or "api error").
pub fn openai_http_error(status: u16, code: Option<&str>) -> (e: ProviderCallError)
    ensures
        status == 401 ==> is_auth_failed(e, "openai"@, openai_key_env()),
        status == 429 ==> is_rate_limited(e, "openai"@),
        status != 401 && status != 429 ==> is_api_error(e, "openai"@, status, match code {
            Some(c) => c@,
            None => "api error"@,
        }),
{
    if status == 401 {
        return ProviderCallError::AuthenticationFailed {
            provider_id: owned("openai"),
            key_env_var: owned(openai_api_key_env()),
        };
    }
    if status == 429 {
        return ProviderCallError::RateLimited { provider_id: owned("openai"), retry_after_seconds: None };
    }
    let message = match code {
        Some(c) => owned(c),
        None => owned("api error"),
    };
    ProviderCallError::ApiError { provider_id: owned("openai"), status_code: status, sanitized_message: message }
}

/// Whether `e` is the OpenAI outcome of `status`: none on success, else 401
/// an authentication failure, 429 rate limiting, anything else an API error.
pub open spec fn openai_status_outcome(status: u16, e: Option<ProviderCallError>) -> bool {
    &&& is_success(status) <==> e is None
    &&& e matches Some(err) ==> {
        &&& status == 401 ==> is_auth_failed(err, "openai"@, openai_key_env())
        &&& status == 429 ==> is_rate_limited(err, "openai"@)
        &&& status != 401 && status != 429 ==> is_api_error(err, "openai"@, status, "api error"@)
    }
}

/// Whether `e` is the Anthropic outcome of `status`: 401 an authentication
/// failure, 429 rate limiting, other non-success statuses an API error.
pub open spec fn anthropic_status_outcome(status: u16, e: Option<ProviderCallError>) -> bool {
    &&& status == 401 ==> (e matches Some(err) && is_auth_failed(err, "anthropic"@, anthropic_key_env()))
    &&& status == 429 ==> (e matches Some(err) && is_rate_limited(err, "anthropic"@))
    &&& status != 401 && status != 429 && !is_success(status) ==>
        (e matches Some(err) && is_api_error(err, "anthropic"@, status, "api error"@))
    &&& is_success(status) ==> e is None
}

/// Whether `e` is the Gemini outcome of `status`: 401 and 403 authentication
/// failures, 429 rate limiting, other non-success statuses an API error.
pub open spec fn gemini_status_outcome(status: u16, e: Option<ProviderCallError>) -> bool {
    &&& status == 401 || status == 403 ==> (e matches Some(err) && is_auth_failed(err, "gemini"@, gemini_key_env()))
    &&& status == 429 ==> (e matches Some(err) && is_rate_limited(err, "gemini"@))
    &&& status != 401 && status != 403 && status != 429 && !is_success(status) ==>
        (e matches Some(err) && is_api_error(err, "gemini"@, status, "api error"@))
    &&& is_success(status) ==> e is None
}

/// How each provider's HTTP status is classified, for every status: success
/// (200-299) and only success gives no error; 401 (and for Gemini also 403)
/// and only that is an authentication failure naming the provider and its
/// usual key variable; 429 and only that is rate limiting, with no retry hint;
/// any other status is an API error carrying that very status.
pub proof fn law_status_classification(status: u16, e: Option<ProviderCallError>)
    ensures
        openai_status_outcome(status, e) ==> {
            &&& (e is None <==> 200 <= status <= 299)
            &&& ((e matches Some(ProviderCallError::AuthenticationFailed { provider_id, key_env_var })
                && provider_id@ == "openai"@ && key_env_var@ == "OPENAI_API_KEY"@) <==> status == 401)
            &&& (e matches Some(ProviderCallError::RateLimited { .. }) <==> status == 429)
            &&& (e matches Some(ProviderCallError::ApiError { status_code, .. }) <==> (!(200 <= status <= 299)
                && status != 401 && status != 429))
            &&& (e matches Some(ProviderCallError::ApiError { status_code, .. }) ==> status_code == status)
        },
        anthropic_status_outcome(status, e) ==> {
            &&& (e is None <==> 200 <= status <= 299)
            &&& ((e matches Some(ProviderCallError::AuthenticationFailed { provider_id, key_env_var })
                && provider_id@ == "anthropic"@ && key_env_var@ == "ANTHROPIC_API_KEY"@) <==> status == 401)
            &&& (e matches Some(ProviderCallError::RateLimited { .. }) <==> status == 429)
            &&& (e matches Some(ProviderCallError::ApiError { status_code, .. }) <==> (!(200 <= status <= 299)
                && status != 401 && status != 429))
            &&& (e matches Some(ProviderCallError::ApiError { status_code, .. }) ==> status_code == status)
        },
        gemini_status_outcome(status, e) ==> {
            &&& (e is None <==> 200 <= status <= 299)
            &&& ((e matches Some(ProviderCallError::AuthenticationFailed { provider_id, key_env_var })
                && provider_id@ == "gemini"@ && key_env_var@ == "GEMINI_API_KEY"@) <==> (status == 401
                || status == 403))
            &&& (e matches Some(ProviderCallError::RateLimited { .. }) <==> status == 429)
            &&& (e matches Some(ProviderCallError::ApiError { status_code, .. }) <==> (!(200 <= status <= 299)
                && status != 401 && status != 403 && status != 429))
            &&& (e matches Some(ProviderCallError::ApiError { status_code, .. }) ==> status_code == status)
        },
{
}

/// Whether `a` and `b` are the same error: same variant, equal fields, texts
/// compared by their characters.
pub open spec fn same_error(a: ProviderCallError, b: ProviderCallError) -> bool {
    match (a, b) {
        (
            ProviderCallError::AuthenticationFailed { provider_id: p1, key_env_var: k1 },
            ProviderCallError::AuthenticationFailed { provider_id: p2, key_env_var: k2 },
        ) => p1@ == p2@ && k1@ == k2@,
        (
            ProviderCallError::RateLimited { provider_id: p1, retry_after_seconds: r1 },
            ProviderCallError::RateLimited { provider_id: p2, retry_after_seconds: r2 },
        ) => p1@ == p2@ && r1 == r2,
        (
            ProviderCallError::Timeout { provider_id: p1, timeout_secs: t1 },
            ProviderCallError::Timeout { provider_id: p2, timeout_secs: t2 },
        ) => p1@ == p2@ && t1 == t2,
        (
            ProviderCallError::ApiError { provider_id: p1, status_code: s1, sanitized_message: m1 },
            ProviderCallError::ApiError { provider_id: p2, status_code: s2, sanitized_message: m2 },
        ) => p1@ == p2@ && s1 == s2 && m1@ == m2@,
        (
            ProviderCallError::ResponseParseError { provider_id: p1, reason: r1 },
            ProviderCallError::ResponseParseError { provider_id: p2, reason: r2 },
        ) => p1@ == p2@ && r1@ == r2@,
        (
            ProviderCallError::NotConfigured { provider_id: p1, key_env_var: k1 },
            ProviderCallError::NotConfigured { provider_id: p2, key_env_var: k2 },
        ) => p1@ == p2@ && k1@ == k2@,
        (ProviderCallError::ContentFiltered { provider_id: p1 }, ProviderCallError::ContentFiltered { provider_id: p2 }) =>
            p1@ == p2@,
        (
            ProviderCallError::NetworkError { provider_id: p1, sanitized_message: m1 },
            ProviderCallError::NetworkError { provider_id: p2, sanitized_message: m2 },
        ) => p1@ == p2@ && m1@ == m2@,
        _ => false,
    }
}

/// Whether two optional errors are both absent or the same error.
pub open spec fn same_outcome(a: Option<ProviderCallError>, b: Option<ProviderCallError>) -> bool {
    match (a, b) {
        (None, None) => true,
        (Some(x), Some(y)) => same_error(x, y),
        _ => false,
    }
}

/// Provider errors carry no secret: the error an HTTP status gives (for each
/// of the three providers) is fixed by the status alone, and the error a
/// failed transport gives by the provider and the timeout flag alone. Two
/// calls that differ only in API key or prompt text and see the same status
/// or transport failure therefore get the same error, which can reveal
/// neither.
pub proof fn law_errors_fixed_by_outcome(
    status: u16,
    provider: Seq<char>,
    is_timeout: bool,
    a: Option<ProviderCallError>,
    b: Option<ProviderCallError>,
    x: ProviderCallError,
    y: ProviderCallError,
)
    ensures
        openai_status_outcome(status, a) && openai_status_outcome(status, b) ==> same_outcome(a, b),
        anthropic_status_outcome(status, a) && anthropic_status_outcome(status, b) ==> same_outcome(a, b),
        gemini_status_outcome(status, a) && gemini_status_outcome(status, b) ==> same_outcome(a, b),
        transport_outcome(provider, is_timeout, x) && transport_outcome(provider, is_timeout, y) ==> same_error(x, y),
{
}

/// OpenAI outcome of an HTTP status: `None` on success.
pub fn openai_status_error(status: u16) -> (e: Option<ProviderCallError>)
    ensures
        openai_status_outcome(status, e),
{
    if 200 <= status && status <= 299 {
        None
    } else {
        Some(openai_http_error(status, None))
    }
}

/// Anthropic outcome of an HTTP status: 401 authentication, 429 rate limiting,
/// other non-success statuses an API error; `None` on success.
pub fn anthropic_status_error(status: u16) -> (e: Option<ProviderCallError>)
    ensures
        anthropic_status_outcome(status, e),
{
    if status == 401 {
        return Some(ProviderCallError::AuthenticationFailed {
            provider_id: owned("anthropic"),
            key_env_var: owned(anthropic_api_key_env()),
        });
    }
    if status == 429 {
        return Some(ProviderCallError::RateLimited { provider_id: owned("anthropic"), retry_after_seconds: None });
    }
    if !(200 <= status && status <= 299) {
        return Some(ProviderCallError::ApiError {
            provider_id: owned("anthropic"),
            status_code: status,
            sanitized_message: owned("api error"),
        });
    }
    None
}

/// Gemini outcome of an HTTP status: 401 and 403 authentication, 429 rate
/// limiting, other non-success statuses an API error; `None` on success.
pub fn gemini_status_error(status: u16) -> (e: Option<ProviderCallError>)
    ensures
        gemini_status_outcome(status, e),
{
    if status == 401 || status == 403 {
        return Some(ProviderCallError::AuthenticationFailed {
            provider_id: owned("gemini"),
            key_env_var: owned(gemini_api_key_env()),
        });
    }
    if status == 429 {
        return Some(ProviderCallError::RateLimited { provider_id: owned("gemini"), retry_after_seconds: None });
    }
    if !(200 <= status && status <= 299) {
        return Some(ProviderCallError::ApiError {
            provider_id: owned("gemini"),
            status_code: status,
            sanitized_message: owned("api error"),
        });
    }
    None
}

/// Error for a reply body that could not be used.
pub fn response_parse_error(provider_id: &str, reason: &str) -> (e: ProviderCallError)
    ensures
        e matches ProviderCallError::ResponseParseError { provider_id: p, reason: r }
            && p@ == provider_id@ && r@ == reason@,
{
    ProviderCallError::ResponseParseError { provider_id: owned(provider_id), reason: owned(reason) }
}

/// Streaming is not exposed for the HTTP providers.
pub fn stream_not_exposed(provider_id: &str) -> (e: ProviderCallError)
    ensures
        is_api_error(e, provider_id@, 501, "streaming not exposed in Sprint 6 SDK"@),
{
    ProviderCallError::ApiError {
        provider_id: owned(provider_id),
        status_code: 501,
        sanitized_message: owned("streaming not exposed in Sprint 6 SDK"),
    }
}

/// Whether `r` is `FinishReason::Other` carrying `why`.
pub open spec fn is_other(r: FinishReason, why: Seq<char>) -> bool {
    r matches FinishReason::Other(w) && w@ == why
}

/// Anthropic stop reason: "end_turn" or none stops, "max_tokens" hits the
/// limit, anything else ("tool_use" included) is passed on as `Other`.
pub open spec fn anthropic_finish(stop: Option<Seq<char>>, r: FinishReason) -> bool {
    match stop {
        None => r == FinishReason::Stop,
        Some(s) => if s == "end_turn"@ {
            r == FinishReason::Stop
        } else if s == "max_tokens"@ {
            r == FinishReason::MaxTokens
        } else {
            is_other(r, s)
        },
    }
}

/// OpenAI finish reason: "stop" or none stops, "length" hits the limit,
/// "content_filter" is filtered, anything else is passed on as `Other`.
pub open spec fn openai_finish(stop: Option<Seq<char>>, r: FinishReason) -> bool {
    match stop {
        None => r == FinishReason::Stop,
        Some(s) => if s == "stop"@ {
            r == FinishReason::Stop
        } else if s == "length"@ {
            r == FinishReason::MaxTokens
        } else if s == "content_filter"@ {
            r == FinishReason::ContentFilter
        } else {
            is_other(r, s)
        },
    }
}

/// Gemini finish reason: "STOP" or none stops, "MAX_TOKENS" hits the limit,
/// anything else is passed on as `Other`.
pub open spec fn gemini_finish(stop: Option<Seq<char>>, r: FinishReason) -> bool {
    match stop {
        None => r == FinishReason::Stop,
        Some(s) => if s == "STOP"@ {
            r == FinishReason::Stop
        } else if s == "MAX_TOKENS"@ {
            r == FinishReason::MaxTokens
        } else {
            is_other(r, s)
        },
    }
}

pub open spec fn opt_view(s: Option<&str>) -> Option<Seq<char>> {
    match s {
        Some(v) => Some(v@),
        None => None,
    }
}

pub fn anthropic_finish_reason(stop_reason: Option<&str>) -> (r: FinishReason)
    ensures
        anthropic_finish(opt_view(stop_reason), r),
{
    match stop_reason {
        None => FinishReason::Stop,
        Some(s) => if str_eq(s, "end_turn") {
            FinishReason::Stop
        } else if str_eq(s, "max_tokens") {
            FinishReason::MaxTokens
        } else {
            FinishReason::Other(owned(s))
        },
    }
}

pub fn openai_finish_reason(finish_reason: Option<&str>) -> (r: FinishReason)
    ensures
        openai_finish(opt_view(finish_reason), r),
{
    match finish_reason {
        None => FinishReason::Stop,
        Some(s) => if str_eq(s, "stop") {
            FinishReason::Stop
        } else if str_eq(s, "length") {
            FinishReason::MaxTokens
        } else if str_eq(s, "content_filter") {
            FinishReason::ContentFilter
        } else {
            FinishReason::Other(owned(s))
        },
    }
}

pub fn gemini_finish_reason(finish_reason: Option<&str>) -> (r: FinishReason)
    ensures
        gemini_finish(opt_view(finish_reason), r),
{
    match finish_reason {
        None => FinishReason::Stop,
        Some(s) => if str_eq(s, "STOP") {
            FinishReason::Stop
        } else if str_eq(s, "MAX_TOKENS") {
            FinishReason::MaxTokens
        } else {
            FinishReason::Other(owned(s))
        },
    }
}

/// How each provider's finish reason is read, for every reason it may send:
/// a normal end ("stop" for OpenAI, "end_turn" for Anthropic, "STOP" for
/// Gemini) or no reason at all is a stop and nothing else is; the token limit
/// ("length", "max_tokens", "MAX_TOKENS") and only it is `MaxTokens`; only
/// OpenAI's "content_filter" is `ContentFilter`; every other reason is passed
/// on unchanged as `Other`.
pub proof fn law_finish_reasons(x: Option<Seq<char>>, r: FinishReason)
    ensures
        openai_finish(x, r) ==> {
            &&& (r == FinishReason::Stop <==> (x is None || x == Some("stop"@)))
            &&& (r == FinishReason::MaxTokens <==> x == Some("length"@))
            &&& (r == FinishReason::ContentFilter <==> x == Some("content_filter"@))
            &&& (r matches FinishReason::Other(w) ==> x == Some(w@))
        },
        anthropic_finish(x, r) ==> {
            &&& (r == FinishReason::Stop <==> (x is None || x == Some("end_turn"@)))
            &&& (r == FinishReason::MaxTokens <==> x == Some("max_tokens"@))
            &&& r != FinishReason::ContentFilter
            &&& (r matches FinishReason::Other(w) ==> x == Some(w@))
        },
        gemini_finish(x, r) ==> {
            &&& (r == FinishReason::Stop <==> (x is None || x == Some("STOP"@)))
            &&& (r == FinishReason::MaxTokens <==> x == Some("MAX_TOKENS"@))
            &&& r != FinishReason::ContentFilter
            &&& (r matches FinishReason::Other(w) ==> x == Some(w@))
        },
{
    reveal_strlit("stop");
    reveal_strlit("length");
    reveal_strlit("content_filter");
    reveal_strlit("end_turn");
    reveal_strlit("max_tokens");
    reveal_strlit("STOP");
    reveal_strlit("MAX_TOKENS");
    assert("stop"@.len() == 4 && "length"@.len() == 6 && "content_filter"@.len() == 14);
    assert("end_turn"@.len() == 8 && "max_tokens"@.len() == 10);
    assert("STOP"@.len() == 4 && "MAX_TOKENS"@.len() == 10);
}

/// Identity, name and arguments of each call.
pub open spec fn call_views(calls: Seq<ToolCallRequest>) -> Seq<(Seq<char>, Seq<char>, Seq<char>)> {
    calls.map_values(|c: ToolCallRequest| (c.id@, c.name@, c.arguments@))
}

/// `calls` as a response reports them: `None` when empty.
pub open spec fn reported_calls(
    r: Option<Vec<ToolCallRequest>>,
    calls: Seq<(Seq<char>, Seq<char>, Seq<char>)>,
) -> bool {
    if calls.len() == 0 {
        r is None
    } else {
        r matches Some(v) && call_views(v@) == calls
    }
}

/// One content block of an Anthropic reply; `input` is the JSON text of a
/// tool-use block's input.
#[derive(Debug)]
pub struct AnthropicBlock {
    pub block_type: String,
    pub text: Option<String>,
    pub id: Option<String>,
    pub name: Option<String>,
    pub input: Option<String>,
}

/// Texts of the "text" blocks that carry text, in order.
pub open spec fn anthropic_texts(blocks: Seq<AnthropicBlock>) -> Seq<Seq<char>>
    decreases blocks.len(),
{
    if blocks.len() == 0 {
        Seq::empty()
    } else {
        let rest = anthropic_texts(blocks.drop_last());
        let b = blocks.last();
        if b.block_type@ == "text"@ && b.text is Some {
            rest.push(b.text.unwrap()@)
        } else {
            rest
        }
    }
}

/// Tool calls of the "tool_use" blocks that carry both id and name, in order;
/// a missing input becomes "{}".
pub open spec fn anthropic_calls(blocks: Seq<AnthropicBlock>) -> Seq<(Seq<char>, Seq<char>, Seq<char>)>
    decreases blocks.len(),
{
    if blocks.len() == 0 {
        Seq::empty()
    } else {
        let rest = anthropic_calls(blocks.drop_last());
        let b = blocks.last();
        if b.block_type@ == "tool_use"@ && b.id is Some && b.name is Some {
            rest.push((b.id.unwrap()@, b.name.unwrap()@, match b.input {
                Some(i) => i@,
                None => "{}"@,
            }))
        } else {
            rest
        }
    }
}

/// Response from the parts of an Anthropic reply: text blocks concatenated,
/// tool-use blocks as tool calls, usage summed into a total.
pub fn anthropic_response(
    model_id: String,
    blocks: Vec<AnthropicBlock>,
    stop_reason: Option<String>,
    input_tokens: u32,
    output_tokens: u32,
) -> (r: ProviderResponse)
    requires
        input_tokens + output_tokens <= u32::MAX,
    ensures
        r.content@ == joined(anthropic_texts(blocks@), Seq::empty()),
        r.tokens == (TokenUsage {
            prompt_tokens: input_tokens,
            completion_tokens: output_tokens,
            total_tokens: (input_tokens + output_tokens) as u32,
        }),
        r.model_id == model_id,
        anthropic_finish(match stop_reason {
            Some(s) => Some(s@),
            None => None,
        }, r.finish_reason),
        reported_calls(r.tool_calls, anthropic_calls(blocks@)),
{
    let mut content = String::new();
    let mut text_count: usize = 0;
    let mut calls: Vec<ToolCallRequest> = Vec::new();
    let mut i: usize = 0;
    assert(blocks@.take(0) =~= Seq::<AnthropicBlock>::empty());
    while i < blocks.len()
        invariant
            i <= blocks@.len(),
            text_count == anthropic_texts(blocks@.take(i as int)).len(),
            text_count <= i,
            content@ == joined(anthropic_texts(blocks@.take(i as int)), Seq::empty()),
            call_views(calls@) == anthropic_calls(blocks@.take(i as int)),
        decreases blocks.len() - i,
    {
        assert(blocks@.take(i + 1).drop_last() =~= blocks@.take(i as int));
        let b = &blocks[i];
        let is_text = str_eq(b.block_type.as_str(), "text");
        if is_text {
            if let Some(t) = &b.text {
                let ghost prev = anthropic_texts(blocks@.take(i as int));
                assert(prev.push(t@).drop_last() =~= prev);
                append_str(&mut content, t.as_str());
                if text_count == 0 {
                    assert(content@ =~= t@);
                } else {
                    assert(content@ =~= joined(prev, Seq::empty()) + Seq::<char>::empty() + t@);
                }
                text_count = text_count + 1;
            }
        }
        let is_tool = str_eq(b.block_type.as_str(), "tool_use");
        if is_tool {
            if let (Some(id), Some(name)) = (&b.id, &b.name) {
                let arguments = match &b.input {
                    Some(v) => v.clone(),
                    None => owned("{}"),
                };
                let ghost before = calls@;
                calls.push(ToolCallRequest { id: id.clone(), name: name.clone(), arguments });
                assert(call_views(calls@) =~= call_views(before).push(
                    (calls@.last().id@, calls@.last().name@, calls@.last().arguments@)));
            }
        }
        i = i + 1;
    }
    assert(blocks@.take(blocks@.len() as int) =~= blocks@);
    let finish_reason = match &stop_reason {
        Some(s) => anthropic_finish_reason(Some(s.as_str())),
        None => anthropic_finish_reason(None),
    };
    let tool_calls = if calls.len() == 0 { None } else { Some(calls) };
    ProviderResponse {
        content,
        tokens: TokenUsage {
            prompt_tokens: input_tokens,
            completion_tokens: output_tokens,
            total_tokens: input_tokens + output_tokens,
        },
        model_id,
        finish_reason,
        tool_calls,
    }
}

/// The first choice of an OpenAI reply.
#[derive(Debug)]
pub struct OpenAIChoice {
    pub content: Option<String>,
    pub tool_calls: Option<Vec<ToolCallRequest>>,
    pub finish_reason: Option<String>,
}

/// Response from the parts of an OpenAI reply: the first choice's content (or
/// empty), its tool calls as given, the usage (or zero counts) and the finish
/// reason; a reply without choices is a parse error.
pub fn openai_response(
    model_id: String,
    choices: Vec<OpenAIChoice>,
    usage: Option<TokenUsage>,
) -> (r: Result<ProviderResponse, ProviderCallError>)
    ensures
        choices@.len() == 0 ==> (r matches Err(ProviderCallError::ResponseParseError { provider_id, reason })
            && provider_id@ == "openai"@ && reason@ == "no choices"@),
        choices@.len() > 0 ==> (r matches Ok(resp) && {
            let c = choices@[0];
            &&& resp.content@ == (match c.content {
                Some(t) => t@,
                None => Seq::empty(),
            })
            &&& resp.tokens == (match usage {
                Some(u) => u,
                None => TokenUsage::zero(),
            })
            &&& resp.model_id == model_id
            &&& openai_finish(match c.finish_reason {
                Some(f) => Some(f@),
                None => None,
            }, resp.finish_reason)
            &&& resp.tool_calls == c.tool_calls
        }),
{
    let mut choices = choices;
    if choices.len() == 0 {
        return Err(response_parse_error("openai", "no choices"));
    }
    let choice = choices.swap_remove(0);
    let finish_reason = match &choice.finish_reason {
        Some(f) => openai_finish_reason(Some(f.as_str())),
        None => openai_finish_reason(None),
    };
    let tokens = match usage {
        Some(u) => u,
        None => TokenUsage { prompt_tokens: 0, completion_tokens: 0, total_tokens: 0 },
    };
    let content = match choice.content {
        Some(t) => t,
        None => String::new(),
    };
    Ok(ProviderResponse { content, tokens, model_id, finish_reason, tool_calls: choice.tool_calls })
}

/// A function call in a Gemini part; `args` is the JSON text of its arguments.
#[derive(Debug)]
pub struct GeminiFunctionCall {
    pub name: String,
    pub args: String,
}

/// One part of a Gemini candidate.
#[derive(Debug)]
pub struct GeminiPart {
    pub text: Option<String>,
    pub function_call: Option<GeminiFunctionCall>,
}

/// One candidate of a Gemini reply.
#[derive(Debug)]
pub struct GeminiCandidate {
    pub parts: Vec<GeminiPart>,
    pub finish_reason: Option<String>,
}

/// Texts of the parts that carry text, in order.
pub open spec fn gemini_texts(parts: Seq<GeminiPart>) -> Seq<Seq<char>>
    decreases parts.len(),
{
    if parts.len() == 0 {
        Seq::empty()
    } else {
        let rest = gemini_texts(parts.drop_last());
        match parts.last().text {
            Some(t) => rest.push(t@),
            None => rest,
        }
    }
}

/// Tool calls of the parts that carry a function call, in order, each with
/// id "call_" followed by the function name.
pub open spec fn gemini_calls(parts: Seq<GeminiPart>) -> Seq<(Seq<char>, Seq<char>, Seq<char>)>
    decreases parts.len(),
{
    if parts.len() == 0 {
        Seq::empty()
    } else {
        let rest = gemini_calls(parts.drop_last());
        match parts.last().function_call {
            Some(f) => rest.push(("call_"@ + f.name@, f.name@, f.args@)),
            None => rest,
        }
    }
}

/// Reply parts are read block by block, each independently and in order:
/// the texts and tool calls of a concatenation of blocks (or Gemini parts) are
/// those of the first blocks followed by those of the rest; one Anthropic
/// block contributes its text exactly when it is a "text" block carrying text,
/// and a call exactly when it is a "tool_use" block carrying id and name (its
/// input, or "{}"); one Gemini part contributes its text if it carries one and
/// a call ("call_" and the name, the name, the arguments) if it carries one.
pub proof fn law_reply_parts_read_in_order(
    a: Seq<AnthropicBlock>,
    b: Seq<AnthropicBlock>,
    x: Seq<GeminiPart>,
    y: Seq<GeminiPart>,
)
    ensures
        anthropic_texts(a + b) == anthropic_texts(a) + anthropic_texts(b),
        anthropic_calls(a + b) == anthropic_calls(a) + anthropic_calls(b),
        gemini_texts(x + y) == gemini_texts(x) + gemini_texts(y),
        gemini_calls(x + y) == gemini_calls(x) + gemini_calls(y),
        b.len() == 1 ==> anthropic_texts(b) == (if b[0].block_type@ == "text"@ && b[0].text is Some {
            seq![b[0].text.unwrap()@]
        } else {
            Seq::empty()
        }),
        b.len() == 1 ==> anthropic_calls(b) == (if b[0].block_type@ == "tool_use"@ && b[0].id is Some
            && b[0].name is Some {
            seq![(b[0].id.unwrap()@, b[0].name.unwrap()@, match b[0].input {
                Some(i) => i@,
                None => "{}"@,
            })]
        } else {
            Seq::empty()
        }),
        y.len() == 1 ==> gemini_texts(y) == (match y[0].text {
            Some(t) => seq![t@],
            None => Seq::empty(),
        }),
        y.len() == 1 ==> gemini_calls(y) == (match y[0].function_call {
            Some(f) => seq![("call_"@ + f.name@, f.name@, f.args@)],
            None => Seq::empty(),
        }),
    decreases b.len() + y.len(),
{
    if b.len() > 0 {
        law_reply_parts_read_in_order(a, b.drop_last(), x, Seq::empty());
        assert((a + b).drop_last() =~= a + b.drop_last());
        assert((a + b).last() == b.last());
        if b.len() == 1 {
            assert(b.drop_last() =~= Seq::<AnthropicBlock>::empty());
        }
    } else {
        assert(a + b =~= a);
    }
    if y.len() > 0 {
        law_reply_parts_read_in_order(Seq::empty(), Seq::empty(), x, y.drop_last());
        assert((x + y).drop_last() =~= x + y.drop_last());
        assert((x + y).last() == y.last());
        if y.len() == 1 {
            assert(y.drop_last() =~= Seq::<GeminiPart>::empty());
        }
    } else {
        assert(x + y =~= x);
    }
}

/// Response from the parts of a Gemini reply: the first candidate's texts
/// concatenated, its function calls as tool calls, the usage (or zero counts)
/// and the finish reason, under the configured model id; a reply without
/// candidates is a parse error.
pub fn gemini_response(
    model_id: &str,
    candidates: Vec<GeminiCandidate>,
    usage: Option<TokenUsage>,
) -> (r: Result<ProviderResponse, ProviderCallError>)
    ensures
        candidates@.len() == 0 ==> (r matches Err(ProviderCallError::ResponseParseError { provider_id, reason })
            && provider_id@ == "gemini"@ && reason@ == "no candidates"@),
        candidates@.len() > 0 ==> (r matches Ok(resp) && {
            let c = candidates@[0];
            &&& resp.content@ == joined(gemini_texts(c.parts@), Seq::empty())
            &&& resp.tokens == (match usage {
                Some(u) => u,
                None => TokenUsage::zero(),
            })
            &&& resp.model_id@ == model_id@
            &&& gemini_finish(match c.finish_reason {
                Some(f) => Some(f@),
                None => None,
            }, resp.finish_reason)
            &&& reported_calls(resp.tool_calls, gemini_calls(c.parts@))
        }),
{
    let mut candidates = candidates;
    if candidates.len() == 0 {
        return Err(response_parse_error("gemini", "no candidates"));
    }
    let candidate = candidates.swap_remove(0);
    let parts = &candidate.parts;
    let mut content = String::new();
    let mut text_count: usize = 0;
    let mut calls: Vec<ToolCallRequest> = Vec::new();
    let mut i: usize = 0;
    assert(parts@.take(0) =~= Seq::<GeminiPart>::empty());
    while i < parts.len()
        invariant
            i <= parts@.len(),
            text_count == gemini_texts(parts@.take(i as int)).len(),
            text_count <= i,
            content@ == joined(gemini_texts(parts@.take(i as int)), Seq::empty()),
            call_views(calls@) == gemini_calls(parts@.take(i as int)),
        decreases parts.len() - i,
    {
        assert(parts@.take(i + 1).drop_last() =~= parts@.take(i as int));
        let p = &parts[i];
        if let Some(t) = &p.text {
            let ghost prev = gemini_texts(parts@.take(i as int));
            assert(prev.push(t@).drop_last() =~= prev);
            append_str(&mut content, t.as_str());
            if text_count == 0 {
                assert(content@ =~= t@);
            } else {
                assert(content@ =~= joined(prev, Seq::empty()) + Seq::<char>::empty() + t@);
            }
            text_count = text_count + 1;
        }
        if let Some(f) = &p.function_call {
            let mut id = owned("call_");
            append_str(&mut id, f.name.as_str());
            let ghost before = calls@;
            calls.push(ToolCallRequest { id, name: f.name.clone(), arguments: f.args.clone() });
            assert(call_views(calls@) =~= call_views(before).push(
                (calls@.last().id@, calls@.last().name@, calls@.last().arguments@)));
        }
        i = i + 1;
    }
    assert(parts@.take(parts@.len() as int) =~= parts@);
    let finish_reason = match &candidate.finish_reason {
        Some(f) => gemini_finish_reason(Some(f.as_str())),
        None => gemini_finish_reason(None),
    };
    let tokens = match usage {
        Some(u) => u,
        None => TokenUsage { prompt_tokens: 0, completion_tokens: 0, total_tokens: 0 },
    };
    let tool_calls = if calls.len() == 0 { None } else { Some(calls) };
    Ok(ProviderResponse { content, tokens, model_id: owned(model_id), finish_reason, tool_calls })
}

} // verus!
