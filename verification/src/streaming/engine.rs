//! Bounded collection of a provider stream into one string. The caller reads
//! chunks until the collector says stop, the stream ends, or the deadline passes.

use vstd::prelude::*;
use crate::constants::{PROVIDER_MAX_STREAM_TOKENS, PROVIDER_STREAM_TIMEOUT_SECS};
use crate::providers::error::ProviderCallError;
use crate::text::{append_str, owned, utf8_len};

verus! {

/// Collects a bounded provider stream into a single string.
pub struct StreamingEngine;

/// Accumulated text and token estimate of a stream being collected.
pub struct BoundedCollector {
    output: String,
    token_estimate: u32,
}

/// Estimated tokens of a chunk: its byte length (truncated to `u32`) over four.
pub open spec fn chunk_tokens(content: Seq<char>) -> u32 {
    ((utf8_len(content) as u32) / 4) as u32
}

/// `a + b`, or `u32::MAX` when the sum does not fit.
pub open spec fn sat_add_u32(a: u32, b: u32) -> u32 {
    if a + b > u32::MAX { u32::MAX } else { (a + b) as u32 }
}

impl StreamingEngine {
    /// Error for a stream that ran past its deadline.
    pub fn timeout_error() -> (e: ProviderCallError)
        ensures
            e matches ProviderCallError::Timeout { provider_id, timeout_secs }
                && provider_id@ == "stream"@ && timeout_secs == PROVIDER_STREAM_TIMEOUT_SECS,
    {
        ProviderCallError::Timeout { provider_id: owned("stream"), timeout_secs: PROVIDER_STREAM_TIMEOUT_SECS }
    }
}

impl BoundedCollector {
    pub closed spec fn output(&self) -> Seq<char> {
        self.output@
    }

    pub closed spec fn estimate(&self) -> u32 {
        self.token_estimate
    }

    /// Nothing collected yet.
    pub fn new() -> (c: Self)
        ensures
            c.output() == Seq::<char>::empty(),
            c.estimate() == 0,
    {
        BoundedCollector { output: String::new(), token_estimate: 0 }
    }

    /// Takes one chunk: its estimated tokens are added (saturating); once the
    /// estimate passes `PROVIDER_MAX_STREAM_TOKENS` the chunk is left out and
    /// collection stops. Otherwise the chunk is appended, and collection
    /// stops after a final chunk. Returns whether to read on.
    pub fn accept(&mut self, content: &str, is_final: bool) -> (more: bool)
        ensures
            final(self).estimate() == sat_add_u32(old(self).estimate(), chunk_tokens(content@)),
            final(self).estimate() > PROVIDER_MAX_STREAM_TOKENS ==> {
                &&& !more
                &&& final(self).output() == old(self).output()
            },
            final(self).estimate() <= PROVIDER_MAX_STREAM_TOKENS ==> {
                &&& final(self).output() == old(self).output() + content@
                &&& more == !is_final
            },
    {
        let tokens = (content.len() as u32) / 4;
        self.token_estimate = self.token_estimate.saturating_add(tokens);
        if self.token_estimate > PROVIDER_MAX_STREAM_TOKENS {
            return false;
        }
        append_str(&mut self.output, content);
        !is_final
    }

    /// The collected text.
    pub fn finish(self) -> (s: String)
        ensures
            s@ == self.output(),
    {
        self.output
    }
}

} // verus!
