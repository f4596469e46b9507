//! Outcome of a run whose stream events were forwarded to a polling consumer.

use vstd::prelude::*;

verus! {

/// Outcome of a bridged workflow run.
pub struct StreamRunOutcome<R> {
    pub result: R,
}

} // verus!
