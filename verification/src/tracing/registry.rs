//! Looking up a run's assembled trace in a trace store.

use vstd::prelude::*;
use crate::clock::UtcTimestamp;
use super::builder::{buildable, is_built, ExecutionTraceBuilder};
use super::store::TraceStore;
use super::types::{ExecutionTrace, TraceEvent};

verus! {

/// Why a trace lookup could not read the shared store.
#[derive(Debug, Clone, Copy, PartialEq, Eq, Structural)]
pub enum TraceLookupError {
    StoreLockFailed,
}

/// Whether a trace can be assembled from `events` (the step token sums the
/// run total may need fit in `u32`).
pub fn is_buildable(events: &[TraceEvent]) -> (r: bool)
    ensures
        r == buildable(events@),
{
    let epoch = UtcTimestamp { secs: 0, nanos: 0 };
    ExecutionTraceBuilder::try_build_at("", events, 0, epoch).is_some()
}

/// The assembled trace of `run_id` with its drop count, or `None` when the
/// store holds no buffer for it.
pub fn execution_trace_for(store: &TraceStore, run_id: &str) -> (r: Option<ExecutionTrace>)
    requires
        store.well_formed(),
        store.has_run(run_id@) ==> buildable(store.events_for(run_id@)),
    ensures
        r is Some == store.has_run(run_id@),
        r matches Some(trace) ==> exists|now: UtcTimestamp|
            is_built(trace, run_id@, store.events_for(run_id@), store.dropped_for(run_id@), now),
{
    match store.get_events(run_id) {
        Some(events) => {
            let dropped = store.events_dropped_for_run(run_id);
            Some(ExecutionTraceBuilder::build(run_id, events, dropped))
        },
        None => None,
    }
}

/// The trace of `run_id` assembled from persisted `events` (nothing was
/// dropped), or `None` when no event was persisted.
pub fn trace_from_persisted(run_id: &str, events: &[TraceEvent]) -> (r: Option<ExecutionTrace>)
    requires
        buildable(events@),
    ensures
        r is None == (events@.len() == 0),
        r matches Some(trace) ==> exists|now: UtcTimestamp| is_built(trace, run_id@, events@, 0, now),
{
    if events.len() == 0 {
        None
    } else {
        Some(ExecutionTraceBuilder::build(run_id, events, 0))
    }
}

} // verus!
