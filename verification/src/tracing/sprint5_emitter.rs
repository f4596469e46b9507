//! Synchronous trace emitter bound to one run and one store.

use vstd::prelude::*;
use crate::clock::{utc_now, UtcTimestamp};
use crate::constants::MAX_TRACE_EVENTS_PER_RUN;
use super::events::TraceEventKind;
use super::store::{stores_event, stores_kind, TraceStore};
use super::types::TraceEvent;

verus! {

/// Emits structured events into a bounded [`TraceStore`] it holds until
/// handed back by [`TraceEventEmitter::into_store`].
pub struct TraceEventEmitter {
    trace_id: String,
    store: TraceStore,
    sequence: u64,
}

/// Whether `e` is an event of run `run` with sequence number `seq` and kind `kind`.
pub open spec fn is_event(e: TraceEvent, run: Seq<char>, seq: u64, kind: TraceEventKind) -> bool {
    &&& e.trace_id@ == run
    &&& e.sequence == seq
    &&& e.kind == kind
}

/// Whether `kind` is the storage warning for run `run` after `dropped` refused events.
pub open spec fn is_storage_warning(kind: TraceEventKind, run: Seq<char>, dropped: u32) -> bool {
    &&& kind matches TraceEventKind::TraceStorageWarning { run_id, events_dropped, capacity_limit }
    &&& run_id@ == run
    &&& events_dropped == dropped
    &&& capacity_limit == MAX_TRACE_EVENTS_PER_RUN
}

/// What one `emit` of `kind` does to run `run`: from sequence `seq0` and store
/// `store0` it leads to sequence `seq1` and store `store1`. A stored event gets
/// `seq0`; a refused one is followed by a storage warning under `seq0 + 1`.
/// The run then has a buffer, the store's drop total grows by the run's new
/// drops, and other runs are untouched.
pub open spec fn emits(
    run: Seq<char>,
    seq0: u64,
    store0: TraceStore,
    seq1: u64,
    store1: TraceStore,
    kind: TraceEventKind,
) -> bool {
    let before = store0.events_for(run);
    let after = store1.events_for(run);
    let dropped = store0.dropped_for(run);
    &&& if stores_kind(before, kind) {
        &&& seq1 == seq0 + 1
        &&& after.len() == before.len() + 1
        &&& after.drop_last() =~= before
        &&& is_event(after.last(), run, seq0, kind)
        &&& store1.dropped_for(run) == dropped
    } else {
        &&& seq1 == seq0 + 2
        &&& if has_warning_room(before) {
            &&& store1.dropped_for(run) == dropped + 1
            &&& after.len() == before.len() + 1
            &&& after.drop_last() =~= before
            &&& after.last().trace_id@ == run
            &&& after.last().sequence == seq0 + 1
            &&& is_storage_warning(after.last().kind, run, (dropped + 1) as u32)
        } else {
            &&& store1.dropped_for(run) == dropped + 2
            &&& after =~= before
        }
    }
    &&& store1.has_run(run)
    &&& store1.total_dropped() == store0.total_dropped() + (store1.dropped_for(run) - dropped)
    &&& forall|other: Seq<char>| other != run ==> {
        &&& store1.has_run(other) == store0.has_run(other)
        &&& store1.events_for(other) =~= store0.events_for(other)
        &&& store1.dropped_for(other) == store0.dropped_for(other)
    }
}

/// Whether `e1` is `e0` after one `emit` of `kind`.
pub open spec fn emitted(e0: TraceEventEmitter, e1: TraceEventEmitter, kind: TraceEventKind) -> bool {
    &&& e1.run() == e0.run()
    &&& emits(e0.run(), e0.next_seq(), e0.current_store(), e1.next_seq(), e1.current_store(), kind)
}

/// Whether a full buffer holding `events` still takes a storage warning.
pub open spec fn has_warning_room(events: Seq<TraceEvent>) -> bool {
    !super::store::has_storage_warning(events)
}

impl TraceEventEmitter {
    /// Run id this emitter writes under.
    pub closed spec fn run(&self) -> Seq<char> {
        self.trace_id@
    }

    /// Sequence number the next event will carry.
    pub closed spec fn next_seq(&self) -> u64 {
        self.sequence
    }

    /// The store as it stands now.
    pub closed spec fn current_store(&self) -> TraceStore {
        self.store
    }

    /// Binds an emitter to a run and store, starting at sequence 0.
    pub fn new(trace_id: String, store: TraceStore) -> (e: Self)
        ensures
            e.run() == trace_id@,
            e.next_seq() == 0,
            e.current_store() == store,
    {
        TraceEventEmitter { trace_id, store, sequence: 0 }
    }

    /// Hands back the store with every event emitted so far.
    pub fn into_store(self) -> (s: TraceStore)
        ensures
            s == self.current_store(),
    {
        self.store
    }

    /// Emits `kind` under the next sequence number. When the run's buffer
    /// refuses it, a storage warning carrying the run's drop count follows
    /// under the sequence number after that (and is itself stored only if the
    /// run holds no warning yet). Never panics.
    pub fn emit(&mut self, kind: TraceEventKind)
        requires
            old(self).emit_ready(),
        ensures
            final(self).run() == old(self).run(),
            final(self).current_store().well_formed(),
            emits(
                old(self).run(),
                old(self).next_seq(),
                old(self).current_store(),
                final(self).next_seq(),
                final(self).current_store(),
                kind,
            ),
    {
        let ghost before = self.current_store().events_for(self.run());
        let sequence = self.next_sequence();
        let event = TraceEvent::new(self.trace_id.clone(), sequence, kind);
        assert(stores_event(before, event) == stores_kind(before, kind));
        let first_stored = self.store.append(self.trace_id.as_str(), event);
        if !first_stored {
            let dropped = self.store.events_dropped_for_run(self.trace_id.as_str());
            let warning_sequence = self.next_sequence();
            let warning = TraceEvent::new(
                self.trace_id.clone(),
                warning_sequence,
                TraceEventKind::TraceStorageWarning {
                    run_id: self.trace_id.clone(),
                    events_dropped: dropped,
                    capacity_limit: MAX_TRACE_EVENTS_PER_RUN,
                },
            );
            assert(stores_event(before, warning) == has_warning_room(before));
            let _ = self.store.append(self.trace_id.as_str(), warning);
        }
    }

    /// Whether one more `emit` is within the counters' range.
    pub open spec fn emit_ready(&self) -> bool {
        &&& self.current_store().well_formed()
        &&& self.current_store().total_dropped() < u32::MAX - 1
        &&& self.next_seq() < u64::MAX - 1
    }

    /// Checks `emit_ready`.
    pub fn can_emit(&self) -> (b: bool)
        requires
            self.current_store().well_formed(),
        ensures
            b == self.emit_ready(),
    {
        self.store.can_record_drop_twice() && self.sequence < u64::MAX - 1
    }

    /// Takes the next sequence number.
    fn next_sequence(&mut self) -> (seq: u64)
        requires
            old(self).next_seq() < u64::MAX,
        ensures
            seq == old(self).next_seq(),
            final(self).next_seq() == seq + 1,
            final(self).run() == old(self).run(),
            final(self).current_store() == old(self).current_store(),
    {
        let seq = self.sequence;
        self.sequence = self.sequence + 1;
        seq
    }

    /// Run id this emitter writes under.
    pub fn trace_id(&self) -> (r: &str)
        ensures
            r@ == self.run(),
    {
        self.trace_id.as_str()
    }
}


/// Sequence numbers strictly increase along `events`, and all are below `bound`.
pub open spec fn sequenced_below(events: Seq<TraceEvent>, bound: u64) -> bool {
    &&& forall|i: int, j: int| 0 <= i < j < events.len() ==> (#[trigger] events[i]).sequence < (#[trigger] events[j]).sequence
    &&& forall|i: int| 0 <= i < events.len() ==> (#[trigger] events[i]).sequence < bound
}

/// An emitter keeps its run's stored events in strictly increasing sequence
/// order, all below the next sequence number it will hand out: if that held
/// before an `emit`, it holds after it.
pub proof fn law_sequence_increases(
    run: Seq<char>,
    seq0: u64,
    store0: TraceStore,
    seq1: u64,
    store1: TraceStore,
    kind: TraceEventKind,
)
    requires
        emits(run, seq0, store0, seq1, store1, kind),
        sequenced_below(store0.events_for(run), seq0),
    ensures
        sequenced_below(store1.events_for(run), seq1),
{
    let before = store0.events_for(run);
    let after = store1.events_for(run);
    if after.len() == before.len() + 1 {
        assert forall|i: int| 0 <= i < before.len() implies #[trigger] after[i] == before[i] by {
            assert(after.drop_last()[i] == after[i]);
        };
    }
}

} // verus!
