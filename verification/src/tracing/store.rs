//! Bounded in-process trace storage, one event buffer per run.

use vstd::prelude::*;
use crate::constants::MAX_TRACE_EVENTS_PER_RUN;
use crate::text::owned;
use super::events::TraceEventKind;
use super::types::TraceEvent;

verus! {

/// Events, drop count and completion mark of one run.
#[derive(Debug)]
struct BoundedEventBuffer {
    run_id: String,
    events: Vec<TraceEvent>,
    events_dropped: u32,
    is_complete: bool,
}

/// In-process store for workflow trace events, keyed by run id.
#[derive(Debug)]
pub struct TraceStore {
    traces: Vec<BoundedEventBuffer>,
    /// Runs in the order they were marked complete, each once.
    completion_order: Vec<String>,
    total_events_dropped: u32,
}

/// Whether some event of `events` is a storage warning.
pub open spec fn has_storage_warning(events: Seq<TraceEvent>) -> bool {
    exists|i: int| 0 <= i < events.len() && (#[trigger] events[i]).kind is TraceStorageWarning
}

/// Whether a run holding `events` stores `event`: below the per-run cap always;
/// at the cap only the first storage warning.
pub open spec fn stores_event(events: Seq<TraceEvent>, event: TraceEvent) -> bool {
    ||| events.len() < MAX_TRACE_EVENTS_PER_RUN
    ||| (event.kind is TraceStorageWarning && !has_storage_warning(events))
}

/// A run's buffer holds at most the cap, plus one storage warning.
pub open spec fn within_cap(events: Seq<TraceEvent>) -> bool {
    ||| events.len() <= MAX_TRACE_EVENTS_PER_RUN
    ||| (events.len() == MAX_TRACE_EVENTS_PER_RUN + 1 && has_storage_warning(events))
}

fn contains_storage_warning(events: &Vec<TraceEvent>) -> (b: bool)
    ensures
        b == has_storage_warning(events@),
{
    let mut i: usize = 0;
    while i < events.len()
        invariant
            i <= events.len(),
            forall|j: int| 0 <= j < i ==> !((#[trigger] events@[j]).kind is TraceStorageWarning),
        decreases events.len() - i,
    {
        if matches!(events[i].kind, TraceEventKind::TraceStorageWarning { .. }) {
            assert(events@[i as int].kind is TraceStorageWarning);
            return true;
        }
        i = i + 1;
    }
    false
}

/// Whether a run holding `events` stores an event of kind `kind`.
pub open spec fn stores_kind(events: Seq<TraceEvent>, kind: TraceEventKind) -> bool {
    ||| events.len() < MAX_TRACE_EVENTS_PER_RUN
    ||| (kind is TraceStorageWarning && !has_storage_warning(events))
}

impl TraceStore {
    /// Run ids are distinct, each run's drop count is at most the total, and
    /// each buffer stays within the cap (plus one storage warning).
    pub closed spec fn well_formed(self) -> bool {
        &&& self.ids_distinct()
        &&& forall|i: int|
            0 <= i < self.traces.len() ==> (#[trigger] self.traces[i]).events_dropped
                <= self.total_events_dropped
        &&& forall|i: int| 0 <= i < self.traces.len() ==> within_cap((#[trigger] self.traces[i]).events@)
        &&& self.completion_consistent()
    }

    closed spec fn ids_distinct(self) -> bool {
        forall|i: int, j: int|
            0 <= i < j < self.traces.len() ==> (#[trigger] self.traces[i]).run_id@
                != (#[trigger] self.traces[j]).run_id@
    }

    /// The completion order names each run at most once, and only runs whose
    /// buffer is marked complete.
    closed spec fn completion_consistent(self) -> bool {
        &&& forall|i: int, j: int|
            0 <= i < j < self.completion_order.len() ==> (#[trigger] self.completion_order[i])@
                != (#[trigger] self.completion_order[j])@
        &&& forall|i: int|
            0 <= i < self.completion_order.len() ==> exists|k: int|
                0 <= k < self.traces.len() && (#[trigger] self.traces[k]).run_id@
                    == (#[trigger] self.completion_order[i])@ && self.traces[k].is_complete
    }

    /// Whether a buffer exists for `run`.
    pub closed spec fn has_run(self, run: Seq<char>) -> bool {
        exists|i: int| 0 <= i < self.traces.len() && (#[trigger] self.traces[i]).run_id@ == run
    }

    closed spec fn slot(self, run: Seq<char>) -> int {
        choose|i: int| 0 <= i < self.traces.len() && (#[trigger] self.traces[i]).run_id@ == run
    }

    /// Events stored for `run`, in append order (empty when the run is unknown).
    pub closed spec fn events_for(self, run: Seq<char>) -> Seq<TraceEvent> {
        if self.has_run(run) {
            self.traces[self.slot(run)].events@
        } else {
            Seq::empty()
        }
    }

    /// Events refused for `run` because its buffer was full.
    pub closed spec fn dropped_for(self, run: Seq<char>) -> u32 {
        if self.has_run(run) {
            self.traces[self.slot(run)].events_dropped
        } else {
            0
        }
    }

    /// Events refused over all runs.
    pub closed spec fn total_dropped(self) -> u32 {
        self.total_events_dropped
    }

    /// Whether `run` has a buffer marked complete.
    pub closed spec fn is_marked_complete(self, run: Seq<char>) -> bool {
        self.has_run(run) && self.traces[self.slot(run)].is_complete
    }

    /// Runs in the order they were marked complete.
    pub closed spec fn completion_order(self) -> Seq<Seq<char>> {
        self.completion_order@.map_values(|r: String| r@)
    }

    proof fn lemma_slot(self, run: Seq<char>, i: int)
        requires
            self.ids_distinct(),
            0 <= i < self.traces.len(),
            self.traces[i].run_id@ == run,
        ensures
            self.has_run(run),
            self.slot(run) == i,
            self.events_for(run) == self.traces[i].events@,
            self.dropped_for(run) == self.traces[i].events_dropped,
    {
        let k = self.slot(run);
        assert(self.traces[k].run_id@ == run);
        if k < i {
            assert(self.traces[k].run_id@ != self.traces[i].run_id@);
        } else if i < k {
            assert(self.traces[i].run_id@ != self.traces[k].run_id@);
        }
    }

    /// Creates an empty store.
    pub fn new() -> (s: Self)
        ensures
            forall|run: Seq<char>| !s.has_run(run),
            forall|run: Seq<char>| s.events_for(run) == Seq::<TraceEvent>::empty(),
            forall|run: Seq<char>| s.dropped_for(run) == 0,
            s.total_dropped() == 0,
            s.well_formed(),
    {
        TraceStore { traces: Vec::new(), completion_order: Vec::new(), total_events_dropped: 0 }
    }

    fn find(&self, run_id: &str) -> (r: Option<usize>)
        requires
            self.well_formed(),
        ensures
            r matches Some(i) ==> i < self.traces.len() && self.traces[i as int].run_id@ == run_id@,
            r is None ==> !self.has_run(run_id@),
    {
        let key = owned(run_id);
        let mut i: usize = 0;
        while i < self.traces.len()
            invariant
                i <= self.traces.len(),
                key@ == run_id@,
                forall|j: int| 0 <= j < i ==> (#[trigger] self.traces[j]).run_id@ != run_id@,
            decreases self.traces.len() - i,
        {
            if self.traces[i].run_id == key {
                return Some(i);
            }
            i = i + 1;
        }
        None
    }

    /// Ids of the runs holding a buffer, each once, in the order their
    /// buffers were created.
    pub fn run_ids(&self) -> (r: Vec<String>)
        requires
            self.well_formed(),
        ensures
            forall|run: Seq<char>| self.has_run(run) <==> exists|i: int| 0 <= i < r@.len() && (#[trigger] r@[i])@ == run,
            forall|i: int, j: int| 0 <= i < j < r@.len() ==> (#[trigger] r@[i])@ != (#[trigger] r@[j])@,
    {
        let mut out: Vec<String> = Vec::new();
        let mut i: usize = 0;
        while i < self.traces.len()
            invariant
                i <= self.traces.len(),
                out@.len() == i,
                self.well_formed(),
                forall|j: int| 0 <= j < i ==> (#[trigger] out@[j])@ == self.traces[j].run_id@,
            decreases self.traces.len() - i,
        {
            out.push(self.traces[i].run_id.clone());
            i = i + 1;
        }
        assert forall|run: Seq<char>| self.has_run(run) implies exists|i: int| 0 <= i < out@.len() && (#[trigger] out@[i])@ == run by {
            let k = choose|k: int| 0 <= k < self.traces.len() && (#[trigger] self.traces[k]).run_id@ == run;
            assert(out@[k]@ == run);
        };
        assert forall|run: Seq<char>| (exists|i: int| 0 <= i < out@.len() && (#[trigger] out@[i])@ == run) implies self.has_run(run) by {
            let k = choose|k: int| 0 <= k < out@.len() && (#[trigger] out@[k])@ == run;
            assert(self.traces[k].run_id@ == run);
        };
        out
    }

    /// Events for a run in emission order, or `None` for an unknown run.
    pub fn get_events(&self, run_id: &str) -> (r: Option<&[TraceEvent]>)
        requires
            self.well_formed(),
        ensures
            r is Some == self.has_run(run_id@),
            r matches Some(events) ==> events@ == self.events_for(run_id@),
    {
        match self.find(run_id) {
            Some(i) => {
                proof { self.lemma_slot(run_id@, i as int); }
                Some(self.traces[i].events.as_slice())
            },
            None => None,
        }
    }

    /// Events refused for a run because its buffer was full (0 for an unknown run).
    pub fn events_dropped_for_run(&self, run_id: &str) -> (n: u32)
        requires
            self.well_formed(),
        ensures
            n == self.dropped_for(run_id@),
    {
        match self.find(run_id) {
            Some(i) => {
                proof { self.lemma_slot(run_id@, i as int); }
                self.traces[i].events_dropped
            },
            None => 0,
        }
    }

    /// Whether the store can count two more refused events without overflow.
    pub fn can_record_drop_twice(&self) -> (b: bool)
        ensures
            b == (self.total_dropped() < u32::MAX - 1),
    {
        self.total_events_dropped < u32::MAX - 1
    }

    /// Whether the store can count one more refused event without overflow.
    pub fn can_record_drop(&self) -> (b: bool)
        ensures
            b == (self.total_dropped() < u32::MAX),
    {
        self.total_events_dropped < u32::MAX
    }

    /// Appends `event` to the buffer of `run_id` (creating it if needed) and
    /// returns true; at the per-run cap only a first storage warning is still
    /// stored, and any other event is counted as dropped and false is returned.
    pub fn append(&mut self, run_id: &str, event: TraceEvent) -> (stored: bool)
        requires
            old(self).well_formed(),
            old(self).total_dropped() < u32::MAX,
        ensures
            final(self).well_formed(),
            stored == stores_event(old(self).events_for(run_id@), event),
            final(self).has_run(run_id@),
            final(self).events_for(run_id@) == (if stored {
                old(self).events_for(run_id@).push(event)
            } else {
                old(self).events_for(run_id@)
            }),
            final(self).dropped_for(run_id@) == old(self).dropped_for(run_id@) + (if stored { 0int } else { 1int }),
            final(self).total_dropped() == old(self).total_dropped() + (if stored { 0int } else { 1int }),
            forall|run: Seq<char>| run != run_id@ ==> {
                &&& final(self).has_run(run) == old(self).has_run(run)
                &&& final(self).events_for(run) == old(self).events_for(run)
                &&& final(self).dropped_for(run) == old(self).dropped_for(run)
            },
            forall|run: Seq<char>| #[trigger] final(self).is_marked_complete(run) == old(self).is_marked_complete(run),
            final(self).completion_order() == old(self).completion_order(),
    {
        let ghost old_store = *self;
        let idx = match self.find(run_id) {
            Some(i) => i,
            None => {
                self.traces.push(BoundedEventBuffer {
                    run_id: owned(run_id),
                    events: Vec::new(),
                    events_dropped: 0,
                    is_complete: false,
                });
                assert forall|run: Seq<char>| run != run_id@ implies {
                    &&& self.has_run(run) == old_store.has_run(run)
                    &&& self.events_for(run) == old_store.events_for(run)
                    &&& self.dropped_for(run) == old_store.dropped_for(run)
                    &&& self.is_marked_complete(run) == old_store.is_marked_complete(run)
                } by {
                    if old_store.has_run(run) {
                        let k = old_store.slot(run);
                        old_store.lemma_slot(run, k);
                        self.lemma_slot(run, k);
                    }
                    if self.has_run(run) {
                        let k = self.slot(run);
                        assert(k < old_store.traces.len());
                        assert(old_store.traces[k] == self.traces[k]);
                    }
                };
                self.traces.len() - 1
            },
        };
        let ghost mid = *self;
        proof {
            mid.lemma_slot(run_id@, idx as int);
        }
        let at_cap = self.traces[idx].events.len() >= MAX_TRACE_EVENTS_PER_RUN as usize;
        let stored = if at_cap {
            let is_warning = matches!(event.kind, TraceEventKind::TraceStorageWarning { .. });
            is_warning && !contains_storage_warning(&self.traces[idx].events)
        } else {
            true
        };
        if stored {
            let ghost before = self.traces[idx as int].events@;
            self.traces[idx].events.push(event);
            proof {
                if at_cap {
                    assert(self.traces[idx as int].events@[before.len() as int].kind is TraceStorageWarning);
                }
            }
        } else {
            self.total_events_dropped = self.total_events_dropped + 1;
            self.traces[idx].events_dropped = self.traces[idx].events_dropped + 1;
        }
        proof {
            self.lemma_slot(run_id@, idx as int);
            assert forall|run: Seq<char>| run != run_id@ implies {
                &&& self.has_run(run) == mid.has_run(run)
                &&& self.events_for(run) == mid.events_for(run)
                &&& self.dropped_for(run) == mid.dropped_for(run)
                &&& self.is_marked_complete(run) == mid.is_marked_complete(run)
            } by {
                if mid.has_run(run) {
                    let k = mid.slot(run);
                    mid.lemma_slot(run, k);
                    self.lemma_slot(run, k);
                }
                if self.has_run(run) {
                    let k = self.slot(run);
                    self.lemma_slot(run, k);
                    mid.lemma_slot(run, k);
                }
            };
            assert forall|i: int| 0 <= i < self.completion_order.len() implies exists|k: int|
                0 <= k < self.traces.len() && (#[trigger] self.traces[k]).run_id@
                    == (#[trigger] self.completion_order[i])@ && self.traces[k].is_complete by {
                let k = choose|k: int|
                    0 <= k < old_store.traces.len() && (#[trigger] old_store.traces[k]).run_id@
                        == old_store.completion_order[i]@ && old_store.traces[k].is_complete;
                assert(mid.traces[k] == old_store.traces[k]);
                assert(self.traces[k].run_id == mid.traces[k].run_id);
                assert(self.traces[k].is_complete == mid.traces[k].is_complete);
            };
        }
        stored
    }

    /// Every run keeps at most the per-run cap of events, plus one storage
    /// warning, and refuses no more events than the store does in total.
    pub proof fn law_bounded_per_run(self, run: Seq<char>)
        requires
            self.well_formed(),
        ensures
            within_cap(self.events_for(run)),
            self.events_for(run).len() <= MAX_TRACE_EVENTS_PER_RUN + 1,
            self.dropped_for(run) <= self.total_dropped(),
    {
        if self.has_run(run) {
            let k = self.slot(run);
            self.lemma_slot(run, k);
        }
    }

    /// The completion order names each run at most once, and every run it
    /// names is marked complete.
    pub proof fn law_completion_order(self)
        requires
            self.well_formed(),
        ensures
            forall|i: int, j: int|
                0 <= i < j < self.completion_order().len() ==> (#[trigger] self.completion_order()[i])
                    != (#[trigger] self.completion_order()[j]),
            forall|i: int|
                0 <= i < self.completion_order().len() ==> self.is_marked_complete(
                    #[trigger] self.completion_order()[i],
                ),
    {
        assert forall|i: int, j: int|
            0 <= i < j < self.completion_order().len() implies (#[trigger] self.completion_order()[i])
                != (#[trigger] self.completion_order()[j]) by {
            assert(self.completion_order@[i]@ != self.completion_order@[j]@);
        };
        assert forall|i: int| 0 <= i < self.completion_order().len() implies self.is_marked_complete(
            #[trigger] self.completion_order()[i],
        ) by {
            let run = self.completion_order@[i]@;
            let k = choose|k: int|
                0 <= k < self.traces.len() && (#[trigger] self.traces[k]).run_id@
                    == self.completion_order@[i]@ && self.traces[k].is_complete;
            self.lemma_slot(run, k);
        };
    }

    fn order_contains(&self, run_id: &str) -> (b: bool)
        ensures
            b == self.completion_order().contains(run_id@),
    {
        let key = owned(run_id);
        let mut i: usize = 0;
        while i < self.completion_order.len()
            invariant
                i <= self.completion_order@.len(),
                key@ == run_id@,
                forall|j: int| 0 <= j < i ==> (#[trigger] self.completion_order@[j])@ != run_id@,
            decreases self.completion_order.len() - i,
        {
            if self.completion_order[i] == key {
                assert(self.completion_order()[i as int] == run_id@);
                return true;
            }
            i = i + 1;
        }
        proof {
            if self.completion_order().contains(run_id@) {
                let k = self.completion_order().index_of(run_id@);
                assert(self.completion_order@[k]@ == run_id@);
            }
        }
        false
    }

    /// Marks the trace of `run_id` complete and records it, once, at the end
    /// of the completion order; nothing happens for an unknown run. Events,
    /// drop counts and the other runs' marks are unchanged.
    pub fn mark_complete(&mut self, run_id: &str)
        requires
            old(self).well_formed(),
        ensures
            final(self).well_formed(),
            final(self).total_dropped() == old(self).total_dropped(),
            forall|run: Seq<char>| {
                &&& #[trigger] final(self).has_run(run) == old(self).has_run(run)
                &&& final(self).events_for(run) == old(self).events_for(run)
                &&& final(self).dropped_for(run) == old(self).dropped_for(run)
            },
            forall|run: Seq<char>| run != run_id@ ==> #[trigger] final(self).is_marked_complete(run)
                == old(self).is_marked_complete(run),
            final(self).is_marked_complete(run_id@) == old(self).has_run(run_id@),
            final(self).completion_order() == (if old(self).has_run(run_id@) && !old(self).completion_order().contains(run_id@) {
                old(self).completion_order().push(run_id@)
            } else {
                old(self).completion_order()
            }),
    {
        let ghost before = *self;
        match self.find(run_id) {
            Some(i) => {
                proof { before.lemma_slot(run_id@, i as int); }
                self.traces[i].is_complete = true;
                if !self.order_contains(run_id) {
                    let ghost mid = self.completion_order();
                    self.completion_order.push(owned(run_id));
                    assert(self.completion_order() =~= mid.push(run_id@));
                    proof {
                        let n = self.completion_order.len() - 1;
                        assert forall|a: int| 0 <= a < n implies (#[trigger] self.completion_order[a])@ != run_id@ by {
                            assert(mid[a] == self.completion_order[a]@);
                        };
                    }
                }
                proof {
                    assert forall|a: int| 0 <= a < self.completion_order.len() implies exists|k: int|
                        0 <= k < self.traces.len() && (#[trigger] self.traces[k]).run_id@
                            == (#[trigger] self.completion_order[a])@ && self.traces[k].is_complete by {
                        if self.completion_order[a]@ == run_id@ {
                            assert(self.traces[i as int].run_id@ == run_id@);
                        } else {
                            let k = choose|k: int|
                                0 <= k < before.traces.len() && (#[trigger] before.traces[k]).run_id@
                                    == before.completion_order[a]@ && before.traces[k].is_complete;
                            assert(self.traces[k].run_id == before.traces[k].run_id);
                        }
                    };
                    self.lemma_slot(run_id@, i as int);
                    assert forall|run: Seq<char>| {
                        &&& #[trigger] self.has_run(run) == before.has_run(run)
                        &&& self.events_for(run) == before.events_for(run)
                        &&& self.dropped_for(run) == before.dropped_for(run)
                        &&& (run != run_id@ ==> self.is_marked_complete(run) == before.is_marked_complete(run))
                    } by {
                        if before.has_run(run) {
                            let k = before.slot(run);
                            before.lemma_slot(run, k);
                            self.lemma_slot(run, k);
                        }
                        if self.has_run(run) {
                            let k = self.slot(run);
                            self.lemma_slot(run, k);
                            before.lemma_slot(run, k);
                        }
                    };
                }
            },
            None => {},
        }
    }

    /// Whether the trace of `run_id` has been marked complete.
    pub fn is_complete(&self, run_id: &str) -> (b: bool)
        requires
            self.well_formed(),
        ensures
            b == self.is_marked_complete(run_id@),
    {
        match self.find(run_id) {
            Some(i) => {
                proof { self.lemma_slot(run_id@, i as int); }
                self.traces[i].is_complete
            },
            None => false,
        }
    }

    /// Ids of the completed runs, in the order they were marked complete.
    pub fn completed_runs(&self) -> (r: Vec<String>)
        ensures
            r@.map_values(|s: String| s@) == self.completion_order(),
    {
        let mut out: Vec<String> = Vec::new();
        let mut i: usize = 0;
        while i < self.completion_order.len()
            invariant
                i <= self.completion_order@.len(),
                out@.len() == i,
                forall|j: int| 0 <= j < i ==> (#[trigger] out@[j])@ == self.completion_order@[j]@,
            decreases self.completion_order.len() - i,
        {
            out.push(self.completion_order[i].clone());
            i = i + 1;
        }
        assert(out@.map_values(|s: String| s@) =~= self.completion_order());
        out
    }
}

} // verus!
