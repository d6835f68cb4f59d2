//! An in-memory trace store: every event is kept, and a trace replays in append order.
use vstd::prelude::*;
use crate::application::AppError;
use crate::domain::event::EventEnvelope;
use crate::ids::TraceId;

verus! {

/// The events of `events` that belong to the trace named `trace`, in append order.
pub open spec fn trace_of(events: Seq<EventEnvelope>, trace: Seq<char>) -> Seq<EventEnvelope> {
    events.filter(in_trace(trace))
}

/// Whether an event belongs to the trace named `trace`.
pub open spec fn in_trace(trace: Seq<char>) -> spec_fn(EventEnvelope) -> bool {
    |e: EventEnvelope| e.trace_id@ == trace
}

/// Durable storage of events, replayable per trace.
pub trait TraceStore {
    fn append(&mut self, event: EventEnvelope) -> Result<(), AppError>;

    fn replay(&self, trace_id: TraceId) -> Result<Vec<&EventEnvelope>, AppError>;
}

/// A trace store that keeps every appended event in memory.
#[derive(Debug)]
pub struct InMemoryTraceStore {
    events: Vec<EventEnvelope>,
}

impl View for InMemoryTraceStore {
    type V = Seq<EventEnvelope>;

    closed spec fn view(&self) -> Seq<EventEnvelope> {
        self.events@
    }
}

impl InMemoryTraceStore {
    pub fn new() -> (s: Self)
        ensures
            s@ == Seq::<EventEnvelope>::empty(),
    {
        InMemoryTraceStore { events: Vec::new() }
    }

    /// The number of events appended so far.
    pub fn len(&self) -> (r: Result<usize, AppError>)
        ensures
            r matches Ok(n) && n == self@.len(),
    {
        Ok(self.events.len())
    }
}

impl Default for InMemoryTraceStore {
    fn default() -> (s: Self)
        ensures
            s@ == Seq::<EventEnvelope>::empty(),
    {
        InMemoryTraceStore::new()
    }
}

impl TraceStore for InMemoryTraceStore {
    /// Records `event` after all earlier ones.
    fn append(&mut self, event: EventEnvelope) -> (r: Result<(), AppError>)
        ensures
            r is Ok,
            final(self)@ == old(self)@.push(event),
    {
        self.events.push(event);
        Ok(())
    }

    /// The appended events of trace `trace_id`, in append order.
    fn replay(&self, trace_id: TraceId) -> (r: Result<Vec<&EventEnvelope>, AppError>)
        ensures
            r matches Ok(v) && v@.len() == trace_of(self@, trace_id@).len()
                && forall|k: int| 0 <= k < v@.len() ==> *(#[trigger] v@[k]) == trace_of(self@, trace_id@)[k],
    {
        let ghost pred = in_trace(trace_id@);
        let mut v: Vec<&EventEnvelope> = Vec::new();
        let mut i: usize = 0;
        while i < self.events.len()
            invariant
                i <= self.events@.len(),
                pred == in_trace(trace_id@),
                v@.len() == self.events@.take(i as int).filter(pred).len(),
                forall|k: int| 0 <= k < v@.len() ==> *(#[trigger] v@[k]) == self.events@.take(i as int).filter(pred)[k],
            decreases self.events.len() - i,
        {
            proof {
                reveal_with_fuel(Seq::<_>::filter, 1);
                assert(self.events@.take(i + 1).drop_last() =~= self.events@.take(i as int));
                assert(self.events@.take(i + 1).last() == self.events@[i as int]);
            }
            let e = &self.events[i];
            if e.trace_id.same_as(&trace_id) {
                v.push(e);
            }
            i = i + 1;
        }
        proof {
            assert(self.events@.take(self.events@.len() as int) =~= self.events@);
        }
        Ok(v)
    }
}

/// Read-after-write law of the trace store: after appending `e`, replaying a trace gives
/// what it gave before, followed by `e` exactly when `e` belongs to that trace.
pub proof fn lemma_replay_after_append(events: Seq<EventEnvelope>, e: EventEnvelope, trace: Seq<char>)
    ensures
        trace_of(events.push(e), trace) == if e.trace_id@ == trace {
            trace_of(events, trace).push(e)
        } else {
            trace_of(events, trace)
        },
{
    reveal_with_fuel(Seq::<_>::filter, 1);
    assert(events.push(e).drop_last() =~= events);
}

/// A replay holds only events of its own trace, each of them appended earlier.
pub proof fn lemma_replay_only_own_trace(events: Seq<EventEnvelope>, trace: Seq<char>, k: int)
    requires
        0 <= k < trace_of(events, trace).len(),
    ensures
        trace_of(events, trace)[k].trace_id@ == trace,
        events.contains(trace_of(events, trace)[k]),
{
    let pred = in_trace(trace);
    events.lemma_filter_pred(pred, k);
    assert(trace_of(events, trace).contains(trace_of(events, trace)[k]));
    events.lemma_filter_contains_rev(pred, trace_of(events, trace)[k]);
}

} // verus!
