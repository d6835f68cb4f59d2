//! An in-memory publish/subscribe bus keyed by topic.
use vstd::prelude::*;
use crate::application::AppError;
use crate::domain::event::{topic_matches, EventEnvelope, Topic};

verus! {

/// The events of `events` whose topic `filter` selects, in publication order.
pub open spec fn selected(events: Seq<EventEnvelope>, filter: Seq<char>) -> Seq<EventEnvelope> {
    events.filter(|e: EventEnvelope| topic_matches(e.topic@, filter))
}

/// A bus: publishing records an event; subscribing reads a snapshot of the matching ones.
pub trait AgenticEventBus {
    fn publish(&mut self, event: EventEnvelope) -> Result<(), AppError>;

    fn subscribe(&self, topic: Topic) -> Result<Vec<&EventEnvelope>, AppError>;
}

/// A bus that keeps every published event in memory.
#[derive(Debug)]
pub struct InMemoryEventBus {
    events: Vec<EventEnvelope>,
}

impl View for InMemoryEventBus {
    type V = Seq<EventEnvelope>;

    closed spec fn view(&self) -> Seq<EventEnvelope> {
        self.events@
    }
}

impl InMemoryEventBus {
    pub fn new() -> (b: Self)
        ensures
            b@ == Seq::<EventEnvelope>::empty(),
    {
        InMemoryEventBus { events: Vec::new() }
    }

    /// The number of events published so far.
    pub fn len(&self) -> (r: Result<usize, AppError>)
        ensures
            r matches Ok(n) && n == self@.len(),
    {
        Ok(self.events.len())
    }
}

impl Default for InMemoryEventBus {
    fn default() -> (b: Self)
        ensures
            b@ == Seq::<EventEnvelope>::empty(),
    {
        InMemoryEventBus::new()
    }
}

impl AgenticEventBus for InMemoryEventBus {
    /// Records `event` after all earlier ones.
    fn publish(&mut self, event: EventEnvelope) -> (r: Result<(), AppError>)
        ensures
            r is Ok,
            final(self)@ == old(self)@.push(event),
    {
        self.events.push(event);
        Ok(())
    }

    /// The published events that `topic` selects, in publication order.
    fn subscribe(&self, topic: Topic) -> (r: Result<Vec<&EventEnvelope>, AppError>)
        ensures
            r matches Ok(v) && v@.len() == selected(self@, topic@).len()
                && forall|k: int| 0 <= k < v@.len() ==> *(#[trigger] v@[k]) == selected(self@, topic@)[k],
    {
        let ghost pred = |e: EventEnvelope| topic_matches(e.topic@, topic@);
        let mut v: Vec<&EventEnvelope> = Vec::new();
        let mut i: usize = 0;
        while i < self.events.len()
            invariant
                i <= self.events@.len(),
                pred == (|e: EventEnvelope| topic_matches(e.topic@, topic@)),
                v@.len() == self.events@.take(i as int).filter(pred).len(),
                forall|k: int| 0 <= k < v@.len() ==> *(#[trigger] v@[k]) == self.events@.take(i as int).filter(pred)[k],
            decreases self.events.len() - i,
        {
            proof {
                reveal_with_fuel(Seq::<_>::filter, 1);
                assert(self.events@.take(i + 1).drop_last() =~= self.events@.take(i as int));
                assert(self.events@.take(i + 1).last() == self.events@[i as int]);
            }
            let e = &self.events[i];
            if e.topic.matches(&topic) {
                v.push(e);
            }
            i = i + 1;
        }
        proof {
            assert(self.events@.take(self.events@.len() as int) =~= self.events@);
        }
        Ok(v)
    }
}

/// Read-after-write law of the bus: after publishing `e`, a subscription selects what it
/// selected before, followed by `e` exactly when the subscription's filter selects `e`'s
/// topic.
pub proof fn lemma_subscribe_after_publish(events: Seq<EventEnvelope>, e: EventEnvelope, filter: Seq<char>)
    ensures
        selected(events.push(e), filter) == if topic_matches(e.topic@, filter) {
            selected(events, filter).push(e)
        } else {
            selected(events, filter)
        },
{
    reveal_with_fuel(Seq::<_>::filter, 1);
    assert(events.push(e).drop_last() =~= events);
}

/// The wildcard filter `*` selects every published event.
pub proof fn lemma_wildcard_selects_everything(events: Seq<EventEnvelope>)
    ensures
        selected(events, seq!['*']) == events,
    decreases events.len(),
{
    reveal_with_fuel(Seq::<_>::filter, 1);
    if events.len() > 0 {
        lemma_wildcard_selects_everything(events.drop_last());
        assert(events.drop_last().push(events.last()) =~= events);
    } else {
        assert(selected(events, seq!['*']) =~= events);
    }
}

} // verus!
