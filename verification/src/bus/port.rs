//! The in-memory bus as the application's event-bus port.
use vstd::prelude::*;
use crate::application::{AppError, EventBus};
use crate::bus::bus::{selected, InMemoryEventBus};
use crate::domain::event::{EventEnvelope, Topic};

verus! {

impl EventBus for InMemoryEventBus {
    /// Records `event` after all earlier ones (as the bus's own `publish`).
    fn publish(&mut self, event: EventEnvelope) -> (r: Result<(), AppError>)
        ensures
            r is Ok,
            final(self)@ == old(self)@.push(event),
    {
        crate::bus::bus::AgenticEventBus::publish(self, event)
    }

    /// The published events that `topic` selects, in publication order (as the
    /// bus's own `subscribe`).
    fn subscribe(&self, topic: Topic) -> (r: Result<Vec<&EventEnvelope>, AppError>)
        ensures
            r matches Ok(v) && v@.len() == selected(self@, topic@).len()
                && forall|k: int| 0 <= k < v@.len() ==> *(#[trigger] v@[k]) == selected(self@, topic@)[k],
    {
        crate::bus::bus::AgenticEventBus::subscribe(self, topic)
    }
}

} // verus!
