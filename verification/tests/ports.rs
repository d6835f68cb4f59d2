use agenticos::application::EventBus;
use agenticos::bus::bus::InMemoryEventBus;
use agenticos::domain::event::{EventEnvelope, EventPayload, Topic, TraceEvent};
use agenticos::ids::{IdSource, TraceId};

fn trace_payload(message: &str) -> EventPayload {
    EventPayload::Trace(TraceEvent { message: message.to_owned() })
}

#[test]
fn in_memory_bus_serves_as_the_event_bus_port() {
    let mut ids = IdSource::new();
    let mut bus = InMemoryEventBus::new();
    EventBus::publish(
        &mut bus,
        EventEnvelope::new(
            Topic::new("proposals.memory-agent".into()),
            TraceId::from_string("t"),
            trace_payload("p"),
            &mut ids,
        ),
    )
    .unwrap();
    assert_eq!(EventBus::subscribe(&bus, Topic::new("proposals.*".into())).unwrap().len(), 1);
    assert_eq!(EventBus::subscribe(&bus, Topic::new("decisions.*".into())).unwrap().len(), 0);
    assert_eq!(bus.len().unwrap(), 1);
}
