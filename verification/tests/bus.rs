use agenticos::bus::bus::{AgenticEventBus, InMemoryEventBus};
use agenticos::bus::store::{InMemoryTraceStore, TraceStore};
use agenticos::domain::event::{EventEnvelope, EventPayload, Topic, TraceEvent};
use agenticos::ids::{IdSource, TraceId};

fn trace_payload(message: &str) -> EventPayload {
    EventPayload::Trace(TraceEvent { message: message.to_owned() })
}

#[test]
fn publishes_and_reads_exact_topic_snapshot() {
    let mut ids = IdSource::new();
    let mut bus = InMemoryEventBus::new();
    let trace_id = TraceId::from_string("trace-1");

    bus.publish(EventEnvelope::new(
        Topic::new("observations.memory".into()),
        trace_id.clone(),
        trace_payload("memory"),
        &mut ids,
    ))
    .unwrap();
    bus.publish(EventEnvelope::new(
        Topic::new("observations.process".into()),
        trace_id,
        trace_payload("process"),
        &mut ids,
    ))
    .unwrap();

    let events = bus.subscribe(Topic::new("observations.memory".into())).unwrap();

    assert_eq!(events.len(), 1);
    assert_eq!(events[0].topic, Topic::new("observations.memory".into()));
}

#[test]
fn wildcard_topic_matches_children() {
    let mut ids = IdSource::new();
    let mut bus = InMemoryEventBus::new();
    let trace_id = TraceId::from_string("trace-1");

    bus.publish(EventEnvelope::new(
        Topic::new("observations.memory".into()),
        trace_id,
        trace_payload("memory"),
        &mut ids,
    ))
    .unwrap();

    let events = bus.subscribe(Topic::new("observations.*".into())).unwrap();

    assert_eq!(events.len(), 1);
}

fn assert_trace_message(event: &EventEnvelope, expected: &str) {
    match &event.payload {
        EventPayload::Trace(trace) => assert_eq!(trace.message, expected),
        _ => panic!("expected trace payload"),
    }
}

#[test]
fn replays_events_for_one_trace_in_append_order() {
    let mut ids = IdSource::new();
    let mut store = InMemoryTraceStore::new();
    let trace_a = TraceId::from_string("trace-a");
    let trace_b = TraceId::from_string("trace-b");

    store
        .append(EventEnvelope::new(
            Topic::new("traces.test".into()),
            trace_a.clone(),
            trace_payload("first"),
            &mut ids,
        ))
        .unwrap();
    store
        .append(EventEnvelope::new(
            Topic::new("traces.test".into()),
            trace_b,
            trace_payload("other"),
            &mut ids,
        ))
        .unwrap();
    store
        .append(EventEnvelope::new(
            Topic::new("traces.test".into()),
            trace_a.clone(),
            trace_payload("second"),
            &mut ids,
        ))
        .unwrap();

    let replayed = store.replay(trace_a).unwrap();

    assert_eq!(replayed.len(), 2);
    assert_trace_message(replayed[0], "first");
    assert_trace_message(replayed[1], "second");
}
