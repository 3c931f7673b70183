use napcat::event::{EventBus, EventEnvelope, EventError};

#[derive(Debug, Clone)]
struct EventPayload {
    id: u64,
    name: String,
}

#[test]
fn bus_requires_capacity() {
    let _unused = EventBus::<EventPayload>::new(1);

    assert_eq!(EventBus::<EventPayload>::new(8).sender().receiver_count(), 0);
}

#[test]
fn bus_publish_without_receivers_reports_error() {
    let bus = EventBus::<EventPayload>::new(8);

    let result = bus.publish(EventEnvelope::new(
        "api",
        "protocol",
        EventPayload { id: 1, name: String::from("no-listener") },
    ));
    assert!(matches!(result, Err(EventError::NoSubscriber)));
}

#[test]
fn bus_subscriber_receives_events() {
    let bus = EventBus::<EventPayload>::new(8);

    let mut rx = bus.subscribe();
    let published = bus
        .publish(EventEnvelope::new(
            "api",
            "protocol",
            EventPayload { id: 2, name: String::from("payload") },
        ))
        .expect("event published");

    assert_eq!(published, 1);
    let received = rx.try_recv().expect("event should be delivered");
    assert_eq!(received.payload.id, 2);
    assert_eq!(received.payload.name, "payload");
    assert_eq!(received.source, "api");
    assert_eq!(received.kind, "protocol");
}

#[test]
fn bus_counts_subscribers_and_clones_share_the_channel() {
    let bus = EventBus::<u64>::new(4);
    let _a = bus.subscribe();
    let other = bus.clone();
    let mut b = other.subscribe();
    assert_eq!(bus.receiver_count(), 2);
    assert_eq!(other.publish(EventEnvelope::new("s", "k", 9)).unwrap(), 2);
    assert_eq!(b.try_recv().unwrap().payload, 9);
    assert_eq!(EventError::NoSubscriber.to_message_string(), "event publish has no active subscribers");
}
