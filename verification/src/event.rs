//! Event envelopes and the bounded broadcast bus that carries them between
//! the runtime, protocol and plugin layers.

use vstd::prelude::*;
use tokio::sync::broadcast;
use crate::channels::{
    broadcast_receiver_count, broadcast_send, broadcast_sender_clone, broadcast_sender_new,
    broadcast_subscribe,
};

verus! {

/// Result alias for event operations.
pub type EventResult<T> = Result<T, EventError>;

/// Event bus errors.
#[derive(Debug, Clone, Copy, PartialEq, Eq, Structural)]
pub enum EventError {
    /// No active receivers for the event channel.
    NoSubscriber,
}

impl EventError {
    /// The human-readable text of this error.
    pub fn to_message_string(&self) -> (r: String)
        ensures
            r@ == "event publish has no active subscribers"@,
    {
        String::from_str("event publish has no active subscribers")
    }
}

/// A metadata envelope around an event payload.
#[derive(Clone, Debug, PartialEq, Eq)]
pub struct EventEnvelope<T> where T: Clone + Send + Sync + 'static {
    /// Human-readable source.
    pub source: String,
    /// Event category.
    pub kind: String,
    /// Unix timestamp in milliseconds.
    pub at_millis: u128,
    /// Typed event payload.
    pub payload: T,
}

/// Milliseconds since the Unix epoch by the system clock, or zero when the
/// clock reads earlier than the epoch (`SystemTime::now` and
/// `duration_since`).  The clock is read, so nothing is stated of the value.
#[verifier::external_body]
fn unix_millis_now() -> (r: u128) {
    std::time::SystemTime::now().duration_since(std::time::UNIX_EPOCH).map_or(
        0,
        |d| d.as_millis(),
    )
}

impl<T> EventEnvelope<T> where T: Clone + Send + Sync + 'static {
    /// Wraps `payload` with its source and kind, stamped with the current time.
    pub fn new(source: &str, kind: &str, payload: T) -> (r: Self)
        ensures
            r.source@ == source@,
            r.kind@ == kind@,
            r.payload == payload,
    {
        let at_millis = unix_millis_now();
        EventEnvelope {
            source: String::from_str(source),
            kind: String::from_str(kind),
            at_millis,
            payload,
        }
    }
}

/// A broadcast bus of event envelopes with a bounded backlog.
#[verifier::reject_recursive_types(T)]
pub struct EventBus<T> where T: Clone + Send + Sync + 'static {
    sender: broadcast::Sender<EventEnvelope<T>>,
}

impl<T> EventBus<T> where T: Clone + Send + Sync + 'static {
    /// A bus that keeps up to `capacity` undelivered envelopes.  A zero
    /// capacity is a programming error and is ruled out.
    pub fn new(capacity: usize) -> (r: Self)
        requires
            0 < capacity <= usize::MAX / 2,
    {
        EventBus { sender: broadcast_sender_new(capacity) }
    }

    /// Publishes to every current subscriber and returns how many there
    /// were; with none, reports `NoSubscriber`.
    pub fn publish(&self, event: EventEnvelope<T>) -> (r: EventResult<usize>)
        ensures
            r matches Ok(n) ==> n >= 1,
    {
        match broadcast_send(&self.sender, event) {
            Ok(n) => Ok(n),
            Err(_) => Err(EventError::NoSubscriber),
        }
    }

    /// A receiver of the envelopes published from now on.
    pub fn subscribe(&self) -> broadcast::Receiver<EventEnvelope<T>> {
        broadcast_subscribe(&self.sender)
    }

    /// The number of live receivers.
    pub fn receiver_count(&self) -> usize {
        broadcast_receiver_count(&self.sender)
    }

    /// Another sending handle on the same bus.
    pub fn sender(&self) -> broadcast::Sender<EventEnvelope<T>> {
        broadcast_sender_clone(&self.sender)
    }
}

impl<T> Clone for EventBus<T> where T: Clone + Send + Sync + 'static {
    fn clone(&self) -> Self {
        EventBus { sender: broadcast_sender_clone(&self.sender) }
    }
}

} // verus!
