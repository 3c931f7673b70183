//! The `tokio` channel types that the event bus and the mock protocol hand
//! values through, and the calls made on them.

use vstd::prelude::*;
use tokio::sync::broadcast;
use tokio::sync::mpsc;

verus! {

#[verifier::external_type_specification]
#[verifier::external_body]
#[verifier::reject_recursive_types(T)]
pub struct ExBroadcastSender<T>(broadcast::Sender<T>);

#[verifier::external_type_specification]
#[verifier::external_body]
#[verifier::reject_recursive_types(T)]
pub struct ExBroadcastReceiver<T>(broadcast::Receiver<T>);

#[verifier::external_type_specification]
#[verifier::external_body]
#[verifier::reject_recursive_types(T)]
pub struct ExUnboundedSender<T>(mpsc::UnboundedSender<T>);

#[verifier::external_type_specification]
#[verifier::external_body]
#[verifier::reject_recursive_types(T)]
pub struct ExUnboundedReceiver<T>(mpsc::UnboundedReceiver<T>);

/// `broadcast::Sender::new`: a sending half with no receivers yet.  It panics
/// when `capacity` is zero or above `usize::MAX / 2`, which `requires` rules out.
#[verifier::external_body]
pub(crate) fn broadcast_sender_new<T: Clone>(capacity: usize) -> (s: broadcast::Sender<T>)
    requires
        0 < capacity <= usize::MAX / 2,
{
    broadcast::Sender::new(capacity)
}

/// `broadcast::Sender::send`: delivers to every receiver alive at the call.
/// It fails exactly when there is no receiver; on success it returns how many
/// receivers were subscribed, hence at least one.  Which outcome comes depends
/// on receivers held elsewhere, so it is not stated.
#[verifier::external_body]
pub(crate) fn broadcast_send<T>(sender: &broadcast::Sender<T>, value: T) -> (r: Result<usize, ()>)
    ensures
        r matches Ok(n) ==> n >= 1,
{
    sender.send(value).map_err(|_| ())
}

/// `broadcast::Sender::subscribe`: a receiver of the values sent after this
/// call.  The receiver count it raises is shared state and is not stated.
#[verifier::external_body]
pub(crate) fn broadcast_subscribe<T>(sender: &broadcast::Sender<T>) -> (r: broadcast::Receiver<T>) {
    sender.subscribe()
}

/// `broadcast::Sender::receiver_count`: the receivers alive now, shared state
/// that other handles change, so nothing is stated of it.
#[verifier::external_body]
pub(crate) fn broadcast_receiver_count<T>(sender: &broadcast::Sender<T>) -> (r: usize) {
    sender.receiver_count()
}

/// `Clone` on `broadcast::Sender`: another handle on the same channel.
#[verifier::external_body]
pub(crate) fn broadcast_sender_clone<T>(sender: &broadcast::Sender<T>) -> (r: broadcast::Sender<T>) {
    sender.clone()
}

/// `mpsc::unbounded_channel`: a fresh channel's two halves.
#[verifier::external_body]
pub(crate) fn unbounded_channel<T>() -> (r: (mpsc::UnboundedSender<T>, mpsc::UnboundedReceiver<T>)) {
    mpsc::unbounded_channel()
}

/// `mpsc::UnboundedSender::send`: fails only when the receiver is gone, which
/// depends on the other half and is not stated.
#[verifier::external_body]
pub(crate) fn unbounded_send<T>(sender: &mpsc::UnboundedSender<T>, value: T) -> (r: Result<(), ()>) {
    sender.send(value).map_err(|_| ())
}

} // verus!
