//! An in-memory protocol backend for tests and adapters that need no
//! network: incoming messages are injected through a channel.

use vstd::prelude::*;
use tokio::sync::{broadcast, mpsc};
use crate::channels::{broadcast_send, unbounded_channel, unbounded_send};
use crate::message::{encode_json, Message};
use crate::protocol::{is_transport_error, mock_announcement, ProtocolCapability, ProtocolError, ProtocolEvent, ProtocolResult};

verus! {

/// In-memory protocol backend.
pub struct MockProtocol {
    connected: bool,
    sender: mpsc::UnboundedSender<Message>,
}

impl MockProtocol {
    /// Whether the backend is connected.
    pub closed spec fn connected(&self) -> bool {
        self.connected
    }

    /// A disconnected backend and the receiving end of its injection channel.
    pub fn new() -> (r: (Self, mpsc::UnboundedReceiver<Message>))
        ensures
            !r.0.connected(),
    {
        let (tx, rx) = unbounded_channel();
        (MockProtocol { connected: false, sender: tx }, rx)
    }

    /// Injects an incoming message into the channel.  A closed channel drops it.
    pub fn inject(&self, message: Message) {
        let _ = unbounded_send(&self.sender, message);
    }

    /// Backend name.
    pub fn name(&self) -> (r: &'static str)
        ensures
            r@ == "mock"@,
    {
        "mock"
    }

    /// Supported capabilities.
    pub fn capabilities(&self) -> (r: Vec<ProtocolCapability>)
        ensures
            r@ == seq![ProtocolCapability::Message, ProtocolCapability::Login],
    {
        let mut v = Vec::new();
        v.push(ProtocolCapability::Message);
        v.push(ProtocolCapability::Login);
        assert(v@ =~= seq![ProtocolCapability::Message, ProtocolCapability::Login]);
        v
    }

    /// Connects to any non-empty endpoint.
    pub fn connect(&mut self, endpoint: &str) -> (r: ProtocolResult<()>)
        ensures
            endpoint@.len() == 0 ==> is_transport_error(r, "empty endpoint"@),
            endpoint@.len() == 0 ==> final(self).connected() == old(self).connected(),
            endpoint@.len() != 0 ==> r is Ok && final(self).connected(),
    {
        if endpoint.is_empty() {
            return Err(ProtocolError::Transport(String::from_str("empty endpoint")));
        }
        self.connected = true;
        Ok(())
    }

    /// Disconnects.
    pub fn disconnect(&mut self) -> (r: ProtocolResult<()>)
        ensures
            r is Ok,
            !final(self).connected(),
    {
        self.connected = false;
        Ok(())
    }

    /// Logged in exactly while connected.
    pub fn is_logged_in(&self) -> (r: ProtocolResult<bool>)
        ensures
            r == Ok::<bool, ProtocolError>(self.connected()),
    {
        Ok(self.connected)
    }

    /// Accepts any message: every message has a JSON form.
    pub fn send_message(&self, message: &Message) -> (r: ProtocolResult<()>)
        ensures
            r is Ok,
    {
        let _ = encode_json(message);
        Ok(())
    }

    /// Announces the mock endpoint on `notify` with `mock_announcement`.
    /// Delivery is best effort.
    pub fn listen(&self, notify: &broadcast::Sender<ProtocolEvent>) -> (r: ProtocolResult<()>)
        ensures
            r is Ok,
    {
        let _ = broadcast_send(notify, mock_announcement());
        Ok(())
    }
}

} // verus!
