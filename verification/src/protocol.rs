//! Protocol-level vocabulary shared by every backend: capabilities, events,
//! errors, the event wire form and the routing of inbound QQ packets.

use vstd::prelude::*;
use crate::json::{json_string, push_json_string};
use crate::message::{
    message_json, push_message_json, HandlerOutcome, Message, MessageError, MessageHandler, MessageResult,
};
use crate::qq_client::{qq_error_text, Packet, QQClientError};
use crate::text::concat_str;

verus! {

/// Protocol capabilities.
#[derive(Debug, Clone, Copy, PartialEq, Eq, Structural)]
pub enum ProtocolCapability {
    /// Message send and receive support.
    Message,
    /// Login status query.
    Login,
    /// User and group info access.
    Meta,
}

/// Protocol-level events.
#[allow(inconsistent_fields)]
#[derive(Debug, Clone, PartialEq, Eq)]
pub enum ProtocolEvent {
    /// Protocol connected.
    Connected { endpoint: String },
    /// Protocol disconnected.
    Disconnected,
    /// Incoming message.
    MessageReceived { message: Message },
    /// Protocol-level warning.
    Warning { message: String },
}

/// Protocol errors.
#[derive(Debug, Clone, PartialEq, Eq)]
pub enum ProtocolError {
    /// Backend-specific transport issue.
    Transport(String),
    /// Message decode or encode issue.
    Serialization(String),
}

/// A protocol error by the text it carries.
pub enum ProtocolErrorView {
    /// Transport issue.
    Transport(Seq<char>),
    /// Decode or encode issue.
    Serialization(Seq<char>),
}

impl View for ProtocolError {
    type V = ProtocolErrorView;

    open spec fn view(&self) -> ProtocolErrorView {
        match self {
            ProtocolError::Transport(m) => ProtocolErrorView::Transport(m@),
            ProtocolError::Serialization(m) => ProtocolErrorView::Serialization(m@),
        }
    }
}

/// Shared protocol result.
pub type ProtocolResult<T> = Result<T, ProtocolError>;

/// A protocol result with its error taken by view.
pub open spec fn result_view<T>(r: ProtocolResult<T>) -> Result<T, ProtocolErrorView> {
    match r {
        Ok(v) => Ok(v),
        Err(e) => Err(e@),
    }
}

/// `r` failed with a transport error carrying `msg`.
pub open spec fn is_transport_error<T>(r: ProtocolResult<T>, msg: Seq<char>) -> bool {
    r matches Err(e) && e@ == ProtocolErrorView::Transport(msg)
}

/// The human-readable text of a protocol error.
pub open spec fn protocol_error_text(e: ProtocolErrorView) -> Seq<char> {
    match e {
        ProtocolErrorView::Transport(m) => "transport failure: "@ + m,
        ProtocolErrorView::Serialization(m) => "message serialization failure: "@ + m,
    }
}

impl ProtocolError {
    /// The human-readable text of this error.
    pub fn to_message_string(&self) -> (r: String)
        ensures
            r@ == protocol_error_text(self@),
    {
        match self {
            ProtocolError::Transport(m) => concat_str("transport failure: ", m.as_str()),
            ProtocolError::Serialization(m) => concat_str(
                "message serialization failure: ",
                m.as_str(),
            ),
        }
    }
}

/// How a client error surfaces at the protocol layer.
pub open spec fn qq_error_to_protocol(e: QQClientError) -> ProtocolErrorView {
    match e {
        QQClientError::Transport(m) => ProtocolErrorView::Transport(m@),
        QQClientError::Protocol(m) => ProtocolErrorView::Serialization(m@),
        QQClientError::Login(m) => ProtocolErrorView::Transport("login error: "@ + m@),
        QQClientError::InvalidState(m) => ProtocolErrorView::Transport(m@),
        QQClientError::Timeout(m) => ProtocolErrorView::Transport(m@),
    }
}

/// Maps a client error onto the protocol error surface.
pub fn map_qq_error(error: QQClientError) -> (r: ProtocolError)
    ensures
        r@ == qq_error_to_protocol(error),
{
    match error {
        QQClientError::Transport(m) => ProtocolError::Transport(m),
        QQClientError::Protocol(m) => ProtocolError::Serialization(m),
        QQClientError::Login(m) => ProtocolError::Transport(concat_str("login error: ", m.as_str())),
        QQClientError::InvalidState(m) => ProtocolError::Transport(m),
        QQClientError::Timeout(m) => ProtocolError::Transport(m),
    }
}

/// The transport error that carries a client error's text.
pub fn qq_error_as_transport(error: &QQClientError) -> (r: ProtocolError)
    ensures
        r@ == ProtocolErrorView::Transport(qq_error_text(*error)),
{
    ProtocolError::Transport(error.to_message_string())
}

/// The JSON text of a protocol event, its variants named in snake case:
/// `{"connected":{"endpoint":..}}`, `"disconnected"`,
/// `{"message_received":{"message":..}}`, `{"warning":{"message":..}}`.
pub open spec fn event_json(e: ProtocolEvent) -> Seq<char> {
    match e {
        ProtocolEvent::Connected { endpoint } => "{\"connected\":{\"endpoint\":"@ + json_string(
            endpoint@,
        ) + "}}"@,
        ProtocolEvent::Disconnected => "\"disconnected\""@,
        ProtocolEvent::MessageReceived { message } => "{\"message_received\":{\"message\":"@
            + message_json(message) + "}}"@,
        ProtocolEvent::Warning { message } => "{\"warning\":{\"message\":"@ + json_string(
            message@,
        ) + "}}"@,
    }
}

/// Serializes a protocol event to JSON.  Never fails.
pub fn serialize_event(event: &ProtocolEvent) -> (r: ProtocolResult<String>)
    ensures
        r matches Ok(s) && s@ == event_json(*event),
{
    let mut out = String::new();
    match event {
        ProtocolEvent::Connected { endpoint } => {
            out.append("{\"connected\":{\"endpoint\":");
            push_json_string(&mut out, endpoint.as_str());
            out.append("}}");
        },
        ProtocolEvent::Disconnected => {
            out.append("\"disconnected\"");
        },
        ProtocolEvent::MessageReceived { message } => {
            out.append("{\"message_received\":{\"message\":");
            push_message_json(&mut out, message);
            out.append("}}");
        },
        ProtocolEvent::Warning { message } => {
            out.append("{\"warning\":{\"message\":");
            push_json_string(&mut out, message.as_str());
            out.append("}}");
        },
    }
    assert(out@ =~= event_json(*event));
    Ok(out)
}

/// What an inbound QQ packet asks of the listener.
#[derive(Debug, Clone, PartialEq, Eq)]
pub enum InboundPacket {
    /// Emit this event.
    Event(ProtocolEvent),
    /// The payload is a JSON-encoded message to decode and emit.
    MessagePayload(String),
    /// The route is not one the listener handles.
    Ignored,
}

/// What an inbound packet asks for, by its route: `message.received`
/// carries a message, `client.connected` and `client.session` announce the
/// endpoint, and `system.error` carries a warning; other routes are ignored.
pub open spec fn inbound_of(packet: Packet) -> InboundPacket {
    let route = packet.route@;
    if route == "message.received"@ {
        InboundPacket::MessagePayload(packet.payload)
    } else if route == "client.connected"@ || route == "client.session"@ {
        InboundPacket::Event(ProtocolEvent::Connected { endpoint: packet.payload })
    } else if route == "system.error"@ {
        InboundPacket::Event(ProtocolEvent::Warning { message: packet.payload })
    } else {
        InboundPacket::Ignored
    }
}

/// Routes an inbound packet.
pub fn classify_inbound_packet(packet: Packet) -> (r: InboundPacket)
    ensures
        r == inbound_of(packet),
{
    proof {
        reveal_strlit("message.received");
        reveal_strlit("client.connected");
        reveal_strlit("client.session");
        reveal_strlit("system.error");
        assert("message.received"@[0] != "client.connected"@[0]);
        assert("message.received"@[0] != "client.session"@[0]);
        assert("message.received"@[0] != "system.error"@[0]);
        assert("client.connected"@[7] != "client.session"@[7]);
        assert("client.connected"@[0] != "system.error"@[0]);
        assert("client.session"@[0] != "system.error"@[0]);
    }
    let route = packet.route;
    if route == String::from_str("message.received") {
        InboundPacket::MessagePayload(packet.payload)
    } else if route == String::from_str("client.connected") {
        InboundPacket::Event(ProtocolEvent::Connected { endpoint: packet.payload })
    } else if route == String::from_str("client.session") {
        InboundPacket::Event(ProtocolEvent::Connected { endpoint: packet.payload })
    } else if route == String::from_str("system.error") {
        InboundPacket::Event(ProtocolEvent::Warning { message: packet.payload })
    } else {
        InboundPacket::Ignored
    }
}

/// The warning emitted when an inbound message payload does not decode.
pub fn inbound_decode_warning(error: &ProtocolError) -> (r: ProtocolEvent)
    ensures
        r matches ProtocolEvent::Warning { message } && message@ == "failed to parse inbound packet: "@
            + protocol_error_text(error@),
{
    ProtocolEvent::Warning {
        message: concat_str("failed to parse inbound packet: ", error.to_message_string().as_str()),
    }
}

/// The summary of a handled message: the handler's name and its detail.
pub fn handler_summary(name: &str, outcome: &HandlerOutcome) -> (r: String)
    ensures
        r@ == name@ + ": "@ + outcome.detail@,
{
    let mut r = concat_str(name, ": ");
    r.append(outcome.detail.as_str());
    r
}

/// The answer to a handled message: the summary of the handler's outcome,
/// or the handler's error as it is.
pub fn summarize(name: &str, outcome: MessageResult<HandlerOutcome>) -> (r: MessageResult<String>)
    ensures
        outcome matches Ok(o) ==> (r matches Ok(s) && s@ == name@ + ": "@ + o.detail@),
        outcome matches Err(e) ==> r == Err::<String, MessageError>(e),
{
    match outcome {
        Ok(o) => Ok(handler_summary(name, &o)),
        Err(e) => Err(e),
    }
}

/// The event the in-memory backend announces when it starts listening:
/// connected to `mock://localhost`.
pub fn mock_announcement() -> (r: ProtocolEvent)
    ensures
        r matches ProtocolEvent::Connected { endpoint } && endpoint@ == "mock://localhost"@,
{
    ProtocolEvent::Connected { endpoint: String::from_str("mock://localhost") }
}

/// Hands an incoming message to `handler` and summarises the outcome as
/// `name: detail`, passing a handler error on; any other event is answered
/// with `noop`.
pub fn forward_to_handler<H: MessageHandler>(handler: &H, event: &ProtocolEvent) -> (r:
    MessageResult<String>)
    ensures
        !(event is MessageReceived) ==> (r matches Ok(s) && s@ == "noop"@),
        event matches ProtocolEvent::MessageReceived { message } ==> (handler.will_handle(*message)
            ==> r is Ok),
        event matches ProtocolEvent::MessageReceived { message } ==> (r matches Ok(s) ==> exists|
            d: Seq<char>,
        | handler.reports(*message, d) && s@ == handler.name_spec() + ": "@ + d),
        event matches ProtocolEvent::MessageReceived { message } ==> (r matches Err(e)
            ==> handler.refuses(*message, e)),
{
    match event {
        ProtocolEvent::MessageReceived { message } => {
            let outcome = handler.handle(message);
            let name = handler.name();
            let r = summarize(name.as_str(), outcome);
            proof {
                if r is Ok {
                    let o = outcome->Ok_0;
                    assert(handler.reports(*message, o.detail@));
                }
            }
            r
        },
        _ => Ok(String::from_str("noop")),
    }
}

} // verus!
