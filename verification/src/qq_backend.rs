//! The protocol backend that drives a QQ client: session set-up with the
//! credential rule, message delivery as packets, and the inbound listener.

use vstd::prelude::*;
use crate::message::{encode_json, message_json, Message, MessageRecipient};
use crate::protocol::{
    classify_inbound_packet, inbound_of, map_qq_error, qq_error_as_transport, qq_error_to_protocol,
    is_transport_error, InboundPacket, ProtocolCapability, ProtocolError, ProtocolErrorView, ProtocolEvent,
    ProtocolResult,
};
use crate::qq_client::{qq_error_text, ConnectionState, Packet, QQClient, QQClientConfig, QQClientError, QQClientResult};
use crate::text::{concat_str, is_blank, is_blank_seq};

verus! {

/// QQ client backend settings.
#[derive(Debug, Clone, PartialEq, Eq)]
pub struct QQClientBackendConfig {
    /// QQ transport endpoint.
    pub endpoint: String,
    /// QQ account.
    pub account: Option<String>,
    /// QQ account secret.
    pub password: Option<String>,
    /// Login and connect timeout in milliseconds.
    pub connect_timeout_ms: u64,
    /// Poll interval for inbound packets in milliseconds.
    pub listen_poll_ms: u64,
}

impl QQClientBackendConfig {
    /// Settings for `endpoint`, without credentials, with a 2000 ms connect
    /// timeout and a 150 ms poll interval.
    pub fn new(endpoint: &str) -> (r: Self)
        ensures
            r.endpoint@ == endpoint@,
            r.account is None,
            r.password is None,
            r.connect_timeout_ms == 2000,
            r.listen_poll_ms == 150,
    {
        QQClientBackendConfig {
            endpoint: String::from_str(endpoint),
            account: None,
            password: None,
            connect_timeout_ms: 2000,
            listen_poll_ms: 150,
        }
    }

    /// The same settings with an account and its password.
    pub fn with_credentials(self, account: &str, password: &str) -> (r: Self)
        ensures
            r.endpoint == self.endpoint,
            r.account matches Some(a) && a@ == account@,
            r.password matches Some(p) && p@ == password@,
            r.connect_timeout_ms == self.connect_timeout_ms,
            r.listen_poll_ms == self.listen_poll_ms,
    {
        QQClientBackendConfig {
            account: Some(String::from_str(account)),
            password: Some(String::from_str(password)),
            ..self
        }
    }

    /// The same settings with the connect timeout replaced.
    pub fn with_connect_timeout_ms(self, timeout_ms: u64) -> (r: Self)
        ensures
            r.endpoint == self.endpoint,
            r.account == self.account,
            r.password == self.password,
            r.connect_timeout_ms == timeout_ms,
            r.listen_poll_ms == self.listen_poll_ms,
    {
        QQClientBackendConfig { connect_timeout_ms: timeout_ms, ..self }
    }

    /// The same settings with the poll interval replaced.
    pub fn with_listen_poll_ms(self, poll_ms: u64) -> (r: Self)
        ensures
            r.endpoint == self.endpoint,
            r.account == self.account,
            r.password == self.password,
            r.connect_timeout_ms == self.connect_timeout_ms,
            r.listen_poll_ms == poll_ms,
    {
        QQClientBackendConfig { listen_poll_ms: poll_ms, ..self }
    }
}

impl Default for QQClientBackendConfig {
    /// Settings with an empty endpoint.
    fn default() -> (r: Self)
        ensures
            r.endpoint@.len() == 0,
            r.account is None,
            r.password is None,
            r.connect_timeout_ms == 2000,
            r.listen_poll_ms == 150,
    {
        let r = QQClientBackendConfig::new("");
        proof {
            reveal_strlit("");
        }
        r
    }
}

/// The endpoint a connect call uses: the given one unless it is blank, then
/// the stored one.
pub open spec fn resolved_endpoint(stored: Seq<char>, given: Seq<char>) -> Seq<char> {
    if is_blank_seq(given) {
        stored
    } else {
        given
    }
}

/// Private and group messages travel on different routes: a private
/// message on `message.private`, a group message on `message.group`, both
/// under the `message.` prefix.
pub proof fn law_private_and_group_routes_differ(user_id: String, group_id: String)
    ensures
        packet_route(MessageRecipient::Private { user_id }) != packet_route(
            MessageRecipient::Group { group_id },
        ),
        packet_route(MessageRecipient::Private { user_id }) == "message.private"@,
        packet_route(MessageRecipient::Group { group_id }) == "message.group"@,
        "message."@.is_prefix_of(packet_route(MessageRecipient::Private { user_id })),
        "message."@.is_prefix_of(packet_route(MessageRecipient::Group { group_id })),
{
    reveal_strlit("message.private");
    reveal_strlit("message.group");
    reveal_strlit("message.");
    assert("message.private"@.len() != "message.group"@.len());
    assert("message.private"@.subrange(0, 8) =~= "message."@);
    assert("message.group"@.subrange(0, 8) =~= "message."@);
}

/// Whether settings carry both an account and a password.
pub open spec fn has_credentials(c: QQClientBackendConfig) -> bool {
    c.account is Some && c.password is Some
}

/// The packet route for a message to `r`: `message.private` or `message.group`.
pub open spec fn packet_route(r: MessageRecipient) -> Seq<char> {
    match r {
        MessageRecipient::Private { .. } => "message.private"@,
        MessageRecipient::Group { .. } => "message.group"@,
    }
}

/// What one listener poll asks of the listening loop.
#[derive(Debug, Clone, PartialEq, Eq)]
pub enum ListenPoll {
    /// The backend is disconnected or asked to stop: leave the loop.
    Stopped,
    /// A packet arrived; act on its routing.
    Inbound(InboundPacket),
    /// Nothing arrived; wait this long before the next poll.
    Idle { sleep_ms: u64 },
    /// Receiving failed; emit the warning and wait this long.
    Failed { warning: ProtocolEvent, sleep_ms: u64 },
}

/// What one listener poll asks for, given what receiving a packet gave:
/// route a packet that came, wait the poll interval when none came, and
/// report a failed receive as a warning before waiting.
pub open spec fn poll_step(received: QQClientResult<Option<Packet>>, poll_ms: u64, r: ListenPoll) -> bool {
    match received {
        Ok(Some(p)) => r == ListenPoll::Inbound(inbound_of(p)),
        Ok(None) => r == ListenPoll::Idle { sleep_ms: poll_ms },
        Err(e) => r matches ListenPoll::Failed { warning: ProtocolEvent::Warning { message }, sleep_ms }
            && sleep_ms == poll_ms && message@ == "receive packet failed: "@ + qq_error_text(e),
    }
}

/// A poll never drops a packet it received: a message packet hands on its
/// payload, a connection or session packet announces the endpoint it
/// carries, an error packet becomes a warning with its text, and only a
/// packet on another route is left aside.
pub proof fn law_received_packets_are_routed(p: Packet, poll_ms: u64, r: ListenPoll)
    requires
        poll_step(Ok(Some(p)), poll_ms, r),
    ensures
        r is Inbound,
        p.route@ == "message.received"@ ==> r == ListenPoll::Inbound(
            InboundPacket::MessagePayload(p.payload),
        ),
        p.route@ == "client.connected"@ || p.route@ == "client.session"@ ==> r == ListenPoll::Inbound(
            InboundPacket::Event(ProtocolEvent::Connected { endpoint: p.payload }),
        ),
        p.route@ == "system.error"@ ==> r == ListenPoll::Inbound(
            InboundPacket::Event(ProtocolEvent::Warning { message: p.payload }),
        ),
{
    reveal_strlit("message.received");
    reveal_strlit("client.connected");
    reveal_strlit("client.session");
    reveal_strlit("system.error");
    assert("message.received"@[0] != "client.connected"@[0]);
    assert("message.received"@[0] != "system.error"@[0]);
    assert("client.connected"@[0] != "system.error"@[0]);
    assert("client.connected"@[7] != "client.session"@[7]);
}

/// The listener's step for what receiving a packet gave.
pub fn inbound_step(received: QQClientResult<Option<Packet>>, poll_ms: u64) -> (r: ListenPoll)
    ensures
        poll_step(received, poll_ms, r),
{
    match received {
        Ok(Some(packet)) => ListenPoll::Inbound(classify_inbound_packet(packet)),
        Ok(None) => ListenPoll::Idle { sleep_ms: poll_ms },
        Err(e) => ListenPoll::Failed { warning: receive_failure_warning(&e), sleep_ms: poll_ms },
    }
}

/// What a session set-up answers, given what the client's connect gave and,
/// when it was asked to log in after connecting, what the login gave: a
/// client failure is mapped onto the protocol errors, otherwise it succeeds.
pub open spec fn session_step(
    connected: QQClientResult<()>,
    login: Option<QQClientResult<String>>,
    r: ProtocolResult<()>,
) -> bool {
    match connected {
        Err(e) => r matches Err(p) && p@ == qq_error_to_protocol(e),
        Ok(_) => match login {
            Some(Err(e)) => r matches Err(p) && p@ == qq_error_to_protocol(e),
            _ => r is Ok,
        },
    }
}

/// The session set-up's answer for what the client gave.
pub fn session_outcome(connected: QQClientResult<()>, login: Option<QQClientResult<String>>) -> (r:
    ProtocolResult<()>)
    ensures
        session_step(connected, login, r),
{
    match connected {
        Err(e) => Err(map_qq_error(e)),
        Ok(()) => match login {
            Some(Err(e)) => Err(map_qq_error(e)),
            _ => Ok(()),
        },
    }
}

/// `p` is the packet that carries `message`.
pub open spec fn packet_for(message: Message, p: Packet) -> bool {
    p.route@ == packet_route(message.recipient) && p.payload@ == message_json(message)
}

/// What a send answers, given what the client's send gave: success, or the
/// client error's text as a transport error.
pub fn send_outcome(sent: QQClientResult<()>) -> (r: ProtocolResult<()>)
    ensures
        sent is Ok ==> r is Ok,
        sent matches Err(e) ==> is_transport_error(r, qq_error_text(e)),
{
    match sent {
        Ok(()) => Ok(()),
        Err(e) => Err(qq_error_as_transport(&e)),
    }
}

/// A protocol backend powered by a QQ client.
pub struct QQClientBackend<C: QQClient> {
    client: C,
    config: QQClientBackendConfig,
    connected: bool,
    logged_in: bool,
    listening: bool,
    stop_requested: bool,
}

impl<C: QQClient> QQClientBackend<C> {
    /// The client this backend drives.
    pub closed spec fn client_view(&self) -> C {
        self.client
    }

    /// The stored settings.
    pub closed spec fn config_view(&self) -> QQClientBackendConfig {
        self.config
    }

    /// Whether a session is established.
    pub closed spec fn connected(&self) -> bool {
        self.connected
    }

    /// Whether the established session logged an account in.
    pub closed spec fn logged_in(&self) -> bool {
        self.logged_in
    }

    /// Whether a listener is running.
    pub closed spec fn listening(&self) -> bool {
        self.listening
    }

    /// Whether a stop of the listener was requested.
    pub closed spec fn stop_requested(&self) -> bool {
        self.stop_requested
    }

    /// A disconnected backend over `client`.
    pub fn new(client: C, config: QQClientBackendConfig) -> (r: Self)
        ensures
            r.client_view() == client,
            r.config_view() == config,
            !r.connected(),
            !r.logged_in(),
            !r.listening(),
            !r.stop_requested(),
    {
        QQClientBackend {
            client,
            config,
            connected: false,
            logged_in: false,
            listening: false,
            stop_requested: false,
        }
    }

    /// Backend name.
    pub fn name(&self) -> (r: &'static str)
        ensures
            r@ == "qq-client"@,
    {
        "qq-client"
    }

    /// Supported capabilities.
    pub fn capabilities(&self) -> (r: Vec<ProtocolCapability>)
        ensures
            r@ == seq![
                ProtocolCapability::Message,
                ProtocolCapability::Login,
                ProtocolCapability::Meta,
            ],
    {
        let mut v = Vec::new();
        v.push(ProtocolCapability::Message);
        v.push(ProtocolCapability::Login);
        v.push(ProtocolCapability::Meta);
        assert(v@ =~= seq![
            ProtocolCapability::Message,
            ProtocolCapability::Login,
            ProtocolCapability::Meta,
        ]);
        v
    }

    /// The stored settings.
    pub fn config(&self) -> (r: &QQClientBackendConfig)
        ensures
            *r == self.config_view(),
    {
        &self.config
    }

    /// The client.
    pub fn client(&self) -> (r: &C)
        ensures
            *r == self.client_view(),
    {
        &self.client
    }

    /// The client, for driving it directly.
    pub fn client_mut(&mut self) -> (r: &mut C)
        ensures
            *r == old(self).client_view(),
            final(self).client_view() == *final(r),
            final(self).config_view() == old(self).config_view(),
            final(self).connected() == old(self).connected(),
            final(self).logged_in() == old(self).logged_in(),
            final(self).listening() == old(self).listening(),
            final(self).stop_requested() == old(self).stop_requested(),
    {
        &mut self.client
    }

    /// Whether a session is established.
    pub fn is_connected(&self) -> (r: bool)
        ensures
            r == self.connected(),
    {
        self.connected
    }

    /// Whether a listener is running.
    pub fn is_listening(&self) -> (r: bool)
        ensures
            r == self.listening(),
    {
        self.listening
    }

    /// Whether a listener stop was requested.
    pub fn is_stop_requested(&self) -> (r: bool)
        ensures
            r == self.stop_requested(),
    {
        self.stop_requested
    }

    /// Establishes a session.  Any earlier session and listener are dropped
    /// first.  A blank `endpoint` falls back to the stored one, which must
    /// then be non-blank; the endpoint used is stored.  Without both an
    /// account and a password only `mock://localhost` is accepted.  With
    /// credentials the account is logged in after the transport connects.
    pub fn connect(&mut self, endpoint: &str) -> (r: ProtocolResult<()>)
        ensures
            !final(self).stop_requested(),
            !final(self).listening(),
            ({
                let ep = resolved_endpoint(old(self).config_view().endpoint@, endpoint@);
                let creds = has_credentials(old(self).config_view());
                &&& is_blank_seq(ep) ==> is_transport_error(r, "empty qq endpoint"@)
                &&& is_blank_seq(ep) ==> final(self).config_view() == old(self).config_view()
                &&& !is_blank_seq(ep) ==> final(self).config_view().endpoint@ == ep
                &&& !is_blank_seq(ep) ==> final(self).config_view().account == old(
                    self,
                ).config_view().account && final(self).config_view().password == old(
                    self,
                ).config_view().password && final(self).config_view().connect_timeout_ms == old(
                    self,
                ).config_view().connect_timeout_ms && final(self).config_view().listen_poll_ms
                    == old(self).config_view().listen_poll_ms
                &&& (!is_blank_seq(ep) && !creds && ep != "mock://localhost"@) ==> is_transport_error(
                    r,
                    "qq account/password are required for non-mock endpoints"@,
                )
                &&& r is Ok ==> final(self).connected() && final(self).logged_in() == creds
                    && !is_blank_seq(ep) && (creds || ep == "mock://localhost"@)
                &&& r is Err ==> !final(self).connected() && !final(self).logged_in()
                &&& !is_blank_seq(ep) && (creds || ep == "mock://localhost"@) ==> exists|
                    connected: QQClientResult<()>,
                    login: Option<QQClientResult<String>>,
                | session_step(connected, login, r) && (login is Some ==> connected is Ok && creds)
                &&& !is_blank_seq(ep) && (creds || ep == "mock://localhost"@) && C::connect_accepted(
                    ep,
                ) && (creds ==> C::login_accepted(
                    old(self).config_view().account->Some_0@,
                    old(self).config_view().password->Some_0@,
                )) ==> r is Ok
                &&& r is Ok ==> final(self).client_view().link_endpoint() == Some(ep)
                &&& r is Ok && creds ==> final(self).client_view().link_state()
                    == ConnectionState::LoggedIn && final(self).client_view().link_account() == Some(
                    old(self).config_view().account->Some_0@,
                )
                &&& r is Ok && !creds ==> final(self).client_view().link_state()
                    == ConnectionState::Connected
            }),
    {
        self.stop_requested = false;
        self.connected = false;
        self.listening = false;
        self.logged_in = false;
        let _ = self.client.disconnect();
        let ep = if is_blank(endpoint) {
            self.config.endpoint.clone()
        } else {
            String::from_str(endpoint)
        };
        if is_blank(ep.as_str()) {
            return Err(ProtocolError::Transport(String::from_str("empty qq endpoint")));
        }
        let client_config = QQClientConfig {
            endpoint: ep.clone(),
            token: None,
            timeout_ms: self.config.connect_timeout_ms,
        };
        let creds = self.config.account.is_some() && self.config.password.is_some();
        self.config.endpoint = ep.clone();
        if !creds && !(ep == String::from_str("mock://localhost")) {
            return Err(
                ProtocolError::Transport(
                    String::from_str("qq account/password are required for non-mock endpoints"),
                ),
            );
        }
        let connected = self.client.connect(client_config);
        let login = if connected.is_ok() && creds {
            let account = self.config.account.clone().unwrap();
            let password = self.config.password.clone().unwrap();
            Some(self.client.login(account.as_str(), password.as_str()))
        } else {
            None
        };
        let r = session_outcome(connected, login);
        assert(session_step(connected, login, r));
        if r.is_ok() {
            self.logged_in = creds;
            self.connected = true;
        }
        r
    }

    /// Ends the session and stops any listener.  The client's own
    /// disconnect error, if any, is reported.
    pub fn disconnect(&mut self) -> (r: ProtocolResult<()>)
        ensures
            final(self).stop_requested(),
            !final(self).connected(),
            !final(self).logged_in(),
            !final(self).listening(),
            final(self).config_view() == old(self).config_view(),
            C::disconnect_accepted() ==> r is Ok,
            r is Ok ==> final(self).client_view().link_state() == ConnectionState::Disconnected
                && final(self).client_view().link_account() is None,
            r matches Err(p) ==> exists|e: QQClientError| p@ == qq_error_to_protocol(e),
            final(self).client_view().outbox() == old(self).client_view().outbox(),
    {
        self.stop_requested = true;
        self.connected = false;
        self.listening = false;
        self.logged_in = false;
        match self.client.disconnect() {
            Ok(()) => Ok(()),
            Err(e) => {
                let p = map_qq_error(e);
                assert(p@ == qq_error_to_protocol(e));
                Err(p)
            },
        }
    }

    /// Whether the session is established with an account logged in.
    pub fn is_logged_in(&self) -> (r: ProtocolResult<bool>)
        ensures
            r == Ok::<bool, ProtocolError>(self.connected() && self.logged_in()),
    {
        if !self.connected {
            return Ok(false);
        }
        Ok(self.logged_in)
    }

    /// The packet that carries `message`: routed by recipient kind, with the
    /// message's JSON text as payload.
    pub fn message_to_packet(message: &Message) -> (r: Packet)
        ensures
            r.route@ == packet_route(message.recipient),
            r.payload@ == message_json(*message),
    {
        let payload = encode_json(message);
        let route = match &message.recipient {
            MessageRecipient::Private { .. } => String::from_str("message.private"),
            MessageRecipient::Group { .. } => String::from_str("message.group"),
        };
        Packet { route, payload }
    }

    /// Sends `message` through the client as a packet.  Refused while
    /// disconnected; a client failure is reported with its text.
    pub fn send_message(&mut self, message: &Message) -> (r: ProtocolResult<()>)
        ensures
            !old(self).connected() ==> is_transport_error(r, "protocol is not connected"@),
            !old(self).connected() ==> final(self).client_view() == old(self).client_view(),
            old(self).connected() && (forall|p: Packet| packet_for(*message, p) ==> C::send_accepted(p))
                ==> r is Ok,
            old(self).connected() && r is Ok ==> exists|p: Packet|
                packet_for(*message, p) && final(self).client_view().outbox() == old(
                    self,
                ).client_view().outbox().push(p),
            old(self).connected() && r is Err ==> final(self).client_view().outbox() == old(
                self,
            ).client_view().outbox() && exists|e: QQClientError| is_transport_error(r, qq_error_text(e)),
            final(self).config_view() == old(self).config_view(),
            final(self).connected() == old(self).connected(),
            final(self).logged_in() == old(self).logged_in(),
            final(self).listening() == old(self).listening(),
            final(self).stop_requested() == old(self).stop_requested(),
    {
        if !self.connected {
            return Err(ProtocolError::Transport(String::from_str("protocol is not connected")));
        }
        let packet = Self::message_to_packet(message);
        assert(packet_for(*message, packet));
        let sent = self.client.send_packet(packet);
        let r = send_outcome(sent);
        proof {
            if sent is Err {
                assert(is_transport_error(r, qq_error_text(sent->Err_0)));
            }
        }
        r
    }

    /// Starts listening.  Refused while disconnected or when a listener is
    /// already running.
    pub fn listen(&mut self) -> (r: ProtocolResult<()>)
        ensures
            !old(self).connected() ==> is_transport_error(r, "protocol is not connected"@)
                && final(self).listening() == old(self).listening(),
            old(self).connected() && old(self).listening() ==> is_transport_error(
                r,
                "listen already started"@,
            ) && final(self).listening(),
            old(self).connected() && !old(self).listening() ==> r is Ok && final(self).listening(),
            final(self).client_view() == old(self).client_view(),
            final(self).config_view() == old(self).config_view(),
            final(self).connected() == old(self).connected(),
            final(self).logged_in() == old(self).logged_in(),
            final(self).stop_requested() == old(self).stop_requested(),
    {
        if !self.connected {
            return Err(ProtocolError::Transport(String::from_str("protocol is not connected")));
        }
        if self.listening {
            return Err(ProtocolError::Transport(String::from_str("listen already started")));
        }
        self.listening = true;
        Ok(())
    }

    /// One listener step: stop when disconnected or asked to stop;
    /// otherwise take what the client gives for the next inbound packet and
    /// act on it as `poll_step` says, whatever it was.
    pub fn poll_inbound(&mut self) -> (r: ListenPoll)
        ensures
            !(old(self).connected() && !old(self).stop_requested()) ==> r == ListenPoll::Stopped
                && final(self).client_view() == old(self).client_view(),
            old(self).connected() && !old(self).stop_requested() ==> exists|
                received: QQClientResult<Option<Packet>>,
            | poll_step(received, old(self).config_view().listen_poll_ms, r),
            old(self).connected() && !old(self).stop_requested() && C::receive_accepted() ==> (if old(
                self,
            ).client_view().inbox().len() > 0 {
                r == ListenPoll::Inbound(inbound_of(old(self).client_view().inbox()[0]))
            } else {
                r == ListenPoll::Idle { sleep_ms: old(self).config_view().listen_poll_ms }
            }),
            r matches ListenPoll::Inbound(x) ==> old(self).client_view().inbox().len() > 0 && x
                == inbound_of(old(self).client_view().inbox()[0]) && final(self).client_view().inbox()
                == old(self).client_view().inbox().drop_first(),
            r is Idle ==> old(self).client_view().inbox().len() == 0,
            final(self).config_view() == old(self).config_view(),
            final(self).connected() == old(self).connected(),
            final(self).logged_in() == old(self).logged_in(),
            final(self).listening() == old(self).listening(),
            final(self).stop_requested() == old(self).stop_requested(),
    {
        if !(self.connected && !self.stop_requested) {
            return ListenPoll::Stopped;
        }
        let poll_ms = self.config.listen_poll_ms;
        let received = self.client.receive_packet();
        let r = inbound_step(received, poll_ms);
        assert(poll_step(received, poll_ms, r));
        r
    }

    /// Marks the listener finished and gives the closing event.
    pub fn finish_listen(&mut self) -> (r: ProtocolEvent)
        ensures
            r == ProtocolEvent::Disconnected,
            !final(self).listening(),
            final(self).client_view() == old(self).client_view(),
            final(self).config_view() == old(self).config_view(),
            final(self).connected() == old(self).connected(),
            final(self).logged_in() == old(self).logged_in(),
            final(self).stop_requested() == old(self).stop_requested(),
    {
        self.listening = false;
        ProtocolEvent::Disconnected
    }
}

/// The warning emitted when receiving a packet fails.
pub fn receive_failure_warning(error: &QQClientError) -> (r: ProtocolEvent)
    ensures
        r matches ProtocolEvent::Warning { message } && message@ == "receive packet failed: "@
            + qq_error_text(*error),
{
    ProtocolEvent::Warning {
        message: concat_str("receive packet failed: ", error.to_message_string().as_str()),
    }
}

} // verus!
