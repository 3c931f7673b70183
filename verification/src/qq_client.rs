//! QQ client contract: connection settings, packets, errors, the client
//! trait that transport adapters implement, and an in-memory client.

use vstd::prelude::*;
use crate::text::{is_blank, is_blank_seq, concat_str};

verus! {

/// Result alias used by QQ client adapters.
pub type QQClientResult<T> = Result<T, QQClientError>;

/// Connection settings for QQ protocol connectors.
#[derive(Debug, Clone, PartialEq, Eq)]
pub struct QQClientConfig {
    /// Endpoint address.
    pub endpoint: String,
    /// Optional authentication token.
    pub token: Option<String>,
    /// Polling or reconnect timeout in milliseconds.
    pub timeout_ms: u64,
}

impl QQClientConfig {
    /// Settings for `endpoint` with no token and a 2000 ms timeout.
    pub fn new(endpoint: &str) -> (r: Self)
        ensures
            r.endpoint@ == endpoint@,
            r.token is None,
            r.timeout_ms == 2000,
    {
        QQClientConfig { endpoint: String::from_str(endpoint), token: None, timeout_ms: 2000 }
    }

    /// The same settings with `token` set.
    pub fn with_token(self, token: &str) -> (r: Self)
        ensures
            r.endpoint == self.endpoint,
            r.token matches Some(t) && t@ == token@,
            r.timeout_ms == self.timeout_ms,
    {
        QQClientConfig { token: Some(String::from_str(token)), ..self }
    }

    /// The same settings with the timeout replaced.
    pub fn with_timeout_ms(self, timeout_ms: u64) -> (r: Self)
        ensures
            r.endpoint == self.endpoint,
            r.token == self.token,
            r.timeout_ms == timeout_ms,
    {
        QQClientConfig { timeout_ms, ..self }
    }
}

/// Client connection states.
#[derive(Debug, Clone, Copy, PartialEq, Eq, Structural)]
pub enum ConnectionState {
    /// Disconnected from the endpoint.
    Disconnected,
    /// Connected but not authenticated.
    Connected,
    /// Authenticated and exchanging packets.
    LoggedIn,
    /// Explicitly closed by the caller.
    Closing,
}

/// A transport packet: a route name and a UTF-8 payload.
#[derive(Debug, Clone, PartialEq, Eq)]
pub struct Packet {
    /// Route or opcode name.
    pub route: String,
    /// Raw payload text.
    pub payload: String,
}

impl Packet {
    /// Builds a packet from route and payload.
    pub fn new(route: &str, payload: &str) -> (r: Self)
        ensures
            r.route@ == route@,
            r.payload@ == payload@,
    {
        Packet { route: String::from_str(route), payload: String::from_str(payload) }
    }
}

/// Errors of QQ client adapters.
#[derive(Debug, Clone, PartialEq, Eq)]
pub enum QQClientError {
    /// Network transport failure.
    Transport(String),
    /// Protocol decode or encode issue.
    Protocol(String),
    /// Authentication failed.
    Login(String),
    /// Missing or invalid data.
    InvalidState(String),
    /// An operation did not finish in time.
    Timeout(String),
}

/// The human-readable text of a client error.
pub open spec fn qq_error_text(e: QQClientError) -> Seq<char> {
    match e {
        QQClientError::Transport(m) => "transport failure: "@ + m@,
        QQClientError::Protocol(m) => "protocol parsing failure: "@ + m@,
        QQClientError::Login(m) => "login failure: "@ + m@,
        QQClientError::InvalidState(m) => "invalid state: "@ + m@,
        QQClientError::Timeout(m) => "timeout: "@ + m@,
    }
}

impl QQClientError {
    /// The human-readable text of this error.
    pub fn to_message_string(&self) -> (r: String)
        ensures
            r@ == qq_error_text(*self),
    {
        match self {
            QQClientError::Transport(m) => concat_str("transport failure: ", m.as_str()),
            QQClientError::Protocol(m) => concat_str("protocol parsing failure: ", m.as_str()),
            QQClientError::Login(m) => concat_str("login failure: ", m.as_str()),
            QQClientError::InvalidState(m) => concat_str("invalid state: ", m.as_str()),
            QQClientError::Timeout(m) => concat_str("timeout: ", m.as_str()),
        }
    }
}

/// A QQ transport adapter: connection, login, packet exchange and liveness.
///
/// Each adapter says, by its spec functions, which calls it promises to
/// accept and what its link and outbox are; a call it accepts changes them
/// as each method states.
pub trait QQClient {
    /// The link's state.
    spec fn link_state(&self) -> ConnectionState;

    /// The endpoint of the transport last opened, if any.
    spec fn link_endpoint(&self) -> Option<Seq<char>>;

    /// The account logged in, if any.
    spec fn link_account(&self) -> Option<Seq<char>>;

    /// The packets accepted for sending, oldest first.
    spec fn outbox(&self) -> Seq<Packet>;

    /// The inbound packets waiting to be received, oldest first.
    spec fn inbox(&self) -> Seq<Packet>;

    /// The adapter promises that receiving succeeds.
    spec fn receive_accepted() -> bool;

    /// The adapter promises to open a transport to `endpoint`.
    spec fn connect_accepted(endpoint: Seq<char>) -> bool;

    /// The adapter promises to log in with these credentials.
    spec fn login_accepted(account: Seq<char>, password: Seq<char>) -> bool;

    /// The adapter promises that closing the transport succeeds.
    spec fn disconnect_accepted() -> bool;

    /// The adapter promises to accept `packet` for sending.
    spec fn send_accepted(packet: Packet) -> bool;

    /// Opens the transport channel.
    fn connect(&mut self, config: QQClientConfig) -> (r: QQClientResult<()>)
        ensures
            Self::connect_accepted(config.endpoint@) ==> r is Ok,
            r is Ok ==> final(self).link_state() == ConnectionState::Connected
                && final(self).link_endpoint() == Some(config.endpoint@),
            final(self).outbox() == old(self).outbox(),
    ;

    /// Logs an account in; returns a session ticket.
    fn login(&mut self, account: &str, password: &str) -> (r: QQClientResult<String>)
        ensures
            Self::login_accepted(account@, password@) ==> r is Ok,
            r is Ok ==> final(self).link_state() == ConnectionState::LoggedIn
                && final(self).link_account() == Some(account@) && final(self).link_endpoint()
                == old(self).link_endpoint(),
            final(self).outbox() == old(self).outbox(),
    ;

    /// Closes the transport channel.
    fn disconnect(&mut self) -> (r: QQClientResult<()>)
        ensures
            Self::disconnect_accepted() ==> r is Ok,
            r is Ok ==> final(self).link_state() == ConnectionState::Disconnected
                && final(self).link_account() is None,
            final(self).outbox() == old(self).outbox(),
    ;

    /// Sends one packet: an accepted packet joins the outbox.
    fn send_packet(&mut self, packet: Packet) -> (r: QQClientResult<()>)
        ensures
            Self::send_accepted(packet) ==> r is Ok,
            r is Ok ==> final(self).outbox() == old(self).outbox().push(packet),
            r is Err ==> final(self).outbox() == old(self).outbox(),
            final(self).link_state() == old(self).link_state(),
            final(self).link_endpoint() == old(self).link_endpoint(),
            final(self).link_account() == old(self).link_account(),
    ;

    /// Takes the next inbound packet, if one is waiting: the oldest waiting
    /// packet, or nothing when none waits.
    fn receive_packet(&mut self) -> (r: QQClientResult<Option<Packet>>)
        ensures
            Self::receive_accepted() ==> r is Ok,
            r matches Ok(Some(p)) ==> old(self).inbox().len() > 0 && p == old(self).inbox()[0]
                && final(self).inbox() == old(self).inbox().drop_first(),
            r matches Ok(None) ==> old(self).inbox().len() == 0 && final(self).inbox() == old(
                self,
            ).inbox(),
            final(self).outbox() == old(self).outbox(),
            final(self).link_state() == old(self).link_state(),
            final(self).link_endpoint() == old(self).link_endpoint(),
            final(self).link_account() == old(self).link_account(),
    ;

    /// Keeps the session alive.
    fn heartbeat(&mut self, interval_ms: u64) -> QQClientResult<()>;
}

/// An in-memory client for tests and offline runs: it accepts any
/// non-blank endpoint and credentials, records what is sent, and hands out
/// injected packets in order.
#[derive(Debug, Clone, PartialEq, Eq)]
pub struct MockQQClient {
    endpoint: Option<String>,
    token: Option<String>,
    state: ConnectionState,
    sent: Vec<Packet>,
    inbound: Vec<Packet>,
}

impl Default for MockQQClient {
    fn default() -> (r: Self)
        ensures
            r.state() == ConnectionState::Disconnected,
            r.endpoint() is None,
            r.token() is None,
            r.sent_view().len() == 0,
            r.inbound_view().len() == 0,
    {
        MockQQClient {
            endpoint: None,
            token: None,
            state: ConnectionState::Disconnected,
            sent: Vec::new(),
            inbound: Vec::new(),
        }
    }
}

impl MockQQClient {
    /// The endpoint last connected to.
    pub closed spec fn endpoint(&self) -> Option<String> {
        self.endpoint
    }

    /// The token of the last login.
    pub closed spec fn token(&self) -> Option<String> {
        self.token
    }

    /// The packets sent so far, oldest first.
    pub closed spec fn sent_view(&self) -> Seq<Packet> {
        self.sent@
    }

    /// The injected packets not yet received, oldest first.
    pub closed spec fn inbound_view(&self) -> Seq<Packet> {
        self.inbound@
    }

    /// The connection state.
    pub closed spec fn state(&self) -> ConnectionState {
        self.state
    }

    /// The connection state.
    pub fn current_state(&self) -> (r: ConnectionState)
        ensures
            r == self.state(),
    {
        self.state
    }

    /// The packets sent so far, oldest first.
    pub fn sent_packets(&self) -> (r: &Vec<Packet>)
        ensures
            r@ == self.sent_view(),
    {
        &self.sent
    }

    /// Queues a packet for `receive_packet`.
    pub fn inject_packet(&mut self, packet: Packet)
        ensures
            final(self).inbound_view() == old(self).inbound_view().push(packet),
            final(self).sent_view() == old(self).sent_view(),
            final(self).state() == old(self).state(),
            final(self).endpoint() == old(self).endpoint(),
            final(self).token() == old(self).token(),
    {
        self.inbound.push(packet);
    }
}

/// The account a mock token was issued for.
pub open spec fn token_account(token: Option<String>) -> Option<Seq<char>> {
    match token {
        Some(t) => Some(t@.subrange("mock-token-"@.len() as int, t@.len() as int)),
        None => None,
    }
}

impl QQClient for MockQQClient {
    closed spec fn link_state(&self) -> ConnectionState {
        self.state
    }

    closed spec fn link_endpoint(&self) -> Option<Seq<char>> {
        match self.endpoint {
            Some(e) => Some(e@),
            None => None,
        }
    }

    closed spec fn link_account(&self) -> Option<Seq<char>> {
        token_account(self.token)
    }

    closed spec fn outbox(&self) -> Seq<Packet> {
        self.sent@
    }

    closed spec fn inbox(&self) -> Seq<Packet> {
        self.inbound@
    }

    open spec fn receive_accepted() -> bool {
        true
    }

    open spec fn connect_accepted(endpoint: Seq<char>) -> bool {
        !is_blank_seq(endpoint)
    }

    open spec fn login_accepted(account: Seq<char>, password: Seq<char>) -> bool {
        !is_blank_seq(account) && !is_blank_seq(password)
    }

    open spec fn disconnect_accepted() -> bool {
        true
    }

    open spec fn send_accepted(packet: Packet) -> bool {
        true
    }

    fn connect(&mut self, config: QQClientConfig) -> (r: QQClientResult<()>)
        ensures
            is_blank_seq(config.endpoint@) ==> (r matches Err(QQClientError::Transport(m)) && m@
                == "empty endpoint"@ && *final(self) == *old(self)),
            !is_blank_seq(config.endpoint@) ==> r is Ok && final(self).state()
                == ConnectionState::Connected && final(self).endpoint() == Some(config.endpoint)
                && final(self).token() == old(self).token() && final(self).sent_view() == old(
                self,
            ).sent_view() && final(self).inbound_view() == old(self).inbound_view(),
    {
        if is_blank(config.endpoint.as_str()) {
            return Err(QQClientError::Transport(String::from_str("empty endpoint")));
        }
        self.endpoint = Some(config.endpoint);
        self.state = ConnectionState::Connected;
        Ok(())
    }

    fn login(&mut self, account: &str, password: &str) -> (r: QQClientResult<String>)
        ensures
            (is_blank_seq(account@) || is_blank_seq(password@)) ==> (r matches Err(
                QQClientError::Login(m),
            ) && m@ == "account and password required"@ && *final(self) == *old(self)),
            !(is_blank_seq(account@) || is_blank_seq(password@)) ==> (r matches Ok(t) && t@
                == account@ + ":logged-in"@ && final(self).state() == ConnectionState::LoggedIn),
            !(is_blank_seq(account@) || is_blank_seq(password@)) ==> (final(self).token() matches Some(
                k,
            ) && k@ == "mock-token-"@ + account@ && final(self).endpoint() == old(self).endpoint()
                && final(self).sent_view() == old(self).sent_view() && final(self).inbound_view()
                == old(self).inbound_view()),
    {
        if is_blank(account) || is_blank(password) {
            return Err(QQClientError::Login(String::from_str("account and password required")));
        }
        let token = concat_str("mock-token-", account);
        proof {
            reveal_strlit("mock-token-");
            assert(token@.subrange("mock-token-"@.len() as int, token@.len() as int) =~= account@);
        }
        self.token = Some(token);
        self.state = ConnectionState::LoggedIn;
        Ok(concat_str(account, ":logged-in"))
    }

    fn disconnect(&mut self) -> (r: QQClientResult<()>)
        ensures
            r is Ok,
            final(self).state() == ConnectionState::Disconnected,
            final(self).token() is None,
            final(self).endpoint() == old(self).endpoint(),
            final(self).sent_view() == old(self).sent_view(),
            final(self).inbound_view() == old(self).inbound_view(),
    {
        self.token = None;
        self.state = ConnectionState::Disconnected;
        Ok(())
    }

    fn send_packet(&mut self, packet: Packet) -> (r: QQClientResult<()>)
        ensures
            r is Ok,
            final(self).sent_view() == old(self).sent_view().push(packet),
            final(self).inbound_view() == old(self).inbound_view(),
            final(self).state() == old(self).state(),
            final(self).endpoint() == old(self).endpoint(),
            final(self).token() == old(self).token(),
    {
        self.sent.push(packet);
        Ok(())
    }

    fn receive_packet(&mut self) -> (r: QQClientResult<Option<Packet>>)
        ensures
            old(self).inbound_view().len() == 0 ==> r == Ok::<Option<Packet>, QQClientError>(None)
                && *final(self) == *old(self),
            old(self).inbound_view().len() > 0 ==> r == Ok::<Option<Packet>, QQClientError>(
                Some(old(self).inbound_view()[0]),
            ) && final(self).inbound_view() == old(self).inbound_view().drop_first(),
            final(self).sent_view() == old(self).sent_view(),
            final(self).state() == old(self).state(),
            final(self).endpoint() == old(self).endpoint(),
            final(self).token() == old(self).token(),
    {
        if self.inbound.len() == 0 {
            return Ok(None);
        }
        let p = self.inbound.remove(0);
        assert(self.inbound@ =~= old(self).inbound@.drop_first());
        Ok(Some(p))
    }

    fn heartbeat(&mut self, interval_ms: u64) -> (r: QQClientResult<()>)
        ensures
            r is Ok,
            *final(self) == *old(self),
    {
        Ok(())
    }
}

} // verus!
