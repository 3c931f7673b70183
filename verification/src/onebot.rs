//! The protocol backend that speaks to a OneBot-compatible HTTP server: URL
//! building, endpoint validation, status and send requests, and the
//! long-poll listener's handling of each fetched batch.

use vstd::prelude::*;
use crate::json::{json_string, push_json_string};
use crate::message::{Message, MessageElement, MessageRecipient};
use crate::protocol::{
    is_transport_error, protocol_error_text, result_view, ProtocolCapability, ProtocolError,
    ProtocolErrorView, ProtocolEvent, ProtocolResult,
};
use crate::text::{
    concat_str, decimal_seq, decimal_string, is_blank, is_blank_seq, lemma_occurs_in_middle,
    lemma_occurs_in_self, occurs_in, starts_with, strip_char_ends,
    strip_end_char, strip_start_char, trim, trim_seq,
};

verus! {

/// Settings of the OneBot HTTP backend.
#[derive(Debug, Clone, PartialEq, Eq)]
pub struct OneBotBackendConfig {
    /// HTTP base URL of the OneBot server.
    pub base_url: String,
    /// Optional bearer token.
    pub access_token: Option<String>,
    /// Listener poll timeout in milliseconds.
    pub listen_timeout_ms: u64,
    /// Maximum listener batch size.
    pub listen_max_events: usize,
}

impl OneBotBackendConfig {
    /// Settings for `base_url` with no token, a 600 ms poll timeout and
    /// batches of up to 8 events.
    pub fn new(base_url: &str) -> (r: Self)
        ensures
            r.base_url@ == base_url@,
            r.access_token is None,
            r.listen_timeout_ms == 600,
            r.listen_max_events == 8,
    {
        OneBotBackendConfig {
            base_url: String::from_str(base_url),
            access_token: None,
            listen_timeout_ms: 600,
            listen_max_events: 8,
        }
    }

    /// The same settings with a bearer token.
    pub fn with_access_token(self, token: &str) -> (r: Self)
        ensures
            r.base_url == self.base_url,
            r.access_token matches Some(t) && t@ == token@,
            r.listen_timeout_ms == self.listen_timeout_ms,
            r.listen_max_events == self.listen_max_events,
    {
        OneBotBackendConfig { access_token: Some(String::from_str(token)), ..self }
    }

    /// The same settings with the listener's timeout and batch size replaced.
    pub fn with_listener_settings(self, timeout_ms: u64, max_events: usize) -> (r: Self)
        ensures
            r.base_url == self.base_url,
            r.access_token == self.access_token,
            r.listen_timeout_ms == timeout_ms,
            r.listen_max_events == max_events,
    {
        OneBotBackendConfig { listen_timeout_ms: timeout_ms, listen_max_events: max_events, ..self }
    }
}

impl Default for OneBotBackendConfig {
    /// Settings with an empty base URL.
    fn default() -> (r: Self)
        ensures
            r.base_url@.len() == 0,
            r.access_token is None,
            r.listen_timeout_ms == 600,
            r.listen_max_events == 8,
    {
        let r = OneBotBackendConfig::new("");
        proof {
            reveal_strlit("");
        }
        r
    }
}

/// The plain-text rendering of one element.
pub open spec fn element_plain(e: MessageElement) -> Seq<char> {
    match e {
        MessageElement::Text { text } => text@,
        MessageElement::Image { path } => "[Image:"@ + path@ + "]"@,
        MessageElement::Video { path, .. } => "[Video:"@ + path@ + "]"@,
        MessageElement::File { path } => "[File:"@ + path@ + "]"@,
        MessageElement::At { target_user } => "[@"@ + target_user@ + "]"@,
        MessageElement::Reply { message_id } => "[Reply:"@ + message_id@ + "]"@,
        MessageElement::Json { payload } => payload@,
    }
}

/// The plain-text renderings of a run of elements, joined.
pub open spec fn plain_of_elements(es: Seq<MessageElement>) -> Seq<char>
    decreases es.len(),
{
    if es.len() == 0 {
        seq![]
    } else {
        plain_of_elements(es.drop_last()) + element_plain(es.last())
    }
}

/// The plain text of a message; a message that renders to nothing stands as
/// `sender: id`.
pub open spec fn plain_text(m: Message) -> Seq<char> {
    let o = plain_of_elements(m.elements@);
    if o.len() == 0 {
        m.sender_id@ + ": "@ + m.id@
    } else {
        o
    }
}

proof fn lemma_plain_holds_each_element(es: Seq<MessageElement>, i: int)
    requires
        0 <= i < es.len(),
    ensures
        occurs_in(element_plain(es[i]), plain_of_elements(es)),
    decreases es.len(),
{
    let before = plain_of_elements(es.drop_last());
    let last = element_plain(es.last());
    assert(plain_of_elements(es) == before + last);
    if i == es.len() - 1 {
        lemma_occurs_in_self(last);
        lemma_occurs_in_middle(last, before, last, Seq::empty());
        assert(before + last + Seq::<char>::empty() =~= before + last);
    } else {
        lemma_plain_holds_each_element(es.drop_last(), i);
        assert(es.drop_last()[i] == es[i]);
        lemma_occurs_in_middle(element_plain(es[i]), Seq::empty(), before, last);
        assert(Seq::<char>::empty() + before + last =~= before + last);
    }
}

/// The plain text sent for a message keeps every segment: a text segment's
/// text, and for each segment that names something its tag with the name —
/// `[Reply:id]`, `[Image:path]`, `[Video:path]`, `[File:path]`, `[@user]` —
/// so no such segment renders to nothing.
pub proof fn law_plain_text_keeps_every_segment(m: Message, i: int)
    requires
        0 <= i < m.elements@.len(),
    ensures
        m.elements@[i] matches MessageElement::Reply { message_id } ==> occurs_in(
            "[Reply:"@ + message_id@ + "]"@,
            plain_text(m),
        ),
        m.elements@[i] matches MessageElement::Image { path } ==> occurs_in(
            "[Image:"@ + path@ + "]"@,
            plain_text(m),
        ),
        m.elements@[i] matches MessageElement::Video { path, .. } ==> occurs_in(
            "[Video:"@ + path@ + "]"@,
            plain_text(m),
        ),
        m.elements@[i] matches MessageElement::File { path } ==> occurs_in(
            "[File:"@ + path@ + "]"@,
            plain_text(m),
        ),
        m.elements@[i] matches MessageElement::At { target_user } ==> occurs_in(
            "[@"@ + target_user@ + "]"@,
            plain_text(m),
        ),
        m.elements@[i] matches MessageElement::Text { text } ==> occurs_in(text@, plain_text(m)),
        !(m.elements@[i] is Text) && !(m.elements@[i] is Json) ==> plain_text(m).len() > 0,
{
    let es = m.elements@;
    lemma_plain_holds_each_element(es, i);
    let t = element_plain(es[i]);
    reveal_strlit("[Reply:");
    reveal_strlit("[Image:");
    reveal_strlit("[Video:");
    reveal_strlit("[File:");
    reveal_strlit("[@");
    reveal_strlit("]");
    if t.len() > 0 {
        assert(plain_of_elements(es).len() > 0);
        assert(plain_text(m) == plain_of_elements(es));
    } else if es[i] is Text {
        let k: int = 0;
        assert(plain_text(m).subrange(k, k + t.len()) =~= t);
    }
}

/// The base URL and a path joined by exactly one `/`.
pub open spec fn joined_url(base: Seq<char>, path: Seq<char>) -> Seq<char> {
    strip_end_char(base, '/') + "/"@ + strip_start_char(path, '/')
}

/// The URL a connect call checks: the trimmed endpoint, or the trimmed
/// stored base URL when the endpoint is blank.
pub open spec fn connect_target(base_url: Seq<char>, endpoint: Seq<char>) -> Seq<char> {
    if trim_seq(endpoint).len() == 0 {
        trim_seq(base_url)
    } else {
        trim_seq(endpoint)
    }
}

/// An HTTP request the backend wants made: a path under the base URL and,
/// for a POST, its JSON body.
#[derive(Debug, Clone, PartialEq, Eq)]
pub struct OneBotRequest {
    /// Path under the base URL.
    pub path: String,
    /// JSON body.
    pub body: String,
}

/// What answered a request whose body is not read.
#[derive(Debug, Clone, PartialEq, Eq)]
pub enum HttpReply {
    /// The request did not complete; the error's text.
    Failed(String),
    /// The server answered with this status.
    Answered { success: bool, status: String },
}

/// The fields of a `get_status` reply that decide the online flag.
#[derive(Debug, Clone, Copy, PartialEq, Eq, Structural)]
pub struct StatusPayload {
    /// The reply is an object with a `data` member.
    pub has_data: bool,
    /// `data.online`, when it is a boolean.
    pub data_online: Option<bool>,
    /// The top-level `online`, when it is a boolean.
    pub top_online: Option<bool>,
}

/// What answered a `get_status` request.
#[derive(Debug, Clone, PartialEq, Eq)]
pub enum StatusReply {
    /// The request did not complete; the error's text.
    Failed(String),
    /// The server answered with a non-success status.
    Rejected(String),
    /// The body was not JSON; the error's text.
    Undecodable(String),
    /// The decoded body.
    Payload(StatusPayload),
}

/// What one long-poll of `message/listen` brought.
#[derive(Debug, Clone, PartialEq, Eq)]
pub enum ListenFetch {
    /// The request did not complete; the error's text.
    Failed(String),
    /// The server answered with a non-success status.
    Rejected(String),
    /// The body was not JSON; the error's text.
    Undecodable(String),
    /// The items of the body's `data` array, each decoded or not.
    Items(Vec<ProtocolResult<ProtocolEvent>>),
}

/// One event for the listener to emit.  When `required` is set and emitting
/// fails, the listener stops emitting this batch.
#[derive(Debug, Clone, PartialEq, Eq)]
pub struct ListenDelivery {
    /// The event.
    pub event: ProtocolEvent,
    /// Whether a failed emit ends the batch.
    pub required: bool,
}

/// What the listener does with one fetch: emit these events in order, then
/// wait `sleep_ms`.
#[derive(Debug, Clone, PartialEq, Eq)]
pub struct ListenRound {
    /// Events to emit.
    pub deliveries: Vec<ListenDelivery>,
    /// Pause before the next fetch.
    pub sleep_ms: u64,
}

/// The online flag of a status payload: `data.online` when there is a `data`
/// member, else the top-level `online`; `false` when it is not a boolean.
pub open spec fn status_online(p: StatusPayload) -> bool {
    if p.has_data {
        p.data_online == Some(true)
    } else {
        p.top_online == Some(true)
    }
}

/// What a status reply stands for: the online flag, or an error.
pub open spec fn status_reply_result(reply: StatusReply) -> Result<bool, ProtocolErrorView> {
    match reply {
        StatusReply::Failed(e) => Err(ProtocolErrorView::Transport(e@)),
        StatusReply::Rejected(s) => Err(
            ProtocolErrorView::Transport("status request failed with "@ + s@),
        ),
        StatusReply::Undecodable(e) => Err(ProtocolErrorView::Serialization(e@)),
        StatusReply::Payload(p) => Ok(status_online(p)),
    }
}

/// `d` carries a warning whose text is `msg`, and is not required.
pub open spec fn is_warning_delivery(d: ListenDelivery, msg: Seq<char>) -> bool {
    &&& !d.required
    &&& d.event matches ProtocolEvent::Warning { message } && message@ == msg
}

/// The handling of one decoded or undecodable listen item.
pub open spec fn item_delivery(item: ProtocolResult<ProtocolEvent>, d: ListenDelivery) -> bool {
    match item {
        Ok(e) => d.event == e && d.required,
        Err(err) => is_warning_delivery(
            d,
            "failed to decode protocol event: "@ + protocol_error_text(err@),
        ),
    }
}

/// Maps a status reply to the online flag or the error it stands for.
pub fn map_status_reply(reply: StatusReply) -> (r: ProtocolResult<bool>)
    ensures
        result_view(r) == status_reply_result(reply),
{
    match reply {
        StatusReply::Failed(e) => Err(ProtocolError::Transport(e)),
        StatusReply::Rejected(s) => Err(
            ProtocolError::Transport(concat_str("status request failed with ", s.as_str())),
        ),
        StatusReply::Undecodable(e) => Err(ProtocolError::Serialization(e)),
        StatusReply::Payload(p) => Ok(map_status_payload(p)),
    }
}

/// The online flag of a decoded status body.
pub fn map_status_payload(p: StatusPayload) -> (r: bool)
    ensures
        r == status_online(p),
{
    if p.has_data {
        match p.data_online {
            Some(b) => b,
            None => false,
        }
    } else {
        match p.top_online {
            Some(b) => b,
            None => false,
        }
    }
}

/// The warning delivery for a failed fetch with text `a` + `b`.
fn warning_delivery(a: &str, b: &str) -> (d: ListenDelivery)
    ensures
        is_warning_delivery(d, a@ + b@),
{
    ListenDelivery { event: ProtocolEvent::Warning { message: concat_str(a, b) }, required: false }
}

/// Protocol backend against a OneBot-compatible HTTP/JSON server.
pub struct OneBotHttpBackend {
    base_url: String,
    access_token: Option<String>,
    listen_timeout_ms: u64,
    listen_max_events: usize,
    connected: bool,
    listening: bool,
    stop_requested: bool,
}

impl OneBotHttpBackend {
    /// The stored base URL.
    pub closed spec fn base_url_view(&self) -> Seq<char> {
        self.base_url@
    }

    /// The bearer token.
    pub closed spec fn access_token_view(&self) -> Option<String> {
        self.access_token
    }

    /// The listener's poll timeout.
    pub closed spec fn listen_timeout_view(&self) -> u64 {
        self.listen_timeout_ms
    }

    /// The listener's batch size.
    pub closed spec fn listen_max_events_view(&self) -> usize {
        self.listen_max_events
    }

    /// Whether the server was reached.
    pub closed spec fn connected(&self) -> bool {
        self.connected
    }

    /// Whether a listener is running.
    pub closed spec fn listening(&self) -> bool {
        self.listening
    }

    /// Whether a listener stop was requested.
    pub closed spec fn stop_requested(&self) -> bool {
        self.stop_requested
    }

    /// A disconnected backend with `config`'s settings.
    pub fn new(config: OneBotBackendConfig) -> (r: Self)
        ensures
            r.base_url_view() == config.base_url@,
            r.access_token_view() == config.access_token,
            r.listen_timeout_view() == config.listen_timeout_ms,
            r.listen_max_events_view() == config.listen_max_events,
            !r.connected(),
            !r.listening(),
            !r.stop_requested(),
    {
        OneBotHttpBackend {
            base_url: config.base_url,
            access_token: config.access_token,
            listen_timeout_ms: config.listen_timeout_ms,
            listen_max_events: config.listen_max_events,
            connected: false,
            listening: false,
            stop_requested: false,
        }
    }

    /// Backend name.
    pub fn name(&self) -> (r: &'static str)
        ensures
            r@ == "onebot-http"@,
    {
        "onebot-http"
    }

    /// Supported capabilities.
    pub fn capabilities(&self) -> (r: Vec<ProtocolCapability>)
        ensures
            r@ == seq![
                ProtocolCapability::Message,
                ProtocolCapability::Login,
                ProtocolCapability::Meta,
            ],
    {
        let mut v = Vec::new();
        v.push(ProtocolCapability::Message);
        v.push(ProtocolCapability::Login);
        v.push(ProtocolCapability::Meta);
        assert(v@ =~= seq![
            ProtocolCapability::Message,
            ProtocolCapability::Login,
            ProtocolCapability::Meta,
        ]);
        v
    }

    /// The bearer token sent with every request.
    pub fn access_token(&self) -> (r: &Option<String>)
        ensures
            *r == self.access_token_view(),
    {
        &self.access_token
    }

    /// Whether the server was reached.
    pub fn is_connected(&self) -> (r: bool)
        ensures
            r == self.connected(),
    {
        self.connected
    }

    /// Whether a listener is running.
    pub fn is_listening(&self) -> (r: bool)
        ensures
            r == self.listening(),
    {
        self.listening
    }

    /// The URL of `path` under the base URL, joined by one `/`.
    pub fn endpoint_url(&self, path: &str) -> (r: String)
        ensures
            r@ == joined_url(self.base_url_view(), path@),
    {
        let base = strip_char_ends(self.base_url.as_str(), '/', false, true);
        let sub = strip_char_ends(path, '/', true, false);
        let mut r = base;
        r.append("/");
        r.append(sub.as_str());
        r
    }

    /// The plain text of a message, as sent to the server: text as is,
    /// media and references as bracketed tags, JSON payloads as their text.
    pub fn message_to_plain_text(message: &Message) -> (r: String)
        ensures
            r@ == plain_text(*message),
    {
        let mut output = String::new();
        let es = &message.elements;
        let mut i: usize = 0;
        while i < es.len()
            invariant
                i <= es@.len(),
                es@ == message.elements@,
                output@ == plain_of_elements(es@.take(i as int)),
            decreases es.len() - i,
        {
            let ghost before = output@;
            match &es[i] {
                MessageElement::Text { text } => output.append(text.as_str()),
                MessageElement::Image { path } => {
                    output.append("[Image:");
                    output.append(path.as_str());
                    output.append("]");
                },
                MessageElement::Video { path, .. } => {
                    output.append("[Video:");
                    output.append(path.as_str());
                    output.append("]");
                },
                MessageElement::File { path } => {
                    output.append("[File:");
                    output.append(path.as_str());
                    output.append("]");
                },
                MessageElement::At { target_user } => {
                    output.append("[@");
                    output.append(target_user.as_str());
                    output.append("]");
                },
                MessageElement::Reply { message_id } => {
                    output.append("[Reply:");
                    output.append(message_id.as_str());
                    output.append("]");
                },
                MessageElement::Json { payload } => output.append(payload.as_str()),
            }
            proof {
                let t = es@.take(i + 1);
                assert(t.drop_last() =~= es@.take(i as int));
                assert(t.last() == es@[i as int]);
                assert(output@ =~= before + element_plain(es@[i as int]));
            }
            i = i + 1;
        }
        assert(es@.take(es@.len() as int) =~= es@);
        if output.as_str().unicode_len() == 0 {
            output.append(message.sender_id.as_str());
            output.append(": ");
            output.append(message.id.as_str());
        }
        output
    }

    /// Checks a connect call before the server is asked for its status: the
    /// endpoint (or, when blank, the stored base URL) must be non-blank and
    /// use `http://` or `https://`, and the stored base URL, which every
    /// request goes to, must be non-blank.  Gives the status URL.
    pub fn prepare_connect(&self, endpoint: &str) -> (r: ProtocolResult<String>)
        ensures
            ({
                let target = connect_target(self.base_url_view(), endpoint@);
                &&& target.len() == 0 ==> is_transport_error(r, "empty onebot endpoint"@)
                &&& target.len() != 0 && !("http://"@.is_prefix_of(target) || "https://"@.is_prefix_of(
                    target,
                )) ==> is_transport_error(
                    r,
                    "onebot endpoint must start with http:// or https://"@,
                )
                &&& target.len() != 0 && ("http://"@.is_prefix_of(target) || "https://"@.is_prefix_of(
                    target,
                )) && is_blank_seq(self.base_url_view()) ==> is_transport_error(
                    r,
                    "empty base URL"@,
                )
                &&& target.len() != 0 && ("http://"@.is_prefix_of(target) || "https://"@.is_prefix_of(
                    target,
                )) && !is_blank_seq(self.base_url_view()) ==> (r matches Ok(u) && u@ == joined_url(
                    self.base_url_view(),
                    "/get_status"@,
                ))
            }),
    {
        let normalized = trim(endpoint);
        let target = if normalized.as_str().unicode_len() == 0 {
            trim(self.base_url.as_str())
        } else {
            normalized
        };
        if target.as_str().unicode_len() == 0 {
            return Err(ProtocolError::Transport(String::from_str("empty onebot endpoint")));
        }
        if !starts_with(target.as_str(), "http://") && !starts_with(target.as_str(), "https://") {
            return Err(
                ProtocolError::Transport(
                    String::from_str("onebot endpoint must start with http:// or https://"),
                ),
            );
        }
        self.status_url()
    }

    /// The status URL, unless the base URL is blank.
    pub fn status_url(&self) -> (r: ProtocolResult<String>)
        ensures
            is_blank_seq(self.base_url_view()) ==> is_transport_error(r, "empty base URL"@),
            !is_blank_seq(self.base_url_view()) ==> (r matches Ok(u) && u@ == joined_url(
                self.base_url_view(),
                "/get_status"@,
            )),
    {
        if is_blank(self.base_url.as_str()) {
            return Err(ProtocolError::Transport(String::from_str("empty base URL")));
        }
        Ok(self.endpoint_url("/get_status"))
    }

    /// What a login query needs: nothing while disconnected (the answer is
    /// `false`), else the status URL to ask, unless the base URL is blank.
    pub fn login_query(&self) -> (r: ProtocolResult<Option<String>>)
        ensures
            !self.connected() ==> r == Ok::<Option<String>, ProtocolError>(None),
            self.connected() && is_blank_seq(self.base_url_view()) ==> is_transport_error(
                r,
                "empty base URL"@,
            ),
            self.connected() && !is_blank_seq(self.base_url_view()) ==> (r matches Ok(Some(u))
                && u@ == joined_url(self.base_url_view(), "/get_status"@)),
    {
        if !self.connected {
            return Ok(None);
        }
        match self.status_url() {
            Ok(u) => Ok(Some(u)),
            Err(e) => Err(e),
        }
    }

    /// Completes a connect call with the server's status reply: a reply
    /// that stands for an error fails the call; otherwise the backend is
    /// connected and a pending stop is cleared.
    pub fn complete_connect(&mut self, reply: StatusReply) -> (r: ProtocolResult<()>)
        ensures
            r is Ok <==> reply is Payload,
            r is Ok ==> final(self).connected() && !final(self).stop_requested(),
            r is Err ==> final(self).connected() == old(self).connected(),
            r is Err ==> final(self).stop_requested() == old(self).stop_requested(),
            r matches Err(e) ==> status_reply_result(reply) == Err::<bool, ProtocolErrorView>(e@),
            final(self).listening() == old(self).listening(),
            final(self).base_url_view() == old(self).base_url_view(),
            final(self).access_token_view() == old(self).access_token_view(),
            final(self).listen_timeout_view() == old(self).listen_timeout_view(),
            final(self).listen_max_events_view() == old(self).listen_max_events_view(),
    {
        match map_status_reply(reply) {
            Ok(_) => {
                self.connected = true;
                self.stop_requested = false;
                Ok(())
            },
            Err(e) => Err(e),
        }
    }

    /// Ends the session and asks a running listener to stop.
    pub fn disconnect(&mut self) -> (r: ProtocolResult<()>)
        ensures
            r is Ok,
            !final(self).connected(),
            !final(self).listening(),
            final(self).stop_requested(),
            final(self).base_url_view() == old(self).base_url_view(),
            final(self).access_token_view() == old(self).access_token_view(),
            final(self).listen_timeout_view() == old(self).listen_timeout_view(),
            final(self).listen_max_events_view() == old(self).listen_max_events_view(),
    {
        self.connected = false;
        self.stop_requested = true;
        self.listening = false;
        Ok(())
    }

    /// The request that delivers `message`: refused while disconnected or
    /// when its plain text is blank; otherwise a POST to `/send_private_msg`
    /// with `{"user_id":..,"message":..}` or to `/send_group_msg` with
    /// `{"group_id":..,"message":..}`.
    pub fn prepare_send(&self, message: &Message) -> (r: ProtocolResult<OneBotRequest>)
        ensures
            !self.connected() ==> is_transport_error(r, "protocol is not connected"@),
            self.connected() && is_blank_seq(plain_text(*message)) ==> is_transport_error(
                r,
                "message content is empty"@,
            ),
            self.connected() && !is_blank_seq(plain_text(*message)) ==> (r matches Ok(req) && (
            match message.recipient {
                MessageRecipient::Private { user_id } => req.path@ == "/send_private_msg"@
                    && req.body@ == "{\"user_id\":"@ + json_string(user_id@) + ",\"message\":"@
                    + json_string(plain_text(*message)) + "}"@,
                MessageRecipient::Group { group_id } => req.path@ == "/send_group_msg"@
                    && req.body@ == "{\"group_id\":"@ + json_string(group_id@) + ",\"message\":"@
                    + json_string(plain_text(*message)) + "}"@,
            })),
    {
        if !self.connected {
            return Err(ProtocolError::Transport(String::from_str("protocol is not connected")));
        }
        let payload = Self::message_to_plain_text(message);
        if is_blank(payload.as_str()) {
            return Err(ProtocolError::Transport(String::from_str("message content is empty")));
        }
        let mut body = String::new();
        let path;
        match &message.recipient {
            MessageRecipient::Private { user_id } => {
                path = String::from_str("/send_private_msg");
                body.append("{\"user_id\":");
                push_json_string(&mut body, user_id.as_str());
            },
            MessageRecipient::Group { group_id } => {
                path = String::from_str("/send_group_msg");
                body.append("{\"group_id\":");
                push_json_string(&mut body, group_id.as_str());
            },
        }
        body.append(",\"message\":");
        push_json_string(&mut body, payload.as_str());
        body.append("}");
        Ok(OneBotRequest { path, body })
    }

    /// Maps the reply to a send request.
    pub fn map_send_reply(reply: HttpReply) -> (r: ProtocolResult<()>)
        ensures
            reply matches HttpReply::Failed(e) ==> is_transport_error(r, e@),
            reply matches HttpReply::Answered { success, status } ==> (if success {
                r is Ok
            } else {
                is_transport_error(r, "send request rejected: "@ + status@)
            }),
    {
        match reply {
            HttpReply::Failed(e) => Err(ProtocolError::Transport(e)),
            HttpReply::Answered { success, status } => {
                if success {
                    Ok(())
                } else {
                    Err(
                        ProtocolError::Transport(
                            concat_str("send request rejected: ", status.as_str()),
                        ),
                    )
                }
            },
        }
    }

    /// Starts listening and gives the opening event, which names the base
    /// URL.  Refused while disconnected or when a listener is running.
    pub fn begin_listen(&mut self) -> (r: ProtocolResult<ProtocolEvent>)
        ensures
            !old(self).connected() ==> is_transport_error(r, "protocol is not connected"@)
                && final(self).listening() == old(self).listening(),
            old(self).connected() && old(self).listening() ==> is_transport_error(
                r,
                "listen already started"@,
            ) && final(self).listening(),
            old(self).connected() && !old(self).listening() ==> (r matches Ok(
                ProtocolEvent::Connected { endpoint },
            ) && endpoint@ == old(self).base_url_view()) && final(self).listening(),
            final(self).connected() == old(self).connected(),
            final(self).stop_requested() == old(self).stop_requested(),
            final(self).base_url_view() == old(self).base_url_view(),
            final(self).access_token_view() == old(self).access_token_view(),
            final(self).listen_timeout_view() == old(self).listen_timeout_view(),
            final(self).listen_max_events_view() == old(self).listen_max_events_view(),
    {
        if !self.connected {
            return Err(ProtocolError::Transport(String::from_str("protocol is not connected")));
        }
        if self.listening {
            return Err(ProtocolError::Transport(String::from_str("listen already started")));
        }
        self.listening = true;
        Ok(ProtocolEvent::Connected { endpoint: self.base_url.clone() })
    }

    /// Whether the listener should fetch again.
    pub fn should_keep_listening(&self) -> (r: bool)
        ensures
            r == (self.connected() && !self.stop_requested()),
    {
        self.connected && !self.stop_requested
    }

    /// The query of a `message/listen` fetch: the poll timeout and the batch
    /// size, in decimal.
    pub fn listen_query(&self) -> (r: (String, String))
        ensures
            r.0@ == decimal_seq(self.listen_timeout_view() as nat),
            r.1@ == decimal_seq(self.listen_max_events_view() as nat),
    {
        (decimal_string(self.listen_timeout_ms), decimal_string(self.listen_max_events as u64))
    }

    /// Marks the listener finished and gives the closing event.
    pub fn finish_listen(&mut self) -> (r: ProtocolEvent)
        ensures
            r == ProtocolEvent::Disconnected,
            !final(self).listening(),
            final(self).connected() == old(self).connected(),
            final(self).stop_requested() == old(self).stop_requested(),
            final(self).base_url_view() == old(self).base_url_view(),
            final(self).access_token_view() == old(self).access_token_view(),
            final(self).listen_timeout_view() == old(self).listen_timeout_view(),
            final(self).listen_max_events_view() == old(self).listen_max_events_view(),
    {
        self.listening = false;
        ProtocolEvent::Disconnected
    }

    /// What the listener does with one fetch.  A failed request is reported
    /// and followed by a 500 ms pause, a rejected or undecodable reply by a
    /// 200 ms pause.  A batch emits each decoded event (a failed emit ends
    /// the batch) and a warning for each undecodable item; a batch with no
    /// decoded event is followed by a 20 ms pause.
    pub fn listen_round(fetch: ListenFetch) -> (r: ListenRound)
        ensures
            fetch matches ListenFetch::Failed(e) ==> r.sleep_ms == 500 && r.deliveries@.len() == 1
                && is_warning_delivery(r.deliveries@[0], "message/listen failed: "@ + e@),
            fetch matches ListenFetch::Rejected(s) ==> r.sleep_ms == 200 && r.deliveries@.len()
                == 1 && is_warning_delivery(r.deliveries@[0], "message/listen non-success: "@ + s@),
            fetch matches ListenFetch::Undecodable(e) ==> r.sleep_ms == 200 && r.deliveries@.len()
                == 1 && is_warning_delivery(
                r.deliveries@[0],
                "message/listen payload decode failed: "@ + e@,
            ),
            fetch matches ListenFetch::Items(items) ==> r.deliveries@.len() == items@.len() && (
            forall|i: int|
                0 <= i < items@.len() ==> item_delivery(
                    #[trigger] items@[i],
                    r.deliveries@[i],
                )) && r.sleep_ms == (if exists|i: int|
                0 <= i < items@.len() && (#[trigger] items@[i]) is Ok {
                0u64
            } else {
                20u64
            }),
    {
        match fetch {
            ListenFetch::Failed(e) => {
                let mut d = Vec::new();
                d.push(warning_delivery("message/listen failed: ", e.as_str()));
                ListenRound { deliveries: d, sleep_ms: 500 }
            },
            ListenFetch::Rejected(s) => {
                let mut d = Vec::new();
                d.push(warning_delivery("message/listen non-success: ", s.as_str()));
                ListenRound { deliveries: d, sleep_ms: 200 }
            },
            ListenFetch::Undecodable(e) => {
                let mut d = Vec::new();
                d.push(warning_delivery("message/listen payload decode failed: ", e.as_str()));
                ListenRound { deliveries: d, sleep_ms: 200 }
            },
            ListenFetch::Items(items) => {
                let ghost all = items@;
                assert(all.len() == items.len());
                let mut rest = items;
                let mut d: Vec<ListenDelivery> = Vec::new();
                let mut delivered = false;
                let mut i: usize = 0;
                while rest.len() > 0
                    invariant
                        i <= all.len(),
                        all.len() <= usize::MAX,
                        rest@ == all.subrange(i as int, all.len() as int),
                        d@.len() == i,
                        forall|k: int| 0 <= k < i ==> item_delivery(#[trigger] all[k], d@[k]),
                        delivered == exists|k: int| 0 <= k < i && (#[trigger] all[k]) is Ok,
                    decreases rest.len(),
                {
                    let item = rest.remove(0);
                    assert(item == all[i as int]);
                    assert(rest@ =~= all.subrange(i + 1, all.len() as int));
                    match item {
                        Ok(e) => {
                            d.push(ListenDelivery { event: e, required: true });
                            delivered = true;
                        },
                        Err(err) => {
                            d.push(
                                warning_delivery(
                                    "failed to decode protocol event: ",
                                    err.to_message_string().as_str(),
                                ),
                            );
                        },
                    }
                    i = i + 1;
                }
                ListenRound { deliveries: d, sleep_ms: if delivered { 0 } else { 20 } }
            },
        }
    }
}

} // verus!
