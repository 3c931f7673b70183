//! The unified message model shared by the API and protocol layers, its JSON
//! wire form, and the handler contract that message consumers implement.

use vstd::prelude::*;
use crate::json::{
    json_opt_u64, json_string, push_json_opt_u64, push_json_string,
};
use crate::text::push_char;

verus! {

/// Content variants for messages.
#[derive(Debug, Clone, PartialEq, Eq)]
pub enum MessageContent {
    /// Plain text message.
    Text(String),
    /// Binary blob.
    Binary(Vec<u8>),
}

/// Where a message goes: one user, or one group.
#[derive(Debug, PartialEq, Eq)]
pub enum MessageRecipient {
    /// Private chat with a user.
    Private { user_id: String },
    /// Group chat.
    Group { group_id: String },
}

/// One segment of a message.
#[derive(Debug, PartialEq, Eq)]
pub enum MessageElement {
    /// Plain text.
    Text { text: String },
    /// Image by path.
    Image { path: String },
    /// Video by path, with an optional duration.
    Video { path: String, duration_ms: Option<u64> },
    /// File by path.
    File { path: String },
    /// Mention of a user.
    At { target_user: String },
    /// Reply to an earlier message.
    Reply { message_id: String },
    /// Structured payload, held as JSON text.
    Json { payload: String },
}

/// Unified message envelope.
#[derive(Debug, PartialEq, Eq)]
pub struct Message {
    /// Message identifier.
    pub id: String,
    /// Source user id.
    pub sender_id: String,
    /// Destination user or group.
    pub recipient: MessageRecipient,
    /// Message segments, in order.
    pub elements: Vec<MessageElement>,
}

impl Clone for MessageRecipient {
    fn clone(&self) -> (r: Self)
        ensures
            r == *self,
    {
        match self {
            MessageRecipient::Private { user_id } => MessageRecipient::Private {
                user_id: user_id.clone(),
            },
            MessageRecipient::Group { group_id } => MessageRecipient::Group {
                group_id: group_id.clone(),
            },
        }
    }
}

impl Clone for MessageElement {
    fn clone(&self) -> (r: Self)
        ensures
            r == *self,
    {
        match self {
            MessageElement::Text { text } => MessageElement::Text { text: text.clone() },
            MessageElement::Image { path } => MessageElement::Image { path: path.clone() },
            MessageElement::Video { path, duration_ms } => MessageElement::Video {
                path: path.clone(),
                duration_ms: *duration_ms,
            },
            MessageElement::File { path } => MessageElement::File { path: path.clone() },
            MessageElement::At { target_user } => MessageElement::At {
                target_user: target_user.clone(),
            },
            MessageElement::Reply { message_id } => MessageElement::Reply {
                message_id: message_id.clone(),
            },
            MessageElement::Json { payload } => MessageElement::Json { payload: payload.clone() },
        }
    }
}

impl Clone for Message {
    fn clone(&self) -> (r: Self)
        ensures
            r.id == self.id,
            r.sender_id == self.sender_id,
            r.recipient == self.recipient,
            r.elements@ == self.elements@,
    {
        let elements = self.elements.clone();
        assert(elements@ =~= self.elements@);
        Message {
            id: self.id.clone(),
            sender_id: self.sender_id.clone(),
            recipient: self.recipient.clone(),
            elements,
        }
    }
}

/// The JSON text of a recipient: `{"private":{"user_id":..}}` or `{"group":{"group_id":..}}`.
pub open spec fn recipient_json(r: MessageRecipient) -> Seq<char> {
    match r {
        MessageRecipient::Private { user_id } => "{\"private\":{\"user_id\":"@ + json_string(
            user_id@,
        ) + "}}"@,
        MessageRecipient::Group { group_id } => "{\"group\":{\"group_id\":"@ + json_string(
            group_id@,
        ) + "}}"@,
    }
}

/// The JSON text of one element, tagged by `"type"`.  With `sorted`, the keys
/// come in byte order, as in a JSON object map; otherwise the tag comes
/// first and the fields follow in declaration order.
pub open spec fn element_json(e: MessageElement, sorted: bool) -> Seq<char> {
    match e {
        MessageElement::Text { text } => if sorted {
            "{\"text\":"@ + json_string(text@) + ",\"type\":\"text\"}"@
        } else {
            "{\"type\":\"text\",\"text\":"@ + json_string(text@) + "}"@
        },
        MessageElement::Image { path } => if sorted {
            "{\"path\":"@ + json_string(path@) + ",\"type\":\"image\"}"@
        } else {
            "{\"type\":\"image\",\"path\":"@ + json_string(path@) + "}"@
        },
        MessageElement::Video { path, duration_ms } => if sorted {
            "{\"duration_ms\":"@ + json_opt_u64(duration_ms) + ",\"path\":"@ + json_string(path@)
                + ",\"type\":\"video\"}"@
        } else {
            "{\"type\":\"video\",\"path\":"@ + json_string(path@) + ",\"duration_ms\":"@
                + json_opt_u64(duration_ms) + "}"@
        },
        MessageElement::File { path } => if sorted {
            "{\"path\":"@ + json_string(path@) + ",\"type\":\"file\"}"@
        } else {
            "{\"type\":\"file\",\"path\":"@ + json_string(path@) + "}"@
        },
        MessageElement::At { target_user } => if sorted {
            "{\"target_user\":"@ + json_string(target_user@) + ",\"type\":\"at\"}"@
        } else {
            "{\"type\":\"at\",\"target_user\":"@ + json_string(target_user@) + "}"@
        },
        MessageElement::Reply { message_id } => if sorted {
            "{\"message_id\":"@ + json_string(message_id@) + ",\"type\":\"reply\"}"@
        } else {
            "{\"type\":\"reply\",\"message_id\":"@ + json_string(message_id@) + "}"@
        },
        MessageElement::Json { payload } => if sorted {
            "{\"payload\":"@ + payload@ + ",\"type\":\"json\"}"@
        } else {
            "{\"type\":\"json\",\"payload\":"@ + payload@ + "}"@
        },
    }
}

/// The comma-separated JSON texts of a run of elements.
pub open spec fn elements_json_items(es: Seq<MessageElement>, sorted: bool) -> Seq<char>
    decreases es.len(),
{
    if es.len() == 0 {
        seq![]
    } else if es.len() == 1 {
        element_json(es[0], sorted)
    } else {
        elements_json_items(es.drop_last(), sorted) + seq![','] + element_json(es.last(), sorted)
    }
}

/// The JSON array of a run of elements.
pub open spec fn elements_json(es: Seq<MessageElement>, sorted: bool) -> Seq<char> {
    seq!['['] + elements_json_items(es, sorted) + seq![']']
}

/// The JSON text of a message: `{"id":..,"sender_id":..,"recipient":..,"elements":[..]}`.
pub open spec fn message_json(m: Message) -> Seq<char> {
    "{\"id\":"@ + json_string(m.id@) + ",\"sender_id\":"@ + json_string(m.sender_id@)
        + ",\"recipient\":"@ + recipient_json(m.recipient) + ",\"elements\":"@ + elements_json(
        m.elements@,
        false,
    ) + "}"@
}

/// The text run of a message: its text segments, in order.
pub open spec fn text_of_elements(es: Seq<MessageElement>) -> Seq<char>
    decreases es.len(),
{
    if es.len() == 0 {
        seq![]
    } else {
        text_of_elements(es.drop_last()) + match es.last() {
            MessageElement::Text { text } => text@,
            _ => Seq::<char>::empty(),
        }
    }
}

impl Message {
    /// Builds a message holding one text segment.
    pub fn text(id: &str, sender_id: &str, recipient: MessageRecipient, text: &str) -> (m: Message)
        ensures
            m.id@ == id@,
            m.sender_id@ == sender_id@,
            m.recipient == recipient,
            m.elements@.len() == 1,
            m.elements@[0] is Text,
            m.elements@[0]->text@ == text@,
    {
        let mut elements = Vec::new();
        elements.push(MessageElement::Text { text: String::from_str(text) });
        Message {
            id: String::from_str(id),
            sender_id: String::from_str(sender_id),
            recipient,
            elements,
        }
    }
}

/// Appends the JSON text of a recipient to `out`.
pub fn push_recipient_json(out: &mut String, r: &MessageRecipient)
    ensures
        final(out)@ == old(out)@ + recipient_json(*r),
{
    let ghost start = out@;
    match r {
        MessageRecipient::Private { user_id } => {
            out.append("{\"private\":{\"user_id\":");
            push_json_string(out, user_id.as_str());
            out.append("}}");
        },
        MessageRecipient::Group { group_id } => {
            out.append("{\"group\":{\"group_id\":");
            push_json_string(out, group_id.as_str());
            out.append("}}");
        },
    }
    assert(out@ =~= start + recipient_json(*r));
}

/// Appends the JSON text of one element to `out`.
pub fn push_element_json(out: &mut String, e: &MessageElement, sorted: bool)
    ensures
        final(out)@ == old(out)@ + element_json(*e, sorted),
{
    let ghost start = out@;
    match e {
        MessageElement::Text { text } => {
            if sorted {
                out.append("{\"text\":");
                push_json_string(out, text.as_str());
                out.append(",\"type\":\"text\"}");
            } else {
                out.append("{\"type\":\"text\",\"text\":");
                push_json_string(out, text.as_str());
                out.append("}");
            }
        },
        MessageElement::Image { path } => {
            if sorted {
                out.append("{\"path\":");
                push_json_string(out, path.as_str());
                out.append(",\"type\":\"image\"}");
            } else {
                out.append("{\"type\":\"image\",\"path\":");
                push_json_string(out, path.as_str());
                out.append("}");
            }
        },
        MessageElement::Video { path, duration_ms } => {
            if sorted {
                out.append("{\"duration_ms\":");
                push_json_opt_u64(out, *duration_ms);
                out.append(",\"path\":");
                push_json_string(out, path.as_str());
                out.append(",\"type\":\"video\"}");
            } else {
                out.append("{\"type\":\"video\",\"path\":");
                push_json_string(out, path.as_str());
                out.append(",\"duration_ms\":");
                push_json_opt_u64(out, *duration_ms);
                out.append("}");
            }
        },
        MessageElement::File { path } => {
            if sorted {
                out.append("{\"path\":");
                push_json_string(out, path.as_str());
                out.append(",\"type\":\"file\"}");
            } else {
                out.append("{\"type\":\"file\",\"path\":");
                push_json_string(out, path.as_str());
                out.append("}");
            }
        },
        MessageElement::At { target_user } => {
            if sorted {
                out.append("{\"target_user\":");
                push_json_string(out, target_user.as_str());
                out.append(",\"type\":\"at\"}");
            } else {
                out.append("{\"type\":\"at\",\"target_user\":");
                push_json_string(out, target_user.as_str());
                out.append("}");
            }
        },
        MessageElement::Reply { message_id } => {
            if sorted {
                out.append("{\"message_id\":");
                push_json_string(out, message_id.as_str());
                out.append(",\"type\":\"reply\"}");
            } else {
                out.append("{\"type\":\"reply\",\"message_id\":");
                push_json_string(out, message_id.as_str());
                out.append("}");
            }
        },
        MessageElement::Json { payload } => {
            if sorted {
                out.append("{\"payload\":");
                out.append(payload.as_str());
                out.append(",\"type\":\"json\"}");
            } else {
                out.append("{\"type\":\"json\",\"payload\":");
                out.append(payload.as_str());
                out.append("}");
            }
        },
    }
    assert(out@ =~= start + element_json(*e, sorted));
}

/// Appends the JSON array of `es` to `out`.
pub fn push_elements_json(out: &mut String, es: &Vec<MessageElement>, sorted: bool)
    ensures
        final(out)@ == old(out)@ + elements_json(es@, sorted),
{
    let ghost start = out@;
    push_char(out, '[');
    let mut i: usize = 0;
    while i < es.len()
        invariant
            i <= es@.len(),
            out@ == start + seq!['['] + elements_json_items(es@.take(i as int), sorted),
        decreases es.len() - i,
    {
        let ghost before = out@;
        if i > 0 {
            push_char(out, ',');
        }
        push_element_json(out, &es[i], sorted);
        proof {
            let t = es@.take(i + 1);
            assert(t.drop_last() =~= es@.take(i as int));
            assert(t.last() == es@[i as int]);
            if i == 0 {
                assert(t.len() == 1);
                assert(elements_json_items(es@.take(0), sorted) =~= Seq::<char>::empty());
                assert(out@ =~= start + seq!['['] + elements_json_items(t, sorted));
            } else {
                assert(out@ =~= start + seq!['['] + elements_json_items(t, sorted));
            }
        }
        i = i + 1;
    }
    assert(es@.take(es@.len() as int) =~= es@);
    push_char(out, ']');
    assert(out@ =~= start + elements_json(es@, sorted));
}

/// Appends the JSON text of a message to `out`.
pub fn push_message_json(out: &mut String, m: &Message)
    ensures
        final(out)@ == old(out)@ + message_json(*m),
{
    let ghost start = out@;
    out.append("{\"id\":");
    push_json_string(out, m.id.as_str());
    out.append(",\"sender_id\":");
    push_json_string(out, m.sender_id.as_str());
    out.append(",\"recipient\":");
    push_recipient_json(out, &m.recipient);
    out.append(",\"elements\":");
    push_elements_json(out, &m.elements, false);
    out.append("}");
    assert(out@ =~= start + message_json(*m));
}

/// Encodes a message as JSON text.  Infallible: every message has a JSON form.
pub fn encode_json(m: &Message) -> (r: String)
    ensures
        r@ == message_json(*m),
{
    let mut r = String::new();
    push_message_json(&mut r, m);
    assert(r@ =~= message_json(*m));
    r
}

/// What a handler reports after consuming a message.
#[derive(Debug, Clone, PartialEq, Eq)]
pub struct HandlerOutcome {
    /// Human-readable detail of what was done.
    pub detail: String,
}

/// Handler failures.
#[derive(Debug, Clone, PartialEq, Eq)]
pub enum MessageError {
    /// The handler refused or failed to process the message.
    Handler(String),
}

/// Result alias for message handling.
pub type MessageResult<T> = Result<T, MessageError>;

/// A consumer of incoming messages, implemented by users of the library.
pub trait MessageHandler {
    /// The handler's name.
    spec fn name_spec(&self) -> Seq<char>;

    /// `detail` is a detail the handler may report for `message`.
    spec fn reports(&self, message: Message, detail: Seq<char>) -> bool;

    /// The handler promises to accept `message`.
    spec fn will_handle(&self, message: Message) -> bool;

    /// `error` is an error the handler may give for `message`.
    spec fn refuses(&self, message: Message, error: MessageError) -> bool;

    /// Short name used in summaries.
    fn name(&self) -> (r: String)
        ensures
            r@ == self.name_spec(),
    ;

    /// Consume one message: a message the handler promises to accept is
    /// accepted, and an accepted message is reported with one of its details.
    fn handle(&self, message: &Message) -> (r: MessageResult<HandlerOutcome>)
        ensures
            self.will_handle(*message) ==> r is Ok,
            r matches Ok(o) ==> self.reports(*message, o.detail@),
            r matches Err(e) ==> self.refuses(*message, e),
    ;
}

/// A handler that answers each message with its own text.
#[derive(Debug, Clone, Copy, PartialEq, Eq)]
pub struct EchoHandler;

/// Collects the text segments of `es`.
pub fn text_of(es: &Vec<MessageElement>) -> (r: String)
    ensures
        r@ == text_of_elements(es@),
{
    let mut r = String::new();
    let mut i: usize = 0;
    while i < es.len()
        invariant
            i <= es@.len(),
            r@ == text_of_elements(es@.take(i as int)),
        decreases es.len() - i,
    {
        match &es[i] {
            MessageElement::Text { text } => r.append(text.as_str()),
            _ => {},
        }
        proof {
            let t = es@.take(i + 1);
            assert(t.drop_last() =~= es@.take(i as int));
            assert(t.last() == es@[i as int]);
            assert(r@ =~= text_of_elements(t));
        }
        i = i + 1;
    }
    assert(es@.take(es@.len() as int) =~= es@);
    r
}

impl MessageHandler for EchoHandler {
    open spec fn name_spec(&self) -> Seq<char> {
        "echo"@
    }

    open spec fn reports(&self, message: Message, detail: Seq<char>) -> bool {
        detail == text_of_elements(message.elements@)
    }

    open spec fn will_handle(&self, message: Message) -> bool {
        true
    }

    open spec fn refuses(&self, message: Message, error: MessageError) -> bool {
        false
    }

    fn name(&self) -> (r: String)
        ensures
            r@ == "echo"@,
    {
        String::from_str("echo")
    }

    fn handle(&self, message: &Message) -> (r: MessageResult<HandlerOutcome>)
        ensures
            r matches Ok(o) && o.detail@ == text_of_elements(message.elements@),
    {
        Ok(HandlerOutcome { detail: text_of(&message.elements) })
    }
}

} // verus!
