//! Event delivery through the API: the long-poll query, the event-type
//! filter, and the OneBot event payload each protocol event is sent as.

use vstd::prelude::*;
use crate::json::{json_string, push_json_string, push_json_u64, json_u64};
use crate::message::{
    element_json, elements_json, elements_json_items, encode_json, message_json, push_elements_json,
    Message, MessageElement, MessageRecipient,
};
use crate::plugin::PluginEvent;
use crate::protocol::{is_transport_error, ProtocolError, ProtocolErrorView, ProtocolEvent, ProtocolResult};
use crate::text::{
    chars_of, lemma_occurs_in_middle, lemma_occurs_in_self, lemma_occurs_in_trans, occurs_in,
    string_from_range, trim, trim_seq,
};

verus! {

/// Query options of the long-poll routes.
#[derive(Debug, Clone, PartialEq, Eq)]
pub struct ListenQuery {
    /// Poll timeout in milliseconds.
    pub timeout_ms: Option<u64>,
    /// Poll timeout in seconds.
    pub timeout: Option<u64>,
    /// Maximum events to collect.
    pub max_events: Option<usize>,
    /// Maximum events to collect, by its other name.
    pub limit: Option<usize>,
    /// Comma-separated event types to keep.
    pub type_filter: Option<String>,
    /// The event types by their other name.
    pub post_type: Option<String>,
}

/// The poll timeout of a query: `timeout_ms`, else `timeout` seconds
/// (saturating), else 200 ms.
pub open spec fn listen_timeout_spec(q: ListenQuery) -> u64 {
    match q.timeout_ms {
        Some(t) => t,
        None => match q.timeout {
            Some(s) => if s * 1000 > u64::MAX {
                u64::MAX
            } else {
                (s * 1000) as u64
            },
            None => 200,
        },
    }
}

/// The batch size of a query: `max_events`, else `limit`, else 8, kept
/// within 1 to 32.
pub open spec fn listen_max_events_spec(q: ListenQuery) -> usize {
    let n = match q.max_events {
        Some(m) => m,
        None => match q.limit {
            Some(l) => l,
            None => 8,
        },
    };
    if n < 1 {
        1
    } else if n > 32 {
        32
    } else {
        n
    }
}

/// The lower-case form of text, as `str::to_lowercase` gives it.
pub uninterp spec fn lowercase(s: Seq<char>) -> Seq<char>;

/// `str::to_lowercase`: the Unicode lower-case mapping, a function of the
/// text alone; named, not spelled out.
#[verifier::external_body]
fn to_lowercase(s: &str) -> (r: String)
    ensures
        r@ == lowercase(s@),
{
    s.to_lowercase()
}

/// The pieces of `s` between occurrences of `sep`, as `str::split` gives
/// them (an empty text is one empty piece).
pub open spec fn split_on(s: Seq<char>, sep: char) -> Seq<Seq<char>>
    decreases s.len(),
{
    if s.len() == 0 {
        seq![Seq::<char>::empty()]
    } else {
        let p = split_on(s.drop_last(), sep);
        if s.last() == sep {
            p.push(Seq::<char>::empty())
        } else {
            p.update(p.len() - 1, p.last().push(s.last()))
        }
    }
}

/// The event types a list of pieces names: each piece trimmed and
/// lower-cased, the empty ones left out.
pub open spec fn named_types(pieces: Seq<Seq<char>>) -> Set<Seq<char>> {
    Set::new(
        |t: Seq<char>|
            exists|j: int|
                0 <= j < pieces.len() && t == lowercase(trim_seq(#[trigger] pieces[j])) && t.len()
                    > 0,
    )
}

/// The text of each string.
pub open spec fn string_views(v: Seq<String>) -> Seq<Seq<char>> {
    v.map_values(|s: String| s@)
}

/// The filter text of a query: `type`, else `post_type`.
pub open spec fn filter_text(q: ListenQuery) -> Option<String> {
    match q.type_filter {
        Some(t) => Some(t),
        None => q.post_type,
    }
}

/// The post type of an event: `message` for messages, `meta_event` otherwise.
pub open spec fn post_type_spec(e: ProtocolEvent) -> Seq<char> {
    match e {
        ProtocolEvent::MessageReceived { .. } => "message"@,
        _ => "meta_event"@,
    }
}

impl ListenQuery {
    /// The poll timeout in milliseconds.
    pub fn timeout_value(&self) -> (r: u64)
        ensures
            r == listen_timeout_spec(*self),
    {
        match self.timeout_ms {
            Some(t) => t,
            None => match self.timeout {
                Some(s) => {
                    if s > u64::MAX / 1000 {
                        u64::MAX
                    } else {
                        s * 1000
                    }
                },
                None => 200,
            },
        }
    }

    /// The batch size.
    pub fn max_events_value(&self) -> (r: usize)
        ensures
            r == listen_max_events_spec(*self),
    {
        let n = match self.max_events {
            Some(m) => m,
            None => match self.limit {
                Some(l) => l,
                None => 8,
            },
        };
        if n < 1 {
            1
        } else if n > 32 {
            32
        } else {
            n
        }
    }
}

/// Adds the type a piece names to `found`, unless it is empty or there.
fn add_piece(found: &mut Vec<String>, v: &Vec<char>, from: usize, to: usize, pieces: Ghost<Seq<Seq<char>>>)
    requires
        from <= to <= v@.len(),
        string_views(old(found)@).no_duplicates(),
        string_views(old(found)@).to_set() == named_types(pieces@),
    ensures
        string_views(final(found)@).no_duplicates(),
        string_views(final(found)@).to_set() == named_types(
            pieces@.push(v@.subrange(from as int, to as int)),
        ),
{
    let ghost p = v@.subrange(from as int, to as int);
    let piece = string_from_range(v, from, to);
    let t = trim(piece.as_str());
    let l = to_lowercase(t.as_str());
    let ghost new_pieces = pieces@.push(p);
    let ghost old_views = string_views(found@);
    assert(named_types(new_pieces) =~= (if l@.len() > 0 {
        named_types(pieces@).insert(l@)
    } else {
        named_types(pieces@)
    })) by {
        assert forall|x: Seq<char>| named_types(new_pieces).contains(x) implies (if l@.len() > 0 {
            named_types(pieces@).insert(l@)
        } else {
            named_types(pieces@)
        }).contains(x) by {
            let j = choose|j: int|
                0 <= j < new_pieces.len() && x == lowercase(trim_seq(#[trigger] new_pieces[j]))
                    && x.len() > 0;
            if j < pieces@.len() {
                assert(new_pieces[j] == pieces@[j]);
            }
        }
        assert forall|x: Seq<char>| (if l@.len() > 0 {
            named_types(pieces@).insert(l@)
        } else {
            named_types(pieces@)
        }).contains(x) implies named_types(new_pieces).contains(x) by {
            if named_types(pieces@).contains(x) {
                let j = choose|j: int|
                    0 <= j < pieces@.len() && x == lowercase(trim_seq(#[trigger] pieces@[j]))
                        && x.len() > 0;
                assert(new_pieces[j] == pieces@[j]);
            } else {
                assert(new_pieces[pieces@.len() as int] == p);
            }
        }
    }
    if l.as_str().unicode_len() == 0 {
        return;
    }
    let mut k: usize = 0;
    while k < found.len()
        invariant
            k <= found@.len(),
            l@.len() > 0,
            from <= to <= v@.len(),
            new_pieces == pieces@.push(v@.subrange(from as int, to as int)),
            string_views(found@) == old_views,
            old_views.no_duplicates(),
            old_views.to_set() == named_types(pieces@),
            named_types(new_pieces) == named_types(pieces@).insert(l@),
            forall|m: int| 0 <= m < k ==> found@[m]@ != l@,
        decreases found.len() - k,
    {
        if found[k] == l {
            assert(old_views[k as int] == l@);
            assert(old_views.to_set().contains(l@));
            assert(named_types(pieces@).insert(l@) =~= named_types(pieces@));
            return;
        }
        k = k + 1;
    }
    let ghost before = found@;
    found.push(l);
    proof {
        let views = string_views(found@);
        assert(views =~= old_views.push(l@));
        assert(!old_views.contains(l@)) by {
            if old_views.contains(l@) {
                let m = choose|m: int| 0 <= m < old_views.len() && old_views[m] == l@;
                assert(before[m]@ == l@);
            }
        }
        assert(views.no_duplicates()) by {
            assert forall|a: int, b: int| 0 <= a < views.len() && 0 <= b < views.len() && a != b implies views[a] != views[b] by {
                if a < old_views.len() && b < old_views.len() {
                    assert(views[a] == old_views[a] && views[b] == old_views[b]);
                } else if a < old_views.len() {
                    assert(views[a] == old_views[a]);
                    assert(old_views.contains(views[a]));
                } else if b < old_views.len() {
                    assert(views[b] == old_views[b]);
                    assert(old_views.contains(views[b]));
                }
            }
        }
        assert(views.to_set() =~= old_views.to_set().insert(l@)) by {
            assert forall|x: Seq<char>| views.to_set().contains(x) implies old_views.to_set().insert(l@).contains(x) by {
                let m = choose|m: int| 0 <= m < views.len() && views[m] == x;
                if m < old_views.len() {
                    assert(old_views[m] == x);
                }
            }
            assert forall|x: Seq<char>| old_views.to_set().insert(l@).contains(x) implies views.to_set().contains(x) by {
                if x == l@ {
                    assert(views[old_views.len() as int] == x);
                } else {
                    let m = choose|m: int| 0 <= m < old_views.len() && old_views[m] == x;
                    assert(views[m] == x);
                }
            }
        }
    }
}

/// The event types a query keeps: the comma-separated entries of `type`
/// (else `post_type`), trimmed and lower-cased, empty ones left out, each
/// once.  No filter when the query names none.
pub fn parse_event_types(query: &ListenQuery) -> (r: Option<Vec<String>>)
    ensures
        filter_text(*query) is None ==> r is None,
        filter_text(*query) matches Some(raw) ==> ({
            let types = named_types(split_on(raw@, ','));
            &&& r is None <==> types =~= Set::<Seq<char>>::empty()
            &&& r matches Some(v) ==> string_views(v@).no_duplicates() && string_views(v@).to_set()
                == types && v@.len() > 0
        }),
{
    let raw = match &query.type_filter {
        Some(t) => t,
        None => match &query.post_type {
            Some(p) => p,
            None => {
                return None;
            },
        },
    };
    let v = chars_of(raw.as_str());
    let mut found: Vec<String> = Vec::new();
    let mut start: usize = 0;
    let mut i: usize = 0;
    let ghost mut pieces: Seq<Seq<char>> = Seq::empty();
    assert(string_views(found@) =~= Seq::<Seq<char>>::empty());
    assert(named_types(pieces) =~= Set::<Seq<char>>::empty());
    assert(v@.take(0) =~= Seq::<char>::empty());
    assert(v@.subrange(0, 0) =~= Seq::<char>::empty());
    while i < v.len()
        invariant
            v@ == raw@,
            start <= i <= v@.len(),
            split_on(v@.take(i as int), ',') == pieces.push(v@.subrange(start as int, i as int)),
            string_views(found@).no_duplicates(),
            string_views(found@).to_set() == named_types(pieces),
        decreases v.len() - i,
    {
        proof {
            let t = v@.take(i + 1);
            assert(t.drop_last() =~= v@.take(i as int));
            assert(t.last() == v@[i as int]);
        }
        if v[i] == ',' {
            add_piece(&mut found, &v, start, i, Ghost(pieces));
            proof {
                pieces = pieces.push(v@.subrange(start as int, i as int));
                assert(v@.subrange(i + 1, i + 1) =~= Seq::<char>::empty());
            }
            start = i + 1;
        } else {
            proof {
                let s0 = v@.subrange(start as int, i as int);
                assert(s0.push(v@[i as int]) =~= v@.subrange(start as int, i + 1));
                let p = pieces.push(s0);
                assert(p.last() == s0);
                assert(p.update(p.len() - 1, p.last().push(v@[i as int])) =~= pieces.push(
                    v@.subrange(start as int, i + 1),
                ));
            }
        }
        i = i + 1;
    }
    add_piece(&mut found, &v, start, i, Ghost(pieces));
    proof {
        assert(v@.take(v@.len() as int) =~= v@);
        let types = named_types(split_on(raw@, ','));
        assert(string_views(found@).to_set() == types);
        if found@.len() == 0 {
            assert(string_views(found@) =~= Seq::<Seq<char>>::empty());
            assert(types =~= Set::<Seq<char>>::empty());
        } else {
            assert(types.contains(string_views(found@)[0]));
        }
    }
    if found.len() == 0 {
        None
    } else {
        Some(found)
    }
}

/// The post type of an event.
pub fn onebot_event_post_type(event: &ProtocolEvent) -> (r: &'static str)
    ensures
        r@ == post_type_spec(*event),
{
    match event {
        ProtocolEvent::MessageReceived { .. } => "message",
        _ => "meta_event",
    }
}

/// A type filter passes an event: any event when there is no filter, else
/// one whose post type the filter names.
pub open spec fn accepts(types: Option<Vec<String>>, e: ProtocolEvent) -> bool {
    match types {
        None => true,
        Some(v) => string_views(v@).contains(post_type_spec(e)),
    }
}

/// A filter parsed from a query passes exactly the events whose post type
/// is among the types the query names.
pub proof fn law_filter_passes_named_types(v: Vec<String>, types: Set<Seq<char>>, e: ProtocolEvent)
    requires
        string_views(v@).to_set() == types,
    ensures
        accepts(Some(v), e) <==> types.contains(post_type_spec(e)),
{
    let views = string_views(v@);
    let p = post_type_spec(e);
    if views.contains(p) {
        let i = choose|i: int| 0 <= i < views.len() && views[i] == p;
        assert(views.to_set().contains(views[i]));
    }
}

/// Whether an event passes a type filter.
pub fn event_type_accepted(types: &Option<Vec<String>>, event: &ProtocolEvent) -> (r: bool)
    ensures
        r == accepts(*types, *event),
{
    match types {
        None => true,
        Some(v) => {
            let post = String::from_str(onebot_event_post_type(event));
            let mut k: usize = 0;
            while k < v.len()
                invariant
                    k <= v@.len(),
                    *types == Some(*v),
                    post@ == post_type_spec(*event),
                    forall|m: int| 0 <= m < k ==> v@[m]@ != post@,
                decreases v.len() - k,
            {
                if v[k] == post {
                    assert(string_views(v@).len() == v@.len());
                    assert(string_views(v@)[k as int] == post@);
                    assert(string_views(v@).contains(post@));
                    return true;
                }
                k = k + 1;
            }
            proof {
                if string_views(v@).contains(post@) {
                    let m = choose|m: int| 0 <= m < string_views(v@).len() && string_views(v@)[m] == post@;
                    assert(v@[m]@ == post@);
                }
            }
            false
        },
    }
}

/// The OneBot payload of an event at `time` (seconds since the epoch): a
/// JSON object with its keys in byte order.
pub open spec fn onebot_payload(e: ProtocolEvent, time: u64) -> Seq<char> {
    match e {
        ProtocolEvent::MessageReceived { message } => {
            let (group_id, message_type, sub_type, target) = match message.recipient {
                MessageRecipient::Private { user_id } => (
                    "null"@,
                    "\"private\""@,
                    "\"friend\""@,
                    user_id@,
                ),
                MessageRecipient::Group { group_id } => (
                    json_string(group_id@),
                    "\"group\""@,
                    "\"normal\""@,
                    group_id@,
                ),
            };
            "{\"group_id\":"@ + group_id + ",\"message\":"@ + elements_json(message.elements@, true)
                + ",\"message_id\":"@ + json_string(message.id@) + ",\"message_type\":"@
                + message_type + ",\"post_type\":\"message\",\"self_id\":\"napcat-bot\",\"sender\":{\"user_id\":"@
                + json_string(message.sender_id@) + "},\"sub_type\":"@ + sub_type
                + ",\"target_id\":"@ + json_string(target) + ",\"time\":"@ + json_u64(time)
                + ",\"user_id\":"@ + json_string(message.sender_id@) + "}"@
        },
        ProtocolEvent::Connected { endpoint } => "{\"endpoint\":"@ + json_string(endpoint@)
            + ",\"meta_event_type\":\"lifecycle\",\"post_type\":\"meta_event\",\"self_id\":\"napcat-bot\",\"status\":\"ok\",\"sub_type\":\"connected\",\"time\":"@
            + json_u64(time) + "}"@,
        ProtocolEvent::Disconnected => "{\"meta_event_type\":\"lifecycle\",\"post_type\":\"meta_event\",\"self_id\":\"napcat-bot\",\"status\":\"close\",\"sub_type\":\"disconnected\",\"time\":"@
            + json_u64(time) + "}"@,
        ProtocolEvent::Warning { message } => "{\"message\":"@ + json_string(message@)
            + ",\"meta_event_type\":\"warning\",\"post_type\":\"meta_event\",\"self_id\":\"napcat-bot\",\"status\":\"warn\",\"sub_type\":\"protocol_warning\",\"time\":"@
            + json_u64(time) + "}"@,
    }
}

proof fn lemma_items_hold_each_element(es: Seq<MessageElement>, sorted: bool, i: int)
    requires
        0 <= i < es.len(),
    ensures
        occurs_in(element_json(es[i], sorted), elements_json_items(es, sorted)),
    decreases es.len(),
{
    if es.len() == 1 {
        lemma_occurs_in_self(element_json(es[0], sorted));
    } else {
        let before = elements_json_items(es.drop_last(), sorted);
        let last = element_json(es.last(), sorted);
        assert(elements_json_items(es, sorted) == before + seq![','] + last);
        if i == es.len() - 1 {
            lemma_occurs_in_self(last);
            lemma_occurs_in_middle(last, before + seq![','], last, Seq::empty());
            assert(before + seq![','] + last + Seq::<char>::empty() =~= before + seq![','] + last);
        } else {
            lemma_items_hold_each_element(es.drop_last(), sorted, i);
            assert(es.drop_last()[i] == es[i]);
            lemma_occurs_in_middle(element_json(es[i], sorted), Seq::empty(), before, seq![','] + last);
            assert(Seq::<char>::empty() + before + (seq![','] + last) =~= before + seq![','] + last);
        }
    }
}

/// The OneBot payload of a received message carries the message's
/// segments: each element's JSON object occurs in it, and a text segment
/// shows up as `{"text":..,"type":"text"}` with its text.
pub proof fn law_message_payload_carries_segments(message: Message, time: u64, i: int)
    requires
        0 <= i < message.elements@.len(),
    ensures
        occurs_in(
            element_json(message.elements@[i], true),
            onebot_payload(ProtocolEvent::MessageReceived { message }, time),
        ),
        message.elements@[i] matches MessageElement::Text { text } ==> occurs_in(
            "{\"text\":"@ + json_string(text@) + ",\"type\":\"text\"}"@,
            onebot_payload(ProtocolEvent::MessageReceived { message }, time),
        ),
{
    let es = message.elements@;
    let payload = onebot_payload(ProtocolEvent::MessageReceived { message }, time);
    let ej = elements_json(es, true);
    lemma_items_hold_each_element(es, true, i);
    lemma_occurs_in_middle(element_json(es[i], true), seq!['['], elements_json_items(es, true), seq![']']);
    let group_id = match message.recipient {
        MessageRecipient::Private { .. } => "null"@,
        MessageRecipient::Group { group_id } => json_string(group_id@),
    };
    let head = "{\"group_id\":"@ + group_id + ",\"message\":"@;
    let k = head.len() as int;
    assert(payload.subrange(k, k + ej.len()) =~= ej);
    lemma_occurs_in_trans(element_json(es[i], true), ej, payload);
}

/// The OneBot payload of an event at a given time.
pub fn onebot_event_payload_at(event: &ProtocolEvent, time: u64) -> (r: String)
    ensures
        r@ == onebot_payload(*event, time),
{
    let mut out = String::new();
    match event {
        ProtocolEvent::MessageReceived { message } => {
            out.append("{\"group_id\":");
            match &message.recipient {
                MessageRecipient::Private { .. } => out.append("null"),
                MessageRecipient::Group { group_id } => push_json_string(&mut out, group_id.as_str()),
            }
            out.append(",\"message\":");
            push_elements_json(&mut out, &message.elements, true);
            out.append(",\"message_id\":");
            push_json_string(&mut out, message.id.as_str());
            out.append(",\"message_type\":");
            match &message.recipient {
                MessageRecipient::Private { .. } => out.append("\"private\""),
                MessageRecipient::Group { .. } => out.append("\"group\""),
            }
            out.append(",\"post_type\":\"message\",\"self_id\":\"napcat-bot\",\"sender\":{\"user_id\":");
            push_json_string(&mut out, message.sender_id.as_str());
            out.append("},\"sub_type\":");
            match &message.recipient {
                MessageRecipient::Private { .. } => out.append("\"friend\""),
                MessageRecipient::Group { .. } => out.append("\"normal\""),
            }
            out.append(",\"target_id\":");
            match &message.recipient {
                MessageRecipient::Private { user_id } => push_json_string(&mut out, user_id.as_str()),
                MessageRecipient::Group { group_id } => push_json_string(&mut out, group_id.as_str()),
            }
            out.append(",\"time\":");
            push_json_u64(&mut out, time);
            out.append(",\"user_id\":");
            push_json_string(&mut out, message.sender_id.as_str());
            out.append("}");
        },
        ProtocolEvent::Connected { endpoint } => {
            out.append("{\"endpoint\":");
            push_json_string(&mut out, endpoint.as_str());
            out.append(
                ",\"meta_event_type\":\"lifecycle\",\"post_type\":\"meta_event\",\"self_id\":\"napcat-bot\",\"status\":\"ok\",\"sub_type\":\"connected\",\"time\":",
            );
            push_json_u64(&mut out, time);
            out.append("}");
        },
        ProtocolEvent::Disconnected => {
            out.append(
                "{\"meta_event_type\":\"lifecycle\",\"post_type\":\"meta_event\",\"self_id\":\"napcat-bot\",\"status\":\"close\",\"sub_type\":\"disconnected\",\"time\":",
            );
            push_json_u64(&mut out, time);
            out.append("}");
        },
        ProtocolEvent::Warning { message } => {
            out.append("{\"message\":");
            push_json_string(&mut out, message.as_str());
            out.append(
                ",\"meta_event_type\":\"warning\",\"post_type\":\"meta_event\",\"self_id\":\"napcat-bot\",\"status\":\"warn\",\"sub_type\":\"protocol_warning\",\"time\":",
            );
            push_json_u64(&mut out, time);
            out.append("}");
        },
    }
    assert(out@ =~= onebot_payload(*event, time));
    out
}

/// Whole seconds since the Unix epoch by the system clock, or the clock
/// error's text when it reads earlier than the epoch (`SystemTime::now`,
/// `duration_since`).  The clock is read, so nothing is stated of it.
#[verifier::external_body]
fn unix_secs_now() -> (r: Result<u64, String>) {
    std::time::SystemTime::now().duration_since(std::time::UNIX_EPOCH).map(|d| d.as_secs()).map_err(
        |e| e.to_string(),
    )
}

/// The OneBot payload of an event, stamped with the current time.  A clock
/// that reads before the epoch is reported as a transport error.
pub fn onebot_event_payload(event: &ProtocolEvent) -> (r: ProtocolResult<String>)
    ensures
        r matches Ok(s) ==> exists|t: u64| s@ == onebot_payload(*event, t),
        r matches Err(e) ==> e is Transport,
{
    match unix_secs_now() {
        Ok(t) => Ok(onebot_event_payload_at(event, t)),
        Err(e) => Err(ProtocolError::Transport(e)),
    }
}

/// The text a websocket subscriber is sent for an event, given the event's
/// payload: the payload when the filter passes the event and the payload
/// could be made, else nothing.
pub fn ws_event_text(
    types: &Option<Vec<String>>,
    event: &ProtocolEvent,
    payload: ProtocolResult<String>,
) -> (r: Option<String>)
    ensures
        accepts(*types, *event) && payload is Ok ==> r == Some(payload->Ok_0),
        !(accepts(*types, *event) && payload is Ok) ==> r is None,
{
    if !event_type_accepted(types, event) {
        return None;
    }
    match payload {
        Ok(s) => Some(s),
        Err(_) => None,
    }
}

/// One long-poll batch: the filter, the number of receive attempts allowed,
/// the attempts made, whether the stream has ended, and the payloads kept.
pub struct ListenBatch {
    /// Event types to keep; every type when absent.
    pub types: Option<Vec<String>>,
    /// Receive attempts allowed.
    pub max_events: usize,
    /// Receive attempts made.
    pub polled: usize,
    /// The stream ended or a receive timed out.
    pub closed: bool,
    /// Payloads kept, in arrival order.
    pub records: Vec<String>,
    /// The events received so far, each with its payload, in arrival order.
    pub arrivals: Ghost<Seq<(ProtocolEvent, ProtocolResult<String>)>>,
}

/// The payloads a filter keeps of the events received: those of the events
/// it passes whose payload could be made, in arrival order.
pub open spec fn kept(
    types: Option<Vec<String>>,
    arrivals: Seq<(ProtocolEvent, ProtocolResult<String>)>,
) -> Seq<String>
    decreases arrivals.len(),
{
    if arrivals.len() == 0 {
        Seq::empty()
    } else {
        let before = kept(types, arrivals.drop_last());
        let (e, p) = arrivals.last();
        if accepts(types, e) && p is Ok {
            before.push(p->Ok_0)
        } else {
            before
        }
    }
}

proof fn lemma_kept_len(types: Option<Vec<String>>, arrivals: Seq<(ProtocolEvent, ProtocolResult<String>)>)
    ensures
        kept(types, arrivals).len() <= arrivals.len(),
    decreases arrivals.len(),
{
    if arrivals.len() > 0 {
        lemma_kept_len(types, arrivals.drop_last());
    }
}

impl ListenBatch {
    /// Each attempt received one event, attempts stay within the allowance,
    /// and the payloads kept are those the filter keeps of what was received.
    pub open spec fn wf(&self) -> bool {
        &&& self.polled <= self.max_events
        &&& self.arrivals@.len() == self.polled
        &&& self.records@ == kept(self.types, self.arrivals@)
    }

    /// An empty batch.
    pub fn new(types: Option<Vec<String>>, max_events: usize) -> (r: Self)
        ensures
            r.wf(),
            r.types == types,
            r.max_events == max_events,
            r.polled == 0,
            !r.closed,
            r.records@.len() == 0,
            r.arrivals@.len() == 0,
    {
        let r = ListenBatch {
            types,
            max_events,
            polled: 0,
            closed: false,
            records: Vec::new(),
            arrivals: Ghost(Seq::empty()),
        };
        assert(r.records@ =~= kept(r.types, r.arrivals@));
        r
    }

    /// Whether to wait for another event: the stream is open and attempts
    /// remain.
    pub fn wants_more(&self) -> (r: bool)
        ensures
            r == (!self.closed && self.polled < self.max_events),
    {
        !self.closed && self.polled < self.max_events
    }

    /// Takes a received event with its payload: the attempt is counted, and
    /// the payload is kept when the filter passes the event and the payload
    /// could be made.
    pub fn record(&mut self, event: &ProtocolEvent, payload: ProtocolResult<String>)
        requires
            old(self).wf(),
            old(self).polled < old(self).max_events,
        ensures
            final(self).wf(),
            final(self).polled == old(self).polled + 1,
            final(self).types == old(self).types,
            final(self).max_events == old(self).max_events,
            final(self).closed == old(self).closed,
            final(self).arrivals@ == old(self).arrivals@.push((*event, payload)),
            accepts(old(self).types, *event) && payload is Ok ==> final(self).records@ == old(
                self,
            ).records@.push(payload->Ok_0),
            !(accepts(old(self).types, *event) && payload is Ok) ==> final(self).records@ == old(
                self,
            ).records@,
    {
        let ghost arrival = (*event, payload);
        let text = ws_event_text(&self.types, event, payload);
        match text {
            Some(s) => self.records.push(s),
            None => {},
        }
        self.polled = self.polled + 1;
        proof {
            let a = self.arrivals@.push(arrival);
            assert(a.drop_last() =~= self.arrivals@);
            self.arrivals = Ghost(a);
        }
    }

    /// The stream ended or a receive timed out: no more attempts.
    pub fn close(&mut self)
        requires
            old(self).wf(),
        ensures
            final(self).wf(),
            final(self).closed,
            final(self).polled == old(self).polled,
            final(self).types == old(self).types,
            final(self).max_events == old(self).max_events,
            final(self).records@ == old(self).records@,
            final(self).arrivals@ == old(self).arrivals@,
    {
        self.closed = true;
    }

    /// The payloads kept, in arrival order.
    pub fn into_records(self) -> (r: Vec<String>)
        ensures
            r@ == self.records@,
    {
        self.records
    }
}

/// A batch never holds more payloads than the attempts it allows, and what
/// it holds is, in arrival order, the payloads of the received events its
/// filter passes; filtered-out events still use up an attempt.
pub proof fn law_batch_holds_kept_payloads(b: ListenBatch)
    requires
        b.wf(),
    ensures
        b.records@.len() <= b.max_events,
        b.records@ == kept(b.types, b.arrivals@),
        b.arrivals@.len() == b.polled,
{
    lemma_kept_len(b.types, b.arrivals@);
}

/// The plugin event a protocol event is relayed as: a received message goes
/// to the plugins as its JSON with source `protocol`; no other event does.
pub fn protocol_plugin_event(event: &ProtocolEvent) -> (r: Option<PluginEvent>)
    ensures
        event matches ProtocolEvent::MessageReceived { message } ==> (r matches Some(
            PluginEvent::Message { payload, source: Some(src) },
        ) && payload@ == message_json(*message) && src@ == "protocol"@),
        !(event is MessageReceived) ==> r is None,
{
    match event {
        ProtocolEvent::MessageReceived { message } => Some(
            PluginEvent::Message {
                payload: encode_json(message),
                source: Some(String::from_str("protocol")),
            },
        ),
        _ => None,
    }
}

} // verus!
