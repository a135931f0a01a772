//! Turns a gateway frame's JSON into a typed event, or says why it is not one.

use vstd::prelude::*;
use crate::json::{field_of, Json};
use crate::models::{
    AtTargetMessage, Message, MessageEvent, MessageType, PlainTextMessage, ReplyMessage, Sender,
};
use crate::text::same_text;

verus! {

/// The result of decoding one JSON object.
#[derive(Debug)]
pub enum Decoded {
    /// A chat event.
    Event(MessageEvent),
    /// An object without `message_type`: control traffic, ignored silently.
    Control,
    /// A `message_type` object that does not match the event schema.
    Invalid,
}

/// A required string member.
pub open spec fn req_str(j: Json, k: Seq<char>) -> Option<String> {
    match field_of(j, k) {
        Some(Json::Str(s)) => Some(s),
        _ => None,
    }
}

/// A required integer member.
pub open spec fn req_int(j: Json, k: Seq<char>) -> Option<i64> {
    match field_of(j, k) {
        Some(Json::Int(i)) => Some(i),
        _ => None,
    }
}

/// An optional integer member: `Some(None)` when absent or null, `None` when
/// it has another type.
pub open spec fn opt_int(j: Json, k: Seq<char>) -> Option<Option<i64>> {
    match field_of(j, k) {
        None => Some(None),
        Some(Json::Null) => Some(None),
        Some(Json::Int(i)) => Some(Some(i)),
        _ => None,
    }
}

/// An optional string member, read as `opt_int` reads integers.
pub open spec fn opt_str(j: Json, k: Seq<char>) -> Option<Option<String>> {
    match field_of(j, k) {
        None => Some(None),
        Some(Json::Null) => Some(None),
        Some(Json::Str(s)) => Some(Some(s)),
        _ => None,
    }
}

/// The segment that a `message` array element stands for.
pub open spec fn segment_of(j: Json) -> Option<Message> {
    match req_str(j, "type"@) {
        Some(t) => if t@ == "text"@ {
            match req_str(j, "text"@) {
                Some(s) => Some(Message::PlainText(PlainTextMessage { text: s })),
                None => None,
            }
        } else if t@ == "at"@ {
            match opt_int(j, "target"@) {
                Some(target) => Some(Message::At(AtTargetMessage { target })),
                None => None,
            }
        } else if t@ == "reply"@ {
            match req_int(j, "id"@) {
                Some(id) => Some(Message::Reply(ReplyMessage { id })),
                None => None,
            }
        } else {
            None
        },
        None => None,
    }
}

/// Every element of `items` is a segment.
pub open spec fn segments_valid(items: Seq<Json>) -> bool {
    forall|i: int| 0 <= i < items.len() ==> (#[trigger] segment_of(items[i])) is Some
}

/// The kind named by `message_type`.
pub open spec fn kind_of(j: Json) -> Option<MessageType> {
    match req_str(j, "message_type"@) {
        Some(t) => if t@ == "private"@ {
            Some(MessageType::Private)
        } else if t@ == "group"@ {
            Some(MessageType::Group)
        } else {
            None
        },
        None => None,
    }
}

/// A `sender` object: integer `user_id`, string `nickname`, optional string `card`.
pub open spec fn sender_valid(s: Json) -> bool {
    &&& req_int(s, "user_id"@) is Some
    &&& req_str(s, "nickname"@) is Some
    &&& opt_str(s, "card"@) is Some
}

/// `out` is the sender that `s` describes.
pub open spec fn sender_decodes(s: Json, out: Sender) -> bool {
    &&& out.user_id == req_int(s, "user_id"@)->0
    &&& out.nickname == req_str(s, "nickname"@)->0
    &&& match opt_str(s, "card"@)->0 {
        Some(c) => out.card == c,
        None => out.card@ == Seq::<char>::empty(),
    }
}

/// Whether a `message_type` object matches the event schema.
pub open spec fn event_valid(j: Json) -> bool {
    &&& kind_of(j) is Some
    &&& req_int(j, "message_id"@) is Some
    &&& field_of(j, "sender"@) matches Some(s) && sender_valid(s)
    &&& field_of(j, "message"@) matches Some(Json::Array(items)) && segments_valid(items@)
    &&& kind_of(j) == Some(MessageType::Group) ==> (opt_int(j, "group_id"@) matches Some(Some(_))
        && opt_str(j, "group_name"@) is Some)
}

/// `e` is the event that the valid object `j` describes.
pub open spec fn decodes_to(j: Json, e: MessageEvent) -> bool {
    let kind = kind_of(j)->0;
    let items = field_of(j, "message"@)->0->Array_0;
    &&& e.message_type == kind
    &&& e.is_group_message == (kind == MessageType::Group)
    &&& e.message_id == req_int(j, "message_id"@)->0
    &&& sender_decodes(field_of(j, "sender"@)->0, e.sender)
    &&& e.message_list@.len() == items@.len()
    &&& forall|i: int|
        0 <= i < items@.len() ==> Some(#[trigger] e.message_list@[i]) == segment_of(items@[i])
    &&& if kind == MessageType::Group {
        e.group_id == opt_int(j, "group_id"@)->0 && e.group_name == opt_str(j, "group_name"@)->0
    } else {
        e.group_id is None && e.group_name is None
    }
}

fn read_str(j: &Json, k: &str) -> (r: Option<String>)
    ensures
        r == req_str(*j, k@),
{
    match j.get(k) {
        Some(Json::Str(s)) => Some(s.clone()),
        _ => None,
    }
}

fn read_int(j: &Json, k: &str) -> (r: Option<i64>)
    ensures
        r == req_int(*j, k@),
{
    match j.get(k) {
        Some(Json::Int(i)) => Some(*i),
        _ => None,
    }
}

fn read_opt_int(j: &Json, k: &str) -> (r: Option<Option<i64>>)
    ensures
        r == opt_int(*j, k@),
{
    match j.get(k) {
        None => Some(None),
        Some(Json::Null) => Some(None),
        Some(Json::Int(i)) => Some(Some(*i)),
        _ => None,
    }
}

fn read_opt_str(j: &Json, k: &str) -> (r: Option<Option<String>>)
    ensures
        r == opt_str(*j, k@),
{
    match j.get(k) {
        None => Some(None),
        Some(Json::Null) => Some(None),
        Some(Json::Str(s)) => Some(Some(s.clone())),
        _ => None,
    }
}

/// Decodes one element of a `message` array.
pub fn decode_segment(j: &Json) -> (r: Option<Message>)
    ensures
        r == segment_of(*j),
{
    let t = match read_str(j, "type") {
        Some(t) => t,
        None => return None,
    };
    if same_text(t.as_str(), "text") {
        match read_str(j, "text") {
            Some(s) => Some(Message::PlainText(PlainTextMessage { text: s })),
            None => None,
        }
    } else if same_text(t.as_str(), "at") {
        match read_opt_int(j, "target") {
            Some(target) => Some(Message::At(AtTargetMessage { target })),
            None => None,
        }
    } else if same_text(t.as_str(), "reply") {
        match read_int(j, "id") {
            Some(id) => Some(Message::Reply(ReplyMessage { id })),
            None => None,
        }
    } else {
        None
    }
}

fn decode_segments(items: &Vec<Json>) -> (r: Option<Vec<Message>>)
    ensures
        r is Some <==> segments_valid(items@),
        r matches Some(v) ==> v@.len() == items@.len() && forall|i: int|
            0 <= i < items@.len() ==> Some(#[trigger] v@[i]) == segment_of(items@[i]),
{
    let mut out: Vec<Message> = Vec::new();
    let mut i: usize = 0;
    while i < items.len()
        invariant
            i <= items@.len(),
            out@.len() == i,
            forall|k: int| 0 <= k < i ==> Some(#[trigger] out@[k]) == segment_of(items@[k]),
        decreases items@.len() - i,
    {
        match decode_segment(&items[i]) {
            Some(m) => out.push(m),
            None => {
                assert(segment_of(items@[i as int]) is None);
                return None;
            },
        }
        i = i + 1;
    }
    assert forall|k: int| 0 <= k < items@.len() implies (#[trigger] segment_of(items@[k])) is Some by {
        assert(Some(out@[k]) == segment_of(items@[k]));
    }
    Some(out)
}

fn decode_kind(j: &Json) -> (r: Option<MessageType>)
    ensures
        r == kind_of(*j),
{
    let t = match read_str(j, "message_type") {
        Some(t) => t,
        None => return None,
    };
    if same_text(t.as_str(), "private") {
        Some(MessageType::Private)
    } else if same_text(t.as_str(), "group") {
        Some(MessageType::Group)
    } else {
        None
    }
}

fn decode_sender(s: &Json) -> (r: Option<Sender>)
    ensures
        r is Some <==> sender_valid(*s),
        r matches Some(out) ==> sender_decodes(*s, out),
{
    let user_id = match read_int(s, "user_id") {
        Some(u) => u,
        None => return None,
    };
    let nickname = match read_str(s, "nickname") {
        Some(n) => n,
        None => return None,
    };
    let card = match read_opt_str(s, "card") {
        Some(Some(c)) => c,
        Some(None) => String::new(),
        None => return None,
    };
    Some(Sender { user_id, nickname, card })
}

/// Whether the object has a `message_type` member at all.
pub open spec fn is_chat_event(j: Json) -> bool {
    field_of(j, "message_type"@) is Some
}

/// Decodes a JSON object into an event. Objects without `message_type` are
/// control traffic; the others must match the event schema.
pub fn decode_event(j: &Json) -> (r: Decoded)
    ensures
        r is Control <==> !is_chat_event(*j),
        r is Invalid <==> is_chat_event(*j) && !event_valid(*j),
        r is Event <==> is_chat_event(*j) && event_valid(*j),
        r matches Decoded::Event(e) ==> decodes_to(*j, e) && e.wf(),
{
    if j.get("message_type").is_none() {
        return Decoded::Control;
    }
    let kind = match decode_kind(j) {
        Some(k) => k,
        None => return Decoded::Invalid,
    };
    let message_id = match read_int(j, "message_id") {
        Some(i) => i,
        None => return Decoded::Invalid,
    };
    let sender = match j.get("sender") {
        Some(s) => match decode_sender(s) {
            Some(x) => x,
            None => return Decoded::Invalid,
        },
        None => return Decoded::Invalid,
    };
    let message_list = match j.get("message") {
        Some(Json::Array(items)) => match decode_segments(items) {
            Some(v) => v,
            None => return Decoded::Invalid,
        },
        _ => return Decoded::Invalid,
    };
    let is_group_message = kind == MessageType::Group;
    let (group_id, group_name) = if is_group_message {
        let gid = match read_opt_int(j, "group_id") {
            Some(Some(g)) => g,
            _ => return Decoded::Invalid,
        };
        let gname = match read_opt_str(j, "group_name") {
            Some(n) => n,
            None => return Decoded::Invalid,
        };
        (Some(gid), gname)
    } else {
        (None, None)
    };
    Decoded::Event(
        MessageEvent {
            message_id,
            message_type: kind,
            sender,
            message_list,
            group_id,
            group_name,
            is_group_message,
        },
    )
}

} // verus!
