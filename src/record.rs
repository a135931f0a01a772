//! The durable projection of an event.

use vstd::prelude::*;
use vstd::string::StringExecFns;
use chrono::{Datelike, Timelike};
use crate::models::{Message, MessageEvent};
use crate::text::{decimal, decimal_string, join, push_decimal};

verus! {

/// A local wall-clock time, to the second.
#[derive(Debug, Clone, Copy, PartialEq, Eq, Structural)]
pub struct LocalDateTime {
    pub year: i32,
    pub month: u32,
    pub day: u32,
    pub hour: u32,
    pub minute: u32,
    pub second: u32,
}

impl LocalDateTime {
    pub open spec fn wf(&self) -> bool {
        &&& 1 <= self.month <= 12
        &&& 1 <= self.day <= 31
        &&& self.hour < 24
        &&& self.minute < 60
        &&& self.second < 60
    }
}

/// Relies on `chrono::Local::now` and the `Datelike` / `Timelike` accessors of
/// `NaiveDateTime`, whose documented ranges are the ones stated here.
#[verifier::external_body]
pub fn local_now() -> (r: LocalDateTime)
    ensures
        r.wf(),
{
    let t = chrono::Local::now().naive_local();
    LocalDateTime {
        year: t.year(),
        month: t.month(),
        day: t.day(),
        hour: t.hour(),
        minute: t.minute(),
        second: t.second(),
    }
}

/// One row of the durable log.
#[derive(Debug, Clone, PartialEq, Eq)]
pub struct MessageRecord {
    pub message_id: String,
    pub sender_id: String,
    pub sender_name: String,
    pub send_time: LocalDateTime,
    pub group_id: Option<String>,
    pub group_name: Option<String>,
    pub content: String,
    pub at_target_list: Option<String>,
}

pub open spec fn opt_view(o: Option<String>) -> Option<Seq<char>> {
    match o {
        Some(s) => Some(s@),
        None => None,
    }
}

/// The card of a group sender when set, else the nickname.
pub open spec fn sender_name_of(e: MessageEvent) -> Seq<char> {
    if e.is_group_message && e.sender.card@.len() > 0 {
        e.sender.card@
    } else {
        e.sender.nickname@
    }
}

/// How a segment reads in the record's content; mentions do not appear.
pub open spec fn rendered(m: Message) -> Option<Seq<char>> {
    match m {
        Message::PlainText(p) => Some(p.text@),
        Message::Reply(r) => Some("[Reply:"@ + decimal(r.id as int) + "]"@),
        Message::At(_) => None,
    }
}

/// The rendered segments, in order.
pub open spec fn content_parts(list: Seq<Message>) -> Seq<Seq<char>>
    decreases list.len(),
{
    if list.len() == 0 {
        Seq::empty()
    } else {
        let prev = content_parts(list.drop_last());
        match rendered(list.last()) {
            Some(t) => prev.push(t),
            None => prev,
        }
    }
}

/// The decimal ids of the resolvable mentions, in order.
pub open spec fn at_targets(list: Seq<Message>) -> Seq<Seq<char>>
    decreases list.len(),
{
    if list.len() == 0 {
        Seq::empty()
    } else {
        let prev = at_targets(list.drop_last());
        match list.last() {
            Message::At(a) => match a.target {
                Some(t) => prev.push(decimal(t as int)),
                None => prev,
            },
            _ => prev,
        }
    }
}

/// The record's content: rendered segments joined by single spaces.
pub open spec fn content_of(e: MessageEvent) -> Seq<char> {
    join(content_parts(e.message_list@), seq![' '])
}

/// Private events target the bot itself; group events list their mentions,
/// comma-joined, or nothing when there are none.
pub open spec fn at_target_list_of(e: MessageEvent, bot_id: Seq<char>) -> Option<Seq<char>> {
    if !e.is_group_message {
        Some(bot_id)
    } else {
        let targets = at_targets(e.message_list@);
        if targets.len() == 0 {
            None
        } else {
            Some(join(targets, seq![',']))
        }
    }
}

/// `r` is the record of `e` processed at `now` by the bot `bot_id`.
pub open spec fn is_record_of(r: MessageRecord, e: MessageEvent, bot_id: Seq<char>, now: LocalDateTime) -> bool {
    &&& r.message_id@ == decimal(e.message_id as int)
    &&& r.sender_id@ == decimal(e.sender.user_id as int)
    &&& r.sender_name@ == sender_name_of(e)
    &&& r.send_time == now
    &&& opt_view(r.group_id) == match e.group_id {
        Some(g) => Some(decimal(g as int)),
        None => None,
    }
    &&& r.group_name == e.group_name
    &&& r.content@ == content_of(e)
    &&& opt_view(r.at_target_list) == at_target_list_of(e, bot_id)
}

proof fn lemma_join_push(parts: Seq<Seq<char>>, sep: Seq<char>, p: Seq<char>)
    ensures
        join(parts.push(p), sep) == if parts.len() == 0 {
            p
        } else {
            join(parts, sep) + sep + p
        },
{
    assert(parts.push(p).drop_last() =~= parts);
}

/// Appends `part` to a joined text that so far holds `count` parts.
fn push_part(out: &mut String, count: usize, part: &str, sep: &str)
    ensures
        final(out)@ == if count == 0 {
            old(out)@ + part@
        } else {
            old(out)@ + sep@ + part@
        },
{
    if count > 0 {
        out.append(sep);
    }
    out.append(part);
}

/// The content text of a segment list.
pub fn render_content(list: &Vec<Message>) -> (r: String)
    ensures
        r@ == join(content_parts(list@), seq![' ']),
{
    let mut out = String::new();
    let mut count: usize = 0;
    let mut i: usize = 0;
    assert(list@.take(0) =~= Seq::<Message>::empty());
    while i < list.len()
        invariant
            i <= list@.len(),
            count == content_parts(list@.take(i as int)).len(),
            count <= i,
            out@ == join(content_parts(list@.take(i as int)), seq![' ']),
        decreases list@.len() - i,
    {
        let ghost before = content_parts(list@.take(i as int));
        assert(list@.take(i + 1).drop_last() =~= list@.take(i as int));
        match &list[i] {
            Message::PlainText(p) => {
                push_part(&mut out, count, p.text.as_str(), " ");
                proof {
                    reveal_strlit(" ");
                    lemma_join_push(before, seq![' '], p.text@);
                    assert(" "@ =~= seq![' ']);
                }
                count = count + 1;
            },
            Message::Reply(rep) => {
                let mut t = String::from_str("[Reply:");
                push_decimal(&mut t, rep.id);
                t.append("]");
                push_part(&mut out, count, t.as_str(), " ");
                proof {
                    reveal_strlit(" ");
                    lemma_join_push(before, seq![' '], t@);
                    assert(" "@ =~= seq![' ']);
                }
                count = count + 1;
            },
            Message::At(_) => {},
        }
        i = i + 1;
    }
    assert(list@.take(i as int) =~= list@);
    out
}

/// The comma-joined decimal ids of the resolvable mentions.
pub fn render_at_targets(list: &Vec<Message>) -> (r: (String, usize))
    ensures
        r.0@ == join(at_targets(list@), seq![',']),
        r.1 == at_targets(list@).len(),
{
    let mut out = String::new();
    let mut count: usize = 0;
    let mut i: usize = 0;
    assert(list@.take(0) =~= Seq::<Message>::empty());
    while i < list.len()
        invariant
            i <= list@.len(),
            count == at_targets(list@.take(i as int)).len(),
            count <= i,
            out@ == join(at_targets(list@.take(i as int)), seq![',']),
        decreases list@.len() - i,
    {
        let ghost before = at_targets(list@.take(i as int));
        assert(list@.take(i + 1).drop_last() =~= list@.take(i as int));
        match &list[i] {
            Message::At(a) => match a.target {
                Some(t) => {
                    let d = decimal_string(t);
                    push_part(&mut out, count, d.as_str(), ",");
                    proof {
                        reveal_strlit(",");
                        lemma_join_push(before, seq![','], d@);
                        assert(","@ =~= seq![',']);
                    }
                    count = count + 1;
                },
                None => {},
            },
            _ => {},
        }
        i = i + 1;
    }
    assert(list@.take(i as int) =~= list@);
    (out, count)
}

fn copy_opt(o: &Option<String>) -> (r: Option<String>)
    ensures
        r == *o,
{
    match o {
        Some(s) => Some(s.clone()),
        None => None,
    }
}

/// Builds the durable record of an event.
pub fn build_record(e: &MessageEvent, bot_id: &str, now: LocalDateTime) -> (r: MessageRecord)
    ensures
        is_record_of(r, *e, bot_id@, now),
{
    let sender_name = if e.is_group_message && e.sender.card.as_str().unicode_len() > 0 {
        e.sender.card.clone()
    } else {
        e.sender.nickname.clone()
    };
    let at_target_list = if e.is_group_message {
        let (list, count) = render_at_targets(&e.message_list);
        if count == 0 {
            None
        } else {
            Some(list)
        }
    } else {
        Some(String::from_str(bot_id))
    };
    let group_id = match e.group_id {
        Some(g) => Some(decimal_string(g)),
        None => None,
    };
    MessageRecord {
        message_id: decimal_string(e.message_id),
        sender_id: decimal_string(e.sender.user_id),
        sender_name,
        send_time: now,
        group_id,
        group_name: copy_opt(&e.group_name),
        content: render_content(&e.message_list),
        at_target_list,
    }
}

} // verus!
