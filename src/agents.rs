//! Event-driven agents and their function tools: the parts that read an event.

use vstd::prelude::*;
use vstd::string::StringExecFns;
use crate::models::{Message, MessageEvent};
use crate::text::{decimal, decimal_string, join};

verus! {

/// Base trait for all event-driven agents: an agent consumes an event and
/// produces an output or decision.
pub trait Agent {
    type Event;
    type Output;

    fn name(&self) -> &'static str;

    fn on_event(&self, event: &Self::Event) -> Self::Output;
}

/// The texts of the plain-text segments, in order.
pub open spec fn plain_texts(list: Seq<Message>) -> Seq<Seq<char>>
    decreases list.len(),
{
    if list.len() == 0 {
        Seq::empty()
    } else {
        let prev = plain_texts(list.drop_last());
        match list.last() {
            Message::PlainText(p) => prev.push(p.text@),
            _ => prev,
        }
    }
}

/// Parts glued with a space, where a part is only preceded by a space when
/// the text so far is not empty.
pub open spec fn glue(parts: Seq<Seq<char>>) -> Seq<char>
    decreases parts.len(),
{
    if parts.len() == 0 {
        Seq::empty()
    } else {
        let prev = glue(parts.drop_last());
        if prev.len() == 0 {
            parts.last()
        } else {
            prev + seq![' '] + parts.last()
        }
    }
}

/// The id of the first reply segment.
pub open spec fn first_reply(list: Seq<Message>) -> Option<i64>
    decreases list.len(),
{
    if list.len() == 0 {
        None
    } else {
        match list[0] {
            Message::Reply(r) => Some(r.id),
            _ => first_reply(list.drop_first()),
        }
    }
}

/// The plain-text segments joined by single spaces.
fn joined_plain_text(event: &MessageEvent) -> (r: String)
    ensures
        r@ == join(plain_texts(event.message_list@), seq![' ']),
{
    let list = &event.message_list;
    let mut out = String::new();
    let mut count: usize = 0;
    let mut i: usize = 0;
    assert(list@.take(0) =~= Seq::<Message>::empty());
    while i < list.len()
        invariant
            i <= list@.len(),
            count == plain_texts(list@.take(i as int)).len(),
            count <= i,
            out@ == join(plain_texts(list@.take(i as int)), seq![' ']),
        decreases list@.len() - i,
    {
        let ghost before = plain_texts(list@.take(i as int));
        assert(list@.take(i + 1).drop_last() =~= list@.take(i as int));
        match &list[i] {
            Message::PlainText(p) => {
                if count > 0 {
                    out.append(" ");
                }
                out.append(p.text.as_str());
                proof {
                    reveal_strlit(" ");
                    assert(before.push(p.text@).drop_last() =~= before);
                    if count > 0 {
                        assert(out@ =~= join(before, seq![' ']) + seq![' '] + p.text@);
                    }
                }
                count = count + 1;
            },
            _ => {},
        }
        i = i + 1;
    }
    assert(list@.take(i as int) =~= list@);
    out
}

/// Looks up stored chat history for the message an event replies to.
pub struct ChatHistoryAgent {
    pub tool: ChatHistoryTool,
}

impl ChatHistoryAgent {
    pub fn new() -> (r: Self) {
        ChatHistoryAgent { tool: ChatHistoryTool::new() }
    }

    pub fn name(&self) -> (r: &'static str)
        ensures
            r@ == "chat_history_agent"@,
    {
        "chat_history_agent"
    }

    /// The message id whose history is fetched: the first reply segment's
    /// target, else the event's own id.
    pub fn target_message_id(event: &MessageEvent) -> (r: String)
        ensures
            r@ == decimal(
                match first_reply(event.message_list@) {
                    Some(id) => id,
                    None => event.message_id,
                } as int,
            ),
    {
        let list = &event.message_list;
        let mut i: usize = 0;
        assert(list@.skip(0) =~= list@);
        while i < list.len()
            invariant
                i <= list@.len(),
                list@ == event.message_list@,
                first_reply(list@) == first_reply(list@.skip(i as int)),
            decreases list@.len() - i,
        {
            assert(list@.skip(i as int).drop_first() =~= list@.skip(i + 1));
            assert(list@.skip(i as int)[0] == list@[i as int]);
            match &list[i] {
                Message::Reply(r) => {
                    return decimal_string(r.id);
                },
                _ => {},
            }
            i = i + 1;
        }
        assert(list@.skip(i as int) =~= Seq::<Message>::empty());
        decimal_string(event.message_id)
    }
}

/// Arithmetic on the numbers found in an event's text.
pub struct MathAgent {
    pub tool: MathTool,
}

impl MathAgent {
    pub fn new() -> (r: Self) {
        MathAgent { tool: MathTool::new() }
    }

    pub fn name(&self) -> (r: &'static str)
        ensures
            r@ == "math_agent"@,
    {
        "math_agent"
    }

    /// The plain-text segments glued with spaces, skipping the space while the
    /// text is still empty.
    pub fn aggregate_text(event: &MessageEvent) -> (r: String)
        ensures
            r@ == glue(plain_texts(event.message_list@)),
    {
        let list = &event.message_list;
        let mut text = String::new();
        let mut i: usize = 0;
        assert(list@.take(0) =~= Seq::<Message>::empty());
        while i < list.len()
            invariant
                i <= list@.len(),
                text@ == glue(plain_texts(list@.take(i as int))),
            decreases list@.len() - i,
        {
            let ghost before = plain_texts(list@.take(i as int));
            assert(list@.take(i + 1).drop_last() =~= list@.take(i as int));
            match &list[i] {
                Message::PlainText(p) => {
                    if text.as_str().unicode_len() > 0 {
                        crate::text::push_char(&mut text, ' ');
                    }
                    text.append(p.text.as_str());
                    assert(before.push(p.text@).drop_last() =~= before);
                },
                _ => {},
            }
            i = i + 1;
        }
        assert(list@.take(i as int) =~= list@);
        text
    }
}

/// Writes code for the task in an event's text, through its tool `T`.
pub struct CodeWriterAgent<T> {
    pub tool: T,
}

impl<T> CodeWriterAgent<T> {
    pub fn new(tool: T) -> (r: Self)
        ensures
            r.tool == tool,
    {
        CodeWriterAgent { tool }
    }

    pub fn name(&self) -> (r: &'static str)
        ensures
            r@ == "code_writer_agent"@,
    {
        "code_writer_agent"
    }

    /// The plain-text segments joined by single spaces.
    pub fn aggregate_text(event: &MessageEvent) -> (r: String)
        ensures
            r@ == join(plain_texts(event.message_list@), seq![' ']),
    {
        joined_plain_text(event)
    }
}

/// Replies in natural language to an event's text, through its tool `T`.
pub struct NaturalLanguageReplyAgent<T> {
    pub tool: T,
}

impl<T> NaturalLanguageReplyAgent<T> {
    pub fn new(tool: T) -> (r: Self)
        ensures
            r.tool == tool,
    {
        NaturalLanguageReplyAgent { tool }
    }

    pub fn name(&self) -> (r: &'static str)
        ensures
            r@ == "nl_reply_agent"@,
    {
        "nl_reply_agent"
    }

    /// The plain-text segments joined by single spaces.
    pub fn aggregate_text(event: &MessageEvent) -> (r: String)
        ensures
            r@ == join(plain_texts(event.message_list@), seq![' ']),
    {
        joined_plain_text(event)
    }
}

/// Fetches a stored event by message id from the networked cache.
#[derive(Debug, Default)]
pub struct ChatHistoryTool;

impl ChatHistoryTool {
    pub fn new() -> Self {
        ChatHistoryTool
    }

    pub fn name(&self) -> (r: &'static str)
        ensures
            r@ == "chat_history"@,
    {
        "chat_history"
    }

    pub fn description(&self) -> (r: &'static str)
        ensures
            r@ == "Fetch a stored chat/event by message_id from Redis. Returns the raw event JSON if found."@,
    {
        "Fetch a stored chat/event by message_id from Redis. Returns the raw event JSON if found."
    }
}

/// Basic arithmetic on two numbers.
#[derive(Debug, Default)]
pub struct MathTool;

impl MathTool {
    pub fn new() -> Self {
        MathTool
    }

    pub fn name(&self) -> (r: &'static str)
        ensures
            r@ == "math"@,
    {
        "math"
    }

    pub fn description(&self) -> (r: &'static str)
        ensures
            r@ == "Perform basic arithmetic on two numbers: add, sub, mul, div."@,
    {
        "Perform basic arithmetic on two numbers: add, sub, mul, div."
    }
}

} // verus!
