//! Preview of a message list for display next to a graph node.

use vstd::prelude::*;
use vstd::string::StringExecFns;
use crate::llm::{role_name, role_to_str, Message, MessageRole};
use crate::text::{join, owned, same_text};

verus! {

/// One message as the preview shows it.
#[derive(Debug, Clone, PartialEq, Eq)]
pub struct MessageItem {
    pub role: String,
    pub content: String,
}

/// Renders message lists for nodes of type `preview_message_list`.
pub struct PreviewMessageListRenderer;

/// A role's capitalised label.
pub open spec fn role_label(role: MessageRole) -> Seq<char> {
    match role {
        MessageRole::System => "System"@,
        MessageRole::User => "User"@,
        MessageRole::Assistant => "Assistant"@,
        MessageRole::Tool => "Tool"@,
    }
}

pub open spec fn content_or_empty(m: Message) -> Seq<char> {
    match m.content {
        Some(c) => c@,
        None => Seq::empty(),
    }
}

/// `[Label] content` for each message.
pub open spec fn preview_lines(ms: Seq<Message>) -> Seq<Seq<char>> {
    Seq::new(
        ms.len(),
        |i: int| seq!['['] + role_label(ms[i].role) + seq![']', ' '] + content_or_empty(ms[i]),
    )
}

fn role_label_str(role: &MessageRole) -> (r: &'static str)
    ensures
        r@ == role_label(*role),
{
    match role {
        MessageRole::System => "System",
        MessageRole::User => "User",
        MessageRole::Assistant => "Assistant",
        MessageRole::Tool => "Tool",
    }
}

impl PreviewMessageListRenderer {
    pub fn handles_node_type(node_type: &str) -> (r: bool)
        ensures
            r == (node_type@ == "preview_message_list"@),
    {
        same_text(node_type, "preview_message_list")
    }
}

/// Format a list of messages as a preview text, one line per message.
pub fn format_message_list(messages: &Vec<Message>) -> (r: String)
    ensures
        r@ == join(preview_lines(messages@), seq!['\n']),
{
    let mut out = String::new();
    let mut i: usize = 0;
    proof {
        reveal_strlit("\n");
        reveal_strlit("[");
        reveal_strlit("] ");
    }
    assert(preview_lines(messages@.take(0)) =~= Seq::<Seq<char>>::empty());
    while i < messages.len()
        invariant
            i <= messages@.len(),
            out@ == join(preview_lines(messages@.take(i as int)), seq!['\n']),
            "\n"@ == seq!['\n'],
            "["@ == seq!['['],
            "] "@ == seq![']', ' '],
        decreases messages@.len() - i,
    {
        let m = &messages[i];
        let ghost before = preview_lines(messages@.take(i as int));
        if i > 0 {
            out.append("\n");
        }
        out.append("[");
        out.append(role_label_str(&m.role));
        out.append("] ");
        match &m.content {
            Some(c) => out.append(c.as_str()),
            None => {},
        }
        proof {
            let line = seq!['['] + role_label(m.role) + seq![']', ' '] + content_or_empty(*m);
            assert(preview_lines(messages@.take(i + 1)) =~= before.push(line));
            assert(before.push(line).drop_last() =~= before);
            if i > 0 {
                assert(out@ =~= join(before, seq!['\n']) + seq!['\n'] + line);
            } else {
                assert(out@ =~= line);
            }
        }
        i = i + 1;
    }
    assert(messages@.take(i as int) =~= messages@);
    out
}

/// The messages found for a preview node as display items; none when the
/// node has produced no message list.
pub fn get_message_list_data(messages: Option<&Vec<Message>>) -> (r: Vec<MessageItem>)
    ensures
        messages is None ==> r@.len() == 0,
        messages matches Some(ms) ==> r@.len() == ms@.len() && forall|i: int|
            0 <= i < ms@.len() ==> (#[trigger] r@[i]).role@ == role_name(ms@[i].role)
                && r@[i].content@ == content_or_empty(ms@[i]),
{
    let mut items: Vec<MessageItem> = Vec::new();
    match messages {
        None => {},
        Some(ms) => {
            let mut i: usize = 0;
            while i < ms.len()
                invariant
                    i <= ms@.len(),
                    items@.len() == i,
                    forall|k: int|
                        0 <= k < i ==> (#[trigger] items@[k]).role@ == role_name(ms@[k].role)
                            && items@[k].content@ == content_or_empty(ms@[k]),
                decreases ms@.len() - i,
            {
                let m = &ms[i];
                let content = match &m.content {
                    Some(c) => c.clone(),
                    None => String::new(),
                };
                items.push(MessageItem { role: owned(role_to_str(&m.role)), content });
                i = i + 1;
            }
        },
    }
    items
}

} // verus!
