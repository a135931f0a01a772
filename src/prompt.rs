//! System prompts built from the bot's profile and the event at hand.

use vstd::prelude::*;
use vstd::string::StringExecFns;
use crate::adapter::BotAdapter;
use crate::llm::{Message, MessageRole};
use crate::models::MessageEvent;
use crate::text::{decimal, push_decimal};

verus! {

/// The name a sender goes by: the card when set, else the nickname.
pub open spec fn display_name(e: MessageEvent) -> Seq<char> {
    if e.sender.card@.len() > 0 {
        e.sender.card@
    } else {
        e.sender.nickname@
    }
}

pub open spec fn group_name_or_empty(e: MessageEvent) -> Seq<char> {
    match e.group_name {
        Some(g) => g@,
        None => Seq::empty(),
    }
}

/// The routing prompt for the brain agent.
pub open spec fn brain_prompt(nick: Seq<char>, qq: Seq<char>, e: MessageEvent, persona: Seq<char>) -> Seq<char> {
    let tail = "。你的性格是: "@ + persona
        + ", 你需要根据消息内容决定做出反应或者无反应，其中你做出的反应需要委派给相应的Agent智能体(通过function tools)来完成"@;
    if e.is_group_message {
        "你是\""@ + nick + "\"，QQ号是\""@ + qq + "\"。群\""@ + group_name_or_empty(e)
            + "\"里的一个叫\""@ + display_name(e) + "\"(QQ号: \""@ + decimal(e.sender.user_id as int)
            + "\")的人给你发送了一条消息"@ + tail
    } else {
        "你是\""@ + nick + "\"，QQ号是\""@ + qq + "\"。你的好友\""@ + e.sender.nickname@
            + "\"(QQ号: \""@ + decimal(e.sender.user_id as int) + "\")给你发送了一条消息"@ + tail
    }
}

/// The prompt for the chat agent.
pub open spec fn chat_prompt(nick: Seq<char>, qq: Seq<char>, e: MessageEvent, persona: Seq<char>) -> Seq<char> {
    let tail = "向你发送了消息。\n你需要以"@ + persona + "的性格生成对话回复。"@;
    if e.is_group_message {
        "你是\""@ + nick + "\"（QQ号: "@ + qq + "）。在群\""@ + group_name_or_empty(e) + "\"中，用户\""@
            + display_name(e) + "\"（QQ号: "@ + decimal(e.sender.user_id as int) + "）"@ + tail
    } else {
        "你是\""@ + nick + "\"（QQ号: "@ + qq + "）。你的好友\""@ + e.sender.nickname@ + "\"（QQ号: "@
            + decimal(e.sender.user_id as int) + "）"@ + tail
    }
}

fn push_display_name(out: &mut String, e: &MessageEvent)
    ensures
        final(out)@ == old(out)@ + display_name(*e),
{
    if e.sender.card.as_str().unicode_len() > 0 {
        out.append(e.sender.card.as_str());
    } else {
        out.append(e.sender.nickname.as_str());
    }
}

fn push_group_name(out: &mut String, e: &MessageEvent)
    ensures
        final(out)@ == old(out)@ + group_name_or_empty(*e),
{
    match &e.group_name {
        Some(g) => out.append(g.as_str()),
        None => {
            assert(old(out)@ + Seq::<char>::empty() =~= old(out)@);
        },
    }
}

fn system(content: String) -> (r: Message)
    ensures
        r.role == MessageRole::System,
        r.content == Some(content),
        r.tool_calls@.len() == 0,
{
    Message { role: MessageRole::System, content: Some(content), tool_calls: Vec::new() }
}

/// Build system message based on bot profile and event context
pub fn build_system_message<S, H, B>(bot_adapter: &BotAdapter<S, H, B>, event: &MessageEvent, persona: &str) -> (r:
    Message)
    ensures
        r.role == MessageRole::System,
        r.tool_calls@.len() == 0,
        r.content matches Some(c) && c@ == brain_prompt(
            bot_adapter.bot_nickname(),
            bot_adapter.bot_id(),
            *event,
            persona@,
        ),
{
    let profile = match bot_adapter.get_bot_profile() {
        Some(p) => p,
        None => {
            let mut s = String::from_str("你是\"紫幻\", QQ号是\"");
            s.append(bot_adapter.get_bot_id());
            s.append("\"。你的性格是: ");
            s.append(persona);
            s.append(", 你需要根据消息内容决定做出反应或者无反应，其中你做出的反应需要委派给相应的Agent智能体(通过function tools)来完成");
            return system(s);
        },
    };
    let mut s = String::from_str("你是\"");
    s.append(profile.nickname.as_str());
    s.append("\"，QQ号是\"");
    s.append(profile.qq_id.as_str());
    if event.is_group_message {
        s.append("\"。群\"");
        push_group_name(&mut s, event);
        s.append("\"里的一个叫\"");
        push_display_name(&mut s, event);
        s.append("\"(QQ号: \"");
        push_decimal(&mut s, event.sender.user_id);
        s.append("\")的人给你发送了一条消息");
    } else {
        s.append("\"。你的好友\"");
        s.append(event.sender.nickname.as_str());
        s.append("\"(QQ号: \"");
        push_decimal(&mut s, event.sender.user_id);
        s.append("\")给你发送了一条消息");
    }
    s.append("。你的性格是: ");
    s.append(persona);
    s.append(", 你需要根据消息内容决定做出反应或者无反应，其中你做出的反应需要委派给相应的Agent智能体(通过function tools)来完成");
    assert(s@ =~= brain_prompt(bot_adapter.bot_nickname(), bot_adapter.bot_id(), *event, persona@));
    system(s)
}

/// Build system message for chat agent based on bot profile and event context
pub fn build_chat_system_message<S, H, B>(bot_adapter: &BotAdapter<S, H, B>, event: &MessageEvent, persona: &str) -> (r:
    Message)
    ensures
        r.role == MessageRole::System,
        r.tool_calls@.len() == 0,
        r.content matches Some(c) && c@ == chat_prompt(
            bot_adapter.bot_nickname(),
            bot_adapter.bot_id(),
            *event,
            persona@,
        ),
{
    let profile = match bot_adapter.get_bot_profile() {
        Some(p) => p,
        None => {
            let mut s = String::from_str("你是\"紫幻\"（QQ号: ");
            s.append(bot_adapter.get_bot_id());
            s.append("）。你的职责是进行自然对话。\n你需要以");
            s.append(persona);
            s.append("的性格生成对话回复。");
            return system(s);
        },
    };
    let mut s = String::from_str("你是\"");
    s.append(profile.nickname.as_str());
    s.append("\"（QQ号: ");
    s.append(profile.qq_id.as_str());
    if event.is_group_message {
        s.append("）。在群\"");
        push_group_name(&mut s, event);
        s.append("\"中，用户\"");
        push_display_name(&mut s, event);
        s.append("\"（QQ号: ");
    } else {
        s.append("）。你的好友\"");
        s.append(event.sender.nickname.as_str());
        s.append("\"（QQ号: ");
    }
    push_decimal(&mut s, event.sender.user_id);
    s.append("）");
    s.append("向你发送了消息。\n你需要以");
    s.append(persona);
    s.append("的性格生成对话回复。");
    assert(s@ =~= chat_prompt(bot_adapter.bot_nickname(), bot_adapter.bot_id(), *event, persona@));
    system(s)
}

} // verus!
