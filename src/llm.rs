//! Chat-completion messages: roles, tool calls, the API client's settings,
//! and the parsing of an API response into a message.

use vstd::prelude::*;
use vstd::string::StringExecFns;
use std::time::Duration;
use crate::json::{field_of, json_parse, json_text, json_to_text, lookup, parse_json, push_member, Json};
use crate::decoder::req_str;
use crate::text::{has_prefix, owned, same_text};

verus! {

#[derive(Debug, Clone, Copy, PartialEq, Eq, Structural)]
pub enum MessageRole {
    System,
    User,
    Assistant,
    Tool,
}

/// The name a chat API uses for a role.
pub open spec fn role_name(role: MessageRole) -> Seq<char> {
    match role {
        MessageRole::System => "system"@,
        MessageRole::User => "user"@,
        MessageRole::Assistant => "assistant"@,
        MessageRole::Tool => "tool"@,
    }
}

/// The role a chat API's name stands for; unknown names are the assistant.
pub open spec fn role_named(s: Seq<char>) -> MessageRole {
    if s == "system"@ {
        MessageRole::System
    } else if s == "user"@ {
        MessageRole::User
    } else if s == "tool"@ {
        MessageRole::Tool
    } else {
        MessageRole::Assistant
    }
}

/// Convert a MessageRole to the string expected by chat APIs
pub fn role_to_str(role: &MessageRole) -> (r: &'static str)
    ensures
        r@ == role_name(*role),
{
    match role {
        MessageRole::System => "system",
        MessageRole::User => "user",
        MessageRole::Assistant => "assistant",
        MessageRole::Tool => "tool",
    }
}

/// Parse a role string from chat APIs into MessageRole
pub fn str_to_role(s: &str) -> (r: MessageRole)
    ensures
        r == role_named(s@),
{
    if same_text(s, "system") {
        MessageRole::System
    } else if same_text(s, "user") {
        MessageRole::User
    } else if same_text(s, "tool") {
        MessageRole::Tool
    } else {
        MessageRole::Assistant
    }
}

#[derive(Debug)]
pub struct ToolCallsFuncSpec {
    pub name: String,
    pub arguments: Json,
}

#[derive(Debug)]
pub struct ToolCalls {
    pub id: String,
    pub call_type: String,
    pub function: ToolCallsFuncSpec,
}

#[derive(Debug)]
pub struct Message {
    pub role: MessageRole,
    pub content: Option<String>,
    pub tool_calls: Vec<ToolCalls>,
}

/// Settings of a chat-completion endpoint.
#[derive(Debug)]
pub struct LLMAPI {
    model_name: String,
    api_endpoint: String,
    api_key: Option<String>,
    timeout: Duration,
}

/// The arguments of a tool call's `function`: a JSON text is parsed (null when
/// it is not JSON), any other value is taken as it is, a missing one is null.
pub open spec fn arguments_of(func: Json) -> Json {
    match field_of(func, "arguments"@) {
        Some(Json::Str(s)) => match json_parse(s@) {
            Some(a) => a,
            None => Json::Null,
        },
        Some(a) => a,
        None => Json::Null,
    }
}

/// A tool call entry has string `id` and `type`, and a `function` with a string `name`.
pub open spec fn tool_call_valid(tc: Json) -> bool {
    &&& req_str(tc, "id"@) is Some
    &&& req_str(tc, "type"@) is Some
    &&& field_of(tc, "function"@) matches Some(f) && req_str(f, "name"@) is Some
}

/// `out` is the tool call that the valid entry `tc` describes.
pub open spec fn tool_call_matches(tc: Json, out: ToolCalls) -> bool {
    let f = field_of(tc, "function"@)->0;
    &&& out.id == req_str(tc, "id"@)->0
    &&& out.call_type == req_str(tc, "type"@)->0
    &&& out.function.name == req_str(f, "name"@)->0
    &&& out.function.arguments == arguments_of(f)
}

/// The valid entries of a tool call list, in order.
pub open spec fn valid_calls(items: Seq<Json>) -> Seq<Json>
    decreases items.len(),
{
    if items.len() == 0 {
        Seq::empty()
    } else {
        let prev = valid_calls(items.drop_last());
        if tool_call_valid(items.last()) {
            prev.push(items.last())
        } else {
            prev
        }
    }
}

/// `r` holds one tool call for each valid entry of the array `v`, in order;
/// nothing when `v` is not an array.
pub open spec fn tool_calls_of(v: Json, r: Seq<ToolCalls>) -> bool {
    match v {
        Json::Array(items) => {
            let calls = valid_calls(items@);
            &&& r.len() == calls.len()
            &&& forall|i: int| 0 <= i < r.len() ==> tool_call_matches(calls[i], #[trigger] r[i])
        },
        _ => r.len() == 0,
    }
}

/// Whether an API response holds a first choice with a message that has
/// `role` and `content` members.
pub open spec fn api_message_valid(resp: Json) -> bool {
    &&& field_of(resp, "choices"@) matches Some(Json::Array(cs))
    &&& field_of(resp, "choices"@)->0->Array_0@.len() > 0
    &&& field_of(field_of(resp, "choices"@)->0->Array_0@[0], "message"@) is Some
    &&& field_of(api_message_of(resp), "role"@) is Some
    &&& field_of(api_message_of(resp), "content"@) is Some
}

/// The message object of a valid API response.
pub open spec fn api_message_of(resp: Json) -> Json {
    field_of(field_of(resp, "choices"@)->0->Array_0@[0], "message"@)->0
}

/// `out` is the message that the response message object `m` describes.
pub open spec fn message_matches(m: Json, out: Message) -> bool {
    &&& out.role == match field_of(m, "role"@) {
        Some(Json::Str(s)) => role_named(s@),
        _ => MessageRole::Assistant,
    }
    &&& out.content == match field_of(m, "content"@) {
        Some(Json::Str(s)) => Some(s),
        _ => None,
    }
    &&& match field_of(m, "tool_calls"@) {
        Some(tc) => tool_calls_of(tc, out.tool_calls@),
        None => out.tool_calls@.len() == 0,
    }
}

/// The request JSON of one tool call.
pub open spec fn tool_call_json(j: Json, tc: ToolCalls) -> bool {
    &&& field_of(j, "id"@) == Some(Json::Str(tc.id))
    &&& field_of(j, "type"@) == Some(Json::Str(tc.call_type))
    &&& field_of(j, "function"@) matches Some(f)
    &&& field_of(field_of(j, "function"@)->0, "name"@) == Some(Json::Str(tc.function.name))
    &&& field_of(field_of(j, "function"@)->0, "arguments"@) matches Some(Json::Str(a))
    &&& field_of(field_of(j, "function"@)->0, "arguments"@)->0->Str_0@ == json_text(
        tc.function.arguments,
    )
}

/// The request JSON of one message: its role's name, its content or null, and
/// its tool calls when it has any.
pub open spec fn message_json(j: Json, m: Message) -> bool {
    &&& field_of(j, "role"@) matches Some(Json::Str(r))
    &&& field_of(j, "role"@)->0->Str_0@ == role_name(m.role)
    &&& field_of(j, "content"@) == Some(
        match m.content {
            Some(c) => Json::Str(c),
            None => Json::Null,
        },
    )
    &&& m.tool_calls@.len() == 0 ==> field_of(j, "tool_calls"@) is None
    &&& m.tool_calls@.len() > 0 ==> {
        &&& field_of(j, "tool_calls"@) matches Some(Json::Array(a))
        &&& field_of(j, "tool_calls"@)->0->Array_0@.len() == m.tool_calls@.len()
        &&& forall|i: int|
            0 <= i < m.tool_calls@.len() ==> tool_call_json(
                #[trigger] field_of(j, "tool_calls"@)->0->Array_0@[i],
                m.tool_calls@[i],
            )
    }
}

fn literal_keys_differ()
    ensures
        "id"@ != "type"@,
        "id"@ != "function"@,
        "type"@ != "function"@,
        "name"@ != "arguments"@,
        "role"@ != "content"@,
        "role"@ != "tool_calls"@,
        "content"@ != "tool_calls"@,
        "model"@ != "messages"@,
        "model"@ != "tools"@,
        "model"@ != "tool_choice"@,
        "messages"@ != "tools"@,
        "messages"@ != "tool_choice"@,
        "tools"@ != "tool_choice"@,
{
    proof {
        reveal_strlit("id");
        reveal_strlit("type");
        reveal_strlit("function");
        reveal_strlit("name");
        reveal_strlit("arguments");
        reveal_strlit("role");
        reveal_strlit("content");
        reveal_strlit("tool_calls");
        reveal_strlit("model");
        reveal_strlit("messages");
        reveal_strlit("tools");
        reveal_strlit("tool_choice");
        assert("id"@.len() != "type"@.len());
        assert("id"@.len() != "function"@.len());
        assert("type"@.len() != "function"@.len());
        assert("name"@.len() != "arguments"@.len());
        assert("role"@.len() != "content"@.len());
        assert("role"@.len() != "tool_calls"@.len());
        assert("content"@.len() != "tool_calls"@.len());
        assert("model"@.len() != "messages"@.len());
        assert("model"@[0] != "tools"@[0]);
        assert("model"@.len() != "tool_choice"@.len());
        assert("messages"@.len() != "tools"@.len());
        assert("messages"@.len() != "tool_choice"@.len());
        assert("tools"@.len() != "tool_choice"@.len());
    }
}

fn tool_call_to_json(tc: &ToolCalls) -> (r: Json)
    ensures
        tool_call_json(r, *tc),
{
    literal_keys_differ();
    let mut func: Vec<(String, Json)> = Vec::new();
    push_member(&mut func, "name", Json::Str(tc.function.name.clone()));
    push_member(&mut func, "arguments", Json::Str(json_to_text(&tc.function.arguments)));
    let mut fields: Vec<(String, Json)> = Vec::new();
    push_member(&mut fields, "id", Json::Str(tc.id.clone()));
    push_member(&mut fields, "type", Json::Str(tc.call_type.clone()));
    push_member(&mut fields, "function", Json::Object(func));
    Json::Object(fields)
}

fn message_to_json(m: &Message) -> (r: Json)
    ensures
        message_json(r, *m),
{
    literal_keys_differ();
    let mut fields: Vec<(String, Json)> = Vec::new();
    push_member(&mut fields, "role", Json::Str(owned(role_to_str(&m.role))));
    let content = match &m.content {
        Some(c) => Json::Str(c.clone()),
        None => Json::Null,
    };
    push_member(&mut fields, "content", content);
    if m.tool_calls.len() > 0 {
        let mut calls: Vec<Json> = Vec::new();
        let mut i: usize = 0;
        while i < m.tool_calls.len()
            invariant
                i <= m.tool_calls@.len(),
                calls@.len() == i,
                forall|k: int| 0 <= k < i ==> tool_call_json(#[trigger] calls@[k], m.tool_calls@[k]),
            decreases m.tool_calls@.len() - i,
        {
            calls.push(tool_call_to_json(&m.tool_calls[i]));
            i = i + 1;
        }
        push_member(&mut fields, "tool_calls", Json::Array(calls));
    }
    Json::Object(fields)
}

/// Moves the member `key` out of an object.
fn take_field(v: Json, key: &str) -> (r: Option<Json>)
    ensures
        r == field_of(v, key@),
{
    match v {
        Json::Object(mut fields) => {
            let ghost all = fields@;
            let mut i: usize = 0;
            assert(fields@.skip(0) =~= fields@);
            while i < fields.len()
                invariant
                    fields@ == all,
                    i <= all.len(),
                    field_of(v, key@) == crate::json::lookup(all, key@),
                    crate::json::lookup(all, key@) == crate::json::lookup(all.skip(i as int), key@),
                decreases all.len() - i,
            {
                assert(all.skip(i as int).drop_first() =~= all.skip(i + 1));
                assert(all.skip(i as int)[0] == all[i as int]);
                if same_text(fields[i].0.as_str(), key) {
                    let (_, x) = fields.remove(i);
                    return Some(x);
                }
                i = i + 1;
            }
            None
        },
        _ => None,
    }
}

fn read_string(v: &Json, key: &str) -> (r: Option<String>)
    ensures
        r == req_str(*v, key@),
{
    match v.get(key) {
        Some(Json::Str(s)) => Some(s.clone()),
        _ => None,
    }
}

fn parse_arguments(func: Json) -> (r: Json)
    ensures
        r == arguments_of(func),
{
    match take_field(func, "arguments") {
        Some(Json::Str(s)) => match parse_json(s.as_str()) {
            Some(a) => a,
            None => Json::Null,
        },
        Some(a) => a,
        None => Json::Null,
    }
}

fn parse_tool_call(tc: Json) -> (r: Option<ToolCalls>)
    ensures
        r is Some <==> tool_call_valid(tc),
        r matches Some(out) ==> tool_call_matches(tc, out),
{
    let id = match read_string(&tc, "id") {
        Some(s) => s,
        None => return None,
    };
    let call_type = match read_string(&tc, "type") {
        Some(s) => s,
        None => return None,
    };
    let func = match take_field(tc, "function") {
        Some(f) => f,
        None => return None,
    };
    let name = match read_string(&func, "name") {
        Some(s) => s,
        None => return None,
    };
    let arguments = parse_arguments(func);
    Some(ToolCalls { id, call_type, function: ToolCallsFuncSpec { name, arguments } })
}

impl LLMAPI {
    /// Create a new LLMAPI instance
    pub fn new(model_name: String, api_endpoint: String, api_key: Option<String>, timeout: Duration) -> (r:
        Self)
        ensures
            r.model_name() == model_name,
            r.api_endpoint() == api_endpoint,
            r.api_key() == api_key,
            r.timeout_spec() == timeout,
    {
        LLMAPI { model_name, api_endpoint, api_key, timeout }
    }

    pub closed spec fn model_name(&self) -> String {
        self.model_name
    }

    pub closed spec fn api_endpoint(&self) -> String {
        self.api_endpoint
    }

    pub closed spec fn api_key(&self) -> Option<String> {
        self.api_key
    }

    pub closed spec fn timeout_spec(&self) -> Duration {
        self.timeout
    }

    /// Set custom timeout for requests
    pub fn with_timeout(self, timeout: Duration) -> (r: Self)
        ensures
            r.timeout_spec() == timeout,
            r.model_name() == self.model_name(),
            r.api_endpoint() == self.api_endpoint(),
            r.api_key() == self.api_key(),
    {
        LLMAPI { timeout, ..self }
    }

    pub fn get_model_name(&self) -> (r: &str)
        ensures
            r@ == self.model_name()@,
    {
        self.model_name.as_str()
    }

    pub fn get_api_endpoint(&self) -> (r: &str)
        ensures
            r@ == self.api_endpoint()@,
    {
        self.api_endpoint.as_str()
    }

    pub fn timeout(&self) -> (r: Duration)
        ensures
            r == self.timeout_spec(),
    {
        self.timeout
    }

    /// The `Authorization` header value, if an API key is set: the key as it
    /// is when it already starts with `Bearer `, else prefixed with it.
    pub fn auth_header(&self) -> (r: Option<String>)
        ensures
            self.api_key() is None ==> r is None,
            self.api_key() matches Some(k) ==> (r matches Some(h) && h@ == if k@.len() >= 7
                && k@.take(7) == "Bearer "@ {
                k@
            } else {
                "Bearer "@ + k@
            }),
    {
        match &self.api_key {
            None => None,
            Some(k) => {
                let prefix = "Bearer ";
                proof {
                    reveal_strlit("Bearer ");
                }
                if has_prefix(k.as_str(), prefix) {
                    Some(k.clone())
                } else {
                    Some(String::from_str(prefix).concat(k.as_str()))
                }
            },
        }
    }

    /// The body of a chat-completion request: the model, the messages, and,
    /// when tools are offered, the tool definitions with automatic tool choice.
    pub fn request_body(&self, messages: &Vec<Message>, tools: Option<Vec<Json>>) -> (r: Json)
        ensures
            field_of(r, "model"@) == Some(Json::Str(self.model_name())),
            field_of(r, "messages"@) matches Some(Json::Array(ms)),
            field_of(r, "messages"@)->0->Array_0@.len() == messages@.len(),
            forall|i: int|
                0 <= i < messages@.len() ==> message_json(
                    #[trigger] field_of(r, "messages"@)->0->Array_0@[i],
                    messages@[i],
                ),
            tools matches Some(ts) ==> field_of(r, "tools"@) == Some(Json::Array(ts)),
            tools is Some ==> (field_of(r, "tool_choice"@) matches Some(Json::Str(c)) && c@
                == "auto"@),
            tools is None ==> field_of(r, "tools"@) is None && field_of(r, "tool_choice"@) is None,
    {
        literal_keys_differ();
        let mut ms: Vec<Json> = Vec::new();
        let mut i: usize = 0;
        while i < messages.len()
            invariant
                i <= messages@.len(),
                ms@.len() == i,
                forall|k: int| 0 <= k < i ==> message_json(#[trigger] ms@[k], messages@[k]),
            decreases messages@.len() - i,
        {
            ms.push(message_to_json(&messages[i]));
            i = i + 1;
        }
        let mut fields: Vec<(String, Json)> = Vec::new();
        push_member(&mut fields, "model", Json::Str(self.model_name.clone()));
        push_member(&mut fields, "messages", Json::Array(ms));
        match tools {
            Some(ts) => {
                push_member(&mut fields, "tools", Json::Array(ts));
                push_member(&mut fields, "tool_choice", Json::Str(owned("auto")));
            },
            None => {},
        }
        Json::Object(fields)
    }

    /// Create a system message
    pub fn system_message(content: &str) -> (r: Message)
        ensures
            r.role == MessageRole::System,
            r.content matches Some(c) && c@ == content@,
            r.tool_calls@.len() == 0,
    {
        Message { role: MessageRole::System, content: Some(owned(content)), tool_calls: Vec::new() }
    }

    /// Create a user message
    pub fn user_message(content: &str) -> (r: Message)
        ensures
            r.role == MessageRole::User,
            r.content matches Some(c) && c@ == content@,
            r.tool_calls@.len() == 0,
    {
        Message { role: MessageRole::User, content: Some(owned(content)), tool_calls: Vec::new() }
    }

    /// Parse tool calls from a JSON array; entries that lack a required member are skipped.
    pub fn parse_tool_calls(tool_calls_value: Json) -> (r: Vec<ToolCalls>)
        ensures
            tool_calls_of(tool_calls_value, r@),
    {
        match tool_calls_value {
            Json::Array(mut items) => {
                let ghost all = items@;
                let mut out: Vec<ToolCalls> = Vec::new();
                let mut k: usize = 0;
                let n = items.len();
                assert(all.take(0) =~= Seq::<Json>::empty());
                while k < n
                    invariant
                        n == all.len(),
                        k <= n,
                        items@ == all.skip(k as int),
                        out@.len() == valid_calls(all.take(k as int)).len(),
                        forall|i: int|
                            0 <= i < out@.len() ==> tool_call_matches(
                                valid_calls(all.take(k as int))[i],
                                #[trigger] out@[i],
                            ),
                    decreases n - k,
                {
                    let tc = items.remove(0);
                    assert(tc == all[k as int]);
                    assert(all.take(k + 1).drop_last() =~= all.take(k as int));
                    assert(all.take(k + 1).last() == all[k as int]);
                    assert(items@ =~= all.skip(k + 1));
                    match parse_tool_call(tc) {
                        Some(call) => {
                            out.push(call);
                        },
                        None => {},
                    }
                    k = k + 1;
                }
                assert(all.take(n as int) =~= all);
                out
            },
            _ => Vec::new(),
        }
    }

    /// Parse API response and extract message
    pub fn parse_api_message(api_resp: Json) -> (r: Option<Message>)
        ensures
            r is Some <==> api_message_valid(api_resp),
            r matches Some(m) ==> message_matches(api_message_of(api_resp), m),
    {
        let choices = match take_field(api_resp, "choices") {
            Some(Json::Array(cs)) => cs,
            _ => return None,
        };
        if choices.len() == 0 {
            return None;
        }
        let mut choices = choices;
        let choice = choices.remove(0);
        let msg = match take_field(choice, "message") {
            Some(m) => m,
            None => return None,
        };
        let role = match msg.get("role") {
            Some(Json::Str(s)) => str_to_role(s.as_str()),
            Some(_) => MessageRole::Assistant,
            None => return None,
        };
        let content = match msg.get("content") {
            Some(Json::Str(s)) => Some(s.clone()),
            Some(_) => None,
            None => return None,
        };
        let tool_calls = match take_field(msg, "tool_calls") {
            Some(tc) => LLMAPI::parse_tool_calls(tc),
            None => Vec::new(),
        };
        Some(Message { role, content, tool_calls })
    }
}

} // verus!
