use qqbot_core::json::Json;
use qqbot_core::llm::{role_to_str, str_to_role, MessageRole, LLMAPI};
use std::time::Duration;

fn obj(fields: Vec<(&str, Json)>) -> Json {
    Json::Object(fields.into_iter().map(|(k, v)| (k.to_string(), v)).collect())
}

fn s(t: &str) -> Json {
    Json::Str(t.to_string())
}

#[test]
fn test_llmapi_creation() {
    let api = LLMAPI::new(
        "gpt-4".to_string(),
        "https://api.openai.com/v1/chat/completions".to_string(),
        Some("sk-test-key".to_string()),
        Duration::from_secs(60),
    );

    assert_eq!(api.get_model_name(), "gpt-4");
}

#[test]
fn test_llmapi_with_timeout() {
    let api = LLMAPI::new(
        "gpt-4".to_string(),
        "https://api.openai.com/v1/chat/completions".to_string(),
        None,
        Duration::from_secs(60),
    )
    .with_timeout(Duration::from_secs(30));

    assert_eq!(api.timeout(), Duration::from_secs(30));
}

#[test]
fn test_helper_message_creation() {
    let system_msg = LLMAPI::system_message("You are helpful");
    assert!(matches!(system_msg.role, MessageRole::System));
    assert_eq!(system_msg.content, Some("You are helpful".to_string()));
    assert!(system_msg.tool_calls.is_empty());

    let user_msg = LLMAPI::user_message("Hello");
    assert!(matches!(user_msg.role, MessageRole::User));
    assert_eq!(user_msg.content, Some("Hello".to_string()));
    assert!(user_msg.tool_calls.is_empty());
}

#[test]
fn roles_round_trip_through_names() {
    for role in [MessageRole::System, MessageRole::User, MessageRole::Assistant, MessageRole::Tool] {
        assert_eq!(str_to_role(role_to_str(&role)), role);
    }
    assert_eq!(role_to_str(&MessageRole::Tool), "tool");
    assert_eq!(str_to_role("narrator"), MessageRole::Assistant);
}

#[test]
fn auth_header_adds_bearer_once() {
    let with_key = LLMAPI::new("m".to_string(), "e".to_string(), Some("sk-1".to_string()), Duration::from_secs(1));
    assert_eq!(with_key.auth_header(), Some("Bearer sk-1".to_string()));
    let prefixed =
        LLMAPI::new("m".to_string(), "e".to_string(), Some("Bearer sk-2".to_string()), Duration::from_secs(1));
    assert_eq!(prefixed.auth_header(), Some("Bearer sk-2".to_string()));
    let none = LLMAPI::new("m".to_string(), "e".to_string(), None, Duration::from_secs(1));
    assert_eq!(none.auth_header(), None);
}

#[test]
fn parse_api_message_reads_first_choice() {
    let call = obj(vec![
        ("id", s("call_1")),
        ("type", s("function")),
        ("function", obj(vec![("name", s("math")), ("arguments", s("{\"a\":1,\"b\":2}"))])),
    ]);
    let broken = obj(vec![("id", s("call_2"))]);
    let msg = obj(vec![
        ("role", s("assistant")),
        ("content", Json::Null),
        ("tool_calls", Json::Array(vec![call, broken])),
    ]);
    let resp = obj(vec![("choices", Json::Array(vec![obj(vec![("message", msg)])]))]);
    let m = LLMAPI::parse_api_message(resp).expect("valid response");
    assert_eq!(m.role, MessageRole::Assistant);
    assert_eq!(m.content, None);
    assert_eq!(m.tool_calls.len(), 1);
    assert_eq!(m.tool_calls[0].id, "call_1");
    assert_eq!(m.tool_calls[0].call_type, "function");
    assert_eq!(m.tool_calls[0].function.name, "math");
    assert_eq!(
        m.tool_calls[0].function.arguments,
        obj(vec![("a", Json::Int(1)), ("b", Json::Int(2))])
    );
}

#[test]
fn parse_api_message_rejects_missing_content() {
    let msg = obj(vec![("role", s("user"))]);
    let resp = obj(vec![("choices", Json::Array(vec![obj(vec![("message", msg)])]))]);
    assert!(LLMAPI::parse_api_message(resp).is_none());
    let empty = obj(vec![("choices", Json::Array(vec![]))]);
    assert!(LLMAPI::parse_api_message(empty).is_none());
}

#[test]
fn tool_call_arguments_that_are_not_json_become_null() {
    let call = obj(vec![
        ("id", s("c")),
        ("type", s("function")),
        ("function", obj(vec![("name", s("f")), ("arguments", s("not json"))])),
    ]);
    let calls = LLMAPI::parse_tool_calls(Json::Array(vec![call]));
    assert_eq!(calls.len(), 1);
    assert_eq!(calls[0].function.arguments, Json::Null);
    assert!(LLMAPI::parse_tool_calls(s("x")).is_empty());
}
