use qqbot_core::agents::{ChatHistoryAgent, CodeWriterAgent, MathAgent};
use qqbot_core::models::{
    AtTargetMessage, Message, MessageEvent, MessageType, PlainTextMessage, ReplyMessage, Sender,
};
use qqbot_core::node::{first_type_mismatch, types_equal, DataType, Link, Port, RedisNode, LLMNode, TextProcessorNode};
use qqbot_core::text::decimal_string;

fn event(list: Vec<Message>) -> MessageEvent {
    MessageEvent {
        message_id: 77,
        message_type: MessageType::Private,
        sender: Sender { user_id: 1, nickname: "n".to_string(), card: String::new() },
        message_list: list,
        group_id: None,
        group_name: None,
        is_group_message: false,
    }
}

fn text(t: &str) -> Message {
    Message::PlainText(PlainTextMessage { text: t.to_string() })
}

#[test]
fn ports_and_links() {
    let p = Port::new("in", DataType::Json).with_description("d").optional();
    assert_eq!(p.name, "in");
    assert_eq!(p.description, Some("d".to_string()));
    assert!(p.optional);
    let link = Link::new("a", "out", "b", "in", DataType::Json);
    assert!(link.is_type_compatible(&DataType::String, &DataType::String));
    assert!(link.is_type_compatible(&DataType::Json, &DataType::Json));
    assert!(!link.is_type_compatible(&DataType::String, &DataType::Json));
    let nested = DataType::List(Box::new(DataType::Custom("x".to_string())));
    assert!(types_equal(&nested, &DataType::List(Box::new(DataType::Custom("x".to_string())))));
    assert!(!types_equal(&nested, &DataType::List(Box::new(DataType::Custom("y".to_string())))));
}

#[test]
fn node_metadata() {
    let n = RedisNode::new("r1", "Redis");
    assert_eq!(n.id(), "r1");
    assert_eq!(n.name(), "Redis");
    let inputs = n.input_ports();
    assert_eq!(inputs.len(), 6);
    assert_eq!(inputs[0].name, "redis_host");
    assert!(!inputs[0].optional);
    assert!(inputs[2].optional);
    assert_eq!(n.output_ports()[0].data_type, DataType::RedisRef);
    let llm = LLMNode::new("l", "LLM").with_system_prompt("be brief");
    assert_eq!(llm.output_ports().len(), 3);
    let tp = TextProcessorNode::new("t", "T", "uppercase");
    assert_eq!(tp.operation(), "uppercase");
}

#[test]
fn agents_read_event_text() {
    let e = event(vec![
        text(""),
        Message::At(AtTargetMessage { target: Some(5) }),
        text("1 + 2"),
        Message::Reply(ReplyMessage { id: 99 }),
        text("x"),
    ]);
    assert_eq!(MathAgent::aggregate_text(&e), "1 + 2 x");
    assert_eq!(CodeWriterAgent::<()>::aggregate_text(&e), " 1 + 2 x");
    assert_eq!(ChatHistoryAgent::target_message_id(&e), "99");
    assert_eq!(ChatHistoryAgent::target_message_id(&event(vec![text("a")])), "77");
    assert_eq!(decimal_string(-120), "-120");
    assert_eq!(decimal_string(0), "0");
}

#[test]
fn text_processor_operations() {
    assert_eq!(TextProcessorNode::new("t", "T", "uppercase").process("abc é"), "ABC É");
    assert_eq!(TextProcessorNode::new("t", "T", "lowercase").process("AbC"), "abc");
    assert_eq!(TextProcessorNode::new("t", "T", "trim").process("  a b \n"), "a b");
    assert_eq!(TextProcessorNode::new("t", "T", "reverse").process("abc"), "cba");
    assert_eq!(TextProcessorNode::new("t", "T", "reverse").process(""), "");
    assert_eq!(TextProcessorNode::new("t", "T", "other").process("Keep"), "Keep");
}

#[test]
fn port_type_validation() {
    let ports = LLMNode::new("l", "L").input_ports();
    let ok = vec![("prompt".to_string(), DataType::String), ("other".to_string(), DataType::Float)];
    assert_eq!(first_type_mismatch(&ports, &ok), None);
    let bad = vec![("max_tokens".to_string(), DataType::String), ("prompt".to_string(), DataType::Json)];
    assert_eq!(first_type_mismatch(&ports, &bad), Some(0));
    assert_eq!(first_type_mismatch(&ports, &Vec::new()), None);
}
