use qqbot_core::adapter::{BotAdapter, BotAdapterConfig, BrainAgentTrait, DispatchPlan, AdapterError};
use qqbot_core::connection::{Connection, ConnectionState, Frame, ReadStep};
use qqbot_core::decoder::{decode_event, Decoded};
use qqbot_core::json::{parse_json, json_to_text, Json};
use qqbot_core::models::{Message, MessageEvent, MessageType};
use qqbot_core::record::LocalDateTime;
use qqbot_core::store::MessageStore;

type Handler = fn(&MessageEvent, &mut Vec<String>);

struct FailingBrain;

impl BrainAgentTrait<Vec<String>> for FailingBrain {
    fn on_event(&self, log: &mut Vec<String>, _event: &MessageEvent) -> Result<(), String> {
        log.push("brain".to_string());
        Err("brain failed".to_string())
    }

    fn name(&self) -> &'static str {
        "failing"
    }
}

fn now() -> LocalDateTime {
    LocalDateTime { year: 2025, month: 1, day: 28, hour: 12, minute: 30, second: 15 }
}

fn h1(_: &MessageEvent, log: &mut Vec<String>) {
    log.push("H1".to_string());
}

fn h2(_: &MessageEvent, log: &mut Vec<String>) {
    log.push("H2".to_string());
}

fn h3(_: &MessageEvent, log: &mut Vec<String>) {
    log.push("H3".to_string());
}

fn adapter(brain: Option<FailingBrain>) -> BotAdapter<MessageStore, Handler, FailingBrain> {
    let config = BotAdapterConfig::new("ws://localhost:3001".to_string(), "tok".to_string(), "bot42".to_string())
        .with_brain_agent(brain);
    let mut a = BotAdapter::new(config, MessageStore::memory_only()).expect("bot id is set");
    a.register_event_handler(h1 as Handler);
    a.register_event_handler(h2 as Handler);
    a.register_event_handler(h3 as Handler);
    a
}

/// Runs a plan the way the connection loop does: persistence, handlers in
/// order, then the brain agent whose failure is only logged.
fn run(a: &BotAdapter<MessageStore, Handler, FailingBrain>, plan: &DispatchPlan, store: &mut MessageStore) -> Vec<String> {
    let mut log = Vec::new();
    store.store_message(&plan.raw_key, &plan.raw_value);
    for &i in &plan.message.handler_order {
        (a.get_event_handlers()[i])(&plan.event, &mut log);
    }
    if plan.message.invoke_brain {
        if let Some(brain) = a.get_brain_agent() {
            let _ = brain.on_event(&mut log, &plan.event);
        }
    }
    log
}

const PRIVATE: &str = r#"{"message_type":"private","message_id":123,"sender":{"user_id":111,"nickname":"Alice","card":""},"message":[{"type":"text","text":"hi"}]}"#;

#[test]
fn private_event_end_to_end() {
    let a = adapter(None);
    let plan = a.process_event(PRIVATE, now()).expect("a chat event");
    let r = &plan.message.record;
    assert_eq!(r.message_id, "123");
    assert_eq!(r.sender_id, "111");
    assert_eq!(r.sender_name, "Alice");
    assert_eq!(r.content, "hi");
    assert_eq!(r.at_target_list, Some("bot42".to_string()));
    assert_eq!(r.group_id, None);
    assert_eq!(r.send_time, now());
    assert_eq!(plan.event.message_type, MessageType::Private);
    assert!(!plan.event.is_group_message);
    assert_eq!(plan.raw_key, "123");
    let mut store = MessageStore::memory_only();
    let log = run(&a, &plan, &mut store);
    assert_eq!(log, vec!["H1", "H2", "H3"]);
    let raw = store.get_message("123").expect("raw event stored");
    assert_eq!(parse_json(&raw), parse_json(PRIVATE));
}

#[test]
fn group_event_lists_at_targets() {
    let a = adapter(None);
    let text = r#"{"message_type":"group","message_id":7,"group_id":555,"group_name":"G","sender":{"user_id":9,"nickname":"Bob","card":"Bobby"},"message":[{"type":"at","target":222},{"type":"text","text":"hello"},{"type":"at","target":null},{"type":"at","target":333}]}"#;
    let plan = a.process_event(text, now()).expect("a chat event");
    let r = &plan.message.record;
    assert_eq!(r.at_target_list, Some("222,333".to_string()));
    assert_eq!(r.sender_name, "Bobby");
    assert_eq!(r.group_id, Some("555".to_string()));
    assert_eq!(r.group_name, Some("G".to_string()));
    assert_eq!(r.content, "hello");
}

#[test]
fn group_at_target_scenario() {
    let a = adapter(None);
    let with_at = r#"{"message_type":"group","message_id":8,"group_id":1,"sender":{"user_id":9,"nickname":"Bob","card":""},"message":[{"type":"at","target":222}]}"#;
    let plan = a.process_event(with_at, now()).expect("a chat event");
    assert_eq!(plan.message.record.at_target_list, Some("222".to_string()));
    assert_eq!(plan.message.record.sender_name, "Bob");
    let without = r#"{"message_type":"group","message_id":9,"group_id":1,"sender":{"user_id":9,"nickname":"Bob","card":""},"message":[{"type":"text","text":"x"}]}"#;
    let plan = a.process_event(without, now()).expect("a chat event");
    assert_eq!(plan.message.record.at_target_list, None);
}

#[test]
fn non_event_objects_are_filtered() {
    let a = adapter(Some(FailingBrain));
    assert!(a.process_event(r#"{"post_type":"meta_event","interval":5000}"#, now()).is_none());
    let j = parse_json(r#"{"status":"ok"}"#).expect("json");
    assert!(matches!(decode_event(&j), Decoded::Control));
}

#[test]
fn malformed_frames_are_dropped() {
    let a = adapter(None);
    assert!(a.process_event("not json", now()).is_none());
    assert!(a.process_event(r#"{"message_type":"private","message_id":"x"}"#, now()).is_none());
    let j = parse_json(r#"{"message_type":"channel","message_id":1,"sender":{"user_id":1,"nickname":"a"},"message":[]}"#).unwrap();
    assert!(matches!(decode_event(&j), Decoded::Invalid));
    let missing_group = parse_json(r#"{"message_type":"group","message_id":1,"sender":{"user_id":1,"nickname":"a"},"message":[]}"#).unwrap();
    assert!(matches!(decode_event(&missing_group), Decoded::Invalid));
    let unknown_segment = parse_json(r#"{"message_type":"private","message_id":1,"sender":{"user_id":1,"nickname":"a"},"message":[{"type":"image"}]}"#).unwrap();
    assert!(matches!(decode_event(&unknown_segment), Decoded::Invalid));
}

#[test]
fn handlers_run_in_registration_order() {
    let a = adapter(None);
    let plan = a.process_event(PRIVATE, now()).unwrap();
    assert_eq!(plan.message.handler_order, vec![0, 1, 2]);
    assert!(!plan.message.invoke_brain);
    let with_brain = adapter(Some(FailingBrain));
    let plan_b = with_brain.process_event(PRIVATE, now()).unwrap();
    assert_eq!(plan_b.message.handler_order, vec![0, 1, 2]);
    assert!(plan_b.message.invoke_brain);
}

#[test]
fn failing_brain_is_isolated() {
    let a = adapter(Some(FailingBrain));
    let plan = a.process_event(PRIVATE, now()).unwrap();
    let plain = adapter(None).process_event(PRIVATE, now()).unwrap();
    assert_eq!(plan.message.record, plain.message.record);
    let mut store = MessageStore::memory_only();
    let log = run(&a, &plan, &mut store);
    assert_eq!(log, vec!["H1", "H2", "H3", "brain"]);
    assert!(store.get_message("123").is_some());
}

#[test]
fn empty_bot_id_fails_fast() {
    let config: BotAdapterConfig<FailingBrain> =
        BotAdapterConfig::new("ws://h".to_string(), "t".to_string(), String::new());
    let r: Result<BotAdapter<MessageStore, Handler, FailingBrain>, AdapterError> =
        BotAdapter::new(config, MessageStore::memory_only());
    assert!(matches!(r, Err(AdapterError::MissingBotId)));
}

#[test]
fn decoded_segments_keep_order_and_replies_render() {
    let text = r#"{"message_type":"private","message_id":-5,"sender":{"user_id":1,"nickname":"n"},"message":[{"type":"reply","id":42},{"type":"text","text":"a b"},{"type":"at"}]}"#;
    let j = parse_json(text).unwrap();
    match decode_event(&j) {
        Decoded::Event(e) => {
            assert_eq!(e.message_list.len(), 3);
            assert!(matches!(e.message_list[0], Message::Reply(_)));
            assert_eq!(e.sender.card, "");
        }
        _ => panic!("expected an event"),
    }
    let plan = adapter(None).process_event(text, now()).unwrap();
    assert_eq!(plan.message.record.content, "[Reply:42] a b");
    assert_eq!(plan.message.record.message_id, "-5");
}

#[test]
fn json_text_round_trips() {
    let j = parse_json(r#"{"b":[1,2.5,"x",null,true],"a":{}}"#).unwrap();
    let t = json_to_text(&j);
    assert_eq!(t, r#"{"a":{},"b":[1,2.5,"x",null,true]}"#);
    assert_eq!(parse_json(&t), Some(j));
    assert_eq!(parse_json("[1"), None);
    assert_eq!(parse_json("-9223372036854775808"), Some(Json::Int(i64::MIN)));
}

#[test]
fn connection_reads_frames() {
    let mut c = Connection::new();
    c.begin_connect();
    c.on_handshake(true);
    assert_eq!(c.state, ConnectionState::Connected);
    assert_eq!(c.on_frame(Frame::Text("t".to_string())), ReadStep::Deliver("t".to_string()));
    assert_eq!(c.on_frame(Frame::Binary("é".as_bytes().to_vec())), ReadStep::Deliver("é".to_string()));
    assert_eq!(c.on_frame(Frame::Binary(vec![0xff, 0xfe])), ReadStep::DropInvalidUtf8);
    assert_eq!(c.on_frame(Frame::Ping), ReadStep::Ignore);
    assert_eq!(c.on_frame(Frame::Pong), ReadStep::Ignore);
    assert_eq!(c.on_frame(Frame::Other), ReadStep::Ignore);
    assert_eq!(c.state, ConnectionState::Connected);
    assert_eq!(c.on_frame(Frame::Close), ReadStep::Stop);
    assert_eq!(c.state, ConnectionState::Closed);
}

#[test]
fn upgrade_request_carries_bearer_and_host() {
    let a = adapter(None);
    let req = a.upgrade_request();
    assert_eq!(req.url, "ws://localhost:3001");
    assert_eq!(req.headers[0], ("Authorization".to_string(), "Bearer tok".to_string()));
    assert_eq!(req.headers[1], ("Host".to_string(), "localhost".to_string()));
    assert_eq!(req.headers[2], ("Connection".to_string(), "Upgrade".to_string()));
    assert_eq!(req.headers[3], ("Upgrade".to_string(), "websocket".to_string()));
    assert_eq!(req.headers[4], ("Sec-WebSocket-Version".to_string(), "13".to_string()));
    assert_eq!(req.headers[5].0, "Sec-WebSocket-Key");
    assert_eq!(req.headers[5].1.len(), 24);
    let other = qqbot_core::connection::upgrade_headers("http://x", "t", "k");
    assert_eq!(other[1].1, "localhost");
}

#[test]
fn handshake_keys_are_fresh() {
    let a = adapter(None);
    let k1 = a.upgrade_request().headers[5].1.clone();
    let k2 = a.upgrade_request().headers[5].1.clone();
    assert_ne!(k1, k2);
}
