use qqbot_core::adapter::{BotAdapter, BotAdapterConfig};
use qqbot_core::llm::MessageRole;
use qqbot_core::models::{MessageEvent, MessageType, Sender};
use qqbot_core::prompt::{build_chat_system_message, build_system_message};

fn event(group: bool, card: &str) -> MessageEvent {
    MessageEvent {
        message_id: 1,
        message_type: if group { MessageType::Group } else { MessageType::Private },
        sender: Sender { user_id: 111, nickname: "Alice".to_string(), card: card.to_string() },
        message_list: Vec::new(),
        group_id: if group { Some(9) } else { None },
        group_name: if group { Some("G".to_string()) } else { None },
        is_group_message: group,
    }
}

fn adapter() -> BotAdapter<(), (), ()> {
    let config: BotAdapterConfig<()> = BotAdapterConfig::new("ws://h".to_string(), "t".to_string(), "42".to_string());
    BotAdapter::new(config, ()).unwrap()
}

#[test]
fn brain_prompt_for_private_event() {
    let m = build_system_message(&adapter(), &event(false, "ignored"), "calm");
    assert_eq!(m.role, MessageRole::System);
    assert_eq!(
        m.content.unwrap(),
        "你是\"\"，QQ号是\"42\"。你的好友\"Alice\"(QQ号: \"111\")给你发送了一条消息。你的性格是: calm, 你需要根据消息内容决定做出反应或者无反应，其中你做出的反应需要委派给相应的Agent智能体(通过function tools)来完成"
    );
}

#[test]
fn chat_prompt_for_group_event_uses_card() {
    let m = build_chat_system_message(&adapter(), &event(true, "Ally"), "warm");
    assert_eq!(
        m.content.unwrap(),
        "你是\"\"（QQ号: 42）。在群\"G\"中，用户\"Ally\"（QQ号: 111）向你发送了消息。\n你需要以warm的性格生成对话回复。"
    );
}
