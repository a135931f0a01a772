use qqbot_core::llm::{Message, MessageRole, LLMAPI};
use qqbot_core::preview::{format_message_list, get_message_list_data, MessageItem, PreviewMessageListRenderer};

#[test]
fn preview_text_lists_roles_and_contents() {
    let messages = vec![
        LLMAPI::system_message("be kind"),
        Message { role: MessageRole::Assistant, content: None, tool_calls: Vec::new() },
        LLMAPI::user_message("hi"),
    ];
    assert_eq!(format_message_list(&messages), "[System] be kind\n[Assistant] \n[User] hi");
    assert_eq!(format_message_list(&Vec::new()), "");
}

#[test]
fn message_items_use_api_role_names() {
    let messages = vec![LLMAPI::user_message("q"), Message { role: MessageRole::Tool, content: None, tool_calls: Vec::new() }];
    let items = get_message_list_data(Some(&messages));
    assert_eq!(
        items,
        vec![
            MessageItem { role: "user".to_string(), content: "q".to_string() },
            MessageItem { role: "tool".to_string(), content: String::new() },
        ]
    );
    assert!(get_message_list_data(None).is_empty());
    assert!(PreviewMessageListRenderer::handles_node_type("preview_message_list"));
    assert!(!PreviewMessageListRenderer::handles_node_type("preview"));
}
