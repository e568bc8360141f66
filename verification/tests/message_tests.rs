use mini_magentic::message::{
    chat_history_to_llm_messages, chat_message_to_llm_message, AssistantContent, AssistantMessage, ChatMessage,
    LLMMessage, MessageRole, MultiModalContent, SystemMessage, ToolMessage, UserContent, UserMessage,
};
use mini_magentic::string_map::StringMap;

#[test]
fn test_text_user() {
    let chat_msg = ChatMessage::new_text(MessageRole::User, "user".to_string(), "Hello, world!".to_string());
    let llm_msg = chat_message_to_llm_message(&chat_msg).unwrap();
    match llm_msg {
        LLMMessage::User(UserMessage { content: UserContent::String(content), source, message_type }) => {
            assert_eq!(content, "Hello, world!");
            assert_eq!(source, "user");
            assert_eq!(message_type, "UserMessage");
        }
        _ => panic!("Expected User message"),
    }
}

#[test]
fn test_text_assistant() {
    let chat_msg = ChatMessage::new_text(MessageRole::Assistant, "planner".to_string(), "I will help you.".to_string());
    let llm_msg = chat_message_to_llm_message(&chat_msg).unwrap();
    match llm_msg {
        LLMMessage::Assistant(AssistantMessage { content: AssistantContent::String(content), source, message_type }) => {
            assert_eq!(content, "I will help you.");
            assert_eq!(source, Some("planner".to_string()));
            assert_eq!(message_type, "AssistantMessage");
        }
        _ => panic!("Expected Assistant message"),
    }
}

#[test]
fn test_text_system() {
    let chat_msg = ChatMessage::new_text(MessageRole::System, "system".to_string(), "You are a helpful AI.".to_string());
    let llm_msg = chat_message_to_llm_message(&chat_msg).unwrap();
    match llm_msg {
        LLMMessage::System(SystemMessage { content }) => {
            assert_eq!(content, "You are a helpful AI.");
        }
        _ => panic!("Expected System message"),
    }
}

#[test]
fn test_text_tool() {
    let mut metadata = StringMap::new();
    metadata.insert("tool_name".to_string(), "github_checker".to_string());
    metadata.insert("tool_call_id".to_string(), "call_123".to_string());

    let chat_msg = ChatMessage::Text {
        role: MessageRole::Tool,
        source: "tool_executor".to_string(),
        content: "7000 stars".to_string(),
        metadata,
    };

    let llm_msg = chat_message_to_llm_message(&chat_msg).unwrap();
    match llm_msg {
        LLMMessage::Tool(ToolMessage { content, name, call_id }) => {
            assert_eq!(content, "7000 stars");
            assert_eq!(name, "github_checker");
            assert_eq!(call_id, "call_123");
        }
        _ => panic!("Expected Tool message"),
    }
}

#[test]
fn test_multimodal_user() {
    let content = vec![
        MultiModalContent::Text("What is this?".to_string()),
        MultiModalContent::Image(vec![0x89, b'P', b'N', b'G']),
    ];
    let chat_msg = ChatMessage::new_multimodal(MessageRole::User, "user".to_string(), content.clone());

    let llm_msg = chat_message_to_llm_message(&chat_msg).unwrap();
    match llm_msg {
        LLMMessage::User(UserMessage { content: UserContent::MultiModal(parts), source, message_type }) => {
            assert_eq!(parts, content);
            assert_eq!(source, "user");
            assert_eq!(message_type, "UserMessage");
        }
        _ => panic!("Expected multimodal User message"),
    }
}

#[test]
fn test_multimodal_non_user_should_fail() {
    let chat_msg = ChatMessage::new_multimodal(
        MessageRole::Assistant,
        "agent".to_string(),
        vec![MultiModalContent::Text("I see an image".to_string())],
    );

    let result = chat_message_to_llm_message(&chat_msg);
    assert!(result.is_err());
    assert_eq!(result.unwrap_err().to_string(), "Only user can send multimodal messages");
}

#[test]
fn test_chat_history_to_llm_messages() {
    let history = vec![
        ChatMessage::new_text(MessageRole::System, "sys".to_string(), "System prompt".to_string()),
        ChatMessage::new_text(MessageRole::User, "user".to_string(), "Hi".to_string()),
        ChatMessage::new_text(MessageRole::Assistant, "ai".to_string(), "Hello!".to_string()),
    ];

    let llm_msgs = chat_history_to_llm_messages(&history).unwrap();
    assert_eq!(llm_msgs.len(), 3);
    assert!(matches!(llm_msgs[0], LLMMessage::System(_)));
    assert!(matches!(llm_msgs[1], LLMMessage::User(_)));
    assert!(matches!(llm_msgs[2], LLMMessage::Assistant(_)));
}

#[test]
fn tool_message_without_metadata_is_unknown() {
    let chat_msg = ChatMessage::new_text(MessageRole::Tool, "exec".to_string(), "done".to_string());
    match chat_message_to_llm_message(&chat_msg).unwrap() {
        LLMMessage::Tool(ToolMessage { content, name, call_id }) => {
            assert_eq!(content, "done");
            assert_eq!(name, "unknown");
            assert_eq!(call_id, "unknown");
        }
        _ => panic!("Expected Tool message"),
    }
}

#[test]
fn history_with_non_user_multimodal_fails() {
    let history = vec![
        ChatMessage::new_text(MessageRole::User, "user".to_string(), "Hi".to_string()),
        ChatMessage::new_multimodal(MessageRole::System, "sys".to_string(), vec![]),
    ];
    assert!(chat_history_to_llm_messages(&history).is_err());
}
