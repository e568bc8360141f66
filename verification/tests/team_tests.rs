use mini_magentic::plan::{BaseMessage, ChatMessage, StopMessage, TextMessage};
use mini_magentic::string_map::StringMap;
use mini_magentic::team::{
    create_chat_agent_container, delivery_targets, extract_messages, AgentId, AgentResponse, ChatAgentContainer, GroupChatAgentResponse,
    GroupChatEvent, GroupChatStart, GroupChatTermination, HandlerTable, Subscription, SubscriptionManager, TopicId,
    TypeSubscription,
};

fn text(content: &str) -> ChatMessage {
    ChatMessage::Text(TextMessage {
        base: BaseMessage { source: Some("s".to_string()), metadata: StringMap::new(), timestamp: None },
        content: content.to_string(),
    })
}

fn sub(topic: &str, agent: &str) -> TypeSubscription {
    TypeSubscription { topic_type: topic.to_string(), agent_type: agent.to_string() }
}

fn topic(t: &str, src: &str) -> TopicId {
    TopicId::new(t.to_string(), src.to_string())
}

fn ids(v: &[AgentId]) -> Vec<(String, String)> {
    v.iter().map(|a| (a.agent_type.clone(), a.key.clone())).collect()
}

#[test]
fn type_subscription_matches_topic_type() {
    let s = sub("group", "planner");
    assert!(s.is_match(&topic("group", "x")));
    assert!(!s.is_match(&topic("other", "x")));
    let a = s.map_to_agent(&topic("group", "session-1"));
    assert_eq!((a.agent_type.as_str(), a.key.as_str()), ("planner", "session-1"));
}

#[test]
fn recipients_follow_subscriptions_and_cache() {
    let mut m = SubscriptionManager::new();
    m.add_subscription(sub("group", "planner"));
    m.add_subscription(sub("other", "coder"));
    m.add_subscription(sub("group", "surfer"));
    let t = topic("group", "s1");
    let first = m.get_subscribed_recipients(&t);
    let cached = m.get_subscribed_recipients(&t);
    let expected = vec![("planner".to_string(), "s1".to_string()), ("surfer".to_string(), "s1".to_string())];
    assert_eq!(ids(&first), expected);
    assert_eq!(ids(&cached), expected);
    m.add_subscription(sub("group", "late"));
    let after = m.get_subscribed_recipients(&t);
    assert_eq!(after.len(), 3);
    assert_eq!(after[2].agent_type, "late");
    assert!(m.get_subscribed_recipients(&topic("none", "s1")).is_empty());
}

#[test]
fn publishing_skips_the_sender() {
    let r = vec![
        AgentId::new("planner".to_string(), "s".to_string()),
        AgentId::new("surfer".to_string(), "s".to_string()),
    ];
    let sender = Some(AgentId::new("planner".to_string(), "s".to_string()));
    assert_eq!(ids(&delivery_targets(&r, &sender)), vec![("surfer".to_string(), "s".to_string())]);
    assert_eq!(delivery_targets(&r, &None).len(), 2);
}

#[test]
fn events_deliver_their_messages() {
    let start = GroupChatEvent::Start(GroupChatStart { messages: Some(vec![text("a"), text("b")]) });
    assert_eq!(extract_messages(start).len(), 2);
    assert!(extract_messages(GroupChatEvent::Start(GroupChatStart { messages: None })).is_empty());
    let resp = GroupChatEvent::AgentResponse(GroupChatAgentResponse { agent_response: AgentResponse { chat_message: text("r") } });
    let v = extract_messages(resp);
    assert_eq!(v[0].content(), "r");
    let stop = StopMessage {
        base: BaseMessage { source: None, metadata: StringMap::new(), timestamp: None },
        content: "bye".to_string(),
    };
    let v = extract_messages(GroupChatEvent::Termination(GroupChatTermination { message: stop }));
    assert!(matches!(v[0], ChatMessage::Stop(_)));
}

#[test]
fn container_buffers_until_request_ends() {
    let mut c = ChatAgentContainer::new("group".to_string(), "out".to_string());
    assert!(c.buffer_message(text("x")).is_ok());
    c.handle_start(GroupChatStart { messages: Some(vec![text("y"), text("z")]) }).unwrap();
    c.handle_agent_response(GroupChatAgentResponse { agent_response: AgentResponse { chat_message: text("w") } }).unwrap();
    let contents: Vec<String> = c.buffered_messages().iter().map(|m| m.content()).collect();
    assert_eq!(contents, vec!["x", "y", "z", "w"]);
    c.finish_request();
    assert!(c.buffered_messages().is_empty());
}

#[test]
fn first_matching_handler_takes_message() {
    let mut t = HandlerTable::new();
    assert_eq!(t.register_event("Start".to_string()), 0);
    assert_eq!(t.register_rpc("Start".to_string()), 1);
    assert_eq!(t.register_event("Start".to_string()), 2);
    assert_eq!(t.route("Start", false), Some(0));
    assert_eq!(t.route("Start", true), Some(1));
    assert_eq!(t.route("Reset", false), None);
}

#[test]
fn chat_agent_container_handles_group_chat_events() {
    let (container, handlers) = create_chat_agent_container("group".to_string(), "output".to_string());
    assert!(container.buffered_messages().is_empty());
    assert_eq!(handlers.route("GroupChatStart", false), Some(0));
    assert_eq!(handlers.route("GroupChatAgentResponse", false), Some(1));
    assert_eq!(handlers.route("GroupChatRequestPublish", false), Some(2));
    assert_eq!(handlers.route("GroupChatRequestPublish", true), None);
}
