//! Message routing among the agents of a team: topics and agent ids,
//! type subscriptions and the recipients they select (with a cache that
//! always agrees with them), what an event delivers, the buffer of a chat
//! agent's container, and which registered handler takes a message.

use vstd::prelude::*;
use crate::plan::{ChatMessage, StopMessage};
use crate::text::str_eq;

verus! {

/// A topic: its type and the source it concerns.
#[derive(Debug, Clone)]
pub struct TopicId {
    pub topic_type: String,
    pub source: String,
}

impl View for TopicId {
    type V = (Seq<char>, Seq<char>);

    open spec fn view(&self) -> (Seq<char>, Seq<char>) {
        (self.topic_type@, self.source@)
    }
}

impl TopicId {
    /// A topic of the given type and source.
    pub fn new(topic_type: String, source: String) -> (t: TopicId)
        ensures
            t@ == (topic_type@, source@),
    {
        TopicId { topic_type, source }
    }

    /// A copy of this topic.
    pub fn duplicate(&self) -> (t: TopicId)
        ensures
            t@ == self@,
    {
        TopicId { topic_type: self.topic_type.clone(), source: self.source.clone() }
    }

    /// Whether two topics are the same.
    pub fn same(&self, other: &TopicId) -> (r: bool)
        ensures
            r == (self@ == other@),
    {
        str_eq(self.topic_type.as_str(), other.topic_type.as_str()) && str_eq(self.source.as_str(), other.source.as_str())
    }
}

/// An agent: its type and its key within that type.
#[derive(Debug, Clone)]
pub struct AgentId {
    pub agent_type: String,
    pub key: String,
}

impl View for AgentId {
    type V = (Seq<char>, Seq<char>);

    open spec fn view(&self) -> (Seq<char>, Seq<char>) {
        (self.agent_type@, self.key@)
    }
}

impl AgentId {
    /// The agent of the given type and key.
    pub fn new(agent_type: String, key: String) -> (a: AgentId)
        ensures
            a@ == (agent_type@, key@),
    {
        AgentId { agent_type, key }
    }

    /// A copy of this id.
    pub fn duplicate(&self) -> (a: AgentId)
        ensures
            a@ == self@,
    {
        AgentId { agent_type: self.agent_type.clone(), key: self.key.clone() }
    }

    /// Whether two ids are the same.
    pub fn same(&self, other: &AgentId) -> (r: bool)
        ensures
            r == (self@ == other@),
    {
        str_eq(self.agent_type.as_str(), other.agent_type.as_str()) && str_eq(self.key.as_str(), other.key.as_str())
    }
}

/// The views of a sequence of agent ids.
pub open spec fn ids_view(v: Seq<AgentId>) -> Seq<(Seq<char>, Seq<char>)> {
    v.map_values(|a: AgentId| a@)
}

/// Where and how a message is delivered.
#[derive(Debug, Clone)]
pub struct MessageContext {
    pub sender: Option<AgentId>,
    pub topic_id: Option<TopicId>,
    pub is_rpc: bool,
    pub message_id: String,
}

/// A selection of the agents that receive the messages of some topics.
pub trait Subscription {
    /// Whether the subscription covers `topic_id`.
    fn is_match(&self, topic_id: &TopicId) -> bool;

    /// The agent that receives a message of `topic_id`.
    fn map_to_agent(&self, topic_id: &TopicId) -> AgentId;
}

/// Subscribes every agent of `agent_type` to the topics of `topic_type`;
/// each source has its own agent.
#[derive(Debug, Clone)]
pub struct TypeSubscription {
    pub topic_type: String,
    pub agent_type: String,
}

impl Subscription for TypeSubscription {
    /// The topic's type is the subscribed one.
    fn is_match(&self, topic_id: &TopicId) -> (r: bool)
        ensures
            r == (topic_id.topic_type@ == self.topic_type@),
    {
        str_eq(topic_id.topic_type.as_str(), self.topic_type.as_str())
    }

    /// The agent of the subscribed type keyed by the topic's source.
    fn map_to_agent(&self, topic_id: &TopicId) -> (a: AgentId)
        ensures
            a@ == (self.agent_type@, topic_id.source@),
    {
        AgentId::new(self.agent_type.clone(), topic_id.source.clone())
    }
}

/// The recipients a sequence of subscriptions selects for a topic: for
/// each matching subscription in order, its agent for the topic.
pub open spec fn recipients_spec(subs: Seq<TypeSubscription>, topic: (Seq<char>, Seq<char>)) -> Seq<(Seq<char>, Seq<char>)>
    decreases subs.len(),
{
    if subs.len() == 0 {
        Seq::empty()
    } else {
        let prev = recipients_spec(subs.drop_last(), topic);
        let s = subs.last();
        if s.topic_type@ == topic.0 {
            prev.push((s.agent_type@, topic.1))
        } else {
            prev
        }
    }
}

/// Adding a subscription adds its agent at the end of the recipients of
/// every topic it matches, and changes nothing for the others.
pub proof fn lemma_recipients_after_add(subs: Seq<TypeSubscription>, s: TypeSubscription, topic: (Seq<char>, Seq<char>))
    ensures
        recipients_spec(subs.push(s), topic) == (if s.topic_type@ == topic.0 {
            recipients_spec(subs, topic).push((s.agent_type@, topic.1))
        } else {
            recipients_spec(subs, topic)
        }),
{
    assert(subs.push(s).drop_last() =~= subs);
}

/// The subscriptions of a runtime and a cache of the recipients found for
/// topics. The cache always holds exactly what the subscriptions select.
#[derive(Debug)]
pub struct SubscriptionManager {
    subscriptions: Vec<TypeSubscription>,
    cache: Vec<(TopicId, Vec<AgentId>)>,
}

impl SubscriptionManager {
    /// The subscriptions, in the order they were added.
    pub closed spec fn subs(&self) -> Seq<TypeSubscription> {
        self.subscriptions@
    }

    /// Whether every cached entry holds the recipients the subscriptions select.
    pub closed spec fn wf(&self) -> bool {
        forall|i: int| 0 <= i < self.cache@.len() ==> ids_view((#[trigger] self.cache@[i]).1@) == recipients_spec(
            self.subscriptions@,
            self.cache@[i].0@,
        )
    }

    /// A manager with no subscription.
    pub fn new() -> (m: SubscriptionManager)
        ensures
            m.wf(),
            m.subs().len() == 0,
    {
        SubscriptionManager { subscriptions: Vec::new(), cache: Vec::new() }
    }

    /// Adds a subscription and forgets the cached recipients.
    pub fn add_subscription(&mut self, subscription: TypeSubscription)
        ensures
            final(self).wf(),
            final(self).subs() == old(self).subs().push(subscription),
    {
        self.subscriptions.push(subscription);
        self.cache = Vec::new();
    }

    /// The recipients of `topic_id` (see `recipients_spec`), from the cache
    /// when it holds them, and cached otherwise.
    pub fn get_subscribed_recipients(&mut self, topic_id: &TopicId) -> (r: Vec<AgentId>)
        requires
            old(self).wf(),
        ensures
            final(self).wf(),
            final(self).subs() == old(self).subs(),
            ids_view(r@) == recipients_spec(old(self).subs(), topic_id@),
    {
        let mut i: usize = 0;
        while i < self.cache.len()
            invariant
                self.wf(),
                self.subs() == old(self).subs(),
                i <= self.cache@.len(),
            decreases self.cache@.len() - i,
        {
            if self.cache[i].0.same(topic_id) {
                let cached = &self.cache[i].1;
                assert(ids_view(cached@) == recipients_spec(self.subscriptions@, topic_id@));
                return copy_ids(cached);
            }
            i = i + 1;
        }
        let mut recipients: Vec<AgentId> = Vec::new();
        let mut j: usize = 0;
        while j < self.subscriptions.len()
            invariant
                self.wf(),
                self.subs() == old(self).subs(),
                j <= self.subscriptions@.len(),
                ids_view(recipients@) == recipients_spec(self.subscriptions@.subrange(0, j as int), topic_id@),
            decreases self.subscriptions@.len() - j,
        {
            let s = &self.subscriptions[j];
            proof {
                assert(self.subscriptions@.subrange(0, j + 1).drop_last() =~= self.subscriptions@.subrange(0, j as int));
            }
            if s.is_match(topic_id) {
                let a = s.map_to_agent(topic_id);
                let ghost prev = recipients@;
                let ghost av = a@;
                recipients.push(a);
                assert(ids_view(recipients@) =~= ids_view(prev).push(av));
            }
            j = j + 1;
        }
        assert(self.subscriptions@.subrange(0, self.subscriptions@.len() as int) =~= self.subscriptions@);
        let copy = copy_ids(&recipients);
        let ghost before = self.cache@;
        self.cache.push((topic_id.duplicate(), copy));
        proof {
            assert forall|k: int| 0 <= k < self.cache@.len() implies ids_view((#[trigger] self.cache@[k]).1@)
                == recipients_spec(self.subscriptions@, self.cache@[k].0@) by {
                if k < before.len() {
                    assert(self.cache@[k] == before[k]);
                }
            }
        }
        recipients
    }
}

/// A copy of a list of agent ids.
pub fn copy_ids(v: &Vec<AgentId>) -> (r: Vec<AgentId>)
    ensures
        ids_view(r@) == ids_view(v@),
{
    let mut r: Vec<AgentId> = Vec::new();
    let mut i: usize = 0;
    while i < v.len()
        invariant
            i <= v@.len(),
            ids_view(r@) == ids_view(v@.subrange(0, i as int)),
        decreases v@.len() - i,
    {
        let a = v[i].duplicate();
        let ghost prev = r@;
        let ghost av = a@;
        r.push(a);
        assert(ids_view(r@) =~= ids_view(prev).push(av));
        assert(ids_view(v@.subrange(0, i + 1)) =~= ids_view(v@.subrange(0, i as int)).push(av));
        i = i + 1;
    }
    assert(v@.subrange(0, v@.len() as int) =~= v@);
    r
}

/// The ids other than `s`, in order.
pub open spec fn all_but(ids: Seq<(Seq<char>, Seq<char>)>, s: (Seq<char>, Seq<char>)) -> Seq<(Seq<char>, Seq<char>)>
    decreases ids.len(),
{
    if ids.len() == 0 {
        ids
    } else if ids.last() == s {
        all_but(ids.drop_last(), s)
    } else {
        all_but(ids.drop_last(), s).push(ids.last())
    }
}

/// The recipients without the sender: nobody receives its own message.
pub open spec fn without_sender(recipients: Seq<(Seq<char>, Seq<char>)>, sender: Option<(Seq<char>, Seq<char>)>) -> Seq<(Seq<char>, Seq<char>)> {
    match sender {
        Some(s) => all_but(recipients, s),
        None => recipients,
    }
}

/// The recipients a published message goes to (see `without_sender`).
pub fn delivery_targets(recipients: &Vec<AgentId>, sender: &Option<AgentId>) -> (r: Vec<AgentId>)
    ensures
        ids_view(r@) == without_sender(ids_view(recipients@), match sender {
            Some(s) => Some(s@),
            None => None,
        }),
{
    match sender {
        None => copy_ids(recipients),
        Some(s) => {
            let ghost sv = s@;
            let ghost rv = ids_view(recipients@);
            let mut r: Vec<AgentId> = Vec::new();
            let mut i: usize = 0;
            while i < recipients.len()
                invariant
                    i <= recipients@.len(),
                    rv == ids_view(recipients@),
                    sv == s@,
                    ids_view(r@) == all_but(rv.subrange(0, i as int), sv),
                decreases recipients@.len() - i,
            {
                proof {
                    assert(rv.subrange(0, i + 1).drop_last() =~= rv.subrange(0, i as int));
                    assert(rv.subrange(0, i + 1).last() == recipients@[i as int]@);
                }
                if !recipients[i].same(s) {
                    let a = recipients[i].duplicate();
                    let ghost prev = r@;
                    let ghost av = a@;
                    r.push(a);
                    assert(ids_view(r@) =~= ids_view(prev).push(av));
                }
                i = i + 1;
            }
            assert(rv.subrange(0, rv.len() as int) =~= rv);
            r
        },
    }
}

/// The start of a group chat, with the messages so far.
#[derive(Debug, Clone)]
pub struct GroupChatStart {
    pub messages: Option<Vec<ChatMessage>>,
}

/// An agent's answer.
#[derive(Debug, Clone)]
pub struct AgentResponse {
    pub chat_message: ChatMessage,
}

/// An agent's answer published to the group.
#[derive(Debug, Clone)]
pub struct GroupChatAgentResponse {
    pub agent_response: AgentResponse,
}

/// A message published to the group.
#[derive(Debug, Clone)]
pub struct GroupChatMessage {
    pub message: ChatMessage,
}

/// The end of a group chat.
#[derive(Debug, Clone)]
pub struct GroupChatTermination {
    pub message: StopMessage,
}

/// A request to an agent to publish its answer.
#[derive(Debug, Clone)]
pub struct GroupChatRequestPublish {}

/// A request to reset the chat.
#[derive(Debug, Clone)]
pub struct GroupChatReset {}

/// An event of a group chat.
#[derive(Debug, Clone)]
pub enum GroupChatEvent {
    Start(GroupChatStart),
    AgentResponse(GroupChatAgentResponse),
    Message(GroupChatMessage),
    Termination(GroupChatTermination),
    RequestPublish(GroupChatRequestPublish),
    Reset(GroupChatReset),
}

/// The messages an event delivers: those of a start (none when it has
/// none), an agent's answer, a published message, or the stop message of
/// a termination; other events deliver nothing.
pub open spec fn event_messages(event: GroupChatEvent) -> Seq<ChatMessage> {
    match event {
        GroupChatEvent::Start(s) => match s.messages {
            Some(v) => v@,
            None => Seq::empty(),
        },
        GroupChatEvent::AgentResponse(r) => seq![r.agent_response.chat_message],
        GroupChatEvent::Message(m) => seq![m.message],
        GroupChatEvent::Termination(t) => seq![ChatMessage::Stop(t.message)],
        _ => Seq::empty(),
    }
}

/// The messages an event delivers (see `event_messages`).
pub fn extract_messages(event: GroupChatEvent) -> (r: Vec<ChatMessage>)
    ensures
        r@ == event_messages(event),
{
    match event {
        GroupChatEvent::Start(s) => match s.messages {
            Some(v) => v,
            None => Vec::new(),
        },
        GroupChatEvent::AgentResponse(r) => {
            let mut v: Vec<ChatMessage> = Vec::new();
            v.push(r.agent_response.chat_message);
            v
        },
        GroupChatEvent::Message(m) => {
            let mut v: Vec<ChatMessage> = Vec::new();
            v.push(m.message);
            v
        },
        GroupChatEvent::Termination(t) => {
            let mut v: Vec<ChatMessage> = Vec::new();
            v.push(ChatMessage::Stop(t.message));
            v
        },
        _ => Vec::new(),
    }
}

/// Why a container could not take a message.
#[derive(Debug, Clone, Copy, PartialEq, Eq, Structural)]
pub enum ContainerError {
    /// The message is of a kind the container does not keep.
    Unsupported,
}

/// Holds the messages a chat agent has seen since it last answered.
#[derive(Debug)]
pub struct ChatAgentContainer {
    parent_topic_type: String,
    output_topic_type: String,
    message_buffer: Vec<ChatMessage>,
}

impl ChatAgentContainer {
    /// The buffered messages, oldest first.
    pub closed spec fn buffer(&self) -> Seq<ChatMessage> {
        self.message_buffer@
    }

    /// The topic type of the group.
    pub closed spec fn parent_topic(&self) -> Seq<char> {
        self.parent_topic_type@
    }

    /// The topic type the agent publishes to.
    pub closed spec fn output_topic(&self) -> Seq<char> {
        self.output_topic_type@
    }

    /// A container with an empty buffer.
    pub fn new(parent_topic_type: String, output_topic_type: String) -> (c: ChatAgentContainer)
        ensures
            c.buffer().len() == 0,
            c.parent_topic() == parent_topic_type@,
            c.output_topic() == output_topic_type@,
    {
        ChatAgentContainer { parent_topic_type, output_topic_type, message_buffer: Vec::new() }
    }

    /// Keeps a message for the next request.
    pub fn buffer_message(&mut self, message: ChatMessage) -> (r: Result<(), ContainerError>)
        ensures
            r is Ok,
            final(self).buffer() == old(self).buffer().push(message),
            final(self).parent_topic() == old(self).parent_topic(),
            final(self).output_topic() == old(self).output_topic(),
    {
        self.message_buffer.push(message);
        Ok(())
    }

    /// Keeps the messages a chat starts with.
    pub fn handle_start(&mut self, message: GroupChatStart) -> (r: Result<(), ContainerError>)
        ensures
            r is Ok,
            final(self).buffer() == old(self).buffer() + match message.messages {
                Some(v) => v@,
                None => Seq::empty(),
            },
            final(self).parent_topic() == old(self).parent_topic(),
            final(self).output_topic() == old(self).output_topic(),
    {
        let ghost start = self.message_buffer@;
        match message.messages {
            Some(v) => {
                let ghost all = v@;
                let mut rest = v;
                let mut i: usize = 0;
                let n = rest.len();
                while i < n
                    invariant
                        n == all.len(),
                        i <= n,
                        rest@ == all.subrange(i as int, n as int),
                        self.message_buffer@ == start + all.subrange(0, i as int),
                        self.parent_topic() == old(self).parent_topic(),
                        self.output_topic() == old(self).output_topic(),
                    decreases n - i,
                {
                    let m = rest.remove(0);
                    let _ = self.buffer_message(m);
                    assert(self.message_buffer@ =~= start + all.subrange(0, i + 1));
                    assert(rest@ =~= all.subrange(i + 1, n as int));
                    i = i + 1;
                }
                assert(all.subrange(0, n as int) =~= all);
            },
            None => {
                assert(self.message_buffer@ =~= start + Seq::<ChatMessage>::empty());
            },
        }
        Ok(())
    }

    /// Keeps another agent's answer.
    pub fn handle_agent_response(&mut self, message: GroupChatAgentResponse) -> (r: Result<(), ContainerError>)
        ensures
            r is Ok,
            final(self).buffer() == old(self).buffer().push(message.agent_response.chat_message),
            final(self).parent_topic() == old(self).parent_topic(),
            final(self).output_topic() == old(self).output_topic(),
    {
        self.buffer_message(message.agent_response.chat_message)
    }

    /// The messages the agent answers a request from.
    pub fn buffered_messages(&self) -> (r: &Vec<ChatMessage>)
        ensures
            r@ == self.buffer(),
    {
        &self.message_buffer
    }

    /// Empties the buffer once the agent has answered a request.
    pub fn finish_request(&mut self)
        ensures
            final(self).buffer().len() == 0,
            final(self).parent_topic() == old(self).parent_topic(),
            final(self).output_topic() == old(self).output_topic(),
    {
        self.message_buffer.clear();
    }
}

/// The handlers registered with a routed agent, in registration order: the
/// message type each takes and whether it answers requests (RPC) or events.
#[derive(Debug)]
pub struct HandlerTable {
    entries: Vec<(String, bool)>,
}

/// Whether `i` is the first handler for `message_kind` with the given kind.
pub open spec fn first_handler(e: Seq<(Seq<char>, bool)>, message_kind: Seq<char>, is_rpc: bool, i: int) -> bool {
    &&& 0 <= i < e.len()
    &&& e[i] == (message_kind, is_rpc)
    &&& forall|j: int| 0 <= j < i ==> e[j] != (message_kind, is_rpc)
}

impl HandlerTable {
    /// The registered handlers as (message type, answers requests).
    pub closed spec fn handlers(&self) -> Seq<(Seq<char>, bool)> {
        self.entries@.map_values(|e: (String, bool)| (e.0@, e.1))
    }

    /// A table with no handler.
    pub fn new() -> (t: HandlerTable)
        ensures
            t.handlers().len() == 0,
    {
        let t = HandlerTable { entries: Vec::new() };
        assert(t.handlers() =~= Seq::<(Seq<char>, bool)>::empty());
        t
    }

    fn register(&mut self, message_kind: String, is_rpc: bool) -> (index: usize)
        ensures
            final(self).handlers() == old(self).handlers().push((message_kind@, is_rpc)),
            index == old(self).handlers().len(),
    {
        let index = self.entries.len();
        let ghost tv = message_kind@;
        self.entries.push((message_kind, is_rpc));
        assert(self.handlers() =~= old(self).handlers().push((tv, is_rpc)));
        index
    }

    /// Registers an event handler for messages of `message_kind`; returns its index.
    pub fn register_event(&mut self, message_kind: String) -> (index: usize)
        ensures
            final(self).handlers() == old(self).handlers().push((message_kind@, false)),
            index == old(self).handlers().len(),
    {
        self.register(message_kind, false)
    }

    /// Registers a request handler for messages of `message_kind`; returns its index.
    pub fn register_rpc(&mut self, message_kind: String) -> (index: usize)
        ensures
            final(self).handlers() == old(self).handlers().push((message_kind@, true)),
            index == old(self).handlers().len(),
    {
        self.register(message_kind, true)
    }

    /// The handler a message of `message_kind` goes to: the first registered
    /// for that type whose kind (request or event) matches the delivery;
    /// none when no such handler is registered.
    pub fn route(&self, message_kind: &str, is_rpc: bool) -> (r: Option<usize>)
        ensures
            r matches Some(i) ==> first_handler(self.handlers(), message_kind@, is_rpc, i as int),
            r is None ==> forall|j: int| 0 <= j < self.handlers().len() ==> self.handlers()[j] != (message_kind@, is_rpc),
    {
        let mut i: usize = 0;
        while i < self.entries.len()
            invariant
                i <= self.entries@.len(),
                forall|j: int| 0 <= j < i ==> self.handlers()[j] != (message_kind@, is_rpc),
            decreases self.entries@.len() - i,
        {
            if self.entries[i].1 == is_rpc && str_eq(self.entries[i].0.as_str(), message_kind) {
                assert(self.handlers()[i as int] == (message_kind@, is_rpc));
                return Some(i);
            }
            assert(self.handlers()[i as int] == (self.entries@[i as int].0@, self.entries@[i as int].1));
            i = i + 1;
        }
        None
    }
}

/// A container for a chat agent together with its handler table: the
/// group-chat start, agent responses and publish requests are handled as
/// events, in that order.
pub fn create_chat_agent_container(parent_topic_type: String, output_topic_type: String) -> (r: (ChatAgentContainer, HandlerTable))
    ensures
        r.0.buffer().len() == 0,
        r.0.parent_topic() == parent_topic_type@,
        r.0.output_topic() == output_topic_type@,
        r.1.handlers() == seq![
            ("GroupChatStart"@, false),
            ("GroupChatAgentResponse"@, false),
            ("GroupChatRequestPublish"@, false),
        ],
{
    let container = ChatAgentContainer::new(parent_topic_type, output_topic_type);
    let mut handlers = HandlerTable::new();
    handlers.register_event(String::from_str("GroupChatStart"));
    handlers.register_event(String::from_str("GroupChatAgentResponse"));
    handlers.register_event(String::from_str("GroupChatRequestPublish"));
    (container, handlers)
}

} // verus!
