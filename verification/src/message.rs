//! Conversation messages exchanged between agents, and their conversion
//! into the message form a language model consumes.

use vstd::prelude::*;
use crate::string_map::StringMap;

verus! {

/// Who produced a message.
#[derive(Debug, Clone, Copy, PartialEq, Eq, Structural)]
pub enum MessageRole {
    User,
    Assistant,
    System,
    Tool,
}

/// Whether an inter-agent message only informs or asks for work.
#[derive(Debug, Clone, Copy, PartialEq, Eq, Structural)]
pub enum MessageType {
    Notify,
    Execute,
}

/// One part of a multimodal message.
#[derive(Debug, Clone, PartialEq)]
pub enum MultiModalContent {
    Text(String),
    Image(Vec<u8>),
}

/// Mathematical form of a multimodal part.
pub enum MultiModalContentView {
    Text(Seq<char>),
    Image(Seq<u8>),
}

impl View for MultiModalContent {
    type V = MultiModalContentView;

    open spec fn view(&self) -> MultiModalContentView {
        match self {
            MultiModalContent::Text(t) => MultiModalContentView::Text(t@),
            MultiModalContent::Image(b) => MultiModalContentView::Image(b@),
        }
    }
}

/// The views of a sequence of multimodal parts.
pub open spec fn parts_view(v: Seq<MultiModalContent>) -> Seq<MultiModalContentView> {
    v.map_values(|c: MultiModalContent| c@)
}

/// A copy of a byte vector.
pub fn copy_bytes(v: &Vec<u8>) -> (r: Vec<u8>)
    ensures
        r@ == v@,
{
    let mut r: Vec<u8> = Vec::new();
    let mut i: usize = 0;
    while i < v.len()
        invariant
            i <= v@.len(),
            r@ == v@.subrange(0, i as int),
        decreases v@.len() - i,
    {
        r.push(v[i]);
        i = i + 1;
    }
    r
}

impl MultiModalContent {
    /// A copy of this part.
    pub fn duplicate(&self) -> (r: MultiModalContent)
        ensures
            r@ == self@,
    {
        match self {
            MultiModalContent::Text(t) => MultiModalContent::Text(t.clone()),
            MultiModalContent::Image(b) => MultiModalContent::Image(copy_bytes(b)),
        }
    }
}

/// A copy of a sequence of multimodal parts.
pub fn copy_parts(v: &Vec<MultiModalContent>) -> (r: Vec<MultiModalContent>)
    ensures
        parts_view(r@) == parts_view(v@),
{
    let mut r: Vec<MultiModalContent> = Vec::new();
    let mut i: usize = 0;
    while i < v.len()
        invariant
            i <= v@.len(),
            parts_view(r@) == parts_view(v@.subrange(0, i as int)),
        decreases v@.len() - i,
    {
        r.push(v[i].duplicate());
        proof {
            assert(parts_view(v@.subrange(0, i + 1)) =~= parts_view(v@.subrange(0, i as int)).push(v@[i as int]@));
        }
        i = i + 1;
        assert(parts_view(r@) =~= parts_view(v@.subrange(0, i as int)));
    }
    assert(v@.subrange(0, v@.len() as int) =~= v@);
    r
}

/// A conversation message as agents exchange it.
#[derive(Debug, Clone, PartialEq)]
pub enum ChatMessage {
    Text { role: MessageRole, source: String, content: String, metadata: StringMap },
    MultiModal {
        role: MessageRole,
        source: String,
        content: Vec<MultiModalContent>,
        metadata: StringMap,
    },
}

/// Mathematical form of a chat message.
pub enum ChatMessageView {
    Text {
        role: MessageRole,
        source: Seq<char>,
        content: Seq<char>,
        metadata: Map<Seq<char>, Seq<char>>,
    },
    MultiModal {
        role: MessageRole,
        source: Seq<char>,
        content: Seq<MultiModalContentView>,
        metadata: Map<Seq<char>, Seq<char>>,
    },
}

impl View for ChatMessage {
    type V = ChatMessageView;

    open spec fn view(&self) -> ChatMessageView {
        match self {
            ChatMessage::Text { role, source, content, metadata } => ChatMessageView::Text {
                role: *role,
                source: source@,
                content: content@,
                metadata: metadata@,
            },
            ChatMessage::MultiModal { role, source, content, metadata } => ChatMessageView::MultiModal {
                role: *role,
                source: source@,
                content: parts_view(content@),
                metadata: metadata@,
            },
        }
    }
}

impl ChatMessage {
    /// A text message with no metadata.
    pub fn new_text(role: MessageRole, source: String, content: String) -> (m: ChatMessage)
        ensures
            m@ == (ChatMessageView::Text {
                role,
                source: source@,
                content: content@,
                metadata: Map::empty(),
            }),
    {
        ChatMessage::Text { role, source, content, metadata: StringMap::new() }
    }

    /// A multimodal message with no metadata.
    pub fn new_multimodal(role: MessageRole, source: String, content: Vec<MultiModalContent>) -> (m: ChatMessage)
        ensures
            m@ == (ChatMessageView::MultiModal {
                role,
                source: source@,
                content: parts_view(content@),
                metadata: Map::empty(),
            }),
    {
        ChatMessage::MultiModal { role, source, content, metadata: StringMap::new() }
    }
}

/// A message from one agent to another carrying conversation history.
#[derive(Debug, Clone)]
pub struct Message {
    pub from: String,
    pub to: String,
    pub chat_history: Vec<ChatMessage>,
    pub msg_type: MessageType,
}

/// A tool invocation requested by the model.
#[derive(Debug, Clone, PartialEq)]
pub struct FunctionCall {
    pub id: String,
    pub name: String,
    pub arguments: String,
}

/// Mathematical form of a function call.
pub struct FunctionCallView {
    pub id: Seq<char>,
    pub name: Seq<char>,
    pub arguments: Seq<char>,
}

impl View for FunctionCall {
    type V = FunctionCallView;

    open spec fn view(&self) -> FunctionCallView {
        FunctionCallView { id: self.id@, name: self.name@, arguments: self.arguments@ }
    }
}

/// Instructions to the model.
#[derive(Debug, Clone)]
pub struct SystemMessage {
    pub content: String,
}

impl SystemMessage {
    /// A system message with the given text.
    pub fn new(content: String) -> (m: SystemMessage)
        ensures
            m.content@ == content@,
    {
        SystemMessage { content }
    }
}

/// What a user message carries.
#[derive(Debug, Clone)]
pub enum UserContent {
    String(String),
    MultiModal(Vec<MultiModalContent>),
}

/// Mathematical form of user content.
pub enum UserContentView {
    String(Seq<char>),
    MultiModal(Seq<MultiModalContentView>),
}

impl View for UserContent {
    type V = UserContentView;

    open spec fn view(&self) -> UserContentView {
        match self {
            UserContent::String(s) => UserContentView::String(s@),
            UserContent::MultiModal(v) => UserContentView::MultiModal(parts_view(v@)),
        }
    }
}

/// Type tag written on every user message.
pub open spec fn user_message_tag() -> Seq<char> {
    seq!['U', 's', 'e', 'r', 'M', 'e', 's', 's', 'a', 'g', 'e']
}

/// Type tag written on every assistant message.
pub open spec fn assistant_message_tag() -> Seq<char> {
    seq!['A', 's', 's', 'i', 's', 't', 'a', 'n', 't', 'M', 'e', 's', 's', 'a', 'g', 'e']
}

fn user_tag() -> (s: String)
    ensures
        s@ == user_message_tag(),
{
    let s = String::from_str("UserMessage");
    proof {
        reveal_strlit("UserMessage");
    }
    assert(s@ =~= user_message_tag());
    s
}

fn assistant_tag() -> (s: String)
    ensures
        s@ == assistant_message_tag(),
{
    let s = String::from_str("AssistantMessage");
    proof {
        reveal_strlit("AssistantMessage");
    }
    assert(s@ =~= assistant_message_tag());
    s
}

/// A message from the user side of the conversation.
#[derive(Debug, Clone)]
pub struct UserMessage {
    pub content: UserContent,
    pub source: String,
    pub message_type: String,
}

impl UserMessage {
    /// A user message tagged `UserMessage`.
    pub fn new(content: UserContent, source: String) -> (m: UserMessage)
        ensures
            m.content@ == content@,
            m.source@ == source@,
            m.message_type@ == user_message_tag(),
    {
        UserMessage { content, source, message_type: user_tag() }
    }
}

/// What an assistant message carries.
#[derive(Debug, Clone)]
pub enum AssistantContent {
    String(String),
    FunctionCalls(Vec<FunctionCall>),
}

/// Mathematical form of assistant content.
pub enum AssistantContentView {
    String(Seq<char>),
    FunctionCalls(Seq<FunctionCallView>),
}

impl View for AssistantContent {
    type V = AssistantContentView;

    open spec fn view(&self) -> AssistantContentView {
        match self {
            AssistantContent::String(s) => AssistantContentView::String(s@),
            AssistantContent::FunctionCalls(v) => AssistantContentView::FunctionCalls(
                v@.map_values(|f: FunctionCall| f@),
            ),
        }
    }
}

/// A message produced by the model.
#[derive(Debug, Clone)]
pub struct AssistantMessage {
    pub content: AssistantContent,
    pub source: Option<String>,
    pub message_type: String,
}

/// View of an optional string.
pub open spec fn opt_view(o: Option<String>) -> Option<Seq<char>> {
    match o {
        Some(s) => Some(s@),
        None => None,
    }
}

impl AssistantMessage {
    /// An assistant message tagged `AssistantMessage`.
    pub fn new(content: AssistantContent, source: Option<String>) -> (m: AssistantMessage)
        ensures
            m.content@ == content@,
            opt_view(m.source) == opt_view(source),
            m.message_type@ == assistant_message_tag(),
    {
        AssistantMessage { content, source, message_type: assistant_tag() }
    }
}

/// The result of a tool call reported back to the model.
#[derive(Debug, Clone)]
pub struct ToolMessage {
    pub content: String,
    pub name: String,
    pub call_id: String,
}

/// A message in the form a language model consumes.
#[derive(Debug, Clone)]
pub enum LLMMessage {
    System(SystemMessage),
    User(UserMessage),
    Assistant(AssistantMessage),
    Tool(ToolMessage),
}

/// Mathematical form of a model message.
pub enum LLMMessageView {
    System { content: Seq<char> },
    User { content: UserContentView, source: Seq<char>, message_type: Seq<char> },
    Assistant { content: AssistantContentView, source: Option<Seq<char>>, message_type: Seq<char> },
    Tool { content: Seq<char>, name: Seq<char>, call_id: Seq<char> },
}

impl View for LLMMessage {
    type V = LLMMessageView;

    open spec fn view(&self) -> LLMMessageView {
        match self {
            LLMMessage::System(m) => LLMMessageView::System { content: m.content@ },
            LLMMessage::User(m) => LLMMessageView::User {
                content: m.content@,
                source: m.source@,
                message_type: m.message_type@,
            },
            LLMMessage::Assistant(m) => LLMMessageView::Assistant {
                content: m.content@,
                source: opt_view(m.source),
                message_type: m.message_type@,
            },
            LLMMessage::Tool(m) => LLMMessageView::Tool {
                content: m.content@,
                name: m.name@,
                call_id: m.call_id@,
            },
        }
    }
}

impl FunctionCall {
    /// A copy of this call.
    pub fn duplicate(&self) -> (r: FunctionCall)
        ensures
            r@ == self@,
    {
        FunctionCall { id: self.id.clone(), name: self.name.clone(), arguments: self.arguments.clone() }
    }
}

impl LLMMessage {
    /// A copy of this message.
    pub fn duplicate(&self) -> (r: LLMMessage)
        ensures
            r@ == self@,
    {
        match self {
            LLMMessage::System(m) => LLMMessage::System(SystemMessage { content: m.content.clone() }),
            LLMMessage::User(m) => {
                let content = match &m.content {
                    UserContent::String(s) => UserContent::String(s.clone()),
                    UserContent::MultiModal(v) => UserContent::MultiModal(copy_parts(v)),
                };
                LLMMessage::User(UserMessage { content, source: m.source.clone(), message_type: m.message_type.clone() })
            },
            LLMMessage::Assistant(m) => {
                let content = match &m.content {
                    AssistantContent::String(s) => AssistantContent::String(s.clone()),
                    AssistantContent::FunctionCalls(v) => {
                        let mut out: Vec<FunctionCall> = Vec::new();
                        let mut i: usize = 0;
                        while i < v.len()
                            invariant
                                i <= v@.len(),
                                out@.map_values(|f: FunctionCall| f@) == v@.subrange(0, i as int).map_values(|f: FunctionCall| f@),
                            decreases v@.len() - i,
                        {
                            let f = v[i].duplicate();
                            let ghost fv = f@;
                            let ghost prev = out@;
                            out.push(f);
                            proof {
                                assert(out@ == prev.push(f));
                                assert(out@.map_values(|f: FunctionCall| f@) =~= prev.map_values(|f: FunctionCall| f@).push(fv));
                                assert(v@.subrange(0, i + 1).map_values(|f: FunctionCall| f@) =~= v@.subrange(0, i as int).map_values(
                                    |f: FunctionCall| f@,
                                ).push(fv));
                            }
                            i = i + 1;
                        }
                        assert(v@.subrange(0, v@.len() as int) =~= v@);
                        AssistantContent::FunctionCalls(out)
                    },
                };
                let source = match &m.source {
                    Some(s) => Some(s.clone()),
                    None => None,
                };
                LLMMessage::Assistant(AssistantMessage { content, source, message_type: m.message_type.clone() })
            },
            LLMMessage::Tool(m) => LLMMessage::Tool(
                ToolMessage { content: m.content.clone(), name: m.name.clone(), call_id: m.call_id.clone() },
            ),
        }
    }
}

/// Why a chat message cannot be given to the model.
#[derive(Debug, Clone, Copy, PartialEq, Eq, Structural)]
pub enum MessageError {
    /// A multimodal message whose role is not `User`.
    MultiModalNotFromUser,
}

impl MessageError {
    /// The error's description.
    pub fn to_string(&self) -> (s: String)
        ensures
            s@ == "Only user can send multimodal messages"@,
    {
        String::from_str("Only user can send multimodal messages")
    }
}

/// Placeholder used for a missing tool name or call id.
pub open spec fn unknown_text() -> Seq<char> {
    seq!['u', 'n', 'k', 'n', 'o', 'w', 'n']
}

/// `m[k]` when present, else `unknown`.
pub open spec fn meta_or_unknown(m: Map<Seq<char>, Seq<char>>, k: Seq<char>) -> Seq<char> {
    if m.dom().contains(k) { m[k] } else { unknown_text() }
}

/// The model message that a chat message becomes, or `None` when the
/// message cannot be given to the model.
pub open spec fn to_llm_spec(m: ChatMessageView) -> Option<LLMMessageView> {
    match m {
        ChatMessageView::Text { role, source, content, metadata } => match role {
            MessageRole::System => Some(LLMMessageView::System { content }),
            MessageRole::User => Some(LLMMessageView::User {
                content: UserContentView::String(content),
                source,
                message_type: user_message_tag(),
            }),
            MessageRole::Assistant => Some(LLMMessageView::Assistant {
                content: AssistantContentView::String(content),
                source: Some(source),
                message_type: assistant_message_tag(),
            }),
            MessageRole::Tool => Some(LLMMessageView::Tool {
                content,
                name: meta_or_unknown(metadata, "tool_name"@),
                call_id: meta_or_unknown(metadata, "tool_call_id"@),
            }),
        },
        ChatMessageView::MultiModal { role, source, content, metadata } => {
            if role == MessageRole::User {
                Some(LLMMessageView::User {
                    content: UserContentView::MultiModal(content),
                    source,
                    message_type: user_message_tag(),
                })
            } else {
                None
            }
        },
    }
}

fn meta_value(m: &StringMap, key: &str) -> (r: String)
    ensures
        r@ == meta_or_unknown(m@, key@),
{
    match m.get(key) {
        Some(v) => v.clone(),
        None => {
            let s = String::from_str("unknown");
            proof {
                reveal_strlit("unknown");
            }
            assert(s@ =~= unknown_text());
            s
        },
    }
}

/// Converts a chat message into the model's message form. Multimodal
/// messages are accepted only from the user.
pub fn chat_message_to_llm_message(msg: &ChatMessage) -> (r: Result<LLMMessage, MessageError>)
    ensures
        r is Ok <==> to_llm_spec(msg@) is Some,
        r matches Ok(l) ==> l@ == to_llm_spec(msg@)->0,
        r matches Err(e) ==> e == MessageError::MultiModalNotFromUser,
{
    match msg {
        ChatMessage::Text { role, source, content, metadata } => match role {
            MessageRole::System => Ok(LLMMessage::System(SystemMessage { content: content.clone() })),
            MessageRole::User => Ok(
                LLMMessage::User(
                    UserMessage {
                        content: UserContent::String(content.clone()),
                        source: source.clone(),
                        message_type: user_tag(),
                    },
                ),
            ),
            MessageRole::Assistant => Ok(
                LLMMessage::Assistant(
                    AssistantMessage {
                        content: AssistantContent::String(content.clone()),
                        source: Some(source.clone()),
                        message_type: assistant_tag(),
                    },
                ),
            ),
            MessageRole::Tool => {
                let name = meta_value(metadata, "tool_name");
                let call_id = meta_value(metadata, "tool_call_id");
                proof {
                    reveal_strlit("tool_name");
                    reveal_strlit("tool_call_id");
                }
                Ok(LLMMessage::Tool(ToolMessage { content: content.clone(), name, call_id }))
            },
        },
        ChatMessage::MultiModal { role, source, content, .. } => {
            match role {
                MessageRole::User => {},
                _ => {
                    return Err(MessageError::MultiModalNotFromUser);
                },
            }
            Ok(
                LLMMessage::User(
                    UserMessage {
                        content: UserContent::MultiModal(copy_parts(content)),
                        source: source.clone(),
                        message_type: user_tag(),
                    },
                ),
            )
        },
    }
}

/// Whether every message of a history can be given to the model.
pub open spec fn all_convertible(h: Seq<ChatMessageView>) -> bool {
    forall|i: int| 0 <= i < h.len() ==> (#[trigger] to_llm_spec(h[i])) is Some
}

/// The views of a sequence of chat messages.
pub open spec fn history_view(h: Seq<ChatMessage>) -> Seq<ChatMessageView> {
    h.map_values(|m: ChatMessage| m@)
}

/// The views of a sequence of model messages.
pub open spec fn llm_history_view(h: Seq<LLMMessage>) -> Seq<LLMMessageView> {
    h.map_values(|m: LLMMessage| m@)
}

/// Converts a whole history, failing on the first message that cannot be
/// converted.
pub fn chat_history_to_llm_messages(history: &[ChatMessage]) -> (r: Result<Vec<LLMMessage>, MessageError>)
    ensures
        r is Ok <==> all_convertible(history_view(history@)),
        r matches Ok(v) ==> v@.len() == history@.len() && forall|i: int| 0 <= i < history@.len()
            ==> (#[trigger] v@[i])@ == to_llm_spec(history@[i]@)->0,
{
    let mut out: Vec<LLMMessage> = Vec::new();
    let mut i: usize = 0;
    while i < history.len()
        invariant
            i <= history@.len(),
            out@.len() == i,
            forall|j: int| 0 <= j < i ==> (#[trigger] to_llm_spec(history@[j]@)) is Some,
            forall|j: int| 0 <= j < i ==> (#[trigger] out@[j])@ == to_llm_spec(history@[j]@)->0,
        decreases history@.len() - i,
    {
        match chat_message_to_llm_message(&history[i]) {
            Ok(m) => {
                out.push(m);
            },
            Err(e) => {
                proof {
                    let hv = history_view(history@);
                    assert(hv[i as int] == history@[i as int]@);
                    assert(!all_convertible(hv));
                }
                return Err(e);
            },
        }
        i = i + 1;
    }
    proof {
        let hv = history_view(history@);
        assert forall|j: int| 0 <= j < hv.len() implies (#[trigger] to_llm_spec(hv[j])) is Some by {
            assert(hv[j] == history@[j]@);
        }
    }
    Ok(out)
}

} // verus!
