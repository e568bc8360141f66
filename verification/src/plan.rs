//! Plans, plan steps and the planner's conversation messages, with the
//! structural check applied to a plan the model returns as JSON.

use vstd::prelude::*;
use crate::json::{JsonValue, json_get, get_bool, get_bool_field, get_str, get_str_field};
use crate::string_map::StringMap;
use crate::text::{concat, str_eq};

verus! {

/// One part of a multimodal planner message.
#[derive(Debug, Clone)]
pub enum ContentPart {
    Text { text: String },
    ImageUrl { image_url: String },
}

/// Kinds of planner message.
#[derive(Debug, Clone, Copy, PartialEq, Eq, Structural)]
pub enum MessageType {
    Text,
    MultiModal,
    Stop,
}

/// A message in the planner's model request.
#[derive(Debug, Clone)]
pub struct LlmMessage {
    pub role: String,
    pub content: String,
}

/// One choice of a model reply.
#[derive(Debug, Clone)]
pub struct Choice {
    pub message: LlmMessage,
    pub finish_reason: Option<String>,
}

/// A model reply.
#[derive(Debug)]
pub struct LlmResponse {
    pub choices: Vec<Choice>,
    pub usage: Option<JsonValue>,
}

/// One step of a plan. A sentinel step also carries its repetition
/// condition and the seconds to sleep between checks.
#[derive(Debug)]
pub struct PlanStep {
    pub title: String,
    pub details: String,
    pub agent_name: String,
    pub step_type: Option<String>,
    pub condition: Option<JsonValue>,
    pub sleep_duration: Option<i64>,
}

/// A plan: the model's answer, the task, a summary, whether a plan is
/// needed at all, and the ordered steps.
#[derive(Debug)]
pub struct Plan {
    pub response: String,
    pub task: String,
    pub plan_summary: String,
    pub needs_plan: bool,
    pub steps: Vec<PlanStep>,
}

/// Who produced a planner message.
#[derive(Debug, Clone, Copy, PartialEq, Eq, Structural)]
pub enum Role {
    System,
    User,
    Assistant,
    Tool,
}

/// Fields shared by all planner messages; `timestamp` is milliseconds
/// since the Unix epoch.
#[derive(Debug, Clone)]
pub struct BaseMessage {
    pub source: Option<String>,
    pub metadata: StringMap,
    pub timestamp: Option<i64>,
}

/// A text message.
#[derive(Debug, Clone)]
pub struct TextMessage {
    pub base: BaseMessage,
    pub content: String,
}

/// A multimodal message.
#[derive(Debug, Clone)]
pub struct MultiModalMessage {
    pub base: BaseMessage,
    pub content: Vec<ContentPart>,
}

/// A message that ends a conversation.
#[derive(Debug, Clone)]
pub struct StopMessage {
    pub base: BaseMessage,
    pub content: String,
}

/// A planner conversation message.
#[derive(Debug, Clone)]
pub enum ChatMessage {
    Text(TextMessage),
    MultiModal(MultiModalMessage),
    Stop(StopMessage),
}

/// The text of the first text part, if any.
pub open spec fn first_text(parts: Seq<ContentPart>) -> Option<Seq<char>>
    decreases parts.len(),
{
    if parts.len() == 0 {
        None
    } else {
        match parts[0] {
            ContentPart::Text { text } => Some(text@),
            _ => first_text(parts.drop_first()),
        }
    }
}

/// The text a message contributes: its content, or for a multimodal
/// message the text of its first text part (empty when it has none).
pub open spec fn message_text(m: ChatMessage) -> Seq<char> {
    match m {
        ChatMessage::Text(t) => t.content@,
        ChatMessage::MultiModal(mm) => match first_text(mm.content@) {
            Some(t) => t,
            None => Seq::empty(),
        },
        ChatMessage::Stop(s) => s.content@,
    }
}

/// The shared fields of a message.
pub open spec fn base_of(m: ChatMessage) -> BaseMessage {
    match m {
        ChatMessage::Text(t) => t.base,
        ChatMessage::MultiModal(mm) => mm.base,
        ChatMessage::Stop(s) => s.base,
    }
}

impl ChatMessage {
    /// Who sent the message, if recorded.
    pub fn source(&self) -> (r: Option<&str>)
        ensures
            r matches Some(s) ==> base_of(*self).source matches Some(b) && s@ == b@,
            r is None <==> base_of(*self).source is None,
    {
        let b = match self {
            ChatMessage::Text(m) => &m.base,
            ChatMessage::MultiModal(m) => &m.base,
            ChatMessage::Stop(m) => &m.base,
        };
        match &b.source {
            Some(s) => Some(s.as_str()),
            None => None,
        }
    }

    /// The message's metadata.
    pub fn metadata(&self) -> (r: &StringMap)
        ensures
            *r == base_of(*self).metadata,
    {
        match self {
            ChatMessage::Text(m) => &m.base.metadata,
            ChatMessage::MultiModal(m) => &m.base.metadata,
            ChatMessage::Stop(m) => &m.base.metadata,
        }
    }

    /// The message's text (see `message_text`).
    pub fn content(&self) -> (r: String)
        ensures
            r@ == message_text(*self),
    {
        match self {
            ChatMessage::Text(m) => m.content.clone(),
            ChatMessage::MultiModal(m) => {
                let mut i: usize = 0;
                assert(m.content@.skip(0) =~= m.content@);
                while i < m.content.len()
                    invariant
                        i <= m.content@.len(),
                        message_text(*self) == (match first_text(m.content@) {
                            Some(t) => t,
                            None => Seq::empty(),
                        }),
                        first_text(m.content@) == first_text(m.content@.skip(i as int)),
                    decreases m.content@.len() - i,
                {
                    assert(m.content@.skip(i as int).drop_first() =~= m.content@.skip(i + 1));
                    match &m.content[i] {
                        ContentPart::Text { text } => {
                            assert(m.content@.skip(i as int)[0] == m.content@[i as int]);
                            return text.clone();
                        },
                        _ => {},
                    }
                    i = i + 1;
                }
                assert(m.content@.skip(i as int).len() == 0);
                String::new()
            },
            ChatMessage::Stop(m) => m.content.clone(),
        }
    }
}

/// Keys a plan object must carry.
pub open spec fn has_required_plan_keys(v: JsonValue) -> bool {
    &&& json_get(v, "task"@) is Some
    &&& json_get(v, "steps"@) is Some
    &&& json_get(v, "needs_plan"@) is Some
    &&& json_get(v, "response"@) is Some
    &&& json_get(v, "plan_summary"@) is Some
}

/// Whether a step object is well formed: it has string `title`, `details`
/// and `agent_name`; with sentinel tasks enabled, a step whose `step_type`
/// is the string `SentinelPlanStep` must also carry `condition` and
/// `sleep_duration`.
pub open spec fn plan_step_valid(step: JsonValue, sentinel: bool) -> bool {
    &&& get_str(step, "title"@) is Some
    &&& get_str(step, "details"@) is Some
    &&& get_str(step, "agent_name"@) is Some
    &&& (sentinel && json_get(step, "step_type"@) is Some && get_str(step, "step_type"@)
        == Some("SentinelPlanStep"@)) ==> (json_get(step, "condition"@) is Some && json_get(
        step,
        "sleep_duration"@,
    ) is Some)
}

/// Whether a model reply is a well-formed plan: an object with all required
/// keys whose `steps` is an array of well-formed steps.
pub open spec fn plan_json_valid(v: JsonValue, sentinel: bool) -> bool {
    &&& v is Object
    &&& has_required_plan_keys(v)
    &&& match json_get(v, "steps"@) {
        Some(JsonValue::Array(steps)) => plan_steps_valid(steps@, sentinel),
        _ => false,
    }
}

/// Whether every step of a sequence is well formed.
pub open spec fn plan_steps_valid(steps: Seq<JsonValue>, sentinel: bool) -> bool {
    forall|i: int| 0 <= i < steps.len() ==> plan_step_valid(#[trigger] steps[i], sentinel)
}

fn validate_plan_step_json(step: &JsonValue, sentinel_enabled: bool) -> (r: bool)
    ensures
        r == plan_step_valid(*step, sentinel_enabled),
{
    if get_str_field(step, "title").is_none() {
        return false;
    }
    if get_str_field(step, "details").is_none() {
        return false;
    }
    if get_str_field(step, "agent_name").is_none() {
        return false;
    }
    if sentinel_enabled && step.get("step_type").is_some() {
        let is_sentinel_step = match get_str_field(step, "step_type") {
            Some(t) => str_eq(t, "SentinelPlanStep"),
            None => false,
        };
        if is_sentinel_step {
            if step.get("condition").is_none() {
                return false;
            }
            if step.get("sleep_duration").is_none() {
                return false;
            }
        }
    }
    true
}

/// Checks that a model reply is a well-formed plan (see `plan_json_valid`).
pub fn validate_plan_json(json_response: &JsonValue, sentinel_tasks_enabled: bool) -> (r: bool)
    ensures
        r == plan_json_valid(*json_response, sentinel_tasks_enabled),
{
    if !json_response.is_object() {
        return false;
    }
    if json_response.get("task").is_none() || json_response.get("steps").is_none()
        || json_response.get("needs_plan").is_none() || json_response.get("response").is_none()
        || json_response.get("plan_summary").is_none() {
        return false;
    }
    let steps = match json_response.get("steps") {
        Some(s) => match s.as_array() {
            Some(a) => a,
            None => {
                return false;
            },
        },
        None => {
            return false;
        },
    };
    let mut i: usize = 0;
    while i < steps.len()
        invariant
            i <= steps@.len(),
            json_get(*json_response, "steps"@) == Some(JsonValue::Array(*steps)),
            forall|j: int| 0 <= j < i ==> plan_step_valid(#[trigger] steps@[j], sentinel_tasks_enabled),
        decreases steps@.len() - i,
    {
        if !validate_plan_step_json(&steps[i], sentinel_tasks_enabled) {
            assert(!plan_steps_valid(steps@, sentinel_tasks_enabled));
            return false;
        }
        i = i + 1;
    }
    true
}

/// What a planner reply allows: a malformed reply is refused, a reply that
/// says no plan is needed is answered with its response (a default text
/// when it has none), and any other reply can be read as a plan.
pub open spec fn plan_reply_check_spec(v: JsonValue, sentinel_tasks_enabled: bool) -> Result<(), Seq<char>> {
    if !plan_json_valid(v, sentinel_tasks_enabled) {
        Err("Invalid plan JSON structure"@)
    } else if get_bool(v, "needs_plan"@) == Some(false) {
        Err("No plan needed: "@ + match get_str(v, "response"@) {
            Some(r) => r,
            None => "无需计划。"@,
        })
    } else {
        Ok(())
    }
}

/// Checks a planner reply before it is read as a plan (see
/// `plan_reply_check_spec`).
pub fn check_plan_reply(json_response: &JsonValue, sentinel_tasks_enabled: bool) -> (r: Result<(), String>)
    ensures
        match plan_reply_check_spec(*json_response, sentinel_tasks_enabled) {
            Ok(()) => r is Ok,
            Err(m) => r matches Err(e) && e@ == m,
        },
{
    if !validate_plan_json(json_response, sentinel_tasks_enabled) {
        return Err(String::from_str("Invalid plan JSON structure"));
    }
    match get_bool_field(json_response, "needs_plan") {
        Some(false) => {
            let response = match get_str_field(json_response, "response") {
                Some(r) => r,
                None => "无需计划。",
            };
            Err(concat("No plan needed: ", response))
        },
        _ => Ok(()),
    }
}

/// Errors of the planning agent.
#[derive(Debug, Clone)]
pub enum PlanAgentError {
    /// The model request failed.
    LlmError(String),
    /// The model reply was not valid JSON; holds the parser's message.
    JsonParseError(String),
    /// The reply did not have the shape of a plan.
    ValidationError(String),
    /// A plan could not be produced.
    PlanGenerationError(String),
}

/// A plan reply is accepted only when it is an object with every required
/// key and each of its steps names a title, details and an agent as
/// strings: a reply with a step lacking any of them is refused as invalid.
pub proof fn lemma_accepted_plan_steps_are_complete(v: JsonValue, sentinel: bool, i: int)
    ensures
        plan_json_valid(v, sentinel) ==> {
            &&& v is Object
            &&& json_get(v, "task"@) is Some
            &&& json_get(v, "needs_plan"@) is Some
            &&& json_get(v, "response"@) is Some
            &&& json_get(v, "plan_summary"@) is Some
            &&& json_get(v, "steps"@) matches Some(JsonValue::Array(steps)) && (0 <= i < steps@.len() ==> {
                &&& get_str(steps@[i], "title"@) is Some
                &&& get_str(steps@[i], "details"@) is Some
                &&& get_str(steps@[i], "agent_name"@) is Some
            })
        },
        (json_get(v, "steps"@) matches Some(JsonValue::Array(steps)) && 0 <= i < steps@.len()
            && get_str(steps@[i], "agent_name"@) is None) ==> {
            &&& !plan_json_valid(v, sentinel)
            &&& plan_reply_check_spec(v, sentinel) == Err::<(), Seq<char>>("Invalid plan JSON structure"@)
        },
{
    match json_get(v, "steps"@) {
        Some(JsonValue::Array(steps)) => {
            if 0 <= i < steps@.len() {
                if plan_json_valid(v, sentinel) {
                    assert(plan_step_valid(steps@[i], sentinel));
                }
                if get_str(steps@[i], "agent_name"@) is None {
                    assert(!plan_step_valid(steps@[i], sentinel));
                }
            }
        },
        _ => {},
    }
}

/// Without sentinel steps, an object with every required key whose steps
/// each name a title, details and an agent as strings is a valid plan.
pub proof fn lemma_complete_plan_is_accepted(v: JsonValue, steps: Vec<JsonValue>)
    requires
        v is Object,
        json_get(v, "task"@) is Some,
        json_get(v, "needs_plan"@) is Some,
        json_get(v, "response"@) is Some,
        json_get(v, "plan_summary"@) is Some,
        json_get(v, "steps"@) == Some(JsonValue::Array(steps)),
        forall|j: int| 0 <= j < steps@.len() ==> {
            &&& get_str(#[trigger] steps@[j], "title"@) is Some
            &&& get_str(steps@[j], "details"@) is Some
            &&& get_str(steps@[j], "agent_name"@) is Some
        },
    ensures
        plan_json_valid(v, false),
{
    assert forall|j: int| 0 <= j < steps@.len() implies plan_step_valid(#[trigger] steps@[j], false) by {
        assert(get_str(steps@[j], "title"@) is Some);
    }
}

} // verus!
