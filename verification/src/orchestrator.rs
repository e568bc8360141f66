//! The orchestrator of a team: its settings and state, how it sets up the
//! team it directs, the prompts it asks the model, and the decisions of
//! its planning and execution steps. The model and the agents are driven
//! by the caller.

use vstd::prelude::*;
use crate::json::{json_get, JsonValue};
use crate::message::{ChatMessage, Message, MessageType};
use crate::plan::Plan;
use crate::string_map::StringMap;
use crate::text::{decimal, join, join_spec, str_eq, trim, trim_spec, usize_to_string, views};

verus! {

/// Fixed text of a prompt.
pub const LEDGER_INTRO_BEFORE_TASK: &'static str = r#"
                We are working to address the following user request:
                \\n\\n
                "#;

/// Fixed text of a prompt.
pub const LEDGER_INTRO_BEFORE_TEAM: &'static str = r#"
                \\n\\n
                To answer this request we have assembled the following team:
                \\n\\n
                "#;

/// Fixed text of a prompt.
pub const LEDGER_INTRO_BEFORE_PLAN: &'static str = r#"
                \\n\\n
                Here is the plan to follow as best as possible:
                \\n\\n
                "#;

/// Fixed text of a prompt.
pub const LEDGER_INTRO_END: &'static str = r#"
                "#;

/// Fixed text of a prompt.
pub const PROGRESS_BEFORE_TASK: &'static str = r#"
        Recall we are working on the following request:
        "#;

/// Fixed text of a prompt.
pub const PROGRESS_BEFORE_PLAN: &'static str = r#"
        This is our current plan:
        "#;

/// Fixed text of a prompt.
pub const PROGRESS_BEFORE_STEP_INDEX: &'static str = r#"

        We are at step index "#;

/// Fixed text of a prompt.
pub const PROGRESS_BEFORE_STEP_TITLE: &'static str = r#" in the plan which is 
        Title: "#;

/// Fixed text of a prompt.
pub const PROGRESS_BEFORE_STEP_DETAILS: &'static str = r#"
        Details: "#;

/// Fixed text of a prompt.
pub const PROGRESS_BEFORE_AGENT_NAME: &'static str = r#"
        agent_name: "#;

/// Fixed text of a prompt.
pub const PROGRESS_BEFORE_TEAM: &'static str = r#"
        And we have assembled the following team:
        "#;

/// Fixed text of a prompt.
pub const PROGRESS_BEFORE_NAMES: &'static str = r#"
        The browser the web_surfer accesses is also controlled by the user.

        To make progress on the request, please answer the following questions, including necessary reasoning:

            - is_current_step_complete: Is the current step complete? (True if complete, or False if the current step is not yet complete)
            - need_to_replan: Do we need to create a new plan? (True if user has sent new instructions and the current plan can't address it. True if the current plan cannot address the user request because we are stuck in a loop, facing significant barriers, or the current approach is not working. False if we can continue with the current plan. Most of the time we don't need a new plan.)
            - instruction_or_question: Provide complete instructions to accomplish the current step with all context needed about the task and the plan. Provide a very detailed reasoning chain for how to complete the step. If the next agent is the user, pose it directly as a question. Otherwise pose it as something you will do.
            - agent_name: Decide which team member should complete the current step from the list of team members: "#;

/// Fixed text of a prompt.
pub const PROGRESS_BEFORE_ADDITIONAL_INSTRUCTIONS: &'static str = r#". 
            - progress_summary: Summarize all the information that has been gathered so far that would help in the completion of the plan including ones not present in the collected information. This should include any facts, educated guesses, or other information that has been gathered so far. Maintain any information gathered in the previous steps.

        Important: it is important to obey the user request and any messages they have sent previously.

        "#;

/// Fixed text of a prompt.
pub const PROGRESS_BEFORE_NAMES_AGAIN: &'static str = r#"

        Please output an answer in pure JSON format according to the following schema. The JSON object must be parsable as-is. DO NOT OUTPUT ANYTHING OTHER THAN JSON, AND DO NOT DEVIATE FROM THIS SCHEMA:

            {
                "is_current_step_complete": {
                    "reason": string,
                    "answer": boolean
                },
                "need_to_replan": {
                    "reason": string,
                    "answer": boolean
                },
                "instruction_or_question": {
                    "answer": string,
                    "agent_name": string (the name of the agent that should complete the step from "#;

/// Fixed text of a prompt.
pub const PROGRESS_END: &'static str = r#")
                },
                "progress_summary": "a summary of the progress made so far"

            }
            "#;

/// Fixed text of a prompt.
pub const INSTRUCTION_BEFORE_STEP_INDEX: &'static str = r#"    Step "#;

/// Fixed text of a prompt.
pub const INSTRUCTION_BEFORE_STEP_TITLE: &'static str = r#": "#;

/// Fixed text of a prompt.
pub const INSTRUCTION_BEFORE_STEP_DETAILS: &'static str = r#"
            \\n\\n
            "#;

/// Fixed text of a prompt.
pub const INSTRUCTION_BEFORE_AGENT_NAME: &'static str = r#"
            \\n\\n
            Instruction for "#;

/// Fixed text of a prompt.
pub const INSTRUCTION_BEFORE_INSTRUCTION: &'static str = r#": "#;

/// Fixed text of a prompt.
pub const INSTRUCTION_END: &'static str = r#"
            "#;

/// Fixed text of a prompt.
pub const TASK_LEDGER_BEFORE_TEAM: &'static str = r#"
            You have access to the following team members that can help you address the request each with unique expertise:
            "#;

/// Fixed text of a prompt.
pub const TASK_LEDGER_END: &'static str = r#"
            Remember, there is no requirement to involve all team members -- a team member's particular expertise may not be needed for the task.
            When you answer without a plan and your answer includes factual information, make sure to say whether the answer was found using online search or from your own internal knowledge.
            Your plan should be a sequence of steps that will complete the task."#;

/// Step format and output schema of the task ledger prompt.
pub const TASK_LEDGER_STEP_TYPES: &'static str = r#"
            Each step should have a title, details and agent_name fields.

            The title should be a short one sentence description of the step.

            The details should be a detailed description of the step. The details should be concise and directly describe the action to be taken.
            The details should start with a brief recap of the title in one short sentence. We then follow it with a new line. We then add any additional details without repeating information from the title. We should be concise but mention all crucial details to allow the human to verify the step.
            The details should not be longer that 2 sentences.

            The agent_name should be the name of the agent that will execute the step. The agent_name should be one of the team members listed above.

            Output an answer in pure JSON format according to the following schema. The JSON object must be parsable as-is. DO NOT OUTPUT ANYTHING OTHER THAN JSON, AND DO NOT DEVIATE FROM THIS SCHEMA:

            The JSON object should have the following structure:

            {
                "response": "a complete response to the user request for Case 1.",
                "task": "a complete description of the task requested by the user",
                "plan_summary": "a complete summary of the plan if a plan is needed, otherwise an empty string",
                "needs_plan": boolean,
                "steps":
                [
                    {
                        "title": "title of step 1",
                        "details": "recap the title in one short sentence \n remaining details of step 1",
                        "agent_name": "the name of the agent that should complete the step"
                    },
                    {
                        "title": "title of step 2",
                        "details": "recap the title in one short sentence \n remaining details of step 2",
                        "agent_name": "the name of the agent that should complete the step"
                    },
                    ...
                ]
            }"#;

/// Settings of the orchestrator.
#[derive(Debug)]
pub struct OrchestratorConfig {
    pub cooperative_planning: bool,
    pub autonomous_execution: bool,
    pub allow_follow_up_input: bool,
    pub plan: Option<Plan>,
    pub max_turns: Option<usize>,
    pub allow_for_replans: bool,
    pub max_json_retries: usize,
    pub saved_facts: Option<String>,
    pub allowed_websites: Option<Vec<String>>,
    pub do_bing_search: bool,
    pub final_answer_prompt: Option<String>,
    pub model_context_token_limit: Option<usize>,
    pub retrieve_relevant_plans: Option<String>,
    /// The most replans allowed; `None` allows any number.
    pub max_replans: Option<usize>,
}

/// Progress of a group conversation.
#[derive(Debug)]
pub struct OrchestratorState {
    pub task: String,
    pub plan_str: String,
    pub plan: Option<Plan>,
    pub n_rounds: usize,
    pub current_step_idx: usize,
    pub information_collected: String,
    pub in_planning_mode: bool,
    pub is_paused: bool,
    pub group_topic_type: String,
    pub message_history: Vec<ChatMessage>,
    pub participant_topic_types: Vec<String>,
    pub n_replans: usize,
}

/// Whether a state has no task, no plan and no progress, and plans next.
pub open spec fn is_fresh(s: OrchestratorState) -> bool {
    &&& s.task@.len() == 0
    &&& s.plan_str@.len() == 0
    &&& s.plan is None
    &&& s.n_rounds == 0
    &&& s.current_step_idx == 0
    &&& s.in_planning_mode
    &&& !s.is_paused
    &&& s.n_replans == 0
}

impl Default for OrchestratorState {
    /// Everything empty, zero or false.
    fn default() -> (s: Self)
        ensures
            s.task@.len() == 0 && s.plan_str@.len() == 0 && s.plan is None,
            s.n_rounds == 0 && s.current_step_idx == 0 && s.n_replans == 0,
            s.information_collected@.len() == 0 && s.group_topic_type@.len() == 0,
            !s.in_planning_mode && !s.is_paused,
            s.message_history@.len() == 0 && s.participant_topic_types@.len() == 0,
    {
        OrchestratorState {
            task: String::new(),
            plan_str: String::new(),
            plan: None,
            n_rounds: 0,
            current_step_idx: 0,
            information_collected: String::new(),
            in_planning_mode: false,
            is_paused: false,
            group_topic_type: String::new(),
            message_history: Vec::new(),
            participant_topic_types: Vec::new(),
            n_replans: 0,
        }
    }
}

impl OrchestratorState {
    /// Starts over for a new task: forgets the task, the plan, the progress,
    /// the collected information and the history; keeps the group's topic
    /// and participants.
    pub fn reset(&mut self)
        ensures
            is_fresh(*final(self)),
            final(self).information_collected@.len() == 0,
            final(self).message_history@.len() == 0,
            final(self).group_topic_type == old(self).group_topic_type,
            final(self).participant_topic_types == old(self).participant_topic_types,
    {
        self.task = String::new();
        self.plan_str = String::new();
        self.plan = None;
        self.n_rounds = 0;
        self.current_step_idx = 0;
        self.information_collected = String::new();
        self.in_planning_mode = true;
        self.message_history = Vec::new();
        self.is_paused = false;
        self.n_replans = 0;
    }

    /// Starts over keeping the context: forgets the task, the plan and the
    /// progress; keeps the collected information, the history, the group's
    /// topic and participants.
    pub fn reset_with_context(&mut self)
        ensures
            is_fresh(*final(self)),
            final(self).information_collected == old(self).information_collected,
            final(self).message_history == old(self).message_history,
            final(self).group_topic_type == old(self).group_topic_type,
            final(self).participant_topic_types == old(self).participant_topic_types,
    {
        self.task = String::new();
        self.plan_str = String::new();
        self.plan = None;
        self.n_rounds = 0;
        self.current_step_idx = 0;
        self.in_planning_mode = true;
        self.is_paused = false;
        self.n_replans = 0;
    }
}

/// A condition that ends a conversation, implemented by the user of the orchestrator.
pub trait TerminationConditionTrait {}

/// What the model reports about the progress of the current step.
#[derive(Debug, Clone)]
pub struct LedgerAnswer {
    pub reason: String,
    pub answer: bool,
}

/// The model's instruction for the next agent.
#[derive(Debug, Clone)]
pub struct LedgerInstruction {
    pub answer: String,
    pub agent_name: String,
}

/// The model's assessment of progress.
#[derive(Debug, Clone)]
pub struct ProgressLedger {
    pub is_current_step_complete: LedgerAnswer,
    pub need_to_replan: LedgerAnswer,
    pub instruction_or_question: LedgerInstruction,
    pub progress_summary: String,
}

/// Why the orchestrator could not act.
#[derive(Debug, Clone)]
pub enum OrchestratorError {
    /// The user's agent is required but not a participant; holds the participants.
    UserAgentMissing(Vec<String>),
    /// No plan has been made yet.
    PlanMissing,
    /// The step index is past the plan; holds the index and the plan's length.
    StepOutOfBounds(usize, usize),
}

/// The topic of the user's agent.
pub open spec fn user_agent_topic() -> Seq<char> {
    "user_proxy"@
}

/// The name of the agent for steps that need no action.
pub open spec fn no_action_name() -> Seq<char> {
    "no_action_agent"@
}

/// The description of the agent for steps that need no action.
pub open spec fn no_action_description() -> Seq<char> {
    "If for this step no action is needed, you can use this agent to perform no action"@
}

/// The position of the first `x` in `s`.
pub open spec fn first_index(s: Seq<Seq<char>>, x: Seq<char>) -> int
    decreases s.len(),
{
    if s.len() == 0 {
        -1
    } else if s.contains(x) && !s.drop_last().contains(x) {
        s.len() - 1
    } else {
        first_index(s.drop_last(), x)
    }
}

/// The agents steps are assigned to: the participants, without the user's
/// agent under autonomous execution, and the agent for steps with no action.
pub open spec fn execution_names(names: Seq<Seq<char>>, autonomous: bool) -> Seq<Seq<char>> {
    (if autonomous && names.contains(user_agent_topic()) {
        names.remove(first_index(names, user_agent_topic()))
    } else {
        names
    }).push(no_action_name())
}

/// The descriptions of the agents steps are assigned to, matching `execution_names`.
pub open spec fn execution_descriptions(names: Seq<Seq<char>>, descriptions: Seq<Seq<char>>, autonomous: bool) -> Seq<Seq<char>> {
    (if autonomous && names.contains(user_agent_topic()) {
        descriptions.remove(first_index(names, user_agent_topic()))
    } else {
        descriptions
    }).push(no_action_description())
}

/// One line of the team description.
pub open spec fn team_line(name: Seq<char>, description: Seq<char>) -> Seq<char> {
    name + " - "@ + trim_spec(description)
}

/// The lines of the team description, pairing names with descriptions up
/// to the shorter list.
pub open spec fn team_lines(names: Seq<Seq<char>>, descriptions: Seq<Seq<char>>) -> Seq<Seq<char>> {
    let n = if names.len() <= descriptions.len() { names.len() } else { descriptions.len() };
    Seq::new(n, |i: int| team_line(names[i], descriptions[i]))
}

/// The team description: one line per agent.
pub open spec fn team_description_spec(names: Seq<Seq<char>>, descriptions: Seq<Seq<char>>) -> Seq<char> {
    join_spec(team_lines(names, descriptions), "\n"@)
}

/// Whether the user's agent is required but missing.
pub open spec fn user_agent_missing(names: Seq<Seq<char>>, config: OrchestratorConfig) -> bool {
    !names.contains(user_agent_topic()) && !(config.autonomous_execution && config.allow_follow_up_input)
}

/// Whether dropping the user's agent finds its description.
pub open spec fn descriptions_cover_user(names: Seq<Seq<char>>, descriptions: Seq<Seq<char>>, config: OrchestratorConfig) -> bool {
    config.autonomous_execution && names.contains(user_agent_topic()) ==> first_index(names, user_agent_topic()) < descriptions.len()
}

/// The message recording the plan the team follows.
pub open spec fn ledger_intro_spec(task: Seq<char>, team: Seq<char>, plan: Seq<char>) -> Seq<char> {
    LEDGER_INTRO_BEFORE_TASK@ + task + LEDGER_INTRO_BEFORE_TEAM@ + team + LEDGER_INTRO_BEFORE_PLAN@ + plan + LEDGER_INTRO_END@
}

/// The question about progress at step `step_index` of the plan.
pub open spec fn progress_ledger_spec(
    task: Seq<char>,
    plan: Seq<char>,
    step_index: nat,
    title: Seq<char>,
    details: Seq<char>,
    agent_name: Seq<char>,
    team: Seq<char>,
    names: Seq<char>,
    additional: Seq<char>,
) -> Seq<char> {
    PROGRESS_BEFORE_TASK@ + task + PROGRESS_BEFORE_PLAN@ + plan + PROGRESS_BEFORE_STEP_INDEX@ + decimal(step_index) + PROGRESS_BEFORE_STEP_TITLE@ + title + PROGRESS_BEFORE_STEP_DETAILS@ + details + PROGRESS_BEFORE_AGENT_NAME@ + agent_name + PROGRESS_BEFORE_TEAM@ + team + PROGRESS_BEFORE_NAMES@ + names + PROGRESS_BEFORE_ADDITIONAL_INSTRUCTIONS@ + additional + PROGRESS_BEFORE_NAMES_AGAIN@ + names + PROGRESS_END@
}

/// The instruction for the agent of step number `step_number` (counted from 1).
pub open spec fn agent_instruction_spec(
    step_number: nat,
    title: Seq<char>,
    details: Seq<char>,
    agent_name: Seq<char>,
    instruction: Seq<char>,
) -> Seq<char> {
    INSTRUCTION_BEFORE_STEP_INDEX@ + decimal(step_number) + INSTRUCTION_BEFORE_STEP_TITLE@ + title + INSTRUCTION_BEFORE_STEP_DETAILS@ + details + INSTRUCTION_BEFORE_AGENT_NAME@ + agent_name + INSTRUCTION_BEFORE_INSTRUCTION@ + instruction + INSTRUCTION_END@
}

/// The request for a plan, with the team filled in.
pub open spec fn task_ledger_plan_spec(team: Seq<char>) -> Seq<char> {
    trim_spec(TASK_LEDGER_BEFORE_TEAM@ + team + TASK_LEDGER_END@) + "\n\n"@ + trim_spec(TASK_LEDGER_STEP_TYPES@)
}

/// Whether a reply has the members of a plan: `task`, `steps`,
/// `needs_plan`, `response` and `plan_summary`, with `steps` a list of
/// objects each having `title`, `details` and `agent_name`.
pub open spec fn plan_reply_valid(v: JsonValue) -> bool {
    &&& v is Object
    &&& json_get(v, "task"@) is Some
    &&& json_get(v, "steps"@) is Some
    &&& json_get(v, "needs_plan"@) is Some
    &&& json_get(v, "response"@) is Some
    &&& json_get(v, "plan_summary"@) is Some
    &&& json_get(v, "steps"@) matches Some(JsonValue::Array(steps)) && steps_have_fields(steps@)
}

/// Whether every step is an object with `title`, `details` and `agent_name`.
pub open spec fn steps_have_fields(steps: Seq<JsonValue>) -> bool {
    forall|i: int| 0 <= i < steps.len() ==> step_has_fields(#[trigger] steps[i])
}

/// Whether a step is an object with `title`, `details` and `agent_name`.
pub open spec fn step_has_fields(step: JsonValue) -> bool {
    &&& step is Object
    &&& json_get(step, "title"@) is Some
    &&& json_get(step, "details"@) is Some
    &&& json_get(step, "agent_name"@) is Some
}

/// The message that tells every agent about `content`.
pub fn notify_message(content: Vec<ChatMessage>) -> (m: Message)
    ensures
        m.from@ == "orchestrator"@,
        m.to@ == "all"@,
        m.chat_history@ == content@,
        m.msg_type == MessageType::Notify,
{
    Message { from: String::from_str("orchestrator"), to: String::from_str("all"), chat_history: content, msg_type: MessageType::Notify }
}

/// The message that asks agent `agent_name` to act on `content`.
pub fn execute_message(agent_name: &str, content: Vec<ChatMessage>) -> (m: Message)
    ensures
        m.from@ == "Orchestrator"@,
        m.to@ == agent_name@,
        m.chat_history@ == content@,
        m.msg_type == MessageType::Execute,
{
    Message {
        from: String::from_str("Orchestrator"),
        to: String::from_str(agent_name),
        chat_history: content,
        msg_type: MessageType::Execute,
    }
}

/// Checks that a reply has the members of a plan (see `plan_reply_valid`).
pub fn validate_plan_json(json_response: &JsonValue) -> (r: bool)
    ensures
        r == plan_reply_valid(*json_response),
{
    if !json_response.is_object() {
        return false;
    }
    if json_response.get("task").is_none() || json_response.get("steps").is_none() || json_response.get(
        "needs_plan",
    ).is_none() || json_response.get("response").is_none() || json_response.get("plan_summary").is_none() {
        return false;
    }
    let steps = match json_response.get("steps") {
        Some(JsonValue::Array(s)) => s,
        _ => {
            return false;
        },
    };
    let mut i: usize = 0;
    while i < steps.len()
        invariant
            i <= steps@.len(),
            json_get(*json_response, "steps"@) == Some(JsonValue::Array(*steps)),
            forall|j: int| 0 <= j < i ==> step_has_fields(#[trigger] steps@[j]),
        decreases steps@.len() - i,
    {
        let step = &steps[i];
        if !step.is_object() || step.get("title").is_none() || step.get("details").is_none() || step.get(
            "agent_name",
        ).is_none() {
            assert(!step_has_fields(steps@[i as int]));
            return false;
        }
        i = i + 1;
    }
    true
}

/// The request for a plan (see `task_ledger_plan_spec`).
pub fn get_task_ledger_plan_prompt(team: &str) -> (r: String)
    ensures
        r@ == task_ledger_plan_spec(team@),
{
    let mut base = String::from_str(TASK_LEDGER_BEFORE_TEAM);
    base.append(team);
    base.append(TASK_LEDGER_END);
    let mut r = trim(base.as_str());
    r.append("\n\n");
    let steps = trim(TASK_LEDGER_STEP_TYPES);
    r.append(steps.as_str());
    r
}

/// The message recording the plan the team follows (see `ledger_intro_spec`).
pub fn ledger_intro(task: &str, team: &str, plan: &str) -> (r: String)
    ensures
        r@ == ledger_intro_spec(task@, team@, plan@),
{
    let mut r = String::from_str(LEDGER_INTRO_BEFORE_TASK);
    r.append(task);
    r.append(LEDGER_INTRO_BEFORE_TEAM);
    r.append(team);
    r.append(LEDGER_INTRO_BEFORE_PLAN);
    r.append(plan);
    r.append(LEDGER_INTRO_END);
    r
}

/// A text message of the orchestrator.
fn orchestrator_text(name: &String, content: String, metadata: StringMap) -> (m: ChatMessage)
    ensures
        m matches ChatMessage::Text { role, source, content: c, metadata: md } && role
            == crate::message::MessageRole::Assistant && source@ == name@ && c@ == content@ && md@ == metadata@,
{
    ChatMessage::Text { role: crate::message::MessageRole::Assistant, source: name.clone(), content, metadata }
}

/// What the execution step asks for next.
#[derive(Debug)]
pub enum ExecutionStart {
    /// Stop and give the final answer, for the given reason.
    Finish(String),
    /// Ask the model about progress with this prompt.
    AskProgress(String),
}

/// What the execution step decided once the model assessed progress.
#[derive(Debug)]
pub enum ExecutionDecision {
    /// Stop and give the final answer, for the given reason.
    Finish(String),
    /// Make a new plan, for the given reason.
    Replan(String),
    /// Have this agent work on the current step.
    Delegate(String),
    /// The named agent is not on the team; nobody is asked.
    NoDelegate,
}

/// What the planning step asks for next.
#[derive(Debug)]
pub enum PlanningStart {
    /// Ask the model for a plan with this prompt.
    AskPlan(String),
    /// A plan exists: go on with its first execution step.
    Execute,
}

/// The orchestrator of a team.
#[derive(Debug)]
pub struct Orchestrator {
    pub name: String,
    pub chat_history: Vec<ChatMessage>,
    pub participant_descriptions: Vec<String>,
    pub participant_names: Vec<String>,
    pub termination_conditions: Vec<String>,
    pub max_turns: Option<i32>,
    pub message: ChatMessage,
    config: OrchestratorConfig,
    state: OrchestratorState,
    agent_execution_names: Vec<String>,
    agent_execution_descriptions: Vec<String>,
    team_description: String,
    last_browser_metadata_hash: String,
}

fn copy_strings(v: &Vec<String>) -> (r: Vec<String>)
    ensures
        views(r@) == views(v@),
{
    let mut r: Vec<String> = Vec::new();
    let mut i: usize = 0;
    while i < v.len()
        invariant
            i <= v@.len(),
            views(r@) == views(v@.subrange(0, i as int)),
        decreases v@.len() - i,
    {
        let c = v[i].clone();
        let ghost prev = r@;
        r.push(c);
        assert(views(r@) =~= views(prev).push(v@[i as int]@));
        assert(views(v@.subrange(0, i + 1)) =~= views(v@.subrange(0, i as int)).push(v@[i as int]@));
        i = i + 1;
    }
    assert(v@.subrange(0, v@.len() as int) =~= v@);
    r
}

/// The position of the first `x` in `v`, if any.
fn find_first(v: &Vec<String>, x: &str) -> (r: Option<usize>)
    ensures
        r is Some <==> views(v@).contains(x@),
        r matches Some(i) ==> i as int == first_index(views(v@), x@) && i < v@.len(),
{
    let ghost s = views(v@);
    let mut i: usize = 0;
    while i < v.len()
        invariant
            i <= v@.len(),
            s == views(v@),
            !s.subrange(0, i as int).contains(x@),
        decreases v@.len() - i,
    {
        if str_eq(v[i].as_str(), x) {
            proof {
                assert(s[i as int] == x@);
                lemma_first_index(s, x@, i as int);
            }
            return Some(i);
        }
        proof {
            assert(s.subrange(0, i + 1) =~= s.subrange(0, i as int).push(s[i as int]));
        }
        i = i + 1;
    }
    assert(s.subrange(0, v@.len() as int) =~= s);
    None
}

/// The first occurrence is where `first_index` points.
proof fn lemma_first_index(s: Seq<Seq<char>>, x: Seq<char>, i: int)
    requires
        0 <= i < s.len(),
        s[i] == x,
        !s.subrange(0, i).contains(x),
    ensures
        first_index(s, x) == i,
    decreases s.len(),
{
    if i == s.len() - 1 {
        assert(s.drop_last() =~= s.subrange(0, i));
        assert(s.contains(x));
    } else {
        assert(s.drop_last()[i] == x);
        assert(s.drop_last().subrange(0, i) =~= s.subrange(0, i));
        assert(s.contains(x));
        assert(s.drop_last().contains(x));
        lemma_first_index(s.drop_last(), x, i);
    }
}

impl Orchestrator {
    /// The conversation state.
    pub closed spec fn state(&self) -> OrchestratorState {
        self.state
    }

    /// The settings.
    pub closed spec fn config(&self) -> OrchestratorConfig {
        self.config
    }

    /// The agents steps are assigned to.
    pub closed spec fn execution_names(&self) -> Seq<Seq<char>> {
        views(self.agent_execution_names@)
    }

    /// Their descriptions.
    pub closed spec fn execution_descriptions(&self) -> Seq<Seq<char>> {
        views(self.agent_execution_descriptions@)
    }

    /// The team description given to the model.
    pub closed spec fn team(&self) -> Seq<char> {
        self.team_description@
    }

    /// The orchestrator's name.
    pub closed spec fn own_name(&self) -> Seq<char> {
        self.name@
    }

    /// The participants' names and descriptions.
    pub closed spec fn participants(&self) -> (Seq<Seq<char>>, Seq<Seq<char>>) {
        (views(self.participant_names@), views(self.participant_descriptions@))
    }

    /// The limit on turns, if any.
    pub closed spec fn turn_limit(&self) -> Option<i32> {
        self.max_turns
    }

    /// An orchestrator for the participants. The user's agent must take
    /// part unless execution is autonomous and follow-up input is allowed.
    /// Steps go to the participants (without the user's agent under
    /// autonomous execution) and to an agent for steps that need no action.
    pub fn new(
        name: String,
        message: ChatMessage,
        participant_descriptions: Vec<String>,
        participant_names: Vec<String>,
        config: OrchestratorConfig,
        max_turns: Option<i32>,
    ) -> (r: Result<Orchestrator, OrchestratorError>)
        requires
            descriptions_cover_user(views(participant_names@), views(participant_descriptions@), config),
        ensures
            r is Err <==> user_agent_missing(views(participant_names@), config),
            r matches Ok(o) ==> {
                let names = execution_names(views(participant_names@), config.autonomous_execution);
                let descs = execution_descriptions(
                    views(participant_names@),
                    views(participant_descriptions@),
                    config.autonomous_execution,
                );
                &&& o.execution_names() == names
                &&& o.execution_descriptions() == descs
                &&& o.team() == team_description_spec(names, descs)
                &&& o.config() == config
                &&& o.own_name() == name@
                &&& o.participants() == (views(participant_names@), views(participant_descriptions@))
                &&& o.turn_limit() == max_turns
                &&& o.state().task@.len() == 0 && o.state().plan is None && !o.state().in_planning_mode
                &&& o.state().current_step_idx == 0 && o.state().n_rounds == 0 && o.state().n_replans == 0
            },
    {
        if find_first(&participant_names, "user_proxy").is_none() {
            if !(config.autonomous_execution && config.allow_follow_up_input) {
                return Err(OrchestratorError::UserAgentMissing(participant_names));
            }
        }
        let mut names = copy_strings(&participant_names);
        let mut descs = copy_strings(&participant_descriptions);
        let ghost nv = views(participant_names@);
        let ghost dv = views(participant_descriptions@);
        if config.autonomous_execution {
            match find_first(&names, "user_proxy") {
                Some(i) => {
                    names.remove(i);
                    descs.remove(i);
                    assert(views(names@) =~= nv.remove(i as int));
                    assert(views(descs@) =~= dv.remove(i as int));
                },
                None => {},
            }
        }
        let ghost n0 = views(names@);
        let ghost d0 = views(descs@);
        names.push(String::from_str("no_action_agent"));
        descs.push(
            String::from_str("If for this step no action is needed, you can use this agent to perform no action"),
        );
        assert(views(names@) =~= n0.push(no_action_name()));
        assert(views(descs@) =~= d0.push(no_action_description()));
        let ghost ns = views(names@);
        let ghost ds = views(descs@);
        let n = if names.len() <= descs.len() { names.len() } else { descs.len() };
        let mut lines: Vec<String> = Vec::new();
        let mut i: usize = 0;
        while i < n
            invariant
                n <= names@.len(),
                n <= descs@.len(),
                ns == views(names@),
                ds == views(descs@),
                n == team_lines(ns, ds).len(),
                i <= n,
                views(lines@) == team_lines(ns, ds).take(i as int),
            decreases n - i,
        {
            let mut line = names[i].clone();
            line.append(" - ");
            let t = trim(descs[i].as_str());
            line.append(t.as_str());
            let ghost lv = line@;
            let ghost prev = lines@;
            lines.push(line);
            proof {
                assert(lv == team_line(ns[i as int], ds[i as int]));
                assert(views(lines@) =~= views(prev).push(lv));
                assert(team_lines(ns, ds).take(i + 1) =~= team_lines(ns, ds).take(i as int).push(lv));
            }
            i = i + 1;
        }
        assert(team_lines(ns, ds).take(n as int) =~= team_lines(ns, ds));
        let team_description = join(&lines, "\n");
        Ok(Orchestrator {
            name,
            chat_history: Vec::new(),
            participant_descriptions,
            participant_names,
            termination_conditions: Vec::new(),
            max_turns,
            message,
            config,
            state: OrchestratorState::default(),
            agent_execution_names: names,
            agent_execution_descriptions: descs,
            team_description,
            last_browser_metadata_hash: String::new(),
        })
    }

    /// The question about progress at step `step_index` (see
    /// `progress_ledger_spec`), naming the agents in `names`. Fails without
    /// a plan or when the step is past its end.
    pub fn get_progress_ledger_prompt(
        &self,
        task: &str,
        plan: &str,
        step_index: usize,
        team: &str,
        names: &Vec<String>,
    ) -> (r: Result<String, OrchestratorError>)
        ensures
            self.state().plan is None ==> (r matches Err(OrchestratorError::PlanMissing)),
            self.state().plan matches Some(p) ==> (step_index >= p.steps@.len() <==> r is Err),
            (self.state().plan matches Some(p) && step_index >= p.steps@.len()) ==> (r matches Err(
                OrchestratorError::StepOutOfBounds(i, n),
            ) && i == step_index && n == self.state().plan->0.steps@.len()),
            r matches Ok(s) ==> {
                let p = self.state().plan->0;
                s@ == progress_ledger_spec(
                    task@,
                    plan@,
                    step_index as nat,
                    p.steps@[step_index as int].title@,
                    p.steps@[step_index as int].details@,
                    p.steps@[step_index as int].agent_name@,
                    team@,
                    join_spec(views(names@), ", "@),
                    Seq::empty(),
                )
            },
    {
        let steps = match &self.state.plan {
            Some(p) => &p.steps,
            None => {
                return Err(OrchestratorError::PlanMissing);
            },
        };
        if step_index >= steps.len() {
            return Err(OrchestratorError::StepOutOfBounds(step_index, steps.len()));
        }
        let step = &steps[step_index];
        let names_str = join(names, ", ");
        let idx = usize_to_string(step_index);
        let mut r = String::from_str(PROGRESS_BEFORE_TASK);
        r.append(task);
        r.append(PROGRESS_BEFORE_PLAN);
        r.append(plan);
        r.append(PROGRESS_BEFORE_STEP_INDEX);
        r.append(idx.as_str());
        r.append(PROGRESS_BEFORE_STEP_TITLE);
        r.append(step.title.as_str());
        r.append(PROGRESS_BEFORE_STEP_DETAILS);
        r.append(step.details.as_str());
        r.append(PROGRESS_BEFORE_AGENT_NAME);
        r.append(step.agent_name.as_str());
        r.append(PROGRESS_BEFORE_TEAM);
        r.append(team);
        r.append(PROGRESS_BEFORE_NAMES);
        r.append(names_str.as_str());
        r.append(PROGRESS_BEFORE_ADDITIONAL_INSTRUCTIONS);
        r.append("");
        r.append(PROGRESS_BEFORE_NAMES_AGAIN);
        r.append(names_str.as_str());
        r.append(PROGRESS_END);
        proof {
            reveal_strlit("");
            assert(""@ =~= Seq::<char>::empty());
        }
        Ok(r)
    }

    /// The instruction for the agent of the current step (see
    /// `agent_instruction_spec`), numbering steps from 1.
    pub fn get_agent_instruction(&self, instruction: String, agent_name: String) -> (r: String)
        requires
            self.state().plan matches Some(p) && self.state().current_step_idx < p.steps@.len(),
            self.state().current_step_idx < usize::MAX,
        ensures
            ({
                let p = self.state().plan->0;
                let i = self.state().current_step_idx;
                r@ == agent_instruction_spec(
                    (i + 1) as nat,
                    p.steps@[i as int].title@,
                    p.steps@[i as int].details@,
                    agent_name@,
                    instruction@,
                )
            }),
    {
        let steps = match &self.state.plan {
            Some(p) => &p.steps,
            None => {
                return String::new();
            },
        };
        let step = &steps[self.state.current_step_idx];
        let idx = usize_to_string(self.state.current_step_idx + 1);
        let mut r = String::from_str(INSTRUCTION_BEFORE_STEP_INDEX);
        r.append(idx.as_str());
        r.append(INSTRUCTION_BEFORE_STEP_TITLE);
        r.append(step.title.as_str());
        r.append(INSTRUCTION_BEFORE_STEP_DETAILS);
        r.append(step.details.as_str());
        r.append(INSTRUCTION_BEFORE_AGENT_NAME);
        r.append(agent_name.as_str());
        r.append(INSTRUCTION_BEFORE_INSTRUCTION);
        r.append(instruction.as_str());
        r.append(INSTRUCTION_END);
        r
    }
}

/// Whether `n` rounds pass the limit (no limit: never).
pub open spec fn past_limit(n: usize, limit: Option<usize>) -> bool {
    match limit {
        Some(m) => n > m,
        None => false,
    }
}

/// Whether another replan is allowed after `n` (no limit: always).
pub open spec fn may_replan(n: usize, limit: Option<usize>) -> bool {
    match limit {
        Some(m) => n < m,
        None => true,
    }
}

/// Whether `m` is a text message of the orchestrator `name` with this
/// content and metadata.
pub open spec fn is_note(m: ChatMessage, name: Seq<char>, content: Seq<char>, metadata: Map<Seq<char>, Seq<char>>) -> bool {
    &&& m matches ChatMessage::Text { role, source, content: c, metadata: md }
    &&& role == crate::message::MessageRole::Assistant
    &&& source@ == name
    &&& c@ == content
    &&& md@ == metadata
}

/// The reason given when replanning is needed but no attempt is left.
pub open spec fn replan_exhausted(reason: Seq<char>) -> Seq<char> {
    "We need to replan but max replan attempts reached: "@ + reason + " "@
}

impl Orchestrator {
    /// Whether the next step plans rather than executes.
    pub fn in_planning_mode(&self) -> (r: bool)
        ensures
            r == self.state().in_planning_mode,
    {
        self.state.in_planning_mode
    }

    /// Starts a planning step: with neither a task nor a plan yet, records
    /// the task as `Task:` and asks the model for a plan; otherwise the plan
    /// is executed from its first step, and nothing changes.
    pub fn begin_planning_step(&mut self) -> (r: PlanningStart)
        ensures
            (old(self).state().task@.len() == 0 && old(self).state().plan_str@.len() == 0) ==> {
                &&& r matches PlanningStart::AskPlan(p) && p@ == task_ledger_plan_spec(old(self).team())
                &&& final(self).state().task@ == "Task:"@
            },
            !(old(self).state().task@.len() == 0 && old(self).state().plan_str@.len() == 0) ==> {
                &&& r matches PlanningStart::Execute
                &&& final(self).state().task == old(self).state().task
            },
            final(self).state().plan == old(self).state().plan,
            final(self).state().plan_str == old(self).state().plan_str,
            final(self).state().message_history == old(self).state().message_history,
            final(self).team() == old(self).team(),
            final(self).execution_names() == old(self).execution_names(),
    {
        if self.state.task.as_str().unicode_len() == 0 && self.state.plan_str.as_str().unicode_len() == 0 {
            self.state.task = String::from_str("Task:");
            PlanningStart::AskPlan(get_task_ledger_plan_prompt(self.team_description.as_str()))
        } else {
            PlanningStart::Execute
        }
    }

    /// Adopts the plan the model produced, with its text, and records the
    /// model's answer; returns whether the next speaker should be asked
    /// (when the model said no plan is needed).
    pub fn finish_planning_step(&mut self, plan: Plan, plan_text: String, response: String, needs_plan: bool) -> (ask_next: bool)
        ensures
            ask_next == !needs_plan,
            final(self).state().plan == Some(plan),
            final(self).state().plan_str == plan_text,
            final(self).state().message_history@.len() == old(self).state().message_history@.len() + 1,
            final(self).state().message_history@.drop_last() == old(self).state().message_history@,
            is_note(final(self).state().message_history@.last(), old(self).own_name(), response@, Map::empty()),
            final(self).state().task == old(self).state().task,
            final(self).team() == old(self).team(),
            final(self).execution_names() == old(self).execution_names(),
    {
        self.state.plan = Some(plan);
        self.state.plan_str = plan_text;
        let m = orchestrator_text(&self.name, response, StringMap::new());
        self.state.message_history.push(m);
        assert(self.state.message_history@.drop_last() =~= old(self).state.message_history@);
        !needs_plan
    }

    /// Starts an execution step: on the first one, records the plan the
    /// team follows; stops when the plan is done or the rounds pass the
    /// limit; otherwise counts the round and asks the model about progress.
    pub fn begin_execution_step(&mut self, first_step: bool) -> (r: ExecutionStart)
        requires
            old(self).state().plan is Some,
            old(self).state().n_rounds < usize::MAX,
        ensures
            ({
                let s = old(self).state();
                let h = s.message_history@;
                let h2 = final(self).state().message_history@;
                &&& first_step ==> h2.len() == h.len() + 1 && h2.drop_last() == h && is_note(
                    h2.last(),
                    old(self).own_name(),
                    ledger_intro_spec(s.task@, old(self).team(), s.plan_str@),
                    Map::empty(),
                )
                &&& !first_step ==> h2 == h
            }),
            ({
                let s = old(self).state();
                let p = s.plan->0;
                if s.current_step_idx >= p.steps@.len() || past_limit(s.n_rounds, old(self).config().max_turns) {
                    &&& r matches ExecutionStart::Finish(reason) && reason@ == "Max rounds reached"@
                    &&& final(self).state().n_rounds == s.n_rounds
                } else {
                    &&& final(self).state().n_rounds == s.n_rounds + 1
                    &&& r matches ExecutionStart::AskProgress(q) && q@ == progress_ledger_spec(
                        s.task@,
                        s.plan_str@,
                        s.current_step_idx as nat,
                        p.steps@[s.current_step_idx as int].title@,
                        p.steps@[s.current_step_idx as int].details@,
                        p.steps@[s.current_step_idx as int].agent_name@,
                        old(self).team(),
                        join_spec(old(self).execution_names(), ", "@),
                        Seq::empty(),
                    )
                }
            }),
            final(self).state().plan == old(self).state().plan,
            final(self).state().current_step_idx == old(self).state().current_step_idx,
            final(self).state().n_replans == old(self).state().n_replans,
            final(self).state().task == old(self).state().task,
            final(self).state().plan_str == old(self).state().plan_str,
            final(self).team() == old(self).team(),
            final(self).execution_names() == old(self).execution_names(),
            final(self).config() == old(self).config(),
    {
        if first_step {
            let content = ledger_intro(
                self.state.task.as_str(),
                self.team_description.as_str(),
                self.state.plan_str.as_str(),
            );
            let m = orchestrator_text(&self.name, content, StringMap::new());
            self.state.message_history.push(m);
            assert(self.state.message_history@.drop_last() =~= old(self).state.message_history@);
        }
        let length = match &self.state.plan {
            Some(p) => p.steps.len(),
            None => 0,
        };
        let past = match self.config.max_turns {
            Some(m) => self.state.n_rounds > m,
            None => false,
        };
        if self.state.current_step_idx >= length || past {
            return ExecutionStart::Finish(String::from_str("Max rounds reached"));
        }
        self.state.n_rounds = self.state.n_rounds + 1;
        let prompt = self.get_progress_ledger_prompt(
            self.state.task.as_str(),
            self.state.plan_str.as_str(),
            self.state.current_step_idx,
            self.team_description.as_str(),
            &self.agent_execution_names,
        );
        match prompt {
            Ok(q) => ExecutionStart::AskProgress(q),
            Err(_) => ExecutionStart::Finish(String::from_str("Max rounds reached")),
        }
    }

    /// Decides after the model assessed progress. Past the first step: a
    /// needed replan starts one while attempts remain (and stops otherwise),
    /// and a completed step moves to the next. When the plan is done the
    /// orchestrator stops; otherwise it records the instruction for the
    /// step (marked internal) and hands the step to the named agent, when
    /// that agent is on the team.
    pub fn after_progress_ledger(&mut self, ledger: ProgressLedger, first_step: bool) -> (r: ExecutionDecision)
        requires
            old(self).state().plan is Some,
            old(self).state().n_replans < usize::MAX,
            old(self).state().current_step_idx < usize::MAX - 1,
        ensures
            ({
                let s = old(self).state();
                let p = s.plan->0;
                let replan = !first_step && ledger.need_to_replan.answer;
                let idx = if !first_step && ledger.is_current_step_complete.answer {
                    s.current_step_idx + 1
                } else {
                    s.current_step_idx as int
                };
                if replan {
                    if may_replan(s.n_replans, old(self).config().max_replans) {
                        &&& r matches ExecutionDecision::Replan(reason) && reason@ == ledger.need_to_replan.reason@
                        &&& final(self).state().n_replans == s.n_replans + 1
                        &&& final(self).state().in_planning_mode
                        &&& final(self).state().current_step_idx == s.current_step_idx
                        &&& final(self).state().message_history == s.message_history
                    } else {
                        &&& r matches ExecutionDecision::Finish(reason) && reason@ == replan_exhausted(ledger.need_to_replan.reason@)
                        &&& final(self).state().n_replans == s.n_replans
                        &&& final(self).state().current_step_idx == s.current_step_idx
                        &&& final(self).state().message_history == s.message_history
                    }
                } else {
                    &&& final(self).state().n_replans == s.n_replans
                    &&& final(self).state().current_step_idx == idx
                    &&& if idx >= p.steps@.len() {
                        &&& r matches ExecutionDecision::Finish(reason) && reason@ == "Plan completed"@
                        &&& final(self).state().message_history == s.message_history
                    } else {
                        let h = s.message_history@;
                        let h2 = final(self).state().message_history@;
                        &&& h2.len() == h.len() + 1
                        &&& h2.drop_last() == h
                        &&& is_note(
                            h2.last(),
                            old(self).own_name(),
                            agent_instruction_spec(
                                (idx + 1) as nat,
                                p.steps@[idx].title@,
                                p.steps@[idx].details@,
                                ledger.instruction_or_question.agent_name@,
                                ledger.instruction_or_question.answer@,
                            ),
                            Map::empty().insert("internal"@, "true"@),
                        )
                        &&& if old(self).execution_names().contains(ledger.instruction_or_question.agent_name@) {
                            r matches ExecutionDecision::Delegate(a) && a@ == ledger.instruction_or_question.agent_name@
                        } else {
                            r matches ExecutionDecision::NoDelegate
                        }
                    }
                }
            }),
            final(self).state().plan == old(self).state().plan,
            final(self).state().task == old(self).state().task,
            final(self).state().n_rounds == old(self).state().n_rounds,
            final(self).team() == old(self).team(),
            final(self).execution_names() == old(self).execution_names(),
            final(self).config() == old(self).config(),
    {
        let ProgressLedger { is_current_step_complete, need_to_replan, instruction_or_question, .. } = ledger;
        if !first_step {
            if need_to_replan.answer {
                let can = match self.config.max_replans {
                    Some(m) => self.state.n_replans < m,
                    None => true,
                };
                if can {
                    self.state.n_replans = self.state.n_replans + 1;
                    self.state.in_planning_mode = true;
                    return ExecutionDecision::Replan(need_to_replan.reason);
                } else {
                    let mut reason = String::from_str("We need to replan but max replan attempts reached: ");
                    reason.append(need_to_replan.reason.as_str());
                    reason.append(" ");
                    return ExecutionDecision::Finish(reason);
                }
            }
            if is_current_step_complete.answer {
                self.state.current_step_idx = self.state.current_step_idx + 1;
            }
        }
        let length = match &self.state.plan {
            Some(p) => p.steps.len(),
            None => 0,
        };
        if self.state.current_step_idx >= length {
            return ExecutionDecision::Finish(String::from_str("Plan completed"));
        }
        let LedgerInstruction { answer, agent_name } = instruction_or_question;
        let next_speaker = agent_name.clone();
        let instruction = self.get_agent_instruction(answer, agent_name);
        let mut metadata = StringMap::new();
        metadata.insert(String::from_str("internal"), String::from_str("true"));
        let m = orchestrator_text(&self.name, instruction, metadata);
        self.state.message_history.push(m);
        assert(self.state.message_history@.drop_last() =~= old(self).state.message_history@);
        match find_first(&self.agent_execution_names, next_speaker.as_str()) {
            Some(_) => ExecutionDecision::Delegate(next_speaker),
            None => ExecutionDecision::NoDelegate,
        }
    }
}

} // verus!
