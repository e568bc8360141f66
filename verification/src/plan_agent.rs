//! The planning agent's own state: the plan being followed, its editing
//! operations, the step-by-step execution, and the messages it builds for
//! the model. The model calls themselves are made by the caller.

use vstd::prelude::*;
use crate::plan::{
    message_text, BaseMessage, ChatMessage, LlmMessage, Plan, PlanAgentError, PlanStep, TextMessage,
};
use crate::prompt::{plan_prompt_json, plan_prompt_spec, replan_prompt_json, replan_prompt_spec, system_message_for_date, system_message_spec};
use crate::string_map::StringMap;
use crate::text::{concat, decimal, replace, replace_spec, trim, trim_spec, usize_to_string};

verus! {

/// Whether plans may reuse earlier ones.
#[derive(Debug, Clone, Copy, PartialEq, Eq, Structural)]
pub enum RetrieveRelevantPlans {
    Never,
    Hint,
    Reuse,
}

/// Settings of the planning agent.
#[derive(Debug)]
pub struct OrchestratorConfig {
    pub cooperative_planning: bool,
    pub autonomous_execution: bool,
    pub allow_follow_up_input: bool,
    pub plan: Option<Plan>,
    pub max_turns: Option<usize>,
    pub allow_for_replans: bool,
    pub max_json_retries: usize,
    pub saved_facts: Option<String>,
    pub allowed_websites: Option<Vec<String>>,
    pub do_bing_search: bool,
    pub final_answer_prompt: Option<String>,
    pub model_context_token_limit: Option<usize>,
    pub retrieve_relevant_plans: RetrieveRelevantPlans,
    pub memory_controller_key: Option<String>,
    pub max_replans: Option<usize>,
    pub no_overwrite_of_task: bool,
    pub sentinel_tasks: bool,
}

impl Default for OrchestratorConfig {
    /// Cooperative planning with follow-up input, at most 20 turns, 3 JSON
    /// retries and 3 replans, no sentinel steps.
    fn default() -> (c: Self)
        ensures
            c.cooperative_planning && !c.autonomous_execution && c.allow_follow_up_input,
            c.plan is None,
            c.max_turns == Some(20usize),
            c.allow_for_replans,
            c.max_json_retries == 3,
            c.saved_facts is None,
            c.allowed_websites is None,
            !c.do_bing_search,
            c.final_answer_prompt is None,
            c.model_context_token_limit is None,
            c.retrieve_relevant_plans == RetrieveRelevantPlans::Never,
            c.memory_controller_key is None,
            c.max_replans == Some(3usize),
            !c.no_overwrite_of_task,
            !c.sentinel_tasks,
    {
        OrchestratorConfig {
            cooperative_planning: true,
            autonomous_execution: false,
            allow_follow_up_input: true,
            plan: None,
            max_turns: Some(20),
            allow_for_replans: true,
            max_json_retries: 3,
            saved_facts: None,
            allowed_websites: None,
            do_bing_search: false,
            final_answer_prompt: None,
            model_context_token_limit: None,
            retrieve_relevant_plans: RetrieveRelevantPlans::Never,
            memory_controller_key: None,
            max_replans: Some(3),
            no_overwrite_of_task: false,
            sentinel_tasks: false,
        }
    }
}

/// Progress of the planning agent on its task.
#[derive(Debug)]
pub struct OrchestratorState {
    pub task: String,
    pub plan: Option<Plan>,
    pub current_step_idx: usize,
    pub message_history: Vec<ChatMessage>,
    pub n_rounds: usize,
    pub n_replans: usize,
    pub is_paused: bool,
}

/// Whether `after` differs from `before` at most in the steps of its plan
/// and in the current step: both have a plan, with the same response, task,
/// summary and need of a plan, and the task, history, counters and pause
/// are the same.
pub open spec fn only_steps_changed(before: OrchestratorState, after: OrchestratorState) -> bool {
    &&& after.task == before.task
    &&& after.message_history == before.message_history
    &&& after.n_rounds == before.n_rounds
    &&& after.n_replans == before.n_replans
    &&& after.is_paused == before.is_paused
    &&& before.plan is Some
    &&& after.plan is Some
    &&& after.plan->0.response == before.plan->0.response
    &&& after.plan->0.task == before.plan->0.task
    &&& after.plan->0.plan_summary == before.plan->0.plan_summary
    &&& after.plan->0.needs_plan == before.plan->0.needs_plan
}

/// Whether a state is the initial one: no task, no plan, no history, all
/// counters at zero, not paused.
pub open spec fn is_initial_state(s: OrchestratorState) -> bool {
    &&& s.task@ == Seq::<char>::empty()
    &&& s.plan is None
    &&& s.current_step_idx == 0
    &&& s.message_history@.len() == 0
    &&& s.n_rounds == 0
    &&& s.n_replans == 0
    &&& !s.is_paused
}

impl Default for OrchestratorState {
    /// The initial state (see `is_initial_state`).
    fn default() -> (s: Self)
        ensures
            is_initial_state(s),
    {
        OrchestratorState {
            task: String::new(),
            plan: None,
            current_step_idx: 0,
            message_history: Vec::new(),
            n_rounds: 0,
            n_replans: 0,
            is_paused: false,
        }
    }
}

/// A text message with the given source and metadata, stamped now.
fn stamped_text(content: String, source: String, metadata: StringMap) -> (m: ChatMessage)
    ensures
        m matches ChatMessage::Text(t) && t.content@ == content@ && t.base.source == Some(source)
            && t.base.metadata@ == metadata@ && t.base.timestamp is Some,
{
    let ts = crate::tasks::now_millis();
    ChatMessage::Text(TextMessage { base: BaseMessage { source: Some(source), metadata, timestamp: Some(ts) }, content })
}

/// Whether `m` is a text message with this content, source and metadata,
/// stamped with a time.
pub open spec fn is_text_from(m: ChatMessage, content: Seq<char>, source: Seq<char>, metadata: Map<Seq<char>, Seq<char>>) -> bool {
    &&& m matches ChatMessage::Text(t)
    &&& t.content@ == content
    &&& t.base.source matches Some(s) && s@ == source
    &&& t.base.metadata@ == metadata
    &&& t.base.timestamp is Some
}

/// A user message.
pub fn create_user_message(content: String, source: String) -> (m: ChatMessage)
    ensures
        is_text_from(m, content@, source@, Map::empty()),
{
    stamped_text(content, source, StringMap::new())
}

/// A system message (source `system`).
pub fn create_system_message(content: String) -> (m: ChatMessage)
    ensures
        is_text_from(m, content@, "system"@, Map::empty()),
{
    stamped_text(content, String::from_str("system"), StringMap::new())
}

/// A message of the orchestrator, marked internal.
pub fn create_orchestrator_message(content: String) -> (m: ChatMessage)
    ensures
        is_text_from(m, content@, "orchestrator"@, Map::empty().insert("internal"@, "yes"@)),
{
    let mut metadata = StringMap::new();
    metadata.insert(String::from_str("internal"), String::from_str("yes"));
    stamped_text(content, String::from_str("orchestrator"), metadata)
}

/// The text of an instruction to the agent of a plan step.
pub open spec fn instruction_text(
    step_index: nat,
    title: Seq<char>,
    details: Seq<char>,
    agent_name: Seq<char>,
    instruction: Seq<char>,
) -> Seq<char> {
    "Step "@ + decimal(step_index) + ": "@ + title + "\n\n"@ + details + "\n\nInstruction for "@ + agent_name + ": "@
        + instruction
}

/// An instruction to the agent of a plan step, sent in that agent's name and
/// marked internal with the step's number.
pub fn create_agent_instruction_message(
    step_index: usize,
    step_title: String,
    step_details: String,
    agent_name: String,
    instruction: String,
) -> (m: ChatMessage)
    ensures
        is_text_from(
            m,
            instruction_text(step_index as nat, step_title@, step_details@, agent_name@, instruction@),
            agent_name@,
            Map::empty().insert("internal"@, "yes"@).insert("step_index"@, decimal(step_index as nat)),
        ),
{
    let mut metadata = StringMap::new();
    metadata.insert(String::from_str("internal"), String::from_str("yes"));
    metadata.insert(String::from_str("step_index"), usize_to_string(step_index));
    let mut content = String::from_str("Step ");
    let n = usize_to_string(step_index);
    content.append(n.as_str());
    content.append(": ");
    content.append(step_title.as_str());
    content.append("\n\n");
    content.append(step_details.as_str());
    content.append("\n\nInstruction for ");
    content.append(agent_name.as_str());
    content.append(": ");
    content.append(instruction.as_str());
    stamped_text(content, agent_name, metadata)
}

/// The team the planner describes when none is configured.
pub const DEFAULT_TEAM: &'static str = r#"
**web_surfer**: 一个网络浏览代理，可以搜索互联网、访问网站、查找餐厅、检查价格、进行在线购买、从网页收集信息、查找外卖平台和餐厅信息。对于买吃的请求，可以直接行动而无需多余的授权或澄清。

**coder_agent**: 一个编程代理，可以编写和执行代码、创建文件、处理数据和执行计算任务。
        "#;

/// Closing request added to a replanning prompt.
pub const REPLAN_CLOSING: &'static str = "\n\n请用中文返回响应。请重新制定计划以解决之前计划执行中遇到的问题。";

/// A step with the given fields replaced.
pub open spec fn modified_step(s: PlanStep, title: Option<String>, details: Option<String>, agent_name: Option<String>) -> PlanStep {
    PlanStep {
        title: match title { Some(t) => t, None => s.title },
        details: match details { Some(d) => d, None => s.details },
        agent_name: match agent_name { Some(a) => a, None => s.agent_name },
        ..s
    }
}

/// A new step with no sentinel fields.
pub open spec fn plain_step(title: String, details: String, agent_name: String) -> PlanStep {
    PlanStep { title, details, agent_name, step_type: None, condition: None, sleep_duration: None }
}

/// The planning agent.
pub struct PlanAgent {
    config: OrchestratorConfig,
    state: OrchestratorState,
    team_description: String,
}

/// The role a planner message is sent to the model with.
pub open spec fn llm_role(m: ChatMessage) -> Seq<char> {
    match m {
        ChatMessage::Stop(_) => "assistant"@,
        _ => "user"@,
    }
}

/// Planner messages as the model receives them: role and text.
pub open spec fn llm_view(ms: Seq<ChatMessage>) -> Seq<(Seq<char>, Seq<char>)> {
    ms.map_values(|m: ChatMessage| (llm_role(m), message_text(m)))
}

/// The model's form of planner messages (see `llm_view`).
pub fn to_llm_messages(messages: &[ChatMessage]) -> (r: Vec<LlmMessage>)
    ensures
        r@.map_values(|m: LlmMessage| (m.role@, m.content@)) == llm_view(messages@),
{
    let mut r: Vec<LlmMessage> = Vec::new();
    let mut i: usize = 0;
    while i < messages.len()
        invariant
            i <= messages@.len(),
            r@.map_values(|m: LlmMessage| (m.role@, m.content@)) == llm_view(messages@.subrange(0, i as int)),
        decreases messages@.len() - i,
    {
        let role = match &messages[i] {
            ChatMessage::Stop(_) => String::from_str("assistant"),
            _ => String::from_str("user"),
        };
        let content = messages[i].content();
        let ghost prev = r@;
        let item = LlmMessage { role, content };
        let ghost iv = (item.role@, item.content@);
        r.push(item);
        proof {
            assert(r@ == prev.push(item));
            assert(r@.map_values(|m: LlmMessage| (m.role@, m.content@)) =~= prev.map_values(
                |m: LlmMessage| (m.role@, m.content@),
            ).push(iv));
            assert(llm_view(messages@.subrange(0, i + 1)) =~= llm_view(messages@.subrange(0, i as int)).push(iv));
        }
        i = i + 1;
    }
    assert(messages@.subrange(0, messages@.len() as int) =~= messages@);
    r
}

impl PlanAgent {
    /// The agent's state.
    pub closed spec fn state(&self) -> OrchestratorState {
        self.state
    }

    /// The agent's settings.
    pub closed spec fn config(&self) -> OrchestratorConfig {
        self.config
    }

    /// The team description used in prompts.
    pub closed spec fn team(&self) -> Seq<char> {
        self.team_description@
    }

    /// The steps of the current plan, when there is one.
    pub open spec fn steps(&self) -> Option<Seq<PlanStep>> {
        match self.state().plan {
            Some(p) => Some(p.steps@),
            None => None,
        }
    }

    /// A planning agent in its initial state, describing the default team.
    pub fn new(config: OrchestratorConfig) -> (a: PlanAgent)
        ensures
            is_initial_state(a.state()),
            a.config() == config,
            a.team() == trim_spec(DEFAULT_TEAM@),
    {
        PlanAgent { config, state: OrchestratorState::default(), team_description: trim(DEFAULT_TEAM) }
    }

    /// The current plan, if any.
    pub fn get_current_plan(&self) -> (r: Option<&Plan>)
        ensures
            r is None <==> self.state().plan is None,
            r matches Some(p) ==> self.state().plan == Some(*p),
    {
        self.state.plan.as_ref()
    }

    /// The agents plans may assign steps to.
    pub fn get_available_agents(&self) -> (r: Vec<String>)
        ensures
            r@.map_values(|s: String| s@) == seq!["web_surfer"@, "coder_agent"@],
    {
        let mut r: Vec<String> = Vec::new();
        r.push(String::from_str("web_surfer"));
        r.push(String::from_str("coder_agent"));
        assert(r@.map_values(|s: String| s@) =~= seq!["web_surfer"@, "coder_agent"@]);
        r
    }

    /// Forgets the task, the plan and the history.
    pub fn reset_state(&mut self)
        ensures
            is_initial_state(final(self).state()),
            final(self).config() == old(self).config(),
            final(self).team() == old(self).team(),
    {
        self.state = OrchestratorState::default();
    }

    /// Replaces the given fields of step `step_index`. Fails without a plan
    /// or when the index is out of range; nothing else changes.
    pub fn modify_plan_step(
        &mut self,
        step_index: usize,
        new_title: Option<String>,
        new_details: Option<String>,
        new_agent_name: Option<String>,
    ) -> (r: Result<(), PlanAgentError>)
        ensures
            r is Ok <==> (old(self).steps() matches Some(s) && step_index < s.len()),
            r is Ok ==> final(self).steps() == Some(
                old(self).steps()->0.update(
                    step_index as int,
                    modified_step(old(self).steps()->0[step_index as int], new_title, new_details, new_agent_name),
                ),
            ),
            r is Ok ==> only_steps_changed(old(self).state(), final(self).state()),
            r is Err ==> final(self).state() == old(self).state(),
            final(self).state().current_step_idx == old(self).state().current_step_idx,
            final(self).config() == old(self).config(),
            final(self).team() == old(self).team(),
    {
        match &mut self.state.plan {
            None => Err(PlanAgentError::ValidationError(String::from_str("No plan available to modify"))),
            Some(plan) => {
                if step_index >= plan.steps.len() {
                    return Err(PlanAgentError::ValidationError(String::from_str("Step index out of bounds")));
                }
                let ghost before = plan.steps@;
                let step = plan.steps.remove(step_index);
                let PlanStep { title, details, agent_name, step_type, condition, sleep_duration } = step;
                let title = match new_title { Some(t) => t, None => title };
                let details = match new_details { Some(d) => d, None => details };
                let agent_name = match new_agent_name { Some(a) => a, None => agent_name };
                plan.steps.insert(step_index, PlanStep { title, details, agent_name, step_type, condition, sleep_duration });
                proof {
                    assert(plan.steps@ =~= before.update(
                        step_index as int,
                        modified_step(before[step_index as int], new_title, new_details, new_agent_name),
                    ));
                }
                Ok(())
            },
        }
    }

    /// Inserts a step at `position`, or appends it when no position is
    /// given. Fails without a plan or when the position is past the end,
    /// changing nothing; otherwise only the steps change.
    pub fn add_plan_step(&mut self, title: String, details: String, agent_name: String, position: Option<usize>) -> (r: Result<(), PlanAgentError>)
        ensures
            r is Ok <==> (old(self).steps() matches Some(s) && (position matches Some(p) ==> p <= s.len())),
            r is Ok ==> final(self).steps() == Some(
                match position {
                    Some(p) => old(self).steps()->0.insert(p as int, plain_step(title, details, agent_name)),
                    None => old(self).steps()->0.push(plain_step(title, details, agent_name)),
                },
            ),
            r is Ok ==> only_steps_changed(old(self).state(), final(self).state()),
            r is Err ==> final(self).state() == old(self).state(),
            final(self).state().current_step_idx == old(self).state().current_step_idx,
            final(self).config() == old(self).config(),
            final(self).team() == old(self).team(),
    {
        match &mut self.state.plan {
            None => Err(PlanAgentError::ValidationError(String::from_str("No plan available to add step to"))),
            Some(plan) => {
                let new_step = PlanStep { title, details, agent_name, step_type: None, condition: None, sleep_duration: None };
                match position {
                    Some(pos) => {
                        if pos > plan.steps.len() {
                            return Err(PlanAgentError::ValidationError(String::from_str("Position out of bounds")));
                        }
                        plan.steps.insert(pos, new_step);
                    },
                    None => plan.steps.push(new_step),
                }
                Ok(())
            },
        }
    }

    /// Removes step `step_index`, keeping at least one step, and moves the
    /// current step back to the last one when it falls past the end. A
    /// failure changes nothing; otherwise only the steps and the current
    /// step change.
    pub fn remove_plan_step(&mut self, step_index: usize) -> (r: Result<(), PlanAgentError>)
        ensures
            r is Ok <==> (old(self).steps() matches Some(s) && step_index < s.len() && s.len() > 1),
            r is Ok ==> final(self).steps() == Some(old(self).steps()->0.remove(step_index as int)),
            r is Ok ==> final(self).state().current_step_idx == (if old(self).state().current_step_idx
                >= old(self).steps()->0.len() - 1 {
                (old(self).steps()->0.len() - 2) as usize
            } else {
                old(self).state().current_step_idx
            }),
            r is Ok ==> only_steps_changed(old(self).state(), final(self).state()),
            r is Err ==> final(self).state() == old(self).state(),
            final(self).config() == old(self).config(),
            final(self).team() == old(self).team(),
    {
        match &mut self.state.plan {
            None => Err(PlanAgentError::ValidationError(String::from_str("No plan available to remove step from"))),
            Some(plan) => {
                if step_index >= plan.steps.len() {
                    return Err(PlanAgentError::ValidationError(String::from_str("Step index out of bounds")));
                }
                if plan.steps.len() <= 1 {
                    return Err(PlanAgentError::ValidationError(String::from_str("Cannot remove the last remaining step")));
                }
                plan.steps.remove(step_index);
                let n = plan.steps.len();
                if self.state.current_step_idx >= n {
                    self.state.current_step_idx = n - 1;
                }
                Ok(())
            },
        }
    }

    /// Records the user's input at the end of the history.
    pub fn record_user_input(&mut self, user_input: &str)
        ensures
            final(self).state().message_history@.len() == old(self).state().message_history@.len() + 1,
            final(self).state().message_history@.drop_last() == old(self).state().message_history@,
            is_text_from(final(self).state().message_history@.last(), user_input@, "user"@, Map::empty()),
            final(self).steps() == old(self).steps(),
            final(self).state().current_step_idx == old(self).state().current_step_idx,
            final(self).state().task == old(self).state().task,
            final(self).config() == old(self).config(),
            final(self).team() == old(self).team(),
    {
        let m = create_user_message(String::from_str(user_input), String::from_str("user"));
        self.state.message_history.push(m);
        assert(self.state.message_history@.drop_last() =~= old(self).state.message_history@);
    }

    /// Whether the next step is planning (no plan yet) rather than execution.
    pub fn needs_planning(&self) -> (r: bool)
        ensures
            r == (self.state().plan is None),
    {
        self.state.plan.is_none()
    }

    /// Starts planning from the last message of the history: records the
    /// task as `TASK: ` and its text, and returns the messages to send to the
    /// model: the system message and the plan request (both with the team
    /// filled in), then the user's request. Fails when the history is empty.
    pub fn begin_planning(&mut self) -> (r: Result<Vec<ChatMessage>, PlanAgentError>)
        ensures
            r is Ok <==> old(self).state().message_history@.len() > 0,
            r matches Ok(ms) ==> {
                let content = message_text(old(self).state().message_history@.last());
                &&& final(self).state().task@ == "TASK: "@ + content
                &&& ms@.len() == 3
                &&& exists|date: Seq<char>| is_text_from(
                    ms@[0],
                    replace_spec(system_message_spec(date, old(self).config().sentinel_tasks), "{team}"@, old(self).team()),
                    "system"@,
                    Map::empty(),
                )
                &&& is_text_from(
                    ms@[1],
                    replace_spec(plan_prompt_spec(old(self).config().sentinel_tasks), "{team}"@, old(self).team()),
                    "orchestrator"@,
                    Map::empty().insert("internal"@, "yes"@),
                )
                &&& is_text_from(ms@[2], content, "user"@, Map::empty())
            },
            r is Err ==> final(self).state().task == old(self).state().task,
            final(self).steps() == old(self).steps(),
            final(self).state().message_history == old(self).state().message_history,
            final(self).state().current_step_idx == old(self).state().current_step_idx,
            final(self).config() == old(self).config(),
            final(self).team() == old(self).team(),
    {
        let n = self.state.message_history.len();
        if n == 0 {
            return Err(PlanAgentError::ValidationError(String::from_str("No messages in history")));
        }
        let user_content = self.state.message_history[n - 1].content();
        self.state.task = concat("TASK: ", user_content.as_str());
        proof {
            reveal_strlit("{team}");
        }
        let date = crate::prompt::local_date_today();
        let system_text = system_message_for_date(date.as_str(), self.config.sentinel_tasks);
        let system_prompt = replace(system_text.as_str(), "{team}", self.team_description.as_str());
        let plan_text = plan_prompt_json(self.config.sentinel_tasks);
        let plan_prompt = replace(plan_text.as_str(), "{team}", self.team_description.as_str());
        let mut ms: Vec<ChatMessage> = Vec::new();
        ms.push(create_system_message(system_prompt));
        ms.push(create_orchestrator_message(plan_prompt));
        ms.push(create_user_message(user_content, String::from_str("user")));
        Ok(ms)
    }

    /// Adopts the plan the model produced.
    pub fn finish_planning(&mut self, plan: Plan)
        ensures
            final(self).state().plan == Some(plan),
            final(self).state().current_step_idx == old(self).state().current_step_idx,
            final(self).state().task == old(self).state().task,
            final(self).state().message_history == old(self).state().message_history,
            final(self).config() == old(self).config(),
            final(self).team() == old(self).team(),
    {
        self.state.plan = Some(plan);
    }

    /// Issues the current step: records an instruction to its agent and
    /// moves to the next step. Does nothing once every step was issued, and
    /// fails without a plan. Returns whether a step was issued.
    pub fn orchestrate_execution(&mut self) -> (r: Result<bool, PlanAgentError>)
        requires
            old(self).state().n_rounds < usize::MAX,
        ensures
            r is Err <==> old(self).steps() is None,
            r matches Ok(true) <==> (old(self).steps() matches Some(s) && old(self).state().current_step_idx < s.len()),
            r matches Ok(true) ==> {
                let i = old(self).state().current_step_idx;
                let step = old(self).steps()->0[i as int];
                &&& final(self).state().current_step_idx == i + 1
                &&& final(self).state().n_rounds == old(self).state().n_rounds + 1
                &&& final(self).state().message_history@.drop_last() == old(self).state().message_history@
                &&& final(self).state().message_history@.len() == old(self).state().message_history@.len() + 1
                &&& is_text_from(
                    final(self).state().message_history@.last(),
                    instruction_text((i + 1) as nat, step.title@, step.details@, step.agent_name@, "Execute this step"@),
                    step.agent_name@,
                    Map::empty().insert("internal"@, "yes"@).insert("step_index"@, decimal((i + 1) as nat)),
                )
            },
            !(r matches Ok(true)) ==> {
                &&& final(self).state().current_step_idx == old(self).state().current_step_idx
                &&& final(self).state().n_rounds == old(self).state().n_rounds
                &&& final(self).state().message_history == old(self).state().message_history
            },
            final(self).steps() == old(self).steps(),
            final(self).state().task == old(self).state().task,
            final(self).config() == old(self).config(),
            final(self).team() == old(self).team(),
    {
        let msg = match &self.state.plan {
            None => {
                return Err(PlanAgentError::ValidationError(String::from_str("No plan available")));
            },
            Some(plan) => {
                let i = self.state.current_step_idx;
                if i >= plan.steps.len() {
                    return Ok(false);
                }
                let step = &plan.steps[i];
                create_agent_instruction_message(
                    i + 1,
                    step.title.clone(),
                    step.details.clone(),
                    step.agent_name.clone(),
                    String::from_str("Execute this step"),
                )
            },
        };
        self.state.message_history.push(msg);
        assert(self.state.message_history@.drop_last() =~= old(self).state.message_history@);
        self.state.current_step_idx = self.state.current_step_idx + 1;
        self.state.n_rounds = self.state.n_rounds + 1;
        Ok(true)
    }

    /// Starts replanning: counts the attempt and returns the system message
    /// asking the model for a new plan, with team, task and the current plan
    /// (as `current_plan_text`) filled in. Fails without a plan or without a task.
    pub fn begin_replan(&mut self, current_plan_text: &str) -> (r: Result<ChatMessage, PlanAgentError>)
        requires
            old(self).state().n_replans < usize::MAX,
        ensures
            r is Ok <==> (old(self).steps() is Some && old(self).state().task@.len() > 0),
            r matches Ok(m) ==> {
                &&& final(self).state().n_replans == old(self).state().n_replans + 1
                &&& is_text_from(
                    m,
                    replace_spec(
                        replace_spec(
                            replace_spec(replan_prompt_spec(old(self).config().sentinel_tasks), "{team}"@, old(self).team()),
                            "{task}"@,
                            old(self).state().task@,
                        ),
                        "{plan}"@,
                        current_plan_text@,
                    ) + REPLAN_CLOSING@,
                    "system"@,
                    Map::empty(),
                )
            },
            r is Err ==> final(self).state().n_replans == old(self).state().n_replans,
            final(self).steps() == old(self).steps(),
            final(self).state().current_step_idx == old(self).state().current_step_idx,
            final(self).state().task == old(self).state().task,
            final(self).config() == old(self).config(),
            final(self).team() == old(self).team(),
    {
        if self.state.plan.is_none() {
            return Err(PlanAgentError::ValidationError(String::from_str("No current plan available for replanning")));
        }
        if self.state.task.as_str().unicode_len() == 0 {
            return Err(PlanAgentError::ValidationError(String::from_str("No current task available for replanning")));
        }
        self.state.n_replans = self.state.n_replans + 1;
        proof {
            reveal_strlit("{team}");
            reveal_strlit("{task}");
            reveal_strlit("{plan}");
        }
        let base = replan_prompt_json(self.config.sentinel_tasks);
        let a = replace(base.as_str(), "{team}", self.team_description.as_str());
        let b = replace(a.as_str(), "{task}", self.state.task.as_str());
        let c = replace(b.as_str(), "{plan}", current_plan_text);
        let text = concat(c.as_str(), REPLAN_CLOSING);
        Ok(create_system_message(text))
    }

    /// Adopts the new plan and starts again from its first step.
    pub fn finish_replan(&mut self, plan: Plan)
        ensures
            final(self).state().plan == Some(plan),
            final(self).state().current_step_idx == 0,
            final(self).state().task == old(self).state().task,
            final(self).state().n_replans == old(self).state().n_replans,
            final(self).config() == old(self).config(),
            final(self).team() == old(self).team(),
    {
        self.state.plan = Some(plan);
        self.state.current_step_idx = 0;
    }
}


/// Adding a step at a position and then removing the step at that position
/// gives back the steps the plan had (appending and then removing the last
/// step too).
pub proof fn lemma_add_then_remove_restores(steps: Seq<PlanStep>, position: Option<usize>, step: PlanStep)
    requires
        position matches Some(p) ==> p <= steps.len(),
    ensures
        ({
            let added = match position {
                Some(p) => steps.insert(p as int, step),
                None => steps.push(step),
            };
            let at = match position {
                Some(p) => p as int,
                None => steps.len() as int,
            };
            added.remove(at) == steps
        }),
{
    match position {
        Some(p) => {
            assert(steps.insert(p as int, step).remove(p as int) =~= steps);
        },
        None => {
            assert(steps.push(step).remove(steps.len() as int) =~= steps);
        },
    }
}

/// Removing a step keeps the current step within the plan: when it pointed
/// at a step before, it still does.
pub proof fn lemma_remove_keeps_current_step(len: nat, current: usize)
    requires
        len > 1,
        current < len,
    ensures
        (if current >= len - 1 { (len - 2) as usize } else { current }) < len - 1,
{
}
/// Modifying a step replaces each field that is given and keeps each that
/// is not; the sentinel fields are never touched.
pub proof fn lemma_modified_step_fields(
    s: PlanStep,
    title: Option<String>,
    details: Option<String>,
    agent_name: Option<String>,
)
    ensures
        ({
            let m = modified_step(s, title, details, agent_name);
            &&& (title matches Some(t) ==> m.title == t)
            &&& (title is None ==> m.title == s.title)
            &&& (details matches Some(d) ==> m.details == d)
            &&& (details is None ==> m.details == s.details)
            &&& (agent_name matches Some(a) ==> m.agent_name == a)
            &&& (agent_name is None ==> m.agent_name == s.agent_name)
            &&& m.step_type == s.step_type
            &&& m.condition == s.condition
            &&& m.sleep_duration == s.sleep_duration
        }),
{
}

} // verus!
