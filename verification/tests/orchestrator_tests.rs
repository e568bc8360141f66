use mini_magentic::json::JsonValue;
use mini_magentic::message::{ChatMessage, MessageRole};
use mini_magentic::orchestrator::{
    get_task_ledger_plan_prompt, validate_plan_json, ExecutionDecision, ExecutionStart, LedgerAnswer, LedgerInstruction,
    Orchestrator, OrchestratorConfig, OrchestratorError, OrchestratorState, PlanningStart, ProgressLedger,
};
use mini_magentic::plan::{Plan, PlanStep};

fn config(autonomous: bool, follow_up: bool) -> OrchestratorConfig {
    OrchestratorConfig {
        cooperative_planning: true,
        autonomous_execution: autonomous,
        allow_follow_up_input: follow_up,
        plan: None,
        max_turns: Some(5),
        allow_for_replans: true,
        max_json_retries: 3,
        saved_facts: None,
        allowed_websites: None,
        do_bing_search: false,
        final_answer_prompt: None,
        model_context_token_limit: None,
        retrieve_relevant_plans: None,
        max_replans: Some(1),
    }
}

fn msg() -> ChatMessage {
    ChatMessage::new_text(MessageRole::User, "user".to_string(), "task".to_string())
}

fn strings(v: &[&str]) -> Vec<String> {
    v.iter().map(|s| s.to_string()).collect()
}

fn plan() -> Plan {
    let step = |t: &str, a: &str| PlanStep {
        title: t.to_string(),
        details: format!("do {}", t),
        agent_name: a.to_string(),
        step_type: None,
        condition: None,
        sleep_duration: None,
    };
    Plan {
        response: "ok".to_string(),
        task: "t".to_string(),
        plan_summary: "s".to_string(),
        needs_plan: true,
        steps: vec![step("search", "web_surfer"), step("report", "user_proxy")],
    }
}

fn ledger(complete: bool, replan: bool, agent: &str) -> ProgressLedger {
    ProgressLedger {
        is_current_step_complete: LedgerAnswer { reason: "r".to_string(), answer: complete },
        need_to_replan: LedgerAnswer { reason: "stuck".to_string(), answer: replan },
        instruction_or_question: LedgerInstruction { answer: "go on".to_string(), agent_name: agent.to_string() },
        progress_summary: String::new(),
    }
}

#[test]
fn user_agent_is_required() {
    let r = Orchestrator::new("orch".to_string(), msg(), strings(&["d"]), strings(&["web_surfer"]), config(false, true), None);
    match r {
        Err(OrchestratorError::UserAgentMissing(names)) => assert_eq!(names, strings(&["web_surfer"])),
        _ => panic!("expected an error"),
    }
    assert!(Orchestrator::new("orch".to_string(), msg(), strings(&["d"]), strings(&["web_surfer"]), config(true, true), None).is_ok());
}

#[test]
fn autonomous_execution_drops_user_agent() {
    let o = Orchestrator::new(
        "orch".to_string(),
        msg(),
        strings(&["browses  ", "the user"]),
        strings(&["web_surfer", "user_proxy"]),
        config(true, false),
        None,
    )
    .unwrap();
    let mut o = o;
    match o.begin_planning_step() {
        PlanningStart::AskPlan(p) => {
            assert!(p.starts_with("You have access to the following team members"));
            assert!(p.contains("web_surfer - browses\nno_action_agent - If for this step no action is needed, you can use this agent to perform no action"));
            assert!(!p.contains("user_proxy"));
        }
        PlanningStart::Execute => panic!("expected a plan request"),
    }
    assert!(matches!(o.begin_planning_step(), PlanningStart::Execute));
}

#[test]
fn execution_steps_through_the_plan() {
    let mut o = Orchestrator::new(
        "orch".to_string(),
        msg(),
        strings(&["browses", "the user"]),
        strings(&["web_surfer", "user_proxy"]),
        config(false, true),
        None,
    )
    .unwrap();
    assert!(!o.in_planning_mode());
    o.begin_planning_step();
    assert!(!o.finish_planning_step(plan(), "PLAN".to_string(), "here is a plan".to_string(), true));
    match o.begin_execution_step(true) {
        ExecutionStart::AskProgress(p) => {
            assert!(p.contains("We are at step index 0 in the plan which is"));
            assert!(p.contains("Title: search"));
            assert!(p.contains("web_surfer, user_proxy, no_action_agent"));
        }
        ExecutionStart::Finish(_) => panic!("expected a progress question"),
    }
    match o.after_progress_ledger(ledger(false, false, "web_surfer"), true) {
        ExecutionDecision::Delegate(a) => assert_eq!(a, "web_surfer"),
        _ => panic!("expected delegation"),
    }
    o.begin_execution_step(false);
    assert!(matches!(o.after_progress_ledger(ledger(true, false, "nobody"), false), ExecutionDecision::NoDelegate));
    o.begin_execution_step(false);
    match o.after_progress_ledger(ledger(false, true, "x"), false) {
        ExecutionDecision::Replan(r) => assert_eq!(r, "stuck"),
        _ => panic!("expected a replan"),
    }
    assert!(o.in_planning_mode());
    match o.after_progress_ledger(ledger(false, true, "x"), false) {
        ExecutionDecision::Finish(r) => assert_eq!(r, "We need to replan but max replan attempts reached: stuck "),
        _ => panic!("expected to stop"),
    }
    match o.after_progress_ledger(ledger(true, false, "x"), false) {
        ExecutionDecision::Finish(r) => assert_eq!(r, "Plan completed"),
        _ => panic!("expected to stop"),
    }
    match o.begin_execution_step(false) {
        ExecutionStart::Finish(r) => assert_eq!(r, "Max rounds reached"),
        _ => panic!("expected to stop"),
    }
}

#[test]
fn agent_instruction_text() {
    let mut o = Orchestrator::new("orch".to_string(), msg(), strings(&["d"]), strings(&["user_proxy"]), config(false, false), None).unwrap();
    o.begin_planning_step();
    o.finish_planning_step(plan(), "P".to_string(), "r".to_string(), true);
    let text = o.get_agent_instruction("look".to_string(), "web_surfer".to_string());
    assert!(text.starts_with("    Step 1: search"));
    assert!(text.contains("Instruction for web_surfer: look"));
}

#[test]
fn state_resets() {
    let mut s = OrchestratorState::default();
    s.task = "t".to_string();
    s.information_collected = "facts".to_string();
    s.group_topic_type = "group".to_string();
    s.n_rounds = 4;
    let mut kept = OrchestratorState::default();
    kept.information_collected = "facts".to_string();
    kept.n_replans = 2;
    s.reset();
    assert!(s.task.is_empty() && s.information_collected.is_empty() && s.in_planning_mode);
    assert_eq!(s.group_topic_type, "group");
    assert_eq!(s.n_rounds, 0);
    kept.reset_with_context();
    assert_eq!(kept.information_collected, "facts");
    assert_eq!(kept.n_replans, 0);
    assert!(kept.in_planning_mode);
}

#[test]
fn plan_reply_shape() {
    let obj = |f: Vec<(&str, JsonValue)>| JsonValue::Object(f.into_iter().map(|(k, v)| (k.to_string(), v)).collect());
    let step = obj(vec![("title", JsonValue::Null), ("details", JsonValue::Null), ("agent_name", JsonValue::Null)]);
    let good = obj(vec![
        ("task", JsonValue::Null),
        ("steps", JsonValue::Array(vec![step])),
        ("needs_plan", JsonValue::Bool(true)),
        ("response", JsonValue::Null),
        ("plan_summary", JsonValue::Null),
    ]);
    assert!(validate_plan_json(&good));
    let bad = obj(vec![
        ("task", JsonValue::Null),
        ("steps", JsonValue::Array(vec![obj(vec![("title", JsonValue::Null)])])),
        ("needs_plan", JsonValue::Bool(true)),
        ("response", JsonValue::Null),
        ("plan_summary", JsonValue::Null),
    ]);
    assert!(!validate_plan_json(&bad));
    assert!(!validate_plan_json(&JsonValue::Null));
}

#[test]
fn task_ledger_prompt_is_trimmed() {
    let p = get_task_ledger_plan_prompt("T");
    assert!(p.starts_with("You have access to the following team members"));
    assert!(p.contains("\n            T\n"));
    assert!(p.contains("task.\n\nEach step should have a title, details and agent_name fields."));
    assert!(p.ends_with("]\n            }"));
}
