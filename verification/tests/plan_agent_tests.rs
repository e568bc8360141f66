use mini_magentic::plan::{ChatMessage, Plan, PlanAgentError, PlanStep};
use mini_magentic::plan_agent::{
    create_agent_instruction_message, create_orchestrator_message, create_system_message, create_user_message,
    to_llm_messages, OrchestratorConfig, PlanAgent, RetrieveRelevantPlans,
};

fn step(title: &str, agent: &str) -> PlanStep {
    PlanStep {
        title: title.to_string(),
        details: format!("details of {}", title),
        agent_name: agent.to_string(),
        step_type: None,
        condition: None,
        sleep_duration: None,
    }
}

fn plan(titles: &[&str]) -> Plan {
    Plan {
        response: String::new(),
        task: "find menus".to_string(),
        plan_summary: "summary".to_string(),
        needs_plan: true,
        steps: titles.iter().map(|t| step(t, "web_surfer")).collect(),
    }
}

fn titles(agent: &PlanAgent) -> Vec<String> {
    agent.get_current_plan().unwrap().steps.iter().map(|s| s.title.clone()).collect()
}

fn text_of(m: &ChatMessage) -> String {
    m.content()
}

#[test]
fn default_config() {
    let c = OrchestratorConfig::default();
    assert!(c.cooperative_planning);
    assert!(!c.autonomous_execution);
    assert_eq!(c.max_turns, Some(20));
    assert_eq!(c.max_replans, Some(3));
    assert_eq!(c.max_json_retries, 3);
    assert_eq!(c.retrieve_relevant_plans, RetrieveRelevantPlans::Never);
    assert!(!c.sentinel_tasks);
}

#[test]
fn new_agent_has_no_plan() {
    let agent = PlanAgent::new(OrchestratorConfig::default());
    assert!(agent.get_current_plan().is_none());
    assert_eq!(agent.get_available_agents(), vec!["web_surfer".to_string(), "coder_agent".to_string()]);
}

#[test]
fn editing_needs_a_plan() {
    let mut agent = PlanAgent::new(OrchestratorConfig::default());
    assert!(agent.add_plan_step("a".to_string(), "b".to_string(), "c".to_string(), None).is_err());
    assert!(agent.remove_plan_step(0).is_err());
    assert!(agent.modify_plan_step(0, None, None, None).is_err());
}

#[test]
fn add_then_remove_restores_plan() {
    let mut agent = PlanAgent::new(OrchestratorConfig::default());
    agent.finish_planning(plan(&["one", "two", "three"]));
    agent.add_plan_step("new".to_string(), "d".to_string(), "coder_agent".to_string(), Some(1)).unwrap();
    assert_eq!(titles(&agent), vec!["one", "new", "two", "three"]);
    agent.remove_plan_step(1).unwrap();
    assert_eq!(titles(&agent), vec!["one", "two", "three"]);
    agent.add_plan_step("last".to_string(), "d".to_string(), "coder_agent".to_string(), None).unwrap();
    assert_eq!(titles(&agent), vec!["one", "two", "three", "last"]);
    assert!(agent.add_plan_step("x".to_string(), "d".to_string(), "c".to_string(), Some(9)).is_err());
}

#[test]
fn modify_changes_given_fields_only() {
    let mut agent = PlanAgent::new(OrchestratorConfig::default());
    agent.finish_planning(plan(&["one", "two"]));
    agent.modify_plan_step(1, Some("TWO".to_string()), None, Some("coder_agent".to_string())).unwrap();
    let p = agent.get_current_plan().unwrap();
    assert_eq!(p.steps[1].title, "TWO");
    assert_eq!(p.steps[1].details, "details of two");
    assert_eq!(p.steps[1].agent_name, "coder_agent");
    assert_eq!(p.steps[0].title, "one");
    assert!(agent.modify_plan_step(2, None, None, None).is_err());
}

#[test]
fn last_step_cannot_be_removed() {
    let mut agent = PlanAgent::new(OrchestratorConfig::default());
    agent.finish_planning(plan(&["only"]));
    match agent.remove_plan_step(0) {
        Err(PlanAgentError::ValidationError(m)) => assert_eq!(m, "Cannot remove the last remaining step"),
        _ => panic!("expected an error"),
    }
    assert!(agent.remove_plan_step(3).is_err());
}

#[test]
fn execution_issues_each_step_once() {
    let mut agent = PlanAgent::new(OrchestratorConfig::default());
    assert!(agent.orchestrate_execution().is_err());
    agent.finish_planning(plan(&["one", "two"]));
    assert!(matches!(agent.orchestrate_execution(), Ok(true)));
    assert!(matches!(agent.orchestrate_execution(), Ok(true)));
    assert!(matches!(agent.orchestrate_execution(), Ok(false)));
}

#[test]
fn planning_starts_from_last_message() {
    let mut agent = PlanAgent::new(OrchestratorConfig::default());
    assert!(agent.needs_planning());
    assert!(agent.begin_planning().is_err());
    agent.record_user_input("book a table");
    let ms = agent.begin_planning().unwrap();
    assert_eq!(ms.len(), 3);
    assert_eq!(ms[2].source(), Some("user"));
    assert_eq!(text_of(&ms[2]), "book a table");
    assert_eq!(ms[1].source(), Some("orchestrator"));
    assert_eq!(ms[1].metadata().get("internal").map(|s| s.as_str()), Some("yes"));
    assert!(text_of(&ms[1]).contains("**web_surfer**"));
    assert!(!text_of(&ms[1]).contains("{team}"));
    assert_eq!(ms[0].source(), Some("system"));
}

#[test]
fn replanning_needs_plan_and_task() {
    let mut agent = PlanAgent::new(OrchestratorConfig::default());
    assert!(agent.begin_replan("{}").is_err());
    agent.finish_planning(plan(&["one"]));
    assert!(agent.begin_replan("{}").is_err());
    agent.record_user_input("go");
    agent.begin_planning().unwrap();
    let m = agent.begin_replan("PLAN-TEXT").unwrap();
    let t = text_of(&m);
    assert!(t.contains("TASK: go"));
    assert!(t.contains("PLAN-TEXT"));
    assert!(t.ends_with("请用中文返回响应。请重新制定计划以解决之前计划执行中遇到的问题。"));
    agent.finish_replan(plan(&["a", "b"]));
    assert_eq!(titles(&agent), vec!["a", "b"]);
}

#[test]
fn message_builders() {
    let m = create_agent_instruction_message(2, "Title".to_string(), "Details".to_string(), "web_surfer".to_string(), "Go".to_string());
    assert_eq!(text_of(&m), "Step 2: Title\n\nDetails\n\nInstruction for web_surfer: Go");
    assert_eq!(m.source(), Some("web_surfer"));
    assert_eq!(m.metadata().get("step_index").map(|s| s.as_str()), Some("2"));
    let u = create_user_message("hi".to_string(), "me".to_string());
    assert_eq!(u.source(), Some("me"));
    let s = create_system_message("sys".to_string());
    assert_eq!(s.source(), Some("system"));
    let o = create_orchestrator_message("o".to_string());
    assert_eq!(o.metadata().get("internal").map(|s| s.as_str()), Some("yes"));
    let llm = to_llm_messages(&[s, u]);
    assert_eq!(llm[0].role, "user");
    assert_eq!(llm[1].content, "hi");
}
