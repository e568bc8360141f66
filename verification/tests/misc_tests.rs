use mini_magentic::plan::check_plan_reply;
use mini_magentic::message::{ChatMessage as AgentChatMessage, MessageRole, MessageType};
use mini_magentic::orchestrator::{execute_message, notify_message};
use mini_magentic::url_status::{UrlStatus, UrlStatusManager};
use mini_magentic::cli::{clean_line, detail_lines, is_exit_command};
use mini_magentic::documents::{merge_documents, page_documents};
use mini_magentic::llm_client::{
    check_request, give_up_error, interpret_reply, next_retry, parse_create_result, retry_delay_ms, RetryStep, select_endpoint, json_output_parameters, EndpointSettings, to_api_message, to_api_messages,
    ApiContentPart, ApiMessage, Content, FinishReasons, LLMResponse, ReplyChoice,
};
use mini_magentic::message::{
    FunctionCall, LLMMessage, MultiModalContent, SystemMessage, ToolMessage, UserContent, UserMessage,
};
use mini_magentic::planner::{Agent, Planner, PLANNER_SYSTEM_END, PLANNER_SYSTEM_INTRO};
use mini_magentic::prompt::{
    plan_prompt_json, replan_prompt_json, system_message_for_date, PLAN_BASE, PLAN_PLAIN_STEPS, PLAN_SENTINEL_STEPS,
    REPLAN_INTRO,
};
use mini_magentic::py_client::{read_pages, PyClient};
use mini_magentic::records::PostgresDbEnv;
use mini_magentic::routes::ErrorResponse;
use mini_magentic::set_of_mark::{assign_ids, label_box};
use mini_magentic::tasks::{completed_event, error_event, fail_run, record_run, step_event, RunOutcome, Task, TaskState, TaskStore};
use mini_magentic::json::JsonValue;
use mini_magentic::assoc::Assoc;
use mini_magentic::web_page::{focused_hint, format_target_list, tabs_info, web_surfer_qa_prompt, InteractiveRegion, TabInfo};

fn strings(v: &[&str]) -> Vec<String> {
    v.iter().map(|s| s.to_string()).collect()
}

#[test]
fn detail_lines_split_at_separators() {
    let lines = detail_lines("1) 打开网页，搜索 grok；查看结果");
    assert_eq!(lines, strings(&["打开网页", "搜索 grok", "查看结果"]));
    let single = detail_lines("  2) Open the page  ");
    assert_eq!(single, strings(&["Open the page"]));
    assert_eq!(clean_line("12) step"), "step");
}

#[test]
fn exit_commands() {
    assert!(is_exit_command(" Quit\n"));
    assert!(is_exit_command("exit"));
    assert!(is_exit_command("EXIT"));
    assert!(!is_exit_command("quite"));
    assert!(!is_exit_command(""));
}

#[test]
fn sequential_ids_number_all_elements() {
    let m = assign_ids(&strings(&["a", "b"]), &strings(&["c"]), &strings(&["d"]), true);
    assert_eq!(m.visible, strings(&["1", "2"]));
    assert_eq!(m.above, strings(&["3"]));
    assert_eq!(m.below, strings(&["4"]));
    assert_eq!(m.mapping.get("1").map(|s| s.as_str()), Some("a"));
    assert_eq!(m.mapping.get("4").map(|s| s.as_str()), Some("d"));
    assert!(m.mapping.get("5").is_none());
}

#[test]
fn own_ids_map_to_themselves() {
    let m = assign_ids(&strings(&["10", "7"]), &strings(&[]), &strings(&["3"]), false);
    assert_eq!(m.visible, strings(&["10", "7"]));
    assert_eq!(m.below, strings(&["3"]));
    assert_eq!(m.mapping.get("7").map(|s| s.as_str()), Some("7"));
    assert!(m.mapping.get("1").is_none());
}

#[test]
fn label_placement() {
    let near_top = label_box(10, 100, 50, 20, 10);
    assert_eq!((near_top.text_x, near_top.text_y), (77, 53));
    assert_eq!((near_top.bbox_left, near_top.bbox_top, near_top.bbox_width, near_top.bbox_height), (74, 50, 26, 16));
    let lower = label_box(100, 100, 150, 20, 10);
    assert_eq!(lower.text_y, 87);
}

#[test]
fn pages_become_documents_and_merge() {
    let docs = page_documents("f.pdf", &strings(&["p1", "p2"]));
    assert_eq!(docs.len(), 2);
    assert_eq!(docs[1].content, "p2");
    assert_eq!(docs[0].metadata.get("page").map(|s| s.as_str()), Some("1"));
    assert_eq!(docs[1].metadata.get("source").map(|s| s.as_str()), Some("f.pdf"));
    let merged = merge_documents(&docs);
    assert_eq!(merged.content, "p1\n\np2");
    assert_eq!(merged.metadata.get("page").map(|s| s.as_str()), Some("2"));
}

fn task(id: &str) -> Task {
    Task {
        task_id: id.to_string(),
        session_id: "s".to_string(),
        content: "do it".to_string(),
        state: TaskState::Pending,
        steps: Vec::new(),
        created_at: 0,
        updated_at: 0,
    }
}

#[test]
fn task_store_records_steps_and_states() {
    let mut store = TaskStore::new();
    store.insert(task("t1"));
    store.insert(task("t2"));
    store.push_step("t1", "plan".to_string(), "ok".to_string());
    store.update_complete("t1");
    let t1 = store.get("t1").unwrap();
    assert_eq!(t1.state, TaskState::Completed);
    assert_eq!(t1.steps.len(), 1);
    assert_eq!(t1.steps[0].name, "plan");
    assert_eq!(store.get("t2").unwrap().state, TaskState::Pending);
    assert!(store.get("t3").is_none());
    store.update_fail("t2", "boom".to_string());
    let t2 = store.get("t2").unwrap();
    assert_eq!(t2.state, TaskState::Failed);
    assert_eq!(t2.steps[0].name, "error");
    assert_eq!(t2.steps[0].result, "boom");
}

#[test]
fn task_events() {
    assert_eq!(error_event("boom"), "{\"type\":\"error\",\"message\":\"boom\"}");
    assert_eq!(step_event("plan", "ok \"x\""), "{\"type\":\"step\",\"name\":\"plan\",\"result\":\"ok \\\"x\\\"\"}");
    assert_eq!(completed_event(), "{\"type\":\"state\",\"value\":\"Completed\"}");
    let mut store = TaskStore::new();
    store.insert(task("t1"));
    let ev = fail_run(&mut store, "t1", "connect", "refused");
    assert_eq!(ev, "{\"type\":\"error\",\"message\":\"connect error: refused\"}");
    let t1 = store.get("t1").unwrap();
    assert_eq!(t1.state, TaskState::Failed);
    assert_eq!(t1.steps[0].result, "connect error: refused");
}

#[test]
fn py_client_urls_and_pages() {
    let c = PyClient::new("http://localhost:8001");
    assert_eq!(c.base_url(), "http://127.0.0.1:8001");
    assert_eq!(c.pdf_load_url(), "http://127.0.0.1:8001/pdf/load");
    assert_eq!(read_pages("u", "  "), Err("Empty response body from u".to_string()));
    assert_eq!(read_pages("u", "[\"a\",\"b\"]"), Ok(strings(&["a", "b"])));
    let bad = read_pages("u", "{}").unwrap_err();
    assert!(bad.starts_with("Failed to parse JSON response from u: "));
    assert!(bad.len() > "Failed to parse JSON response from u: ".len());
}

#[test]
fn images_become_base64_data_urls() {
    let m = LLMMessage::User(UserMessage {
        content: UserContent::MultiModal(vec![
            MultiModalContent::Text("look".to_string()),
            MultiModalContent::Image(vec![0x89, b'P', b'N', b'G']),
        ]),
        source: "user".to_string(),
        message_type: "UserMessage".to_string(),
    });
    let a = to_api_message(&m).unwrap();
    assert_eq!(
        a,
        ApiMessage::User(vec![
            ApiContentPart::Text("look".to_string()),
            ApiContentPart::ImageUrl("data:image/png;base64,iVBORw==".to_string()),
        ])
    );
}

#[test]
fn tool_results_are_not_sent() {
    let h = vec![
        LLMMessage::System(SystemMessage { content: "sys".to_string() }),
        LLMMessage::Tool(ToolMessage { content: "7000".to_string(), name: "n".to_string(), call_id: "c".to_string() }),
    ];
    assert_eq!(to_api_messages(&h), vec![ApiMessage::System("sys".to_string())]);
}

#[test]
fn replies_are_read_from_first_choice() {
    match interpret_reply(None) {
        Err(e) => assert_eq!(e, "No valid response from LLM"),
        Ok(_) => panic!("expected an error"),
    }
    let call = FunctionCall { id: "1".to_string(), name: "click".to_string(), arguments: "{}".to_string() };
    let r = interpret_reply(Some(ReplyChoice { tool_calls: Some(vec![call]), content: Some("t".to_string()) })).unwrap();
    assert!(matches!(&r[..], [LLMResponse::FunctionCalls(c)] if c.len() == 1 && c[0].name == "click"));
    let r = interpret_reply(Some(ReplyChoice { tool_calls: None, content: Some("hi".to_string()) })).unwrap();
    assert!(matches!(&r[..], [LLMResponse::Text(t)] if t == "hi"));
    assert!(interpret_reply(Some(ReplyChoice { tool_calls: None, content: None })).is_err());
}

fn settings(keys: [Option<&str>; 6]) -> EndpointSettings {
    let o = |i: usize| keys[i].map(|s| s.to_string());
    EndpointSettings {
        dashscope_api_key: o(0),
        dashscope_base_url: o(1),
        dashscope_model: o(2),
        openai_api_key: o(3),
        openai_base_url: o(4),
        openai_model: o(5),
    }
}

#[test]
fn endpoint_defaults() {
    assert_eq!(
        select_endpoint(settings([None, None, None, None, None, None])).err(),
        Some("Neither DASHSCOPE_API_KEY nor OPENAI_API_KEY is set".to_string())
    );
    let ep = select_endpoint(settings([Some("k"), None, None, None, None, None])).unwrap();
    assert_eq!(ep.base_url, "https://dashscope.aliyuncs.com/compatible-mode/v1");
    assert_eq!(ep.model, "qwen-vl-max");
    let ep = select_endpoint(settings([Some("k"), Some("http://x"), Some("m"), None, None, None])).unwrap();
    assert_eq!((ep.api_key.as_str(), ep.base_url.as_str(), ep.model.as_str()), ("k", "http://x", "m"));
}

#[test]
fn json_output_asks_for_a_json_object() {
    assert!(json_output_parameters(None).is_empty());
    assert!(json_output_parameters(Some(false)).is_empty());
    let p = json_output_parameters(Some(true));
    assert_eq!(p.len(), 2);
    assert_eq!(p[0].0, "result_format");
    assert!(matches!(&p[0].1, JsonValue::String(v) if v == "message"));
    assert_eq!(p[1].0, "response_format");
    assert!(matches!(&p[1].1, JsonValue::Object(f)
        if f.len() == 1 && f[0].0 == "type" && matches!(&f[0].1, JsonValue::String(t) if t == "json_object")));
}

#[test]
fn endpoint_falls_back_to_openai() {
    let ep = select_endpoint(settings([None, Some("http://x"), Some("m"), Some("ok"), None, None])).unwrap();
    assert_eq!((ep.api_key.as_str(), ep.base_url.as_str(), ep.model.as_str()), ("ok", "https://api.openai.com/v1", "gpt-4o"));
    let ep = select_endpoint(settings([None, None, None, Some("ok"), Some("http://o"), Some("gpt-x")])).unwrap();
    assert_eq!((ep.api_key.as_str(), ep.base_url.as_str(), ep.model.as_str()), ("ok", "http://o", "gpt-x"));
}

#[test]
fn dashscope_key_wins_over_openai() {
    let ep = select_endpoint(settings([Some("dk"), None, None, Some("ok"), Some("http://o"), Some("gpt-x")])).unwrap();
    assert_eq!((ep.api_key.as_str(), ep.base_url.as_str(), ep.model.as_str()), ("dk", "https://dashscope.aliyuncs.com/compatible-mode/v1", "qwen-vl-max"));
}

fn obj(fields: Vec<(&str, JsonValue)>) -> JsonValue {
    JsonValue::Object(fields.into_iter().map(|(k, v)| (k.to_string(), v)).collect())
}

#[test]
fn completion_replies() {
    let reply = obj(vec![(
        "output",
        obj(vec![("choices", JsonValue::Array(vec![obj(vec![("message", obj(vec![("content", JsonValue::String("hello world!".to_string()))]))])]))]),
    )]);
    let c = parse_create_result(&reply, 5).unwrap();
    assert!(matches!(&c.content, Content::Text(t) if t == "hello world!"));
    assert_eq!(c.finish_reason, FinishReasons::Length);
    assert_eq!((c.usage.prompt_tokens, c.usage.completion_tokens), (0, 3));
    assert!(!c.cached && c.thought.is_none());
    let c = parse_create_result(&reply, 100).unwrap();
    assert_eq!(c.finish_reason, FinishReasons::Stop);
    assert_eq!(parse_create_result(&obj(vec![]), 5).err(), Some("Invalid response: missing output object".to_string()));
    let empty = obj(vec![("output", obj(vec![("choices", JsonValue::Array(vec![]))]))]);
    assert_eq!(parse_create_result(&empty, 5).err(), Some("Invalid response: empty choices array".to_string()));
    let no_choices = obj(vec![("output", obj(vec![]))]);
    assert_eq!(parse_create_result(&no_choices, 5).err(), Some("Invalid response: missing choices array".to_string()));
}

#[test]
fn retries_double_their_delay() {
    assert_eq!(retry_delay_ms(0, 3), Some(100));
    assert_eq!(retry_delay_ms(1, 3), Some(200));
    assert_eq!(retry_delay_ms(2, 3), None);
    assert_eq!(retry_delay_ms(4, 10), Some(1600));
}

#[test]
fn requests_need_messages() {
    assert_eq!(check_request(true, 1), Err("Request cancelled".to_string()));
    assert_eq!(check_request(false, 0), Err("Messages cannot be empty".to_string()));
    assert_eq!(check_request(false, 2), Ok(()));
}

fn region(tag: &str, role: &str, name: Option<&str>) -> InteractiveRegion {
    InteractiveRegion { tag_name: tag.to_string(), role: role.to_string(), aria_name: name.map(|n| n.to_string()) }
}

fn rects() -> Assoc<InteractiveRegion> {
    let mut r = Assoc::new();
    r.insert("12".to_string(), region("button", "button", Some("Go")));
    r.insert("3".to_string(), region("input", "textbox", Some("Search\nhere")));
    r
}

#[test]
fn target_list_is_ordered_by_id() {
    let list = format_target_list(&strings(&["12", "3", "12", "x"]), &rects());
    assert_eq!(
        list,
        strings(&[
            "{\"id\":3,\"name\":\"Search here\",\"role\":\"textbox\",\"tools\":[\"click\",\"hover\",\"input_text\"]}",
            "{\"id\":12,\"name\":\"Go\",\"role\":\"button\",\"tools\":[\"click\",\"hover\"]}",
        ])
    );
}

#[test]
fn tabs_and_focus() {
    let tabs = vec![
        TabInfo { index: 0, title: "A".to_string(), url: "http://a".to_string(), is_active: true, is_controlled: true },
        TabInfo { index: 1, title: "B".to_string(), url: "http://b".to_string(), is_active: false, is_controlled: false },
    ];
    let (n, text) = tabs_info(&tabs);
    assert_eq!(n, 2);
    assert_eq!(text, "Tab 0: A (http://a)  [CURRENTLY SHOWN]  [CONTROLLED]\nTab 1: B (http://b)");
    assert_eq!(focused_hint("", &rects()), "");
    assert_eq!(focused_hint("12", &rects()), "\nThe button with ID 12 (and name 'Go')currently has the input focus.\n\n");
    assert_eq!(focused_hint("99", &rects()), "\nThe control with ID 99 currently has the input focus.\n\n");
}

#[test]
fn page_question_prompts() {
    assert_eq!(
        web_surfer_qa_prompt("T", None),
        "We are visiting the webpage 'T'. Its full-text content are pasted below, along with a screenshot of the page's current viewport. Please summarize the webpage into one or two paragraphs:\n\n"
    );
    assert!(web_surfer_qa_prompt("T", Some("why?")).ends_with(" Please answer the following question completely: 'why?':\n\n"));
}

#[test]
fn planner_prompts() {
    let p = Planner::new(vec![
        Agent { name: "web_surfer".to_string(), description: "An agent that can browse the web to find information.".to_string() },
        Agent { name: "coder_agent".to_string(), description: "An agent that can write and execute code in a sandboxed environment.".to_string() },
    ]);
    let team = p.get_team_description();
    assert_eq!(
        team,
        "web_surfer: An agent that can browse the web to find information.\ncoder_agent: An agent that can write and execute code in a sandboxed environment."
    );
    assert_eq!(p.build_system_prompt(&team), format!("{}{}{}", PLANNER_SYSTEM_INTRO, team, PLANNER_SYSTEM_END));
    let user = p.build_user_prompt(&team, "Execute the starter code for the autogen repo");
    assert!(user.contains("Execute the starter code for the autogen repo"));
    assert!(user.contains(&team));
}

#[test]
fn planning_prompts() {
    let s = system_message_for_date("2025-01-01", false);
    assert!(s.contains("2025-01-01"));
    assert!(s.contains("{team}"));
    assert_ne!(s, system_message_for_date("2025-01-01", true));
    assert_eq!(plan_prompt_json(true), format!("{}\n{}", PLAN_BASE, PLAN_SENTINEL_STEPS));
    assert_eq!(plan_prompt_json(false), format!("{}\n{}", PLAN_BASE, PLAN_PLAIN_STEPS));
    assert_eq!(replan_prompt_json(false), format!("{}\n{}\n{}", REPLAN_INTRO, PLAN_BASE, PLAN_PLAIN_STEPS));
}

#[test]
fn settings_and_errors() {
    let env = PostgresDbEnv { postgres_url: "pg".to_string(), pgvector_url: "vec".to_string() };
    assert_eq!(env.get_env_var("DATABASE_URL"), "pg");
    assert_eq!(env.get_env_var("PGVECTOR_URI"), "vec");
    assert_eq!(ErrorResponse::plan_not_found().error, "Plan not found");
}

fn plan_reply(needs_plan: JsonValue, response: JsonValue) -> JsonValue {
    obj(vec![
        ("task", JsonValue::String("t".to_string())),
        (
            "steps",
            JsonValue::Array(vec![obj(vec![
                ("title", JsonValue::String("a".to_string())),
                ("details", JsonValue::String("b".to_string())),
                ("agent_name", JsonValue::String("web_surfer".to_string())),
            ])]),
        ),
        ("needs_plan", needs_plan),
        ("response", response),
        ("plan_summary", JsonValue::String("s".to_string())),
    ])
}

#[test]
fn planner_replies_are_checked() {
    assert_eq!(check_plan_reply(&plan_reply(JsonValue::Bool(true), JsonValue::String("".to_string())), false), Ok(()));
    assert_eq!(
        check_plan_reply(&plan_reply(JsonValue::Bool(false), JsonValue::String("done".to_string())), false),
        Err("No plan needed: done".to_string())
    );
    assert_eq!(
        check_plan_reply(&plan_reply(JsonValue::Bool(false), JsonValue::Null), false),
        Err("No plan needed: 无需计划。".to_string())
    );
    assert_eq!(check_plan_reply(&obj(vec![]), false), Err("Invalid plan JSON structure".to_string()));
}

#[test]
fn orchestrator_messages() {
    let content = vec![AgentChatMessage::new_text(MessageRole::User, "user".to_string(), "hi".to_string())];
    let n = notify_message(content.clone());
    assert_eq!((n.from.as_str(), n.to.as_str(), n.msg_type), ("orchestrator", "all", MessageType::Notify));
    assert_eq!(n.chat_history.len(), 1);
    let e = execute_message("web_surfer", content);
    assert_eq!((e.from.as_str(), e.to.as_str(), e.msg_type), ("Orchestrator", "web_surfer", MessageType::Execute));
}

#[test]
fn site_lists_of_the_policy() {
    let mut m = UrlStatusManager::new(
        Some(vec![
            ("https://a.com/".to_string(), UrlStatus::Allowed),
            ("https://b.com".to_string(), UrlStatus::Rejected),
        ]),
        Some(strings(&["bad.com"])),
    );
    assert_eq!(m.get_allowed_sites(), Some(strings(&["https://a.com"])));
    assert_eq!(m.get_rejected_sites(), Some(strings(&["https://b.com"])));
    assert_eq!(m.get_blocked_sites(), Some(&strings(&["bad.com"])));
    m.set_url_status("  https://c.com/ ", UrlStatus::Allowed);
    m.set_url_status("https://b.com", UrlStatus::Allowed);
    let mut allowed = m.get_allowed_sites().unwrap();
    allowed.sort();
    assert_eq!(allowed, strings(&["https://a.com", "https://b.com", "https://c.com"]));
    assert_eq!(m.get_rejected_sites(), Some(strings(&[])));
    let open = UrlStatusManager::new(None, None);
    assert!(open.get_allowed_sites().is_none());
    assert!(open.get_blocked_sites().is_none());
}

#[test]
fn allowed_sites_cover_their_subdomains() {
    let m = UrlStatusManager::new(Some(vec![("example.com".to_string(), UrlStatus::Allowed)]), Some(strings(&["bad.org"])));
    assert!(m.is_url_allowed("https://www.example.com/x"));
    assert!(!m.is_url_allowed("https://example.org"));
    assert!(m.is_url_blocked("http://bad.org/page"));
    assert!(!m.is_url_allowed("http://bad.org/page"));
    assert!(!m.is_url_rejected("https://www.example.com/x"));
}

#[test]
fn a_run_leaves_its_task_completed_or_failed() {
    let mut store = TaskStore::new();
    store.insert(task("ok"));
    store.insert(task("bad"));
    let events = record_run(&mut store, "ok", RunOutcome::Opened("https://www.bilibili.com/".to_string()));
    assert_eq!(
        events,
        vec![
            "{\"type\":\"step\",\"name\":\"open\",\"result\":\"https://www.bilibili.com/\"}".to_string(),
            "{\"type\":\"state\",\"value\":\"Completed\"}".to_string(),
        ]
    );
    let t = store.get("ok").unwrap();
    assert_eq!(t.state, TaskState::Completed);
    assert_eq!((t.steps[0].name.as_str(), t.steps[0].result.as_str()), ("open", "https://www.bilibili.com/"));
    let events = record_run(&mut store, "bad", RunOutcome::Failed { stage: "connect".to_string(), error: "refused".to_string() });
    assert_eq!(events, vec!["{\"type\":\"error\",\"message\":\"connect error: refused\"}".to_string()]);
    assert_eq!(store.get("bad").unwrap().state, TaskState::Failed);
    assert_eq!(store.get("ok").unwrap().state, TaskState::Completed);
    assert!(store.get("never").is_none());
}

#[test]
fn site_lists_follow_the_verdicts() {
    let mut m = UrlStatusManager::new(Some(vec![]), None);
    m.set_url_status("  example.com/ ", UrlStatus::Allowed);
    assert_eq!(m.get_allowed_sites(), Some(strings(&["example.com"])));
    assert_eq!(m.get_rejected_sites(), Some(strings(&[])));
    m.set_url_status("example.com", UrlStatus::Rejected);
    assert_eq!(m.get_allowed_sites(), Some(strings(&[])));
    assert_eq!(m.get_rejected_sites(), Some(strings(&["example.com"])));
    let fresh = UrlStatusManager::new(Some(vec![("example.com/".to_string(), UrlStatus::Allowed)]), None);
    assert_eq!(fresh.get_allowed_sites(), Some(strings(&["example.com"])));
}

#[test]
fn longest_retry_delay() {
    assert_eq!(retry_delay_ms(57, 60), Some((1u64 << 57) * 100));
}

#[test]
fn retry_steps() {
    assert_eq!(next_retry(0, 3, true), RetryStep::Return);
    assert_eq!(next_retry(1, 3, false), RetryStep::Wait(200));
    assert_eq!(next_retry(2, 3, false), RetryStep::GiveUp);
    assert_eq!(give_up_error(None), "All retry attempts failed");
    assert_eq!(give_up_error(Some("timeout".to_string())), "timeout");
}

#[test]
fn percent_encoding_keeps_unreserved_bytes() {
    assert_eq!(mini_magentic::encode::url_encode("a-Z_0.~"), "a-Z_0.~");
    assert_eq!(mini_magentic::encode::url_encode("rust book?&"), "rust%20book%3F%26");
    assert_eq!(mini_magentic::encode::url_encode("é"), "%C3%A9");
    assert_eq!(mini_magentic::encode::url_encode(""), "");
}

#[test]
fn line_break_runs_become_one_space() {
    assert_eq!(mini_magentic::encode::collapse_newlines("a\n\r\nb\nc"), "a b c");
    assert_eq!(mini_magentic::encode::collapse_newlines("\n\nx\r"), " x ");
    assert_eq!(mini_magentic::encode::collapse_newlines("plain"), "plain");
}
