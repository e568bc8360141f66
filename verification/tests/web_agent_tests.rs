use mini_magentic::assoc::Assoc;
use mini_magentic::json::{JsonNumber, JsonValue};
use mini_magentic::llm_client::LLMResponse;
use mini_magentic::message::{ChatMessage, FunctionCall, Message, MessageRole, MessageType, MultiModalContent};
use mini_magentic::string_map::StringMap;
use mini_magentic::web_agent::{
    all_responses_text, check_llm_responses, focused_label, offered_tool_names, page_prompt, plan_tool_call,
    rekey_rects, reverse_mapping, single_function_call, url_verdict, next_turn_action, BrowserCommand, BrowserOutcome, ToolCallStep, TurnAction,
    ToolStep, WebAgent, WebAgentError, WebSession,
};
use mini_magentic::web_page::InteractiveRegion;
use mini_magentic::url_status::{UrlStatus, UrlStatusManager};

fn obj(fields: Vec<(&str, JsonValue)>) -> JsonValue {
    JsonValue::Object(fields.into_iter().map(|(k, v)| (k.to_string(), v)).collect())
}

fn s(x: &str) -> JsonValue {
    JsonValue::String(x.to_string())
}

fn region(tag: &str, role: &str, name: Option<&str>) -> InteractiveRegion {
    InteractiveRegion { tag_name: tag.to_string(), role: role.to_string(), aria_name: name.map(|n| n.to_string()) }
}

fn all_tools() -> Vec<String> {
    [
        "click", "input_text", "hover", "select_option", "upload_file", "click_full", "answer_question", "visit_url",
        "web_search", "history_back", "refresh_page", "page_up", "page_down", "scroll_down", "scroll_up", "sleep",
        "stop_action", "summarize_page", "create_tab", "switch_tab", "close_tab", "keypress",
    ]
    .iter()
    .map(|t| t.to_string())
    .collect()
}

fn page() -> (Assoc<InteractiveRegion>, StringMap) {
    let mut rects = Assoc::new();
    rects.insert("1".to_string(), region("button", "button", Some("  Submit  ")));
    rects.insert("2".to_string(), region("input", "", None));
    rects.insert("5".to_string(), region("input", "textbox", Some("Search")));
    let mut mapping = StringMap::new();
    mapping.insert("1".to_string(), "el-7".to_string());
    mapping.insert("2".to_string(), "el-9".to_string());
    mapping.insert("5".to_string(), "el-5".to_string());
    (rects, mapping)
}

#[test]
fn verdict_approves_open_urls() {
    let (msg, ok, last) = url_verdict("https://example.com", None, false, true);
    assert_eq!(msg, "");
    assert!(ok);
    assert_eq!(last, None);
}

#[test]
fn verdict_blocked_and_not_allowed() {
    let (msg, ok, last) = url_verdict("https://bad.com", Some("x".to_string()), true, false);
    assert_eq!(msg, "I am not allowed to visit the website https://bad.com because it has been blocked.");
    assert!(!ok);
    assert_eq!(last, Some("x".to_string()));
    let (msg, ok, last) = url_verdict("https://other.com", None, false, false);
    assert_eq!(
        msg,
        "I am not allowed to visit the website https://other.com because it is not in the list of websites I can access and the user has declined to allow it."
    );
    assert!(!ok);
    assert_eq!(last, Some("https://other.com".to_string()));
}

#[test]
fn verdict_reports_declined_site_on_error_page() {
    let (msg, ok, last) = url_verdict("chrome-error://chromewebdata/", Some("https://other.com".to_string()), false, true);
    assert_eq!(
        msg,
        "I am not allowed to visit the website https://other.com because it is not in the list of websites I can access and the use has declined to approve it."
    );
    assert!(!ok);
    assert_eq!(last, None);
}

#[test]
fn default_agent_approves_every_url() {
    let mut agent = WebAgent::new();
    assert_eq!(agent.name(), "WebAgent");
    let (msg, ok) = agent.check_url_and_generate_msg("https://www.bing.com", false);
    assert_eq!(msg, "");
    assert!(ok);
}

#[test]
fn click_resolves_target_through_mapping() {
    let (rects, mapping) = page();
    let plan = plan_tool_call("click", &obj(vec![("target_id", s("1"))]), &all_tools(), &rects, &mapping);
    assert!(plan.checks.is_empty());
    assert_eq!(
        plan.outcome,
        Ok(ToolStep::Run {
            command: BrowserCommand::Click { target: "el-7".to_string(), button: "left".to_string() },
            description: "I clicked 'Submit'.".to_string(),
        })
    );
}

#[test]
fn click_accepts_numeric_target() {
    let (rects, mapping) = page();
    let args = obj(vec![("target_id", JsonValue::Number(JsonNumber::PosInt(2)))]);
    let plan = plan_tool_call("hover", &args, &all_tools(), &rects, &mapping);
    assert_eq!(
        plan.outcome,
        Ok(ToolStep::Run { command: BrowserCommand::Hover("el-9".to_string()), description: "I hovered over the control.".to_string() })
    );
}

#[test]
fn click_errors() {
    let (rects, mapping) = page();
    let plan = plan_tool_call("click", &obj(vec![]), &all_tools(), &rects, &mapping);
    assert_eq!(plan.outcome, Err(WebAgentError::MissingArgument("'target_id' is required".to_string())));
    let plan = plan_tool_call("click", &obj(vec![("target_id", JsonValue::Bool(true))]), &all_tools(), &rects, &mapping);
    assert_eq!(plan.outcome, Err(WebAgentError::BadTargetId));
    assert_eq!(WebAgentError::BadTargetId.to_string(), "'target_id' must be a string or number");
    let plan = plan_tool_call("click", &obj(vec![("target_id", s("42"))]), &all_tools(), &rects, &mapping);
    assert_eq!(plan.outcome, Err(WebAgentError::TargetNotInMapping("42".to_string())));
    assert_eq!(plan.outcome.unwrap_err().to_string(), "Target ID '42' not found in mapping");
}

#[test]
fn click_full_names_button() {
    let (rects, mapping) = page();
    let plan = plan_tool_call(
        "click_full",
        &obj(vec![("target_id", s("2")), ("button", s("right"))]),
        &all_tools(),
        &rects,
        &mapping,
    );
    assert_eq!(
        plan.outcome,
        Ok(ToolStep::Run {
            command: BrowserCommand::Click { target: "el-9".to_string(), button: "right".to_string() },
            description: "I clicked the control with button 'right'".to_string(),
        })
    );
}

#[test]
fn input_text_uses_defaults() {
    let (rects, mapping) = page();
    let args = obj(vec![("input_field_id", JsonValue::Number(JsonNumber::PosInt(5))), ("text_value", s("rust"))]);
    let plan = plan_tool_call("input_text", &args, &all_tools(), &rects, &mapping);
    assert_eq!(
        plan.outcome,
        Ok(ToolStep::Run {
            command: BrowserCommand::Fill {
                target: "el-5".to_string(),
                text: "rust".to_string(),
                press_enter: true,
                delete_existing: false,
            },
            description: "I typed 'rust' into 'Search'.".to_string(),
        })
    );
    let plan = plan_tool_call("input_text", &obj(vec![("text_value", s("x"))]), &all_tools(), &rects, &mapping);
    assert_eq!(plan.outcome.unwrap_err().to_string(), "'input_field_id' is required");
}

#[test]
fn unknown_and_unimplemented_tools() {
    let (rects, mapping) = page();
    let offered = vec!["click".to_string(), "hover".to_string()];
    let plan = plan_tool_call("fly", &obj(vec![]), &offered, &rects, &mapping);
    assert_eq!(plan.outcome.unwrap_err().to_string(), "Unknown tool 'fly'. Please choose from:\n\nclick, hover");
    let plan = plan_tool_call("keypress", &obj(vec![]), &all_tools(), &rects, &mapping);
    assert_eq!(plan.outcome.unwrap_err().to_string(), "Tool 'keypress' is not implemented yet");
}

#[test]
fn visit_url_forms() {
    let (rects, mapping) = page();
    let plan = plan_tool_call("visit_url", &obj(vec![("url", s("https://a.com"))]), &all_tools(), &rects, &mapping);
    assert_eq!(plan.checks, vec!["https://a.com".to_string()]);
    assert_eq!(
        plan.outcome,
        Ok(ToolStep::Run {
            command: BrowserCommand::VisitPage("https://a.com".to_string()),
            description: "I type 'https://a.com' into the browser address bar.".to_string(),
        })
    );
    let plan = plan_tool_call("visit_url", &obj(vec![("url", s("a.com"))]), &all_tools(), &rects, &mapping);
    assert!(matches!(plan.outcome, Ok(ToolStep::Run { command: BrowserCommand::VisitPage(ref u), .. }) if u == "https://a.com"));
    let plan = plan_tool_call("visit_url", &obj(vec![("url", s("rust book"))]), &all_tools(), &rects, &mapping);
    assert_eq!(plan.checks, vec!["rust book".to_string(), "bing.com".to_string()]);
    assert!(matches!(plan.outcome, Ok(ToolStep::Run { command: BrowserCommand::VisitPage(ref u), .. })
        if u == "https://www.bing.com/search?q=rust%20book&FROM=QBLH"));
    let plan = plan_tool_call("visit_url", &obj(vec![]), &all_tools(), &rects, &mapping);
    assert_eq!(plan.outcome.unwrap_err().to_string(), "URL is required");
}

#[test]
fn web_search_checks_site_first() {
    let (rects, mapping) = page();
    let plan = plan_tool_call("web_search", &obj(vec![("query", s("a&b"))]), &all_tools(), &rects, &mapping);
    assert_eq!(plan.checks, vec!["bing.com".to_string()]);
    assert_eq!(
        plan.outcome,
        Ok(ToolStep::Run {
            command: BrowserCommand::VisitPage("https://www.bing.com/search?q=a%26b&FORM=QBLH".to_string()),
            description: "I typed 'a&b' into the browser search bar.".to_string(),
        })
    );
    let plan = plan_tool_call("web_search", &obj(vec![]), &all_tools(), &rects, &mapping);
    assert_eq!(plan.checks, vec!["bing.com".to_string()]);
    assert_eq!(plan.outcome.unwrap_err().to_string(), "Query is required");
}

#[test]
fn scroll_sleep_tabs_and_stop() {
    let (rects, mapping) = page();
    let tools = all_tools();
    let p = plan_tool_call("scroll_down", &obj(vec![]), &tools, &rects, &mapping);
    assert_eq!(
        p.outcome,
        Ok(ToolStep::Run { command: BrowserCommand::ScrollDown(400), description: "I scrolled down 400 pixels in the browser.".to_string() })
    );
    let p = plan_tool_call("scroll_up", &obj(vec![("pixels", JsonValue::Number(JsonNumber::NegInt(-20)))]), &tools, &rects, &mapping);
    assert_eq!(
        p.outcome,
        Ok(ToolStep::Run { command: BrowserCommand::ScrollUp(-20), description: "I scrolled up -20 pixels in the browser.".to_string() })
    );
    let p = plan_tool_call("sleep", &obj(vec![]), &tools, &rects, &mapping);
    assert_eq!(p.outcome, Ok(ToolStep::Run { command: BrowserCommand::Sleep(1000), description: "I waited 1000 seconds.".to_string() }));
    let p = plan_tool_call("sleep", &obj(vec![("explanation", s("wait")), ("seconds", JsonValue::Number(JsonNumber::PosInt(5)))]), &tools, &rects, &mapping);
    assert_eq!(p.outcome, Ok(ToolStep::Run { command: BrowserCommand::Sleep(5), description: "I waited 5 seconds.".to_string() }));
    let p = plan_tool_call("switch_tab", &obj(vec![("tab_index", JsonValue::Number(JsonNumber::PosInt(2)))]), &tools, &rects, &mapping);
    assert_eq!(p.outcome, Ok(ToolStep::Run { command: BrowserCommand::SwitchTab(2), description: "I switched to tab 2.".to_string() }));
    let p = plan_tool_call("close_tab", &obj(vec![]), &tools, &rects, &mapping);
    assert_eq!(p.outcome, Ok(ToolStep::Run { command: BrowserCommand::CloseTab(0), description: "I closed tab 0.".to_string() }));
    let p = plan_tool_call("stop_action", &obj(vec![]), &tools, &rects, &mapping);
    assert_eq!(p.outcome, Ok(ToolStep::Finished("I stopped the action.".to_string())));
    let p = plan_tool_call("stop_action", &obj(vec![("answer", s("42"))]), &tools, &rects, &mapping);
    assert_eq!(p.outcome, Ok(ToolStep::Finished("42".to_string())));
    let p = plan_tool_call("create_tab", &obj(vec![]), &tools, &rects, &mapping);
    assert_eq!(p.checks, vec!["https://www.google.com".to_string()]);
    let p = plan_tool_call("create_tab", &obj(vec![("url", s("  https://x.org "))]), &tools, &rects, &mapping);
    assert_eq!(
        p.outcome,
        Ok(ToolStep::Run {
            command: BrowserCommand::NewTab("https://x.org".to_string()),
            description: "I created a new tab and navigated to 'https://x.org'.".to_string(),
        })
    );
}

#[test]
fn tool_call_with_open_policy_keeps_plan() {
    let (rects, mapping) = page();
    let mut agent = WebAgent::new();
    let step = agent.begin_tool_call("visit_url", &obj(vec![("url", s("rust book"))]), &all_tools(), &rects, &mapping, 0, None);
    assert!(matches!(step, ToolCallStep::Done(Ok(ToolStep::Run { command: BrowserCommand::VisitPage(_), .. }))));
}

#[test]
fn completing_tool_calls() {
    let mut agent = WebAgent::new();
    let r = agent.complete_tool_call(&BrowserCommand::GoBack, "I clicked the browser back button.".to_string(), BrowserOutcome::WentBack(false), false);
    assert_eq!(r, "No previous page in the browser history or couldn't navigate back.");
    let r = agent.complete_tool_call(
        &BrowserCommand::Click { target: "a".to_string(), button: "left".to_string() },
        "I clicked 'A'.".to_string(),
        BrowserOutcome::Clicked(Some("https://new.page".to_string())),
        false,
    );
    assert_eq!(r, "I clicked 'A'.");
}

#[test]
fn exactly_one_call() {
    let call = FunctionCall { id: "1".to_string(), name: "click".to_string(), arguments: "{}".to_string() };
    assert!(single_function_call(&vec![call.clone()]).is_ok());
    let e = single_function_call(&vec![call.clone(), call]).unwrap_err();
    assert_eq!(e.to_string(), "Expected exactly one function call");
    assert!(single_function_call(&vec![]).is_err());
}

#[test]
fn offered_tools_depend_on_tabs() {
    let one = offered_tool_names(1);
    assert_eq!(one.len(), 12);
    assert_eq!(one[0], "stop_action");
    assert_eq!(one[11], "create_tab");
    let two = offered_tool_names(2);
    assert_eq!(two.len(), 14);
    assert_eq!(two[12], "switch_tab");
    assert_eq!(two[13], "close_tab");
}

#[test]
fn llm_errors_fail_the_request() {
    let ok = check_llm_responses(vec![LLMResponse::Text("hi".to_string())]).unwrap();
    assert!(!ok.1);
    let calls = check_llm_responses(vec![LLMResponse::FunctionCalls(vec![])]).unwrap();
    assert!(calls.1);
    let err = check_llm_responses(vec![LLMResponse::Text("a".to_string()), LLMResponse::Error("boom".to_string())]).unwrap_err();
    assert_eq!(err, "LLM Error: boom");
}

#[test]
fn session_account() {
    let a = vec!["'click ({})'".to_string(), "'sleep ({})'".to_string(), "extra".to_string()];
    let r = vec!["done".to_string(), "waited".to_string()];
    assert_eq!(
        all_responses_text(&a, &r),
        "The actions the websurfer performed are the following.\n\n Action: 'click ({})'\nObservation: done\n\n\n Action: 'sleep ({})'\nObservation: waited\n\n"
    );
}

#[test]
fn session_records_and_finishes() {
    let mut agent = WebAgent::new();
    agent.ingest_messages(Message {
        from: "user".to_string(),
        to: "web".to_string(),
        chat_history: vec![
            ChatMessage::new_text(MessageRole::User, "u".to_string(), "first".to_string()),
            ChatMessage::new_multimodal(MessageRole::User, "u".to_string(), vec![MultiModalContent::Text("pic".to_string())]),
            ChatMessage::new_text(MessageRole::User, "u".to_string(), "last".to_string()),
        ],
        msg_type: MessageType::Execute,
    });
    let mut session = WebSession::new();
    agent.record_text_response(&mut session, "Home", "I am done");
    assert_eq!(session.actions_proposed, vec!["On the webpage 'Home', we propose the following action: I am done".to_string()]);
    let args = JsonValue::Object(vec![("answer".to_string(), s("yes")), ("explanation".to_string(), s("why"))]);
    agent.record_proposed_action(&mut session, "Home", "https://h", "stop_action", &args, "{\"answer\":\"yes\"}");
    assert_eq!(session.actions_proposed[1], "'stop_action ({\"answer\":\"yes\"})'");
    assert_eq!(session.observations, vec!["yes".to_string()]);
    assert_eq!(session.emitted_responses, vec!["I am done".to_string(), "yes".to_string(), "why".to_string()]);
    let stop = agent.record_action_result(&mut session, "stop_action", "yes".to_string(), "page", vec![1, 2]);
    assert!(stop);
    assert_eq!(session.observations[1], "'yes' \n\n 'page'");
    let msg = agent.finish_session(&session, "text", None, "hash".to_string());
    match msg {
        ChatMessage::MultiModal { role, source, content, .. } => {
            assert_eq!(role, MessageRole::Assistant);
            assert_eq!(source, "WebAgent");
            assert_eq!(content.len(), 2);
            match &content[0] {
                MultiModalContent::Text(t) => assert!(t.starts_with("\n\nThe actions the websurfer performed are the following.\n")),
                _ => panic!("expected text"),
            }
            assert_eq!(content[1], MultiModalContent::Image(vec![]));
        }
        _ => panic!("expected multimodal"),
    }
}

#[test]
fn page_prompt_is_trimmed() {
    let lines = vec!["{\"id\":1}".to_string()];
    let p = page_prompt(1, "Tab 0: T (u)", "body", "https://u", &lines, "", "");
    assert!(p.starts_with("The last request received was:"));
    assert!(p.contains("There are 1 tabs open. The tabs are as follows:\nTab 0: T (u)"));
    assert!(p.ends_with("{\"id\":1}"));
}

#[test]
fn labels_turn_back_into_ids() {
    let mut mapping = StringMap::new();
    mapping.insert("1".to_string(), "el-7".to_string());
    let reverse = reverse_mapping(&mapping);
    assert_eq!(reverse.get("el-7").map(|s| s.as_str()), Some("1"));
    let mut rects = Assoc::new();
    rects.insert("el-7".to_string(), region("a", "link", Some("Home")));
    rects.insert("el-8".to_string(), region("a", "link", None));
    let rekeyed = rekey_rects(&rects, &reverse);
    assert!(rekeyed.contains_key("1"));
    assert!(rekeyed.contains_key("el-8"));
    assert!(!rekeyed.contains_key("el-7"));
    assert_eq!(focused_label("el-7", &reverse), "1");
    assert_eq!(focused_label("zz", &reverse), "zz");
}

#[test]
fn click_names_the_element_under_its_label() {
    let mut rects = Assoc::new();
    rects.insert("5".to_string(), region("input", "searchbox", Some("Search")));
    let mut mapping = StringMap::new();
    mapping.insert("5".to_string(), "e5".to_string());
    let args = obj(vec![("explanation", s("x")), ("target_id", JsonValue::Number(JsonNumber::PosInt(5)))]);
    let plan = plan_tool_call("click", &args, &all_tools(), &rects, &mapping);
    assert_eq!(
        plan.outcome,
        Ok(ToolStep::Run {
            command: BrowserCommand::Click { target: "e5".to_string(), button: "left".to_string() },
            description: "I clicked 'Search'.".to_string(),
        })
    );
    let plan = plan_tool_call("hover", &args, &all_tools(), &rects, &mapping);
    assert_eq!(
        plan.outcome,
        Ok(ToolStep::Run { command: BrowserCommand::Hover("e5".to_string()), description: "I hovered over 'Search'.".to_string() })
    );
}

/// Checks `url` as the agent's driver does: where the agent asks, the
/// request is recorded in `asked` and `answer` is given.
fn check_with_answer(agent: &mut WebAgent, url: &str, answer: bool, asked: &mut Vec<String>) -> (String, bool) {
    if let Some(request) = agent.url_check_step(url) {
        assert_eq!(request.base.source.as_deref(), Some("WebAgent"));
        asked.push(request.content);
    }
    agent.check_url_and_generate_msg(url, answer)
}

fn restricted_agent() -> WebAgent {
    WebAgent::with_policy(UrlStatusManager::new(
        Some(vec![("example.com".to_string(), UrlStatus::Allowed)]),
        Some(vec!["bad.org".to_string()]),
    ))
}

#[test]
fn blocked_and_allowed_sites_need_no_approval() {
    let mut agent = restricted_agent();
    let mut asked = Vec::new();
    let (msg, ok) = check_with_answer(&mut agent, "http://bad.org/x", true, &mut asked);
    assert_eq!(msg, "I am not allowed to visit the website http://bad.org/x because it has been blocked.");
    assert!(!ok);
    let (msg, ok) = check_with_answer(&mut agent, "https://www.example.com/a", true, &mut asked);
    assert_eq!(msg, "");
    assert!(ok);
    assert!(asked.is_empty());
}

#[test]
fn approved_domain_is_recorded() {
    let mut agent = restricted_agent();
    let mut asked = Vec::new();
    let (msg, ok) = check_with_answer(&mut agent, "https://news.other.com/page", true, &mut asked);
    assert_eq!((msg.as_str(), ok), ("", true));
    assert_eq!(
        asked,
        vec!["The website https://news.other.com/page is not allowed. Would you like to allow the domain other.com for this session?".to_string()]
    );
    let (_, ok) = check_with_answer(&mut agent, "https://other.com/else", true, &mut asked);
    assert!(ok);
    assert_eq!(asked.len(), 1);
}

#[test]
fn declined_domain_is_recorded_and_reported() {
    let mut agent = restricted_agent();
    let declined = "I am not allowed to visit the website https://other.com because it is not in the list of websites I can access and the user has declined to allow it.";
    let mut asked = Vec::new();
    let (msg, ok) = check_with_answer(&mut agent, "https://other.com", false, &mut asked);
    assert_eq!((msg.as_str(), ok), (declined, false));
    assert_eq!(asked.len(), 1);
    let (msg, ok) = check_with_answer(&mut agent, "https://other.com", true, &mut asked);
    assert_eq!((msg.as_str(), ok), (declined, false));
    assert_eq!(asked.len(), 1);
    let (msg, ok) = check_with_answer(&mut agent, "chrome-error://chromewebdata/", true, &mut asked);
    assert_eq!(
        msg,
        "I am not allowed to visit the website https://other.com because it is not in the list of websites I can access and the use has declined to approve it."
    );
    assert!(!ok);
}

#[test]
fn the_answer_decides_an_unlisted_site() {
    let mut yes = restricted_agent();
    let mut no = restricted_agent();
    assert!(yes.check_url_and_generate_msg("https://third.net", true).1);
    assert!(!no.check_url_and_generate_msg("https://third.net", false).1);
    assert!(yes.check_url_and_generate_msg("https://third.net/again", false).1);
    assert!(!no.check_url_and_generate_msg("https://third.net/again", true).1);
    assert!(yes.url_check_step("https://third.net/more").is_none());
    assert!(no.url_check_step("https://third.net/more").is_none());
}

#[test]
fn tool_calls_are_refused_for_declined_sites() {
    let (rects, mapping) = page();
    let mut agent = restricted_agent();
    let args = obj(vec![("url", s("https://other.com"))]);
    let step = agent.begin_tool_call("visit_url", &args, &all_tools(), &rects, &mapping, 0, None);
    let next = match step {
        ToolCallStep::Ask { request, next } => {
            assert_eq!(
                request.content,
                "The website https://other.com is not allowed. Would you like to allow the domain other.com for this session?"
            );
            next
        },
        other => panic!("expected a request, got {:?}", other),
    };
    assert_eq!(next, 0);
    let step = agent.begin_tool_call("visit_url", &args, &all_tools(), &rects, &mapping, next, Some(false));
    assert!(matches!(step, ToolCallStep::Done(Ok(ToolStep::Finished(m))) if m.contains("declined to allow it")));
    let step = agent.begin_tool_call("visit_url", &args, &all_tools(), &rects, &mapping, 0, None);
    assert!(matches!(step, ToolCallStep::Done(Ok(ToolStep::Finished(m))) if m.contains("declined to allow it")));
    let step = agent.begin_tool_call("visit_url", &obj(vec![("url", s("https://example.com/x"))]), &all_tools(), &rects, &mapping, 0, None);
    assert!(matches!(step, ToolCallStep::Done(Ok(ToolStep::Run { command: BrowserCommand::VisitPage(_), .. }))));
}

#[test]
fn tool_call_resumes_after_approval() {
    let (rects, mapping) = page();
    let mut agent = restricted_agent();
    let args = obj(vec![("url", s("https://other.com/p"))]);
    let step = agent.begin_tool_call("visit_url", &args, &all_tools(), &rects, &mapping, 0, None);
    assert!(matches!(step, ToolCallStep::Ask { next: 0, .. }));
    let step = agent.begin_tool_call("visit_url", &args, &all_tools(), &rects, &mapping, 0, Some(true));
    assert!(matches!(step, ToolCallStep::Done(Ok(ToolStep::Run { command: BrowserCommand::VisitPage(_), .. }))));
    let step = agent.begin_tool_call("visit_url", &args, &all_tools(), &rects, &mapping, 0, None);
    assert!(matches!(step, ToolCallStep::Done(Ok(ToolStep::Run { .. }))));
}

#[test]
fn the_first_answer_decides_the_step() {
    let call = FunctionCall { id: "1".to_string(), name: "click".to_string(), arguments: "{}".to_string() };
    let a = next_turn_action(vec![LLMResponse::Text("done".to_string()), LLMResponse::Error("x".to_string())]);
    assert!(matches!(&a, TurnAction::Respond(t) if t == "done"));
    assert!(a.ends_session());
    let a = next_turn_action(vec![LLMResponse::FunctionCalls(vec![call])]);
    assert!(matches!(&a, TurnAction::Act(c) if c.len() == 1 && c[0].name == "click"));
    assert!(!a.ends_session());
    let a = next_turn_action(vec![LLMResponse::Error("boom".to_string())]);
    assert!(matches!(&a, TurnAction::Fail(e) if e == "boom"));
    assert!(a.ends_session());
    let a = next_turn_action(vec![]);
    assert!(matches!(a, TurnAction::Skip));
    assert!(!a.ends_session());
}

#[test]
fn a_page_opened_by_a_click_is_checked_with_the_answer() {
    let click = BrowserCommand::Click { target: "a".to_string(), button: "left".to_string() };
    let opened = || BrowserOutcome::Clicked(Some("https://fresh.io/x".to_string()));
    let mut agent = restricted_agent();
    let request = agent.url_check_step("https://fresh.io/x").expect("the page needs approval");
    assert_eq!(
        request.content,
        "The website https://fresh.io/x is not allowed. Would you like to allow the domain fresh.io for this session?"
    );
    let r = agent.complete_tool_call(&click, "I clicked 'A'.".to_string(), opened(), true);
    assert_eq!(r, "I clicked 'A'.");
    assert!(agent.url_check_step("https://fresh.io/y").is_none());
    let mut agent = restricted_agent();
    let r = agent.complete_tool_call(&click, "I clicked 'A'.".to_string(), opened(), false);
    assert_eq!(
        r,
        "I am not allowed to visit the website https://fresh.io/x because it is not in the list of websites I can access and the user has declined to allow it."
    );
}
