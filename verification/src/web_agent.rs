//! The browsing agent's decisions: whether a URL may be visited, what a
//! tool call asks the browser to do and what it reports, and how a session
//! of actions is recorded and summed up. The browser and the model are
//! driven by the caller, which hands back what they answered.

use vstd::prelude::*;
use crate::assoc::Assoc;
use crate::encode::{percent_encoded, url_encode};
use crate::llm_client::LLMResponse;
use crate::json::{get_bool, get_i64, get_str, json_get, JsonNumber, JsonValue};
use crate::message::{
    assistant_message_tag, llm_history_view, user_message_tag, AssistantContent, AssistantContentView, AssistantMessage,
    ChatMessage, ChatMessageView, FunctionCall, LLMMessage, LLMMessageView, Message, MessageRole, MessageType,
    MultiModalContent, MultiModalContentView, UserContent, UserContentView, UserMessage, history_view, parts_view,
};
use crate::string_map::StringMap;
use crate::text::{
    concat, contains_char, decimal, i64_to_string, join, join_spec, signed_decimal, starts_with, str_eq, trim,
    trim_spec, u64_to_string, usize_to_string, views,
};
use crate::url_status::{pv_allows, pv_blocks, pv_domain, pv_has_match_with, pv_record, PolicyView, UrlStatus, UrlStatusManager};
use crate::plan::{BaseMessage, TextMessage};
use crate::web_page::{target_name, target_name_spec, vec_contains, InteractiveRegion};

verus! {

/// Settings of a browsing agent.
#[derive(Debug, Clone)]
pub struct WebAgentConfig {
    pub name: String,
    pub model_context_token_limit: Option<usize>,
    pub downloads_folder: Option<String>,
    pub description: Option<String>,
    pub debug_dir: Option<String>,
    pub start_page: Option<String>,
    pub animate_actions: bool,
    pub to_save_screenshots: bool,
    pub max_actions_per_step: usize,
    pub to_resize_viewport: bool,
    pub url_block_list: Option<Vec<String>>,
    pub single_tab_mode: bool,
    pub json_model_output: bool,
    pub multiple_tools_per_call: bool,
    pub viewport_height: usize,
    pub viewport_width: usize,
    pub use_action_guard: bool,
}

/// A piece of what an action produced: text or a screenshot.
#[derive(Debug, Clone)]
pub enum ContentItem {
    Text(String),
    Image(Vec<u8>),
}

/// Why a tool call failed.
#[derive(Debug, Clone, PartialEq)]
pub enum WebAgentError {
    /// The model asked for more or fewer than one call at once.
    ExpectedOneCall,
    /// The tool is not among those offered; holds its name and the offered names.
    UnknownTool(String, String),
    /// The tool is offered but has no implementation.
    NotImplemented(String),
    /// A required argument is missing; holds the message.
    MissingArgument(String),
    /// The `target_id` argument is neither a string nor a number.
    BadTargetId,
    /// The target id has no element; holds the id.
    TargetNotInMapping(String),
    /// The input field id has no element; holds the id.
    InputNotInMapping(String),
}

/// Mathematical form of a tool-call error.
pub enum WebAgentErrorView {
    ExpectedOneCall,
    UnknownTool(Seq<char>, Seq<char>),
    NotImplemented(Seq<char>),
    MissingArgument(Seq<char>),
    BadTargetId,
    TargetNotInMapping(Seq<char>),
    InputNotInMapping(Seq<char>),
}

impl View for WebAgentError {
    type V = WebAgentErrorView;

    open spec fn view(&self) -> WebAgentErrorView {
        match self {
            WebAgentError::ExpectedOneCall => WebAgentErrorView::ExpectedOneCall,
            WebAgentError::UnknownTool(n, a) => WebAgentErrorView::UnknownTool(n@, a@),
            WebAgentError::NotImplemented(n) => WebAgentErrorView::NotImplemented(n@),
            WebAgentError::MissingArgument(m) => WebAgentErrorView::MissingArgument(m@),
            WebAgentError::BadTargetId => WebAgentErrorView::BadTargetId,
            WebAgentError::TargetNotInMapping(t) => WebAgentErrorView::TargetNotInMapping(t@),
            WebAgentError::InputNotInMapping(t) => WebAgentErrorView::InputNotInMapping(t@),
        }
    }
}

/// The message of a tool-call error.
pub open spec fn error_message(e: WebAgentErrorView) -> Seq<char> {
    match e {
        WebAgentErrorView::ExpectedOneCall => "Expected exactly one function call"@,
        WebAgentErrorView::UnknownTool(n, a) => "Unknown tool '"@ + n + "'. Please choose from:\n\n"@ + a,
        WebAgentErrorView::NotImplemented(n) => "Tool '"@ + n + "' is not implemented yet"@,
        WebAgentErrorView::MissingArgument(m) => m,
        WebAgentErrorView::BadTargetId => "'target_id' must be a string or number"@,
        WebAgentErrorView::TargetNotInMapping(t) => "Target ID '"@ + t + "' not found in mapping"@,
        WebAgentErrorView::InputNotInMapping(t) => "Input field ID '"@ + t + "' not found in mapping"@,
    }
}

impl WebAgentError {
    /// The error's message (see `error_message`).
    pub fn to_string(&self) -> (r: String)
        ensures
            r@ == error_message(self@),
    {
        match self {
            WebAgentError::ExpectedOneCall => String::from_str("Expected exactly one function call"),
            WebAgentError::UnknownTool(n, a) => {
                let mut r = String::from_str("Unknown tool '");
                r.append(n.as_str());
                r.append("'. Please choose from:\n\n");
                r.append(a.as_str());
                r
            },
            WebAgentError::NotImplemented(n) => {
                let mut r = String::from_str("Tool '");
                r.append(n.as_str());
                r.append("' is not implemented yet");
                r
            },
            WebAgentError::MissingArgument(m) => m.clone(),
            WebAgentError::BadTargetId => String::from_str("'target_id' must be a string or number"),
            WebAgentError::TargetNotInMapping(t) => {
                let mut r = String::from_str("Target ID '");
                r.append(t.as_str());
                r.append("' not found in mapping");
                r
            },
            WebAgentError::InputNotInMapping(t) => {
                let mut r = String::from_str("Input field ID '");
                r.append(t.as_str());
                r.append("' not found in mapping");
                r
            },
        }
    }
}

// ---------------------------------------------------------------------------
// Whether a URL may be visited.

/// The page the browser shows when it refused to load one.
pub open spec fn chrome_error_url() -> Seq<char> {
    "chrome-error://chromewebdata/"@
}

/// Answer after the browser refused a page the user had declined.
pub open spec fn declined_message(url: Seq<char>) -> Seq<char> {
    "I am not allowed to visit the website "@ + url
        + " because it is not in the list of websites I can access and the use has declined to approve it."@
}

/// Answer for a blocked URL.
pub open spec fn blocked_message(url: Seq<char>) -> Seq<char> {
    "I am not allowed to visit the website "@ + url + " because it has been blocked."@
}

/// Answer for a URL outside the allowed sites.
pub open spec fn not_allowed_message(url: Seq<char>) -> Seq<char> {
    "I am not allowed to visit the website "@ + url
        + " because it is not in the list of websites I can access and the user has declined to allow it."@
}

/// The verdict on visiting `url`, given the last refused URL and whether
/// the site policy blocks and allows it: the answer (empty when approved),
/// whether it is approved, and the last refused URL afterwards.
pub open spec fn url_verdict_spec(url: Seq<char>, last_rejected: Option<Seq<char>>, blocked: bool, allowed: bool) -> (
    Seq<char>,
    bool,
    Option<Seq<char>>,
) {
    if url == chrome_error_url() && last_rejected is Some {
        (declined_message(last_rejected->0), false, None)
    } else if blocked {
        (blocked_message(url), false, last_rejected)
    } else if !allowed {
        (not_allowed_message(url), false, Some(url))
    } else {
        (Seq::empty(), true, last_rejected)
    }
}

/// View of an optional string.
pub open spec fn opt_str(o: Option<String>) -> Option<Seq<char>> {
    match o {
        Some(s) => Some(s@),
        None => None,
    }
}

/// The verdict on visiting `url` (see `url_verdict_spec`).
pub fn url_verdict(url: &str, last_rejected: Option<String>, blocked: bool, allowed: bool) -> (r: (String, bool, Option<String>))
    ensures
        (r.0@, r.1, opt_str(r.2)) == url_verdict_spec(url@, opt_str(last_rejected), blocked, allowed),
{
    if str_eq(url, "chrome-error://chromewebdata/") && last_rejected.is_some() {
        let u = match last_rejected {
            Some(u) => u,
            None => String::new(),
        };
        let mut msg = String::from_str("I am not allowed to visit the website ");
        msg.append(u.as_str());
        msg.append(" because it is not in the list of websites I can access and the use has declined to approve it.");
        return (msg, false, None);
    }
    if blocked {
        let mut msg = String::from_str("I am not allowed to visit the website ");
        msg.append(url);
        msg.append(" because it has been blocked.");
        (msg, false, last_rejected)
    } else if !allowed {
        let mut msg = String::from_str("I am not allowed to visit the website ");
        msg.append(url);
        msg.append(" because it is not in the list of websites I can access and the user has declined to allow it.");
        (msg, false, Some(String::from_str(url)))
    } else {
        (String::new(), true, last_rejected)
    }
}

/// Whether visiting `url` needs the user's approval: it is not the
/// browser's error page after a refusal, the policy neither blocks nor
/// allows it, and it was not rejected before.
pub open spec fn needs_approval(p: PolicyView, last: Option<Seq<char>>, url: Seq<char>) -> bool {
    &&& !(url == chrome_error_url() && last is Some)
    &&& !pv_blocks(p, url)
    &&& !pv_allows(p, url)
    &&& !pv_has_match_with(p, url, UrlStatus::Rejected)
}

/// The check of `url` under policy `p` with last refused URL `last`, given
/// the user's answer `approved` where approval is needed: the answer
/// (empty when the visit is approved), whether it is approved, the last
/// refused URL afterwards and the policy afterwards. An approved or
/// declined site's domain is recorded with that verdict.
pub open spec fn url_check_spec(p: PolicyView, last: Option<Seq<char>>, url: Seq<char>, approved: bool) -> (
    Seq<char>,
    bool,
    Option<Seq<char>>,
    PolicyView,
) {
    if needs_approval(p, last, url) {
        let d = pv_domain(p, url);
        if approved {
            (Seq::empty(), true, last, pv_record(p, d, UrlStatus::Allowed))
        } else {
            (not_allowed_message(url), false, Some(url), pv_record(p, d, UrlStatus::Rejected))
        }
    } else {
        let v = url_verdict_spec(url, last, pv_blocks(p, url), pv_allows(p, url));
        (v.0, v.1, v.2, p)
    }
}

/// The question put to the user about a site outside the allowed ones.
pub open spec fn approval_text(url: Seq<char>, domain: Seq<char>) -> Seq<char> {
    "The website "@ + url + " is not allowed. Would you like to allow the domain "@ + domain + " for this session?"@
}

/// The request asking the user whether the domain of `url` may be visited.
pub fn approval_request(source: &str, url: &str, domain: &str) -> (m: TextMessage)
    ensures
        m.base.source matches Some(s) && s@ == source@,
        m.base.metadata@ == Map::<Seq<char>, Seq<char>>::empty(),
        m.base.timestamp is None,
        m.content@ == approval_text(url@, domain@),
{
    let mut c = String::from_str("The website ");
    c.append(url);
    c.append(" is not allowed. Would you like to allow the domain ");
    c.append(domain);
    c.append(" for this session?");
    TextMessage {
        base: BaseMessage { source: Some(String::from_str(source)), metadata: StringMap::new(), timestamp: None },
        content: c,
    }
}

/// How the checks of a tool call's URLs, run from check `start` on, end:
/// either a check needs the user's approval and no answer is at hand (the
/// check, its URL and domain, and the state the earlier checks left), or
/// the run is done (the first refusal's answer, if any, and the state it
/// left).
pub enum CheckRun {
    Ask { index: int, url: Seq<char>, domain: Seq<char>, last: Option<Seq<char>>, policy: PolicyView },
    Done { refusal: Option<Seq<char>>, last: Option<Seq<char>>, policy: PolicyView },
}

/// The checks of `checks` from index `i` on, under policy `p` with last
/// refused URL `last`; `answer` is the user's answer for check `i`, if it
/// was asked. A check that needs approval with no answer stops the run;
/// one that needs none is decided by the policy; the first refusal ends it.
pub open spec fn checks_from(
    p: PolicyView,
    last: Option<Seq<char>>,
    checks: Seq<Seq<char>>,
    i: int,
    answer: Option<bool>,
) -> CheckRun
    decreases checks.len() - i,
{
    if i < 0 || i >= checks.len() {
        CheckRun::Done { refusal: None, last, policy: p }
    } else {
        let u = checks[i];
        let asked = needs_approval(p, last, u);
        if asked && answer is None {
            CheckRun::Ask { index: i, url: u, domain: pv_domain(p, u), last, policy: p }
        } else {
            let v = url_check_spec(p, last, u, if asked { answer->0 } else { false });
            if !v.1 {
                CheckRun::Done { refusal: Some(v.0), last: v.2, policy: v.3 }
            } else {
                checks_from(v.3, v.2, checks, i + 1, None)
            }
        }
    }
}

/// Whether `m` is the approval request from `source` about `url` and its
/// domain `domain` (see `approval_request`).
pub open spec fn is_approval_request(m: TextMessage, source: Seq<char>, url: Seq<char>, domain: Seq<char>) -> bool {
    &&& m.base.source matches Some(s) && s@ == source
    &&& m.base.metadata@ == Map::<Seq<char>, Seq<char>>::empty()
    &&& m.base.timestamp is None
    &&& m.content@ == approval_text(url, domain)
}

/// The next step of a tool call: a request to put to the user before check
/// `next` can be decided, or the call's outcome.
#[derive(Debug)]
pub enum ToolCallStep {
    Ask { request: TextMessage, next: usize },
    Done(Result<ToolStep, WebAgentError>),
}

/// The browsing agent's state: its conversation with the model, the hash
/// of the page it last described, its site policy and the last URL it
/// refused.
#[derive(Debug)]
pub struct WebAgent {
    chat_history: Vec<LLMMessage>,
    prior_metadata_hash: Option<String>,
    url_status_manager: UrlStatusManager,
    last_rejected_url: Option<String>,
    name: String,
}

impl WebAgent {
    /// The conversation kept with the model.
    pub closed spec fn history(&self) -> Seq<LLMMessage> {
        self.chat_history@
    }

    /// Hash of the page last described, if it is still current.
    pub closed spec fn prior_hash(&self) -> Option<Seq<char>> {
        opt_str(self.prior_metadata_hash)
    }

    /// The site policy.
    pub closed spec fn policy(&self) -> UrlStatusManager {
        self.url_status_manager
    }

    /// The last URL refused, if not yet reported.
    pub closed spec fn last_rejected(&self) -> Option<Seq<char>> {
        opt_str(self.last_rejected_url)
    }

    /// The agent's name.
    pub closed spec fn agent_name(&self) -> Seq<char> {
        self.name@
    }

    /// Whether the site policy is well formed.
    pub open spec fn wf(&self) -> bool {
        self.policy().wf()
    }

    /// A new agent named `WebAgent`, with an empty conversation and a site
    /// policy that neither blocks nor restricts any site.
    pub fn new() -> (a: WebAgent)
        ensures
            a.wf(),
            a.history().len() == 0,
            a.prior_hash() is None,
            a.last_rejected() is None,
            a.agent_name() == "WebAgent"@,
            a.policy().statuses() is None,
            a.policy().block_list() is None,
    {
        WebAgent {
            chat_history: Vec::new(),
            prior_metadata_hash: None,
            url_status_manager: UrlStatusManager::new(None, None),
            last_rejected_url: None,
            name: String::from_str("WebAgent"),
        }
    }

    /// A new agent named `WebAgent`, with an empty conversation and the
    /// given site policy.
    pub fn with_policy(url_status_manager: UrlStatusManager) -> (a: WebAgent)
        requires
            url_status_manager.wf(),
        ensures
            a.wf(),
            a.history().len() == 0,
            a.prior_hash() is None,
            a.last_rejected() is None,
            a.agent_name() == "WebAgent"@,
            a.policy() == url_status_manager,
    {
        WebAgent {
            chat_history: Vec::new(),
            prior_metadata_hash: None,
            url_status_manager,
            last_rejected_url: None,
            name: String::from_str("WebAgent"),
        }
    }

    /// The agent's name.
    pub fn name(&self) -> (r: &str)
        ensures
            r@ == self.agent_name(),
    {
        self.name.as_str()
    }

    /// The request to put to the user before `url` can be checked, if the
    /// check needs one (see `needs_approval`): it comes from this agent and
    /// asks about the domain of `url` (see `approval_request`). Where none is
    /// needed, `check_url_and_generate_msg` decides without an answer.
    pub fn url_check_step(&self, url: &str) -> (r: Option<TextMessage>)
        requires
            self.wf(),
        ensures
            r is Some <==> needs_approval(self.policy().pview(), self.last_rejected(), url@),
            r matches Some(m) ==> is_approval_request(m, self.agent_name(), url@, pv_domain(self.policy().pview(), url@)),
    {
        let blocked = self.url_status_manager.is_url_blocked(url);
        let allowed = self.url_status_manager.is_url_allowed(url);
        let error_page = str_eq(url, "chrome-error://chromewebdata/") && self.last_rejected_url.is_some();
        if !error_page && !blocked && !allowed && !self.url_status_manager.is_url_rejected(url) {
            let domain = self.url_status_manager.site_domain(url);
            Some(approval_request(self.name.as_str(), url, domain.as_str()))
        } else {
            None
        }
    }

    /// Decides whether `url` may be visited (see `url_check_spec`), given the
    /// user's answer `approved` to the request of `url_check_step` where one
    /// was needed (it is not read otherwise): returns the answer to report
    /// (empty when approved) and whether the visit is approved. A site put
    /// to the user has its domain recorded as allowed or rejected by the
    /// answer.
    pub fn check_url_and_generate_msg(&mut self, url: &str, approved: bool) -> (r: (String, bool))
        requires
            old(self).wf(),
        ensures
            final(self).wf(),
            ({
                let v = url_check_spec(old(self).policy().pview(), old(self).last_rejected(), url@, approved);
                &&& r.0@ == v.0
                &&& r.1 == v.1
                &&& final(self).last_rejected() == v.2
                &&& final(self).policy().pview() == v.3
            }),
            final(self).history() == old(self).history(),
            final(self).prior_hash() == old(self).prior_hash(),
            final(self).agent_name() == old(self).agent_name(),
    {
        let ghost p0 = self.policy().pview();
        let ghost l0 = self.last_rejected();
        let blocked = self.url_status_manager.is_url_blocked(url);
        let allowed = self.url_status_manager.is_url_allowed(url);
        let error_page = str_eq(url, "chrome-error://chromewebdata/") && self.last_rejected_url.is_some();
        if !error_page && !blocked && !allowed && !self.url_status_manager.is_url_rejected(url) {
            let domain = self.url_status_manager.site_domain(url);
            assert(needs_approval(p0, l0, url@));
            if approved {
                self.url_status_manager.set_url_status(domain.as_str(), UrlStatus::Allowed);
                return (String::new(), true);
            }
            self.url_status_manager.set_url_status(domain.as_str(), UrlStatus::Rejected);
            let (msg, _, _) = url_verdict(url, None, false, false);
            self.last_rejected_url = Some(String::from_str(url));
            return (msg, false);
        }
        let last = self.last_rejected_url.take();
        let (msg, ok, new_last) = url_verdict(url, last, blocked, allowed);
        self.last_rejected_url = new_last;
        assert(!needs_approval(p0, l0, url@));
        (msg, ok)
    }
}

// ---------------------------------------------------------------------------
// What a tool call asks of the browser.

/// A browser operation requested by a tool call.
#[derive(Debug, Clone, PartialEq)]
pub enum BrowserCommand {
    VisitPage(String),
    GoBack,
    Refresh,
    PageUp,
    PageDown,
    ScrollDown(i32),
    ScrollUp(i32),
    Click { target: String, button: String },
    Fill { target: String, text: String, press_enter: bool, delete_existing: bool },
    Hover(String),
    /// Wait for the given number of seconds.
    Sleep(u64),
    NewTab(String),
    SwitchTab(usize),
    CloseTab(usize),
}

/// Mathematical form of a browser operation.
pub enum BrowserCommandView {
    VisitPage(Seq<char>),
    GoBack,
    Refresh,
    PageUp,
    PageDown,
    ScrollDown(i32),
    ScrollUp(i32),
    Click { target: Seq<char>, button: Seq<char> },
    Fill { target: Seq<char>, text: Seq<char>, press_enter: bool, delete_existing: bool },
    Hover(Seq<char>),
    Sleep(u64),
    NewTab(Seq<char>),
    SwitchTab(usize),
    CloseTab(usize),
}

impl View for BrowserCommand {
    type V = BrowserCommandView;

    open spec fn view(&self) -> BrowserCommandView {
        match self {
            BrowserCommand::VisitPage(u) => BrowserCommandView::VisitPage(u@),
            BrowserCommand::GoBack => BrowserCommandView::GoBack,
            BrowserCommand::Refresh => BrowserCommandView::Refresh,
            BrowserCommand::PageUp => BrowserCommandView::PageUp,
            BrowserCommand::PageDown => BrowserCommandView::PageDown,
            BrowserCommand::ScrollDown(p) => BrowserCommandView::ScrollDown(*p),
            BrowserCommand::ScrollUp(p) => BrowserCommandView::ScrollUp(*p),
            BrowserCommand::Click { target, button } => BrowserCommandView::Click { target: target@, button: button@ },
            BrowserCommand::Fill { target, text, press_enter, delete_existing } => BrowserCommandView::Fill {
                target: target@,
                text: text@,
                press_enter: *press_enter,
                delete_existing: *delete_existing,
            },
            BrowserCommand::Hover(t) => BrowserCommandView::Hover(t@),
            BrowserCommand::Sleep(d) => BrowserCommandView::Sleep(*d),
            BrowserCommand::NewTab(u) => BrowserCommandView::NewTab(u@),
            BrowserCommand::SwitchTab(i) => BrowserCommandView::SwitchTab(*i),
            BrowserCommand::CloseTab(i) => BrowserCommandView::CloseTab(*i),
        }
    }
}

/// The next step of a tool call: finished with a result, or a browser
/// operation to run, with the description to report once it has run.
#[derive(Debug, Clone, PartialEq)]
pub enum ToolStep {
    Finished(String),
    Run { command: BrowserCommand, description: String },
}

/// Mathematical form of a tool step.
pub enum ToolStepView {
    Finished(Seq<char>),
    Run { command: BrowserCommandView, description: Seq<char> },
}

impl View for ToolStep {
    type V = ToolStepView;

    open spec fn view(&self) -> ToolStepView {
        match self {
            ToolStep::Finished(r) => ToolStepView::Finished(r@),
            ToolStep::Run { command, description } => ToolStepView::Run { command: command@, description: description@ },
        }
    }
}

/// A tool call worked out: the URLs the site policy must approve first, in
/// order, and the outcome once they are approved.
#[derive(Debug)]
pub struct ToolPlan {
    pub checks: Vec<String>,
    pub outcome: Result<ToolStep, WebAgentError>,
}

/// Mathematical form of a tool plan.
pub struct ToolPlanView {
    pub checks: Seq<Seq<char>>,
    pub outcome: Result<ToolStepView, WebAgentErrorView>,
}

/// View of a tool outcome.
pub open spec fn outcome_view(o: Result<ToolStep, WebAgentError>) -> Result<ToolStepView, WebAgentErrorView> {
    match o {
        Ok(s) => Ok(s@),
        Err(e) => Err(e@),
    }
}

impl View for ToolPlan {
    type V = ToolPlanView;

    open spec fn view(&self) -> ToolPlanView {
        ToolPlanView { checks: views(self.checks@), outcome: outcome_view(self.outcome) }
    }
}

/// A plan with no URL to approve.
pub open spec fn direct(outcome: Result<ToolStepView, WebAgentErrorView>) -> ToolPlanView {
    ToolPlanView { checks: Seq::empty(), outcome }
}

/// A plan that runs `command` and reports `description`.
pub open spec fn run(command: BrowserCommandView, description: Seq<char>) -> Result<ToolStepView, WebAgentErrorView> {
    Ok(ToolStepView::Run { command, description })
}

/// A plan finished with `result`.
pub open spec fn finished(result: Seq<char>) -> Result<ToolStepView, WebAgentErrorView> {
    Ok(ToolStepView::Finished(result))
}

/// The text of a JSON number.
pub open spec fn number_text(n: JsonNumber) -> Seq<char> {
    match n {
        JsonNumber::PosInt(u) => decimal(u as nat),
        JsonNumber::NegInt(i) => signed_decimal(i as int),
        JsonNumber::Float(t) => t@,
    }
}

/// A `target_id` argument as text: a string as it is, a number as printed.
pub open spec fn target_id_text(v: JsonValue) -> Option<Seq<char>> {
    match v {
        JsonValue::String(s) => Some(s@),
        JsonValue::Number(n) => Some(number_text(n)),
        _ => None,
    }
}

/// The element a `target_id` argument designates, through the id mapping.
pub open spec fn resolve_target(args: JsonValue, mapping: Map<Seq<char>, Seq<char>>) -> Result<Seq<char>, WebAgentErrorView> {
    match json_get(args, "target_id"@) {
        None => Err(WebAgentErrorView::MissingArgument("'target_id' is required"@)),
        Some(v) => match target_id_text(v) {
            None => Err(WebAgentErrorView::BadTargetId),
            Some(t) => if mapping.dom().contains(t) {
                Ok(mapping[t])
            } else {
                Err(WebAgentErrorView::TargetNotInMapping(t))
            },
        },
    }
}

/// The label a `target_id` argument gives, as the model saw it (empty when
/// the argument is missing or malformed).
pub open spec fn target_label(args: JsonValue) -> Seq<char> {
    match json_get(args, "target_id"@) {
        Some(v) => match target_id_text(v) {
            Some(t) => t,
            None => Seq::empty(),
        },
        None => Seq::empty(),
    }
}

/// Whether `s` starts with `p`.
pub open spec fn has_prefix(s: Seq<char>, p: Seq<char>) -> bool {
    p.len() <= s.len() && s.subrange(0, p.len() as int) == p
}

/// The search page for `query`; `form` is the search form tag (`QBLH`).
pub open spec fn bing_search(query: Seq<char>, form_key: Seq<char>) -> Seq<char> {
    "https://www.bing.com/search?q="@ + percent_encoded(query) + "&"@ + form_key + "=QBLH"@
}

/// The plan of `visit_url`: approve the URL, and for a search also the
/// search site, then load the URL (a full URL as it is, text with a space
/// as a search, anything else with `https://` in front).
pub open spec fn visit_url_plan(args: JsonValue) -> ToolPlanView {
    match get_str(args, "url"@) {
        None => direct(Err(WebAgentErrorView::MissingArgument("URL is required"@))),
        Some(u) => {
            let desc = "I type '"@ + u + "' into the browser address bar."@;
            if has_prefix(u, "https://"@) || has_prefix(u, "http://"@) || has_prefix(u, "file://"@) || has_prefix(
                u,
                "about:"@,
            ) {
                ToolPlanView { checks: seq![u], outcome: run(BrowserCommandView::VisitPage(u), desc) }
            } else if u.contains(' ') {
                ToolPlanView {
                    checks: seq![u, "bing.com"@],
                    outcome: run(BrowserCommandView::VisitPage(bing_search(u, "FROM"@)), desc),
                }
            } else {
                ToolPlanView { checks: seq![u], outcome: run(BrowserCommandView::VisitPage("https://"@ + u), desc) }
            }
        },
    }
}

/// The plan of `web_search`: approve the search site, then search.
pub open spec fn web_search_plan(args: JsonValue) -> ToolPlanView {
    ToolPlanView {
        checks: seq!["bing.com"@],
        outcome: match get_str(args, "query"@) {
            None => Err(WebAgentErrorView::MissingArgument("Query is required"@)),
            Some(q) => run(
                BrowserCommandView::VisitPage(bing_search(q, "FORM"@)),
                "I typed '"@ + q + "' into the browser search bar."@,
            ),
        },
    }
}

/// The URL `create_tab` opens: the `url` argument or Google's home page, trimmed.
pub open spec fn new_tab_url(args: JsonValue) -> Seq<char> {
    trim_spec(
        match get_str(args, "url"@) {
            Some(u) => u,
            None => "https://www.google.com"@,
        },
    )
}

/// The plan of `create_tab`: approve the URL, then open it in a new tab.
pub open spec fn create_tab_plan(args: JsonValue) -> ToolPlanView {
    let u = new_tab_url(args);
    ToolPlanView {
        checks: seq![u],
        outcome: run(BrowserCommandView::NewTab(u), "I created a new tab and navigated to '"@ + u + "'."@),
    }
}

/// An integer argument, or a default.
pub open spec fn int_arg(args: JsonValue, key: Seq<char>, default: int) -> int {
    match get_i64(args, key) {
        Some(n) => n,
        None => default,
    }
}

/// The plan of `click`: click the designated element with the left button;
/// the element's name is looked up under the label the model used.
pub open spec fn click_plan(args: JsonValue, rects: Map<Seq<char>, InteractiveRegion>, mapping: Map<Seq<char>, Seq<char>>) -> ToolPlanView {
    match resolve_target(args, mapping) {
        Err(e) => direct(Err(e)),
        Ok(id) => direct(run(
            BrowserCommandView::Click { target: id, button: "left"@ },
            match target_name_spec(target_label(args), rects) {
                Some(n) => "I clicked '"@ + n + "'."@,
                None => "I clicked the control."@,
            },
        )),
    }
}

/// The button a `click_full` call names, `left` by default.
pub open spec fn button_arg(args: JsonValue) -> Seq<char> {
    match get_str(args, "button"@) {
        Some(b) => b,
        None => "left"@,
    }
}

/// The plan of `click_full`: click the designated element with the named button.
pub open spec fn click_full_plan(args: JsonValue, rects: Map<Seq<char>, InteractiveRegion>, mapping: Map<Seq<char>, Seq<char>>) -> ToolPlanView {
    match resolve_target(args, mapping) {
        Err(e) => direct(Err(e)),
        Ok(id) => {
            let b = button_arg(args);
            direct(run(
                BrowserCommandView::Click { target: id, button: b },
                match target_name_spec(target_label(args), rects) {
                    Some(n) => "I clicked '"@ + n + "' with button '"@ + b + "'."@,
                    None => "I clicked the control with button '"@ + b + "'"@,
                },
            ))
        },
    }
}

/// The plan of `hover`: hover over the designated element.
pub open spec fn hover_plan(args: JsonValue, rects: Map<Seq<char>, InteractiveRegion>, mapping: Map<Seq<char>, Seq<char>>) -> ToolPlanView {
    match resolve_target(args, mapping) {
        Err(e) => direct(Err(e)),
        Ok(id) => direct(run(
            BrowserCommandView::Hover(id),
            match target_name_spec(target_label(args), rects) {
                Some(n) => "I hovered over '"@ + n + "'."@,
                None => "I hovered over the control."@,
            },
        )),
    }
}

/// The plan of `input_text`: type the text into the designated field
/// (pressing Enter unless told not to, keeping existing text unless told
/// to delete it). The field's name is looked up under the id as given.
pub open spec fn input_text_plan(args: JsonValue, rects: Map<Seq<char>, InteractiveRegion>, mapping: Map<Seq<char>, Seq<char>>) -> ToolPlanView {
    match get_i64(args, "input_field_id"@) {
        None => direct(Err(WebAgentErrorView::MissingArgument("'input_field_id' is required"@))),
        Some(n) => {
            let id = signed_decimal(n);
            match get_str(args, "text_value"@) {
                None => direct(Err(WebAgentErrorView::MissingArgument("'text_value' is required"@))),
                Some(t) => if !mapping.dom().contains(id) {
                    direct(Err(WebAgentErrorView::InputNotInMapping(id)))
                } else {
                    direct(run(
                        BrowserCommandView::Fill {
                            target: mapping[id],
                            text: t,
                            press_enter: match get_bool(args, "press_enter"@) {
                                Some(b) => b,
                                None => true,
                            },
                            delete_existing: match get_bool(args, "delete_existing_text"@) {
                                Some(b) => b,
                                None => false,
                            },
                        },
                        match target_name_spec(id, rects) {
                            Some(name) => "I typed '"@ + t + "' into '"@ + name + "'."@,
                            None => "I typed '"@ + t + "'."@,
                        },
                    ))
                },
            }
        },
    }
}

/// What a call of tool `name` with arguments `args` asks for. A tool not
/// offered is refused; the offered tools without implementation are
/// refused too.
pub open spec fn tool_plan_spec(
    name: Seq<char>,
    args: JsonValue,
    available: Seq<Seq<char>>,
    rects: Map<Seq<char>, InteractiveRegion>,
    mapping: Map<Seq<char>, Seq<char>>,
) -> ToolPlanView {
    if !available.contains(name) {
        direct(Err(WebAgentErrorView::UnknownTool(name, join_spec(available, ", "@))))
    } else if name == "click"@ {
        click_plan(args, rects, mapping)
    } else if name == "input_text"@ {
        input_text_plan(args, rects, mapping)
    } else if name == "hover"@ {
        hover_plan(args, rects, mapping)
    } else if name == "select_option"@ {
        direct(finished("Select option action executed"@))
    } else if name == "upload_file"@ {
        direct(finished("Upload file action executed"@))
    } else if name == "click_full"@ {
        click_full_plan(args, rects, mapping)
    } else if name == "answer_question"@ {
        direct(finished("Answer question action executed"@))
    } else if name == "visit_url"@ {
        visit_url_plan(args)
    } else if name == "web_search"@ {
        web_search_plan(args)
    } else if name == "history_back"@ {
        direct(run(BrowserCommandView::GoBack, "I clicked the browser back button."@))
    } else if name == "refresh_page"@ {
        direct(run(BrowserCommandView::Refresh, "I refreshed the current page."@))
    } else if name == "page_up"@ {
        direct(run(BrowserCommandView::PageUp, "I scrolled up one page in the browser"@))
    } else if name == "page_down"@ {
        direct(run(BrowserCommandView::PageDown, "I scrolled down one page in the browser"@))
    } else if name == "scroll_down"@ {
        let p = int_arg(args, "pixels"@, 400) as i32;
        direct(run(BrowserCommandView::ScrollDown(p), "I scrolled down "@ + signed_decimal(p as int) + " pixels in the browser."@))
    } else if name == "scroll_up"@ {
        let p = int_arg(args, "pixels"@, 400) as i32;
        direct(run(BrowserCommandView::ScrollUp(p), "I scrolled up "@ + signed_decimal(p as int) + " pixels in the browser."@))
    } else if name == "sleep"@ {
        let d = int_arg(args, "seconds"@, 1000) as u64;
        direct(run(BrowserCommandView::Sleep(d), "I waited "@ + decimal(d as nat) + " seconds."@))
    } else if name == "stop_action"@ {
        direct(finished(
            match get_str(args, "answer"@) {
                Some(a) => a,
                None => "I stopped the action."@,
            },
        ))
    } else if name == "summarize_page"@ {
        direct(finished("Summarize page action executed"@))
    } else if name == "create_tab"@ {
        create_tab_plan(args)
    } else if name == "switch_tab"@ {
        let i = int_arg(args, "tab_index"@, 0) as usize;
        direct(run(BrowserCommandView::SwitchTab(i), "I switched to tab "@ + decimal(i as nat) + "."@))
    } else if name == "close_tab"@ {
        let i = int_arg(args, "tab_index"@, 0) as usize;
        direct(run(BrowserCommandView::CloseTab(i), "I closed tab "@ + decimal(i as nat) + "."@))
    } else {
        direct(Err(WebAgentErrorView::NotImplemented(name)))
    }
}

fn lit(s: &str) -> (r: String)
    ensures
        r@ == s@,
{
    String::from_str(s)
}

fn plan_direct(outcome: Result<ToolStep, WebAgentError>) -> (p: ToolPlan)
    ensures
        p@ == direct(outcome_view(outcome)),
{
    let p = ToolPlan { checks: Vec::new(), outcome };
    assert(views(p.checks@) =~= Seq::<Seq<char>>::empty());
    p
}

fn run_step(command: BrowserCommand, description: String) -> (r: Result<ToolStep, WebAgentError>)
    ensures
        outcome_view(r) == run(command@, description@),
{
    Ok(ToolStep::Run { command, description })
}

/// The text of a JSON number (see `number_text`).
fn number_to_text(n: &JsonNumber) -> (r: String)
    ensures
        r@ == number_text(*n),
{
    match n {
        JsonNumber::PosInt(u) => u64_to_string(*u),
        JsonNumber::NegInt(i) => i64_to_string(*i),
        JsonNumber::Float(t) => t.clone(),
    }
}

/// The element a `target_id` argument designates (see `resolve_target`).
pub fn resolve_target_id(args: &JsonValue, mapping: &StringMap) -> (r: Result<String, WebAgentError>)
    ensures
        match r {
            Ok(s) => resolve_target(*args, mapping@) == Ok::<Seq<char>, WebAgentErrorView>(s@),
            Err(e) => resolve_target(*args, mapping@) == Err::<Seq<char>, WebAgentErrorView>(e@),
        },
{
    let v = match args.get("target_id") {
        Some(v) => v,
        None => {
            return Err(WebAgentError::MissingArgument(lit("'target_id' is required")));
        },
    };
    let t = match v {
        JsonValue::String(s) => s.clone(),
        JsonValue::Number(n) => number_to_text(n),
        _ => {
            return Err(WebAgentError::BadTargetId);
        },
    };
    match mapping.get(t.as_str()) {
        Some(m) => Ok(m.clone()),
        None => Err(WebAgentError::TargetNotInMapping(t)),
    }
}

/// The label a `target_id` argument gives (see `target_label`).
fn target_label_text(args: &JsonValue) -> (r: String)
    ensures
        r@ == target_label(*args),
{
    match args.get("target_id") {
        Some(JsonValue::String(s)) => s.clone(),
        Some(JsonValue::Number(n)) => number_to_text(n),
        _ => String::new(),
    }
}

/// An integer argument, or a default (see `int_arg`).
fn int_arg_exec(args: &JsonValue, key: &str, default: i64) -> (r: i64)
    ensures
        r as int == int_arg(*args, key@, default as int),
{
    match crate::json::get_i64_field(args, key) {
        Some(n) => n,
        None => default,
    }
}

/// The search page for `query` (see `bing_search`).
fn bing_search_url(query: &str, form_key: &str) -> (r: String)
    ensures
        r@ == bing_search(query@, form_key@),
{
    let mut r = lit("https://www.bing.com/search?q=");
    let e = url_encode(query);
    r.append(e.as_str());
    r.append("&");
    r.append(form_key);
    r.append("=QBLH");
    r
}

fn described(prefix: &str, middle: &str, suffix: &str) -> (r: String)
    ensures
        r@ == prefix@ + middle@ + suffix@,
{
    let mut r = lit(prefix);
    r.append(middle);
    r.append(suffix);
    r
}

/// The tool names differ from one another.
proof fn lemma_tool_names_distinct()
    ensures
        "click"@.len() == 5 && "click"@[0] == 'c' && "click"@[1] == 'l',
        "input_text"@.len() == 10 && "input_text"@[0] == 'i' && "input_text"@[1] == 'n',
        "hover"@.len() == 5 && "hover"@[0] == 'h' && "hover"@[1] == 'o',
        "select_option"@.len() == 13 && "select_option"@[0] == 's' && "select_option"@[1] == 'e',
        "upload_file"@.len() == 11 && "upload_file"@[0] == 'u' && "upload_file"@[1] == 'p',
        "click_full"@.len() == 10 && "click_full"@[0] == 'c' && "click_full"@[1] == 'l',
        "answer_question"@.len() == 15 && "answer_question"@[0] == 'a' && "answer_question"@[1] == 'n',
        "visit_url"@.len() == 9 && "visit_url"@[0] == 'v' && "visit_url"@[1] == 'i',
        "web_search"@.len() == 10 && "web_search"@[0] == 'w' && "web_search"@[1] == 'e',
        "history_back"@.len() == 12 && "history_back"@[0] == 'h' && "history_back"@[1] == 'i',
        "refresh_page"@.len() == 12 && "refresh_page"@[0] == 'r' && "refresh_page"@[1] == 'e',
        "page_up"@.len() == 7 && "page_up"@[0] == 'p' && "page_up"@[1] == 'a',
        "page_down"@.len() == 9 && "page_down"@[0] == 'p' && "page_down"@[1] == 'a',
        "scroll_down"@.len() == 11 && "scroll_down"@[0] == 's' && "scroll_down"@[1] == 'c',
        "scroll_up"@.len() == 9 && "scroll_up"@[0] == 's' && "scroll_up"@[1] == 'c',
        "sleep"@.len() == 5 && "sleep"@[0] == 's' && "sleep"@[1] == 'l',
        "stop_action"@.len() == 11 && "stop_action"@[0] == 's' && "stop_action"@[1] == 't',
        "summarize_page"@.len() == 14 && "summarize_page"@[0] == 's' && "summarize_page"@[1] == 'u',
        "create_tab"@.len() == 10 && "create_tab"@[0] == 'c' && "create_tab"@[1] == 'r',
        "switch_tab"@.len() == 10 && "switch_tab"@[0] == 's' && "switch_tab"@[1] == 'w',
        "close_tab"@.len() == 9 && "close_tab"@[0] == 'c' && "close_tab"@[1] == 'l',
{
        reveal_strlit("click");
        assert("click"@.len() == 5 && "click"@[0] == 'c' && "click"@[1] == 'l');
        reveal_strlit("input_text");
        assert("input_text"@.len() == 10 && "input_text"@[0] == 'i' && "input_text"@[1] == 'n');
        reveal_strlit("hover");
        assert("hover"@.len() == 5 && "hover"@[0] == 'h' && "hover"@[1] == 'o');
        reveal_strlit("select_option");
        assert("select_option"@.len() == 13 && "select_option"@[0] == 's' && "select_option"@[1] == 'e');
        reveal_strlit("upload_file");
        assert("upload_file"@.len() == 11 && "upload_file"@[0] == 'u' && "upload_file"@[1] == 'p');
        reveal_strlit("click_full");
        assert("click_full"@.len() == 10 && "click_full"@[0] == 'c' && "click_full"@[1] == 'l');
        reveal_strlit("answer_question");
        assert("answer_question"@.len() == 15 && "answer_question"@[0] == 'a' && "answer_question"@[1] == 'n');
        reveal_strlit("visit_url");
        assert("visit_url"@.len() == 9 && "visit_url"@[0] == 'v' && "visit_url"@[1] == 'i');
        reveal_strlit("web_search");
        assert("web_search"@.len() == 10 && "web_search"@[0] == 'w' && "web_search"@[1] == 'e');
        reveal_strlit("history_back");
        assert("history_back"@.len() == 12 && "history_back"@[0] == 'h' && "history_back"@[1] == 'i');
        reveal_strlit("refresh_page");
        assert("refresh_page"@.len() == 12 && "refresh_page"@[0] == 'r' && "refresh_page"@[1] == 'e');
        reveal_strlit("page_up");
        assert("page_up"@.len() == 7 && "page_up"@[0] == 'p' && "page_up"@[1] == 'a');
        reveal_strlit("page_down");
        assert("page_down"@.len() == 9 && "page_down"@[0] == 'p' && "page_down"@[1] == 'a');
        reveal_strlit("scroll_down");
        assert("scroll_down"@.len() == 11 && "scroll_down"@[0] == 's' && "scroll_down"@[1] == 'c');
        reveal_strlit("scroll_up");
        assert("scroll_up"@.len() == 9 && "scroll_up"@[0] == 's' && "scroll_up"@[1] == 'c');
        reveal_strlit("sleep");
        assert("sleep"@.len() == 5 && "sleep"@[0] == 's' && "sleep"@[1] == 'l');
        reveal_strlit("stop_action");
        assert("stop_action"@.len() == 11 && "stop_action"@[0] == 's' && "stop_action"@[1] == 't');
        reveal_strlit("summarize_page");
        assert("summarize_page"@.len() == 14 && "summarize_page"@[0] == 's' && "summarize_page"@[1] == 'u');
        reveal_strlit("create_tab");
        assert("create_tab"@.len() == 10 && "create_tab"@[0] == 'c' && "create_tab"@[1] == 'r');
        reveal_strlit("switch_tab");
        assert("switch_tab"@.len() == 10 && "switch_tab"@[0] == 's' && "switch_tab"@[1] == 'w');
        reveal_strlit("close_tab");
        assert("close_tab"@.len() == 9 && "close_tab"@[0] == 'c' && "close_tab"@[1] == 'l');
}

/// What a call of tool `name` asks for (see `tool_plan_spec`).
pub fn plan_tool_call(
    name: &str,
    args: &JsonValue,
    available: &Vec<String>,
    rects: &Assoc<InteractiveRegion>,
    mapping: &StringMap,
) -> (r: ToolPlan)
    ensures
        r@ == tool_plan_spec(name@, *args, views(available@), rects@, mapping@),
{
    proof {
        lemma_tool_names_distinct();
    }
    if !vec_contains(available, name) {
        let names = join(available, ", ");
        return plan_direct(Err(WebAgentError::UnknownTool(lit(name), names)));
    }
    if str_eq(name, "click") || str_eq(name, "click_full") || str_eq(name, "hover") {
        let id = match resolve_target_id(args, mapping) {
            Ok(id) => id,
            Err(e) => {
                return plan_direct(Err(e));
            },
        };
        let label = target_label_text(args);
        let tname = target_name(label.as_str(), rects);
        if str_eq(name, "click") {
            let desc = match &tname {
                Some(n) => described("I clicked '", n.as_str(), "'."),
                None => lit("I clicked the control."),
            };
            return plan_direct(run_step(BrowserCommand::Click { target: id, button: lit("left") }, desc));
        } else if str_eq(name, "click_full") {
            let b = match crate::json::get_str_field(args, "button") {
                Some(b) => lit(b),
                None => lit("left"),
            };
            let desc = match &tname {
                Some(n) => {
                    let mut d = described("I clicked '", n.as_str(), "' with button '");
                    d.append(b.as_str());
                    d.append("'.");
                    d
                },
                None => described("I clicked the control with button '", b.as_str(), "'"),
            };
            return plan_direct(run_step(BrowserCommand::Click { target: id, button: b }, desc));
        } else {
            let desc = match &tname {
                Some(n) => described("I hovered over '", n.as_str(), "'."),
                None => lit("I hovered over the control."),
            };
            return plan_direct(run_step(BrowserCommand::Hover(id), desc));
        }
    }
    if str_eq(name, "input_text") {
        let n = match crate::json::get_i64_field(args, "input_field_id") {
            Some(n) => n,
            None => {
                return plan_direct(Err(WebAgentError::MissingArgument(lit("'input_field_id' is required"))));
            },
        };
        let id = i64_to_string(n);
        let t = match crate::json::get_str_field(args, "text_value") {
            Some(t) => lit(t),
            None => {
                return plan_direct(Err(WebAgentError::MissingArgument(lit("'text_value' is required"))));
            },
        };
        let delete_existing = match crate::json::get_bool_field(args, "delete_existing_text") {
            Some(b) => b,
            None => false,
        };
        let press_enter = match crate::json::get_bool_field(args, "press_enter") {
            Some(b) => b,
            None => true,
        };
        let fname = target_name(id.as_str(), rects);
        let target = match mapping.get(id.as_str()) {
            Some(m) => m.clone(),
            None => {
                return plan_direct(Err(WebAgentError::InputNotInMapping(id)));
            },
        };
        let desc = match &fname {
            Some(f) => {
                let mut d = described("I typed '", t.as_str(), "' into '");
                d.append(f.as_str());
                d.append("'.");
                d
            },
            None => described("I typed '", t.as_str(), "'."),
        };
        return plan_direct(run_step(BrowserCommand::Fill { target, text: t, press_enter, delete_existing }, desc));
    }
    if str_eq(name, "select_option") {
        return plan_direct(Ok(ToolStep::Finished(lit("Select option action executed"))));
    }
    if str_eq(name, "upload_file") {
        return plan_direct(Ok(ToolStep::Finished(lit("Upload file action executed"))));
    }
    if str_eq(name, "answer_question") {
        return plan_direct(Ok(ToolStep::Finished(lit("Answer question action executed"))));
    }
    if str_eq(name, "visit_url") {
        let u = match crate::json::get_str_field(args, "url") {
            Some(u) => u,
            None => {
                return plan_direct(Err(WebAgentError::MissingArgument(lit("URL is required"))));
            },
        };
        let desc = described("I type '", u, "' into the browser address bar.");
        let mut checks: Vec<String> = Vec::new();
        checks.push(lit(u));
        let target = if starts_with(u, "https://") || starts_with(u, "http://") || starts_with(u, "file://")
            || starts_with(u, "about:") {
            lit(u)
        } else if contains_char(u, ' ') {
            checks.push(lit("bing.com"));
            bing_search_url(u, "FROM")
        } else {
            concat("https://", u)
        };
        let p = ToolPlan { checks, outcome: run_step(BrowserCommand::VisitPage(target), desc) };
        proof {
            let sp = visit_url_plan(*args);
            assert(views(p.checks@) =~= sp.checks);
        }
        return p;
    }
    if str_eq(name, "web_search") {
        let mut checks: Vec<String> = Vec::new();
        checks.push(lit("bing.com"));
        let outcome = match crate::json::get_str_field(args, "query") {
            None => Err(WebAgentError::MissingArgument(lit("Query is required"))),
            Some(q) => run_step(
                BrowserCommand::VisitPage(bing_search_url(q, "FORM")),
                described("I typed '", q, "' into the browser search bar."),
            ),
        };
        let p = ToolPlan { checks, outcome };
        assert(views(p.checks@) =~= web_search_plan(*args).checks);
        return p;
    }
    if str_eq(name, "history_back") {
        return plan_direct(run_step(BrowserCommand::GoBack, lit("I clicked the browser back button.")));
    }
    if str_eq(name, "refresh_page") {
        return plan_direct(run_step(BrowserCommand::Refresh, lit("I refreshed the current page.")));
    }
    if str_eq(name, "page_up") {
        return plan_direct(run_step(BrowserCommand::PageUp, lit("I scrolled up one page in the browser")));
    }
    if str_eq(name, "page_down") {
        return plan_direct(run_step(BrowserCommand::PageDown, lit("I scrolled down one page in the browser")));
    }
    if str_eq(name, "scroll_down") || str_eq(name, "scroll_up") {
        let p = #[verifier::truncate] (int_arg_exec(args, "pixels", 400) as i32);
        let ps = i64_to_string(p as i64);
        if str_eq(name, "scroll_down") {
            let desc = described("I scrolled down ", ps.as_str(), " pixels in the browser.");
            return plan_direct(run_step(BrowserCommand::ScrollDown(p), desc));
        } else {
            let desc = described("I scrolled up ", ps.as_str(), " pixels in the browser.");
            return plan_direct(run_step(BrowserCommand::ScrollUp(p), desc));
        }
    }
    if str_eq(name, "sleep") {
        let d = #[verifier::truncate] (int_arg_exec(args, "seconds", 1000) as u64);
        let ds = u64_to_string(d);
        let desc = described("I waited ", ds.as_str(), " seconds.");
        return plan_direct(run_step(BrowserCommand::Sleep(d), desc));
    }
    if str_eq(name, "stop_action") {
        let a = match crate::json::get_str_field(args, "answer") {
            Some(a) => lit(a),
            None => lit("I stopped the action."),
        };
        return plan_direct(Ok(ToolStep::Finished(a)));
    }
    if str_eq(name, "summarize_page") {
        return plan_direct(Ok(ToolStep::Finished(lit("Summarize page action executed"))));
    }
    if str_eq(name, "create_tab") {
        let raw = match crate::json::get_str_field(args, "url") {
            Some(u) => u,
            None => "https://www.google.com",
        };
        let u = trim(raw);
        let mut checks: Vec<String> = Vec::new();
        checks.push(u.clone());
        let desc = described("I created a new tab and navigated to '", u.as_str(), "'.");
        let p = ToolPlan { checks, outcome: run_step(BrowserCommand::NewTab(u), desc) };
        assert(views(p.checks@) =~= create_tab_plan(*args).checks);
        return p;
    }
    if str_eq(name, "switch_tab") || str_eq(name, "close_tab") {
        let i = #[verifier::truncate] (int_arg_exec(args, "tab_index", 0) as usize);
        let is = usize_to_string(i);
        if str_eq(name, "switch_tab") {
            let desc = described("I switched to tab ", is.as_str(), ".");
            return plan_direct(run_step(BrowserCommand::SwitchTab(i), desc));
        } else {
            let desc = described("I closed tab ", is.as_str(), ".");
            return plan_direct(run_step(BrowserCommand::CloseTab(i), desc));
        }
    }
    plan_direct(Err(WebAgentError::NotImplemented(lit(name))))
}

/// What an operation of the browser reported.
#[derive(Debug, Clone, PartialEq)]
pub enum BrowserOutcome {
    /// A page was loaded; whether the page changed enough to forget the last description.
    Visited(bool),
    /// An element was clicked; the new page's URL when a new page opened.
    Clicked(Option<String>),
    /// Going back in history succeeded or not.
    WentBack(bool),
    /// The operation completed.
    Done,
}

/// Whether finishing `command` with `outcome` forgets the last page description.
pub open spec fn resets_page_hash(command: BrowserCommandView, outcome: BrowserOutcome) -> bool {
    match command {
        BrowserCommandView::VisitPage(_) => outcome == BrowserOutcome::Visited(true),
        BrowserCommandView::NewTab(_) => true,
        BrowserCommandView::SwitchTab(_) => true,
        BrowserCommandView::CloseTab(_) => true,
        _ => false,
    }
}

/// The single function call of a model answer; more or fewer are refused.
pub fn single_function_call(calls: &Vec<FunctionCall>) -> (r: Result<&FunctionCall, WebAgentError>)
    ensures
        r is Ok <==> calls@.len() == 1,
        r matches Ok(c) ==> *c == calls@[0],
        r matches Err(e) ==> e == WebAgentError::ExpectedOneCall,
{
    if calls.len() != 1 {
        Err(WebAgentError::ExpectedOneCall)
    } else {
        Ok(&calls[0])
    }
}

impl WebAgent {
    /// Works out a tool call (see `tool_plan_spec`) and checks its URLs in
    /// order from check `start` on (see `checks_from`), with `answer` the
    /// user's answer to the request for check `start`, if it was asked. A
    /// check that needs the user's approval, with no answer at hand, stops
    /// the run with the request to put (see `url_check_step`); the caller
    /// resumes from that check with the answer. The first refusal finishes
    /// the call with the refusal's answer; when all are approved the planned
    /// outcome stands.
    pub fn begin_tool_call(
        &mut self,
        name: &str,
        args: &JsonValue,
        available: &Vec<String>,
        rects: &Assoc<InteractiveRegion>,
        mapping: &StringMap,
        start: usize,
        answer: Option<bool>,
    ) -> (r: ToolCallStep)
        requires
            old(self).wf(),
        ensures
            final(self).wf(),
            ({
                let p = tool_plan_spec(name@, *args, views(available@), rects@, mapping@);
                match checks_from(old(self).policy().pview(), old(self).last_rejected(), p.checks, start as int, answer) {
                    CheckRun::Ask { index, url, domain, last, policy } => {
                        &&& r matches ToolCallStep::Ask { request, next } && next == index
                            && is_approval_request(request, old(self).agent_name(), url, domain)
                        &&& final(self).last_rejected() == last
                        &&& final(self).policy().pview() == policy
                    },
                    CheckRun::Done { refusal, last, policy } => {
                        &&& r matches ToolCallStep::Done(res) && match refusal {
                            Some(m) => outcome_view(res) == Ok::<ToolStepView, WebAgentErrorView>(ToolStepView::Finished(m)),
                            None => outcome_view(res) == p.outcome,
                        }
                        &&& final(self).last_rejected() == last
                        &&& final(self).policy().pview() == policy
                    },
                }
            }),
            final(self).history() == old(self).history(),
            final(self).prior_hash() == old(self).prior_hash(),
            final(self).agent_name() == old(self).agent_name(),
    {
        let plan = plan_tool_call(name, args, available, rects, mapping);
        let ghost p = plan@;
        let ghost p0 = self.policy().pview();
        let ghost l0 = self.last_rejected();
        let ToolPlan { checks, outcome } = plan;
        let ghost pc = p.checks;
        let mut i: usize = start;
        let mut ans: Option<bool> = answer;
        while i < checks.len()
            invariant
                self.wf(),
                views(checks@) == pc,
                pc == p.checks,
                outcome_view(outcome) == p.outcome,
                p == tool_plan_spec(name@, *args, views(available@), rects@, mapping@),
                p0 == old(self).policy().pview(),
                l0 == old(self).last_rejected(),
                checks_from(p0, l0, pc, start as int, answer)
                    == checks_from(self.policy().pview(), self.last_rejected(), pc, i as int, ans),
                self.history() == old(self).history(),
                self.prior_hash() == old(self).prior_hash(),
                self.agent_name() == old(self).agent_name(),
            decreases checks@.len() - i,
        {
            let ghost cur = self.policy().pview();
            let ghost cl = self.last_rejected();
            let u = checks[i].as_str();
            proof {
                assert(pc[i as int] == u@);
                assert(0 <= i < pc.len());
            }
            let request = self.url_check_step(u);
            let approved = match (request, ans) {
                (Some(m), None) => {
                    assert(checks_from(cur, cl, pc, i as int, ans) == CheckRun::Ask {
                        index: i as int,
                        url: u@,
                        domain: pv_domain(cur, u@),
                        last: cl,
                        policy: cur,
                    });
                    return ToolCallStep::Ask { request: m, next: i };
                },
                (Some(_), Some(a)) => a,
                (None, _) => false,
            };
            let (msg, ok) = self.check_url_and_generate_msg(u, approved);
            if !ok {
                assert(checks_from(cur, cl, pc, i as int, ans) == CheckRun::Done {
                    refusal: Some(msg@),
                    last: self.last_rejected(),
                    policy: self.policy().pview(),
                });
                return ToolCallStep::Done(Ok(ToolStep::Finished(msg)));
            }
            ans = None;
            i = i + 1;
        }
        ToolCallStep::Done(outcome)
    }

    /// Finishes a browser operation: forgets the last page description
    /// after a new page load or a tab change, reports a failed step back in
    /// history, and checks a page a click opened (see
    /// `check_url_and_generate_msg`, with `approved` the user's answer to the
    /// request of `url_check_step` for that page, where one was needed),
    /// answering with the refusal when it is not approved. Otherwise the
    /// planned description is the result.
    pub fn complete_tool_call(
        &mut self,
        command: &BrowserCommand,
        description: String,
        outcome: BrowserOutcome,
        approved: bool,
    ) -> (r: String)
        requires
            old(self).wf(),
        ensures
            final(self).wf(),
            final(self).prior_hash() == (if resets_page_hash(command@, outcome) { None } else { old(self).prior_hash() }),
            (match (command@, outcome) {
                (BrowserCommandView::GoBack, BrowserOutcome::WentBack(ok)) => {
                    &&& r@ == (if ok {
                        "I clicked the browser back button."@
                    } else {
                        "No previous page in the browser history or couldn't navigate back."@
                    })
                    &&& final(self).last_rejected() == old(self).last_rejected()
                    &&& final(self).policy() == old(self).policy()
                },
                (BrowserCommandView::Click { .. }, BrowserOutcome::Clicked(Some(u))) => {
                    let v = url_check_spec(old(self).policy().pview(), old(self).last_rejected(), u@, approved);
                    &&& r@ == (if v.1 { description@ } else { v.0 })
                    &&& final(self).last_rejected() == v.2
                    &&& final(self).policy().pview() == v.3
                },
                _ => {
                    &&& r@ == description@
                    &&& final(self).last_rejected() == old(self).last_rejected()
                    &&& final(self).policy() == old(self).policy()
                },
            }),
            final(self).history() == old(self).history(),
            final(self).agent_name() == old(self).agent_name(),
    {
        match (command, &outcome) {
            (BrowserCommand::GoBack, BrowserOutcome::WentBack(ok)) => {
                if *ok {
                    lit("I clicked the browser back button.")
                } else {
                    lit("No previous page in the browser history or couldn't navigate back.")
                }
            },
            (BrowserCommand::Click { .. }, BrowserOutcome::Clicked(Some(u))) => {
                let (msg, ok) = self.check_url_and_generate_msg(u.as_str(), approved);
                if ok {
                    description
                } else {
                    msg
                }
            },
            (BrowserCommand::VisitPage(_), BrowserOutcome::Visited(true)) => {
                self.prior_metadata_hash = None;
                description
            },
            (BrowserCommand::NewTab(_), _) | (BrowserCommand::SwitchTab(_), _) | (BrowserCommand::CloseTab(_), _) => {
                self.prior_metadata_hash = None;
                description
            },
            _ => description,
        }
    }
}

// ---------------------------------------------------------------------------
// A session of actions.

/// What a step of a session does with the model's answers.
#[derive(Debug)]
pub enum TurnAction {
    /// Report the model's text and end the session.
    Respond(String),
    /// Carry out the calls in order, until one ends the actions.
    Act(Vec<FunctionCall>),
    /// Report the model's error and end the session.
    Fail(String),
    /// Nothing to do; go on to the next step.
    Skip,
}

impl TurnAction {
    /// Whether the session ends after this action.
    pub open spec fn ends_session_spec(&self) -> bool {
        self is Respond || self is Fail
    }

    /// Whether the session ends after this action: a text answer or an
    /// error ends it; calls and an empty answer lead to the next step.
    pub fn ends_session(&self) -> (r: bool)
        ensures
            r == self.ends_session_spec(),
    {
        match self {
            TurnAction::Respond(_) | TurnAction::Fail(_) => true,
            _ => false,
        }
    }
}

/// The action for a step's answers, by the first of them: its text, its
/// calls or its error; without answers the step does nothing.
pub fn next_turn_action(responses: Vec<LLMResponse>) -> (r: TurnAction)
    ensures
        responses@.len() == 0 ==> r is Skip,
        responses@.len() > 0 ==> match responses@[0] {
            LLMResponse::Text(t) => r matches TurnAction::Respond(u) && u == t,
            LLMResponse::FunctionCalls(c) => r matches TurnAction::Act(d) && d == c,
            LLMResponse::Error(e) => r matches TurnAction::Fail(f) && f == e,
        },
{
    let mut responses = responses;
    if responses.len() == 0 {
        return TurnAction::Skip;
    }
    match responses.remove(0) {
        LLMResponse::Text(t) => TurnAction::Respond(t),
        LLMResponse::FunctionCalls(c) => TurnAction::Act(c),
        LLMResponse::Error(e) => TurnAction::Fail(e),
    }
}

/// The most model calls one request may take.
pub const MAX_STEPS: usize = 10;

/// What a session of actions has gathered so far.
#[derive(Debug)]
pub struct WebSession {
    pub observations: Vec<String>,
    pub emitted_responses: Vec<String>,
    pub actions_proposed: Vec<String>,
    pub action_results: Vec<String>,
}

impl WebSession {
    /// A session with nothing gathered yet.
    pub fn new() -> (s: WebSession)
        ensures
            s.observations@.len() == 0,
            s.emitted_responses@.len() == 0,
            s.actions_proposed@.len() == 0,
            s.action_results@.len() == 0,
    {
        WebSession {
            observations: Vec::new(),
            emitted_responses: Vec::new(),
            actions_proposed: Vec::new(),
            action_results: Vec::new(),
        }
    }
}

/// The user message a chat message becomes when the agent takes it in.
pub open spec fn ingested_user(source: Seq<char>, content: UserContentView) -> LLMMessageView {
    LLMMessageView::User { content, source, message_type: user_message_tag() }
}

/// The messages the agent takes in from a history of `total` messages, of
/// which `h` are the first: every multimodal message, and a text message
/// only when it is the last one.
pub open spec fn ingested(h: Seq<ChatMessageView>, total: int) -> Seq<LLMMessageView>
    decreases h.len(),
{
    if h.len() == 0 {
        Seq::empty()
    } else {
        let prev = ingested(h.drop_last(), total);
        match h.last() {
            ChatMessageView::Text { source, content, .. } => if h.len() == total {
                prev.push(ingested_user(source, UserContentView::String(content)))
            } else {
                prev
            },
            ChatMessageView::MultiModal { source, content, .. } => prev.push(
                ingested_user(source, UserContentView::MultiModal(content)),
            ),
        }
    }
}

/// An assistant message of the agent.
pub open spec fn said_by(name: Seq<char>, text: Seq<char>) -> LLMMessageView {
    LLMMessageView::Assistant {
        content: AssistantContentView::String(text),
        source: Some(name),
        message_type: assistant_message_tag(),
    }
}

/// How the agent records a text answer of the model on page `title`.
pub open spec fn text_summary(title: Seq<char>, text: Seq<char>) -> Seq<char> {
    "On the webpage '"@ + title + "', we propose the following action: "@ + text
}

/// How the agent names a proposed call: its name and arguments.
pub open spec fn tool_call_message(name: Seq<char>, args_text: Seq<char>) -> Seq<char> {
    "'"@ + name + " ("@ + args_text + ")'"@
}

/// How the agent records a proposed call on the page `title` at `url`.
pub open spec fn action_summary(title: Seq<char>, url: Seq<char>, call_message: Seq<char>) -> Seq<char> {
    "On the webpage '"@ + title + "' (at '"@ + url + "'), we propose the following action: "@ + call_message
}

/// What an action observed: its result and the page afterwards.
pub open spec fn observation_note(result: Seq<char>, page: Seq<char>) -> Seq<char> {
    "'"@ + result + "' \n\n '"@ + page + "'"@
}

/// The observation shown to the model after an action.
pub open spec fn observation_text(result: Seq<char>, page: Seq<char>) -> Seq<char> {
    "Observation: "@ + result + "\n\n"@ + page
}

/// A string argument, or the empty text.
pub open spec fn str_arg_or_empty(args: JsonValue, key: Seq<char>) -> Seq<char> {
    match get_str(args, key) {
        Some(s) => s,
        None => Seq::empty(),
    }
}

/// Whether a tool ends the actions proposed in one answer.
pub open spec fn ends_actions(name: Seq<char>) -> bool {
    name == "stop_action"@ || name == "answer_question"@
}

/// The pairs of proposed actions and their results, up to the shorter list.
pub open spec fn action_pairs_text(actions: Seq<Seq<char>>, results: Seq<Seq<char>>) -> Seq<char>
    decreases actions.len(),
{
    if actions.len() == 0 || results.len() == 0 {
        Seq::empty()
    } else {
        action_pairs_text(actions.drop_last(), results.drop_last()) + "\n Action: "@ + actions.last()
            + "\nObservation: "@ + results.last() + "\n\n"@
    }
}

/// The account of a whole session.
pub open spec fn all_responses_spec(actions: Seq<Seq<char>>, results: Seq<Seq<char>>) -> Seq<char> {
    let n = if actions.len() <= results.len() { actions.len() } else { results.len() };
    "The actions the websurfer performed are the following.\n"@ + action_pairs_text(actions.take(n as int), results.take(n as int))
}

/// The account of a whole session (see `all_responses_spec`).
pub fn all_responses_text(actions: &Vec<String>, results: &Vec<String>) -> (r: String)
    ensures
        r@ == all_responses_spec(views(actions@), views(results@)),
{
    let n = if actions.len() <= results.len() { actions.len() } else { results.len() };
    let ghost a = views(actions@).take(n as int);
    let ghost b = views(results@).take(n as int);
    let mut body = String::new();
    let mut i: usize = 0;
    while i < n
        invariant
            n <= actions@.len(),
            n <= results@.len(),
            i <= n,
            a == views(actions@).take(n as int),
            b == views(results@).take(n as int),
            body@ == action_pairs_text(a.take(i as int), b.take(i as int)),
        decreases n - i,
    {
        proof {
            assert(a.take(i + 1).drop_last() =~= a.take(i as int));
            assert(b.take(i + 1).drop_last() =~= b.take(i as int));
            assert(a.take(i + 1).last() == actions@[i as int]@);
            assert(b.take(i + 1).last() == results@[i as int]@);
        }
        body.append("\n Action: ");
        body.append(actions[i].as_str());
        body.append("\nObservation: ");
        body.append(results[i].as_str());
        body.append("\n\n");
        i = i + 1;
    }
    assert(a.take(n as int) =~= a);
    assert(b.take(n as int) =~= b);
    let r = concat("The actions the websurfer performed are the following.\n", body.as_str());
    r
}

fn push_str(v: &mut Vec<String>, s: String)
    ensures
        views(final(v)@) == views(old(v)@).push(s@),
{
    v.push(s);
    assert(views(v@) =~= views(old(v)@).push(s@));
}

/// The bytes of an optional screenshot, empty when there is none.
pub open spec fn shot_or_empty(o: Option<Vec<u8>>) -> Seq<u8> {
    match o {
        Some(s) => s@,
        None => Seq::empty(),
    }
}

impl WebAgent {
    fn push_history(&mut self, m: LLMMessage)
        ensures
            llm_history_view(final(self).history()) == llm_history_view(old(self).history()).push(m@),
            final(self).prior_hash() == old(self).prior_hash(),
            final(self).policy() == old(self).policy(),
            final(self).last_rejected() == old(self).last_rejected(),
            final(self).agent_name() == old(self).agent_name(),
    {
        self.chat_history.push(m);
        assert(llm_history_view(self.chat_history@) =~= llm_history_view(old(self).chat_history@).push(m@));
    }

    /// Takes in the history of an execute request: every multimodal message,
    /// and a text message only when it is the last one (see `ingested`).
    pub fn ingest_messages(&mut self, message: Message)
        requires
            message.msg_type == MessageType::Execute,
        ensures
            llm_history_view(final(self).history()) == llm_history_view(old(self).history()) + ingested(
                history_view(message.chat_history@),
                message.chat_history@.len() as int,
            ),
            final(self).prior_hash() == old(self).prior_hash(),
            final(self).policy() == old(self).policy(),
            final(self).last_rejected() == old(self).last_rejected(),
            final(self).agent_name() == old(self).agent_name(),
    {
        let Message { chat_history, .. } = message;
        let total = chat_history.len();
        let ghost h = history_view(chat_history@);
        let ghost start = llm_history_view(self.history());
        let mut rest = chat_history;
        let mut i: usize = 0;
        while i < total
            invariant
                total == h.len(),
                i <= total,
                rest@.len() == total - i,
                forall|j: int| 0 <= j < rest@.len() ==> (#[trigger] rest@[j])@ == h[i + j],
                llm_history_view(self.history()) == start + ingested(h.take(i as int), total as int),
                self.prior_hash() == old(self).prior_hash(),
                self.policy() == old(self).policy(),
                self.last_rejected() == old(self).last_rejected(),
                self.agent_name() == old(self).agent_name(),
            decreases total - i,
        {
            let m = rest.remove(0);
            proof {
                assert(m@ == h[i as int]);
                assert(h.take(i + 1).drop_last() =~= h.take(i as int));
                assert(h.take(i + 1).last() == h[i as int]);
            }
            match m {
                ChatMessage::Text { source, content, .. } => {
                    if i == total - 1 {
                        let u = UserMessage::new(UserContent::String(content), source);
                        self.push_history(LLMMessage::User(u));
                    }
                },
                ChatMessage::MultiModal { source, content, .. } => {
                    let u = UserMessage::new(UserContent::MultiModal(content), source);
                    self.push_history(LLMMessage::User(u));
                },
            }
            proof {
                assert(llm_history_view(self.history()) =~= start + ingested(h.take(i + 1), total as int));
            }
            i = i + 1;
        }
        assert(h.take(total as int) =~= h);
    }

    /// Records a text answer of the model on page `title`: the agent notes
    /// what it proposes, and the session keeps the text and the note.
    pub fn record_text_response(&mut self, session: &mut WebSession, title: &str, text: &str)
        ensures
            llm_history_view(final(self).history()) == llm_history_view(old(self).history()).push(
                said_by(old(self).agent_name(), text_summary(title@, text@)),
            ),
            views(final(session).emitted_responses@) == views(old(session).emitted_responses@).push(text@),
            views(final(session).actions_proposed@) == views(old(session).actions_proposed@).push(text_summary(title@, text@)),
            final(session).observations@ == old(session).observations@,
            final(session).action_results@ == old(session).action_results@,
            final(self).prior_hash() == old(self).prior_hash(),
            final(self).policy() == old(self).policy(),
            final(self).last_rejected() == old(self).last_rejected(),
            final(self).agent_name() == old(self).agent_name(),
    {
        let mut summary = lit("On the webpage '");
        summary.append(title);
        summary.append("', we propose the following action: ");
        summary.append(text);
        let m = AssistantMessage::new(AssistantContent::String(summary.clone()), Some(self.name.clone()));
        self.push_history(LLMMessage::Assistant(m));
        push_str(&mut session.emitted_responses, lit(text));
        push_str(&mut session.actions_proposed, summary);
    }

    /// Records a call the model proposed on page `title` at `url`, with its
    /// parsed arguments `args` and their JSON text `args_text`: the agent
    /// notes the proposal; a `stop_action` also records its answer as an
    /// observation, a result and a response; the call's explanation is
    /// emitted.
    pub fn record_proposed_action(
        &mut self,
        session: &mut WebSession,
        title: &str,
        url: &str,
        call_name: &str,
        args: &JsonValue,
        args_text: &str,
    )
        ensures
            ({
                let msg = tool_call_message(call_name@, args_text@);
                let answer = str_arg_or_empty(*args, "answer"@);
                let stop = call_name@ == "stop_action"@;
                &&& llm_history_view(final(self).history()) == llm_history_view(old(self).history()).push(
                    said_by(old(self).agent_name(), action_summary(title@, url@, msg)),
                )
                &&& views(final(session).actions_proposed@) == views(old(session).actions_proposed@).push(msg)
                &&& views(final(session).observations@) == (if stop {
                    views(old(session).observations@).push(answer)
                } else {
                    views(old(session).observations@)
                })
                &&& views(final(session).action_results@) == (if stop {
                    views(old(session).action_results@).push(answer)
                } else {
                    views(old(session).action_results@)
                })
                &&& views(final(session).emitted_responses@) == (if stop {
                    views(old(session).emitted_responses@).push(answer)
                } else {
                    views(old(session).emitted_responses@)
                }).push(str_arg_or_empty(*args, "explanation"@))
            }),
            final(self).prior_hash() == old(self).prior_hash(),
            final(self).policy() == old(self).policy(),
            final(self).last_rejected() == old(self).last_rejected(),
            final(self).agent_name() == old(self).agent_name(),
    {
        let mut msg = lit("'");
        msg.append(call_name);
        msg.append(" (");
        msg.append(args_text);
        msg.append(")'");
        let explanation = match crate::json::get_str_field(args, "explanation") {
            Some(e) => lit(e),
            None => String::new(),
        };
        push_str(&mut session.actions_proposed, msg.clone());
        let mut note = lit("On the webpage '");
        note.append(title);
        note.append("' (at '");
        note.append(url);
        note.append("'), we propose the following action: ");
        note.append(msg.as_str());
        let m = AssistantMessage::new(AssistantContent::String(note), Some(self.name.clone()));
        self.push_history(LLMMessage::Assistant(m));
        if str_eq(call_name, "stop_action") {
            let answer = match crate::json::get_str_field(args, "answer") {
                Some(a) => lit(a),
                None => String::new(),
            };
            push_str(&mut session.observations, answer.clone());
            push_str(&mut session.action_results, answer.clone());
            push_str(&mut session.emitted_responses, answer);
        }
        push_str(&mut session.emitted_responses, explanation);
    }

    /// Records the result of an action and the page text afterwards, with
    /// the new screenshot shown to the model; returns whether the action
    /// ends the calls of this answer (see `ends_actions`).
    pub fn record_action_result(
        &mut self,
        session: &mut WebSession,
        call_name: &str,
        result: String,
        page_text: &str,
        screenshot: Vec<u8>,
    ) -> (stop: bool)
        ensures
            stop == ends_actions(call_name@),
            llm_history_view(final(self).history()) == llm_history_view(old(self).history()).push(
                ingested_user(
                    old(self).agent_name(),
                    UserContentView::MultiModal(
                        seq![
                            MultiModalContentView::Text(observation_text(result@, page_text@)),
                            MultiModalContentView::Image(screenshot@),
                        ],
                    ),
                ),
            ),
            views(final(session).emitted_responses@) == views(old(session).emitted_responses@).push(result@),
            views(final(session).observations@) == views(old(session).observations@).push(
                observation_note(result@, page_text@),
            ),
            views(final(session).action_results@) == views(old(session).action_results@).push(result@),
            final(session).actions_proposed@ == old(session).actions_proposed@,
            final(self).prior_hash() == old(self).prior_hash(),
            final(self).policy() == old(self).policy(),
            final(self).last_rejected() == old(self).last_rejected(),
            final(self).agent_name() == old(self).agent_name(),
    {
        push_str(&mut session.emitted_responses, result.clone());
        let mut note = lit("'");
        note.append(result.as_str());
        note.append("' \n\n '");
        note.append(page_text);
        note.append("'");
        push_str(&mut session.observations, note);
        let mut obs = lit("Observation: ");
        obs.append(result.as_str());
        obs.append("\n\n");
        obs.append(page_text);
        push_str(&mut session.action_results, result);
        let ghost shot = screenshot@;
        let ghost ov = obs@;
        let mut parts: Vec<MultiModalContent> = Vec::new();
        parts.push(MultiModalContent::Text(obs));
        parts.push(MultiModalContent::Image(screenshot));
        assert(parts_view(parts@) =~= seq![MultiModalContentView::Text(ov), MultiModalContentView::Image(shot)]);
        let u = UserMessage::new(UserContent::MultiModal(parts), self.name.clone());
        self.push_history(LLMMessage::User(u));
        str_eq(call_name, "stop_action") || str_eq(call_name, "answer_question")
    }

    /// Ends a session: remembers the hash of the page description and
    /// returns the agent's answer, the account of the session and the page
    /// text, with the final screenshot (empty when there is none).
    pub fn finish_session(
        &mut self,
        session: &WebSession,
        page_text: &str,
        screenshot: Option<Vec<u8>>,
        metadata_hash: String,
    ) -> (m: ChatMessage)
        ensures
            final(self).prior_hash() == Some(metadata_hash@),
            m@ == (ChatMessageView::MultiModal {
                role: MessageRole::Assistant,
                source: old(self).agent_name(),
                content: seq![
                    MultiModalContentView::Text(
                        "\n\n"@ + all_responses_spec(views(session.actions_proposed@), views(session.action_results@))
                            + "\n\n"@ + page_text@,
                    ),
                    MultiModalContentView::Image(shot_or_empty(screenshot)),
                ],
                metadata: Map::empty(),
            }),
            final(self).history() == old(self).history(),
            final(self).policy() == old(self).policy(),
            final(self).last_rejected() == old(self).last_rejected(),
            final(self).agent_name() == old(self).agent_name(),
    {
        let ghost sc = screenshot;
        let all = all_responses_text(&session.actions_proposed, &session.action_results);
        self.prior_metadata_hash = Some(metadata_hash);
        let mut text = lit("\n\n");
        text.append(all.as_str());
        text.append("\n\n");
        text.append(page_text);
        let shot = match screenshot {
            Some(s) => s,
            None => Vec::new(),
        };
        let ghost tv = text@;
        let ghost sv = shot@;
        let mut parts: Vec<MultiModalContent> = Vec::new();
        parts.push(MultiModalContent::Text(text));
        parts.push(MultiModalContent::Image(shot));
        assert(parts_view(parts@) =~= seq![MultiModalContentView::Text(tv), MultiModalContentView::Image(sv)]);
        assert(sv == shot_or_empty(sc));
        let nm = self.name.clone();
        ChatMessage::new_multimodal(MessageRole::Assistant, nm, parts)
    }
}

// ---------------------------------------------------------------------------
// What the model is shown.

/// The tools offered on every page, in order.
pub open spec fn base_tool_names() -> Seq<Seq<char>> {
    seq![
        "stop_action"@,
        "visit_url"@,
        "web_search"@,
        "click"@,
        "input_text"@,
        "sleep"@,
        "hover"@,
        "history_back"@,
        "refresh_page"@,
        "scroll_down"@,
        "scroll_up"@,
        "create_tab"@,
    ]
}

/// The tools offered with `num_tabs` tabs open: the tab switching and
/// closing tools only when more than one tab is open.
pub open spec fn offered_tools_spec(num_tabs: nat) -> Seq<Seq<char>> {
    if num_tabs > 1 {
        base_tool_names() + seq!["switch_tab"@, "close_tab"@]
    } else {
        base_tool_names()
    }
}

/// The names of the tools offered with `num_tabs` tabs open.
pub fn offered_tool_names(num_tabs: usize) -> (r: Vec<String>)
    ensures
        views(r@) == offered_tools_spec(num_tabs as nat),
{
    let mut r: Vec<String> = Vec::new();
    push_str(&mut r, lit("stop_action"));
    push_str(&mut r, lit("visit_url"));
    push_str(&mut r, lit("web_search"));
    push_str(&mut r, lit("click"));
    push_str(&mut r, lit("input_text"));
    push_str(&mut r, lit("sleep"));
    push_str(&mut r, lit("hover"));
    push_str(&mut r, lit("history_back"));
    push_str(&mut r, lit("refresh_page"));
    push_str(&mut r, lit("scroll_down"));
    push_str(&mut r, lit("scroll_up"));
    push_str(&mut r, lit("create_tab"));
    assert(views(r@) =~= base_tool_names());
    if num_tabs > 1 {
        push_str(&mut r, lit("switch_tab"));
        push_str(&mut r, lit("close_tab"));
        assert(views(r@) =~= base_tool_names() + seq!["switch_tab"@, "close_tab"@]);
    }
    r
}

/// Whether an answer of the model asks for tool calls.
pub open spec fn is_calls(r: LLMResponse) -> bool {
    r is FunctionCalls
}

/// Whether index `i` holds the first error among the answers.
pub open spec fn first_error_at(rs: Seq<LLMResponse>, i: int) -> bool {
    &&& 0 <= i < rs.len()
    &&& rs[i] is Error
    &&& forall|j: int| 0 <= j < i ==> !(#[trigger] rs[j] is Error)
}

/// Checks the model's answers: the first error fails the request with
/// `LLM Error: ` and its text; otherwise the answers come back with whether
/// any asks for tool calls.
pub fn check_llm_responses(responses: Vec<LLMResponse>) -> (r: Result<(Vec<LLMResponse>, bool), String>)
    ensures
        match r {
            Ok((rs, need_tools)) => {
                &&& rs@ == responses@
                &&& forall|j: int| 0 <= j < responses@.len() ==> !(#[trigger] responses@[j] is Error)
                &&& need_tools == exists|j: int| 0 <= j < responses@.len() && is_calls(#[trigger] responses@[j])
            },
            Err(m) => exists|i: int| first_error_at(responses@, i) && m@ == "LLM Error: "@ + responses@[i]->Error_0@,
        },
{
    let mut need_tools = false;
    let mut i: usize = 0;
    while i < responses.len()
        invariant
            i <= responses@.len(),
            forall|j: int| 0 <= j < i ==> !(#[trigger] responses@[j] is Error),
            need_tools == exists|j: int| 0 <= j < i && is_calls(#[trigger] responses@[j]),
        decreases responses@.len() - i,
    {
        match &responses[i] {
            LLMResponse::Error(e) => {
                assert(first_error_at(responses@, i as int));
                return Err(concat("LLM Error: ", e.as_str()));
            },
            LLMResponse::FunctionCalls(_) => {
                assert(is_calls(responses@[i as int]));
                need_tools = true;
            },
            LLMResponse::Text(_) => {},
        }
        i = i + 1;
    }
    Ok((responses, need_tools))
}

/// The system message for the model: the template with the date filled in.
pub open spec fn system_text_spec(template: Seq<char>, date: Seq<char>) -> Seq<char> {
    crate::text::replace_spec(template, "{date_today}"@, date)
}

/// Today's date in UTC as `YYYY-MM-DD`. It reads the clock, so nothing is
/// promised of it.
#[verifier::external_body]
fn utc_date_today() -> String {
    chrono::Utc::now().format("%Y-%m-%d").to_string()
}

/// The page prompt before trimming: the tabs, the page text, the page
/// address, the visible targets one per line, the targets off screen and
/// the focused element.
pub open spec fn page_prompt_raw(
    tabs_text: Seq<char>,
    webpage_text: Seq<char>,
    url: Seq<char>,
    visible_lines: Seq<Seq<char>>,
    other_targets: Seq<char>,
    focused_hint: Seq<char>,
) -> Seq<char> {
    " The last request received was: "@ + "\n        Note that attached images may be relevant to the request.\n        "@
        + tabs_text + "\n        The webpage has the following text:\n        "@ + webpage_text
        + "\n        Attached is a screenshot of the current page:\n        "@
        + "Consider the following screenshot of a web browser,"@ + " which is open to the page '"@ + url
        + "'. In this screenshot, interactive elements are outlined in bounding boxes in red. Each bounding box has a numeric ID label in red. Additional information about each visible label is listed below:\n        "@
        + join_spec(visible_lines, "\n"@) + "\n\n"@ + other_targets + focused_hint
}

/// The tabs part of the page prompt.
pub open spec fn tabs_text_spec(num_tabs: nat, tab_lines: Seq<char>) -> Seq<char> {
    "There are "@ + decimal(num_tabs) + " tabs open. The tabs are as follows:\n"@ + tab_lines
}

/// The text the model is shown about the current page (see `page_prompt_raw`), trimmed.
pub fn page_prompt(
    num_tabs: usize,
    tab_lines: &str,
    webpage_text: &str,
    url: &str,
    visible_lines: &Vec<String>,
    other_targets: &str,
    focused_hint: &str,
) -> (r: String)
    ensures
        r@ == trim_spec(
            page_prompt_raw(
                tabs_text_spec(num_tabs as nat, tab_lines@),
                webpage_text@,
                url@,
                views(visible_lines@),
                other_targets@,
                focused_hint@,
            ),
        ),
{
    let mut tabs = lit("There are ");
    let n = usize_to_string(num_tabs);
    tabs.append(n.as_str());
    tabs.append(" tabs open. The tabs are as follows:\n");
    tabs.append(tab_lines);
    let mut p = lit(" The last request received was: ");
    p.append("\n        Note that attached images may be relevant to the request.\n        ");
    p.append(tabs.as_str());
    p.append("\n        The webpage has the following text:\n        ");
    p.append(webpage_text);
    p.append("\n        Attached is a screenshot of the current page:\n        ");
    p.append("Consider the following screenshot of a web browser,");
    p.append(" which is open to the page '");
    p.append(url);
    p.append(
        "'. In this screenshot, interactive elements are outlined in bounding boxes in red. Each bounding box has a numeric ID label in red. Additional information about each visible label is listed below:\n        ",
    );
    let visible = join(visible_lines, "\n");
    p.append(visible.as_str());
    p.append("\n\n");
    p.append(other_targets);
    p.append(focused_hint);
    trim(p.as_str())
}

impl WebAgent {
    /// The messages sent to the model for the next action: the
    /// conversation so far, the system message (`template` with today's
    /// date), and the page prompt as a multimodal user message of the agent.
    pub fn llm_request(&self, template: &str, text_prompt: String) -> (r: Vec<LLMMessage>)
        ensures
            r@.len() == self.history().len() + 2,
            llm_history_view(r@.subrange(0, self.history().len() as int)) == llm_history_view(self.history()),
            exists|date: Seq<char>| r@[self.history().len() as int]@ == (LLMMessageView::System {
                content: system_text_spec(template@, date),
            }),
            r@[self.history().len() + 1int]@ == ingested_user(
                self.agent_name(),
                UserContentView::MultiModal(seq![MultiModalContentView::Text(text_prompt@)]),
            ),
    {
        let mut r: Vec<LLMMessage> = Vec::new();
        let mut i: usize = 0;
        while i < self.chat_history.len()
            invariant
                i <= self.chat_history@.len(),
                llm_history_view(r@) == llm_history_view(self.chat_history@.subrange(0, i as int)),
            decreases self.chat_history@.len() - i,
        {
            let m = self.chat_history[i].duplicate();
            let ghost prev = r@;
            let ghost mv = m@;
            r.push(m);
            proof {
                assert(r@ == prev.push(m));
                assert(llm_history_view(r@) =~= llm_history_view(prev).push(mv));
                assert(llm_history_view(self.chat_history@.subrange(0, i + 1)) =~= llm_history_view(
                    self.chat_history@.subrange(0, i as int),
                ).push(mv));
            }
            i = i + 1;
        }
        assert(self.chat_history@.subrange(0, self.chat_history@.len() as int) =~= self.chat_history@);
        let ghost n = r@.len();
        let ghost hist = r@;
        proof {
            reveal_strlit("{date_today}");
        }
        let date = utc_date_today();
        let system = crate::text::replace(template, "{date_today}", date.as_str());
        r.push(LLMMessage::System(crate::message::SystemMessage::new(system)));
        let ghost tv = text_prompt@;
        let mut parts: Vec<MultiModalContent> = Vec::new();
        parts.push(MultiModalContent::Text(text_prompt));
        assert(parts_view(parts@) =~= seq![MultiModalContentView::Text(tv)]);
        let u = UserMessage::new(UserContent::MultiModal(parts), self.name.clone());
        r.push(LLMMessage::User(u));
        assert(r@.subrange(0, n as int) =~= hist);
        assert(r@[n as int]@ == (LLMMessageView::System { content: system_text_spec(template@, date@) }));
        r
    }
}

/// Whether `m` maps some key to `v`.
pub open spec fn has_value(m: Map<Seq<char>, Seq<char>>, v: Seq<char>) -> bool {
    exists|k: Seq<char>| m.dom().contains(k) && m[k] == v
}

/// The id mapping turned around: from each element id to a label that maps
/// to it. When several labels map to one element, any of them may be
/// chosen, as walking a hash map would.
pub fn reverse_mapping(mapping: &StringMap) -> (r: StringMap)
    ensures
        forall|v: Seq<char>| #[trigger] r@.dom().contains(v) <==> has_value(mapping@, v),
        forall|v: Seq<char>| #[trigger] r@.dom().contains(v) ==> mapping@.dom().contains(r@[v]) && mapping@[r@[v]] == v,
{
    let entries = mapping.entries_list();
    let mut r = StringMap::new();
    let mut i: usize = 0;
    while i < entries.len()
        invariant
            i <= entries@.len(),
            forall|j: int| 0 <= j < entries@.len() ==> mapping@.dom().contains((#[trigger] entries@[j]).0@),
            forall|k: Seq<char>| #[trigger] mapping@.dom().contains(k) ==> exists|j: int|
                0 <= j < entries@.len() && (#[trigger] entries@[j]).0@ == k && entries@[j].1@ == mapping@[k],
            forall|v: Seq<char>| #[trigger] r@.dom().contains(v) ==> mapping@.dom().contains(r@[v]) && mapping@[r@[v]] == v,
            forall|v: Seq<char>| #[trigger] r@.dom().contains(v) ==> has_value(mapping@, v),
            forall|j: int| 0 <= j < i && (#[trigger] entries@[j]).1@ == mapping@[entries@[j].0@] ==> r@.dom().contains(entries@[j].1@),
        decreases entries@.len() - i,
    {
        let k = &entries[i].0;
        let v = &entries[i].1;
        let matches = match mapping.get(k.as_str()) {
            Some(cur) => str_eq(cur.as_str(), v.as_str()),
            None => false,
        };
        if matches {
            r.insert(v.clone(), k.clone());
        }
        i = i + 1;
    }
    proof {
        assert forall|v: Seq<char>| #[trigger] r@.dom().contains(v) <==> has_value(mapping@, v) by {
            if has_value(mapping@, v) {
                let k = choose|k: Seq<char>| mapping@.dom().contains(k) && mapping@[k] == v;
                let j = choose|j: int| 0 <= j < entries@.len() && (#[trigger] entries@[j]).0@ == k && entries@[j].1@ == mapping@[k];
                assert(entries@[j].1@ == mapping@[entries@[j].0@]);
            }
        }
    }
    r
}

/// The key an element is listed under once ids are turned back: the label
/// that maps to it, or its own id when none does.
pub open spec fn new_key(reverse: Map<Seq<char>, Seq<char>>, k: Seq<char>) -> Seq<char> {
    if reverse.dom().contains(k) {
        reverse[k]
    } else {
        k
    }
}

/// The elements listed under their labels (see `new_key`). When two
/// elements fall under one label, either may be kept, as collecting into a
/// hash map would.
pub fn rekey_rects(rects: &Assoc<InteractiveRegion>, reverse: &StringMap) -> (r: Assoc<InteractiveRegion>)
    ensures
        forall|k: Seq<char>| #[trigger] rects@.dom().contains(k) ==> r@.dom().contains(new_key(reverse@, k)),
        forall|j: Seq<char>| #[trigger] r@.dom().contains(j) ==> exists|k: Seq<char>|
            rects@.dom().contains(k) && new_key(reverse@, k) == j && r@[j] == rects@[k],
{
    let keys = rects.keys();
    let mut r: Assoc<InteractiveRegion> = Assoc::new();
    let mut i: usize = 0;
    while i < keys.len()
        invariant
            i <= keys@.len(),
            forall|j: int| 0 <= j < keys@.len() ==> rects@.dom().contains((#[trigger] keys@[j])@),
            forall|k: Seq<char>| #[trigger] rects@.dom().contains(k) ==> exists|j: int| 0 <= j < keys@.len() && (#[trigger] keys@[j])@ == k,
            forall|j: int| 0 <= j < i ==> r@.dom().contains(new_key(reverse@, (#[trigger] keys@[j])@)),
            forall|j: Seq<char>| #[trigger] r@.dom().contains(j) ==> exists|k: Seq<char>|
                rects@.dom().contains(k) && new_key(reverse@, k) == j && r@[j] == rects@[k],
        decreases keys@.len() - i,
    {
        let k = &keys[i];
        let nk = match reverse.get(k.as_str()) {
            Some(v) => v.clone(),
            None => k.clone(),
        };
        match rects.get(k.as_str()) {
            Some(region) => {
                let ghost kv = k@;
                r.insert(nk, region.duplicate());
                proof {
                    assert(r@.dom().contains(new_key(reverse@, kv)));
                    assert forall|j: Seq<char>| #[trigger] r@.dom().contains(j) implies exists|k2: Seq<char>|
                        rects@.dom().contains(k2) && new_key(reverse@, k2) == j && r@[j] == rects@[k2] by {
                        if j == new_key(reverse@, kv) {
                            assert(rects@.dom().contains(kv) && new_key(reverse@, kv) == j && r@[j] == rects@[kv]);
                        }
                    }
                }
            },
            None => {},
        }
        i = i + 1;
    }
    proof {
        assert forall|k: Seq<char>| #[trigger] rects@.dom().contains(k) implies r@.dom().contains(new_key(reverse@, k)) by {
            let j = choose|j: int| 0 <= j < keys@.len() && (#[trigger] keys@[j])@ == k;
            assert(r@.dom().contains(new_key(reverse@, keys@[j]@)));
        }
    }
    r
}

/// The id of the focused element as the model knows it.
pub fn focused_label(focused: &str, reverse: &StringMap) -> (r: String)
    ensures
        r@ == new_key(reverse@, focused@),
{
    match reverse.get(focused) {
        Some(v) => v.clone(),
        None => lit(focused),
    }
}

/// The answer about a URL is empty exactly when the visit is approved.
pub proof fn lemma_verdict_answer_empty_iff_approved(p: PolicyView, last_rejected: Option<Seq<char>>, url: Seq<char>, approved: bool)
    ensures
        url_check_spec(p, last_rejected, url, approved).1 <==> url_check_spec(p, last_rejected, url, approved).0.len() == 0,
{
    reveal_strlit("I am not allowed to visit the website ");
    let v = url_check_spec(p, last_rejected, url, approved);
    if !v.1 {
        assert(v.0.len() >= "I am not allowed to visit the website "@.len());
    }
}

/// A declined URL is remembered, and reported once the browser shows its
/// error page; the report forgets it and changes no verdict.
pub proof fn lemma_refusal_reported_once(p: PolicyView, last_rejected: Option<Seq<char>>, url: Seq<char>, approved: bool, approved2: bool)
    requires
        !pv_blocks(p, url),
        !pv_allows(p, url),
        url != chrome_error_url() || last_rejected is None,
        !(needs_approval(p, last_rejected, url) && approved),
    ensures
        ({
            let after = url_check_spec(p, last_rejected, url, approved);
            let report = url_check_spec(after.3, after.2, chrome_error_url(), approved2);
            &&& after.1 == false
            &&& after.2 == Some(url)
            &&& report == (declined_message(url), false, None::<Seq<char>>, after.3)
        }),
{
}

/// The user's answer decides a visit exactly when the check asks for one:
/// an approval allows it and a refusal declines it; where no approval is
/// needed, the answer changes nothing.
pub proof fn lemma_answer_decides_only_when_asked(p: PolicyView, last_rejected: Option<Seq<char>>, url: Seq<char>, approved: bool)
    ensures
        needs_approval(p, last_rejected, url) ==> url_check_spec(p, last_rejected, url, approved).1 == approved,
        !needs_approval(p, last_rejected, url) ==> url_check_spec(p, last_rejected, url, approved)
            == url_check_spec(p, last_rejected, url, !approved),
{
}

/// A `visit_url` call whose URL already names its scheme (`http://`,
/// `https://`, `file://` or `about:`) visits exactly that URL, checking it
/// alone; a URL with no scheme and no space is visited over `https://`.
pub proof fn lemma_visit_url_keeps_given_scheme(
    args: JsonValue,
    available: Seq<Seq<char>>,
    rects: Map<Seq<char>, InteractiveRegion>,
    mapping: Map<Seq<char>, Seq<char>>,
    u: Seq<char>,
)
    requires
        available.contains("visit_url"@),
        get_str(args, "url"@) == Some(u),
    ensures
        ("http://"@.is_prefix_of(u) || "https://"@.is_prefix_of(u) || "file://"@.is_prefix_of(u)
            || "about:"@.is_prefix_of(u)) ==> {
            let p = tool_plan_spec("visit_url"@, args, available, rects, mapping);
            &&& p.checks == seq![u]
            &&& p.outcome matches Ok(ToolStepView::Run { command: BrowserCommandView::VisitPage(v), .. }) && v == u
        },
        (!"http://"@.is_prefix_of(u) && !"https://"@.is_prefix_of(u) && !"file://"@.is_prefix_of(u)
            && !"about:"@.is_prefix_of(u) && !u.contains(' ')) ==> {
            let p = tool_plan_spec("visit_url"@, args, available, rects, mapping);
            p.outcome matches Ok(ToolStepView::Run { command: BrowserCommandView::VisitPage(v), .. }) && v
                == "https://"@ + u
        },
        (!"http://"@.is_prefix_of(u) && !"https://"@.is_prefix_of(u) && !"file://"@.is_prefix_of(u)
            && !"about:"@.is_prefix_of(u) && u.contains(' ')) ==> {
            let p = tool_plan_spec("visit_url"@, args, available, rects, mapping);
            &&& p.checks == seq![u, "bing.com"@]
            &&& p.outcome matches Ok(ToolStepView::Run { command: BrowserCommandView::VisitPage(v), .. }) && v
                == bing_search(u, "FROM"@)
        },
{
    lemma_tool_names_distinct();
    assert(has_prefix(u, "http://"@) == "http://"@.is_prefix_of(u));
    assert(has_prefix(u, "https://"@) == "https://"@.is_prefix_of(u));
    assert(has_prefix(u, "file://"@) == "file://"@.is_prefix_of(u));
    assert(has_prefix(u, "about:"@) == "about:"@.is_prefix_of(u));
    assert(tool_plan_spec("visit_url"@, args, available, rects, mapping) == visit_url_plan(args));
}

} // verus!
