//! What the model client decides: which endpoint to use, how the
//! conversation is put into the chat API's message form, how a reply is
//! read, and how failed requests are retried. The HTTP exchange itself is
//! made by the caller.

use vstd::prelude::*;
use crate::json::{json_get, json_str, JsonValue};
use crate::message::{
    AssistantContentView, FunctionCall, FunctionCallView, LLMMessage, LLMMessageView, MultiModalContent,
    MultiModalContentView, UserContentView, AssistantContent, UserContent,
};
use crate::text::concat;

verus! {

/// What the model answered.
#[derive(Debug, Clone)]
pub enum LLMResponse {
    Text(String),
    FunctionCalls(Vec<FunctionCall>),
    Error(String),
}

/// The result of a function the model called, reported back to it.
#[derive(Debug, Clone)]
pub struct FunctionExecutionResult {
    pub content: String,
    pub name: String,
}

/// Token counts of a request.
#[derive(Debug, Clone, Copy, PartialEq, Eq, Structural)]
pub struct RequestUsage {
    pub prompt_tokens: i32,
    pub completion_tokens: i32,
}

/// Why the model stopped.
#[derive(Debug, Clone, Copy, PartialEq, Eq, Structural)]
pub enum FinishReasons {
    Stop,
    Length,
    FunctionCalls,
    ContentFilter,
    Unknown,
}

/// What a completion holds.
#[derive(Debug, Clone)]
pub enum Content {
    Text(String),
    FunctionCalls(Vec<FunctionCall>),
}

/// A completion as the client reports it.
#[derive(Debug, Clone)]
pub struct CreateResult {
    pub finish_reason: FinishReasons,
    pub content: Content,
    pub usage: RequestUsage,
    pub cached: bool,
    pub thought: Option<String>,
}

/// One part of a chat API user message.
#[derive(Debug, Clone, PartialEq)]
pub enum ApiContentPart {
    Text(String),
    /// An image given as a data URL.
    ImageUrl(String),
}

/// A message in the chat API's form.
#[derive(Debug, Clone, PartialEq)]
pub enum ApiMessage {
    System(String),
    User(Vec<ApiContentPart>),
    Assistant(Option<String>),
}

/// Mathematical form of a chat API message part.
pub enum ApiContentPartView {
    Text(Seq<char>),
    ImageUrl(Seq<char>),
}

/// Mathematical form of a chat API message.
pub enum ApiMessageView {
    System(Seq<char>),
    User(Seq<ApiContentPartView>),
    Assistant(Option<Seq<char>>),
}

impl View for ApiContentPart {
    type V = ApiContentPartView;

    open spec fn view(&self) -> ApiContentPartView {
        match self {
            ApiContentPart::Text(t) => ApiContentPartView::Text(t@),
            ApiContentPart::ImageUrl(u) => ApiContentPartView::ImageUrl(u@),
        }
    }
}

/// The views of a sequence of parts.
pub open spec fn api_parts_view(v: Seq<ApiContentPart>) -> Seq<ApiContentPartView> {
    v.map_values(|p: ApiContentPart| p@)
}

impl View for ApiMessage {
    type V = ApiMessageView;

    open spec fn view(&self) -> ApiMessageView {
        match self {
            ApiMessage::System(t) => ApiMessageView::System(t@),
            ApiMessage::User(parts) => ApiMessageView::User(api_parts_view(parts@)),
            ApiMessage::Assistant(c) => ApiMessageView::Assistant(
                match c {
                    Some(t) => Some(t@),
                    None => None,
                },
            ),
        }
    }
}

/// The standard Base64 text (with padding) that the `base64` crate writes
/// for `bytes`.
pub uninterp spec fn base64_standard(bytes: Seq<u8>) -> Seq<char>;

/// `base64::engine::general_purpose::STANDARD.encode`.
#[verifier::external_body]
fn base64_encode(bytes: &Vec<u8>) -> (r: String)
    ensures
        r@ == base64_standard(bytes@),
{
    base64::Engine::encode(&base64::engine::general_purpose::STANDARD, bytes)
}

/// A message part as the chat API takes it: text as it is, an image as a
/// PNG data URL.
pub open spec fn api_part_spec(c: MultiModalContentView) -> ApiContentPartView {
    match c {
        MultiModalContentView::Text(t) => ApiContentPartView::Text(t),
        MultiModalContentView::Image(b) => ApiContentPartView::ImageUrl("data:image/png;base64,"@ + base64_standard(b)),
    }
}

/// A conversation message as the chat API takes it; tool results are not
/// sent.
pub open spec fn api_message_spec(m: LLMMessageView) -> Option<ApiMessageView> {
    match m {
        LLMMessageView::System { content } => Some(ApiMessageView::System(content)),
        LLMMessageView::User { content, .. } => Some(ApiMessageView::User(
            match content {
                UserContentView::String(t) => seq![ApiContentPartView::Text(t)],
                UserContentView::MultiModal(parts) => parts.map_values(|c: MultiModalContentView| api_part_spec(c)),
            },
        )),
        LLMMessageView::Assistant { content, .. } => Some(ApiMessageView::Assistant(
            match content {
                AssistantContentView::String(t) => Some(t),
                AssistantContentView::FunctionCalls(_) => None,
            },
        )),
        LLMMessageView::Tool { .. } => None,
    }
}

/// A conversation in the chat API's form, tool results left out.
pub open spec fn api_messages_spec(h: Seq<LLMMessageView>) -> Seq<ApiMessageView>
    decreases h.len(),
{
    if h.len() == 0 {
        Seq::empty()
    } else {
        let prev = api_messages_spec(h.drop_last());
        match api_message_spec(h.last()) {
            Some(m) => prev.push(m),
            None => prev,
        }
    }
}

fn api_part(c: &MultiModalContent) -> (r: ApiContentPart)
    ensures
        r@ == api_part_spec(c@),
{
    match c {
        MultiModalContent::Text(t) => ApiContentPart::Text(t.clone()),
        MultiModalContent::Image(b) => {
            let e = base64_encode(b);
            ApiContentPart::ImageUrl(concat("data:image/png;base64,", e.as_str()))
        },
    }
}

/// One conversation message in the chat API's form (see `api_message_spec`).
pub fn to_api_message(m: &LLMMessage) -> (r: Option<ApiMessage>)
    ensures
        match r {
            Some(a) => api_message_spec(m@) == Some(a@),
            None => api_message_spec(m@) is None,
        },
{
    match m {
        LLMMessage::System(s) => Some(ApiMessage::System(s.content.clone())),
        LLMMessage::User(u) => {
            let mut parts: Vec<ApiContentPart> = Vec::new();
            match &u.content {
                UserContent::String(t) => {
                    parts.push(ApiContentPart::Text(t.clone()));
                    assert(api_parts_view(parts@) =~= seq![ApiContentPartView::Text(t@)]);
                },
                UserContent::MultiModal(v) => {
                    let ghost pv = crate::message::parts_view(v@);
                    let mut i: usize = 0;
                    while i < v.len()
                        invariant
                            i <= v@.len(),
                            pv == crate::message::parts_view(v@),
                            api_parts_view(parts@) == pv.subrange(0, i as int).map_values(
                                |c: MultiModalContentView| api_part_spec(c),
                            ),
                        decreases v@.len() - i,
                    {
                        let p = api_part(&v[i]);
                        let ghost prev = parts@;
                        let ghost p_v = p@;
                        parts.push(p);
                        proof {
                            assert(parts@ == prev.push(p));
                            assert(api_parts_view(parts@) =~= api_parts_view(prev).push(p_v));
                            assert(pv.subrange(0, i + 1).map_values(|c: MultiModalContentView| api_part_spec(c))
                                =~= pv.subrange(0, i as int).map_values(|c: MultiModalContentView| api_part_spec(c)).push(
                                p_v,
                            ));
                        }
                        i = i + 1;
                    }
                    assert(pv.subrange(0, v@.len() as int) =~= pv);
                },
            }
            Some(ApiMessage::User(parts))
        },
        LLMMessage::Assistant(a) => {
            let c = match &a.content {
                AssistantContent::String(t) => Some(t.clone()),
                AssistantContent::FunctionCalls(_) => None,
            };
            Some(ApiMessage::Assistant(c))
        },
        LLMMessage::Tool(_) => None,
    }
}

/// The conversation in the chat API's form (see `api_messages_spec`).
pub fn to_api_messages(history: &[LLMMessage]) -> (r: Vec<ApiMessage>)
    ensures
        r@.map_values(|a: ApiMessage| a@) == api_messages_spec(history@.map_values(|m: LLMMessage| m@)),
{
    let ghost h = history@.map_values(|m: LLMMessage| m@);
    let mut r: Vec<ApiMessage> = Vec::new();
    let mut i: usize = 0;
    while i < history.len()
        invariant
            i <= history@.len(),
            h == history@.map_values(|m: LLMMessage| m@),
            r@.map_values(|a: ApiMessage| a@) == api_messages_spec(h.subrange(0, i as int)),
        decreases history@.len() - i,
    {
        assert(h.subrange(0, i + 1).drop_last() =~= h.subrange(0, i as int));
        assert(h.subrange(0, i + 1).last() == history@[i as int]@);
        match to_api_message(&history[i]) {
            Some(a) => {
                let ghost prev = r@;
                let ghost av = a@;
                r.push(a);
                assert(r@ == prev.push(a));
                assert(r@.map_values(|a: ApiMessage| a@) =~= prev.map_values(|a: ApiMessage| a@).push(av));
            },
            None => {},
        }
        i = i + 1;
    }
    assert(h.subrange(0, h.len() as int) =~= h);
    r
}

/// What the first choice of a chat reply held: its tool calls, if any, and
/// its text, if any.
pub struct ReplyChoice {
    pub tool_calls: Option<Vec<FunctionCall>>,
    pub content: Option<String>,
}

/// Whether `r` holds exactly the answer `a`.
pub open spec fn is_single(r: Result<Vec<LLMResponse>, String>, a: LLMResponse) -> bool {
    &&& r matches Ok(v)
    &&& v@ == seq![a]
}

/// Reads a chat reply from its first choice: tool calls when it has them,
/// else its text; a reply with neither (or with no choice) is an error.
pub fn interpret_reply(first_choice: Option<ReplyChoice>) -> (r: Result<Vec<LLMResponse>, String>)
    ensures
        match first_choice {
            Some(ReplyChoice { tool_calls: Some(calls), .. }) => is_single(r, LLMResponse::FunctionCalls(calls)),
            Some(ReplyChoice { tool_calls: None, content: Some(t) }) => is_single(r, LLMResponse::Text(t)),
            _ => r matches Err(e) && e@ == "No valid response from LLM"@,
        },
{
    match first_choice {
        Some(ReplyChoice { tool_calls: Some(calls), .. }) => {
            let mut v: Vec<LLMResponse> = Vec::new();
            v.push(LLMResponse::FunctionCalls(calls));
            Ok(v)
        },
        Some(ReplyChoice { tool_calls: None, content: Some(t) }) => {
            let mut v: Vec<LLMResponse> = Vec::new();
            v.push(LLMResponse::Text(t));
            Ok(v)
        },
        _ => Err(String::from_str("No valid response from LLM")),
    }
}

/// The endpoint a request goes to: API key, base URL and model.
pub struct Endpoint {
    pub api_key: String,
    pub base_url: String,
    pub model: String,
}

/// Whether `v` is the JSON string `s`.
pub open spec fn is_json_string(v: JsonValue, s: Seq<char>) -> bool {
    v matches JsonValue::String(t) && t@ == s
}

/// The request parameters that ask the completion service for a JSON
/// answer, where one is asked for (`json_output` is `Some(true)`): the
/// message result format and a JSON-object response format. None otherwise.
pub fn json_output_parameters(json_output: Option<bool>) -> (r: Vec<(String, JsonValue)>)
    ensures
        json_output != Some(true) ==> r@.len() == 0,
        json_output == Some(true) ==> {
            &&& r@.len() == 2
            &&& r@[0].0@ == "result_format"@
            &&& is_json_string(r@[0].1, "message"@)
            &&& r@[1].0@ == "response_format"@
            &&& r@[1].1 matches JsonValue::Object(f) && f@.len() == 1 && f@[0].0@ == "type"@
                && is_json_string(f@[0].1, "json_object"@)
        },
{
    let mut r: Vec<(String, JsonValue)> = Vec::new();
    if let Some(true) = json_output {
        r.push((String::from_str("result_format"), JsonValue::String(String::from_str("message"))));
        let mut format: Vec<(String, JsonValue)> = Vec::new();
        format.push((String::from_str("type"), JsonValue::String(String::from_str("json_object"))));
        r.push((String::from_str("response_format"), JsonValue::Object(format)));
    }
    r
}

/// The endpoint settings as configured: for the DashScope service and for
/// OpenAI, each its API key, base URL and model, where set.
pub struct EndpointSettings {
    pub dashscope_api_key: Option<String>,
    pub dashscope_base_url: Option<String>,
    pub dashscope_model: Option<String>,
    pub openai_api_key: Option<String>,
    pub openai_base_url: Option<String>,
    pub openai_model: Option<String>,
}

/// The endpoint for `key` with the configured `base_url` and `model`, or
/// the given defaults where they are not set.
pub open spec fn endpoint_with(
    ep: Endpoint,
    key: String,
    base_url: Option<String>,
    model: Option<String>,
    default_url: Seq<char>,
    default_model: Seq<char>,
) -> bool {
    &&& ep.api_key@ == key@
    &&& ep.base_url@ == (match base_url {
        Some(u) => u@,
        None => default_url,
    })
    &&& ep.model@ == (match model {
        Some(m) => m@,
        None => default_model,
    })
}

/// Fills in an endpoint from a key and the optional base URL and model.
fn endpoint_from(key: String, base_url: Option<String>, model: Option<String>, default_url: &str, default_model: &str) -> (r: Endpoint)
    ensures
        endpoint_with(r, key, base_url, model, default_url@, default_model@),
{
    let u = match base_url {
        Some(u) => u,
        None => String::from_str(default_url),
    };
    let m = match model {
        Some(m) => m,
        None => String::from_str(default_model),
    };
    Endpoint { api_key: key, base_url: u, model: m }
}

/// Picks the endpoint: the DashScope service where its key is set (base
/// URL and model defaulting to its compatible mode and `qwen-vl-max`), else
/// OpenAI where its key is set (defaulting to its public API and `gpt-4o`);
/// with neither key no request can be made.
pub fn select_endpoint(settings: EndpointSettings) -> (r: Result<Endpoint, String>)
    ensures
        match (settings.dashscope_api_key, settings.openai_api_key) {
            (Some(k), _) => r matches Ok(ep) && endpoint_with(
                ep,
                k,
                settings.dashscope_base_url,
                settings.dashscope_model,
                "https://dashscope.aliyuncs.com/compatible-mode/v1"@,
                "qwen-vl-max"@,
            ),
            (None, Some(k)) => r matches Ok(ep) && endpoint_with(
                ep,
                k,
                settings.openai_base_url,
                settings.openai_model,
                "https://api.openai.com/v1"@,
                "gpt-4o"@,
            ),
            (None, None) => r matches Err(e) && e@ == "Neither DASHSCOPE_API_KEY nor OPENAI_API_KEY is set"@,
        },
{
    let EndpointSettings {
        dashscope_api_key,
        dashscope_base_url,
        dashscope_model,
        openai_api_key,
        openai_base_url,
        openai_model,
    } = settings;
    match dashscope_api_key {
        Some(k) => Ok(endpoint_from(
            k,
            dashscope_base_url,
            dashscope_model,
            "https://dashscope.aliyuncs.com/compatible-mode/v1",
            "qwen-vl-max",
        )),
        None => match openai_api_key {
            Some(k) => Ok(endpoint_from(k, openai_base_url, openai_model, "https://api.openai.com/v1", "gpt-4o")),
            None => Err(String::from_str("Neither DASHSCOPE_API_KEY nor OPENAI_API_KEY is set")),
        },
    }
}

/// The text a completion service reply carries, read from
/// `output.choices[0].message.content`, or the reason it cannot be read.
pub open spec fn reply_content_spec(v: JsonValue) -> Result<Seq<char>, Seq<char>> {
    match json_get(v, "output"@) {
        Some(JsonValue::Object(_)) => match json_get(json_get(v, "output"@)->0, "choices"@) {
            Some(JsonValue::Array(choices)) => if choices@.len() == 0 {
                Err("Invalid response: empty choices array"@)
            } else {
                match json_get(choices@[0], "message"@) {
                    Some(JsonValue::Object(_)) => match json_str(json_get(json_get(choices@[0], "message"@)->0, "content"@).unwrap_or(JsonValue::Null)) {
                        Some(t) => Ok(t),
                        None => Err("Invalid response: missing content"@),
                    },
                    _ => Err("Invalid response: missing message object"@),
                }
            },
            _ => Err("Invalid response: missing choices array"@),
        },
        _ => Err("Invalid response: missing output object"@),
    }
}

/// The number of bytes of `s` in UTF-8.
pub open spec fn utf8_len(s: Seq<char>) -> nat {
    vstd::utf8::encode_utf8(s).len()
}

/// A quarter of `x`, rounded toward zero as integer division does.
pub open spec fn quarter_toward_zero(x: i32) -> int {
    if x >= 0 {
        x / 4
    } else {
        -((-x) / 4)
    }
}

/// Reads a completion service reply: its text, the finish reason (`Length`
/// when the text has at least `max_tokens` bytes, else `Stop`), and a usage
/// estimate of a quarter of the text's byte count, taken as an `i32`, as
/// completion tokens.
pub fn parse_create_result(response: &JsonValue, max_tokens: u32) -> (r: Result<CreateResult, String>)
    ensures
        match reply_content_spec(*response) {
            Err(e) => r matches Err(m) && m@ == e,
            Ok(t) => r matches Ok(c) && {
                &&& c.content matches Content::Text(x) && x@ == t
                &&& c.finish_reason == (if (utf8_len(t) as usize) >= max_tokens as usize {
                    FinishReasons::Length
                } else {
                    FinishReasons::Stop
                })
                &&& c.usage.prompt_tokens == 0
                &&& c.usage.completion_tokens == quarter_toward_zero((utf8_len(t) as usize) as i32)
                &&& !c.cached
                &&& c.thought is None
            },
        },
{
    let output = match response.get("output") {
        Some(o) => o,
        None => {
            return Err(String::from_str("Invalid response: missing output object"));
        },
    };
    if !output.is_object() {
        return Err(String::from_str("Invalid response: missing output object"));
    }
    let choices = match output.get("choices") {
        Some(JsonValue::Array(c)) => c,
        _ => {
            return Err(String::from_str("Invalid response: missing choices array"));
        },
    };
    if choices.len() == 0 {
        return Err(String::from_str("Invalid response: empty choices array"));
    }
    let message = match choices[0].get("message") {
        Some(m) => m,
        None => {
            return Err(String::from_str("Invalid response: missing message object"));
        },
    };
    if !message.is_object() {
        return Err(String::from_str("Invalid response: missing message object"));
    }
    let content = match message.get("content") {
        Some(c) => match c.as_str() {
            Some(t) => t,
            None => {
                return Err(String::from_str("Invalid response: missing content"));
            },
        },
        None => {
            return Err(String::from_str("Invalid response: missing content"));
        },
    };
    let n = content.len();
    let finish_reason = if n >= max_tokens as usize {
        FinishReasons::Length
    } else {
        FinishReasons::Stop
    };
    let t: i32 = #[verifier::truncate] (n as i32);
    let completion = if t >= 0 { t / 4 } else { -((-(t as i64) / 4) as i32) };
    Ok(CreateResult {
        finish_reason,
        content: Content::Text(String::from_str(content)),
        usage: RequestUsage { prompt_tokens: 0, completion_tokens: completion },
        cached: false,
        thought: None,
    })
}

/// The pause before retrying after failed attempt `attempt` (counted from
/// 0) of `max_retries`: 100 ms doubled per attempt, and none after the
/// last attempt.
pub fn retry_delay_ms(attempt: u32, max_retries: u32) -> (r: Option<u64>)
    requires
        attempt < max_retries,
        attempt < 58,
    ensures
        r is Some <==> attempt + 1 < max_retries,
        r matches Some(d) ==> d == vstd::arithmetic::power2::pow2(attempt as nat) * 100,
{
    if attempt < max_retries - 1 {
        let mut p: u64 = 1;
        let mut i: u32 = 0;
        proof {
            vstd::arithmetic::power2::lemma2_to64();
        }
        while i < attempt
            invariant
                i <= attempt,
                attempt < 58,
                p == vstd::arithmetic::power2::pow2(i as nat),
            decreases attempt - i,
        {
            proof {
                vstd::arithmetic::power2::lemma_pow2_adds(i as nat, 1);
                vstd::arithmetic::power2::lemma_pow2_strictly_increases(i as nat + 1, 58);
                vstd::arithmetic::power2::lemma2_to64();
                vstd::arithmetic::power2::lemma2_to64_rest();
            }
            p = p * 2;
            i = i + 1;
        }
        proof {
            vstd::arithmetic::power2::lemma_pow2_strictly_increases(attempt as nat, 58);
            vstd::arithmetic::power2::lemma2_to64_rest();
        }
        Some(p * 100)
    } else {
        None
    }
}

/// What follows attempt `attempt` of a request retried up to
/// `max_retries` times.
#[derive(Debug, Clone, Copy, PartialEq, Eq, Structural)]
pub enum RetryStep {
    /// The attempt succeeded: its result is returned.
    Return,
    /// Wait this many milliseconds, then try again.
    Wait(u64),
    /// No attempt is left: the last error is returned.
    GiveUp,
}

/// What follows attempt `attempt` (counted from 0) of `max_retries`: a
/// success is returned, a failure is retried after `retry_delay_ms`, and the
/// last failure gives up.
pub fn next_retry(attempt: u32, max_retries: u32, succeeded: bool) -> (r: RetryStep)
    requires
        attempt < max_retries,
        attempt < 58,
    ensures
        succeeded ==> r == RetryStep::Return,
        !succeeded && attempt + 1 < max_retries ==> r == RetryStep::Wait(
            (vstd::arithmetic::power2::pow2(attempt as nat) * 100) as u64,
        ),
        !succeeded && attempt + 1 >= max_retries ==> r == RetryStep::GiveUp,
{
    if succeeded {
        return RetryStep::Return;
    }
    match retry_delay_ms(attempt, max_retries) {
        Some(d) => RetryStep::Wait(d),
        None => RetryStep::GiveUp,
    }
}

/// The error a request ends with when every attempt failed: the last
/// attempt's error, or a fixed message when no attempt was made.
pub fn give_up_error(last_error: Option<String>) -> (r: String)
    ensures
        r@ == match last_error {
            Some(e) => e@,
            None => "All retry attempts failed"@,
        },
{
    match last_error {
        Some(e) => e,
        None => String::from_str("All retry attempts failed"),
    }
}

/// Whether a request may be sent: not once cancelled, and not without messages.
pub fn check_request(cancelled: bool, n_messages: usize) -> (r: Result<(), String>)
    ensures
        cancelled ==> (r matches Err(e) && e@ == "Request cancelled"@),
        !cancelled && n_messages == 0 ==> (r matches Err(e) && e@ == "Messages cannot be empty"@),
        r is Ok <==> !cancelled && n_messages > 0,
{
    if cancelled {
        return Err(String::from_str("Request cancelled"));
    }
    if n_messages == 0 {
        return Err(String::from_str("Messages cannot be empty"));
    }
    Ok(())
}

/// Each retry waits twice as long as the one before.
pub proof fn lemma_retry_delay_doubles(attempt: nat)
    ensures
        vstd::arithmetic::power2::pow2(attempt + 1) * 100 == 2 * (vstd::arithmetic::power2::pow2(attempt) * 100),
{
    vstd::arithmetic::power2::lemma_pow2_adds(attempt, 1);
    vstd::arithmetic::power2::lemma2_to64();
}

} // verus!
