//! The plan-synthesis pipeline and the chat relay around the external
//! text-generation service.
//!
//! Everything here is a pure decision: given the saved credential, the
//! aggregated context, or the service's outcome, compute the request to send
//! or the value to return. The transport itself lives outside the crate and
//! hands back a `ServiceOutcome`. A missing credential is refused before any
//! request value exists, so no network call can be observed in that case; a
//! failed call is surfaced as `ExternalServiceError` and never retried here.

use vstd::prelude::*;
use crate::errors::AppError;
use crate::preferences::StudyPreference;
use crate::prompt::{AIContext, plan_prompt_spec, render_plan_prompt, strings_view, cat3};
use crate::suggestions::{TaskSuggestion, parse_suggestions, parse_suggestions_spec,
    suggestion_views};
use crate::timedate::Date;

verus! {

/// The model asked for when the caller names none.
pub open spec fn default_model_spec() -> Seq<char> {
    "Qwen/Qwen2.5-7B-Instruct"@
}

/// The endpoint asked when the caller names none.
pub open spec fn default_endpoint_spec() -> Seq<char> {
    "https://api.siliconflow.cn/v1/chat/completions"@
}

/// A caller's saved external-service credential and configuration.
#[derive(Debug, Clone, PartialEq, Eq)]
pub struct AIConfig {
    pub id: i64,
    pub owner_id: i64,
    pub api_key: String,
    pub model_name: String,
    pub api_endpoint: String,
}

/// What a caller supplies to save a configuration; model and endpoint are
/// optional and default.
#[derive(Debug, Clone, PartialEq, Eq)]
pub struct SaveAIConfigInput {
    pub api_key: String,
    pub model_name: Option<String>,
    pub api_endpoint: Option<String>,
}

/// Resolves configuration input against the defaults.
pub fn resolve_config_input(id: i64, owner_id: i64, input: SaveAIConfigInput) -> (r: AIConfig)
    ensures
        r.id == id && r.owner_id == owner_id,
        r.api_key == input.api_key,
        r.model_name@ == if input.model_name is Some {
            input.model_name->0@
        } else {
            default_model_spec()
        },
        r.api_endpoint@ == if input.api_endpoint is Some {
            input.api_endpoint->0@
        } else {
            default_endpoint_spec()
        },
{
    let model_name = match input.model_name {
        Some(m) => m,
        None => "Qwen/Qwen2.5-7B-Instruct".to_owned(),
    };
    let api_endpoint = match input.api_endpoint {
        Some(e) => e,
        None => "https://api.siliconflow.cn/v1/chat/completions".to_owned(),
    };
    AIConfig { id, owner_id, api_key: input.api_key, model_name, api_endpoint }
}

/// The masked form of a saved key: its first and last four characters when it
/// is longer than eight characters, four asterisks otherwise.
pub open spec fn masked_key_spec(key: Seq<char>) -> Seq<char> {
    if key.len() > 8 {
        key.subrange(0, 4) + "****"@ + key.subrange(key.len() - 4, key.len() as int)
    } else {
        "****"@
    }
}

/// Masks a saved key for display: the key itself never leaves the store.
pub fn mask_api_key(key: &str) -> (r: String)
    ensures
        r@ == masked_key_spec(key@),
{
    let n = key.unicode_len();
    if n > 8 {
        let head = key.substring_char(0, 4);
        let tail = key.substring_char(n - 4, n);
        cat3(head, "****", tail)
    } else {
        "****".to_owned()
    }
}

/// A configuration as shown to the caller: key masked, and whether one is
/// saved at all.
#[derive(Debug, Clone, PartialEq, Eq)]
pub struct AIConfigResponse {
    pub api_key_masked: String,
    pub model_name: String,
    pub api_endpoint: String,
    pub is_configured: bool,
}

/// Renders a possibly-absent configuration for display: the defaults, with
/// an empty mask, when none is saved.
pub fn config_response(config: Option<&AIConfig>) -> (r: AIConfigResponse)
    ensures
        config is Some ==> r.api_key_masked@ == masked_key_spec(config->0.api_key@)
            && r.model_name@ == config->0.model_name@ && r.api_endpoint@
            == config->0.api_endpoint@ && r.is_configured,
        config is None ==> r.api_key_masked@.len() == 0 && r.model_name@ == default_model_spec()
            && r.api_endpoint@ == default_endpoint_spec() && !r.is_configured,
{
    match config {
        Some(c) => AIConfigResponse {
            api_key_masked: mask_api_key(c.api_key.as_str()),
            model_name: c.model_name.clone(),
            api_endpoint: c.api_endpoint.clone(),
            is_configured: true,
        },
        None => {
            let r = AIConfigResponse {
                api_key_masked: String::new(),
                model_name: "Qwen/Qwen2.5-7B-Instruct".to_owned(),
                api_endpoint: "https://api.siliconflow.cn/v1/chat/completions".to_owned(),
                is_configured: false,
            };
            r
        },
    }
}

/// One role-tagged turn of a conversation.
#[derive(Debug, Clone, PartialEq, Eq)]
pub struct ChatMessage {
    pub role: String,
    pub content: String,
}

impl ChatMessage {
    /// A field-for-field copy.
    pub fn clone_message(&self) -> (r: ChatMessage)
        ensures
            r == *self,
    {
        ChatMessage { role: self.role.clone(), content: self.content.clone() }
    }
}

/// Everything the transport needs for one call to the service: where, as
/// whom, and what. The temperature is carried in tenths (7 means 0.7), the
/// output budget in tokens.
#[derive(Debug, Clone, PartialEq, Eq)]
pub struct PlanRequest {
    pub api_key: String,
    pub api_endpoint: String,
    pub model_name: String,
    pub messages: Vec<ChatMessage>,
    pub max_tokens: u32,
    pub temperature_tenths: u32,
}

/// What came back from the transport: a failure payload (a non-success
/// status or a transport error), or a success with the reply text the
/// service chose to give, if any.
#[derive(Debug, Clone, PartialEq, Eq)]
pub enum ServiceOutcome {
    Failure(String),
    Success(Option<String>),
}

/// Prepares the one plan-generation request. Fails with `NotConfigured`
/// exactly when no credential is saved; no request value exists then, so no
/// network call can follow. Otherwise the single user turn carries the
/// rendered instruction document, with a bounded output and a moderate,
/// non-zero temperature.
pub fn prepare_plan_request(
    config: Option<&AIConfig>,
    pref: Option<&StudyPreference>,
    ctx: &AIContext,
    reviews: &Vec<String>,
    tasks: &Vec<String>,
    today: &Date,
) -> (r: Result<PlanRequest, AppError>)
    requires
        pref is Some ==> pref->0.wf(),
        today.valid(),
    ensures
        r is Err <==> config is None,
        r is Err ==> r->Err_0 == AppError::NotConfigured,
        r is Ok ==> {
            let req = r->Ok_0;
            &&& req.api_key@ == config->0.api_key@
            &&& req.api_endpoint@ == config->0.api_endpoint@
            &&& req.model_name@ == config->0.model_name@
            &&& req.messages@.len() == 1
            &&& req.messages@[0].role@ == "user"@
            &&& req.messages@[0].content@ == plan_prompt_spec(
                match pref {
                    Some(p) => Some(*p),
                    None => None,
                },
                *ctx,
                strings_view(reviews@),
                strings_view(tasks@),
                *today,
            )
            &&& req.max_tokens == 1000
            &&& req.temperature_tenths == 7
        },
{
    let c = match config {
        Some(c) => c,
        None => {
            return Err(AppError::NotConfigured);
        },
    };
    let prompt = render_plan_prompt(pref, ctx, reviews, tasks, today);
    let mut messages: Vec<ChatMessage> = Vec::new();
    messages.push(ChatMessage { role: "user".to_owned(), content: prompt });
    Ok(
        PlanRequest {
            api_key: c.api_key.clone(),
            api_endpoint: c.api_endpoint.clone(),
            model_name: c.model_name.clone(),
            messages,
            max_tokens: 1000,
            temperature_tenths: 7,
        },
    )
}

/// Prepares the connection-probe request: one short greeting with a tiny
/// output budget. Fails with `NotConfigured` exactly when no credential is
/// saved.
pub fn prepare_probe_request(config: Option<&AIConfig>) -> (r: Result<PlanRequest, AppError>)
    ensures
        r is Err <==> config is None,
        r is Err ==> r->Err_0 == AppError::NotConfigured,
        r is Ok ==> {
            let req = r->Ok_0;
            &&& req.api_key@ == config->0.api_key@
            &&& req.api_endpoint@ == config->0.api_endpoint@
            &&& req.model_name@ == config->0.model_name@
            &&& req.messages@.len() == 1
            &&& req.messages@[0].role@ == "user"@
            &&& req.messages@[0].content@ == "你好"@
            &&& req.max_tokens == 10
        },
{
    let c = match config {
        Some(c) => c,
        None => {
            return Err(AppError::NotConfigured);
        },
    };
    let mut messages: Vec<ChatMessage> = Vec::new();
    messages.push(ChatMessage { role: "user".to_owned(), content: "你好".to_owned() });
    Ok(
        PlanRequest {
            api_key: c.api_key.clone(),
            api_endpoint: c.api_endpoint.clone(),
            model_name: c.model_name.clone(),
            messages,
            max_tokens: 10,
            temperature_tenths: 7,
        },
    )
}

/// Turns the service's outcome into the pipeline's result: a failure payload
/// becomes `ExternalServiceError` verbatim, a success is strictly validated,
/// and a success without any reply text validates like an empty reply (and
/// so is malformed). Nothing is retried.
pub fn handle_plan_reply(outcome: ServiceOutcome) -> (r: Result<Vec<TaskSuggestion>, AppError>)
    ensures
        outcome matches ServiceOutcome::Failure(e) ==> r == Err::<Vec<TaskSuggestion>, AppError>(
            AppError::ExternalServiceError(e),
        ),
        outcome matches ServiceOutcome::Success(Some(c)) ==> {
            &&& (r is Ok <==> parse_suggestions_spec(c@) is Some)
            &&& (r is Ok ==> suggestion_views(r->Ok_0@) == parse_suggestions_spec(c@)->0)
            &&& (r is Err ==> (r->Err_0 matches AppError::MalformedSuggestions(raw) && raw@ == c@))
        },
        outcome matches ServiceOutcome::Success(None) ==> (
        r->Err_0 matches AppError::MalformedSuggestions(raw) && raw@.len() == 0) && r is Err,
{
    match outcome {
        ServiceOutcome::Failure(e) => Err(AppError::ExternalServiceError(e)),
        ServiceOutcome::Success(Some(c)) => parse_suggestions(c.as_str()),
        ServiceOutcome::Success(None) => {
            let r = parse_suggestions("");
            proof {
                reveal_strlit("");
                assert(crate::suggestions::sp_ws(""@, 0) == 0);
            }
            r
        },
    }
}

/// The fixed persona instruction the chat relay opens every conversation
/// with.
pub open spec fn chat_persona_spec() -> Seq<char> {
    "你是一个专业的考研学习助手，专门帮助考研学生解答学习问题。你的特点：\n\n"@
        + "1. 专业知识：精通考研各科目（政治、英语、数学、专业课）的知识点和考试技巧\n"@
        + "2. 学习方法：熟悉各种高效学习方法、记忆技巧、时间管理方法\n"@
        + "3. 心理辅导：能够帮助学生缓解考研压力，调整心态\n"@
        + "4. 经验分享：了解考研流程、院校选择、复试准备等\n\n"@
        + "回答要求：\n"@
        + "- 回答要简洁明了，重点突出\n"@
        + "- 给出具体可操作的建议\n"@
        + "- 适当使用emoji让回答更生动\n"@
        + "- 如果是学科问题，要给出详细的解题思路\n"@
        + "- 鼓励学生，保持积极正面的态度"@
}

fn chat_persona() -> (r: String)
    ensures
        r@ == chat_persona_spec(),
{
    let mut r = "你是一个专业的考研学习助手，专门帮助考研学生解答学习问题。你的特点：\n\n".to_owned();
    r.append("1. 专业知识：精通考研各科目（政治、英语、数学、专业课）的知识点和考试技巧\n");
    r.append("2. 学习方法：熟悉各种高效学习方法、记忆技巧、时间管理方法\n");
    r.append("3. 心理辅导：能够帮助学生缓解考研压力，调整心态\n");
    r.append("4. 经验分享：了解考研流程、院校选择、复试准备等\n\n");
    r.append("回答要求：\n");
    r.append("- 回答要简洁明了，重点突出\n");
    r.append("- 给出具体可操作的建议\n");
    r.append("- 适当使用emoji让回答更生动\n");
    r.append("- 如果是学科问题，要给出详细的解题思路\n");
    r.append("- 鼓励学生，保持积极正面的态度");
    r
}

/// How many history turns one chat request carries at most.
pub const CHAT_HISTORY_LIMIT: usize = 10;

/// Prepares one chat request: the fixed persona turn, then at most the ten
/// most recent caller-supplied turns verbatim and in order, then the new
/// user message, with a larger output budget and the same temperature
/// policy. Fails with `NotConfigured` exactly when no credential is saved.
pub fn prepare_chat_request(
    config: Option<&AIConfig>,
    message: String,
    history: &Vec<ChatMessage>,
) -> (r: Result<PlanRequest, AppError>)
    ensures
        r is Err <==> config is None,
        r is Err ==> r->Err_0 == AppError::NotConfigured,
        r is Ok ==> {
            let req = r->Ok_0;
            let skip = if history@.len() > CHAT_HISTORY_LIMIT {
                history@.len() - CHAT_HISTORY_LIMIT
            } else {
                0int
            };
            &&& req.api_key@ == config->0.api_key@
            &&& req.api_endpoint@ == config->0.api_endpoint@
            &&& req.model_name@ == config->0.model_name@
            &&& req.messages@.len() == history@.len() - skip + 2
            &&& req.messages@[0].role@ == "system"@
            &&& req.messages@[0].content@ == chat_persona_spec()
            &&& (forall|k: int|
                0 <= k < history@.len() - skip ==> #[trigger] req.messages@[1 + k] == history@[skip
                    + k])
            &&& req.messages@[req.messages@.len() - 1].role@ == "user"@
            &&& req.messages@[req.messages@.len() - 1].content@ == message@
            &&& req.max_tokens == 1000
            &&& req.temperature_tenths == 7
        },
{
    let c = match config {
        Some(c) => c,
        None => {
            return Err(AppError::NotConfigured);
        },
    };
    let skip: usize = if history.len() > CHAT_HISTORY_LIMIT {
        history.len() - CHAT_HISTORY_LIMIT
    } else {
        0
    };
    let mut messages: Vec<ChatMessage> = Vec::new();
    messages.push(ChatMessage { role: "system".to_owned(), content: chat_persona() });
    let mut i: usize = skip;
    while i < history.len()
        invariant
            skip <= i <= history@.len(),
            messages@.len() == 1 + i - skip,
            messages@[0].role@ == "system"@ && messages@[0].content@ == chat_persona_spec(),
            forall|k: int| 0 <= k < i - skip ==> #[trigger] messages@[1 + k] == history@[skip + k],
        decreases history@.len() - i,
    {
        messages.push(history[i].clone_message());
        i = i + 1;
    }
    messages.push(ChatMessage { role: "user".to_owned(), content: message });
    Ok(
        PlanRequest {
            api_key: c.api_key.clone(),
            api_endpoint: c.api_endpoint.clone(),
            model_name: c.model_name.clone(),
            messages,
            max_tokens: 1000,
            temperature_tenths: 7,
        },
    )
}

/// The fixed fallback the chat relay answers with when the service succeeds
/// without any reply text.
pub open spec fn chat_fallback_spec() -> Seq<char> {
    "抱歉，我暂时无法回答这个问题。"@
}

/// Turns the service's outcome into the chat relay's result: the raw reply
/// text with no structural parsing, the fixed fallback for an empty-but-
/// successful reply, and `ExternalServiceError` verbatim for a failure.
pub fn chat_reply(outcome: ServiceOutcome) -> (r: Result<String, AppError>)
    ensures
        outcome matches ServiceOutcome::Failure(e) ==> r == Err::<String, AppError>(
            AppError::ExternalServiceError(e),
        ),
        outcome matches ServiceOutcome::Success(Some(c)) ==> r == Ok::<String, AppError>(c),
        outcome matches ServiceOutcome::Success(None) ==> r is Ok && r->Ok_0@
            == chat_fallback_spec(),
{
    match outcome {
        ServiceOutcome::Failure(e) => Err(AppError::ExternalServiceError(e)),
        ServiceOutcome::Success(Some(c)) => Ok(c),
        ServiceOutcome::Success(None) => Ok("抱歉，我暂时无法回答这个问题。".to_owned()),
    }
}

} // verus!
