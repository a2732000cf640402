//! The chat proxy: validate, forward, interpret, persist, respond.
//!
//! The exchange is a line of three decisions with the two calls between
//! them left to the caller. `proxy_chat_completion` validates and says where
//! to forward; `Forward::upstream_replied` interprets the reply and says what
//! to persist; `Persist::stored` says what to respond. A state can only be
//! had from the step before it, so nothing is persisted that the upstream
//! did not answer successfully, and nothing is forwarded that was not
//! validated.

use crate::config::{Config, ConfigView};
use crate::error::{AppError, AppErrorView};
use crate::json::{is_object, json_is_object, json_member, json_text, member, render};
use crate::text::{strip_trailing, trim_end_matches};
use serde_json::Value;
use vstd::prelude::*;
use vstd::string::StringExecFns;

verus! {

/// The statement that records an exchange. It binds user id, student id,
/// prompt and response, in this order.
pub const INSERT_INTERACTION_SQL: &'static str =
    "INSERT INTO ai_interactions (user_id, student_id, prompt, response) VALUES (?, ?, ?, ?)";

/// What a caller sends to the proxy.
#[derive(Debug, PartialEq, Eq)]
pub struct LlmProxyRequest {
    pub user_id: Option<i64>,
    pub student_id: Option<i64>,
    pub payload: Value,
}

/// What the proxy answers: the upstream body under a single field.
#[derive(Debug, PartialEq, Eq)]
pub struct LlmProxyResponse {
    pub upstream: Value,
}

/// The record of one exchange, ready to be bound to `INSERT_INTERACTION_SQL`.
#[derive(Clone, Debug, PartialEq, Eq)]
pub struct AIInteraction {
    pub user_id: Option<i64>,
    pub student_id: Option<i64>,
    pub prompt: String,
    pub response: String,
}

/// How the outbound call ended.
#[derive(Debug, PartialEq, Eq)]
pub enum UpstreamReply {
    /// The call itself failed, or the body could not be decoded; with the
    /// client's description.
    Failed(String),
    /// The upstream answered.
    Answered { status: u16, body: Value },
}

/// A validated exchange, waiting for the upstream: POST `payload()` to
/// `url()`, then call `upstream_replied`.
#[derive(Debug)]
pub struct Forward {
    url: String,
    request: LlmProxyRequest,
}

/// An exchange that the upstream answered successfully, waiting for the
/// store: insert `record()`, then call `stored`.
#[derive(Debug)]
pub struct Persist {
    record: AIInteraction,
    upstream: Value,
}

/// Whether an HTTP status is a success: 200 to 299.
pub open spec fn status_is_success(status: u16) -> bool {
    200 <= status <= 299
}

/// Where requests are forwarded: the base URL without its trailing slashes,
/// then the chat path.
pub open spec fn upstream_url_of(config: ConfigView) -> Seq<char> {
    strip_trailing(config.llm_base_url, '/') + config.llm_chat_path
}

/// The text kept as the prompt of an exchange: the rendering of the
/// `messages` member where the payload has one, else of the whole payload.
pub open spec fn prompt_of(payload: Value) -> Seq<char> {
    match json_member(payload, "messages"@) {
        Some(messages) => json_text(messages),
        None => json_text(payload),
    }
}

/// What is persisted for a request that the upstream answered with `body`.
pub open spec fn record_matches(
    record: AIInteraction,
    request: LlmProxyRequest,
    body: Value,
) -> bool {
    &&& record.user_id == request.user_id
    &&& record.student_id == request.student_id
    &&& record.prompt@ == prompt_of(request.payload)
    &&& record.response@ == json_text(body)
}

/// Whether a status is a success.
pub fn is_success(status: u16) -> (success: bool)
    ensures
        success == status_is_success(status),
{
    200 <= status && status < 300
}

/// Validation, given whether the payload is a JSON object: an object passes,
/// anything else is a bad request.
pub fn validate_payload(payload_is_object: bool) -> (outcome: Result<(), AppError>)
    ensures
        payload_is_object ==> outcome is Ok,
        !payload_is_object ==> (outcome matches Err(e) && e@ == AppErrorView::BadRequest(
            "payload must be a JSON object"@,
        )),
{
    if payload_is_object {
        Ok(())
    } else {
        Err(AppError::BadRequest(String::from_str("payload must be a JSON object")))
    }
}

/// Interpretation of an answer, given its status and its rendered body: a
/// success hands the rendering on as the response text to persist, any other
/// status is an `Upstream` error that carries the rendering.
pub fn interpret_status(status: u16, rendered: String) -> (outcome: Result<String, AppError>)
    ensures
        status_is_success(status) ==> outcome == Ok::<String, AppError>(rendered),
        !status_is_success(status) ==> (outcome matches Err(e) && e@ == AppErrorView::Upstream(
            rendered@,
        )),
{
    if is_success(status) {
        Ok(rendered)
    } else {
        Err(AppError::Upstream(rendered))
    }
}

/// The URL to forward to.
pub fn upstream_url(config: &Config) -> (url: String)
    ensures
        url@ == upstream_url_of(config@),
{
    let base = trim_end_matches(config.llm_base_url.as_str(), '/');
    String::from_str(base).concat(config.llm_chat_path.as_str())
}

/// The prompt text to persist for a payload.
pub fn prompt_text(payload: &Value) -> (prompt: String)
    ensures
        prompt@ == prompt_of(*payload),
{
    match member(payload, "messages") {
        Some(messages) => render(messages),
        None => render(payload),
    }
}

impl Forward {
    pub closed spec fn url_spec(self) -> Seq<char> {
        self.url@
    }

    pub closed spec fn request_spec(self) -> LlmProxyRequest {
        self.request
    }

    /// Where to send the payload.
    pub fn url(&self) -> (url: &str)
        ensures
            url@ == self.url_spec(),
    {
        self.url.as_str()
    }

    /// The body to send.
    pub fn payload(&self) -> (payload: &Value)
        ensures
            *payload == self.request_spec().payload,
    {
        &self.request.payload
    }

    /// Interprets how the outbound call ended. A failed call is an
    /// `HttpClient` error. An answer with a status outside 200 to 299 is an
    /// `Upstream` error that carries the rendered body. Either way nothing is
    /// to be persisted. Only a successful answer leads on, with the record
    /// to persist.
    pub fn upstream_replied(self, reply: UpstreamReply) -> (next: Result<Persist, AppError>)
        ensures
            match reply {
                UpstreamReply::Failed(detail) => next matches Err(e) && e@
                    == AppErrorView::HttpClient(detail@),
                UpstreamReply::Answered { status, body } => if status_is_success(status) {
                    next matches Ok(persist) && persist.upstream_spec() == body && record_matches(
                        persist.record_spec(),
                        self.request_spec(),
                        body,
                    )
                } else {
                    next matches Err(e) && e@ == AppErrorView::Upstream(json_text(body))
                },
            },
    {
        match reply {
            UpstreamReply::Failed(detail) => Err(AppError::HttpClient(detail)),
            UpstreamReply::Answered { status, body } => {
                match interpret_status(status, render(&body)) {
                    Ok(response) => {
                        let record = AIInteraction {
                            user_id: self.request.user_id,
                            student_id: self.request.student_id,
                            prompt: prompt_text(&self.request.payload),
                            response,
                        };
                        Ok(Persist { record, upstream: body })
                    },
                    Err(rejected) => Err(rejected),
                }
            },
        }
    }
}

impl Persist {
    pub closed spec fn record_spec(self) -> AIInteraction {
        self.record
    }

    pub closed spec fn upstream_spec(self) -> Value {
        self.upstream
    }

    /// The row to insert.
    pub fn record(&self) -> (record: &AIInteraction)
        ensures
            *record == self.record_spec(),
    {
        &self.record
    }

    /// Ends the exchange once the store has answered. If the insert failed
    /// the caller gets a `Db` error, although the upstream was already
    /// called; otherwise the upstream body, unmodified.
    pub fn stored(self, inserted: Result<(), String>) -> (outcome: Result<
        LlmProxyResponse,
        AppError,
    >)
        ensures
            match inserted {
                Ok(_) => outcome matches Ok(response) && response.upstream == self.upstream_spec(),
                Err(detail) => outcome matches Err(e) && e@ == AppErrorView::Db(detail@),
            },
    {
        match inserted {
            Ok(_) => Ok(LlmProxyResponse { upstream: self.upstream }),
            Err(detail) => Err(AppError::Db(detail)),
        }
    }
}

/// Starts an exchange. A payload that is not a JSON object is rejected
/// before anything is sent; any other is to be forwarded, as it came, to the
/// configured upstream.
pub fn proxy_chat_completion(config: &Config, body: LlmProxyRequest) -> (next: Result<
    Forward,
    AppError,
>)
    ensures
        !json_is_object(body.payload) ==> (next matches Err(e) && e@
            == AppErrorView::BadRequest("payload must be a JSON object"@)),
        json_is_object(body.payload) ==> (next matches Ok(forward) && forward.url_spec()
            == upstream_url_of(config@) && forward.request_spec() == body),
{
    match validate_payload(is_object(&body.payload)) {
        Ok(_) => Ok(Forward { url: upstream_url(config), request: body }),
        Err(rejected) => Err(rejected),
    }
}

} // verus!
