//! The closed set of request failures and the one place that turns a failure
//! into an HTTP status and a JSON error body.

use vstd::prelude::*;
use vstd::string::StringExecFns;

verus! {

/// Status of every successful response.
pub const STATUS_OK: u16 = 200;

/// Status for input that failed validation.
pub const STATUS_BAD_REQUEST: u16 = 400;

/// Status for a failure of the store or of the outbound call itself.
pub const STATUS_INTERNAL_SERVER_ERROR: u16 = 500;

/// Status for an upstream that answered with a non-success status.
pub const STATUS_BAD_GATEWAY: u16 = 502;

/// Why a request failed.
///
/// `Db` and `HttpClient` carry what the driver reported; it is kept for the
/// caller's logs and never shown in the response. `Upstream` carries the
/// rendered upstream body and `BadRequest` the reason, both of which are
/// shown.
#[derive(Clone, Debug, PartialEq, Eq)]
pub enum AppError {
    Db(String),
    HttpClient(String),
    Upstream(String),
    BadRequest(String),
}

/// An `AppError` with its texts as character sequences.
pub enum AppErrorView {
    Db(Seq<char>),
    HttpClient(Seq<char>),
    Upstream(Seq<char>),
    BadRequest(Seq<char>),
}

impl View for AppError {
    type V = AppErrorView;

    open spec fn view(&self) -> AppErrorView {
        match self {
            AppError::Db(d) => AppErrorView::Db(d@),
            AppError::HttpClient(d) => AppErrorView::HttpClient(d@),
            AppError::Upstream(d) => AppErrorView::Upstream(d@),
            AppError::BadRequest(d) => AppErrorView::BadRequest(d@),
        }
    }
}

impl AppErrorView {
    /// The HTTP status the failure is answered with.
    pub open spec fn status_code(self) -> u16 {
        match self {
            AppErrorView::BadRequest(_) => STATUS_BAD_REQUEST,
            AppErrorView::Upstream(_) => STATUS_BAD_GATEWAY,
            AppErrorView::Db(_) | AppErrorView::HttpClient(_) => STATUS_INTERNAL_SERVER_ERROR,
        }
    }

    /// The human-readable message the failure is answered with.
    pub open spec fn message(self) -> Seq<char> {
        match self {
            AppErrorView::Db(_) => "database error"@,
            AppErrorView::HttpClient(_) => "http client error"@,
            AppErrorView::Upstream(d) => "upstream llm error: "@ + d,
            AppErrorView::BadRequest(d) => "bad request: "@ + d,
        }
    }
}

/// The JSON body of every failure response: a single `error` field.
#[derive(Clone, Debug, PartialEq, Eq)]
pub struct ErrorBody {
    pub error: String,
}

/// A failure as it goes out: status and body.
#[derive(Clone, Debug, PartialEq, Eq)]
pub struct ErrorResponse {
    pub status: u16,
    pub body: ErrorBody,
}

impl AppError {
    /// The HTTP status for this failure.
    pub fn status_code(&self) -> (status: u16)
        ensures
            status == self@.status_code(),
    {
        match self {
            AppError::BadRequest(_) => STATUS_BAD_REQUEST,
            AppError::Upstream(_) => STATUS_BAD_GATEWAY,
            AppError::Db(_) | AppError::HttpClient(_) => STATUS_INTERNAL_SERVER_ERROR,
        }
    }

    /// The message for this failure.
    pub fn message(&self) -> (text: String)
        ensures
            text@ == self@.message(),
    {
        match self {
            AppError::Db(_) => String::from_str("database error"),
            AppError::HttpClient(_) => String::from_str("http client error"),
            AppError::Upstream(d) => String::from_str("upstream llm error: ").concat(d.as_str()),
            AppError::BadRequest(d) => String::from_str("bad request: ").concat(d.as_str()),
        }
    }

    /// Renders the failure as a response: the status of its kind and a body
    /// whose `error` field is its message.
    pub fn into_response(self) -> (response: ErrorResponse)
        ensures
            response.status == self@.status_code(),
            response.body.error@ == self@.message(),
    {
        let status = self.status_code();
        let error = self.message();
        ErrorResponse { status, body: ErrorBody { error } }
    }
}

/// What the store answered becomes the handler's outcome: its rows or row
/// unchanged, its failure a `Db` error that keeps the description.
pub fn store_outcome<T>(answer: Result<T, String>) -> (outcome: Result<T, AppError>)
    ensures
        match answer {
            Ok(value) => outcome == Ok::<T, AppError>(value),
            Err(detail) => outcome matches Err(e) && e@ == AppErrorView::Db(detail@),
        },
{
    match answer {
        Ok(value) => Ok(value),
        Err(detail) => Err(AppError::Db(detail)),
    }
}

/// The status a handler's outcome is answered with.
pub open spec fn status_of<T>(outcome: Result<T, AppError>) -> u16 {
    match outcome {
        Ok(_) => STATUS_OK,
        Err(e) => e@.status_code(),
    }
}

/// The HTTP status for a handler's outcome: 200 for a success, the status of
/// its kind for a failure.
pub fn response_status<T>(outcome: &Result<T, AppError>) -> (status: u16)
    ensures
        status == status_of(*outcome),
{
    match outcome {
        Ok(_) => STATUS_OK,
        Err(e) => e.status_code(),
    }
}

/// Every failure is answered with 400, 500 or 502, and only a rejected input
/// with 400, only a rejecting upstream with 502.
pub proof fn lemma_status_codes(e: AppErrorView)
    ensures
        e.status_code() == 400 || e.status_code() == 500 || e.status_code() == 502,
        e.status_code() == 400 <==> e is BadRequest,
        e.status_code() == 502 <==> e is Upstream,
        e.status_code() == 500 <==> e is Db || e is HttpClient,
{
}

} // verus!
