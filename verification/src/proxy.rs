//! The calls to the companion service.
//!
//! Each lifecycle or configuration intent is one HTTP call. This module
//! says what to send for an operation and what its answer means; the caller
//! sends the request and reports what came of it, first the response's
//! status, then its body. A body is asked for, and read, only behind a
//! status of success. What the caller has in words of a failure travels
//! with the report and ends up in the message.

use crate::document::{describe, parse, parsed};
use vstd::prelude::*;

verus! {

/// Where the service listens.
pub const BASE_URL: &'static str = "http://127.0.0.1:5000";

/// Path that answers with the run state.
pub const STATUS_PATH: &'static str = "/api/status";

/// Path that starts the server.
pub const START_PATH: &'static str = "/api/start";

/// Path that stops the server.
pub const STOP_PATH: &'static str = "/api/stop";

/// Path that restarts the server.
pub const RESTART_PATH: &'static str = "/api/restart";

/// Path that keeps a configuration.
pub const SAVE_CONFIG_PATH: &'static str = "/api/save_config";

/// Path that answers with the configuration kept.
pub const LOAD_CONFIG_PATH: &'static str = "/api/load_config";

/// What the message of a call begins with that did not reach the service
/// in time.
pub const TRANSPORT_MESSAGE: &'static str = "请求 API 失败";

/// What the message of a call begins with that the service refused.
pub const REMOTE_STATUS_MESSAGE: &'static str = "API 返回错误状态";

/// What the message of a call begins with whose answer is no document.
pub const DECODE_MESSAGE: &'static str = "解析 API 响应失败";

/// The operations of the service.
#[derive(Debug, Clone, Copy, PartialEq, Eq, Structural)]
pub enum Operation {
    GetStatus,
    Start,
    Stop,
    Restart,
    SaveConfig,
    LoadConfig,
}

/// The HTTP methods in use.
#[derive(Debug, Clone, Copy, PartialEq, Eq, Structural)]
pub enum Method {
    Get,
    Post,
}

/// What to send for an operation.
#[derive(Debug, PartialEq, Eq)]
pub struct Request {
    pub method: Method,
    pub url: String,
    /// The whole call, body included, may take this many seconds.
    pub timeout_secs: u64,
    /// Whether the caller's document goes along as the request's body.
    pub sends_document: bool,
}

/// Mathematical model of a [`Request`].
pub ghost struct RequestView {
    pub method: Method,
    pub url: Seq<char>,
    pub timeout_secs: u64,
    pub sends_document: bool,
}

impl View for Request {
    type V = RequestView;

    open spec fn view(&self) -> RequestView {
        RequestView {
            method: self.method,
            url: self.url@,
            timeout_secs: self.timeout_secs,
            sends_document: self.sends_document,
        }
    }
}

/// How a call failed.
#[derive(Debug, Clone, Copy, PartialEq, Eq, Structural)]
pub enum ProxyError {
    /// No connection, or the time allowed ran out.
    Transport,
    /// The service answered with a status outside the range of success.
    RemoteStatus(u16),
    /// The answer's body is no structured document.
    Decode,
}

/// A call that failed: how, and the cause in words.
#[derive(Debug, PartialEq, Eq)]
pub struct Failure {
    pub error: ProxyError,
    /// For a refused status, the status as the caller's HTTP client shows
    /// it; else what the caller, or the parser, said of the failure.
    pub cause: String,
}

/// Mathematical model of a [`Failure`].
pub ghost struct FailureView {
    pub error: ProxyError,
    pub cause: Seq<char>,
}

impl View for Failure {
    type V = FailureView;

    open spec fn view(&self) -> FailureView {
        FailureView { error: self.error, cause: self.cause@ }
    }
}

/// What the caller learned when it sent the request.
#[derive(Debug, PartialEq, Eq)]
pub enum ResponseEvent {
    /// No connection could be made.
    Unreachable { cause: String },
    /// The time allowed ran out before a response came.
    TimedOut { cause: String },
    /// A response came, with this status; `shown` is the status in words.
    Status { code: u16, shown: String },
}

/// Mathematical model of a [`ResponseEvent`].
pub ghost enum ResponseView {
    Unreachable { cause: Seq<char> },
    TimedOut { cause: Seq<char> },
    Status { code: u16, shown: Seq<char> },
}

impl View for ResponseEvent {
    type V = ResponseView;

    open spec fn view(&self) -> ResponseView {
        match self {
            ResponseEvent::Unreachable { cause } => ResponseView::Unreachable { cause: cause@ },
            ResponseEvent::TimedOut { cause } => ResponseView::TimedOut { cause: cause@ },
            ResponseEvent::Status { code, shown } => ResponseView::Status {
                code: *code,
                shown: shown@,
            },
        }
    }
}

/// What the caller learned when it read the response's body.
#[derive(Debug, PartialEq, Eq)]
pub enum BodyEvent {
    /// The time allowed ran out before the body's end.
    TimedOut { cause: String },
    /// The body broke off.
    Interrupted { cause: String },
    /// The whole body.
    Complete(Vec<u8>),
}

/// Mathematical model of a [`BodyEvent`].
pub ghost enum BodyView {
    TimedOut { cause: Seq<char> },
    Interrupted { cause: Seq<char> },
    Complete(Seq<u8>),
}

impl View for BodyEvent {
    type V = BodyView;

    open spec fn view(&self) -> BodyView {
        match self {
            BodyEvent::TimedOut { cause } => BodyView::TimedOut { cause: cause@ },
            BodyEvent::Interrupted { cause } => BodyView::Interrupted { cause: cause@ },
            BodyEvent::Complete(bytes) => BodyView::Complete(bytes@),
        }
    }
}

/// Model of what a call came to.
pub open spec fn outcome_view(outcome: Result<serde_json::Value, Failure>) -> Result<
    serde_json::Value,
    FailureView,
> {
    match outcome {
        Ok(doc) => Ok(doc),
        Err(failure) => Err(failure@),
    }
}

/// The cause of a call that failed; the empty text of one that did not.
pub open spec fn cause_of(outcome: Result<serde_json::Value, Failure>) -> Seq<char> {
    match outcome {
        Ok(_) => Seq::empty(),
        Err(failure) => failure.cause@,
    }
}

/// The statuses of success: 200 to 299.
pub open spec fn is_success(status: u16) -> bool {
    200 <= status <= 299
}

impl Operation {
    /// The method of the operation's request.
    pub open spec fn method(self) -> Method {
        match self {
            Operation::GetStatus | Operation::LoadConfig => Method::Get,
            _ => Method::Post,
        }
    }

    /// The path of the operation on the service.
    pub open spec fn path(self) -> Seq<char> {
        match self {
            Operation::GetStatus => STATUS_PATH@,
            Operation::Start => START_PATH@,
            Operation::Stop => STOP_PATH@,
            Operation::Restart => RESTART_PATH@,
            Operation::SaveConfig => SAVE_CONFIG_PATH@,
            Operation::LoadConfig => LOAD_CONFIG_PATH@,
        }
    }

    /// The seconds that the operation may take.
    pub open spec fn timeout_secs(self) -> u64 {
        match self {
            Operation::Start | Operation::Restart => 30,
            Operation::Stop => 10,
            _ => 5,
        }
    }

    /// Whether the operation sends a document.
    pub open spec fn sends_document(self) -> bool {
        self == Operation::Start || self == Operation::SaveConfig
    }

    /// The request of the operation.
    pub open spec fn plan(self) -> RequestView {
        RequestView {
            method: self.method(),
            url: BASE_URL@ + self.path(),
            timeout_secs: self.timeout_secs(),
            sends_document: self.sends_document(),
        }
    }

    /// What to send for this operation.
    pub fn request(self) -> (request: Request)
        ensures
            request@ == self.plan(),
    {
        let (method, path, timeout_secs, sends_document) = match self {
            Operation::GetStatus => (Method::Get, STATUS_PATH, 5u64, false),
            Operation::Start => (Method::Post, START_PATH, 30u64, true),
            Operation::Stop => (Method::Post, STOP_PATH, 10u64, false),
            Operation::Restart => (Method::Post, RESTART_PATH, 30u64, false),
            Operation::SaveConfig => (Method::Post, SAVE_CONFIG_PATH, 5u64, true),
            Operation::LoadConfig => (Method::Get, LOAD_CONFIG_PATH, 5u64, false),
        };
        Request { method, url: BASE_URL.to_owned().concat(path), timeout_secs, sends_document }
    }

    /// Takes what came of sending the request. A status of success lets
    /// the call go on to the body; anything else ends it.
    pub fn on_response(self, event: ResponseEvent) -> (next: Result<PendingBody, Failure>)
        ensures
            response_outcome(event@) matches Ok(status) ==> next is Ok && next->Ok_0@
                == (PendingView { operation: self, status }),
            response_outcome(event@) matches Err(failure) ==> next is Err && next->Err_0@
                == failure,
    {
        match event {
            ResponseEvent::Unreachable { cause } => Err(
                Failure { error: ProxyError::Transport, cause },
            ),
            ResponseEvent::TimedOut { cause } => Err(
                Failure { error: ProxyError::Transport, cause },
            ),
            ResponseEvent::Status { code, shown } => {
                if 200 <= code && code <= 299 {
                    Ok(PendingBody { operation: self, status: code })
                } else {
                    Err(Failure { error: ProxyError::RemoteStatus(code), cause: shown })
                }
            },
        }
    }
}

/// What the response's head decides: the status with which the call goes
/// on to the body, or the failure that ends it.
pub open spec fn response_outcome(event: ResponseView) -> Result<u16, FailureView> {
    match event {
        ResponseView::Unreachable { cause } => Err(
            FailureView { error: ProxyError::Transport, cause },
        ),
        ResponseView::TimedOut { cause } => Err(
            FailureView { error: ProxyError::Transport, cause },
        ),
        ResponseView::Status { code, shown } => if is_success(code) {
            Ok(code)
        } else {
            Err(FailureView { error: ProxyError::RemoteStatus(code), cause: shown })
        },
    }
}

/// What a whole body comes to, given what the parser made of it: the
/// document, as it was read, or `Decode` with the parser's words as cause.
pub open spec fn parsed_outcome(read: Option<serde_json::Value>, words: Seq<char>) -> Result<
    serde_json::Value,
    FailureView,
> {
    match read {
        Some(doc) => Ok(doc),
        None => Err(FailureView { error: ProxyError::Decode, cause: words }),
    }
}

/// What the body of a successful response decides. `words` stands for
/// what the parser says of a body that holds no document.
pub open spec fn body_outcome(event: BodyView, words: Seq<char>) -> Result<
    serde_json::Value,
    FailureView,
> {
    match event {
        BodyView::TimedOut { cause } => Err(FailureView { error: ProxyError::Transport, cause }),
        BodyView::Interrupted { cause } => Err(FailureView { error: ProxyError::Decode, cause }),
        BodyView::Complete(bytes) => parsed_outcome(parsed(bytes), words),
    }
}

/// What a whole call comes to.
pub open spec fn call_outcome(response: ResponseView, body: BodyView, words: Seq<char>) -> Result<
    serde_json::Value,
    FailureView,
> {
    match response_outcome(response) {
        Ok(_) => body_outcome(body, words),
        Err(failure) => Err(failure),
    }
}

/// Ends a call whose whole body the parser has seen: with the document
/// that it read, unchanged, or with `Decode` and the parser's words.
pub fn on_parsed(read: Result<serde_json::Value, String>) -> (result: Result<
    serde_json::Value,
    Failure,
>)
    ensures
        read matches Ok(doc) ==> result == Ok::<_, Failure>(doc),
        read matches Err(words) ==> result is Err && result->Err_0@ == (FailureView {
            error: ProxyError::Decode,
            cause: words@,
        }),
{
    match read {
        Ok(doc) => Ok(doc),
        Err(words) => Err(Failure { error: ProxyError::Decode, cause: words }),
    }
}

/// A call whose response had a status of success, and whose body is still
/// to be read.
#[derive(Debug)]
pub struct PendingBody {
    operation: Operation,
    status: u16,
}

/// Mathematical model of a [`PendingBody`].
pub ghost struct PendingView {
    pub operation: Operation,
    pub status: u16,
}

impl View for PendingBody {
    type V = PendingView;

    closed spec fn view(&self) -> PendingView {
        PendingView { operation: self.operation, status: self.status }
    }
}

impl PendingBody {
    #[verifier::type_invariant]
    spec fn follows_success(&self) -> bool {
        is_success(self.status)
    }

    /// The operation under way.
    pub fn operation(&self) -> (operation: Operation)
        ensures
            operation == self@.operation,
    {
        self.operation
    }

    /// The status of the response, which is one of success.
    pub fn status(&self) -> (status: u16)
        ensures
            status == self@.status,
            is_success(status),
    {
        proof {
            use_type_invariant(self);
        }
        self.status
    }

    /// Takes what came of reading the body, and ends the call: with the
    /// document that the body holds, unchanged, or with the failure. The
    /// cause of a body that holds no document is what the parser says of
    /// it.
    pub fn on_body(self, event: BodyEvent) -> (result: Result<serde_json::Value, Failure>)
        ensures
            outcome_view(result) == body_outcome(event@, cause_of(result)),
    {
        match event {
            BodyEvent::TimedOut { cause } => Err(Failure { error: ProxyError::Transport, cause }),
            BodyEvent::Interrupted { cause } => Err(Failure { error: ProxyError::Decode, cause }),
            BodyEvent::Complete(bytes) => match parse(bytes.as_slice()) {
                Ok(doc) => on_parsed(Ok(doc)),
                Err(error) => on_parsed(Err(describe(&error))),
            },
        }
    }
}

impl ProxyError {
    /// What the message of the failure begins with.
    pub open spec fn heading(self) -> Seq<char> {
        match self {
            ProxyError::Transport => TRANSPORT_MESSAGE@,
            ProxyError::RemoteStatus(_) => REMOTE_STATUS_MESSAGE@,
            ProxyError::Decode => DECODE_MESSAGE@,
        }
    }

    /// The message of the failure, fit to be shown: what failed, then the
    /// cause in words. For a refused status the cause is the status as
    /// shown.
    pub fn message(&self, cause: &str) -> (message: String)
        ensures
            message@ == self.heading() + ": "@ + cause@,
    {
        let heading = match self {
            ProxyError::Transport => TRANSPORT_MESSAGE,
            ProxyError::RemoteStatus(_) => REMOTE_STATUS_MESSAGE,
            ProxyError::Decode => DECODE_MESSAGE,
        };
        heading.to_owned().concat(": ").concat(cause)
    }
}

impl Failure {
    /// The message of the failure, fit to be shown.
    pub fn message(&self) -> (message: String)
        ensures
            message@ == self.error.heading() + ": "@ + self.cause@,
    {
        self.error.message(self.cause.as_str())
    }
}

/// The status is looked at before the body: a response whose status is
/// outside the range of success fails the call with that status, whatever
/// its body holds.
pub proof fn lemma_status_precedes_body(
    code: u16,
    shown: Seq<char>,
    body: BodyView,
    words: Seq<char>,
)
    requires
        !is_success(code),
    ensures
        call_outcome(ResponseView::Status { code, shown }, body, words) == Err::<
            serde_json::Value,
            _,
        >(FailureView { error: ProxyError::RemoteStatus(code), cause: shown }),
{
}

/// A call that runs out of time fails with `Transport`, before the
/// response as well as within its body.
pub proof fn lemma_timeout_is_transport(
    code: u16,
    shown: Seq<char>,
    cause: Seq<char>,
    body: BodyView,
    words: Seq<char>,
)
    ensures
        call_outcome(ResponseView::TimedOut { cause }, body, words) == Err::<serde_json::Value, _>(
            FailureView { error: ProxyError::Transport, cause },
        ),
        is_success(code) ==> call_outcome(
            ResponseView::Status { code, shown },
            BodyView::TimedOut { cause },
            words,
        ) == Err::<serde_json::Value, _>(FailureView { error: ProxyError::Transport, cause }),
{
}

/// A call succeeds exactly when a status of success is followed by a whole
/// body that holds a document, and then it gives that document.
pub proof fn lemma_success_gives_the_document(
    response: ResponseView,
    body: BodyView,
    words: Seq<char>,
)
    ensures
        call_outcome(response, body, words) is Ok <==> ({
            &&& response is Status
            &&& is_success(response->code)
            &&& body is Complete
            &&& parsed(body->Complete_0) is Some
        }),
        call_outcome(response, body, words) matches Ok(doc) ==> parsed(body->Complete_0) == Some(
            doc,
        ),
{
}

} // verus!
