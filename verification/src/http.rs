//! The HTTP exchanges of the client: the requests it asks to be sent, the replies
//! it is handed back, and the steps of an exchange.
//!
//! The library does no I/O. Each operation is a state machine: it is advanced
//! with the reply to its last request and answers with the next request to send
//! or with its result.

use vstd::prelude::*;
use crate::error::{ApiError, ErrorView};
use crate::model::{FeatureFlag, FlagView, LocalEvalFlag, LocalFlagView, Project};
use crate::text::decimal;

verus! {

/// An HTTP method.
#[derive(Debug, Clone, Copy, PartialEq, Eq, Structural)]
pub enum Method {
    Get,
    Post,
    Patch,
    Delete,
}

/// What the body of the answer to a request is read as.
#[derive(Debug, Clone, Copy, PartialEq, Eq, Structural)]
pub enum Expect {
    /// A page of feature flags: `{"results": [flag, ...]}`.
    FlagPage,
    /// The local evaluation listing: `{"flags": [entry, ...]}`.
    LocalEvaluation,
    /// A page of projects: `{"results": [project, ...]}`.
    ProjectPage,
    /// One feature flag.
    Flag,
    /// Nothing: the body is not read.
    Nothing,
}

/// A request to send, authenticated by a bearer token.
#[derive(Debug)]
pub struct Request {
    pub method: Method,
    pub url: String,
    pub bearer: String,
    /// The JSON body, when there is one.
    pub body: Option<String>,
    pub expect: Expect,
}

/// The view of a [`Request`].
pub struct RequestView {
    pub method: Method,
    pub url: Seq<char>,
    pub bearer: Seq<char>,
    pub body: Option<Seq<char>>,
    pub expect: Expect,
}

impl DeepView for Request {
    type V = RequestView;

    open spec fn deep_view(&self) -> RequestView {
        RequestView {
            method: self.method,
            url: self.url@,
            bearer: self.bearer@,
            body: match self.body {
                Some(b) => Some(b@),
                None => None,
            },
            expect: self.expect,
        }
    }
}

/// The body of an answer, read as its request asked.
#[derive(Debug)]
pub enum Payload {
    /// A page of flags, and the link to the next page when there is one.
    FlagPage { flags: Vec<FeatureFlag>, next: Option<String> },
    LocalEvaluation(Vec<LocalEvalFlag>),
    ProjectPage(Vec<Project>),
    Flag(FeatureFlag),
    /// The request asked for nothing to be read.
    Nothing,
    /// The body could not be read as asked; `detail` says why.
    Unparsed { detail: String },
}

/// The view of a [`Payload`].
pub enum PayloadView {
    FlagPage(Seq<FlagView>, Option<Seq<char>>),
    LocalEvaluation(Seq<LocalFlagView>),
    ProjectPage(Seq<i64>),
    Flag(FlagView),
    Nothing,
    Unparsed(Seq<char>),
}

impl DeepView for Payload {
    type V = PayloadView;

    open spec fn deep_view(&self) -> PayloadView {
        match self {
            Payload::FlagPage { flags, next } => PayloadView::FlagPage(
                flags.deep_view(),
                match next {
                    Some(n) => Some(n@),
                    None => None,
                },
            ),
            Payload::LocalEvaluation(v) => PayloadView::LocalEvaluation(v.deep_view()),
            Payload::ProjectPage(v) => PayloadView::ProjectPage(v.deep_view()),
            Payload::Flag(f) => PayloadView::Flag(f.deep_view()),
            Payload::Nothing => PayloadView::Nothing,
            Payload::Unparsed { detail } => PayloadView::Unparsed(detail@),
        }
    }
}

/// What came of a request.
#[derive(Debug)]
pub enum Reply {
    /// It could not be sent, or no answer came; `detail` says why.
    Unreachable { detail: String },
    /// An answer came with this status code, body text and payload.
    Answered { status: u16, text: String, payload: Payload },
}

/// The view of a [`Reply`].
pub enum ReplyView {
    Unreachable { detail: Seq<char> },
    Answered { status: u16, text: Seq<char>, payload: PayloadView },
}

impl DeepView for Reply {
    type V = ReplyView;

    open spec fn deep_view(&self) -> ReplyView {
        match self {
            Reply::Unreachable { detail } => ReplyView::Unreachable { detail: detail@ },
            Reply::Answered { status, text, payload } => ReplyView::Answered {
                status: *status,
                text: text@,
                payload: payload.deep_view(),
            },
        }
    }
}

/// Whether a status code means success: 200 to 299.
pub open spec fn is_success(status: u16) -> bool {
    200 <= status < 300
}

/// Whether an HTTP status code exists: 100 to 999.
pub open spec fn is_status_code(status: u16) -> bool {
    100 <= status <= 999
}

/// The standard reason phrase of a status code, as `http` (through `reqwest`) knows it.
pub uninterp spec fn canonical_reason(status: u16) -> Option<Seq<char>>;

/// Calls `reqwest::StatusCode::from_u16` and then `canonical_reason` on the status.
///
/// Claimed: no reason for a number that is no status code (`from_u16` refuses it), and
/// otherwise the reason `canonical_reason(status)`.
#[verifier::external_body]
fn canonical_reason_text(status: u16) -> (res: Option<&'static str>)
    ensures
        !is_status_code(status) ==> res is None,
        is_status_code(status) ==> match res {
            Some(r) => canonical_reason(status) == Some(r@),
            None => canonical_reason(status) is None,
        },
{
    match reqwest::StatusCode::from_u16(status) {
        Ok(code) => code.canonical_reason(),
        Err(_) => None,
    }
}

/// The reason phrase shown for a status: the given one, or a placeholder.
pub open spec fn shown_reason(reason: Option<Seq<char>>) -> Seq<char> {
    match reason {
        Some(r) => r,
        None => "<unknown status code>"@,
    }
}

/// The reason phrase that `reqwest` gives a status: none for a number that is no
/// status code, else the standard one, when there is one.
pub open spec fn status_reason(status: u16) -> Option<Seq<char>> {
    if is_status_code(status) {
        canonical_reason(status)
    } else {
        None
    }
}

/// A status as `reqwest::StatusCode` displays it: the number, a space, the reason.
pub open spec fn status_text(status: u16) -> Seq<char> {
    decimal(status as int) + " "@ + shown_reason(status_reason(status))
}

/// A status shown with the given reason phrase, as `reqwest::StatusCode` displays it.
pub fn status_line_with(status: u16, reason: Option<&str>) -> (s: String)
    ensures
        s@ == decimal(status as int) + " "@ + shown_reason(
            match reason {
                Some(r) => Some(r@),
                None => None,
            },
        ),
{
    let mut s = String::new();
    crate::text::append_decimal(&mut s, status as i64);
    s.append(" ");
    match reason {
        Some(r) => s.append(r),
        None => s.append("<unknown status code>"),
    }
    assert(s@ =~= decimal(status as int) + " "@ + shown_reason(
        match reason {
            Some(r) => Some(r@),
            None => None,
        },
    ));
    s
}

/// A status as `reqwest::StatusCode` displays it.
pub fn status_line(status: u16) -> (s: String)
    ensures
        s@ == status_text(status),
{
    let reason = canonical_reason_text(status);
    status_line_with(status, reason)
}

/// What an operation does next: send a request, or finish with its result.
#[derive(Debug)]
pub enum Step<T> {
    Send(Request),
    Done(Result<T, ApiError>),
}

/// The view of a [`Step`].
pub enum Turn<V> {
    Send(RequestView),
    Done(Result<V, ErrorView>),
}

impl<T: DeepView> DeepView for Step<T> {
    type V = Turn<T::V>;

    open spec fn deep_view(&self) -> Turn<T::V> {
        match self {
            Step::Send(r) => Turn::Send(r.deep_view()),
            Step::Done(Ok(t)) => Turn::Done(Ok(t.deep_view())),
            Step::Done(Err(e)) => Turn::Done(Err(e.deep_view())),
        }
    }
}

/// An operation of the client, run as a series of HTTP exchanges.
///
/// It is begun with `advance(None)`; after each `Step::Send` it takes the reply to
/// that request, `advance(Some(reply))`; after `Step::Done` it is over.
pub trait Exchange {
    type Output;

    /// Whether the operation is waiting to begin (`begin`) or for a reply (`!begin`).
    spec fn accepts(&self, begin: bool) -> bool;

    fn advance(&mut self, reply: Option<Reply>) -> (step: Step<Self::Output>)
        requires
            old(self).accepts(reply is None),
    ;
}

/// The request for reading `url` with the bearer token `bearer`.
pub open spec fn read_request(bearer: Seq<char>, url: Seq<char>, expect: Expect) -> RequestView {
    RequestView { method: Method::Get, url, bearer, body: None, expect }
}

/// Builds a request.
pub fn make_request(method: Method, url: String, bearer: &str, body: Option<String>, expect: Expect) -> (r: Request)
    ensures
        r.deep_view() == (RequestView {
            method,
            url: url@,
            bearer: bearer@,
            body: match body {
                Some(b) => Some(b@),
                None => None,
            },
            expect,
        }),
{
    Request { method, url, bearer: bearer.to_owned(), body, expect }
}

/// How the answer to a read came out: the original's fallback pattern, where a
/// refusal is no error but a cue to try elsewhere.
pub enum Fetch {
    Failed(ApiError),
    Declined,
    Delivered(Payload),
}

/// The view of a [`Fetch`].
pub enum FetchView {
    Failed(ErrorView),
    Declined,
    Delivered(PayloadView),
}

impl DeepView for Fetch {
    type V = FetchView;

    open spec fn deep_view(&self) -> FetchView {
        match self {
            Fetch::Failed(e) => FetchView::Failed(e.deep_view()),
            Fetch::Declined => FetchView::Declined,
            Fetch::Delivered(p) => FetchView::Delivered(p.deep_view()),
        }
    }
}

/// What a read's reply amounts to: an error when no answer came, a refusal for a
/// status that is no success, the error of an unreadable body for a success whose
/// body could not be read, else the payload.
pub open spec fn fetched(r: ReplyView) -> FetchView {
    match r {
        ReplyView::Unreachable { detail } => FetchView::Failed(
            ErrorView::Unreachable { phase: crate::error::Phase::Read, detail },
        ),
        ReplyView::Answered { status, payload, .. } => if !is_success(status) {
            FetchView::Declined
        } else {
            match payload {
                PayloadView::Unparsed(detail) => FetchView::Failed(
                    ErrorView::Unparsable { phase: crate::error::Phase::Read, detail: Some(detail) },
                ),
                _ => FetchView::Delivered(payload),
            }
        },
    }
}

/// Why a payload that is not what was asked for could not be read, when it could not.
pub open spec fn unparsed_detail(p: PayloadView) -> Option<Seq<char>> {
    match p {
        PayloadView::Unparsed(d) => Some(d),
        _ => None,
    }
}

/// The error for an answer whose payload is not what was asked for.
pub fn unparsable(phase: crate::error::Phase, p: Payload) -> (e: ApiError)
    ensures
        e.deep_view() == (ErrorView::Unparsable { phase, detail: unparsed_detail(p.deep_view()) }),
{
    match p {
        Payload::Unparsed { detail } => ApiError::Unparsable { phase, detail: Some(detail) },
        _ => ApiError::Unparsable { phase, detail: None },
    }
}

/// Reads the reply to an authenticated GET: `Declined` on a status that is no
/// success, whatever the body.
pub fn try_get(reply: Reply) -> (res: Fetch)
    ensures
        res.deep_view() == fetched(reply.deep_view()),
{
    match reply {
        Reply::Unreachable { detail } => Fetch::Failed(
            ApiError::Unreachable { phase: crate::error::Phase::Read, detail },
        ),
        Reply::Answered { status, payload, .. } => {
            if 200 <= status && status < 300 {
                match payload {
                    Payload::Unparsed { detail } => Fetch::Failed(
                        ApiError::Unparsable { phase: crate::error::Phase::Read, detail: Some(detail) },
                    ),
                    other => Fetch::Delivered(other),
                }
            } else {
                Fetch::Declined
            }
        },
    }
}

} // verus!
