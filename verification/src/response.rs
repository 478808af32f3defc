//! The answer given to the caller for a terminal outcome.

use crate::outcome::{Outcome, OutcomeView};
use vstd::prelude::*;

verus! {

/// The envelope returned to the caller.
#[derive(Debug, PartialEq, Eq)]
pub struct ProxyResponse {
    pub success: bool,
    /// The upstream body of a successful call, complete and unchanged.
    pub data: Option<String>,
    /// The upstream body of a failed call, or the exhaustion message.
    pub error: Option<String>,
    /// The status that failed the call; absent on success.
    pub status_code: Option<u16>,
}

/// Mathematical model of a [`ProxyResponse`].
pub struct ProxyResponseView {
    pub success: bool,
    pub data: Option<Seq<char>>,
    pub error: Option<Seq<char>>,
    pub status_code: Option<int>,
}

/// The model of an optional text.
pub open spec fn text_view(text: Option<String>) -> Option<Seq<char>> {
    match text {
        Some(text) => Some(text@),
        None => None,
    }
}

impl View for ProxyResponse {
    type V = ProxyResponseView;

    open spec fn view(&self) -> ProxyResponseView {
        ProxyResponseView {
            success: self.success,
            data: text_view(self.data),
            error: text_view(self.error),
            status_code: match self.status_code {
                Some(code) => Some(code as int),
                None => None,
            },
        }
    }
}

/// The HTTP status of the answer and its envelope.
#[derive(Debug, PartialEq, Eq)]
pub struct Reply {
    pub status: u16,
    pub body: ProxyResponse,
}

/// Mathematical model of a [`Reply`].
pub struct ReplyView {
    pub status: int,
    pub body: ProxyResponseView,
}

impl View for Reply {
    type V = ReplyView;

    open spec fn view(&self) -> ReplyView {
        ReplyView { status: self.status as int, body: self.body@ }
    }
}

/// The message of an exhausted dispatch sequence.
pub const ALL_ENDPOINTS_FAILED: &'static str = "All endpoints failed";

/// Whether `code` can stand as the status of an HTTP answer.
pub open spec fn is_status_code(code: int) -> bool {
    100 <= code <= 999
}

/// `code` where it can stand as the status of an answer, else `fallback`.
pub open spec fn served_status(code: int, fallback: int) -> int {
    if is_status_code(code) {
        code
    } else {
        fallback
    }
}

/// The envelope of a failed call.
pub open spec fn failed_with(error: Seq<char>, code: int) -> ProxyResponseView {
    ProxyResponseView { success: false, data: None, error: Some(error), status_code: Some(code) }
}

/// The answer for each terminal outcome. Upstream statuses and bodies are
/// handed on unchanged; exhaustion answers with 503 and a fixed message.
pub open spec fn reply_for(outcome: OutcomeView) -> ReplyView
    recommends
        outcome.is_terminal(),
{
    match outcome {
        OutcomeView::Success { body } => ReplyView {
            status: 200,
            body: ProxyResponseView {
                success: true,
                data: Some(body),
                error: None,
                status_code: None,
            },
        },
        OutcomeView::RateLimited { body } => ReplyView {
            status: 429,
            body: failed_with(body, 429),
        },
        OutcomeView::BadRequest { body } => ReplyView { status: 400, body: failed_with(body, 400) },
        OutcomeView::AuthError { code, body } => ReplyView {
            status: served_status(code, 401),
            body: failed_with(body, code),
        },
        OutcomeView::OtherError { code, body } => ReplyView {
            status: served_status(code, 500),
            body: failed_with(body, code),
        },
        _ => ReplyView { status: 503, body: failed_with(ALL_ENDPOINTS_FAILED@, 503) },
    }
}

fn status_or(code: u16, fallback: u16) -> (status: u16)
    ensures
        status as int == served_status(code as int, fallback as int),
{
    if 100 <= code && code <= 999 {
        code
    } else {
        fallback
    }
}

fn failure(error: String, code: u16) -> (response: ProxyResponse)
    ensures
        response@ == failed_with(error@, code as int),
{
    ProxyResponse { success: false, data: None, error: Some(error), status_code: Some(code) }
}

/// The answer to the caller for a terminal outcome.
pub fn reply(outcome: Outcome) -> (reply: Reply)
    requires
        outcome@.is_terminal(),
    ensures
        reply@ == reply_for(outcome@),
        is_status_code(reply@.status),
{
    match outcome {
        Outcome::Success { body } => Reply {
            status: 200,
            body: ProxyResponse { success: true, data: Some(body), error: None, status_code: None },
        },
        Outcome::RateLimited { body } => Reply { status: 429, body: failure(body, 429) },
        Outcome::BadRequest { body } => Reply { status: 400, body: failure(body, 400) },
        Outcome::AuthError { code, body } => Reply {
            status: status_or(code, 401),
            body: failure(body, code),
        },
        Outcome::OtherError { code, body } => Reply {
            status: status_or(code, 500),
            body: failure(body, code),
        },
        _ => Reply { status: 503, body: failure(ALL_ENDPOINTS_FAILED.to_owned(), 503) },
    }
}

} // verus!
