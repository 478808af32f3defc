//! What an endpoint attempt yields and how it is classified.

use vstd::prelude::*;

verus! {

/// The result of one attempt against one endpoint, as the transport reports it.
#[derive(Debug, PartialEq, Eq)]
pub enum UpstreamReply {
    /// The endpoint answered with an HTTP status and a body.
    Response { status: u16, body: String },
    /// No answer arrived: connecting, resolving or waiting failed.
    TransportFailure,
}

/// Mathematical model of an [`UpstreamReply`].
pub enum UpstreamReplyView {
    Response { status: int, body: Seq<char> },
    TransportFailure,
}

impl View for UpstreamReply {
    type V = UpstreamReplyView;

    open spec fn view(&self) -> UpstreamReplyView {
        match *self {
            UpstreamReply::Response { status, body } => UpstreamReplyView::Response {
                status: status as int,
                body: body@,
            },
            UpstreamReply::TransportFailure => UpstreamReplyView::TransportFailure,
        }
    }
}

/// The classified result of an attempt, or of a whole dispatch sequence.
#[derive(Debug, PartialEq, Eq)]
pub enum Outcome {
    /// The endpoint accepted the request; the body is its answer, whole.
    Success { body: String },
    /// The endpoint throttled the request (429). Terminal: recovering from
    /// throttling is left to the caller.
    RateLimited { body: String },
    /// The endpoint rejected the request as malformed (400). Terminal.
    BadRequest { body: String },
    /// The endpoint rejected the credential (401 or 403). Terminal.
    AuthError { code: u16, body: String },
    /// The endpoint failed (5xx). Not terminal: the next endpoint is
    /// attempted.
    ServerError { code: u16 },
    /// No answer arrived. Not terminal: the next endpoint is attempted.
    TransportError,
    /// Any other status. Terminal.
    OtherError { code: u16, body: String },
    /// Every endpoint failed with an outcome that is not terminal.
    Exhausted,
}

/// Mathematical model of an [`Outcome`].
pub enum OutcomeView {
    Success { body: Seq<char> },
    RateLimited { body: Seq<char> },
    BadRequest { body: Seq<char> },
    AuthError { code: int, body: Seq<char> },
    ServerError { code: int },
    TransportError,
    OtherError { code: int, body: Seq<char> },
    Exhausted,
}

impl OutcomeView {
    /// A terminal outcome ends the dispatch sequence and is handed to the
    /// caller; the two others make the dispatcher move to the next endpoint.
    pub open spec fn is_terminal(self) -> bool {
        !(self is ServerError) && !(self is TransportError)
    }
}

impl View for Outcome {
    type V = OutcomeView;

    open spec fn view(&self) -> OutcomeView {
        match *self {
            Outcome::Success { body } => OutcomeView::Success { body: body@ },
            Outcome::RateLimited { body } => OutcomeView::RateLimited { body: body@ },
            Outcome::BadRequest { body } => OutcomeView::BadRequest { body: body@ },
            Outcome::AuthError { code, body } => OutcomeView::AuthError {
                code: code as int,
                body: body@,
            },
            Outcome::ServerError { code } => OutcomeView::ServerError { code: code as int },
            Outcome::TransportError => OutcomeView::TransportError,
            Outcome::OtherError { code, body } => OutcomeView::OtherError {
                code: code as int,
                body: body@,
            },
            Outcome::Exhausted => OutcomeView::Exhausted,
        }
    }
}

impl Outcome {
    /// Whether this outcome ends the dispatch sequence.
    pub fn is_terminal(&self) -> (terminal: bool)
        ensures
            terminal == self@.is_terminal(),
    {
        match self {
            Outcome::ServerError { .. } => false,
            Outcome::TransportError => false,
            _ => true,
        }
    }
}

/// The classification table: which outcome an upstream reply stands for.
pub open spec fn classification(reply: UpstreamReplyView) -> OutcomeView {
    match reply {
        UpstreamReplyView::TransportFailure => OutcomeView::TransportError,
        UpstreamReplyView::Response { status, body } => {
            if 200 <= status < 300 {
                OutcomeView::Success { body }
            } else if status == 429 {
                OutcomeView::RateLimited { body }
            } else if status == 400 {
                OutcomeView::BadRequest { body }
            } else if status == 401 || status == 403 {
                OutcomeView::AuthError { code: status, body }
            } else if 500 <= status < 600 {
                OutcomeView::ServerError { code: status }
            } else {
                OutcomeView::OtherError { code: status, body }
            }
        },
    }
}

/// Classifies one upstream reply.
pub fn classify(reply: UpstreamReply) -> (outcome: Outcome)
    ensures
        outcome@ == classification(reply@),
{
    match reply {
        UpstreamReply::TransportFailure => Outcome::TransportError,
        UpstreamReply::Response { status, body } => {
            if 200 <= status && status < 300 {
                Outcome::Success { body }
            } else if status == 429 {
                Outcome::RateLimited { body }
            } else if status == 400 {
                Outcome::BadRequest { body }
            } else if status == 401 || status == 403 {
                Outcome::AuthError { code: status, body }
            } else if 500 <= status && status < 600 {
                Outcome::ServerError { code: status }
            } else {
                Outcome::OtherError { code: status, body }
            }
        },
    }
}

} // verus!
