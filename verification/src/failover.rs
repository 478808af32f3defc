//! Failover, stated over a whole dispatch sequence: which outcome a sequence
//! resolves to, and which endpoints it invokes, given what each endpoint
//! would answer.

use crate::dispatcher::{ActionView, DispatchView, EventView, SharedStateView, Step};
use crate::outcome::{classification, OutcomeView, UpstreamReplyView};
use vstd::prelude::*;

verus! {

/// The outcome of attempting endpoints that would answer `replies`, in that
/// order: the first terminal classification, and exhaustion if there is
/// none.
pub open spec fn resolution(replies: Seq<UpstreamReplyView>) -> OutcomeView
    decreases replies.len(),
{
    if replies.len() == 0 {
        OutcomeView::Exhausted
    } else if classification(replies[0]).is_terminal() {
        classification(replies[0])
    } else {
        resolution(replies.skip(1))
    }
}

/// How many of these endpoints are invoked: all up to the first that answers
/// with a terminal classification, that one included.
pub open spec fn attempts(replies: Seq<UpstreamReplyView>) -> nat
    decreases replies.len(),
{
    if replies.len() == 0 {
        0
    } else if classification(replies[0]).is_terminal() {
        1
    } else {
        1 + attempts(replies.skip(1))
    }
}

/// The machine after the given replies were reported one after the other,
/// with the action of the last step.
pub open spec fn run(
    dispatch: DispatchView,
    shared: SharedStateView,
    replies: Seq<UpstreamReplyView>,
) -> Step
    decreases replies.len(),
{
    if replies.len() == 0 {
        dispatch.stay(shared, ActionView::Idle)
    } else {
        let first = dispatch.step(shared, EventView::Upstream(replies[0]));
        if replies.len() == 1 {
            first
        } else {
            run(first.dispatch, first.shared, replies.skip(1))
        }
    }
}

/// No more endpoints are invoked than there are, and one at least if there
/// is any.
pub proof fn lemma_attempts_bounded(replies: Seq<UpstreamReplyView>)
    ensures
        attempts(replies) <= replies.len(),
        replies.len() > 0 ==> attempts(replies) >= 1,
    decreases replies.len(),
{
    if replies.len() > 0 && !classification(replies[0]).is_terminal() {
        lemma_attempts_bounded(replies.skip(1));
    }
}

/// A sequence resolves to a terminal outcome: a server error or a transport
/// failure of a single endpoint never stands for the whole sequence.
pub proof fn lemma_resolution_is_terminal(replies: Seq<UpstreamReplyView>)
    ensures
        resolution(replies).is_terminal(),
    decreases replies.len(),
{
    if replies.len() > 0 && !classification(replies[0]).is_terminal() {
        lemma_resolution_is_terminal(replies.skip(1));
    }
}

/// The resolution is the classification of the last endpoint invoked, unless
/// every endpoint failed transiently: then all were invoked and the sequence
/// is exhausted.
pub proof fn lemma_resolution_is_last_attempt(replies: Seq<UpstreamReplyView>)
    ensures
        forall|i: int|
            0 <= i < attempts(replies) - 1 ==> !classification(#[trigger] replies[i]).is_terminal(),
        resolution(replies) == if attempts(replies) > 0 && classification(
            replies[attempts(replies) - 1],
        ).is_terminal() {
            classification(replies[attempts(replies) - 1])
        } else {
            OutcomeView::Exhausted
        },
        resolution(replies) is Exhausted ==> attempts(replies) == replies.len(),
    decreases replies.len(),
{
    if replies.len() > 0 && !classification(replies[0]).is_terminal() {
        let rest = replies.skip(1);
        lemma_resolution_is_last_attempt(rest);
        lemma_attempts_bounded(rest);
        assert forall|i: int| 0 <= i < attempts(replies) - 1 implies !classification(
            #[trigger] replies[i],
        ).is_terminal() by {
            if i > 0 {
                assert(replies[i] == rest[i - 1]);
            }
        }
    }
}

/// Failover: a sequence whose attempt against the endpoint at its cursor is
/// under way, and whose remaining endpoints would answer `replies`, ends when
/// `attempts(replies)` replies have been reported. With its cursor at the last
/// endpoint invoked it then hands over `resolution(replies)` and gives the
/// slot up; the endpoints behind that one are never attempted.
pub proof fn lemma_failover_resolves(
    dispatch: DispatchView,
    shared: SharedStateView,
    replies: Seq<UpstreamReplyView>,
)
    requires
        dispatch.wf(),
        dispatch.phase is Attempting,
        replies.len() == dispatch.endpoints.len() - dispatch.cursor,
    ensures
        run(dispatch, shared, replies.take(attempts(replies) as int)) == (DispatchView {
            cursor: (dispatch.cursor + attempts(replies) - 1) as nat,
            ..dispatch
        }).finish(shared, resolution(replies)),
    decreases replies.len(),
{
    lemma_attempts_bounded(replies);
    let used = replies.take(attempts(replies) as int);
    let first = dispatch.step(shared, EventView::Upstream(replies[0]));
    let rest = replies.skip(1);
    if !classification(replies[0]).is_terminal() {
        if dispatch.cursor + 1 < dispatch.endpoints.len() {
            lemma_attempts_bounded(rest);
            lemma_failover_resolves(first.dispatch, first.shared, rest);
            assert(used.skip(1) == rest.take(attempts(rest) as int));
        } else {
            assert(resolution(rest) is Exhausted);
        }
    }
}

/// Endpoints are attempted in order: while the sequence has not ended, each
/// reply makes it send to the endpoint behind the one that replied.
pub proof fn lemma_failover_in_order(
    dispatch: DispatchView,
    shared: SharedStateView,
    replies: Seq<UpstreamReplyView>,
    reported: int,
)
    requires
        dispatch.wf(),
        dispatch.phase is Attempting,
        replies.len() == dispatch.endpoints.len() - dispatch.cursor,
        1 <= reported < attempts(replies),
    ensures
        run(dispatch, shared, replies.take(reported)) == (Step {
            dispatch: DispatchView { cursor: dispatch.cursor + reported as nat, ..dispatch },
            shared,
            action: ActionView::Send { endpoint: dispatch.cursor + reported as nat },
        }),
    decreases replies.len(),
{
    lemma_attempts_bounded(replies);
    let used = replies.take(reported);
    let first = dispatch.step(shared, EventView::Upstream(replies[0]));
    let rest = replies.skip(1);
    lemma_attempts_bounded(rest);
    if reported > 1 {
        lemma_failover_in_order(first.dispatch, first.shared, rest, reported - 1);
        assert(used.skip(1) == rest.take(reported - 1));
    }
}

} // verus!
