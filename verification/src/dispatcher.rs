//! The dispatcher: one dispatch sequence as a state machine.
//!
//! A sequence passes the concurrency gate, takes its turn at the rate limiter
//! and then attempts the endpoints in order until one gives a terminal
//! outcome. The machine decides; whoever drives it performs each [`Action`]
//! and reports what happened as the next [`Event`].

use crate::endpoint::EndpointSet;
use crate::gate::{Gate, GateView};
use crate::outcome::{
    classification, classify, Outcome, OutcomeView, UpstreamReply, UpstreamReplyView,
};
use crate::rate_limiter::{RateLimiter, RateLimiterView};
use crate::wire::{
    is_random_uuid_text, request_id_of, shape_fresh_request, wire_request, ProxyRequest,
    WireRequest, WireRequestView,
};
use vstd::prelude::*;

verus! {

/// The state that all dispatch sequences of a process share.
#[derive(Debug)]
pub struct SharedState {
    pub gate: Gate,
    pub limiter: RateLimiter,
}

/// Mathematical model of a [`SharedState`].
pub struct SharedStateView {
    pub gate: GateView,
    pub limiter: RateLimiterView,
}

impl SharedStateView {
    /// Validity: that of the concurrency gate.
    pub open spec fn wf(self) -> bool {
        self.gate.wf()
    }
}

impl View for SharedState {
    type V = SharedStateView;

    open spec fn view(&self) -> SharedStateView {
        SharedStateView { gate: self.gate@, limiter: self.limiter@ }
    }
}

impl SharedState {
    /// A free gate and a limiter that has seen no dispatch yet.
    pub fn new(min_interval: u64) -> (shared: SharedState)
        ensures
            shared@.wf(),
            shared@.gate == (GateView { holder: None, waiting: Seq::empty(), issued: 0 }),
            shared@.limiter == (RateLimiterView { min_interval: min_interval as nat, last: None }),
    {
        SharedState { gate: Gate::new(), limiter: RateLimiter::new(min_interval) }
    }
}

/// Where a dispatch sequence stands.
#[derive(Debug, Clone, Copy, PartialEq, Eq)]
pub enum Phase {
    /// Not yet arrived.
    New,
    /// Waiting for the slot.
    Parked,
    /// Holding the slot, about to take its turn at the rate limiter.
    Pacing,
    /// Holding the slot, waiting out the rest of the minimum interval.
    Sleeping,
    /// Holding the slot, an attempt against an endpoint under way.
    Attempting,
    /// Ended: the outcome was handed over and the slot given up.
    Closed,
}

/// What happened since the last action.
#[derive(Debug, PartialEq, Eq)]
pub enum Event {
    /// The inbound call has come in.
    Arrived,
    /// A release has named this sequence's ticket.
    Admitted,
    /// The clock was read.
    Clock { now: u64 },
    /// The attempt against the current endpoint has ended.
    Upstream(UpstreamReply),
}

/// Mathematical model of an [`Event`].
pub enum EventView {
    Arrived,
    Admitted,
    Clock { now: nat },
    Upstream(UpstreamReplyView),
}

impl View for Event {
    type V = EventView;

    open spec fn view(&self) -> EventView {
        match *self {
            Event::Arrived => EventView::Arrived,
            Event::Admitted => EventView::Admitted,
            Event::Clock { now } => EventView::Clock { now: now as nat },
            Event::Upstream(reply) => EventView::Upstream(reply@),
        }
    }
}

/// What is to be done next.
#[derive(Debug, PartialEq, Eq)]
pub enum Action {
    /// Wait until a release names this sequence's ticket, then report
    /// [`Event::Admitted`].
    Park,
    /// Read the clock and report it.
    ReadClock,
    /// Sleep for so many nanoseconds, then read the clock and report it.
    Sleep { nanos: u64 },
    /// Post the wire request to the endpoint at this position and report the
    /// reply.
    Send { endpoint: usize },
    /// Hand the outcome to the caller. The slot has been given up; if it went
    /// to a waiter, wake the sequence that holds this ticket.
    Finish { outcome: Outcome, wake: Option<u64> },
    /// Nothing: the event did not apply and nothing has changed.
    Idle,
}

/// Mathematical model of an [`Action`].
pub enum ActionView {
    Park,
    ReadClock,
    Sleep { nanos: nat },
    Send { endpoint: nat },
    Finish { outcome: OutcomeView, wake: Option<u64> },
    Idle,
}

impl View for Action {
    type V = ActionView;

    open spec fn view(&self) -> ActionView {
        match *self {
            Action::Park => ActionView::Park,
            Action::ReadClock => ActionView::ReadClock,
            Action::Sleep { nanos } => ActionView::Sleep { nanos: nanos as nat },
            Action::Send { endpoint } => ActionView::Send { endpoint: endpoint as nat },
            Action::Finish { outcome, wake } => ActionView::Finish { outcome: outcome@, wake },
            Action::Idle => ActionView::Idle,
        }
    }
}

/// One dispatch sequence.
#[derive(Debug)]
pub struct Dispatch {
    endpoints: EndpointSet,
    wire: WireRequest,
    phase: Phase,
    ticket: u64,
    cursor: usize,
}

/// Mathematical model of a [`Dispatch`].
pub struct DispatchView {
    /// The addresses to attempt, in order.
    pub endpoints: Seq<Seq<char>>,
    /// What every attempt posts.
    pub wire: WireRequestView,
    pub phase: Phase,
    /// The ticket of the sequence; it has a meaning once the sequence has
    /// arrived.
    pub ticket: u64,
    /// The position of the endpoint under attempt.
    pub cursor: nat,
}

/// The result of one step: the states after it and what is to be done.
pub struct Step {
    pub dispatch: DispatchView,
    pub shared: SharedStateView,
    pub action: ActionView,
}

impl DispatchView {
    /// Validity: an attempt under way is one against an endpoint of the set.
    pub open spec fn wf(self) -> bool {
        self.phase is Attempting ==> self.cursor < self.endpoints.len()
    }

    /// Whether the sequence is executing: admitted and not yet ended.
    pub open spec fn executing(self) -> bool {
        self.phase is Pacing || self.phase is Sleeping || self.phase is Attempting
    }

    /// Whether the sequence and `gate` agree: an executing sequence holds
    /// the slot, and a parked one waits for it or has just been handed it.
    pub open spec fn coherent(self, gate: GateView) -> bool {
        &&& self.executing() ==> gate.holds(self.ticket)
        &&& self.phase is Parked ==> gate.queued(self.ticket) || gate.holds(self.ticket)
    }

    /// The sequence ends with `outcome`: the slot is given up.
    pub open spec fn finish(self, shared: SharedStateView, outcome: OutcomeView) -> Step {
        let gate = shared.gate.release(self.ticket);
        Step {
            dispatch: DispatchView { phase: Phase::Closed, ..self },
            shared: SharedStateView { gate, ..shared },
            action: ActionView::Finish {
                outcome,
                wake: if shared.gate.holds(self.ticket) {
                    gate.holder
                } else {
                    None
                },
            },
        }
    }

    /// The sequence starts at `now`: the start is recorded and the first
    /// endpoint attempted. With no endpoint at all the sequence is exhausted
    /// at once.
    pub open spec fn start(self, shared: SharedStateView, now: nat) -> Step {
        let started = SharedStateView { limiter: shared.limiter.record(now), ..shared };
        if self.endpoints.len() == 0 {
            self.finish(started, OutcomeView::Exhausted)
        } else {
            Step {
                dispatch: DispatchView { phase: Phase::Attempting, cursor: 0, ..self },
                shared: started,
                action: ActionView::Send { endpoint: 0 },
            }
        }
    }

    /// The attempt under way has ended with `reply`: a terminal outcome ends
    /// the sequence, any other moves it to the next endpoint, and after the
    /// last endpoint the sequence is exhausted.
    pub open spec fn settle(self, shared: SharedStateView, reply: UpstreamReplyView) -> Step {
        let outcome = classification(reply);
        if outcome.is_terminal() {
            self.finish(shared, outcome)
        } else if self.cursor + 1 < self.endpoints.len() {
            Step {
                dispatch: DispatchView { cursor: self.cursor + 1, ..self },
                shared,
                action: ActionView::Send { endpoint: self.cursor + 1 },
            }
        } else {
            self.finish(shared, OutcomeView::Exhausted)
        }
    }

    /// Nothing happens.
    pub open spec fn stay(self, shared: SharedStateView, action: ActionView) -> Step {
        Step { dispatch: self, shared, action }
    }

    /// The transition of the machine: the states after `event` and the action
    /// to perform. An event that the phase does not await changes nothing.
    pub open spec fn step(self, shared: SharedStateView, event: EventView) -> Step {
        match (self.phase, event) {
            (Phase::New, EventView::Arrived) => {
                if !shared.gate.can_issue() {
                    self.stay(shared, ActionView::Idle)
                } else if shared.gate.holder is None {
                    Step {
                        dispatch: DispatchView {
                            phase: Phase::Pacing,
                            ticket: shared.gate.issued as u64,
                            ..self
                        },
                        shared: SharedStateView { gate: shared.gate.acquire(), ..shared },
                        action: ActionView::ReadClock,
                    }
                } else {
                    Step {
                        dispatch: DispatchView {
                            phase: Phase::Parked,
                            ticket: shared.gate.issued as u64,
                            ..self
                        },
                        shared: SharedStateView { gate: shared.gate.acquire(), ..shared },
                        action: ActionView::Park,
                    }
                }
            },
            (Phase::Parked, EventView::Admitted) => {
                if shared.gate.holds(self.ticket) {
                    Step {
                        dispatch: DispatchView { phase: Phase::Pacing, ..self },
                        shared,
                        action: ActionView::ReadClock,
                    }
                } else {
                    self.stay(shared, ActionView::Park)
                }
            },
            (Phase::Pacing, EventView::Clock { now }) => {
                if shared.limiter.remaining(now) > 0 {
                    Step {
                        dispatch: DispatchView { phase: Phase::Sleeping, ..self },
                        shared,
                        action: ActionView::Sleep { nanos: shared.limiter.remaining(now) },
                    }
                } else {
                    self.start(shared, now)
                }
            },
            (Phase::Sleeping, EventView::Clock { now }) => self.start(shared, now),
            (Phase::Attempting, EventView::Upstream(reply)) => self.settle(shared, reply),
            _ => self.stay(shared, ActionView::Idle),
        }
    }
}

impl View for Dispatch {
    type V = DispatchView;

    closed spec fn view(&self) -> DispatchView {
        DispatchView {
            endpoints: self.endpoints@,
            wire: self.wire@,
            phase: self.phase,
            ticket: self.ticket,
            cursor: self.cursor as nat,
        }
    }
}

impl Dispatch {
    /// A sequence for the given wire request that has not yet arrived.
    pub fn new(endpoints: EndpointSet, wire: WireRequest) -> (dispatch: Dispatch)
        ensures
            dispatch@.wf(),
            dispatch@ == (DispatchView {
                endpoints: endpoints@,
                wire: wire@,
                phase: Phase::New,
                ticket: 0,
                cursor: 0,
            }),
    {
        Dispatch { endpoints, wire, phase: Phase::New, ticket: 0, cursor: 0 }
    }

    /// A sequence for an inbound call, shaped under a fresh request id, that
    /// has not yet arrived.
    pub fn for_call(endpoints: EndpointSet, inbound: ProxyRequest) -> (dispatch: Dispatch)
        ensures
            dispatch@.wf(),
            exists|uuid: Seq<char>|
                is_random_uuid_text(uuid) && dispatch@ == (DispatchView {
                    endpoints: endpoints@,
                    wire: #[trigger] wire_request(inbound@, request_id_of(uuid)),
                    phase: Phase::New,
                    ticket: 0,
                    cursor: 0,
                }),
    {
        Dispatch::new(endpoints, shape_fresh_request(inbound))
    }

    /// Where the sequence stands.
    pub fn phase(&self) -> (phase: Phase)
        ensures
            phase == self@.phase,
    {
        self.phase
    }

    /// The ticket of the sequence.
    pub fn ticket(&self) -> (ticket: u64)
        ensures
            ticket == self@.ticket,
    {
        self.ticket
    }

    /// The position of the endpoint under attempt.
    pub fn cursor(&self) -> (cursor: usize)
        ensures
            cursor == self@.cursor,
    {
        self.cursor
    }

    /// The endpoints that the sequence attempts.
    pub fn endpoints(&self) -> (endpoints: &EndpointSet)
        ensures
            endpoints@ == self@.endpoints,
    {
        &self.endpoints
    }

    /// What every attempt posts.
    pub fn wire(&self) -> (wire: &WireRequest)
        ensures
            wire@ == self@.wire,
    {
        &self.wire
    }

    fn finish(&mut self, shared: &mut SharedState, outcome: Outcome) -> (action: Action)
        requires
            old(shared)@.wf(),
        ensures
            final(shared)@.wf(),
            (Step { dispatch: final(self)@, shared: final(shared)@, action: action@ }) == old(
                self,
            )@.finish(old(shared)@, outcome@),
    {
        let wake = shared.gate.release(self.ticket);
        self.phase = Phase::Closed;
        Action::Finish { outcome, wake }
    }

    fn start(&mut self, shared: &mut SharedState, now: u64) -> (action: Action)
        requires
            old(shared)@.wf(),
        ensures
            final(shared)@.wf(),
            (Step { dispatch: final(self)@, shared: final(shared)@, action: action@ }) == old(
                self,
            )@.start(old(shared)@, now as nat),
    {
        shared.limiter.record(now);
        if self.endpoints.len() == 0 {
            self.finish(shared, Outcome::Exhausted)
        } else {
            self.phase = Phase::Attempting;
            self.cursor = 0;
            Action::Send { endpoint: 0 }
        }
    }

    fn settle(&mut self, shared: &mut SharedState, reply: UpstreamReply) -> (action: Action)
        requires
            old(shared)@.wf(),
            old(self)@.cursor < old(self)@.endpoints.len(),
        ensures
            final(shared)@.wf(),
            (Step { dispatch: final(self)@, shared: final(shared)@, action: action@ }) == old(
                self,
            )@.settle(old(shared)@, reply@),
    {
        let count: usize = self.endpoints.len();
        let outcome = classify(reply);
        if outcome.is_terminal() {
            self.finish(shared, outcome)
        } else if self.cursor + 1 < count {
            self.cursor = self.cursor + 1;
            Action::Send { endpoint: self.cursor }
        } else {
            self.finish(shared, Outcome::Exhausted)
        }
    }

    /// Takes one step: applies `event` and says what is to be done next. An
    /// event that the phase does not await changes nothing and yields
    /// [`Action::Idle`]; so does an arrival at a gate that has no ticket left.
    pub fn step(&mut self, shared: &mut SharedState, event: Event) -> (action: Action)
        requires
            old(self)@.wf(),
            old(shared)@.wf(),
        ensures
            final(self)@.wf(),
            final(shared)@.wf(),
            (Step { dispatch: final(self)@, shared: final(shared)@, action: action@ }) == old(
                self,
            )@.step(old(shared)@, event@),
    {
        match self.phase {
            Phase::New => match event {
                Event::Arrived => match shared.gate.acquire() {
                    Some(admission) => {
                        self.ticket = admission.ticket;
                        if admission.granted {
                            self.phase = Phase::Pacing;
                            Action::ReadClock
                        } else {
                            self.phase = Phase::Parked;
                            Action::Park
                        }
                    },
                    None => Action::Idle,
                },
                _ => Action::Idle,
            },
            Phase::Parked => match event {
                Event::Admitted => {
                    if shared.gate.holds(self.ticket) {
                        self.phase = Phase::Pacing;
                        Action::ReadClock
                    } else {
                        Action::Park
                    }
                },
                _ => Action::Idle,
            },
            Phase::Pacing => match event {
                Event::Clock { now } => {
                    let delay: u64 = shared.limiter.remaining(now);
                    if delay > 0 {
                        self.phase = Phase::Sleeping;
                        Action::Sleep { nanos: delay }
                    } else {
                        self.start(shared, now)
                    }
                },
                _ => Action::Idle,
            },
            Phase::Sleeping => match event {
                Event::Clock { now } => self.start(shared, now),
                _ => Action::Idle,
            },
            Phase::Attempting => match event {
                Event::Upstream(reply) => self.settle(shared, reply),
                _ => Action::Idle,
            },
            Phase::Closed => Action::Idle,
        }
    }
}

/// Whether `event` is what a sequence in `phase` waits for.
pub open spec fn awaited(phase: Phase, event: EventView) -> bool {
    match phase {
        Phase::New => event is Arrived,
        Phase::Parked => event is Admitted,
        Phase::Pacing | Phase::Sleeping => event is Clock,
        Phase::Attempting => event is Upstream,
        Phase::Closed => false,
    }
}

/// The event that a sequence waits for moves it on: the step answers with an
/// action other than [`Action::Idle`], unless the sequence arrives when every
/// ticket has been given out. Any other event is answered with
/// [`Action::Idle`] and changes nothing.
pub proof fn lemma_awaited_event_applies(
    dispatch: DispatchView,
    shared: SharedStateView,
    event: EventView,
)
    ensures
        ({
            let after = dispatch.step(shared, event);
            if awaited(dispatch.phase, event) && (dispatch.phase is New
                ==> shared.gate.can_issue()) {
                !(after.action is Idle)
            } else {
                after == dispatch.stay(shared, ActionView::Idle)
            }
        }),
{
}

/// A sequence sends only while it is executing, and only to an endpoint of
/// its set: the one at its cursor.
pub proof fn lemma_send_names_an_endpoint(
    dispatch: DispatchView,
    shared: SharedStateView,
    event: EventView,
)
    requires
        dispatch.wf(),
    ensures
        ({
            let after = dispatch.step(shared, event);
            after.action matches ActionView::Send { endpoint } ==> {
                &&& endpoint < dispatch.endpoints.len()
                &&& after.dispatch.cursor == endpoint
                &&& after.dispatch.phase is Attempting
            }
        }),
{
}

/// Only a terminal outcome reaches the caller: a server error or a transport
/// failure of one endpoint is never handed over.
pub proof fn lemma_finish_is_terminal(
    dispatch: DispatchView,
    shared: SharedStateView,
    event: EventView,
)
    ensures
        dispatch.step(shared, event).action matches ActionView::Finish { outcome, .. }
            ==> outcome.is_terminal(),
{
}

/// A sequence ends exactly when it hands an outcome over, and it ends once:
/// a closed sequence takes no further step.
pub proof fn lemma_one_outcome_per_call(
    dispatch: DispatchView,
    shared: SharedStateView,
    event: EventView,
)
    ensures
        ({
            let after = dispatch.step(shared, event);
            if dispatch.phase is Closed {
                after == dispatch.stay(shared, ActionView::Idle)
            } else {
                after.dispatch.phase is Closed <==> after.action is Finish
            }
        }),
{
}

/// The slot is given up on every way out: when a sequence that holds the slot
/// hands its outcome over, whatever the outcome, it holds the slot no longer.
pub proof fn lemma_finish_gives_slot_up(
    dispatch: DispatchView,
    shared: SharedStateView,
    event: EventView,
)
    requires
        shared.wf(),
        dispatch.coherent(shared.gate),
        dispatch.step(shared, event).action is Finish,
    ensures
        ({
            let after = dispatch.step(shared, event);
            &&& after.shared.gate == shared.gate.release(dispatch.ticket)
            &&& !after.shared.gate.holds(dispatch.ticket)
            &&& !after.shared.gate.queued(dispatch.ticket)
        }),
{
}

/// What a sequence sends and where it sends it is fixed when the sequence is
/// made: every attempt posts the same wire request, under the same request
/// id, to an endpoint of the same set.
pub proof fn lemma_step_keeps_request(
    dispatch: DispatchView,
    shared: SharedStateView,
    event: EventView,
)
    ensures
        dispatch.step(shared, event).dispatch.wire == dispatch.wire,
        dispatch.step(shared, event).dispatch.endpoints == dispatch.endpoints,
{
}

/// A sequence takes one turn at the rate limiter, however many endpoints it
/// attempts: its start is recorded by the step that ends the wait for its
/// turn, at the instant reported to that step, and no other step touches the
/// rate-limit state.
pub proof fn lemma_one_turn_per_call(
    dispatch: DispatchView,
    shared: SharedStateView,
    event: EventView,
)
    ensures
        ({
            let after = dispatch.step(shared, event);
            let waits = dispatch.phase is Pacing || dispatch.phase is Sleeping;
            let waits_on = after.dispatch.phase is Pacing || after.dispatch.phase is Sleeping;
            if waits && !waits_on {
                &&& event matches EventView::Clock { now }
                &&& after.shared.limiter == shared.limiter.record(now)
                &&& dispatch.phase is Pacing ==> shared.limiter.remaining(now) == 0
            } else {
                after.shared.limiter == shared.limiter
            }
        }),
{
}

/// A sequence that takes its turn under a clock that does not run backwards
/// and a sleep that lasts at least as long as asked starts no sooner than the
/// minimum interval after the start recorded before it. `arrival` is the
/// reading reported to the sequence that waits for its turn, `woken` the
/// reading reported after the sleep, if the sequence was sent to sleep.
pub proof fn lemma_start_keeps_interval(
    dispatch: DispatchView,
    shared: SharedStateView,
    arrival: nat,
    woken: nat,
)
    requires
        dispatch.phase is Pacing,
        shared.limiter.last matches Some(last) && last <= arrival,
        dispatch.step(shared, EventView::Clock { now: arrival }).action matches ActionView::Sleep {
            nanos,
        } ==> arrival + nanos <= woken,
    ensures
        ({
            let first = dispatch.step(shared, EventView::Clock { now: arrival });
            let started = if first.action is Sleep {
                first.dispatch.step(first.shared, EventView::Clock { now: woken })
            } else {
                first
            };
            &&& !(started.dispatch.phase is Pacing) && !(started.dispatch.phase is Sleeping)
            &&& started.shared.limiter.last matches Some(start) && start
                - shared.limiter.last.unwrap() >= shared.limiter.min_interval
        }),
{
}

} // verus!
