//! Mutual exclusion, stated over all dispatch sequences that share one
//! concurrency gate.

use crate::dispatcher::{DispatchView, EventView, SharedStateView};
use crate::gate::{
    lemma_acquire_keeps_valid, lemma_arrival_disturbs_nobody, lemma_release_disturbs_nobody,
    lemma_release_keeps_valid,
};
use vstd::prelude::*;

verus! {

/// Any number of dispatch sequences and the state they share.
pub struct System {
    pub shared: SharedStateView,
    pub calls: Seq<DispatchView>,
}

/// Whether a sequence has a ticket in use: it waits for the slot or is
/// executing.
pub open spec fn ticket_in_use(call: DispatchView) -> bool {
    call.phase is Parked || call.executing()
}

impl System {
    /// Validity: every sequence is valid and agrees with the shared gate, and
    /// no two sequences have the same ticket in use.
    pub open spec fn wf(self) -> bool {
        &&& self.shared.wf()
        &&& forall|i: int|
            0 <= i < self.calls.len() ==> {
                &&& (#[trigger] self.calls[i]).wf()
                &&& self.calls[i].coherent(self.shared.gate)
            }
        &&& forall|i: int, j: int|
            {
                &&& 0 <= i < self.calls.len()
                &&& 0 <= j < self.calls.len()
                &&& i != j
                &&& ticket_in_use(#[trigger] self.calls[i])
                &&& ticket_in_use(#[trigger] self.calls[j])
            } ==> self.calls[i].ticket != self.calls[j].ticket
    }

    /// The system after sequence `i` has taken a step on `event`.
    pub open spec fn advance(self, i: int, event: EventView) -> System {
        let step = self.calls[i].step(self.shared, event);
        System { shared: step.shared, calls: self.calls.update(i, step.dispatch) }
    }
}

/// Sequences that have not yet arrived form a valid system with any valid
/// shared state.
pub proof fn lemma_new_calls_are_valid(system: System)
    requires
        system.shared.wf(),
        forall|i: int| 0 <= i < system.calls.len() ==> (#[trigger] system.calls[i]).phase is New,
    ensures
        system.wf(),
{
}

/// A step leaves the stepping sequence valid and in agreement with the
/// shared gate.
pub proof fn lemma_step_keeps_coherence(
    call: DispatchView,
    shared: SharedStateView,
    event: EventView,
)
    requires
        call.wf(),
        shared.wf(),
        call.coherent(shared.gate),
    ensures
        ({
            let after = call.step(shared, event);
            &&& after.dispatch.wf()
            &&& after.shared.wf()
            &&& after.dispatch.coherent(after.shared.gate)
        }),
{
    let gate = shared.gate;
    if gate.can_issue() {
        lemma_acquire_keeps_valid(gate);
        if gate.holder is Some {
            assert(gate.acquire().waiting[gate.waiting.len() as int] == gate.issued);
        }
    }
    lemma_release_keeps_valid(gate, call.ticket);
}

/// Whatever sequence steps on whatever event, the system stays valid.
pub proof fn lemma_advance_keeps_valid(system: System, i: int, event: EventView)
    requires
        system.wf(),
        0 <= i < system.calls.len(),
    ensures
        system.advance(i, event).wf(),
{
    let gate = system.shared.gate;
    let call = system.calls[i];
    let after = system.advance(i, event);
    if gate.can_issue() {
        lemma_acquire_keeps_valid(gate);
    }
    lemma_release_keeps_valid(gate, call.ticket);
    assert forall|j: int| 0 <= j < after.calls.len() implies (#[trigger] after.calls[j]).wf()
        && after.calls[j].coherent(after.shared.gate) by {
        if j != i {
            let other = system.calls[j];
            if gate.can_issue() && other.ticket != gate.issued {
                lemma_arrival_disturbs_nobody(gate, other.ticket);
            }
            if other.ticket != call.ticket {
                lemma_release_disturbs_nobody(gate, call.ticket, other.ticket);
            }
        } else {
            lemma_step_keeps_coherence(call, system.shared, event);
        }
    }
}

/// At most one dispatch sequence is executing: two executing sequences of a
/// valid system are one sequence.
pub proof fn lemma_one_sequence_executes(system: System, i: int, j: int)
    requires
        system.wf(),
        0 <= i < system.calls.len(),
        0 <= j < system.calls.len(),
        system.calls[i].executing(),
        system.calls[j].executing(),
    ensures
        i == j,
{
}

/// While a sequence is executing, the slot is taken and held by that
/// sequence.
pub proof fn lemma_executing_holds_slot(system: System, i: int)
    requires
        system.wf(),
        0 <= i < system.calls.len(),
        system.calls[i].executing(),
    ensures
        system.shared.gate.in_flight() == 1,
        system.shared.gate.holds(system.calls[i].ticket),
{
}

/// Tickets follow arrival: a sequence that arrives is given a ticket later
/// than every ticket in use.
pub proof fn lemma_arrival_takes_later_ticket(system: System, i: int, j: int)
    requires
        system.wf(),
        0 <= i < system.calls.len(),
        0 <= j < system.calls.len(),
        system.calls[i].phase is New,
        ticket_in_use(system.advance(i, EventView::Arrived).calls[i]),
        ticket_in_use(system.calls[j]),
    ensures
        system.calls[j].ticket < system.advance(i, EventView::Arrived).calls[i].ticket,
{
}

/// Calls are served in arrival order: while a sequence with an earlier ticket
/// waits or executes, no sequence with a later ticket executes. So a call
/// begins its turn at the rate limiter only when every call that arrived
/// before it has reached its outcome.
pub proof fn lemma_first_come_first_served(system: System, i: int, j: int)
    requires
        system.wf(),
        0 <= i < system.calls.len(),
        0 <= j < system.calls.len(),
        ticket_in_use(system.calls[i]),
        system.calls[i].ticket < system.calls[j].ticket,
    ensures
        !system.calls[j].executing(),
{
}

} // verus!
