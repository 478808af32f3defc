//! The concurrency gate: one slot, handed to arrivals in arrival order.

use std::collections::VecDeque;
use vstd::prelude::*;

verus! {

/// A single-slot gate. Each arrival is given a ticket; one ticket at most
/// holds the slot, and the others wait in arrival order.
#[derive(Debug)]
pub struct Gate {
    holder: Option<u64>,
    waiting: VecDeque<u64>,
    issued: u64,
}

/// Mathematical model of a [`Gate`].
pub struct GateView {
    /// The ticket that holds the slot.
    pub holder: Option<u64>,
    /// The tickets that wait for the slot, the longest wait first.
    pub waiting: Seq<u64>,
    /// How many tickets were given out; the next ticket carries this number.
    pub issued: nat,
}

/// What an arrival is told.
#[derive(Debug, Clone, Copy, PartialEq, Eq)]
pub struct Admission {
    /// The ticket of this arrival.
    pub ticket: u64,
    /// Whether the arrival holds the slot at once. If not it waits until a
    /// release names its ticket.
    pub granted: bool,
}

impl GateView {
    /// Validity: every ticket was given out by this gate, the waiting
    /// tickets stand in the order in which they were given out, behind the
    /// holder's, and nobody waits while the slot is free.
    pub open spec fn wf(self) -> bool {
        &&& self.issued <= u64::MAX
        &&& forall|i: int|
            0 <= i < self.waiting.len() ==> (#[trigger] self.waiting[i]) < self.issued
        &&& forall|i: int, j: int|
            0 <= i < j < self.waiting.len() ==> (#[trigger] self.waiting[i]) < (
            #[trigger] self.waiting[j])
        &&& self.holder matches Some(ticket) ==> {
            &&& ticket < self.issued
            &&& forall|i: int| 0 <= i < self.waiting.len() ==> ticket < (#[trigger] self.waiting[i])
        }
        &&& self.holder is None ==> self.waiting.len() == 0
    }

    /// Whether `ticket` holds the slot.
    pub open spec fn holds(self, ticket: u64) -> bool {
        self.holder == Some(ticket)
    }

    /// Whether `ticket` waits for the slot.
    pub open spec fn queued(self, ticket: u64) -> bool {
        self.waiting.contains(ticket)
    }

    /// The number of tickets that hold the slot.
    pub open spec fn in_flight(self) -> nat {
        if self.holder is Some {
            1
        } else {
            0
        }
    }

    /// Whether a further arrival can be given a ticket.
    pub open spec fn can_issue(self) -> bool {
        self.issued < u64::MAX
    }

    /// This gate after one more arrival, which takes the free slot or joins
    /// the end of the queue.
    pub open spec fn acquire(self) -> GateView {
        let ticket: u64 = self.issued as u64;
        if self.holder is None {
            GateView { holder: Some(ticket), waiting: self.waiting, issued: self.issued + 1 }
        } else {
            GateView {
                holder: self.holder,
                waiting: self.waiting.push(ticket),
                issued: self.issued + 1,
            }
        }
    }

    /// This gate after `ticket` gives the slot up: the longest waiter takes it.
    /// A ticket that does not hold the slot changes nothing.
    pub open spec fn release(self, ticket: u64) -> GateView {
        if !self.holds(ticket) {
            self
        } else if self.waiting.len() == 0 {
            GateView { holder: None, waiting: self.waiting, issued: self.issued }
        } else {
            GateView {
                holder: Some(self.waiting[0]),
                waiting: self.waiting.skip(1),
                issued: self.issued,
            }
        }
    }
}

impl View for Gate {
    type V = GateView;

    closed spec fn view(&self) -> GateView {
        GateView { holder: self.holder, waiting: self.waiting@, issued: self.issued as nat }
    }
}

impl Gate {
    /// A gate whose slot is free.
    pub fn new() -> (gate: Gate)
        ensures
            gate@.wf(),
            gate@ == (GateView { holder: None, waiting: Seq::empty(), issued: 0 }),
    {
        Gate { holder: None, waiting: VecDeque::new(), issued: 0 }
    }

    /// Whether a further arrival can be given a ticket.
    pub fn can_issue(&self) -> (possible: bool)
        ensures
            possible == self@.can_issue(),
    {
        self.issued < u64::MAX
    }

    /// The ticket that holds the slot.
    pub fn holder(&self) -> (holder: Option<u64>)
        ensures
            holder == self@.holder,
    {
        self.holder
    }

    /// Whether `ticket` holds the slot.
    pub fn holds(&self, ticket: u64) -> (held: bool)
        ensures
            held == self@.holds(ticket),
    {
        match self.holder {
            Some(holder) => holder == ticket,
            None => false,
        }
    }

    /// The number of tickets that wait.
    pub fn waiting(&self) -> (count: usize)
        ensures
            count == self@.waiting.len(),
    {
        self.waiting.len()
    }

    /// The number of tickets that hold the slot: never more than one.
    pub fn in_flight(&self) -> (count: usize)
        ensures
            count == self@.in_flight(),
            count <= 1,
    {
        if self.holder.is_some() {
            1
        } else {
            0
        }
    }

    /// Asks for the slot on behalf of a new arrival. The arrival is granted
    /// the slot if the slot is free and otherwise queued behind all earlier
    /// arrivals. `None`, and no change, once every ticket has been given out.
    pub fn acquire(&mut self) -> (admission: Option<Admission>)
        requires
            old(self)@.wf(),
        ensures
            final(self)@.wf(),
            match admission {
                Some(admission) => {
                    &&& old(self)@.can_issue()
                    &&& final(self)@ == old(self)@.acquire()
                    &&& admission.ticket == old(self)@.issued
                    &&& admission.granted == (old(self)@.holder is None)
                },
                None => !old(self)@.can_issue() && final(self)@ == old(self)@,
            },
    {
        if self.issued == u64::MAX {
            return None;
        }
        let ticket: u64 = self.issued;
        self.issued = ticket + 1;
        let granted = self.holder.is_none();
        if granted {
            self.holder = Some(ticket);
        } else {
            self.waiting.push_back(ticket);
        }
        Some(Admission { ticket, granted })
    }

    /// Gives the slot up. If `ticket` holds it, the slot passes to the longest
    /// waiter, whose ticket is returned so that it can be woken; with nobody
    /// waiting the slot is free again. A ticket that does not hold the slot
    /// changes nothing.
    pub fn release(&mut self, ticket: u64) -> (next: Option<u64>)
        requires
            old(self)@.wf(),
        ensures
            final(self)@.wf(),
            final(self)@ == old(self)@.release(ticket),
            next == (if old(self)@.holds(ticket) {
                final(self)@.holder
            } else {
                None
            }),
    {
        if !self.holds(ticket) {
            return None;
        }
        let next = self.waiting.pop_front();
        self.holder = next;
        next
    }
}

/// An arrival leaves a valid gate valid.
pub proof fn lemma_acquire_keeps_valid(gate: GateView)
    requires
        gate.wf(),
        gate.can_issue(),
    ensures
        gate.acquire().wf(),
{
}

/// A release leaves a valid gate valid.
pub proof fn lemma_release_keeps_valid(gate: GateView, ticket: u64)
    requires
        gate.wf(),
    ensures
        gate.release(ticket).wf(),
{
}

/// Mutual exclusion: two tickets that both hold the slot are one ticket.
pub proof fn lemma_one_holder(gate: GateView, first: u64, second: u64)
    requires
        gate.holds(first),
        gate.holds(second),
    ensures
        first == second,
        gate.in_flight() == 1,
{
}

/// A ticket never both holds the slot and waits for it.
pub proof fn lemma_holder_not_queued(gate: GateView, ticket: u64)
    requires
        gate.wf(),
        gate.holds(ticket),
    ensures
        !gate.queued(ticket),
{
}

/// No overtaking: while a ticket waits, no ticket given out after it holds
/// the slot.
pub proof fn lemma_no_overtaking(gate: GateView, earlier: u64, later: u64)
    requires
        gate.wf(),
        gate.queued(earlier),
        earlier < later,
    ensures
        !gate.holds(later),
{
}

/// First come, first served: a release passes the slot to the waiter that
/// arrived before every other waiter.
pub proof fn lemma_release_serves_earliest(gate: GateView, ticket: u64, waiter: u64)
    requires
        gate.wf(),
        gate.holds(ticket),
        gate.queued(waiter),
    ensures
        gate.release(ticket).holder is Some,
        gate.release(ticket).holder.unwrap() <= waiter,
        waiter != gate.release(ticket).holder.unwrap() ==> gate.release(ticket).queued(waiter),
{
    let position: int = choose|i: int| 0 <= i < gate.waiting.len() && gate.waiting[i] == waiter;
    if position > 0 {
        assert(gate.waiting.skip(1)[position - 1] == waiter);
    }
}

/// A later arrival never overtakes: whoever waits keeps its place before
/// every ticket given out after its own.
pub proof fn lemma_arrival_joins_the_end(gate: GateView, waiter: u64)
    requires
        gate.wf(),
        gate.can_issue(),
        gate.holder is Some,
        gate.queued(waiter),
    ensures
        gate.acquire().waiting.last() == gate.issued,
        gate.acquire().waiting.drop_last() == gate.waiting,
        waiter < gate.issued,
{
}

/// An arrival takes nothing from the tickets given out before.
pub proof fn lemma_arrival_disturbs_nobody(gate: GateView, other: u64)
    requires
        gate.wf(),
        gate.can_issue(),
        other != gate.issued,
    ensures
        gate.acquire().holds(other) == gate.holds(other),
        gate.acquire().queued(other) == gate.queued(other),
{
    if gate.holder is Some {
        let after = gate.waiting.push(gate.issued as u64);
        if gate.queued(other) {
            let i: int = choose|i: int| 0 <= i < gate.waiting.len() && gate.waiting[i] == other;
            assert(after[i] == other);
        }
    }
}

/// A release takes nothing from the other tickets: a waiter still waits or
/// now holds the slot, and no ticket gains the slot but the longest waiter.
pub proof fn lemma_release_disturbs_nobody(gate: GateView, ticket: u64, other: u64)
    requires
        gate.wf(),
        other != ticket,
    ensures
        gate.holds(other) ==> gate.release(ticket).holds(other),
        gate.queued(other) ==> gate.release(ticket).queued(other) || gate.release(ticket).holds(
            other,
        ),
        gate.release(ticket).holds(other) ==> gate.holds(other) || gate.queued(other),
        gate.release(ticket).queued(other) ==> gate.queued(other),
{
    if gate.holds(ticket) && gate.waiting.len() > 0 {
        let after = gate.waiting.skip(1);
        if gate.queued(other) {
            let i: int = choose|i: int| 0 <= i < gate.waiting.len() && gate.waiting[i] == other;
            if i > 0 {
                assert(after[i - 1] == other);
            }
        }
    }
}

} // verus!
