//! Minimum spacing between the starts of successive dispatch sequences.
//!
//! Instants are readings of one monotonic clock and intervals are differences
//! of such readings, all in nanoseconds.

use vstd::prelude::*;

verus! {

/// The rate-limit state: the configured minimum interval and the instant at
/// which the last dispatch sequence started, if any has.
#[derive(Debug)]
pub struct RateLimiter {
    min_interval: u64,
    last: Option<u64>,
}

/// Mathematical model of a [`RateLimiter`].
pub struct RateLimiterView {
    pub min_interval: nat,
    pub last: Option<nat>,
}

/// One passage through the limiter: the clock reading on arrival and the
/// reading recorded as the start of the dispatch sequence.
pub struct Turn {
    pub arrival: nat,
    pub start: nat,
}

/// Time elapsed at `now` since `earlier`; zero if the clock reads less than
/// `earlier`.
pub open spec fn elapsed_since(earlier: nat, now: nat) -> nat {
    if now >= earlier {
        (now - earlier) as nat
    } else {
        0
    }
}

impl RateLimiterView {
    /// How long a sequence arriving at `now` has to wait before it may start.
    pub open spec fn remaining(self, now: nat) -> nat {
        match self.last {
            None => 0,
            Some(last) => if elapsed_since(last, now) < self.min_interval {
                (self.min_interval - elapsed_since(last, now)) as nat
            } else {
                0
            },
        }
    }

    /// The state after a sequence has started at `now`.
    pub open spec fn record(self, now: nat) -> RateLimiterView {
        RateLimiterView { min_interval: self.min_interval, last: Some(now) }
    }

    /// What clock and sleep owe a turn: the clock does not run backwards, and
    /// the sequence starts no earlier than its arrival plus the wait it was
    /// given.
    pub open spec fn admits(self, turn: Turn) -> bool {
        &&& self.last matches Some(last) ==> last <= turn.arrival
        &&& turn.arrival + self.remaining(turn.arrival) <= turn.start
    }

    /// The state after the given turns, each recorded at its start.
    pub open spec fn after(self, turns: Seq<Turn>) -> RateLimiterView
        decreases turns.len(),
    {
        if turns.len() == 0 {
            self
        } else {
            self.after(turns.drop_last()).record(turns.last().start)
        }
    }

    /// Every turn is admitted by the state that the turns before it left.
    pub open spec fn paces(self, turns: Seq<Turn>) -> bool
        decreases turns.len(),
    {
        turns.len() == 0 || (self.paces(turns.drop_last()) && self.after(
            turns.drop_last(),
        ).admits(turns.last()))
    }
}

impl View for RateLimiter {
    type V = RateLimiterView;

    closed spec fn view(&self) -> RateLimiterView {
        RateLimiterView {
            min_interval: self.min_interval as nat,
            last: match self.last {
                None => None,
                Some(last) => Some(last as nat),
            },
        }
    }
}

impl RateLimiter {
    /// A limiter that has seen no dispatch yet.
    pub fn new(min_interval: u64) -> (limiter: RateLimiter)
        ensures
            limiter@ == (RateLimiterView { min_interval: min_interval as nat, last: None }),
    {
        RateLimiter { min_interval, last: None }
    }

    /// The configured minimum interval.
    pub fn min_interval(&self) -> (interval: u64)
        ensures
            interval as nat == self@.min_interval,
    {
        self.min_interval
    }

    /// The start of the last dispatch sequence.
    pub fn last_dispatch(&self) -> (last: Option<u64>)
        ensures
            match last {
                Some(instant) => self@.last == Some(instant as nat),
                None => self@.last is None,
            },
    {
        self.last
    }

    /// How long a sequence arriving at `now` has to wait before it may start.
    /// The state is not changed: the start is recorded after the wait.
    pub fn remaining(&self, now: u64) -> (delay: u64)
        ensures
            delay as nat == self@.remaining(now as nat),
    {
        match self.last {
            None => 0,
            Some(last) => {
                let elapsed: u64 = if now >= last {
                    now - last
                } else {
                    0
                };
                if elapsed < self.min_interval {
                    self.min_interval - elapsed
                } else {
                    0
                }
            },
        }
    }

    /// Records `now` as the start of a dispatch sequence, whatever was
    /// recorded before.
    pub fn record(&mut self, now: u64)
        ensures
            final(self)@ == old(self)@.record(now as nat),
    {
        self.last = Some(now);
    }
}

/// A sequence that passes an admitted turn starts at least the minimum
/// interval after the start recorded before it.
pub proof fn lemma_turn_keeps_interval(limiter: RateLimiterView, turn: Turn)
    requires
        limiter.admits(turn),
        limiter.last is Some,
    ensures
        turn.start - limiter.last.unwrap() >= limiter.min_interval,
{
}

/// Turns change the recorded start and never the configured interval.
pub proof fn lemma_turns_keep_configuration(limiter: RateLimiterView, turns: Seq<Turn>)
    ensures
        limiter.after(turns).min_interval == limiter.min_interval,
    decreases turns.len(),
{
    if turns.len() > 0 {
        lemma_turns_keep_configuration(limiter, turns.drop_last());
    }
}

/// For any number of turns paced by one limiter, the starts of two successive
/// turns lie at least the minimum interval apart.
pub proof fn lemma_successive_starts_spaced(limiter: RateLimiterView, turns: Seq<Turn>, i: int)
    requires
        limiter.paces(turns),
        0 <= i,
        i + 1 < turns.len(),
    ensures
        turns[i + 1].start - turns[i].start >= limiter.min_interval,
    decreases turns.len(),
{
    let earlier = turns.drop_last();
    if i + 2 == turns.len() {
        lemma_turns_keep_configuration(limiter, earlier);
        lemma_turn_keeps_interval(limiter.after(earlier), turns.last());
    } else {
        lemma_successive_starts_spaced(limiter, earlier, i);
    }
}

} // verus!
