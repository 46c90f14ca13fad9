//! The loop of a connection over a recorded run of events.
//!
//! A live connection waits on its sources and feeds its state one event
//! at a time. Whoever has the events of a run at hand, in the order in
//! which they became ready, can feed them all at once: the loop below
//! takes them up one by one and stops drawing at the event that ends it.
//! Which source is ready first is for the driver to find out; nothing
//! here prefers one source to another.

use vstd::prelude::*;
use crate::connection::{Connection, ConnectionView};
use crate::effect::{Reaction, ReactionView};
use crate::event::{Timed, TimedView};

verus! {

/// The connection `start` after the first `n` events of `trace`.
pub open spec fn state_after(start: ConnectionView, trace: Seq<TimedView>, n: nat) -> ConnectionView
    decreases n,
{
    if n == 0 {
        start
    } else {
        let taken = trace[n - 1];
        state_after(start, trace, (n - 1) as nat).step(taken.event, taken.at).0
    }
}

/// What the event at position `i` of `trace` leaves for the driver of a
/// connection that began as `start`.
pub open spec fn reaction_at(start: ConnectionView, trace: Seq<TimedView>, i: int) -> ReactionView {
    let taken = trace[i];
    state_after(start, trace, i as nat).step(taken.event, taken.at).1
}

/// Whether the loop of `start` draws the first `n` events of `trace` and
/// no more: it runs when it takes up each of them, and the last of them
/// ends it unless the trace is used up.
pub open spec fn draws(start: ConnectionView, trace: Seq<TimedView>, n: nat) -> bool {
    &&& n <= trace.len()
    &&& forall|i: int| 0 <= i < n ==> (#[trigger] state_after(start, trace, i as nat)).is_running()
    &&& n < trace.len() ==> !state_after(start, trace, n).is_running()
}

/// A loop that has stopped after `n` events is the same after any number
/// of further events.
pub proof fn lemma_stopped_stays(start: ConnectionView, trace: Seq<TimedView>, n: nat, m: nat)
    requires
        n <= m,
        !state_after(start, trace, n).is_running(),
    ensures
        state_after(start, trace, m) == state_after(start, trace, n),
    decreases m,
{
    if n < m {
        lemma_stopped_stays(start, trace, n, (m - 1) as nat);
    }
}

impl Connection {
    /// Feeds the connection the events of a run in their order, until one
    /// of them ends the loop or none is left. Returns what each event that
    /// was drawn leaves for the driver; the events behind the one that
    /// ended the loop are dropped unseen.
    pub fn run(&mut self, events: Vec<Timed>) -> (reactions: Vec<Reaction>)
        ensures
            draws(old(self)@, events.deep_view(), reactions.len() as nat),
            forall|i: int|
                0 <= i < reactions.len() ==> (#[trigger] reactions[i])@ == reaction_at(
                    old(self)@,
                    events.deep_view(),
                    i,
                ),
            final(self)@ == state_after(old(self)@, events.deep_view(), reactions.len() as nat),
            final(self)@ == state_after(old(self)@, events.deep_view(), events.len() as nat),
            final(self)@.well_formed(),
    {
        let ghost start = self@;
        let ghost trace = events.deep_view();
        let mut reactions: Vec<Reaction> = Vec::new();
        proof {
            use_type_invariant(&*self);
        }
        for timed in source: events
            invariant_except_break
                reactions.len() == source.index(),
            invariant
                trace == events.deep_view(),
                source.seq() == events@,
                reactions.len() <= events.len(),
                self@ == state_after(start, trace, reactions.len() as nat),
                self@.well_formed(),
                forall|i: int|
                    0 <= i < reactions.len() ==> (#[trigger] state_after(
                        start,
                        trace,
                        i as nat,
                    )).is_running(),
                forall|i: int|
                    0 <= i < reactions.len() ==> (#[trigger] reactions[i])@ == reaction_at(
                        start,
                        trace,
                        i,
                    ),
            ensures
                reactions.len() < events.len() ==> !self@.is_running(),
        {
            if !self.is_running() {
                break ;
            }
            proof {
                assert(trace[reactions.len() as int] == timed@);
            }
            let Timed { at, event } = timed;
            let reaction = self.step(event, at);
            reactions.push(reaction);
        }
        proof {
            if reactions.len() < events.len() {
                lemma_stopped_stays(start, trace, reactions.len() as nat, events.len() as nat);
            }
        }
        reactions
    }
}

} // verus!
