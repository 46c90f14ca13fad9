//! The liveness policy: when a client last showed that it is alive, and
//! what a tick of the timer makes of that.

use vstd::prelude::*;

verus! {

/// The later of two readings of the clock.
pub open spec fn later(a: u64, b: u64) -> u64 {
    if a >= b {
        a
    } else {
        b
    }
}

/// Time that has passed at `now` since `last_alive`; none if the clock
/// reads earlier than `last_alive`.
pub open spec fn silence(last_alive: u64, now: u64) -> nat {
    if now >= last_alive {
        (now - last_alive) as nat
    } else {
        0
    }
}

/// Whether at `now` more than `timeout` has passed since `last_alive`.
pub open spec fn timed_out(last_alive: u64, now: u64, timeout: u64) -> bool {
    silence(last_alive, now) > timeout
}

/// What the policy makes of one tick of the timer.
#[derive(Clone, Copy, Debug, PartialEq, Eq, Structural)]
pub enum Verdict {
    /// The client has been silent for longer than the timeout.
    TimedOut,
    /// The client is within the timeout: probe it with a ping.
    Probe,
}

/// The moment at which the client last showed that it is alive. Readings
/// of the clock are in milliseconds since a start that the caller chooses.
///
/// The moment never moves back: a reading earlier than the recorded one
/// leaves the record as it is.
#[derive(Clone, Copy, Debug, PartialEq, Eq)]
pub struct Heartbeat {
    last_alive: u64,
}

impl View for Heartbeat {
    type V = u64;

    /// The recorded moment.
    closed spec fn view(&self) -> u64 {
        self.last_alive
    }
}

impl Heartbeat {
    /// A record that starts at `now`.
    pub fn new(now: u64) -> (heartbeat: Heartbeat)
        ensures
            heartbeat@ == now,
    {
        Heartbeat { last_alive: now }
    }

    /// The recorded moment.
    pub fn last_alive(&self) -> (at: u64)
        ensures
            at == self@,
    {
        self.last_alive
    }

    /// Records that the client showed at `now` that it is alive.
    pub fn confirm(&mut self, now: u64)
        ensures
            final(self)@ == later(old(self)@, now),
            final(self)@ >= old(self)@,
            now >= old(self)@ ==> final(self)@ == now,
    {
        if now > self.last_alive {
            self.last_alive = now;
        }
    }

    /// Time that has passed at `now` since the recorded moment.
    pub fn silence(&self, now: u64) -> (span: u64)
        ensures
            span == silence(self@, now),
    {
        if now >= self.last_alive {
            now - self.last_alive
        } else {
            0
        }
    }

    /// Judges one tick of the timer at `now`: the client has timed out if
    /// more than `timeout` has passed since the recorded moment, and is
    /// to be probed otherwise. The record stays as it is.
    pub fn check(&self, now: u64, timeout: u64) -> (verdict: Verdict)
        ensures
            timed_out(self@, now, timeout) <==> verdict == Verdict::TimedOut,
            !timed_out(self@, now, timeout) <==> verdict == Verdict::Probe,
    {
        if self.silence(now) > timeout {
            Verdict::TimedOut
        } else {
            Verdict::Probe
        }
    }
}

} // verus!
