//! One connection: its state, the step that it takes on each event, and
//! its teardown.

use vstd::prelude::*;
use crate::config::Config;
use crate::dispatch::{dispatch, dispatched, Dispatched, DispatchedView};
use crate::effect::{Command, CommandView, Notice, NoticeView, Reaction, ReactionView};
use crate::event::{Event, EventView};
use crate::frame::{CloseReason, CloseReasonView, FrameView};
use crate::heartbeat::{later, timed_out, Heartbeat, Verdict};
use crate::identity::{Identity, IdentityView};
use crate::text::trimmed;

verus! {

/// Why the loop of a connection stopped.
#[derive(Clone, Copy, Debug, PartialEq, Eq, Structural)]
pub enum TerminalCondition {
    /// The client sent a close frame.
    ClientClose,
    /// The frame stream failed to decode what the client sent.
    StreamError,
    /// The frame stream ended without a close frame.
    StreamEnded,
    /// The client was silent for longer than the timeout.
    LivenessTimeout,
    /// The fan-in channel lost all its senders.
    ChannelClosed,
}

/// Where a connection stands in its life.
#[derive(Clone, Debug, PartialEq, Eq)]
pub enum Phase {
    /// The loop runs and takes events.
    Running,
    /// The loop has stopped and the teardown is still to come.
    Terminated { condition: TerminalCondition, reason: Option<CloseReason> },
    /// The teardown has been handed out.
    ShutDown { condition: TerminalCondition },
}

/// What a [`Phase`] holds.
pub enum PhaseView {
    Running,
    Terminated { condition: TerminalCondition, reason: Option<CloseReasonView> },
    ShutDown { condition: TerminalCondition },
}

impl View for Phase {
    type V = PhaseView;

    open spec fn view(&self) -> PhaseView {
        match *self {
            Phase::Running => PhaseView::Running,
            Phase::Terminated { condition, reason } => PhaseView::Terminated {
                condition,
                reason: reason.deep_view(),
            },
            Phase::ShutDown { condition } => PhaseView::ShutDown { condition },
        }
    }
}

/// The state of a connection as the contracts speak of it.
pub struct ConnectionView {
    /// Who the connection belongs to. It never changes.
    pub identity: IdentityView,
    /// The options that the connection was opened with. They never change.
    pub config: Config,
    /// When the client last showed that it is alive.
    pub last_alive: u64,
    /// Where the connection stands in its life.
    pub phase: PhaseView,
}

impl ConnectionView {
    /// A connection as it is opened at `now`: running, with the opening
    /// counted as the first sign of life.
    pub open spec fn opened(identity: IdentityView, config: Config, now: u64) -> ConnectionView {
        ConnectionView { identity, config, last_alive: now, phase: PhaseView::Running }
    }

    /// A close reason is kept only for a connection that its client closed.
    pub open spec fn well_formed(self) -> bool {
        self.phase matches PhaseView::Terminated { condition, reason } ==> (reason is Some
            ==> condition == TerminalCondition::ClientClose)
    }

    /// Whether the loop still takes events.
    pub open spec fn is_running(self) -> bool {
        self.phase is Running
    }

    /// Why the loop stopped, if it has.
    pub open spec fn terminal_condition(self) -> Option<TerminalCondition> {
        match self.phase {
            PhaseView::Running => None,
            PhaseView::Terminated { condition, .. } => Some(condition),
            PhaseView::ShutDown { condition } => Some(condition),
        }
    }

    /// The reason that the loop returned when it stopped: that of the
    /// client's close frame, and none on any other way out. The teardown
    /// takes the reason with it.
    pub open spec fn close_reason(self) -> Option<CloseReasonView> {
        match self.phase {
            PhaseView::Terminated { reason, .. } => reason,
            _ => None,
        }
    }

    /// The request that registers the connection for fan-out.
    pub open spec fn registration(self) -> CommandView {
        CommandView::Connect {
            room_id: self.identity.room_id,
            user_id: self.identity.user_id,
            display_name: self.identity.display_name,
            role: self.identity.role,
        }
    }

    /// The connection with its loop stopped by `condition`.
    pub open spec fn terminated(
        self,
        condition: TerminalCondition,
        reason: Option<CloseReasonView>,
    ) -> ConnectionView {
        ConnectionView { phase: PhaseView::Terminated { condition, reason }, ..self }
    }

    /// The connection after it has taken up `event` at `now`, and what
    /// that leaves for the driver.
    ///
    /// A running connection reacts as follows.
    /// - A frame goes through the dispatcher; a close frame stops the loop
    ///   with the reason that it carries.
    /// - A failure of the frame stream stops the loop, with an entry in
    ///   the log; the end of the stream stops it silently.
    /// - A message from the room is written to the client as it came.
    /// - The loss of the fan-in channel stops the loop, with an entry in
    ///   the log.
    /// - A tick stops the loop if the client has timed out, and probes the
    ///   client with an empty ping otherwise.
    ///
    /// A connection whose loop has stopped draws no more events: it stays
    /// as it is and leaves nothing to do. In every phase an operation that
    /// failed is put in the log and changes nothing.
    pub open spec fn step(self, event: EventView, now: u64) -> (ConnectionView, ReactionView) {
        if let EventView::SendFailed(what) = event {
            (self, ReactionView::report(NoticeView::SendFailed(what)))
        } else if !self.is_running() {
            (self, ReactionView::idle())
        } else {
            match event {
                EventView::Frame(frame) => {
                    let (last_alive, out) = dispatched(frame, self.identity, self.last_alive, now);
                    match out {
                        DispatchedView::Handled(reaction) => (
                            ConnectionView { last_alive, ..self },
                            reaction,
                        ),
                        DispatchedView::ClientClose(reason) => (
                            self.terminated(TerminalCondition::ClientClose, reason),
                            ReactionView::idle(),
                        ),
                    }
                },
                EventView::StreamError(detail) => (
                    self.terminated(TerminalCondition::StreamError, None),
                    ReactionView::report(NoticeView::StreamError(detail)),
                ),
                EventView::StreamEnded => (
                    self.terminated(TerminalCondition::StreamEnded, None),
                    ReactionView::idle(),
                ),
                EventView::FanIn(text) => (self, ReactionView::perform(CommandView::SendText(text))),
                EventView::ChannelClosed => (
                    self.terminated(TerminalCondition::ChannelClosed, None),
                    ReactionView::report(NoticeView::ChannelClosed),
                ),
                EventView::Tick => if timed_out(
                    self.last_alive,
                    now,
                    self.config.client_timeout_ms,
                ) {
                    (
                        self.terminated(TerminalCondition::LivenessTimeout, None),
                        ReactionView::report(NoticeView::TimedOut),
                    )
                } else {
                    (self, ReactionView::perform(CommandView::SendPing(Seq::empty())))
                },
                EventView::SendFailed(_) => (self, ReactionView::idle()),
            }
        }
    }

    /// The connection after its teardown was asked for, and the operations
    /// of the teardown in their order.
    ///
    /// A connection whose loop has stopped is taken off the registrar
    /// first, then the closing handshake is started with the reason that
    /// the loop returned. This happens once: while the loop runs, and
    /// after the teardown has been handed out, there is nothing to do.
    pub open spec fn shutdown(self) -> (ConnectionView, Seq<CommandView>) {
        match self.phase {
            PhaseView::Terminated { condition, reason } => (
                ConnectionView { phase: PhaseView::ShutDown { condition }, ..self },
                seq![
                    CommandView::Disconnect {
                        room_id: self.identity.room_id,
                        user_id: self.identity.user_id,
                    },
                    CommandView::Close(reason),
                ],
            ),
            _ => (self, Seq::empty()),
        }
    }
}

/// The state of one connection. It is made when the connection is
/// registered and lives until the teardown.
pub struct Connection {
    identity: Identity,
    config: Config,
    heartbeat: Heartbeat,
    phase: Phase,
}

impl View for Connection {
    type V = ConnectionView;

    closed spec fn view(&self) -> ConnectionView {
        ConnectionView {
            identity: self.identity@,
            config: self.config,
            last_alive: self.heartbeat@,
            phase: self.phase@,
        }
    }
}

impl Connection {
    /// Holds of every connection: what it keeps is well formed.
    #[verifier::type_invariant]
    pub open spec fn well_formed(self) -> bool {
        self@.well_formed()
    }

    /// Opens a connection for `identity` at `now`. The loop runs, and the
    /// opening counts as the first sign of life of the client.
    pub fn new(identity: Identity, config: Config, now: u64) -> (connection: Connection)
        ensures
            connection@ == ConnectionView::opened(identity@, config, now),
            connection@.well_formed(),
    {
        Connection { identity, config, heartbeat: Heartbeat::new(now), phase: Phase::Running }
    }

    /// Takes up one event at `now` and says what it leaves for the driver:
    /// at most one operation to perform and at most one entry for the log.
    pub fn step(&mut self, event: Event, now: u64) -> (reaction: Reaction)
        ensures
            (final(self)@, reaction@) == old(self)@.step(event@, now),
            final(self)@.well_formed(),
            // identity and options stay, and the last sign of life never moves back
            final(self)@.identity == old(self)@.identity,
            final(self)@.config == old(self)@.config,
            final(self)@.last_alive >= old(self)@.last_alive,
            // only a ping or a pong taken up by a running connection moves it
            !(old(self)@.is_running() && event@.confirms_liveness()) ==> final(self)@.last_alive
                == old(self)@.last_alive,
            // a loop that has stopped stays stopped, for the same reason
            !old(self)@.is_running() ==> final(self)@ == old(self)@,
            // a ping gets one pong with the same payload back, and is a sign of life
            event@ matches EventView::Frame(FrameView::Ping(payload)) ==> old(self)@.is_running()
                ==> {
                &&& reaction@ == ReactionView::perform(CommandView::SendPong(payload))
                &&& final(self)@ == (ConnectionView {
                    last_alive: later(old(self)@.last_alive, now),
                    ..old(self)@
                })
            },
            // a pong is a sign of life and needs no answer
            event@ matches EventView::Frame(FrameView::Pong(_)) ==> old(self)@.is_running() ==> {
                &&& reaction@ == ReactionView::idle()
                &&& final(self)@ == (ConnectionView {
                    last_alive: later(old(self)@.last_alive, now),
                    ..old(self)@
                })
            },
            // a text goes to the room once, trimmed, under the identity of
            // the connection, and leaves the connection as it is
            event@ matches EventView::Frame(FrameView::Text(text)) ==> old(self)@.is_running()
                ==> {
                &&& reaction@.command == Some(
                    CommandView::Broadcast {
                        room_id: old(self)@.identity.room_id,
                        user_id: old(self)@.identity.user_id,
                        text: trimmed(text),
                    },
                )
                &&& final(self)@ == old(self)@
            },
            // a binary frame leaves an entry in the log and nothing else
            event@ matches EventView::Frame(FrameView::Binary(_)) ==> old(self)@.is_running()
                ==> {
                &&& reaction@ == ReactionView::report(NoticeView::UnexpectedBinary)
                &&& final(self)@ == old(self)@
            },
            // a close frame stops the loop with the reason that it carries
            event@ matches EventView::Frame(FrameView::Close(reason)) ==> old(self)@.is_running()
                ==> {
                &&& reaction@ == ReactionView::idle()
                &&& final(self)@ == old(self)@.terminated(TerminalCondition::ClientClose, reason)
            },
            // a message from the room is written to the client as it came
            event@ matches EventView::FanIn(text) ==> old(self)@.is_running() ==> {
                &&& reaction@ == ReactionView::perform(CommandView::SendText(text))
                &&& final(self)@ == old(self)@
            },
            // a tick within the timeout probes the client with an empty ping
            old(self)@.is_running() && event@ is Tick && !timed_out(
                old(self)@.last_alive,
                now,
                old(self)@.config.client_timeout_ms,
            ) ==> {
                &&& reaction@ == ReactionView::perform(CommandView::SendPing(Seq::empty()))
                &&& final(self)@ == old(self)@
            },
            // a running connection that its client has left in silence for
            // longer than the timeout stops at the next tick, without a reason
            old(self)@.is_running() && event@ is Tick && timed_out(
                old(self)@.last_alive,
                now,
                old(self)@.config.client_timeout_ms,
            ) ==> final(self)@.phase == (PhaseView::Terminated {
                condition: TerminalCondition::LivenessTimeout,
                reason: None,
            }),
    {
        proof {
            use_type_invariant(&*self);
        }
        if let Event::SendFailed(what) = event {
            return Reaction::report(Notice::SendFailed(what));
        }
        if !self.is_running() {
            return Reaction::idle();
        }
        match event {
            Event::Frame(frame) => {
                let mut heartbeat = self.heartbeat;
                let handled = dispatch(frame, &self.identity, &mut heartbeat, now);
                self.heartbeat = heartbeat;
                match handled {
                    Dispatched::Handled(reaction) => reaction,
                    Dispatched::ClientClose(reason) => {
                        self.phase = Phase::Terminated {
                            condition: TerminalCondition::ClientClose,
                            reason,
                        };
                        Reaction::idle()
                    },
                }
            },
            Event::StreamError(detail) => {
                self.phase = Phase::Terminated {
                    condition: TerminalCondition::StreamError,
                    reason: None,
                };
                Reaction::report(Notice::StreamError(detail))
            },
            Event::StreamEnded => {
                self.phase = Phase::Terminated {
                    condition: TerminalCondition::StreamEnded,
                    reason: None,
                };
                Reaction::idle()
            },
            Event::FanIn(text) => Reaction::perform(Command::SendText(text)),
            Event::ChannelClosed => {
                self.phase = Phase::Terminated {
                    condition: TerminalCondition::ChannelClosed,
                    reason: None,
                };
                Reaction::report(Notice::ChannelClosed)
            },
            Event::Tick => {
                match self.heartbeat.check(now, self.config.client_timeout_ms) {
                    Verdict::TimedOut => {
                        self.phase = Phase::Terminated {
                            condition: TerminalCondition::LivenessTimeout,
                            reason: None,
                        };
                        Reaction::report(Notice::TimedOut)
                    },
                    Verdict::Probe => Reaction::perform(Command::SendPing(Vec::new())),
                }
            },
            Event::SendFailed(_) => Reaction::idle(),
        }
    }

    /// Hands out the teardown of a connection whose loop has stopped: the
    /// request that takes it off the registrar, then the closing handshake
    /// with the reason that the loop returned. The teardown is handed out
    /// once: a second call, and a call while the loop runs, return nothing.
    pub fn shutdown(&mut self) -> (plan: Vec<Command>)
        ensures
            (final(self)@, plan.deep_view()) == old(self)@.shutdown(),
            final(self)@.well_formed(),
            old(self)@.phase is Terminated ==> {
                &&& plan.len() == 2
                &&& plan[0]@ == (CommandView::Disconnect {
                    room_id: old(self)@.identity.room_id,
                    user_id: old(self)@.identity.user_id,
                })
                &&& plan[1]@ == CommandView::Close(old(self)@.close_reason())
                &&& final(self)@.phase is ShutDown
            },
            !(old(self)@.phase is Terminated) ==> plan.len() == 0 && final(self)@ == old(self)@,
    {
        proof {
            use_type_invariant(&*self);
        }
        let mut plan: Vec<Command> = Vec::new();
        let mut phase = Phase::Running;
        core::mem::swap(&mut self.phase, &mut phase);
        match phase {
            Phase::Terminated { condition, reason } => {
                plan.push(
                    Command::Disconnect {
                        room_id: self.identity.room_id.clone(),
                        user_id: self.identity.user_id.clone(),
                    },
                );
                plan.push(Command::Close(reason));
                self.phase = Phase::ShutDown { condition };
            },
            other => {
                self.phase = other;
            },
        }
        assert(plan.deep_view() =~= old(self)@.shutdown().1);
        plan
    }

    /// The request that registers the connection with the registrar.
    pub fn registration(&self) -> (command: Command)
        ensures
            command@ == self@.registration(),
    {
        Command::Connect {
            room_id: self.identity.room_id.clone(),
            user_id: self.identity.user_id.clone(),
            display_name: self.identity.display_name.clone(),
            role: self.identity.role.clone(),
        }
    }

    /// Whether the loop still takes events.
    pub fn is_running(&self) -> (running: bool)
        ensures
            running == self@.is_running(),
    {
        match self.phase {
            Phase::Running => true,
            _ => false,
        }
    }

    /// Why the loop stopped, if it has.
    pub fn terminal_condition(&self) -> (condition: Option<TerminalCondition>)
        ensures
            condition == self@.terminal_condition(),
    {
        match &self.phase {
            Phase::Running => None,
            Phase::Terminated { condition, .. } => Some(*condition),
            Phase::ShutDown { condition } => Some(*condition),
        }
    }

    /// The reason that the loop returned when it stopped: that of the
    /// client's close frame, and none on any other way out. The teardown
    /// takes the reason with it.
    pub fn close_reason(&self) -> (reason: Option<&CloseReason>)
        ensures
            reason.deep_view() == self@.close_reason(),
            reason is Some ==> self@.terminal_condition() == Some(TerminalCondition::ClientClose),
    {
        proof {
            use_type_invariant(self);
        }
        match &self.phase {
            Phase::Terminated { reason, .. } => reason.as_ref(),
            _ => None,
        }
    }

    /// Where the connection stands in its life.
    pub fn phase(&self) -> (phase: &Phase)
        ensures
            phase@ == self@.phase,
    {
        &self.phase
    }

    /// Who the connection belongs to.
    pub fn identity(&self) -> (identity: &Identity)
        ensures
            identity@ == self@.identity,
    {
        &self.identity
    }

    /// The options that the connection was opened with.
    pub fn config(&self) -> (config: Config)
        ensures
            config == self@.config,
    {
        self.config
    }

    /// When the client last showed that it is alive.
    pub fn last_alive(&self) -> (at: u64)
        ensures
            at == self@.last_alive,
    {
        self.heartbeat.last_alive()
    }
}

} // verus!
