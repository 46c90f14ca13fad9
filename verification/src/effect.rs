//! What a connection asks its driver to do, and what it has to report.

use vstd::prelude::*;
use crate::frame::{CloseReason, CloseReasonView};

verus! {

/// An operation on the transport or on the registrar that can fail.
#[derive(Clone, Copy, Debug, PartialEq, Eq, Structural)]
pub enum Outbound {
    /// Writing a pong frame.
    Pong,
    /// Writing a ping frame.
    Ping,
    /// Writing a text frame.
    Text,
    /// The closing handshake.
    Close,
    /// Taking the connection off the registrar.
    Disconnect,
}

/// One operation that the driver performs for the connection.
#[derive(Clone, Debug, PartialEq, Eq)]
pub enum Command {
    /// Register the connection with the registrar for fan-out.
    Connect { room_id: String, user_id: String, display_name: String, role: String },
    /// Write a pong frame with this payload to the client.
    SendPong(Vec<u8>),
    /// Write a ping frame with this payload to the client.
    SendPing(Vec<u8>),
    /// Write a text frame to the client.
    SendText(String),
    /// Hand a message of this user to the registrar, for the room.
    Broadcast { room_id: String, user_id: String, text: String },
    /// Take the connection off the registrar.
    Disconnect { room_id: String, user_id: String },
    /// Start the closing handshake, with the reason if there is one.
    Close(Option<CloseReason>),
}

/// What a [`Command`] holds.
pub enum CommandView {
    Connect { room_id: Seq<char>, user_id: Seq<char>, display_name: Seq<char>, role: Seq<char> },
    SendPong(Seq<u8>),
    SendPing(Seq<u8>),
    SendText(Seq<char>),
    Broadcast { room_id: Seq<char>, user_id: Seq<char>, text: Seq<char> },
    Disconnect { room_id: Seq<char>, user_id: Seq<char> },
    Close(Option<CloseReasonView>),
}

impl View for Command {
    type V = CommandView;

    open spec fn view(&self) -> CommandView {
        match *self {
            Command::Connect { room_id, user_id, display_name, role } => CommandView::Connect {
                room_id: room_id@,
                user_id: user_id@,
                display_name: display_name@,
                role: role@,
            },
            Command::SendPong(payload) => CommandView::SendPong(payload@),
            Command::SendPing(payload) => CommandView::SendPing(payload@),
            Command::SendText(text) => CommandView::SendText(text@),
            Command::Broadcast { room_id, user_id, text } => CommandView::Broadcast {
                room_id: room_id@,
                user_id: user_id@,
                text: text@,
            },
            Command::Disconnect { room_id, user_id } => CommandView::Disconnect {
                room_id: room_id@,
                user_id: user_id@,
            },
            Command::Close(reason) => CommandView::Close(reason.deep_view()),
        }
    }
}

impl DeepView for Command {
    type V = CommandView;

    open spec fn deep_view(&self) -> CommandView {
        self@
    }
}

/// How much weight an entry of the log carries.
#[derive(Clone, Copy, Debug, PartialEq, Eq, Structural)]
pub enum Severity {
    /// Ordinary course of a connection, its end included.
    Info,
    /// Something failed and the connection goes on.
    Warning,
    /// A collaborator broke a promise that the connection relies on.
    Violation,
}

impl Severity {
    /// Position of the level, from the lightest (0) to the gravest.
    pub open spec fn rank(self) -> nat {
        match self {
            Severity::Info => 0,
            Severity::Warning => 1,
            Severity::Violation => 2,
        }
    }
}

/// One entry for the log. The driver words it and writes it.
#[derive(Clone, Debug, PartialEq, Eq)]
pub enum Notice {
    /// The client sent a text message, which goes to the room.
    TextReceived,
    /// The client sent a binary frame, which was dropped.
    UnexpectedBinary,
    /// The frame stream failed; the text says how.
    StreamError(String),
    /// The client was silent for longer than the timeout.
    TimedOut,
    /// Every sender of the fan-in channel is gone, which the registrar
    /// promised not to let happen while the connection is registered.
    ChannelClosed,
    /// An operation did not go through and was given up.
    SendFailed(Outbound),
}

/// What a [`Notice`] holds.
pub enum NoticeView {
    TextReceived,
    UnexpectedBinary,
    StreamError(Seq<char>),
    TimedOut,
    ChannelClosed,
    SendFailed(Outbound),
}

impl NoticeView {
    /// The weight of the entry: a broken promise of the registrar is a
    /// violation, a failed operation a warning, all else information.
    pub open spec fn severity(self) -> Severity {
        match self {
            NoticeView::ChannelClosed => Severity::Violation,
            NoticeView::SendFailed(_) => Severity::Warning,
            _ => Severity::Info,
        }
    }
}

impl View for Notice {
    type V = NoticeView;

    open spec fn view(&self) -> NoticeView {
        match *self {
            Notice::TextReceived => NoticeView::TextReceived,
            Notice::UnexpectedBinary => NoticeView::UnexpectedBinary,
            Notice::StreamError(detail) => NoticeView::StreamError(detail@),
            Notice::TimedOut => NoticeView::TimedOut,
            Notice::ChannelClosed => NoticeView::ChannelClosed,
            Notice::SendFailed(what) => NoticeView::SendFailed(what),
        }
    }
}

impl DeepView for Notice {
    type V = NoticeView;

    open spec fn deep_view(&self) -> NoticeView {
        self@
    }
}

impl Notice {
    /// The weight of the entry.
    pub fn severity(&self) -> (level: Severity)
        ensures
            level == self@.severity(),
            // the loss of the fan-in channel outweighs every other entry
            self@ is ChannelClosed <==> level == Severity::Violation,
            self@ is SendFailed <==> level == Severity::Warning,
    {
        match self {
            Notice::ChannelClosed => Severity::Violation,
            Notice::SendFailed(_) => Severity::Warning,
            _ => Severity::Info,
        }
    }
}

/// What one step of the connection leaves for the driver: at most one
/// operation to perform and at most one entry for the log.
#[derive(Clone, Debug, PartialEq, Eq)]
pub struct Reaction {
    pub command: Option<Command>,
    pub notice: Option<Notice>,
}

/// What a [`Reaction`] holds.
pub struct ReactionView {
    pub command: Option<CommandView>,
    pub notice: Option<NoticeView>,
}

impl ReactionView {
    /// Nothing to perform and nothing to report.
    pub open spec fn idle() -> ReactionView {
        ReactionView { command: None, notice: None }
    }

    /// One operation to perform, nothing to report.
    pub open spec fn perform(command: CommandView) -> ReactionView {
        ReactionView { command: Some(command), notice: None }
    }

    /// One entry for the log, nothing to perform.
    pub open spec fn report(notice: NoticeView) -> ReactionView {
        ReactionView { command: None, notice: Some(notice) }
    }
}

impl View for Reaction {
    type V = ReactionView;

    open spec fn view(&self) -> ReactionView {
        ReactionView { command: self.command.deep_view(), notice: self.notice.deep_view() }
    }
}

impl DeepView for Reaction {
    type V = ReactionView;

    open spec fn deep_view(&self) -> ReactionView {
        self@
    }
}

impl Reaction {
    /// Nothing to perform and nothing to report.
    pub fn idle() -> (reaction: Reaction)
        ensures
            reaction@ == ReactionView::idle(),
    {
        Reaction { command: None, notice: None }
    }

    /// One operation to perform, nothing to report.
    pub fn perform(command: Command) -> (reaction: Reaction)
        ensures
            reaction@ == ReactionView::perform(command@),
    {
        Reaction { command: Some(command), notice: None }
    }

    /// One entry for the log, nothing to perform.
    pub fn report(notice: Notice) -> (reaction: Reaction)
        ensures
            reaction@ == ReactionView::report(notice@),
    {
        Reaction { command: None, notice: Some(notice) }
    }
}

} // verus!
