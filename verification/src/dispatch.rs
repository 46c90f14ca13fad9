//! The message dispatcher: what each frame of the client leads to.

use vstd::prelude::*;
use crate::effect::{Command, CommandView, Notice, NoticeView, Reaction, ReactionView};
use crate::frame::{CloseReason, CloseReasonView, Frame, FrameView};
use crate::heartbeat::{later, Heartbeat};
use crate::identity::{Identity, IdentityView};
use crate::text::{trim, trimmed};

verus! {

/// What the dispatcher made of a frame.
#[derive(Clone, Debug, PartialEq, Eq)]
pub enum Dispatched {
    /// The frame is dealt with and the connection goes on.
    Handled(Reaction),
    /// The client closes the connection, with this reason if it gave one.
    ClientClose(Option<CloseReason>),
}

/// What a [`Dispatched`] holds.
pub enum DispatchedView {
    Handled(ReactionView),
    ClientClose(Option<CloseReasonView>),
}

impl View for Dispatched {
    type V = DispatchedView;

    open spec fn view(&self) -> DispatchedView {
        match *self {
            Dispatched::Handled(reaction) => DispatchedView::Handled(reaction@),
            Dispatched::ClientClose(reason) => DispatchedView::ClientClose(reason.deep_view()),
        }
    }
}

/// The message that `identity` sends to its room when its client sends
/// `text`: the text without the whitespace around it, under the room and
/// the user of the connection.
pub open spec fn broadcast_of(identity: IdentityView, text: Seq<char>) -> CommandView {
    CommandView::Broadcast {
        room_id: identity.room_id,
        user_id: identity.user_id,
        text: trimmed(text),
    }
}

/// The moment of the last sign of life after `frame` arrived at `now`, and
/// what the frame leads to.
///
/// - A ping is a sign of life and is answered by a pong with its payload.
/// - A pong is a sign of life and needs no answer.
/// - A text goes to the room, trimmed. It is no sign of life.
/// - A binary frame is dropped with an entry in the log.
/// - A close frame ends the connection with the reason that it carries.
pub open spec fn dispatched(
    frame: FrameView,
    identity: IdentityView,
    last_alive: u64,
    now: u64,
) -> (u64, DispatchedView) {
    match frame {
        FrameView::Ping(payload) => (
            later(last_alive, now),
            DispatchedView::Handled(ReactionView::perform(CommandView::SendPong(payload))),
        ),
        FrameView::Pong(_) => (later(last_alive, now), DispatchedView::Handled(ReactionView::idle())),
        FrameView::Text(text) => (
            last_alive,
            DispatchedView::Handled(
                ReactionView {
                    command: Some(broadcast_of(identity, text)),
                    notice: Some(NoticeView::TextReceived),
                },
            ),
        ),
        FrameView::Binary(_) => (
            last_alive,
            DispatchedView::Handled(ReactionView::report(NoticeView::UnexpectedBinary)),
        ),
        FrameView::Close(reason) => (last_alive, DispatchedView::ClientClose(reason)),
    }
}

/// Deals with one frame that the client of `identity` sent and that
/// arrived at `now`.
pub fn dispatch(frame: Frame, identity: &Identity, heartbeat: &mut Heartbeat, now: u64) -> (out:
    Dispatched)
    ensures
        (final(heartbeat)@, out@) == dispatched(frame@, identity@, old(heartbeat)@, now),
        // a ping gets one pong with the same payload back, and is a sign of life
        frame@ matches FrameView::Ping(payload) ==> {
            &&& out@ == DispatchedView::Handled(
                ReactionView::perform(CommandView::SendPong(payload)),
            )
            &&& final(heartbeat)@ == later(old(heartbeat)@, now)
        },
        // a pong is a sign of life and nothing more
        frame@ is Pong ==> {
            &&& out@ == DispatchedView::Handled(ReactionView::idle())
            &&& final(heartbeat)@ == later(old(heartbeat)@, now)
        },
        // a text is broadcast once, trimmed, under the identity of the connection
        frame@ matches FrameView::Text(text) ==> {
            &&& out@ matches DispatchedView::Handled(reaction)
            &&& reaction.command == Some(
                CommandView::Broadcast {
                    room_id: identity@.room_id,
                    user_id: identity@.user_id,
                    text: trimmed(text),
                },
            )
        },
        // a binary frame leaves an entry in the log and nothing else
        frame@ is Binary ==> out@ == DispatchedView::Handled(
            ReactionView::report(NoticeView::UnexpectedBinary),
        ),
        // a close frame ends the connection with the reason that it carries
        frame@ matches FrameView::Close(reason) ==> out@ == DispatchedView::ClientClose(reason),
        // only pings and pongs move the record of the last sign of life
        !frame@.confirms_liveness() ==> final(heartbeat)@ == old(heartbeat)@,
        final(heartbeat)@ >= old(heartbeat)@,
{
    match frame {
        Frame::Ping(payload) => {
            heartbeat.confirm(now);
            Dispatched::Handled(Reaction::perform(Command::SendPong(payload)))
        },
        Frame::Pong(_) => {
            heartbeat.confirm(now);
            Dispatched::Handled(Reaction::idle())
        },
        Frame::Text(text) => {
            let message = Command::Broadcast {
                room_id: identity.room_id.clone(),
                user_id: identity.user_id.clone(),
                text: trim(text.as_str()),
            };
            Dispatched::Handled(
                Reaction { command: Some(message), notice: Some(Notice::TextReceived) },
            )
        },
        Frame::Binary(_) => Dispatched::Handled(Reaction::report(Notice::UnexpectedBinary)),
        Frame::Close(reason) => Dispatched::ClientClose(reason),
    }
}

} // verus!
