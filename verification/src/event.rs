//! What can happen to a connection while it waits.

use vstd::prelude::*;
use crate::effect::Outbound;
use crate::frame::{Frame, FrameView};

verus! {

/// One thing that one of the sources of a connection produced, or that
/// came of an operation which the driver performed for it.
#[derive(Clone, Debug, PartialEq, Eq)]
pub enum Event {
    /// The client sent a frame.
    Frame(Frame),
    /// The frame stream could not decode what the client sent; the text
    /// says what went wrong.
    StreamError(String),
    /// The frame stream ended: the client went away without a close frame.
    StreamEnded,
    /// The registrar delivered a message of another participant of the room.
    FanIn(String),
    /// The fan-in channel is closed for good: all its senders are gone.
    ChannelClosed,
    /// The liveness timer fired.
    Tick,
    /// An operation that the driver tried did not go through.
    SendFailed(Outbound),
}

/// What an [`Event`] holds.
pub enum EventView {
    Frame(FrameView),
    StreamError(Seq<char>),
    StreamEnded,
    FanIn(Seq<char>),
    ChannelClosed,
    Tick,
    SendFailed(Outbound),
}

impl View for Event {
    type V = EventView;

    open spec fn view(&self) -> EventView {
        match *self {
            Event::Frame(frame) => EventView::Frame(frame@),
            Event::StreamError(detail) => EventView::StreamError(detail@),
            Event::StreamEnded => EventView::StreamEnded,
            Event::FanIn(text) => EventView::FanIn(text@),
            Event::ChannelClosed => EventView::ChannelClosed,
            Event::Tick => EventView::Tick,
            Event::SendFailed(what) => EventView::SendFailed(what),
        }
    }
}

impl EventView {
    /// Whether the event shows that the client is alive: a ping or a pong
    /// frame, and nothing else.
    pub open spec fn confirms_liveness(self) -> bool {
        self matches EventView::Frame(frame) && frame.confirms_liveness()
    }

    /// Whether the event ends the loop of a running connection whatever
    /// the clock reads: a close frame, a failure or the end of the frame
    /// stream, or the loss of the fan-in channel.
    pub open spec fn ends_connection(self) -> bool {
        ||| self matches EventView::Frame(frame) && frame is Close
        ||| self is StreamError
        ||| self is StreamEnded
        ||| self is ChannelClosed
    }
}

/// An event together with the reading of the clock at which it was taken
/// up, in milliseconds.
#[derive(Clone, Debug, PartialEq, Eq)]
pub struct Timed {
    pub at: u64,
    pub event: Event,
}

/// What a [`Timed`] event holds.
pub struct TimedView {
    pub at: u64,
    pub event: EventView,
}

impl View for Timed {
    type V = TimedView;

    open spec fn view(&self) -> TimedView {
        TimedView { at: self.at, event: self.event@ }
    }
}

impl DeepView for Timed {
    type V = TimedView;

    open spec fn deep_view(&self) -> TimedView {
        self@
    }
}

} // verus!
