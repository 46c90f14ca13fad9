//! Frames as the transport hands them over, already decoded.

use vstd::prelude::*;

verus! {

/// Why a peer closes the connection: a status code and, optionally, a
/// description.
#[derive(Clone, Debug, PartialEq, Eq)]
pub struct CloseReason {
    /// Status code of the close frame.
    pub code: u16,
    /// Free text that came with the code.
    pub description: Option<String>,
}

/// What a [`CloseReason`] holds.
pub struct CloseReasonView {
    pub code: u16,
    pub description: Option<Seq<char>>,
}

impl View for CloseReason {
    type V = CloseReasonView;

    open spec fn view(&self) -> CloseReasonView {
        CloseReasonView {
            code: self.code,
            description: match self.description {
                Some(text) => Some(text@),
                None => None,
            },
        }
    }
}

impl DeepView for CloseReason {
    type V = CloseReasonView;

    open spec fn deep_view(&self) -> CloseReasonView {
        self@
    }
}

/// One decoded frame from the client.
#[derive(Clone, Debug, PartialEq, Eq)]
pub enum Frame {
    /// Liveness probe from the client, to be answered with a pong.
    Ping(Vec<u8>),
    /// Answer of the client to a probe.
    Pong(Vec<u8>),
    /// Text message for the room.
    Text(String),
    /// Binary message; the protocol has no use for it.
    Binary(Vec<u8>),
    /// Close frame, with the reason if the client gave one.
    Close(Option<CloseReason>),
}

/// What a [`Frame`] holds.
pub enum FrameView {
    Ping(Seq<u8>),
    Pong(Seq<u8>),
    Text(Seq<char>),
    Binary(Seq<u8>),
    Close(Option<CloseReasonView>),
}

impl View for Frame {
    type V = FrameView;

    open spec fn view(&self) -> FrameView {
        match *self {
            Frame::Ping(payload) => FrameView::Ping(payload@),
            Frame::Pong(payload) => FrameView::Pong(payload@),
            Frame::Text(text) => FrameView::Text(text@),
            Frame::Binary(payload) => FrameView::Binary(payload@),
            Frame::Close(reason) => FrameView::Close(reason.deep_view()),
        }
    }
}

impl FrameView {
    /// Whether the frame shows that the client is alive: a ping or a pong,
    /// and no other frame.
    pub open spec fn confirms_liveness(self) -> bool {
        self is Ping || self is Pong
    }
}

} // verus!
