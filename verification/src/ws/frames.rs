//! WebSocket frames as the session logic sees them, with their views.

use vstd::prelude::*;

verus! {

/// Why a peer closes the connection: a status code and an optional text.
#[derive(Debug, PartialEq, Eq)]
pub struct CloseReason {
    pub code: u16,
    pub description: Option<String>,
}

/// What contracts see of [`CloseReason`]: its content as mathematical values.
pub struct CloseReasonView {
    pub code: u16,
    pub description: Option<Seq<char>>,
}

impl View for CloseReason {
    type V = CloseReasonView;

    open spec fn view(&self) -> CloseReasonView {
        CloseReasonView {
            code: self.code,
            description: match self.description {
                Some(text) => Some(text@),
                None => None,
            },
        }
    }
}

/// The view of an optional close reason.
pub open spec fn reason_view(reason: Option<CloseReason>) -> Option<CloseReasonView> {
    match reason {
        Some(r) => Some(r@),
        None => None,
    }
}

impl Clone for CloseReason {
    fn clone(&self) -> (copy: CloseReason)
        ensures
            copy@ == self@,
    {
        CloseReason { code: self.code, description: self.description.clone() }
    }
}

/// A second copy of an optional close reason.
pub fn duplicate_reason(reason: &Option<CloseReason>) -> (copy: Option<CloseReason>)
    ensures
        reason_view(copy) == reason_view(*reason),
{
    match reason {
        Some(r) => Some(r.clone()),
        None => None,
    }
}

/// A frame read from a client.
#[derive(Debug, Clone, PartialEq, Eq)]
pub enum Frame {
    Text(String),
    Binary(Vec<u8>),
    /// A fragment of a larger message. Fragments are not supported: the
    /// payload is not kept.
    Continuation,
    Ping(Vec<u8>),
    Pong(Vec<u8>),
    Close(Option<CloseReason>),
    Nop,
}

/// What contracts see of [`Frame`]: its content as mathematical values.
pub enum FrameView {
    Text(Seq<char>),
    Binary(Seq<u8>),
    Continuation,
    Ping(Seq<u8>),
    Pong(Seq<u8>),
    Close(Option<CloseReasonView>),
    Nop,
}

impl View for Frame {
    type V = FrameView;

    open spec fn view(&self) -> FrameView {
        match *self {
            Frame::Text(text) => FrameView::Text(text@),
            Frame::Binary(bytes) => FrameView::Binary(bytes@),
            Frame::Continuation => FrameView::Continuation,
            Frame::Ping(bytes) => FrameView::Ping(bytes@),
            Frame::Pong(bytes) => FrameView::Pong(bytes@),
            Frame::Close(reason) => FrameView::Close(reason_view(reason)),
            Frame::Nop => FrameView::Nop,
        }
    }
}

/// A frame the server sends to a client while the session is live.
#[derive(Debug, Clone, PartialEq, Eq)]
pub enum Outbound {
    Text(String),
    Binary(Vec<u8>),
    Pong(Vec<u8>),
}

/// What contracts see of [`Outbound`]: its content as mathematical values.
pub enum OutboundView {
    Text(Seq<char>),
    Binary(Seq<u8>),
    Pong(Seq<u8>),
}

impl View for Outbound {
    type V = OutboundView;

    open spec fn view(&self) -> OutboundView {
        match *self {
            Outbound::Text(text) => OutboundView::Text(text@),
            Outbound::Binary(bytes) => OutboundView::Binary(bytes@),
            Outbound::Pong(bytes) => OutboundView::Pong(bytes@),
        }
    }
}

/// What one connection's transport reports to its session.
#[derive(Debug, Clone, PartialEq, Eq)]
pub enum ClientEvent {
    /// A frame arrived.
    Frame(Frame),
    /// Reading from the transport failed.
    ReadError,
    /// The inbound stream ended.
    End,
    /// The transport refused a frame the session asked to send.
    SendFailed,
}

/// What contracts see of [`ClientEvent`]: its content as mathematical values.
pub enum ClientEventView {
    Frame(FrameView),
    ReadError,
    End,
    SendFailed,
}

impl View for ClientEvent {
    type V = ClientEventView;

    open spec fn view(&self) -> ClientEventView {
        match *self {
            ClientEvent::Frame(frame) => ClientEventView::Frame(frame@),
            ClientEvent::ReadError => ClientEventView::ReadError,
            ClientEvent::End => ClientEventView::End,
            ClientEvent::SendFailed => ClientEventView::SendFailed,
        }
    }
}

} // verus!
