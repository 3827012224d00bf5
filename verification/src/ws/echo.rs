//! The echo handler: a connection that mirrors its own client.

use vstd::prelude::*;

use crate::ws::frames::ClientEvent;
use crate::ws::frames::ClientEventView;
use crate::ws::frames::Frame;
use crate::ws::frames::FrameView;
use crate::ws::frames::Outbound;
use crate::ws::frames::OutboundView;

verus! {

/// What the echo loop does with one event.
#[derive(Debug, Clone, PartialEq, Eq)]
pub enum EchoStep {
    /// Send this frame back and go on.
    Reply(Outbound),
    /// Send nothing and go on.
    Ignore,
    /// Leave the loop.
    Stop,
}

/// What contracts see of [`EchoStep`]: its content as mathematical values.
pub enum EchoStepView {
    Reply(OutboundView),
    Ignore,
    Stop,
}

impl View for EchoStep {
    type V = EchoStepView;

    open spec fn view(&self) -> EchoStepView {
        match *self {
            EchoStep::Reply(frame) => EchoStepView::Reply(frame@),
            EchoStep::Ignore => EchoStepView::Ignore,
            EchoStep::Stop => EchoStepView::Stop,
        }
    }
}

/// The echo handler's rule: text and binary frames go back as they came, a
/// ping is answered by a pong with the same bytes, every other frame is
/// ignored, and the loop ends when the stream ends, a read fails or a send is
/// refused.
pub open spec fn echo_spec(event: ClientEventView) -> EchoStepView {
    match event {
        ClientEventView::Frame(FrameView::Text(text)) => EchoStepView::Reply(
            OutboundView::Text(text),
        ),
        ClientEventView::Frame(FrameView::Binary(bytes)) => EchoStepView::Reply(
            OutboundView::Binary(bytes),
        ),
        ClientEventView::Frame(FrameView::Ping(bytes)) => EchoStepView::Reply(
            OutboundView::Pong(bytes),
        ),
        ClientEventView::Frame(_) => EchoStepView::Ignore,
        ClientEventView::ReadError => EchoStepView::Stop,
        ClientEventView::End => EchoStepView::Stop,
        ClientEventView::SendFailed => EchoStepView::Stop,
    }
}

/// Decides what the echo loop does with `event`.
pub fn echo_step(event: ClientEvent) -> (step: EchoStep)
    ensures
        step@ == echo_spec(event@),
{
    match event {
        ClientEvent::Frame(Frame::Text(text)) => EchoStep::Reply(Outbound::Text(text)),
        ClientEvent::Frame(Frame::Binary(bytes)) => EchoStep::Reply(Outbound::Binary(bytes)),
        ClientEvent::Frame(Frame::Ping(bytes)) => EchoStep::Reply(Outbound::Pong(bytes)),
        ClientEvent::Frame(_) => EchoStep::Ignore,
        ClientEvent::ReadError => EchoStep::Stop,
        ClientEvent::End => EchoStep::Stop,
        ClientEvent::SendFailed => EchoStep::Stop,
    }
}

} // verus!
