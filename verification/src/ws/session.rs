//! The broadcast session: one connection that forwards what the hub
//! publishes and answers its own client.
//!
//! A session is driven from outside. The caller waits on the hub subscription
//! and on the client's stream, hands each event to [`Session::step`], carries
//! out the action it gets back, and reports a refused send or a finished
//! close handshake as further events.

use vstd::prelude::*;

use crate::ws::frames::duplicate_reason;
use crate::ws::frames::reason_view;
use crate::ws::frames::ClientEvent;
use crate::ws::frames::ClientEventView;
use crate::ws::frames::CloseReason;
use crate::ws::frames::CloseReasonView;
use crate::ws::frames::Frame;
use crate::ws::frames::FrameView;
use crate::ws::frames::Outbound;
use crate::ws::frames::OutboundView;
use crate::ws::payload::frame_payload;
use crate::ws::payload::framed;

verus! {

/// What a hub subscription yields.
#[derive(Debug, Clone, PartialEq, Eq)]
pub enum HubEvent {
    /// A published payload.
    Payload(Vec<u8>),
    /// The subscription fell behind and this many payloads were skipped.
    Lagged(u64),
    /// The hub is gone: nothing will be published any more.
    Closed,
}

/// What contracts see of [`HubEvent`]: its content as mathematical values.
pub enum HubEventView {
    Payload(Seq<u8>),
    Lagged(u64),
    Closed,
}

impl View for HubEvent {
    type V = HubEventView;

    open spec fn view(&self) -> HubEventView {
        match *self {
            HubEvent::Payload(bytes) => HubEventView::Payload(bytes@),
            HubEvent::Lagged(skipped) => HubEventView::Lagged(skipped),
            HubEvent::Closed => HubEventView::Closed,
        }
    }
}

/// Everything a broadcast session reacts to.
#[derive(Debug, Clone, PartialEq, Eq)]
pub enum Event {
    /// The hub subscription yielded something.
    Hub(HubEvent),
    /// The client's transport reported something.
    Client(ClientEvent),
    /// The close handshake asked for by [`Action::Close`] was carried out,
    /// whether or not the peer answered.
    CloseFinished,
}

/// What contracts see of [`Event`]: its content as mathematical values.
pub enum EventView {
    Hub(HubEventView),
    Client(ClientEventView),
    CloseFinished,
}

impl View for Event {
    type V = EventView;

    open spec fn view(&self) -> EventView {
        match *self {
            Event::Hub(event) => EventView::Hub(event@),
            Event::Client(event) => EventView::Client(event@),
            Event::CloseFinished => EventView::CloseFinished,
        }
    }
}

/// What the caller does after a step.
#[derive(Debug, Clone, PartialEq, Eq)]
pub enum Action {
    /// Send this frame to the client, and report `SendFailed` if it is refused.
    Send(Outbound),
    /// Nothing to do: wait for the next event.
    Skip,
    /// Stop waiting for events, close the connection with this reason, and
    /// report `CloseFinished`.
    Close(Option<CloseReason>),
}

/// What contracts see of [`Action`]: its content as mathematical values.
pub enum ActionView {
    Send(OutboundView),
    Skip,
    Close(Option<CloseReasonView>),
}

impl View for Action {
    type V = ActionView;

    open spec fn view(&self) -> ActionView {
        match *self {
            Action::Send(frame) => ActionView::Send(frame@),
            Action::Skip => ActionView::Skip,
            Action::Close(reason) => ActionView::Close(reason_view(reason)),
        }
    }
}

/// Where a session stands.
#[derive(Debug, Clone, PartialEq, Eq)]
pub enum SessionState {
    /// Live and in step with the hub.
    Connected,
    /// Live; the last thing the hub reported was that payloads were skipped.
    Lagging,
    /// The event cycle has stopped and the close handshake is under way.
    Closing(Option<CloseReason>),
    /// The connection is closed and its resources can be dropped.
    Closed,
}

/// What contracts see of [`SessionState`]: its content as mathematical values.
pub enum SessionStateView {
    Connected,
    Lagging,
    Closing(Option<CloseReasonView>),
    Closed,
}

impl View for SessionState {
    type V = SessionStateView;

    open spec fn view(&self) -> SessionStateView {
        match *self {
            SessionState::Connected => SessionStateView::Connected,
            SessionState::Lagging => SessionStateView::Lagging,
            SessionState::Closing(reason) => SessionStateView::Closing(reason_view(reason)),
            SessionState::Closed => SessionStateView::Closed,
        }
    }
}

/// A session is live while it still waits for hub and client events.
pub open spec fn live(state: SessionStateView) -> bool {
    state is Connected || state is Lagging
}

/// The reaction of a live session to a client event.
pub open spec fn client_step(event: ClientEventView) -> (SessionStateView, ActionView) {
    match event {
        ClientEventView::Frame(FrameView::Text(text)) => (
            SessionStateView::Connected,
            ActionView::Send(OutboundView::Text(text)),
        ),
        ClientEventView::Frame(FrameView::Binary(bytes)) => (
            SessionStateView::Connected,
            ActionView::Send(OutboundView::Binary(bytes)),
        ),
        ClientEventView::Frame(FrameView::Ping(bytes)) => (
            SessionStateView::Connected,
            ActionView::Send(OutboundView::Pong(bytes)),
        ),
        ClientEventView::Frame(FrameView::Close(reason)) => (
            SessionStateView::Closing(reason),
            ActionView::Close(reason),
        ),
        ClientEventView::Frame(FrameView::Pong(_)) => (SessionStateView::Connected, ActionView::Skip),
        ClientEventView::Frame(FrameView::Continuation) => (
            SessionStateView::Connected,
            ActionView::Skip,
        ),
        ClientEventView::Frame(FrameView::Nop) => (SessionStateView::Connected, ActionView::Skip),
        ClientEventView::ReadError => (SessionStateView::Closing(None), ActionView::Close(None)),
        ClientEventView::End => (SessionStateView::Closing(None), ActionView::Close(None)),
        ClientEventView::SendFailed => (SessionStateView::Closing(None), ActionView::Close(None)),
    }
}

/// The reaction of a live session to a hub event.
pub open spec fn hub_step(event: HubEventView) -> (SessionStateView, ActionView) {
    match event {
        HubEventView::Payload(bytes) => (
            SessionStateView::Connected,
            ActionView::Send(framed(bytes)),
        ),
        HubEventView::Lagged(_) => (SessionStateView::Lagging, ActionView::Skip),
        HubEventView::Closed => (SessionStateView::Closing(None), ActionView::Close(None)),
    }
}

/// The session's transition function: the state after `event` and the action
/// it asks for.
///
/// A live session forwards hub payloads, echoes its client's text and binary
/// frames, answers a ping with a pong, and skips what it does not handle. It
/// stops, with the client's reason, on a close frame, and with no reason when
/// the hub is gone, the stream ends, a read fails or a send is refused. Once
/// it has stopped it takes no further event but the end of the close
/// handshake. (A live session has no handshake to finish: it skips that
/// event.)
pub open spec fn step_spec(state: SessionStateView, event: EventView) -> (
    SessionStateView,
    ActionView,
) {
    match state {
        SessionStateView::Connected | SessionStateView::Lagging => match event {
            EventView::Hub(hub_event) => hub_step(hub_event),
            EventView::Client(client_event) => client_step(client_event),
            EventView::CloseFinished => (SessionStateView::Connected, ActionView::Skip),
        },
        SessionStateView::Closing(_) => match event {
            EventView::CloseFinished => (SessionStateView::Closed, ActionView::Skip),
            _ => (state, ActionView::Skip),
        },
        SessionStateView::Closed => (SessionStateView::Closed, ActionView::Skip),
    }
}

/// The state a session reaches from `state` over `events`, with the actions
/// it asks for on the way, one for each event.
pub open spec fn run(state: SessionStateView, events: Seq<EventView>) -> (
    SessionStateView,
    Seq<ActionView>,
)
    decreases events.len(),
{
    if events.len() == 0 {
        (state, Seq::empty())
    } else {
        let before = run(state, events.drop_last());
        let last = step_spec(before.0, events.last());
        (last.0, before.1.push(last.1))
    }
}

/// The views of a row of events.
pub open spec fn event_views(events: Seq<Event>) -> Seq<EventView> {
    Seq::new(events.len(), |i: int| events[i]@)
}

/// The views of a row of actions.
pub open spec fn action_views(actions: Seq<Action>) -> Seq<ActionView> {
    Seq::new(actions.len(), |i: int| actions[i]@)
}

/// The session of one broadcast-mode connection: where it stands, and the
/// rule by which it goes on.
#[derive(Debug, Clone, PartialEq, Eq)]
pub struct Session {
    state: SessionState,
}

impl View for Session {
    type V = SessionStateView;

    closed spec fn view(&self) -> SessionStateView {
        self.state@
    }
}

/// What a live session does with a client event.
fn react_to_client(event: ClientEvent) -> (r: (SessionState, Action))
    ensures
        (r.0@, r.1@) == client_step(event@),
{
    match event {
        ClientEvent::Frame(Frame::Text(text)) => (
            SessionState::Connected,
            Action::Send(Outbound::Text(text)),
        ),
        ClientEvent::Frame(Frame::Binary(bytes)) => (
            SessionState::Connected,
            Action::Send(Outbound::Binary(bytes)),
        ),
        ClientEvent::Frame(Frame::Ping(bytes)) => (
            SessionState::Connected,
            Action::Send(Outbound::Pong(bytes)),
        ),
        ClientEvent::Frame(Frame::Close(reason)) => {
            let kept = duplicate_reason(&reason);
            (SessionState::Closing(kept), Action::Close(reason))
        },
        ClientEvent::Frame(Frame::Pong(_)) => (SessionState::Connected, Action::Skip),
        ClientEvent::Frame(Frame::Continuation) => (SessionState::Connected, Action::Skip),
        ClientEvent::Frame(Frame::Nop) => (SessionState::Connected, Action::Skip),
        ClientEvent::ReadError => (SessionState::Closing(None), Action::Close(None)),
        ClientEvent::End => (SessionState::Closing(None), Action::Close(None)),
        ClientEvent::SendFailed => (SessionState::Closing(None), Action::Close(None)),
    }
}

/// What a live session does with a hub event.
fn react_to_hub(event: HubEvent) -> (r: (SessionState, Action))
    ensures
        (r.0@, r.1@) == hub_step(event@),
{
    match event {
        HubEvent::Payload(bytes) => (SessionState::Connected, Action::Send(frame_payload(bytes))),
        HubEvent::Lagged(_) => (SessionState::Lagging, Action::Skip),
        HubEvent::Closed => (SessionState::Closing(None), Action::Close(None)),
    }
}

impl Session {
    /// A session that has just been connected.
    pub fn new() -> (session: Session)
        ensures
            session@ == SessionStateView::Connected,
    {
        Session { state: SessionState::Connected }
    }

    /// Where the session stands.
    pub fn state(&self) -> (state: &SessionState)
        ensures
            state@ == self@,
    {
        &self.state
    }

    /// Whether the session still waits for hub and client events.
    pub fn is_live(&self) -> (b: bool)
        ensures
            b == live(self@),
    {
        match self.state {
            SessionState::Connected => true,
            SessionState::Lagging => true,
            _ => false,
        }
    }

    /// Whether the connection is closed.
    pub fn is_closed(&self) -> (b: bool)
        ensures
            b == (self@ is Closed),
    {
        match self.state {
            SessionState::Closed => true,
            _ => false,
        }
    }

    /// Takes a row of events, oldest first, and returns the action each of
    /// them asks for.
    pub fn replay(&mut self, events: Vec<Event>) -> (actions: Vec<Action>)
        ensures
            (final(self)@, action_views(actions@)) == run(old(self)@, event_views(events@)),
    {
        let ghost start = self@;
        let ghost all = events@;
        let mut actions: Vec<Action> = Vec::new();
        for event in it: events.into_iter()
            invariant
                it.seq() == all,
                (self@, action_views(actions@)) == run(
                    start,
                    event_views(all.take(it.index() as int)),
                ),
        {
            let ghost done = it.index() as int;
            let ghost seen = actions@;
            let action = self.step(event);
            actions.push(action);
            proof {
                let now = event_views(all.take(done + 1));
                assert(now.drop_last() == event_views(all.take(done)));
                assert(now.last() == all[done]@);
                assert(action_views(actions@) == action_views(seen).push(action@));
            }
        }
        proof {
            assert(all.take(all.len() as int) == all);
        }
        actions
    }

    /// Takes one event and returns what the caller has to do.
    pub fn step(&mut self, event: Event) -> (action: Action)
        ensures
            (final(self)@, action@) == step_spec(old(self)@, event@),
    {
        if self.is_live() {
            match event {
                Event::Hub(hub_event) => {
                    let (next, action) = react_to_hub(hub_event);
                    self.state = next;
                    action
                },
                Event::Client(client_event) => {
                    let (next, action) = react_to_client(client_event);
                    self.state = next;
                    action
                },
                Event::CloseFinished => {
                    self.state = SessionState::Connected;
                    Action::Skip
                },
            }
        } else {
            let closing = match self.state {
                SessionState::Closing(_) => true,
                _ => false,
            };
            match event {
                Event::CloseFinished => {
                    if closing {
                        self.state = SessionState::Closed;
                    }
                    Action::Skip
                },
                _ => Action::Skip,
            }
        }
    }
}

} // verus!
