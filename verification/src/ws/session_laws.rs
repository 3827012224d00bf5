//! What holds of every broadcast session and of the echo handler, proved
//! from their transition rules.

use vstd::prelude::*;

use crate::ws::echo::echo_spec;
use crate::ws::echo::EchoStepView;
use crate::ws::frames::ClientEventView;
use crate::ws::frames::CloseReasonView;
use crate::ws::frames::FrameView;
use crate::ws::frames::OutboundView;
use crate::ws::payload::framed;
use crate::ws::session::live;
use crate::ws::session::run;
use crate::ws::session::step_spec;
use crate::ws::session::ActionView;
use crate::ws::session::EventView;
use crate::ws::session::HubEventView;
use crate::ws::session::SessionStateView;

verus! {

/// The hub events that deliver `payloads`, one after the other.
pub open spec fn deliveries(payloads: Seq<Seq<u8>>) -> Seq<EventView> {
    Seq::new(payloads.len(), |i: int| EventView::Hub(HubEventView::Payload(payloads[i])))
}

/// The actions that send `payloads` on, one frame each, in the same order.
pub open spec fn forwards(payloads: Seq<Seq<u8>>) -> Seq<ActionView> {
    Seq::new(payloads.len(), |i: int| ActionView::Send(framed(payloads[i])))
}

/// Every payload that a live session takes from its subscription is sent on
/// to the client exactly once, and the frames leave in the order in which the
/// payloads arrived. The session is still live afterwards.
pub proof fn lemma_payloads_forwarded_once_in_order(
    state: SessionStateView,
    payloads: Seq<Seq<u8>>,
)
    requires
        live(state),
    ensures
        run(state, deliveries(payloads)).1 == forwards(payloads),
        live(run(state, deliveries(payloads)).0),
    decreases payloads.len(),
{
    if payloads.len() > 0 {
        let earlier = payloads.drop_last();
        lemma_payloads_forwarded_once_in_order(state, earlier);
        assert(deliveries(payloads).drop_last() == deliveries(earlier));
        assert(forwards(payloads) == forwards(earlier).push(
            ActionView::Send(framed(payloads.last())),
        ));
    } else {
        assert(forwards(payloads) == Seq::<ActionView>::empty());
    }
}

/// A run answers its events one by one: it asks for as many actions as
/// there are events, and the action at each place is the one that the
/// session's state at that moment gives for the event at that place.
pub proof fn lemma_run_answers_each_event(state: SessionStateView, events: Seq<EventView>, i: int)
    requires
        0 <= i < events.len(),
    ensures
        run(state, events).1.len() == events.len(),
        run(state, events).1[i] == step_spec(run(state, events.take(i)).0, events[i]).1,
    decreases events.len(),
{
    let earlier = events.drop_last();
    lemma_run_has_one_action_for_each_event(state, earlier);
    if i == events.len() - 1 {
        assert(events.take(i) == earlier);
    } else {
        lemma_run_answers_each_event(state, earlier, i);
        assert(earlier.take(i) == events.take(i));
    }
}

/// A run asks for as many actions as it takes events.
pub proof fn lemma_run_has_one_action_for_each_event(
    state: SessionStateView,
    events: Seq<EventView>,
)
    ensures
        run(state, events).1.len() == events.len(),
    decreases events.len(),
{
    if events.len() > 0 {
        lemma_run_has_one_action_for_each_event(state, events.drop_last());
    }
}

/// Whatever else happens on the connection, a payload that reaches a live
/// session is sent on at the place where it arrived: once, as the frame
/// that carries it, and so in the order in which the hub delivered it.
pub proof fn lemma_payload_forwarded_where_it_arrives(
    state: SessionStateView,
    events: Seq<EventView>,
    i: int,
    payload: Seq<u8>,
)
    requires
        0 <= i < events.len(),
        events[i] == EventView::Hub(HubEventView::Payload(payload)),
        live(run(state, events.take(i)).0),
    ensures
        run(state, events).1.len() == events.len(),
        run(state, events).1[i] == ActionView::Send(framed(payload)),
{
    lemma_run_answers_each_event(state, events, i);
}

/// Falling behind does not end a session. The notice that payloads were
/// skipped asks for nothing and leaves the session live; from there it
/// reacts to every event as a session that never lagged would, so the next
/// payload is forwarded as usual.
pub proof fn lemma_lag_is_skipped_then_resumed(
    state: SessionStateView,
    skipped: u64,
    event: EventView,
    payload: Seq<u8>,
)
    requires
        live(state),
    ensures
        step_spec(state, EventView::Hub(HubEventView::Lagged(skipped))) == (
            SessionStateView::Lagging,
            ActionView::Skip,
        ),
        live(SessionStateView::Lagging),
        step_spec(SessionStateView::Lagging, event) == step_spec(
            SessionStateView::Connected,
            event,
        ),
        run(
            state,
            seq![
                EventView::Hub(HubEventView::Lagged(skipped)),
                EventView::Hub(HubEventView::Payload(payload)),
            ],
        ) == (
            SessionStateView::Connected,
            seq![ActionView::Skip, ActionView::Send(framed(payload))],
        ),
{
    let lag = EventView::Hub(HubEventView::Lagged(skipped));
    let delivery = EventView::Hub(HubEventView::Payload(payload));
    let both = seq![lag, delivery];
    assert(both.drop_last() == seq![lag]);
    assert(seq![lag].drop_last() == Seq::<EventView>::empty());
    assert(run(state, seq![lag]) == (SessionStateView::Lagging, seq![ActionView::Skip])) by {
        assert(run(state, Seq::<EventView>::empty()).1.push(ActionView::Skip) == seq![
            ActionView::Skip,
        ]);
    }
    assert(seq![ActionView::Skip].push(ActionView::Send(framed(payload))) == seq![
        ActionView::Skip,
        ActionView::Send(framed(payload)),
    ]);
}

/// The echo handler returns every text and binary frame with the payload it
/// came with, and so does a live broadcast session for its own client.
pub proof fn lemma_echo_returns_payload(state: SessionStateView, text: Seq<char>, bytes: Seq<u8>)
    requires
        live(state),
    ensures
        echo_spec(ClientEventView::Frame(FrameView::Text(text))) == EchoStepView::Reply(
            OutboundView::Text(text),
        ),
        echo_spec(ClientEventView::Frame(FrameView::Binary(bytes))) == EchoStepView::Reply(
            OutboundView::Binary(bytes),
        ),
        step_spec(state, EventView::Client(ClientEventView::Frame(FrameView::Text(text)))).1
            == ActionView::Send(OutboundView::Text(text)),
        step_spec(state, EventView::Client(ClientEventView::Frame(FrameView::Binary(bytes)))).1
            == ActionView::Send(OutboundView::Binary(bytes)),
{
}

/// A ping from the client is answered by one pong that carries the same
/// bytes, by the echo handler and by a live broadcast session alike.
pub proof fn lemma_ping_answered_by_pong(state: SessionStateView, bytes: Seq<u8>)
    requires
        live(state),
    ensures
        echo_spec(ClientEventView::Frame(FrameView::Ping(bytes))) == EchoStepView::Reply(
            OutboundView::Pong(bytes),
        ),
        step_spec(state, EventView::Client(ClientEventView::Frame(FrameView::Ping(bytes))))
            == (SessionStateView::Connected, ActionView::Send(OutboundView::Pong(bytes))),
{
}

/// The ways in which a client's transport reports that it is gone.
pub open spec fn transport_lost(event: ClientEventView) -> bool {
    event is End || event is ReadError || event is SendFailed
}

/// When the client's transport is gone, a live session stops at that very
/// event, asks for the close handshake with no reason, and is closed as soon
/// as the handshake has been carried out. The echo handler leaves its loop at
/// the same event.
pub proof fn lemma_transport_loss_ends_session(state: SessionStateView, event: ClientEventView)
    requires
        live(state),
        transport_lost(event),
    ensures
        step_spec(state, EventView::Client(event)) == (
            SessionStateView::Closing(None),
            ActionView::Close(None),
        ),
        step_spec(SessionStateView::Closing(None), EventView::CloseFinished) == (
            SessionStateView::Closed,
            ActionView::Skip,
        ),
        echo_spec(event) == EchoStepView::Stop,
{
}

/// A close frame from the client stops a live session with the reason the
/// client gave, and that reason is the one the close handshake is asked to
/// carry.
pub proof fn lemma_close_keeps_reason(state: SessionStateView, reason: Option<CloseReasonView>)
    requires
        live(state),
    ensures
        step_spec(state, EventView::Client(ClientEventView::Frame(FrameView::Close(reason))))
            == (SessionStateView::Closing(reason), ActionView::Close(reason)),
{
}

/// The place of a state in a session's life: live, closing, closed.
pub open spec fn stage(state: SessionStateView) -> nat {
    match state {
        SessionStateView::Connected => 0,
        SessionStateView::Lagging => 0,
        SessionStateView::Closing(_) => 1,
        SessionStateView::Closed => 2,
    }
}

/// A session goes through its stages in order and one at a time: from live
/// to closing to closed. It leaves the live stage exactly when it asks for
/// the close handshake, the handshake is asked to carry the reason with
/// which the session stopped, and the session is closed only by the end of
/// that handshake.
pub proof fn lemma_stages_in_order(state: SessionStateView, event: EventView)
    ensures
        stage(state) <= stage(step_spec(state, event).0) <= stage(state) + 1,
        live(state) ==> (step_spec(state, event).1 is Close <==> !live(step_spec(state, event).0)),
        live(state) ==> (step_spec(state, event).0 matches SessionStateView::Closing(reason)
            ==> step_spec(state, event).1 == ActionView::Close(reason)),
        stage(step_spec(state, event).0) == 2 && stage(state) == 1 ==> event is CloseFinished,
{
}

/// A session only moves forward: once it has stopped it never waits for hub
/// or client events again, and once closed it stays closed and asks for
/// nothing.
pub proof fn lemma_stopped_session_stays_stopped(state: SessionStateView, event: EventView)
    requires
        !live(state),
    ensures
        !live(step_spec(state, event).0),
        step_spec(state, event).1 == ActionView::Skip,
        state is Closed ==> step_spec(state, event).0 is Closed,
{
}

} // verus!
