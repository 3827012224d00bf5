//! A broadcast-mode connection: a session together with the subscription
//! that feeds it.
//!
//! The connection owns its subscription and gives it up in the very step in
//! which the session stops, whatever made it stop. So a connection that is
//! no longer live never keeps a place among the hub's subscribers.

use vstd::prelude::*;

use crate::ws::hub::Hub;
use crate::ws::hub::Subscription;
use crate::ws::session::live;
use crate::ws::session::step_spec;
use crate::ws::session::Action;
use crate::ws::session::Event;
use crate::ws::session::HubEvent;
use crate::ws::session::Session;
use crate::ws::session::SessionState;
use crate::ws::session::SessionStateView;

verus! {

/// One live or closing broadcast-mode connection.
pub struct Connection {
    session: Session,
    subscription: Option<Subscription>,
}

impl Connection {
    /// Where the connection's session stands.
    pub closed spec fn state(&self) -> SessionStateView {
        self.session@
    }

    /// Whether the connection holds a subscription.
    pub closed spec fn subscribed(&self) -> bool {
        self.subscription is Some
    }

    /// A connection holds its subscription exactly as long as its session
    /// is live. A connection is made in this order, and every method keeps
    /// it so.
    pub open spec fn wf(&self) -> bool {
        self.subscribed() == live(self.state())
    }

    /// Starts a connection on `hub`: it subscribes, and its session is
    /// connected. From now on the connection receives what is published.
    pub fn open(hub: &Hub) -> (connection: Connection)
        ensures
            connection.wf(),
            connection.state() == SessionStateView::Connected,
            connection.subscribed(),
    {
        Connection { session: Session::new(), subscription: Some(hub.subscribe()) }
    }

    /// Where the connection's session stands.
    pub fn session_state(&self) -> (state: &SessionState)
        ensures
            state@ == self.state(),
    {
        self.session.state()
    }

    /// Whether the connection still waits for hub and client events.
    pub fn is_live(&self) -> (b: bool)
        ensures
            b == live(self.state()),
    {
        self.session.is_live()
    }

    /// Whether the connection holds a subscription.
    pub fn is_subscribed(&self) -> (b: bool)
        ensures
            b == self.subscribed(),
    {
        self.subscription.is_some()
    }

    /// Takes one event and returns what the caller has to do, as the
    /// session's transition function says. A connection whose session stops
    /// at this event drops its subscription before it returns: behind a
    /// step, a connection that is not live holds none.
    pub fn step(&mut self, event: Event) -> (action: Action)
        ensures
            (final(self).state(), action@) == step_spec(old(self).state(), event@),
            !live(final(self).state()) ==> !final(self).subscribed(),
            live(final(self).state()) ==> final(self).subscribed() == old(self).subscribed(),
            old(self).wf() ==> final(self).wf(),
    {
        let action = self.session.step(event);
        if !self.session.is_live() {
            self.subscription = None;
        }
        action
    }

    /// What the hub has ready for this connection, if anything. A connection
    /// that has given up its subscription gets nothing. It does not wait.
    pub fn try_next(&mut self) -> (event: Option<HubEvent>)
        ensures
            final(self).state() == old(self).state(),
            final(self).subscribed() == old(self).subscribed(),
            !old(self).subscribed() ==> event is None,
            event matches Some(HubEvent::Lagged(skipped)) ==> skipped >= 1,
    {
        match &mut self.subscription {
            Some(subscription) => subscription.try_next(),
            None => None,
        }
    }

    /// The connection's subscription, for a caller that waits on it; `None`
    /// once the connection has given it up.
    pub fn subscription(&mut self) -> (subscription: Option<&mut Subscription>)
        ensures
            final(self).state() == old(self).state(),
            final(self).subscribed() == old(self).subscribed(),
            subscription is Some <==> old(self).subscribed(),
    {
        match &mut self.subscription {
            Some(subscription) => Some(subscription),
            None => None,
        }
    }
}

} // verus!
