//! The broadcast hub: one process-wide fan-out channel of byte payloads.
//!
//! The channel itself is `tokio::sync::broadcast`. It is shared between
//! tasks, so what a call returns depends on what other tasks did in the
//! meantime: the contracts here state only what holds of every outcome.
//!
//! Publishing while no subscription is live is an error, not a silent
//! success: the payload could never be received, and the caller is told so.

use vstd::prelude::*;

use actix_web::web::Bytes;
use tokio::sync::broadcast::Receiver;
use tokio::sync::broadcast::Sender;

use crate::ws::session::HubEvent;

verus! {

/// `actix_web::web::Bytes`, the payload type of the channel. Nothing is
/// claimed of it.
#[verifier::external_type_specification]
#[verifier::external_body]
pub struct ExBytes(Bytes);

/// `tokio::sync::broadcast::Sender`. Nothing is claimed of it.
#[verifier::external_type_specification]
#[verifier::external_body]
#[verifier::reject_recursive_types(T)]
pub struct ExSender<T>(Sender<T>);

/// `tokio::sync::broadcast::Receiver`. Nothing is claimed of it.
#[verifier::external_type_specification]
#[verifier::external_body]
#[verifier::reject_recursive_types(T)]
pub struct ExReceiver<T>(Receiver<T>);

/// Why a payload could not be published.
#[derive(Clone, Copy, Debug, PartialEq, Eq, Structural)]
pub enum PublishError {
    /// No subscription was live when the payload was offered.
    NoSubscribers,
}

/// The publishing side of the channel. It lives as long as the process and
/// is shared by reference between all request handlers.
pub struct Hub {
    tx: Sender<Bytes>,
    capacity: usize,
}

/// One connection's receiving handle, with the backlog capacity that is
/// fixed for it when it is opened. Dropping it ends the subscription.
pub struct Subscription {
    rx: Receiver<Bytes>,
    capacity: usize,
}

/// The capacities a hub can be made with.
pub open spec fn capacity_accepted(capacity: usize) -> bool {
    0 < capacity <= usize::MAX / 2
}

/// Makes a channel through `tokio::sync::broadcast::channel` and keeps its
/// sending half; the receiver that comes with it is dropped at once, so the
/// channel starts with no subscription. The outside function panics on the
/// capacities that `requires` leaves out. It allocates the whole buffer at
/// once: a buffer that the machine has no memory for ends the process, as
/// any other allocation would.
#[verifier::external_body]
fn channel_sender(capacity: usize) -> (tx: Sender<Bytes>)
    requires
        capacity_accepted(capacity),
{
    tokio::sync::broadcast::channel(capacity).0
}

/// Offers `payload` to every live receiver of `tx` through
/// `tokio::sync::broadcast::Sender::send`. The call fails when the channel
/// counts no receiver at that moment, and otherwise returns the count it
/// saw, which is then at least one.
#[verifier::external_body]
fn sender_send(tx: &Sender<Bytes>, payload: Vec<u8>) -> (r: Result<usize, PublishError>)
    ensures
        r matches Ok(n) ==> n >= 1,
{
    match tx.send(Bytes::from(payload)) {
        Ok(n) => Ok(n),
        Err(_) => Err(PublishError::NoSubscribers),
    }
}

/// Adds a receiver through `tokio::sync::broadcast::Sender::subscribe`. It
/// will see what is sent after this call. (The outside function panics once
/// a quarter of `usize::MAX` receivers are live.)
#[verifier::external_body]
fn sender_subscribe(tx: &Sender<Bytes>) -> (rx: Receiver<Bytes>) {
    tx.subscribe()
}

/// Takes what is ready on `rx` through
/// `tokio::sync::broadcast::Receiver::try_recv`, without waiting: a payload,
/// the notice that payloads were skipped, the notice that every sender is
/// gone, or `None` where nothing is ready yet. A notice of skipped payloads
/// counts at least one.
#[verifier::external_body]
fn receiver_try_recv(rx: &mut Receiver<Bytes>) -> (r: Option<HubEvent>)
    ensures
        r matches Some(HubEvent::Lagged(skipped)) ==> skipped >= 1,
{
    match rx.try_recv() {
        Ok(bytes) => Some(HubEvent::Payload(bytes.to_vec())),
        Err(tokio::sync::broadcast::error::TryRecvError::Empty) => None,
        Err(tokio::sync::broadcast::error::TryRecvError::Closed) => Some(HubEvent::Closed),
        Err(tokio::sync::broadcast::error::TryRecvError::Lagged(skipped)) => Some(
            HubEvent::Lagged(skipped),
        ),
    }
}

impl Hub {
    /// A hub whose channel retains `capacity` payloads for slow
    /// subscriptions (or somewhat more: the channel rounds the number up to a
    /// power of two), or `None` where no channel can be made with that
    /// capacity. The hub starts with no subscription.
    pub fn new(capacity: usize) -> (hub: Option<Hub>)
        ensures
            hub is Some <==> capacity_accepted(capacity),
            hub matches Some(h) ==> h.spec_capacity() == capacity,
    {
        if capacity == 0 || capacity > usize::MAX / 2 {
            None
        } else {
            Some(Hub { tx: channel_sender(capacity), capacity })
        }
    }

    /// The capacity the hub was made with.
    pub closed spec fn spec_capacity(&self) -> usize {
        self.capacity
    }

    /// The capacity the hub was made with.
    #[verifier::when_used_as_spec(spec_capacity)]
    pub fn capacity(&self) -> (capacity: usize)
        ensures
            capacity == self.spec_capacity(),
    {
        self.capacity
    }

    /// Publishes `payload` to every live subscription and returns how many
    /// there were, or `NoSubscribers` where there was none.
    pub fn publish(&self, payload: Vec<u8>) -> (r: Result<usize, PublishError>)
        ensures
            r matches Ok(n) ==> n >= 1,
    {
        sender_send(&self.tx, payload)
    }

    /// Opens a subscription. It receives what is published from now on, and
    /// its backlog capacity is the capacity the hub was made with.
    pub fn subscribe(&self) -> (subscription: Subscription)
        ensures
            subscription.spec_capacity() == self.spec_capacity(),
    {
        Subscription { rx: sender_subscribe(&self.tx), capacity: self.capacity }
    }
}

impl Subscription {
    /// The backlog capacity of the subscription.
    pub closed spec fn spec_capacity(&self) -> usize {
        self.capacity
    }

    /// The channel's receiver that the subscription holds.
    pub closed spec fn spec_receiver(&self) -> Receiver<Bytes> {
        self.rx
    }

    /// The backlog capacity of the subscription: how many payloads the hub
    /// retains for it while it does not take them.
    #[verifier::when_used_as_spec(spec_capacity)]
    pub fn capacity(&self) -> (capacity: usize)
        ensures
            capacity == self.spec_capacity(),
    {
        self.capacity
    }

    /// What the hub has ready for this subscription, if anything: the next
    /// payload, or a notice that payloads were skipped or that the hub is
    /// gone. It does not wait. Which of these comes is for the channel to
    /// say; the subscription keeps its capacity whatever comes.
    pub fn try_next(&mut self) -> (event: Option<HubEvent>)
        ensures
            event matches Some(HubEvent::Lagged(skipped)) ==> skipped >= 1,
            final(self).spec_capacity() == old(self).spec_capacity(),
    {
        receiver_try_recv(&mut self.rx)
    }

    /// The channel's own receiver, for a caller that waits on it. What is
    /// lent is the receiver that the subscription holds, and the
    /// subscription holds afterwards what the caller leaves in it; its
    /// capacity stays.
    pub fn receiver(&mut self) -> (receiver: &mut Receiver<Bytes>)
        ensures
            *receiver == old(self).spec_receiver(),
            final(self).spec_receiver() == *final(receiver),
            final(self).spec_capacity() == old(self).spec_capacity(),
    {
        &mut self.rx
    }
}

/// What the ingress endpoint answers.
#[derive(Clone, Copy, Debug, PartialEq, Eq, Structural)]
pub enum IngressReply {
    /// The payload was published: an empty success response.
    NoContent,
    /// The payload could not be published: a server error.
    InternalError,
}

impl IngressReply {
    /// The HTTP status of the reply.
    pub open spec fn spec_status(&self) -> u16 {
        match *self {
            IngressReply::NoContent => 204,
            IngressReply::InternalError => 500,
        }
    }

    /// The HTTP status of the reply.
    #[verifier::when_used_as_spec(spec_status)]
    pub fn status(&self) -> (code: u16)
        ensures
            code == self.spec_status(),
    {
        match self {
            IngressReply::NoContent => 204,
            IngressReply::InternalError => 500,
        }
    }
}

/// The reply owed for a publish outcome.
pub open spec fn reply_for(outcome: Result<usize, PublishError>) -> IngressReply {
    match outcome {
        Ok(_) => IngressReply::NoContent,
        Err(_) => IngressReply::InternalError,
    }
}

/// Turns a publish outcome into the ingress reply: success with no content
/// where the payload went out, a server error where it did not.
pub fn ingress_reply(outcome: Result<usize, PublishError>) -> (reply: IngressReply)
    ensures
        reply == reply_for(outcome),
{
    match outcome {
        Ok(_) => IngressReply::NoContent,
        Err(_) => IngressReply::InternalError,
    }
}

/// The ingress endpoint: publishes `body` to the hub and reports the outcome.
/// Which reply comes back depends on whether a subscription is live at that
/// moment, which no contract over `hub` can say; [`ingress_reply`] says
/// which reply belongs to which outcome.
pub fn send_to_broadcast_ws(body: Vec<u8>, hub: &Hub) -> (reply: IngressReply) {
    ingress_reply(hub.publish(body))
}

} // verus!
