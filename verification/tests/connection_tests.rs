use fileshare::ws::connection::Connection;
use fileshare::ws::frames::ClientEvent;
use fileshare::ws::frames::CloseReason;
use fileshare::ws::frames::Frame;
use fileshare::ws::frames::Outbound;
use fileshare::ws::hub::send_to_broadcast_ws;
use fileshare::ws::hub::Hub;
use fileshare::ws::hub::IngressReply;
use fileshare::ws::hub::PublishError;
use fileshare::ws::session::Action;
use fileshare::ws::session::Event;
use fileshare::ws::session::HubEvent;
use fileshare::ws::session::SessionState;

fn hub(capacity: usize) -> Hub {
    match Hub::new(capacity) {
        Some(hub) => hub,
        None => panic!("capacity {} was refused", capacity),
    }
}

#[test]
fn opened_connection_is_connected_and_subscribed() {
    let hub = hub(8);
    assert_eq!(hub.publish(b"nobody".to_vec()), Err(PublishError::NoSubscribers));
    let mut connection = Connection::open(&hub);
    assert_eq!(*connection.session_state(), SessionState::Connected);
    assert!(connection.is_live());
    assert!(connection.is_subscribed());
    assert!(connection.subscription().is_some());
    assert_eq!(hub.publish(b"somebody".to_vec()), Ok(1));
    assert_eq!(connection.try_next(), Some(HubEvent::Payload(b"somebody".to_vec())));
    assert_eq!(connection.try_next(), None);
}

#[test]
fn connection_steps_as_its_session_does() {
    let hub = hub(8);
    let mut connection = Connection::open(&hub);
    assert_eq!(
        connection.step(Event::Hub(HubEvent::Payload(b"hello".to_vec()))),
        Action::Send(Outbound::Text("hello".to_string()))
    );
    assert_eq!(
        connection.step(Event::Client(ClientEvent::Frame(Frame::Ping(vec![1, 2])))),
        Action::Send(Outbound::Pong(vec![1, 2]))
    );
    assert_eq!(connection.step(Event::Hub(HubEvent::Lagged(4))), Action::Skip);
    assert_eq!(*connection.session_state(), SessionState::Lagging);
    assert!(connection.is_subscribed());
    assert_eq!(
        connection.step(Event::Client(ClientEvent::Frame(Frame::Binary(vec![9])))),
        Action::Send(Outbound::Binary(vec![9]))
    );
    assert_eq!(*connection.session_state(), SessionState::Connected);
    assert!(connection.is_subscribed());
}

#[test]
fn lost_transport_releases_the_subscription_at_once() {
    for event in [ClientEvent::End, ClientEvent::ReadError, ClientEvent::SendFailed] {
        let hub = hub(8);
        let mut staying = Connection::open(&hub);
        let mut leaving = Connection::open(&hub);
        assert_eq!(hub.publish(b"1".to_vec()), Ok(2));

        assert_eq!(leaving.step(Event::Client(event)), Action::Close(None));
        assert!(!leaving.is_live());
        assert!(!leaving.is_subscribed());
        assert!(leaving.subscription().is_none());
        assert_eq!(leaving.try_next(), None);
        assert_eq!(hub.publish(b"2".to_vec()), Ok(1));

        assert_eq!(leaving.step(Event::CloseFinished), Action::Skip);
        assert_eq!(*leaving.session_state(), SessionState::Closed);
        assert_eq!(hub.publish(b"3".to_vec()), Ok(1));

        assert_eq!(staying.try_next(), Some(HubEvent::Payload(b"1".to_vec())));
        assert_eq!(staying.try_next(), Some(HubEvent::Payload(b"2".to_vec())));
        assert_eq!(staying.try_next(), Some(HubEvent::Payload(b"3".to_vec())));
        assert_eq!(staying.try_next(), None);
    }
}

#[test]
fn close_frame_releases_the_subscription() {
    let hub = hub(8);
    let mut connection = Connection::open(&hub);
    let reason = CloseReason { code: 1000, description: Some("bye".to_string()) };
    assert_eq!(
        connection.step(Event::Client(ClientEvent::Frame(Frame::Close(Some(reason.clone()))))),
        Action::Close(Some(reason.clone()))
    );
    assert_eq!(*connection.session_state(), SessionState::Closing(Some(reason)));
    assert!(!connection.is_subscribed());
    assert_eq!(hub.publish(b"late".to_vec()), Err(PublishError::NoSubscribers));
}

#[test]
fn hub_teardown_releases_the_subscription() {
    let hub = hub(8);
    let mut connection = Connection::open(&hub);
    drop(hub);
    let event = connection.try_next().expect("the teardown is reported");
    assert_eq!(event, HubEvent::Closed);
    assert_eq!(connection.step(Event::Hub(event)), Action::Close(None));
    assert!(!connection.is_subscribed());
    assert_eq!(connection.step(Event::CloseFinished), Action::Skip);
    assert_eq!(*connection.session_state(), SessionState::Closed);
}

#[test]
fn dropped_connection_gives_up_its_place() {
    let hub = hub(8);
    let first = Connection::open(&hub);
    let second = Connection::open(&hub);
    assert_eq!(hub.publish(b"x".to_vec()), Ok(2));
    drop(first);
    assert_eq!(hub.publish(b"y".to_vec()), Ok(1));
    drop(second);
    assert_eq!(hub.publish(b"z".to_vec()), Err(PublishError::NoSubscribers));
}

#[test]
fn two_clients_get_what_a_third_party_sends_in() {
    let hub = hub(128);
    let mut client_a = Connection::open(&hub);
    let mut client_b = Connection::open(&hub);

    assert_eq!(send_to_broadcast_ws(b"hello".to_vec(), &hub), IngressReply::NoContent);

    let for_b = client_b.try_next().expect("client B has a payload waiting");
    assert_eq!(client_b.step(Event::Hub(for_b)), Action::Send(Outbound::Text("hello".to_string())));
    assert_eq!(client_b.try_next(), None);

    let for_a = client_a.try_next().expect("client A has a payload waiting");
    assert_eq!(client_a.step(Event::Hub(for_a)), Action::Send(Outbound::Text("hello".to_string())));
    assert_eq!(client_a.try_next(), None);
}

#[test]
fn slow_connection_lags_and_goes_on() {
    let hub = hub(2);
    let mut connection = Connection::open(&hub);
    for n in 0u8..5 {
        assert_eq!(hub.publish(vec![b'a' + n]), Ok(1));
    }
    let mut actions = Vec::new();
    while let Some(event) = connection.try_next() {
        actions.push(connection.step(Event::Hub(event)));
    }
    assert_eq!(
        actions,
        vec![
            Action::Skip,
            Action::Send(Outbound::Text("d".to_string())),
            Action::Send(Outbound::Text("e".to_string())),
        ]
    );
    assert!(connection.is_live());
    assert!(connection.is_subscribed());
    assert_eq!(hub.publish(b"f".to_vec()), Ok(1));
}
