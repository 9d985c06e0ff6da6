use skate::lifecycle::{settle, Action, Connection, Event, Frame};
use skate::registry::Registry;
use tokio::sync::mpsc::error::TryRecvError;

fn open(id: u16) -> Connection {
    Connection::Open { id, channel_open: true, transport_open: true }
}

#[test]
fn a_connection_starts_connecting() {
    assert_eq!(Connection::connecting(), Connection::Connecting);
    assert!(!Connection::connecting().is_closed());
}

#[test]
fn the_handshake_registers_and_opens() {
    let mut registry = Registry::new();
    let (_other, _rx) = registry.register();
    let (connection, receiver) = Connection::connecting().establish(&mut registry);
    assert_eq!(connection, open(1));
    assert!(registry.is_registered(1));
    assert_eq!(registry.len(), 2);
    let mut receiver = receiver.unwrap();
    assert_eq!(receiver.max_capacity(), 1);
    registry.dispatch(3);
    assert_eq!(receiver.try_recv(), Ok("3".to_string()));
}

#[test]
fn only_a_connecting_connection_is_established() {
    let mut registry = Registry::new();
    let (connection, receiver) = open(9).establish(&mut registry);
    assert_eq!(connection, open(9));
    assert!(receiver.is_none());
    let (connection, receiver) = Connection::Closed.establish(&mut registry);
    assert_eq!(connection, Connection::Closed);
    assert!(receiver.is_none());
    assert_eq!(registry.len(), 0);
    assert_eq!(registry.register().0, 0);
}

#[test]
fn a_failed_handshake_closes_without_deregistering() {
    let start = Connection::Connecting;
    assert_eq!(start.step(Event::TransportError), (Connection::Closed, Action::Idle));
    assert_eq!(start.step(Event::TransportClosed), (Connection::Closed, Action::Idle));
    assert_eq!(start.step(Event::Inbound(Frame::Close)), (Connection::Closed, Action::Idle));
}

#[test]
fn before_the_handshake_other_events_are_ignored() {
    let start = Connection::Connecting;
    assert_eq!(start.step(Event::Notification("1".to_string())), (start, Action::Idle));
    assert_eq!(start.step(Event::ChannelClosed), (start, Action::Idle));
    assert_eq!(start.step(Event::Inbound(Frame::Text("1".to_string()))), (start, Action::Idle));
    assert_eq!(start.step(Event::Inbound(Frame::Ping(vec![1]))), (start, Action::Idle));
}

#[test]
fn a_notification_is_relayed_as_it_is() {
    let (next, action) = open(4).step(Event::Notification("12".to_string()));
    assert_eq!(next, open(4));
    assert_eq!(action, Action::SendText("12".to_string()));
    let (_, action) = open(4).step(Event::Notification("not a number".to_string()));
    assert_eq!(action, Action::SendText("not a number".to_string()));
}

#[test]
fn a_ping_is_answered_with_its_own_payload() {
    let (next, action) = open(4).step(Event::Inbound(Frame::Ping(vec![1, 2, 3])));
    assert_eq!(next, open(4));
    assert_eq!(action, Action::SendPong(vec![1, 2, 3]));
    let (_, action) = open(4).step(Event::Inbound(Frame::Ping(Vec::new())));
    assert_eq!(action, Action::SendPong(Vec::new()));
}

#[test]
fn a_close_frame_closes_and_deregisters() {
    assert_eq!(
        open(4).step(Event::Inbound(Frame::Close)),
        (Connection::Closed, Action::Deregister(4))
    );
}

#[test]
fn a_transport_error_closes_and_deregisters() {
    assert_eq!(open(7).step(Event::TransportError), (Connection::Closed, Action::Deregister(7)));
}

#[test]
fn other_frames_are_ignored() {
    for frame in [
        Frame::Text("5".to_string()),
        Frame::Binary(vec![5]),
        Frame::Pong(vec![1, 2, 3]),
    ] {
        assert_eq!(open(4).step(Event::Inbound(frame)), (open(4), Action::Idle));
    }
}

#[test]
fn one_dry_source_leaves_the_connection_open() {
    assert_eq!(
        open(4).step(Event::ChannelClosed),
        (Connection::Open { id: 4, channel_open: false, transport_open: true }, Action::Idle)
    );
    assert_eq!(
        open(4).step(Event::TransportClosed),
        (Connection::Open { id: 4, channel_open: true, transport_open: false }, Action::Idle)
    );
}

#[test]
fn two_dry_sources_close_the_connection() {
    let (half, _) = open(4).step(Event::ChannelClosed);
    assert_eq!(half.step(Event::TransportClosed), (Connection::Closed, Action::Deregister(4)));
    let (half, _) = open(4).step(Event::TransportClosed);
    assert_eq!(half.step(Event::ChannelClosed), (Connection::Closed, Action::Deregister(4)));
}

#[test]
fn a_half_dry_connection_still_serves_the_other_source() {
    let (half, _) = open(4).step(Event::ChannelClosed);
    assert_eq!(
        half.step(Event::Inbound(Frame::Ping(vec![9]))),
        (half, Action::SendPong(vec![9]))
    );
    assert_eq!(half.step(Event::Inbound(Frame::Close)), (Connection::Closed, Action::Deregister(4)));
    let (half, _) = open(4).step(Event::TransportClosed);
    assert_eq!(
        half.step(Event::Notification("2".to_string())),
        (half, Action::SendText("2".to_string()))
    );
}

#[test]
fn a_transport_error_is_taken_as_a_close_frame_is() {
    let half = Connection::Open { id: 2, channel_open: false, transport_open: true };
    for state in [Connection::Connecting, open(2), half, Connection::Closed] {
        assert_eq!(state.step(Event::TransportError), state.step(Event::Inbound(Frame::Close)));
    }
}

#[test]
fn nothing_leads_out_of_closed() {
    let events = [
        Event::Notification("1".to_string()),
        Event::ChannelClosed,
        Event::Inbound(Frame::Close),
        Event::Inbound(Frame::Ping(vec![1])),
        Event::TransportClosed,
        Event::TransportError,
    ];
    for event in events {
        assert_eq!(Connection::Closed.step(event), (Connection::Closed, Action::Idle));
    }
    assert!(Connection::Closed.is_closed());
    assert!(!open(1).is_closed());
}

#[test]
fn a_connection_is_deregistered_exactly_once() {
    let events = vec![
        Event::Inbound(Frame::Ping(vec![1])),
        Event::Notification("1".to_string()),
        Event::TransportError,
        Event::Inbound(Frame::Close),
        Event::TransportError,
        Event::ChannelClosed,
    ];
    let mut connection = open(3);
    let mut deregistered = Vec::new();
    for event in events {
        let (next, action) = connection.step(event);
        connection = next;
        if let Action::Deregister(id) = action {
            deregistered.push(id);
        }
    }
    assert_eq!(connection, Connection::Closed);
    assert_eq!(deregistered, vec![3]);
}

#[test]
fn settling_a_deregistration_removes_the_entry() {
    let mut registry = Registry::new();
    let (a, mut rx_a) = registry.register();
    let (b, _rx_b) = registry.register();
    settle(&mut registry, &Action::Deregister(a));
    assert!(!registry.is_registered(a));
    assert!(registry.is_registered(b));
    settle(&mut registry, &Action::Deregister(a));
    assert_eq!(registry.len(), 1);
    assert_eq!(rx_a.try_recv(), Err(TryRecvError::Disconnected));
}

#[test]
fn settling_any_other_action_leaves_the_registry_alone() {
    let mut registry = Registry::new();
    let (_a, _rx_a) = registry.register();
    settle(&mut registry, &Action::Idle);
    settle(&mut registry, &Action::SendText("0".to_string()));
    settle(&mut registry, &Action::SendPong(vec![0]));
    assert_eq!(registry.len(), 1);
    assert!(registry.is_registered(0));
}

#[test]
fn a_whole_connection_from_handshake_to_close() {
    let mut registry = Registry::new();
    let (mut connection, receiver) = Connection::connecting().establish(&mut registry);
    let mut receiver = receiver.unwrap();
    registry.dispatch(6);
    let text = receiver.try_recv().unwrap();
    let (next, action) = connection.step(Event::Notification(text));
    connection = next;
    assert_eq!(action, Action::SendText("6".to_string()));
    let (next, action) = connection.step(Event::Inbound(Frame::Close));
    connection = next;
    settle(&mut registry, &action);
    assert!(connection.is_closed());
    assert_eq!(registry.len(), 0);
    assert!(registry.dispatch(7).is_empty());
}
