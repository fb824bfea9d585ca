//! One peer's connection followed from the first contact to the end, and
//! the inputs that concern peers the supervisor has never seen.

use peer_supervisor::{
    Command, Direction, Event, Input, Internal, Message, NodeId, Output, Protocol,
};

fn peer_a() -> NodeId {
    NodeId::new(0xA)
}

fn peer_b() -> NodeId {
    NodeId::new(0xB)
}

fn peer_c() -> NodeId {
    NodeId::new(0xC)
}

fn ping() -> Message {
    Message { payload: b"ping".to_vec() }
}

/// A supervisor in which peer A was accepted.
fn with_a_accepted() -> Protocol {
    let mut protocol = Protocol::default();
    protocol.transition(Input::Accepted(peer_a()));
    protocol
}

/// A supervisor in which peer A was accepted and upgraded.
fn with_a_upgraded() -> Protocol {
    let mut protocol = with_a_accepted();
    protocol.transition(Input::Upgraded(peer_a()));
    protocol
}

#[test]
fn accepting_a_records_it_and_asks_for_the_upgrade() {
    let mut protocol = Protocol::default();
    let out = protocol.transition(Input::Accepted(peer_a()));

    assert_eq!(out.len(), 2);
    assert!(matches!(
        &out[0],
        Output::Event(Event::Connected(id, Direction::Incoming)) if *id == peer_a()
    ));
    assert!(matches!(&out[1], Output::Internal(Internal::Upgrade(id)) if *id == peer_a()));

    assert_eq!(protocol.direction_of(peer_a()), Some(Direction::Incoming));
    assert_eq!(protocol.connected_count(), 1);
    assert_eq!(protocol.upgraded_count(), 0);
    assert_eq!(protocol.stopped_count(), 0);
}

#[test]
fn upgrading_a_marks_it_upgraded() {
    let mut protocol = with_a_accepted();
    let out = protocol.transition(Input::Upgraded(peer_a()));

    assert_eq!(out.len(), 1);
    assert!(matches!(&out[0], Output::Event(Event::Upgraded(id)) if *id == peer_a()));

    assert!(protocol.is_upgraded(peer_a()));
    assert_eq!(protocol.upgraded_count(), 1);
    assert_eq!(protocol.direction_of(peer_a()), Some(Direction::Incoming));
    assert_eq!(protocol.stopped_count(), 0);
}

#[test]
fn message_for_upgraded_a_is_sent() {
    let mut protocol = with_a_upgraded();
    let out = protocol.transition(Input::Command(Command::Msg(peer_a(), ping())));

    assert_eq!(out.len(), 1);
    match &out[0] {
        Output::Internal(Internal::SendMessage(id, message)) => {
            assert_eq!(*id, peer_a());
            assert_eq!(*message, ping());
            assert_eq!(message.payload, vec![0x70, 0x69, 0x6e, 0x67]);
        }
        other => panic!("not a message to send: {:?}", other),
    }

    assert!(protocol.is_upgraded(peer_a()));
    assert_eq!(protocol.connected_count(), 1);
    assert_eq!(protocol.upgraded_count(), 1);
    assert_eq!(protocol.stopped_count(), 0);
}

#[test]
fn message_for_unknown_b_is_dropped() {
    let mut protocol = with_a_upgraded();
    let out = protocol.transition(Input::Command(Command::Msg(peer_b(), ping())));

    assert!(out.is_empty());

    assert_eq!(protocol.direction_of(peer_b()), None);
    assert!(!protocol.is_upgraded(peer_b()));
    assert!(!protocol.is_stopped(peer_b()));
    assert_eq!(protocol.connected_count(), 1);
    assert_eq!(protocol.upgraded_count(), 1);
    assert_eq!(protocol.stopped_count(), 0);
}

#[test]
fn stopping_a_without_error_reports_a_clean_disconnect() {
    let mut protocol = with_a_upgraded();
    let out = protocol.transition(Input::Stopped(peer_a(), None));

    assert_eq!(out.len(), 1);
    match &out[0] {
        Output::Event(Event::Disconnected(id, report)) => {
            assert_eq!(*id, peer_a());
            assert_eq!(report.to_string(), "successfully disconnected");
        }
        other => panic!("not a disconnection: {:?}", other),
    }

    assert!(!protocol.is_upgraded(peer_a()));
    assert_eq!(protocol.upgraded_count(), 0);
    assert!(protocol.is_stopped(peer_a()));
    assert_eq!(protocol.stopped_count(), 1);
    assert_eq!(protocol.direction_of(peer_a()), Some(Direction::Incoming));
    assert_eq!(protocol.connected_count(), 1);
}

#[test]
fn failed_upgrade_of_unknown_c_is_reported_and_changes_nothing() {
    let mut protocol = with_a_upgraded();
    let out = protocol.transition(Input::UpgradeFailed(
        peer_c(),
        eyre::Report::msg("handshake timed out"),
    ));

    assert_eq!(out.len(), 1);
    match &out[0] {
        Output::Event(Event::UpgradeFailed(id, report)) => {
            assert_eq!(*id, peer_c());
            assert_eq!(report.to_string(), "handshake timed out");
        }
        other => panic!("not a failed upgrade: {:?}", other),
    }

    assert_eq!(protocol.direction_of(peer_c()), None);
    assert_eq!(protocol.direction_of(peer_a()), Some(Direction::Incoming));
    assert_eq!(protocol.connected_count(), 1);
    assert_eq!(protocol.upgraded_count(), 1);
    assert_eq!(protocol.stopped_count(), 0);
    assert!(!protocol.is_stopped(peer_c()));
}

#[test]
fn whole_life_of_one_connection() {
    let mut protocol = Protocol::default();

    let out = protocol.transition(Input::Accepted(peer_a()));
    assert_eq!(out.len(), 2);
    let out = protocol.transition(Input::Upgraded(peer_a()));
    assert_eq!(out.len(), 1);
    let out = protocol.transition(Input::Command(Command::Msg(peer_a(), ping())));
    assert_eq!(out.len(), 1);
    let out = protocol.transition(Input::Command(Command::Msg(peer_b(), ping())));
    assert_eq!(out.len(), 0);
    let out = protocol.transition(Input::Stopped(peer_a(), None));
    assert_eq!(out.len(), 1);
    let out = protocol.transition(Input::UpgradeFailed(peer_c(), eyre::Report::msg("refused")));
    assert_eq!(out.len(), 1);

    // Once stopped, A is no longer upgraded, so a message for it is dropped.
    let out = protocol.transition(Input::Command(Command::Msg(peer_a(), ping())));
    assert!(out.is_empty());

    assert_eq!(protocol.direction_of(peer_a()), Some(Direction::Incoming));
    assert_eq!(protocol.connected_count(), 1);
    assert_eq!(protocol.upgraded_count(), 0);
    assert!(protocol.is_stopped(peer_a()));
    assert_eq!(protocol.stopped_count(), 1);
}
