use zico_limbo::protocol::{ConnectionState, ProtocolVersion};
use zico_limbo::queue::PushAction;
use zico_limbo::server::network::{
    after_packet, compression_after_reply, keep_alive_due, kick_packet, packet_outcome,
    push_delivery, AfterPacket, DisconnectPacket, PacketHandlerError, PacketProcessingError,
    PacketRegistryDecodeError, PacketStreamError, PushDelivery, StreamIoErrorKind,
};
use zico_limbo::server::session::{ClientSession, SessionAction, SessionEvent};

#[test]
fn a_player_joins_the_queue_once_in_play() {
    let mut session = ClientSession::new(true);
    assert_eq!(session.step(SessionEvent::Read(Ok(()))), vec![]);
    assert!(!session.note_client_state(ConnectionState::Login));
    assert!(session.note_client_state(ConnectionState::Play));
    assert!(!session.note_client_state(ConnectionState::Play));
    assert_eq!(
        session.step(SessionEvent::Read(Ok(()))),
        vec![SessionAction::Enqueue, SessionAction::StartDisplay]
    );
    assert_eq!(session.step(SessionEvent::Read(Ok(()))), vec![]);
    assert_eq!(
        session.step(SessionEvent::Read(Err(PacketProcessingError::Custom("bad".to_string())))),
        vec![]
    );
    assert_eq!(session.step(SessionEvent::PushDropped), vec![SessionAction::ForgetPush]);
    assert_eq!(session.step(SessionEvent::Read(Ok(()))), vec![]);
    assert!(!session.is_finished());
}

#[test]
fn a_pushed_player_is_sent_on() {
    let mut session = ClientSession::new(true);
    session.note_client_state(ConnectionState::Play);
    session.step(SessionEvent::Read(Ok(())));
    assert_eq!(
        session.step(SessionEvent::Pushed),
        vec![
            SessionAction::StopDisplay,
            SessionAction::RemoveBossBar,
            SessionAction::Dequeue,
            SessionAction::Deliver,
            SessionAction::Dequeue,
            SessionAction::Shutdown,
            SessionAction::LeaveGame,
        ]
    );
    assert!(session.is_finished());
}

#[test]
fn a_disconnect_in_the_queue_cleans_up() {
    let mut session = ClientSession::new(true);
    session.note_client_state(ConnectionState::Play);
    session.step(SessionEvent::Read(Ok(())));
    assert_eq!(
        session.step(SessionEvent::Read(Err(PacketProcessingError::Disconnected))),
        vec![
            SessionAction::StopDisplay,
            SessionAction::Dequeue,
            SessionAction::Shutdown,
            SessionAction::LeaveGame,
        ]
    );
    assert!(session.is_finished());
}

#[test]
fn a_disconnect_before_play() {
    let mut session = ClientSession::new(true);
    assert_eq!(
        session.step(SessionEvent::Read(Err(PacketProcessingError::Disconnected))),
        vec![SessionAction::Dequeue, SessionAction::Shutdown]
    );
    assert!(!session.was_in_play_state());
}

#[test]
fn no_queue_means_no_queue_actions() {
    let mut session = ClientSession::new(false);
    session.note_client_state(ConnectionState::Play);
    assert_eq!(session.step(SessionEvent::Read(Ok(()))), vec![]);
    assert_eq!(
        session.step(SessionEvent::Read(Err(PacketProcessingError::Disconnected))),
        vec![SessionAction::Shutdown, SessionAction::LeaveGame]
    );
}

#[test]
fn a_decode_error_keeps_the_connection() {
    let mut session = ClientSession::new(true);
    let error = PacketProcessingError::DecodePacketError(767, ConnectionState::Play, 0x42);
    assert_eq!(session.step(SessionEvent::Read(Err(error))), vec![]);
    assert!(!session.is_finished());
}

#[test]
fn kick_stays_a_kick() {
    let delivery = push_delivery(PushAction::Kick("bye".to_string()), ProtocolVersion { protocol: 47 });
    assert_eq!(delivery, PushDelivery::Kick("bye".to_string()));
}

#[test]
fn transfer_needs_1_20_5() {
    let action = || PushAction::Transfer { host: "play.example.com".to_string(), port: 25565 };
    assert_eq!(
        push_delivery(action(), ProtocolVersion { protocol: 766 }),
        PushDelivery::Transfer { host: "play.example.com".to_string(), port: 25565 }
    );
    assert_eq!(
        push_delivery(action(), ProtocolVersion { protocol: 765 }),
        PushDelivery::Kick("You have been moved to the main server.".to_string())
    );
}

#[test]
fn kick_packet_per_state() {
    assert_eq!(
        kick_packet(ConnectionState::Login, "r".to_string()),
        Ok(DisconnectPacket::Login("r".to_string()))
    );
    assert_eq!(
        kick_packet(ConnectionState::Configuration, "r".to_string()),
        Ok(DisconnectPacket::Configuration("r".to_string()))
    );
    assert_eq!(
        kick_packet(ConnectionState::Play, "r".to_string()),
        Ok(DisconnectPacket::Play("r".to_string()))
    );
    assert_eq!(
        kick_packet(ConnectionState::Status, "r".to_string()),
        Err(PacketProcessingError::Disconnected)
    );
    assert_eq!(
        kick_packet(ConnectionState::Handshake, "r".to_string()),
        Err(PacketProcessingError::Disconnected)
    );
}

#[test]
fn keep_alive_only_in_play() {
    assert!(keep_alive_due(ConnectionState::Play));
    assert!(!keep_alive_due(ConnectionState::Configuration));
    assert!(!keep_alive_due(ConnectionState::Login));
}

#[test]
fn protocol_versions_compare_by_number() {
    let v = ProtocolVersion { protocol: 340 };
    assert!(v.is_after_inclusive(ProtocolVersion::v1_8()));
    assert!(v.is_after_inclusive(ProtocolVersion::v1_11()));
    assert!(!v.is_after_inclusive(ProtocolVersion::v1_17()));
    assert!(ProtocolVersion::v1_9().is_after_inclusive(ProtocolVersion::v1_9()));
    assert_eq!(ProtocolVersion::v1_20_5().protocol, 766);
}

#[test]
fn counted_in_and_out_once_over_a_connection() {
    let mut session = ClientSession::new(true);
    let mut joins = 0;
    let mut leaves = 0;
    for state in [ConnectionState::Login, ConnectionState::Configuration, ConnectionState::Play] {
        if session.note_client_state(state) {
            joins += 1;
        }
        for action in session.step(SessionEvent::Read(Ok(()))) {
            if action == SessionAction::LeaveGame {
                leaves += 1;
            }
        }
    }
    for _ in 0..3 {
        if session.note_client_state(ConnectionState::Play) {
            joins += 1;
        }
        session.step(SessionEvent::Read(Ok(())));
    }
    assert_eq!((joins, leaves), (1, 0));
    for action in session.step(SessionEvent::Read(Err(PacketProcessingError::Disconnected))) {
        if action == SessionAction::LeaveGame {
            leaves += 1;
        }
    }
    assert_eq!((joins, leaves), (1, 1));
}

#[test]
fn a_client_that_never_plays_is_not_counted() {
    let mut session = ClientSession::new(true);
    assert!(!session.note_client_state(ConnectionState::Login));
    let actions = session.step(SessionEvent::Read(Err(PacketProcessingError::Disconnected)));
    assert!(!actions.contains(&SessionAction::LeaveGame));
}

#[test]
fn stream_errors() {
    assert_eq!(
        PacketProcessingError::from_stream_error(PacketStreamError::Io(StreamIoErrorKind::UnexpectedEof, "eof".to_string())),
        PacketProcessingError::Disconnected
    );
    assert_eq!(
        PacketProcessingError::from_stream_error(PacketStreamError::Io(StreamIoErrorKind::ConnectionReset, "reset".to_string())),
        PacketProcessingError::Disconnected
    );
    assert_eq!(
        PacketProcessingError::from_stream_error(PacketStreamError::Io(StreamIoErrorKind::Other, "broken pipe".to_string())),
        PacketProcessingError::Custom("broken pipe".to_string())
    );
    assert_eq!(
        PacketProcessingError::from_stream_error(PacketStreamError::Other("too big".to_string())),
        PacketProcessingError::Custom("too big".to_string())
    );
}

#[test]
fn handler_errors() {
    assert_eq!(
        PacketProcessingError::from_handler_error(PacketHandlerError::Custom("why".to_string())),
        PacketProcessingError::Custom("why".to_string())
    );
    assert_eq!(
        PacketProcessingError::from_handler_error(PacketHandlerError::InvalidState("bad".to_string(), true)),
        PacketProcessingError::Disconnected
    );
}

#[test]
fn decode_errors() {
    assert_eq!(
        PacketProcessingError::from_decode_error(PacketRegistryDecodeError::NoCorrespondingPacket(
            767,
            ConnectionState::Play,
            7
        )),
        PacketProcessingError::DecodePacketError(767, ConnectionState::Play, 7)
    );
    assert_eq!(
        PacketProcessingError::from_decode_error(PacketRegistryDecodeError::Other("x".to_string())),
        PacketProcessingError::Custom("x".to_string())
    );
}

#[test]
fn a_kick_request_ends_the_connection() {
    let next = after_packet(Some("go away".to_string()));
    assert_eq!(next, AfterPacket::KickThenDisconnect("go away".to_string()));
    assert_eq!(packet_outcome(&next), Err(PacketProcessingError::Disconnected));
    let next = after_packet(None);
    assert_eq!(next, AfterPacket::EnableKeepAlive);
    assert_eq!(packet_outcome(&next), Ok(()));
}

#[test]
fn compression_switches_on_after_its_announcement() {
    assert_eq!(compression_after_reply(true, Some((256, 6))), Some((256, 6)));
    assert_eq!(compression_after_reply(false, Some((256, 6))), None);
    assert_eq!(compression_after_reply::<(i32, i32)>(true, None), None);
}
