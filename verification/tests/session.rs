use session_relay::server::{Delivery, WebSocketServer};
use session_relay::session::{
    Action, Frame, SessionState, WebSocketActor, CONNECTION_ID_BYTES, CONNECTION_ID_LENGTH,
};
use session_relay::user_type::UserType;
use tokio::sync::mpsc::error::TryRecvError;
use tokio::sync::mpsc::unbounded_channel;

fn text(s: &str) -> String {
    s.to_string()
}

#[test]
fn new_session_is_connecting() {
    let session = WebSocketActor::new(text("c2"), text("room"), UserType::Member, 2);
    assert_eq!(session.state(), SessionState::Connecting);
    assert_eq!(session.connection_id(), "c2");
    assert_eq!(session.room_id(), "room");
    assert_eq!(session.user_type(), UserType::Member);
    assert_eq!(session.user_id(), 2);
}

#[test]
fn opened_sessions_get_connection_ids_of_their_own() {
    let one = WebSocketActor::open(text("room"), UserType::Member, 2).unwrap();
    let other = WebSocketActor::open(text("room"), UserType::Member, 2).unwrap();
    assert_eq!(CONNECTION_ID_LENGTH, 36);
    assert_eq!(one.connection_id().len(), 36);
    assert_eq!(other.connection_id().len(), 36);
    assert_ne!(one.connection_id(), other.connection_id());
    assert_eq!(one.state(), SessionState::Connecting);
    assert_eq!(one.room_id(), "room");
    assert_eq!(one.user_id(), 2);
    assert_eq!(one.user_type(), UserType::Member);
}

#[test]
fn connection_id_is_the_uuid_of_its_random_bytes() {
    assert_eq!(CONNECTION_ID_BYTES, 16);
    let session = WebSocketActor::with_random(&[0u8; 16], text("room"), UserType::Proctor, 1);
    assert_eq!(session.connection_id(), "00000000-0000-4000-8000-000000000000");
    assert_eq!(session.state(), SessionState::Connecting);
    assert_eq!(session.room_id(), "room");
    assert_eq!(session.user_type(), UserType::Proctor);
    assert_eq!(session.user_id(), 1);
    let session = WebSocketActor::with_random(&[0xffu8; 16], text("room"), UserType::Member, 2);
    assert_eq!(session.connection_id(), "ffffffff-ffff-4fff-bfff-ffffffffffff");
    let bytes = [0x12u8, 0x34, 0x56, 0x78, 0x9a, 0xbc, 0xde, 0xf0, 0x0f, 0x1e, 0x2d, 0x3c, 0x4b, 0x5a, 0x69, 0x78];
    let session = WebSocketActor::with_random(&bytes, text("room"), UserType::Member, 2);
    assert_eq!(
        session.connection_id(),
        &uuid::Builder::from_random_bytes(bytes).into_uuid().to_string()
    );
    assert_eq!(session.connection_id(), "12345678-9abc-4ef0-8f1e-2d3c4b5a6978");
}

#[test]
fn member_and_proctor_sessions_talk() {
    let mut relay = WebSocketServer::new();
    let mut proctor = WebSocketActor::new(text("c1"), text("room"), UserType::Proctor, 1);
    let mut member = WebSocketActor::new(text("c2"), text("room"), UserType::Member, 2);
    let (proctor_tx, mut proctor_rx) = unbounded_channel::<String>();
    let (member_tx, mut member_rx) = unbounded_channel::<String>();
    assert!(proctor.started(&mut relay, proctor_tx));
    assert!(member.started(&mut relay, member_tx));
    assert_eq!(proctor.state(), SessionState::Active);
    assert_eq!(member.state(), SessionState::Active);
    assert_eq!(relay.get_proctor_id(), 1);
    assert_eq!(relay.get_participant_id(text("c2")), Some(2));

    let reply = member.handle(
        &mut relay,
        Frame::Text(text("{\"event\":\"chat\",\"message\":\"hi\",\"participant\":1}")),
    );
    assert!(matches!(reply, Action::Routed(Delivery::Delivered)));
    assert_eq!(
        proctor_rx.try_recv().unwrap(),
        "{\"event\":\"chat\",\"message\":\"hi\",\"sender_id\":\"2\"}"
    );

    let reply = proctor.handle(
        &mut relay,
        Frame::Text(text("{\"event\":\"chat\",\"message\":\"ok\",\"participant\":2}")),
    );
    assert!(matches!(reply, Action::Routed(Delivery::Delivered)));
    assert_eq!(
        member_rx.try_recv().unwrap(),
        "{\"event\":\"chat\",\"message\":\"ok\",\"sender_id\":\"1\"}"
    );

    let reply = member.handle(&mut relay, Frame::Close);
    assert!(matches!(reply, Action::Stop));
    assert_eq!(member.state(), SessionState::Closed);
    assert_eq!(relay.get_participant_id(text("c2")), None);

    let reply = proctor.handle(
        &mut relay,
        Frame::Text(text("{\"event\":\"chat\",\"message\":\"gone\",\"participant\":2}")),
    );
    assert!(matches!(reply, Action::Routed(Delivery::UnknownRecipient)));
    assert!(matches!(member_rx.try_recv(), Err(TryRecvError::Disconnected)));
}

#[test]
fn admin_session_never_registers() {
    let mut relay = WebSocketServer::new();
    let mut admin = WebSocketActor::new(text("c9"), text("room"), UserType::Admin, 9);
    let (tx, _rx) = unbounded_channel::<String>();
    assert!(!admin.started(&mut relay, tx));
    assert_eq!(admin.state(), SessionState::Closed);
    assert_eq!(relay.get_proctor_id(), 0);
    assert_eq!(relay.get_participant_id(text("c9")), None);
}

#[test]
fn session_starts_once() {
    let mut relay = WebSocketServer::new();
    let mut member = WebSocketActor::new(text("c2"), text("room"), UserType::Member, 2);
    let (tx, _rx) = unbounded_channel::<String>();
    let (again_tx, _again_rx) = unbounded_channel::<String>();
    assert!(member.started(&mut relay, tx));
    assert!(!member.started(&mut relay, again_tx));
    assert_eq!(member.state(), SessionState::Active);
    relay.unregister(text("c2"));
    // Had it registered twice, a second record would remain.
    assert_eq!(relay.get_participant_id(text("c2")), None);
}

#[test]
fn malformed_frame_is_discarded() {
    let mut relay = WebSocketServer::new();
    let mut proctor = WebSocketActor::new(text("c1"), text("room"), UserType::Proctor, 1);
    let mut member = WebSocketActor::new(text("c2"), text("room"), UserType::Member, 2);
    let (proctor_tx, mut proctor_rx) = unbounded_channel::<String>();
    let (member_tx, _member_rx) = unbounded_channel::<String>();
    proctor.started(&mut relay, proctor_tx);
    member.started(&mut relay, member_tx);
    let reply = member.handle(&mut relay, Frame::Text(text("{\"event\":\"chat\"")));
    assert!(matches!(reply, Action::Discarded));
    let reply = member.handle(&mut relay, Frame::Text(text("{\"event\":\"chat\",\"message\":\"x\"}")));
    assert!(matches!(reply, Action::Discarded));
    assert!(matches!(proctor_rx.try_recv(), Err(TryRecvError::Empty)));
    assert_eq!(member.state(), SessionState::Active);
}

#[test]
fn ping_is_answered_with_its_bytes() {
    let mut relay = WebSocketServer::new();
    let mut member = WebSocketActor::new(text("c2"), text("room"), UserType::Member, 2);
    let (tx, _rx) = unbounded_channel::<String>();
    member.started(&mut relay, tx);
    match member.handle(&mut relay, Frame::Ping(vec![1, 2, 3])) {
        Action::Pong(bytes) => assert_eq!(bytes, vec![1, 2, 3]),
        _ => panic!("a ping is answered with a pong"),
    }
    assert_eq!(member.state(), SessionState::Active);
}

#[test]
fn other_frames_are_ignored() {
    let mut relay = WebSocketServer::new();
    let mut member = WebSocketActor::new(text("c2"), text("room"), UserType::Member, 2);
    let (tx, _rx) = unbounded_channel::<String>();
    member.started(&mut relay, tx);
    assert!(matches!(member.handle(&mut relay, Frame::Other), Action::Nothing));
    assert_eq!(member.state(), SessionState::Active);
    assert_eq!(relay.get_participant_id(text("c2")), Some(2));
}

#[test]
fn protocol_error_closes_the_session() {
    let mut relay = WebSocketServer::new();
    let mut member = WebSocketActor::new(text("c2"), text("room"), UserType::Member, 2);
    let (tx, _rx) = unbounded_channel::<String>();
    member.started(&mut relay, tx);
    assert!(matches!(member.handle(&mut relay, Frame::Failed), Action::Stop));
    assert_eq!(member.state(), SessionState::Closed);
    assert_eq!(relay.get_participant_id(text("c2")), None);
}

#[test]
fn session_that_is_not_active_does_nothing() {
    let mut relay = WebSocketServer::new();
    let (p_tx, mut p_rx) = unbounded_channel::<String>();
    relay.register(UserType::Proctor, p_tx, 1, text("c1"));
    let mut member = WebSocketActor::new(text("c2"), text("room"), UserType::Member, 2);
    let frame = "{\"event\":\"chat\",\"message\":\"hi\",\"participant\":1}";
    assert!(matches!(member.handle(&mut relay, Frame::Text(text(frame))), Action::Nothing));
    assert!(matches!(member.handle(&mut relay, Frame::Ping(vec![9])), Action::Nothing));
    assert!(matches!(member.handle(&mut relay, Frame::Close), Action::Nothing));
    assert_eq!(member.state(), SessionState::Connecting);
    assert!(matches!(p_rx.try_recv(), Err(TryRecvError::Empty)));
    let (tx, _rx) = unbounded_channel::<String>();
    member.started(&mut relay, tx);
    member.stopping(&mut relay);
    assert!(matches!(member.handle(&mut relay, Frame::Text(text(frame))), Action::Nothing));
    assert!(matches!(p_rx.try_recv(), Err(TryRecvError::Empty)));
}

#[test]
fn stopping_unregisters_once() {
    let mut relay = WebSocketServer::new();
    let mut first = WebSocketActor::new(text("dup"), text("room"), UserType::Member, 2);
    let mut second = WebSocketActor::new(text("dup"), text("room"), UserType::Member, 3);
    let (a_tx, _a_rx) = unbounded_channel::<String>();
    let (b_tx, _b_rx) = unbounded_channel::<String>();
    first.started(&mut relay, a_tx);
    second.started(&mut relay, b_tx);
    first.handle(&mut relay, Frame::Close);
    assert_eq!(relay.get_participant_id(text("dup")), Some(3));
    // Stopping after the close frame takes nobody else out.
    first.stopping(&mut relay);
    assert_eq!(first.state(), SessionState::Closed);
    assert_eq!(relay.get_participant_id(text("dup")), Some(3));
    second.stopping(&mut relay);
    assert_eq!(second.state(), SessionState::Closed);
    assert_eq!(relay.get_participant_id(text("dup")), None);
}

#[test]
fn stopping_before_start_leaves_the_relay_alone() {
    let mut relay = WebSocketServer::new();
    let (m_tx, _m_rx) = unbounded_channel::<String>();
    relay.register(UserType::Member, m_tx, 4, text("c2"));
    let mut session = WebSocketActor::new(text("c2"), text("room"), UserType::Member, 2);
    session.stopping(&mut relay);
    assert_eq!(session.state(), SessionState::Closed);
    assert_eq!(relay.get_participant_id(text("c2")), Some(4));
    let (tx, _rx) = unbounded_channel::<String>();
    assert!(!session.started(&mut relay, tx));
    assert_eq!(session.state(), SessionState::Closed);
}

#[test]
fn proctor_frame_for_a_number_nobody_has_is_dropped() {
    let mut relay = WebSocketServer::new();
    let mut proctor = WebSocketActor::new(text("c1"), text("room"), UserType::Proctor, 1);
    let mut member = WebSocketActor::new(text("c2"), text("room"), UserType::Member, 2);
    let (proctor_tx, mut proctor_rx) = unbounded_channel::<String>();
    let (member_tx, mut member_rx) = unbounded_channel::<String>();
    proctor.started(&mut relay, proctor_tx);
    member.started(&mut relay, member_tx);
    // 4294967298 is 2 plus 2 to the 32nd.
    let action = proctor.handle(
        &mut relay,
        Frame::Text(text("{\"event\":\"chat\",\"message\":\"x\",\"participant\":4294967298}")),
    );
    assert!(matches!(action, Action::Routed(Delivery::UnknownRecipient)));
    assert!(matches!(member_rx.try_recv(), Err(TryRecvError::Empty)));
    assert!(matches!(proctor_rx.try_recv(), Err(TryRecvError::Empty)));
    assert_eq!(proctor.state(), SessionState::Active);
    assert_eq!(relay.get_participant_id(text("c2")), Some(2));
}

#[test]
fn member_frame_reaches_proctor_whatever_number_it_names() {
    let mut relay = WebSocketServer::new();
    let mut proctor = WebSocketActor::new(text("c1"), text("room"), UserType::Proctor, 1);
    let mut member = WebSocketActor::new(text("c2"), text("room"), UserType::Member, 2);
    let (proctor_tx, mut proctor_rx) = unbounded_channel::<String>();
    let (member_tx, mut member_rx) = unbounded_channel::<String>();
    proctor.started(&mut relay, proctor_tx);
    member.started(&mut relay, member_tx);
    for named in ["4294967298", "2", "-9223372036854775808", "9223372036854775807", "0"] {
        let frame =
            format!("{{\"event\":\"chat\",\"message\":\"hi\",\"participant\":{}}}", named);
        let action = member.handle(&mut relay, Frame::Text(frame));
        assert!(matches!(action, Action::Routed(Delivery::Delivered)));
        assert_eq!(
            proctor_rx.try_recv().unwrap(),
            "{\"event\":\"chat\",\"message\":\"hi\",\"sender_id\":\"2\"}"
        );
        assert!(matches!(member_rx.try_recv(), Err(TryRecvError::Empty)));
    }
}
