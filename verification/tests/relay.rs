use session_relay::server::{Delivery, WebSocketServer, NO_PROCTOR};
use session_relay::user_type::UserType;
use tokio::sync::mpsc::error::TryRecvError;
use tokio::sync::mpsc::{unbounded_channel, UnboundedReceiver};

fn text(s: &str) -> String {
    s.to_string()
}

fn nothing_waits(rx: &mut UnboundedReceiver<String>) -> bool {
    matches!(rx.try_recv(), Err(TryRecvError::Empty))
}

/// A relay with proctor 1 on "c1" and member 2 on "c2".
fn proctor_and_member() -> (WebSocketServer, UnboundedReceiver<String>, UnboundedReceiver<String>) {
    let mut relay = WebSocketServer::new();
    let (proctor_tx, proctor_rx) = unbounded_channel::<String>();
    let (member_tx, member_rx) = unbounded_channel::<String>();
    relay.register(UserType::Proctor, proctor_tx, 1, text("c1"));
    relay.register(UserType::Member, member_tx, 2, text("c2"));
    (relay, proctor_rx, member_rx)
}

#[test]
fn new_relay_has_no_proctor() {
    let relay = WebSocketServer::new();
    assert_eq!(relay.get_proctor_id(), NO_PROCTOR);
    assert_eq!(relay.get_proctor_id(), 0);
    assert_eq!(relay.get_participant_id(text("c1")), None);
}

#[test]
fn member_message_reaches_proctor() {
    let (mut relay, mut proctor_rx, mut member_rx) = proctor_and_member();
    let outcome = relay.route(UserType::Member, 2, 1, text("hi"), text("chat"));
    assert_eq!(outcome, Delivery::Delivered);
    assert_eq!(
        proctor_rx.try_recv().unwrap(),
        "{\"event\":\"chat\",\"message\":\"hi\",\"sender_id\":\"2\"}"
    );
    assert!(nothing_waits(&mut proctor_rx));
    assert!(nothing_waits(&mut member_rx));
}

#[test]
fn proctor_message_reaches_addressed_member() {
    let (mut relay, mut proctor_rx, mut member_rx) = proctor_and_member();
    relay.route(UserType::Member, 2, 1, text("hi"), text("chat"));
    proctor_rx.try_recv().unwrap();
    let outcome = relay.route(UserType::Proctor, 1, 2, text("ok"), text("chat"));
    assert_eq!(outcome, Delivery::Delivered);
    assert_eq!(
        member_rx.try_recv().unwrap(),
        "{\"event\":\"chat\",\"message\":\"ok\",\"sender_id\":\"1\"}"
    );
    assert!(nothing_waits(&mut member_rx));
    assert!(nothing_waits(&mut proctor_rx));
}

#[test]
fn unregistered_member_receives_nothing() {
    let (mut relay, mut proctor_rx, mut member_rx) = proctor_and_member();
    relay.route(UserType::Member, 2, 1, text("hi"), text("chat"));
    relay.route(UserType::Proctor, 1, 2, text("ok"), text("chat"));
    proctor_rx.try_recv().unwrap();
    member_rx.try_recv().unwrap();
    relay.unregister(text("c2"));
    let outcome = relay.route(UserType::Proctor, 1, 2, text("gone"), text("chat"));
    assert_eq!(outcome, Delivery::UnknownRecipient);
    // The relay has let go of the member's mailbox, and nothing was put in.
    assert!(matches!(member_rx.try_recv(), Err(TryRecvError::Disconnected)));
    assert!(nothing_waits(&mut proctor_rx));
    assert_eq!(relay.get_participant_id(text("c2")), None);
}

#[test]
fn second_proctor_replaces_first() {
    let (mut relay, mut first_rx, mut member_rx) = proctor_and_member();
    let (second_tx, mut second_rx) = unbounded_channel::<String>();
    relay.register(UserType::Proctor, second_tx, 5, text("c5"));
    assert_eq!(relay.get_proctor_id(), 5);
    let outcome = relay.route(UserType::Member, 2, 1, text("hello"), text("chat"));
    assert_eq!(outcome, Delivery::Delivered);
    assert_eq!(
        second_rx.try_recv().unwrap(),
        "{\"event\":\"chat\",\"message\":\"hello\",\"sender_id\":\"2\"}"
    );
    // The relay has let go of the first proctor's mailbox, and nothing was put in.
    assert!(matches!(first_rx.try_recv(), Err(TryRecvError::Disconnected)));
    assert!(nothing_waits(&mut member_rx));
    // The first proctor's connection is no longer in the roster.
    relay.unregister(text("c1"));
    assert_eq!(relay.get_proctor_id(), 5);
}

#[test]
fn member_recipient_field_is_ignored() {
    for named in [0i64, 1, 2, 77, -3, 2147483647, -2147483648, 4294967298, i64::MAX, i64::MIN] {
        let (mut relay, mut proctor_rx, mut member_rx) = proctor_and_member();
        let outcome = relay.route(UserType::Member, 2, named, text("m"), text("e"));
        assert_eq!(outcome, Delivery::Delivered);
        assert_eq!(
            proctor_rx.try_recv().unwrap(),
            "{\"event\":\"e\",\"message\":\"m\",\"sender_id\":\"2\"}"
        );
        assert!(nothing_waits(&mut member_rx));
    }
}

#[test]
fn member_message_without_proctor_is_dropped() {
    let mut relay = WebSocketServer::new();
    let (member_tx, mut member_rx) = unbounded_channel::<String>();
    relay.register(UserType::Member, member_tx, 2, text("c2"));
    assert_eq!(
        relay.route(UserType::Member, 2, 1, text("hi"), text("chat")),
        Delivery::NoProctor
    );
    // Not even a member whose id is the "no proctor" id receives it.
    let (zero_tx, mut zero_rx) = unbounded_channel::<String>();
    relay.register(UserType::Member, zero_tx, 0, text("c0"));
    assert_eq!(
        relay.route(UserType::Member, 2, 0, text("hi"), text("chat")),
        Delivery::NoProctor
    );
    assert!(nothing_waits(&mut member_rx));
    assert!(nothing_waits(&mut zero_rx));
}

#[test]
fn proctor_message_to_unknown_member_is_dropped() {
    let (mut relay, mut proctor_rx, mut member_rx) = proctor_and_member();
    assert_eq!(
        relay.route(UserType::Proctor, 1, 9, text("x"), text("chat")),
        Delivery::UnknownRecipient
    );
    assert!(nothing_waits(&mut proctor_rx));
    assert!(nothing_waits(&mut member_rx));
}

#[test]
fn proctor_cannot_address_itself() {
    let (mut relay, mut proctor_rx, mut member_rx) = proctor_and_member();
    assert_eq!(
        relay.route(UserType::Proctor, 1, 1, text("x"), text("chat")),
        Delivery::SelfAddressed
    );
    // Not even when a member shares the proctor's user id.
    let (twin_tx, mut twin_rx) = unbounded_channel::<String>();
    relay.register(UserType::Member, twin_tx, 1, text("c1b"));
    assert_eq!(
        relay.route(UserType::Proctor, 1, 1, text("x"), text("chat")),
        Delivery::SelfAddressed
    );
    assert!(nothing_waits(&mut proctor_rx));
    assert!(nothing_waits(&mut member_rx));
    assert!(nothing_waits(&mut twin_rx));
}

#[test]
fn admin_neither_registers_nor_sends() {
    let (mut relay, mut proctor_rx, mut member_rx) = proctor_and_member();
    let (admin_tx, mut admin_rx) = unbounded_channel::<String>();
    relay.register(UserType::Admin, admin_tx, 7, text("c7"));
    assert_eq!(relay.get_proctor_id(), 1);
    assert_eq!(relay.get_participant_id(text("c7")), None);
    assert_eq!(
        relay.route(UserType::Admin, 7, 2, text("x"), text("chat")),
        Delivery::InvalidSender
    );
    assert_eq!(
        relay.route(UserType::Proctor, 1, 7, text("x"), text("chat")),
        Delivery::UnknownRecipient
    );
    assert!(nothing_waits(&mut proctor_rx));
    assert!(nothing_waits(&mut member_rx));
    // The admin's channel was not kept: its receiving side sees it closed.
    assert!(matches!(admin_rx.try_recv(), Err(TryRecvError::Disconnected)));
}

#[test]
fn duplicate_user_id_goes_to_first_registered() {
    let (mut relay, _proctor_rx, mut first_rx) = proctor_and_member();
    let (second_tx, mut second_rx) = unbounded_channel::<String>();
    relay.register(UserType::Member, second_tx, 2, text("c2b"));
    assert_eq!(
        relay.route(UserType::Proctor, 1, 2, text("one"), text("chat")),
        Delivery::Delivered
    );
    assert_eq!(
        first_rx.try_recv().unwrap(),
        "{\"event\":\"chat\",\"message\":\"one\",\"sender_id\":\"1\"}"
    );
    assert!(nothing_waits(&mut second_rx));
    // Once the first has gone, the second is the first.
    relay.unregister(text("c2"));
    assert_eq!(
        relay.route(UserType::Proctor, 1, 2, text("two"), text("chat")),
        Delivery::Delivered
    );
    assert_eq!(
        second_rx.try_recv().unwrap(),
        "{\"event\":\"chat\",\"message\":\"two\",\"sender_id\":\"1\"}"
    );
    assert!(matches!(first_rx.try_recv(), Err(TryRecvError::Disconnected)));
}

#[test]
fn closed_mailbox_is_reported_and_not_retried() {
    let (mut relay, proctor_rx, member_rx) = proctor_and_member();
    drop(proctor_rx);
    drop(member_rx);
    assert_eq!(
        relay.route(UserType::Member, 2, 1, text("hi"), text("chat")),
        Delivery::MailboxClosed
    );
    assert_eq!(
        relay.route(UserType::Proctor, 1, 2, text("hi"), text("chat")),
        Delivery::MailboxClosed
    );
    // The roster is as it was.
    assert_eq!(relay.get_proctor_id(), 1);
    assert_eq!(relay.get_participant_id(text("c2")), Some(2));
}

#[test]
fn unregister_unknown_connection_is_no_op() {
    let (mut relay, mut proctor_rx, mut member_rx) = proctor_and_member();
    relay.unregister(text("nobody"));
    relay.unregister(text(""));
    assert_eq!(relay.get_proctor_id(), 1);
    assert_eq!(relay.get_participant_id(text("c2")), Some(2));
    assert_eq!(
        relay.route(UserType::Member, 2, 0, text("a"), text("e")),
        Delivery::Delivered
    );
    assert_eq!(
        relay.route(UserType::Proctor, 1, 2, text("b"), text("e")),
        Delivery::Delivered
    );
    assert!(proctor_rx.try_recv().is_ok());
    assert!(member_rx.try_recv().is_ok());
}

#[test]
fn unregister_proctor_clears_the_place() {
    let (mut relay, mut proctor_rx, _member_rx) = proctor_and_member();
    relay.unregister(text("c1"));
    assert_eq!(relay.get_proctor_id(), 0);
    assert_eq!(
        relay.route(UserType::Member, 2, 1, text("hi"), text("chat")),
        Delivery::NoProctor
    );
    assert!(matches!(proctor_rx.try_recv(), Err(TryRecvError::Disconnected)));
    assert_eq!(relay.get_participant_id(text("c2")), Some(2));
}

#[test]
fn unregister_removes_one_member_only() {
    let mut relay = WebSocketServer::new();
    let (a_tx, _a_rx) = unbounded_channel::<String>();
    let (b_tx, _b_rx) = unbounded_channel::<String>();
    let (c_tx, _c_rx) = unbounded_channel::<String>();
    relay.register(UserType::Member, a_tx, 10, text("same"));
    relay.register(UserType::Member, b_tx, 11, text("other"));
    relay.register(UserType::Member, c_tx, 12, text("same"));
    assert_eq!(relay.get_participant_id(text("same")), Some(10));
    relay.unregister(text("same"));
    assert_eq!(relay.get_participant_id(text("same")), Some(12));
    assert_eq!(relay.get_participant_id(text("other")), Some(11));
    relay.unregister(text("same"));
    assert_eq!(relay.get_participant_id(text("same")), None);
    assert_eq!(relay.get_participant_id(text("other")), Some(11));
}

#[test]
fn unregister_prefers_the_proctor() {
    let mut relay = WebSocketServer::new();
    let (p_tx, _p_rx) = unbounded_channel::<String>();
    let (m_tx, _m_rx) = unbounded_channel::<String>();
    relay.register(UserType::Proctor, p_tx, 1, text("shared"));
    relay.register(UserType::Member, m_tx, 2, text("shared"));
    relay.unregister(text("shared"));
    assert_eq!(relay.get_proctor_id(), 0);
    assert_eq!(relay.get_participant_id(text("shared")), Some(2));
}

#[test]
fn get_participant_id_ignores_the_proctor() {
    let (relay, _proctor_rx, _member_rx) = proctor_and_member();
    assert_eq!(relay.get_participant_id(text("c1")), None);
    assert_eq!(relay.get_participant_id(text("c2")), Some(2));
}

#[test]
fn send_to_addresses_by_user_id() {
    let (mut relay, mut proctor_rx, mut member_rx) = proctor_and_member();
    assert_eq!(relay.send_to(2, 1, text("hi"), text("chat")), Delivery::Delivered);
    assert_eq!(
        proctor_rx.try_recv().unwrap(),
        "{\"event\":\"chat\",\"message\":\"hi\",\"sender_id\":\"2\"}"
    );
    assert_eq!(relay.send_to(1, 2, text("ok"), text("chat")), Delivery::Delivered);
    assert_eq!(
        member_rx.try_recv().unwrap(),
        "{\"event\":\"chat\",\"message\":\"ok\",\"sender_id\":\"1\"}"
    );
    assert_eq!(relay.send_to(1, 3, text("ok"), text("chat")), Delivery::UnknownRecipient);
    relay.unregister(text("c1"));
    assert_eq!(relay.send_to(2, 0, text("hi"), text("chat")), Delivery::NoProctor);
    assert_eq!(relay.send_to(2, 1, text("hi"), text("chat")), Delivery::UnknownRecipient);
    assert!(nothing_waits(&mut member_rx));
}

#[test]
fn messages_of_one_sender_arrive_in_order() {
    let (mut relay, mut proctor_rx, _member_rx) = proctor_and_member();
    for n in 0..5 {
        relay.route(UserType::Member, 2, 0, format!("m{}", n), text("chat"));
    }
    for n in 0..5 {
        assert_eq!(
            proctor_rx.try_recv().unwrap(),
            format!("{{\"event\":\"chat\",\"message\":\"m{}\",\"sender_id\":\"2\"}}", n)
        );
    }
}

#[test]
fn negative_sender_id_is_written_with_sign() {
    let mut relay = WebSocketServer::new();
    let (p_tx, mut p_rx) = unbounded_channel::<String>();
    relay.register(UserType::Proctor, p_tx, 1, text("c1"));
    relay.route(UserType::Member, -2147483648, 0, text("m"), text("e"));
    assert_eq!(
        p_rx.try_recv().unwrap(),
        "{\"event\":\"e\",\"message\":\"m\",\"sender_id\":\"-2147483648\"}"
    );
}

#[test]
fn push_outcome_names_what_the_mailbox_did() {
    assert_eq!(Delivery::of_push(true), Delivery::Delivered);
    assert_eq!(Delivery::of_push(false), Delivery::MailboxClosed);
}

#[test]
fn number_that_is_no_user_id_names_nobody() {
    // 4294967298 is 2 plus 2 to the 32nd: it is not member 2.
    for named in [4294967298i64, 2147483648, -2147483649, 4294967297, i64::MAX, i64::MIN] {
        let (mut relay, mut proctor_rx, mut member_rx) = proctor_and_member();
        let outcome = relay.route(UserType::Proctor, 1, named, text("x"), text("chat"));
        assert_eq!(outcome, Delivery::UnknownRecipient);
        assert!(nothing_waits(&mut member_rx));
        assert!(nothing_waits(&mut proctor_rx));
        assert_eq!(relay.get_proctor_id(), 1);
        assert_eq!(relay.get_participant_id(text("c2")), Some(2));
    }
}

#[test]
fn user_ids_at_the_ends_of_their_range_are_reached() {
    let mut relay = WebSocketServer::new();
    let (p_tx, _p_rx) = unbounded_channel::<String>();
    let (low_tx, mut low_rx) = unbounded_channel::<String>();
    let (high_tx, mut high_rx) = unbounded_channel::<String>();
    relay.register(UserType::Proctor, p_tx, 1, text("c1"));
    relay.register(UserType::Member, low_tx, i32::MIN, text("low"));
    relay.register(UserType::Member, high_tx, i32::MAX, text("high"));
    assert_eq!(
        relay.route(UserType::Proctor, 1, -2147483648, text("l"), text("e")),
        Delivery::Delivered
    );
    assert_eq!(
        relay.route(UserType::Proctor, 1, 2147483647, text("h"), text("e")),
        Delivery::Delivered
    );
    assert_eq!(low_rx.try_recv().unwrap(), "{\"event\":\"e\",\"message\":\"l\",\"sender_id\":\"1\"}");
    assert_eq!(high_rx.try_recv().unwrap(), "{\"event\":\"e\",\"message\":\"h\",\"sender_id\":\"1\"}");
    assert!(nothing_waits(&mut low_rx));
    assert!(nothing_waits(&mut high_rx));
}
