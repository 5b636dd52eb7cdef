use session_relay::decimal::id_to_string;
use session_relay::wire::{
    assemble_envelope, encode_outbound, encode_payload, outbound_frame, InboundEnvelope,
    TextMessage,
};

fn some_text(s: &str) -> Option<Option<String>> {
    Some(Some(s.to_string()))
}

#[test]
fn ids_are_written_in_decimal() {
    assert_eq!(id_to_string(0), "0");
    assert_eq!(id_to_string(7), "7");
    assert_eq!(id_to_string(10), "10");
    assert_eq!(id_to_string(905), "905");
    assert_eq!(id_to_string(-1), "-1");
    assert_eq!(id_to_string(-120), "-120");
    assert_eq!(id_to_string(i32::MAX), "2147483647");
    assert_eq!(id_to_string(i32::MIN), "-2147483648");
}

#[test]
fn ids_are_written_as_std_writes_them() {
    for id in [0, 1, 9, 10, 11, 99, 100, 101, 12345, -1, -9, -10, -99999, i32::MAX, i32::MIN] {
        assert_eq!(id_to_string(id), id.to_string());
    }
}

#[test]
fn envelope_is_laid_out_from_literals() {
    assert_eq!(
        assemble_envelope("\"e\"", "\"m\"", "\"3\""),
        "{\"event\":\"e\",\"message\":\"m\",\"sender_id\":\"3\"}"
    );
    assert_eq!(assemble_envelope("", "", ""), "{\"event\":,\"message\":,\"sender_id\":}");
}

#[test]
fn payload_has_event_message_and_sender() {
    assert_eq!(
        encode_payload("chat", "hi", 2),
        "{\"event\":\"chat\",\"message\":\"hi\",\"sender_id\":\"2\"}"
    );
    assert_eq!(
        encode_outbound("chat", "hi", "someone"),
        "{\"event\":\"chat\",\"message\":\"hi\",\"sender_id\":\"someone\"}"
    );
}

#[test]
fn payload_text_is_escaped() {
    assert_eq!(
        encode_payload("a\"b", "line\nbreak\\", 1),
        "{\"event\":\"a\\\"b\",\"message\":\"line\\nbreak\\\\\",\"sender_id\":\"1\"}"
    );
    assert_eq!(
        encode_payload("", "\u{1}é", 1),
        "{\"event\":\"\",\"message\":\"\\u0001é\",\"sender_id\":\"1\"}"
    );
}

#[test]
fn payload_is_what_serde_json_writes_for_the_object() {
    for (event, message, sender) in [
        ("chat", "hi", 2),
        ("", "", 0),
        ("e\"v", "tab\there", -5),
        ("ünï", "{\"nested\":1}", i32::MAX),
        ("\u{0}\u{1f}", "\\\\", i32::MIN),
    ] {
        let mut object = serde_json::Map::new();
        object.insert("event".to_string(), serde_json::Value::String(event.to_string()));
        object.insert("message".to_string(), serde_json::Value::String(message.to_string()));
        object.insert("sender_id".to_string(), serde_json::Value::String(sender.to_string()));
        let expected = serde_json::Value::Object(object).to_string();
        assert_eq!(encode_payload(event, message, sender), expected);
    }
}

#[test]
fn inbound_frame_is_read() {
    let envelope =
        InboundEnvelope::decode("{\"event\":\"chat\",\"message\":\"hi\",\"participant\":1}").unwrap();
    assert_eq!(envelope.event, "chat");
    assert_eq!(envelope.message, "hi");
    assert_eq!(envelope.participant, 1);
    let envelope = InboundEnvelope::decode(
        " { \"participant\" : -7 , \"extra\" : [1,2] , \"message\" : \"a\\nb\" , \"event\" : \"\" } ",
    )
    .unwrap();
    assert_eq!(envelope.event, "");
    assert_eq!(envelope.message, "a\nb");
    assert_eq!(envelope.participant, -7);
}

#[test]
fn malformed_inbound_frame_is_nothing() {
    assert!(InboundEnvelope::decode("").is_none());
    assert!(InboundEnvelope::decode("not json").is_none());
    assert!(InboundEnvelope::decode("{\"event\":\"chat\",\"message\":\"hi\",").is_none());
    assert!(InboundEnvelope::decode("[1,2,3]").is_none());
    assert!(InboundEnvelope::decode("\"text\"").is_none());
    assert!(InboundEnvelope::decode("{}").is_none());
    assert!(InboundEnvelope::decode("{\"event\":\"chat\",\"message\":\"hi\"} trailing").is_none());
}

#[test]
fn inbound_frame_needs_all_three_members() {
    assert!(InboundEnvelope::decode("{\"message\":\"hi\",\"participant\":1}").is_none());
    assert!(InboundEnvelope::decode("{\"event\":\"chat\",\"participant\":1}").is_none());
    assert!(InboundEnvelope::decode("{\"event\":\"chat\",\"message\":\"hi\"}").is_none());
}

#[test]
fn inbound_participant_must_be_an_integer() {
    assert!(
        InboundEnvelope::decode("{\"event\":\"e\",\"message\":\"m\",\"participant\":\"1\"}").is_none()
    );
    assert!(
        InboundEnvelope::decode("{\"event\":\"e\",\"message\":\"m\",\"participant\":1.5}").is_none()
    );
    assert!(
        InboundEnvelope::decode("{\"event\":\"e\",\"message\":\"m\",\"participant\":null}").is_none()
    );
    assert!(InboundEnvelope::decode(
        "{\"event\":\"e\",\"message\":\"m\",\"participant\":18446744073709551615}"
    )
    .is_none());
}

#[test]
fn inbound_participant_is_kept_as_given() {
    let envelope =
        InboundEnvelope::decode("{\"event\":\"e\",\"message\":\"m\",\"participant\":4294967298}")
            .unwrap();
    assert_eq!(envelope.participant, 4294967298);
    let envelope =
        InboundEnvelope::decode("{\"event\":\"e\",\"message\":\"m\",\"participant\":2147483648}")
            .unwrap();
    assert_eq!(envelope.participant, 2147483648);
    let envelope =
        InboundEnvelope::decode("{\"event\":\"e\",\"message\":\"m\",\"participant\":-1}").unwrap();
    assert_eq!(envelope.participant, -1);
    let envelope = InboundEnvelope::decode(
        "{\"event\":\"e\",\"message\":\"m\",\"participant\":-9223372036854775808}",
    )
    .unwrap();
    assert_eq!(envelope.participant, i64::MIN);
    let envelope = InboundEnvelope::decode(
        "{\"event\":\"e\",\"message\":\"m\",\"participant\":9223372036854775807}",
    )
    .unwrap();
    assert_eq!(envelope.participant, i64::MAX);
}

#[test]
fn inbound_text_of_another_kind_is_empty() {
    let envelope =
        InboundEnvelope::decode("{\"event\":5,\"message\":{\"a\":1},\"participant\":3}").unwrap();
    assert_eq!(envelope.event, "");
    assert_eq!(envelope.message, "");
    assert_eq!(envelope.participant, 3);
}

#[test]
fn inbound_envelope_from_members() {
    let envelope = InboundEnvelope::from_members(some_text("e"), Some(None), Some(9)).unwrap();
    assert_eq!(envelope.event, "e");
    assert_eq!(envelope.message, "");
    assert_eq!(envelope.participant, 9);
    assert!(InboundEnvelope::from_members(None, some_text("m"), Some(9)).is_none());
    assert!(InboundEnvelope::from_members(some_text("e"), None, Some(9)).is_none());
    assert!(InboundEnvelope::from_members(some_text("e"), some_text("m"), None).is_none());
    let kept =
        InboundEnvelope::from_members(some_text("e"), some_text("m"), Some(i64::MIN)).unwrap();
    assert_eq!(kept.participant, i64::MIN);
    let kept =
        InboundEnvelope::from_members(some_text("e"), some_text("m"), Some(i64::MAX)).unwrap();
    assert_eq!(kept.participant, i64::MAX);
    let kept =
        InboundEnvelope::from_members(some_text("e"), some_text("m"), Some(4294967298)).unwrap();
    assert_eq!(kept.participant, 4294967298);
}

#[test]
fn text_message_is_read_from_payload() {
    let found =
        TextMessage::decode("{\"event\":\"chat\",\"message\":\"hi\",\"sender_id\":\"2\"}").unwrap();
    assert_eq!(found.0, "hi");
    assert_eq!(found.1, "chat");
    assert_eq!(found.2, "2");
    assert!(TextMessage::decode("{\"event\":\"chat\",\"message\":\"hi\"}").is_none());
    assert!(TextMessage::decode("nonsense").is_none());
    let odd = TextMessage::decode("{\"event\":1,\"message\":null,\"sender_id\":2}").unwrap();
    assert_eq!(odd.0, "");
    assert_eq!(odd.1, "");
    assert_eq!(odd.2, "");
}

#[test]
fn text_message_from_members() {
    let found = TextMessage::from_members(some_text("e"), some_text("m"), some_text("s")).unwrap();
    assert_eq!(found.0, "m");
    assert_eq!(found.1, "e");
    assert_eq!(found.2, "s");
    assert!(TextMessage::from_members(None, some_text("m"), some_text("s")).is_none());
    assert!(TextMessage::from_members(some_text("e"), None, some_text("s")).is_none());
    assert!(TextMessage::from_members(some_text("e"), some_text("m"), None).is_none());
}

#[test]
fn text_message_frame() {
    let message = TextMessage("hi".to_string(), "chat".to_string(), "2".to_string());
    assert_eq!(
        message.to_frame(),
        "{\"event\":\"chat\",\"message\":\"hi\",\"sender_id\":\"2\"}"
    );
}

#[test]
fn mailbox_payload_becomes_the_same_frame() {
    let payload = encode_payload("chat", "quote \" and \\ and \n", 2);
    assert_eq!(outbound_frame(&payload), Some(payload.clone()));
    assert_eq!(outbound_frame("{\"event\":\"chat\"}"), None);
    assert_eq!(outbound_frame("{"), None);
    assert_eq!(
        outbound_frame("{\"sender_id\":\"9\",\"message\":\"b\",\"event\":\"a\",\"more\":true}"),
        Some("{\"event\":\"a\",\"message\":\"b\",\"sender_id\":\"9\"}".to_string())
    );
}
