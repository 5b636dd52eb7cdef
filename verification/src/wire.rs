//! The JSON texts that cross a socket or sit in a mailbox.
//!
//! Reading and escaping JSON is left to `serde_json`; which members a frame
//! must have, what an absent or ill-typed member means, and how an envelope
//! is laid out are decided here.

use crate::decimal::{decimal_text, id_to_string};
use serde_json::Value;
use vstd::prelude::*;
use vstd::string::StringExecFns;

verus! {

/// `serde_json::Value`, a JSON document or a part of one. It is read
/// through `serde_json`'s own functions only.
#[verifier::external_type_specification]
#[verifier::external_body]
pub struct ExValue(Value);

/// The value that `serde_json` reads from a text, if the text is JSON.
pub uninterp spec fn json_document(text: Seq<char>) -> Option<Value>;

/// The member of a JSON object under a key; nothing if the value is no
/// object or has no such member.
pub uninterp spec fn json_member(value: Value, key: Seq<char>) -> Option<Value>;

/// The text of a JSON string; nothing for every other kind of value.
pub uninterp spec fn json_text(value: Value) -> Option<Seq<char>>;

/// The number of a JSON integer that fits in 64 signed bits; nothing for
/// every other value.
pub uninterp spec fn json_integer(value: Value) -> Option<i64>;

/// A text as a JSON string literal: quoted, and escaped as `serde_json`
/// escapes.
pub uninterp spec fn json_string_literal(text: Seq<char>) -> Seq<char>;

/// Calls `serde_json::from_str` for a `Value`. The result depends on the text
/// alone: the parsed document, or nothing where the parser reports an error
/// (text that is no JSON, nesting beyond its depth limit, trailing characters).
#[verifier::external_body]
fn parse_document(text: &str) -> (document: Option<Value>)
    ensures
        document == json_document(text@),
{
    serde_json::from_str::<Value>(text).ok()
}

/// Calls `serde_json::Value::get` with a string key: the member of an object
/// under that key, nothing for a missing key or a value that is no object.
#[verifier::external_body]
fn member_of<'a>(value: &'a Value, key: &str) -> (member: Option<&'a Value>)
    ensures
        match member {
            Some(found) => json_member(*value, key@) == Some(*found),
            None => json_member(*value, key@).is_none(),
        },
{
    value.get(key)
}

/// Calls `serde_json::Value::as_str` and copies the text out: the contents of
/// a JSON string, nothing for any other value.
#[verifier::external_body]
fn text_of(value: &Value) -> (text: Option<String>)
    ensures
        match text {
            Some(found) => json_text(*value) == Some(found@),
            None => json_text(*value).is_none(),
        },
{
    value.as_str().map(str::to_owned)
}

/// Calls `serde_json::Value::as_i64`: the number, where the value is an
/// integer between `i64::MIN` and `i64::MAX`, and nothing otherwise.
#[verifier::external_body]
fn integer_of(value: &Value) -> (number: Option<i64>)
    ensures
        number == json_integer(*value),
{
    value.as_i64()
}

/// Renders a text as a JSON string through `serde_json`'s `Display` for
/// `Value::String`: the compact form, quotes included.
#[verifier::external_body]
fn quote(text: &str) -> (literal: String)
    ensures
        literal@ == json_string_literal(text@),
{
    Value::String(text.to_owned()).to_string()
}

/// The text of a member as a frame uses it: the contents of a string, and
/// the empty text for a member of any other kind.
pub open spec fn text_or_empty(text: Option<Seq<char>>) -> Seq<char> {
    match text {
        Some(found) => found,
        None => Seq::empty(),
    }
}

/// The compact JSON object of an envelope whose three values are already
/// JSON string literals.
pub open spec fn envelope_text(event: Seq<char>, message: Seq<char>, sender_id: Seq<char>) -> Seq<
    char,
> {
    "{\"event\":"@ + event + ",\"message\":"@ + message + ",\"sender_id\":"@ + sender_id + "}"@
}

/// The envelope that carries `event` and `message` from `sender_id`.
pub open spec fn outbound_text(event: Seq<char>, message: Seq<char>, sender_id: Seq<char>) -> Seq<
    char,
> {
    envelope_text(
        json_string_literal(event),
        json_string_literal(message),
        json_string_literal(sender_id),
    )
}

/// The payload the relay delivers for a message of user `sender_id`.
pub open spec fn payload_text(event: Seq<char>, message: Seq<char>, sender_id: int) -> Seq<char> {
    outbound_text(event, message, decimal_text(sender_id))
}

/// Lays out an envelope from three JSON string literals.
pub fn assemble_envelope(event: &str, message: &str, sender_id: &str) -> (text: String)
    ensures
        text@ == envelope_text(event@, message@, sender_id@),
{
    let mut text = String::from_str("{\"event\":");
    text.append(event);
    text.append(",\"message\":");
    text.append(message);
    text.append(",\"sender_id\":");
    text.append(sender_id);
    text.append("}");
    text
}

/// The envelope text for `event` and `message` with a sender already written
/// as text.
pub fn encode_outbound(event: &str, message: &str, sender_id: &str) -> (text: String)
    ensures
        text@ == outbound_text(event@, message@, sender_id@),
{
    let event_literal = quote(event);
    let message_literal = quote(message);
    let sender_literal = quote(sender_id);
    assemble_envelope(event_literal.as_str(), message_literal.as_str(), sender_literal.as_str())
}

/// The payload the relay delivers for a message of user `sender_id`: the
/// sender is written in decimal.
pub fn encode_payload(event: &str, message: &str, sender_id: i32) -> (text: String)
    ensures
        text@ == payload_text(event@, message@, sender_id as int),
{
    let sender = id_to_string(sender_id);
    encode_outbound(event, message, sender.as_str())
}

/// A client's request, read from a text frame. `participant` is the number
/// that the frame names as recipient, as the frame gives it: it need not be
/// anybody's user id.
pub struct InboundEnvelope {
    pub event: String,
    pub message: String,
    pub participant: i64,
}

/// An inbound envelope as contracts see it.
pub struct InboundView {
    pub event: Seq<char>,
    pub message: Seq<char>,
    pub participant: i64,
}

impl View for InboundEnvelope {
    type V = InboundView;

    open spec fn view(&self) -> InboundView {
        InboundView { event: self.event@, message: self.message@, participant: self.participant }
    }
}

/// The view of an optional text.
pub open spec fn text_view(text: Option<String>) -> Option<Seq<char>> {
    match text {
        Some(found) => Some(found@),
        None => None,
    }
}

/// The envelope that three members make. Each argument is nothing where the
/// member is absent; for `event` and `message` the inner value is nothing
/// where the member is present but no string. An envelope needs all three
/// members, and a `participant` that is an integer of 64 signed bits; it
/// keeps that integer as it is.
pub open spec fn inbound_of(
    event: Option<Option<Seq<char>>>,
    message: Option<Option<Seq<char>>>,
    participant: Option<i64>,
) -> Option<InboundView> {
    if event.is_some() && message.is_some() && participant.is_some() {
        Some(
            InboundView {
                event: text_or_empty(event.unwrap()),
                message: text_or_empty(message.unwrap()),
                participant: participant.unwrap(),
            },
        )
    } else {
        None
    }
}

/// What `serde_json` finds under `key` in a document, as a string member.
pub open spec fn text_member(document: Value, key: Seq<char>) -> Option<Option<Seq<char>>> {
    match json_member(document, key) {
        Some(member) => Some(json_text(member)),
        None => None,
    }
}

/// What `serde_json` finds under `key` in a document, as an integer member.
/// A member of another kind counts as absent.
pub open spec fn integer_member(document: Value, key: Seq<char>) -> Option<i64> {
    match json_member(document, key) {
        Some(member) => json_integer(member),
        None => None,
    }
}

/// The envelope in a text frame: nothing for text that is no JSON, and
/// otherwise what its members `event`, `message` and `participant` make.
pub open spec fn inbound_in(frame: Seq<char>) -> Option<InboundView> {
    match json_document(frame) {
        Some(document) => inbound_of(
            text_member(document, "event"@),
            text_member(document, "message"@),
            integer_member(document, "participant"@),
        ),
        None => None,
    }
}

fn read_text_member(document: &Value, key: &str) -> (found: Option<Option<String>>)
    ensures
        match found {
            Some(text) => text_member(*document, key@) == Some(text_view(text)),
            None => text_member(*document, key@).is_none(),
        },
{
    match member_of(document, key) {
        Some(member) => Some(text_of(member)),
        None => None,
    }
}

fn read_integer_member(document: &Value, key: &str) -> (found: Option<i64>)
    ensures
        found == integer_member(*document, key@),
{
    match member_of(document, key) {
        Some(member) => integer_of(member),
        None => None,
    }
}

fn unwrap_or_empty(text: Option<String>) -> (found: String)
    ensures
        found@ == text_or_empty(text_view(text)),
{
    match text {
        Some(found) => found,
        None => String::new(),
    }
}

/// The view of a member that may be absent, and may be no string.
pub open spec fn member_view(member: Option<Option<String>>) -> Option<Option<Seq<char>>> {
    match member {
        Some(text) => Some(text_view(text)),
        None => None,
    }
}

/// The view of an optional envelope.
pub open spec fn inbound_view(envelope: Option<InboundEnvelope>) -> Option<InboundView> {
    match envelope {
        Some(found) => Some(found@),
        None => None,
    }
}

impl InboundEnvelope {
    /// Makes an envelope of the three members read from a frame, or nothing
    /// where one of them is missing.
    pub fn from_members(
        event: Option<Option<String>>,
        message: Option<Option<String>>,
        participant: Option<i64>,
    ) -> (envelope: Option<InboundEnvelope>)
        ensures
            inbound_view(envelope) == inbound_of(
                member_view(event),
                member_view(message),
                participant,
            ),
    {
        match (event, message, participant) {
            (Some(event), Some(message), Some(participant)) => Some(
                InboundEnvelope {
                    event: unwrap_or_empty(event),
                    message: unwrap_or_empty(message),
                    participant,
                },
            ),
            _ => None,
        }
    }

    /// Reads the envelope from a text frame. A frame that is no JSON, or
    /// lacks a member, gives nothing.
    pub fn decode(frame: &str) -> (envelope: Option<InboundEnvelope>)
        ensures
            inbound_view(envelope) == inbound_in(frame@),
    {
        match parse_document(frame) {
            Some(document) => {
                let event = read_text_member(&document, "event");
                let message = read_text_member(&document, "message");
                let participant = read_integer_member(&document, "participant");
                InboundEnvelope::from_members(event, message, participant)
            },
            None => None,
        }
    }
}

/// What a session writes to its socket for one text taken from its mailbox:
/// the message, the event, and the sender's id as text, in this order.
pub struct TextMessage(pub String, pub String, pub String);

/// A text message as contracts see it.
pub struct TextMessageView {
    pub message: Seq<char>,
    pub event: Seq<char>,
    pub sender_id: Seq<char>,
}

impl View for TextMessage {
    type V = TextMessageView;

    open spec fn view(&self) -> TextMessageView {
        TextMessageView { message: self.0@, event: self.1@, sender_id: self.2@ }
    }
}

/// The text message that three members of a payload make. Each argument is
/// nothing where the member is absent, and holds nothing where the member is
/// present but no string. A text message needs all three members.
pub open spec fn text_message_of(
    event: Option<Option<Seq<char>>>,
    message: Option<Option<Seq<char>>>,
    sender_id: Option<Option<Seq<char>>>,
) -> Option<TextMessageView> {
    if event.is_some() && message.is_some() && sender_id.is_some() {
        Some(
            TextMessageView {
                message: text_or_empty(message.unwrap()),
                event: text_or_empty(event.unwrap()),
                sender_id: text_or_empty(sender_id.unwrap()),
            },
        )
    } else {
        None
    }
}

/// The text message in a mailbox payload: nothing for text that is no JSON,
/// and otherwise what its members `event`, `message` and `sender_id` make.
pub open spec fn text_message_in(payload: Seq<char>) -> Option<TextMessageView> {
    match json_document(payload) {
        Some(document) => text_message_of(
            text_member(document, "event"@),
            text_member(document, "message"@),
            text_member(document, "sender_id"@),
        ),
        None => None,
    }
}

/// The view of an optional text message.
pub open spec fn text_message_view(message: Option<TextMessage>) -> Option<TextMessageView> {
    match message {
        Some(found) => Some(found@),
        None => None,
    }
}

/// The frame that a session writes for a mailbox payload, if it writes one.
pub open spec fn frame_for(payload: Seq<char>) -> Option<Seq<char>> {
    match text_message_in(payload) {
        Some(found) => Some(outbound_text(found.event, found.message, found.sender_id)),
        None => None,
    }
}

impl TextMessage {
    /// Makes a text message of the three members read from a payload, or
    /// nothing where one of them is missing.
    pub fn from_members(
        event: Option<Option<String>>,
        message: Option<Option<String>>,
        sender_id: Option<Option<String>>,
    ) -> (found: Option<TextMessage>)
        ensures
            text_message_view(found) == text_message_of(
                member_view(event),
                member_view(message),
                member_view(sender_id),
            ),
    {
        match (event, message, sender_id) {
            (Some(event), Some(message), Some(sender_id)) => Some(
                TextMessage(
                    unwrap_or_empty(message),
                    unwrap_or_empty(event),
                    unwrap_or_empty(sender_id),
                ),
            ),
            _ => None,
        }
    }

    /// Reads the text message from a mailbox payload. A payload that is no
    /// JSON, or lacks a member, gives nothing.
    pub fn decode(payload: &str) -> (found: Option<TextMessage>)
        ensures
            text_message_view(found) == text_message_in(payload@),
    {
        match parse_document(payload) {
            Some(document) => {
                let event = read_text_member(&document, "event");
                let message = read_text_member(&document, "message");
                let sender_id = read_text_member(&document, "sender_id");
                TextMessage::from_members(event, message, sender_id)
            },
            None => None,
        }
    }

    /// The text frame that carries this message to the client.
    pub fn to_frame(&self) -> (frame: String)
        ensures
            frame@ == outbound_text(self@.event, self@.message, self@.sender_id),
    {
        encode_outbound(self.1.as_str(), self.0.as_str(), self.2.as_str())
    }
}

/// Turns a text taken from a mailbox into the frame to write, or into
/// nothing where the text holds no message.
pub fn outbound_frame(payload: &str) -> (frame: Option<String>)
    ensures
        text_view(frame) == frame_for(payload@),
{
    match TextMessage::decode(payload) {
        Some(found) => Some(found.to_frame()),
        None => None,
    }
}

} // verus!
