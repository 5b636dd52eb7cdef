//! What the relay's rules add up to: who can be reached, and who cannot.

use crate::decimal::decimal_text;
use crate::server::{
    delivered_to, first_with_connection, first_with_user, is_first_with_connection,
    is_first_with_user, lemma_first_with_connection_is, lemma_first_with_user_none, newcomer,
    received, registered, routed, settled, unregistered, Delivery, ParticipantView, Recipient,
    RelayView,
};
use crate::user_type::UserType;
use crate::wire::{outbound_text, payload_text};
use tokio::sync::mpsc::UnboundedSender;
use vstd::prelude::*;

verus! {

/// Whether `to` is a place that the roster has.
pub open spec fn has_place(relay: RelayView, to: Recipient) -> bool {
    match to {
        Recipient::Proctor => relay.proctor.is_some(),
        Recipient::Member(at) => 0 <= at < relay.members.len(),
    }
}

/// The participant at a place of the roster.
pub open spec fn participant_at(relay: RelayView, to: Recipient) -> ParticipantView {
    match to {
        Recipient::Proctor => relay.proctor.unwrap(),
        Recipient::Member(at) => relay.members[at],
    }
}

/// Whether somebody in the roster came through connection `connection_id`.
pub open spec fn knows_connection(relay: RelayView, connection_id: Seq<char>) -> bool {
    ||| relay.proctor_has_connection(connection_id)
    ||| exists|at: int|
        0 <= at < relay.members.len() && (#[trigger] relay.members[at]).connection_id
            == connection_id
}

/// Whether everybody in the roster came through a connection of their own.
/// A relay whose callers register each connection id once is in this state.
pub open spec fn connections_distinct(relay: RelayView) -> bool {
    &&& forall|one: int, other: int|
        0 <= one < other < relay.members.len() ==> (#[trigger] relay.members[one]).connection_id
            != (#[trigger] relay.members[other]).connection_id
    &&& forall|at: int|
        0 <= at < relay.members.len() ==> !relay.proctor_has_connection(
            (#[trigger] relay.members[at]).connection_id,
        )
}

/// Whoever `routed` names has a place in the roster.
pub proof fn lemma_routed_has_place(
    relay: RelayView,
    sender_role: UserType,
    sender_id: i32,
    recipient_id: i64,
)
    ensures
        routed(relay, sender_role, sender_id, recipient_id) matches Ok(to) ==> has_place(relay, to),
{
    if let Some(at) = first_with_user(relay.members, recipient_id as int) {
        assert(is_first_with_user(relay.members, recipient_id as int, at));
    }
}

/// A relay has one proctor at most, and a proctor who registers takes the
/// place of the one before: after two proctors have registered in turn, the
/// second holds the place, the members are who they were, and every member's
/// text is routed to the second proctor's mailbox.
pub proof fn lemma_second_proctor_replaces_first(
    relay: RelayView,
    first_channel: UnboundedSender<String>,
    first_id: i32,
    first_connection: Seq<char>,
    second_channel: UnboundedSender<String>,
    second_id: i32,
    second_connection: Seq<char>,
    sender_id: i32,
    recipient_id: i64,
    text: Seq<char>,
)
    ensures
        ({
            let once = registered(
                relay,
                UserType::Proctor,
                first_channel,
                first_id,
                first_connection,
            );
            let twice = registered(
                once,
                UserType::Proctor,
                second_channel,
                second_id,
                second_connection,
            );
            &&& twice.proctor == Some(newcomer(second_channel, second_id, second_connection))
            &&& twice.proctor_id() == second_id
            &&& twice.members == relay.members
            &&& routed(twice, UserType::Member, sender_id, recipient_id) == Ok::<
                Recipient,
                Delivery,
            >(Recipient::Proctor)
            &&& delivered_to(twice, Recipient::Proctor, text).proctor == Some(
                received(newcomer(second_channel, second_id, second_connection), text),
            )
            &&& delivered_to(twice, Recipient::Proctor, text).members == relay.members
        }),
{
}

/// Registering a connection id that the roster does not know keeps every
/// connection id in it distinct.
pub proof fn lemma_fresh_registration_keeps_distinct(
    relay: RelayView,
    role: UserType,
    channel: UnboundedSender<String>,
    user_id: i32,
    connection_id: Seq<char>,
)
    requires
        connections_distinct(relay),
        !knows_connection(relay, connection_id),
    ensures
        connections_distinct(registered(relay, role, channel, user_id, connection_id)),
{
    let after = registered(relay, role, channel, user_id, connection_id);
    match role {
        UserType::Member => {
            assert forall|one: int, other: int| 0 <= one < other < after.members.len() implies (
            #[trigger] after.members[one]).connection_id != (
            #[trigger] after.members[other]).connection_id by {
                if other < relay.members.len() {
                    assert(after.members[one] == relay.members[one]);
                    assert(after.members[other] == relay.members[other]);
                } else {
                    assert(after.members[one] == relay.members[one]);
                }
            }
            assert forall|at: int| 0 <= at < after.members.len() implies !after.proctor_has_connection(
                (#[trigger] after.members[at]).connection_id,
            ) by {
                if at < relay.members.len() {
                    assert(after.members[at] == relay.members[at]);
                }
            }
        },
        UserType::Proctor => {
            assert forall|at: int| 0 <= at < after.members.len() implies !after.proctor_has_connection(
                (#[trigger] after.members[at]).connection_id,
            ) by {
                assert(relay.members[at].connection_id != connection_id);
            }
        },
        UserType::Admin => {},
    }
}

/// Once a connection has been unregistered from a roster of distinct
/// connection ids, nobody in the roster came through it, and the ids that
/// remain are still distinct.
pub proof fn lemma_unregistered_connection_is_gone(relay: RelayView, connection_id: Seq<char>)
    requires
        connections_distinct(relay),
    ensures
        !knows_connection(unregistered(relay, connection_id), connection_id),
        connections_distinct(unregistered(relay, connection_id)),
{
    let after = unregistered(relay, connection_id);
    if relay.proctor_has_connection(connection_id) {
        assert forall|at: int| 0 <= at < after.members.len() implies (
        #[trigger] after.members[at]).connection_id != connection_id by {
            assert(!relay.proctor_has_connection(relay.members[at].connection_id));
        }
    } else {
        match first_with_connection(relay.members, connection_id) {
            Some(gone) => {
                assert(is_first_with_connection(relay.members, connection_id, gone));
                assert forall|at: int| 0 <= at < after.members.len() implies (
                #[trigger] after.members[at]).connection_id != connection_id by {
                    if at < gone {
                        assert(after.members[at] == relay.members[at]);
                    } else {
                        assert(after.members[at] == relay.members[at + 1]);
                        assert(relay.members[gone].connection_id != relay.members[at
                            + 1].connection_id);
                    }
                }
                assert forall|one: int, other: int|
                    0 <= one < other < after.members.len() implies (
                #[trigger] after.members[one]).connection_id != (
                #[trigger] after.members[other]).connection_id by {
                    let one_before = if one < gone {
                        one
                    } else {
                        one + 1
                    };
                    let other_before = if other < gone {
                        other
                    } else {
                        other + 1
                    };
                    assert(after.members[one] == relay.members[one_before]);
                    assert(after.members[other] == relay.members[other_before]);
                    assert(relay.members[one_before].connection_id
                        != relay.members[other_before].connection_id);
                }
                assert forall|at: int| 0 <= at < after.members.len() implies !after.proctor_has_connection(
                    (#[trigger] after.members[at]).connection_id,
                ) by {
                    let at_before = if at < gone {
                        at
                    } else {
                        at + 1
                    };
                    assert(after.members[at] == relay.members[at_before]);
                    assert(!relay.proctor_has_connection(relay.members[at_before].connection_id));
                }
            },
            None => {
                assert forall|at: int| 0 <= at < relay.members.len() implies (
                #[trigger] relay.members[at]).connection_id != connection_id by {
                    if relay.members[at].connection_id == connection_id {
                        lemma_some_first_connection(relay.members, connection_id, at);
                    }
                }
            },
        }
    }
}

/// Where some member came through a connection, a first one did.
pub proof fn lemma_some_first_connection(
    members: Seq<ParticipantView>,
    connection_id: Seq<char>,
    at: int,
)
    requires
        0 <= at < members.len(),
        members[at].connection_id == connection_id,
    ensures
        first_with_connection(members, connection_id).is_some(),
    decreases at,
{
    if exists|before: int| 0 <= before < at && (#[trigger] members[before]).connection_id == connection_id {
        let before = choose|before: int|
            0 <= before < at && (#[trigger] members[before]).connection_id == connection_id;
        lemma_some_first_connection(members, connection_id, before);
    } else {
        assert(is_first_with_connection(members, connection_id, at));
    }
}

/// After a connection has been unregistered from a roster of distinct
/// connection ids, no routing reaches it: whoever a text is routed to came
/// through another connection, and every attempt still ends in an outcome.
pub proof fn lemma_unregistered_is_unreachable(
    relay: RelayView,
    connection_id: Seq<char>,
    sender_role: UserType,
    sender_id: i32,
    recipient_id: i64,
)
    requires
        connections_distinct(relay),
    ensures
        routed(unregistered(relay, connection_id), sender_role, sender_id, recipient_id) matches Ok(
            to,
        ) ==> has_place(unregistered(relay, connection_id), to) && participant_at(
            unregistered(relay, connection_id),
            to,
        ).connection_id != connection_id,
{
    let after = unregistered(relay, connection_id);
    lemma_unregistered_connection_is_gone(relay, connection_id);
    lemma_routed_has_place(after, sender_role, sender_id, recipient_id);
}

/// After the only member with a user id has been unregistered, a proctor's
/// text for that user id is dropped: nobody receives it.
pub proof fn lemma_unregistered_member_gets_nothing(
    relay: RelayView,
    connection_id: Seq<char>,
    gone: int,
    sender_id: i32,
)
    requires
        !relay.proctor_has_connection(connection_id),
        is_first_with_connection(relay.members, connection_id, gone),
        forall|at: int|
            0 <= at < relay.members.len() && at != gone ==> (#[trigger] relay.members[at]).user_id
                != relay.members[gone].user_id,
    ensures
        routed(
            unregistered(relay, connection_id),
            UserType::Proctor,
            sender_id,
            relay.members[gone].user_id as i64,
        ) is Err,
{
    lemma_first_with_connection_is(relay.members, connection_id, gone);
    let after = unregistered(relay, connection_id);
    let user_id = relay.members[gone].user_id;
    assert forall|at: int| 0 <= at < after.members.len() implies (#[trigger] after.members[at]).user_id
        != user_id by {
        if at < gone {
            assert(after.members[at] == relay.members[at]);
        } else {
            assert(after.members[at] == relay.members[at + 1]);
        }
    }
    lemma_first_with_user_none(after.members, user_id as int);
}

/// Unregistering a connection that nobody came through changes nothing.
pub proof fn lemma_unknown_connection_is_no_op(relay: RelayView, connection_id: Seq<char>)
    requires
        !knows_connection(relay, connection_id),
    ensures
        unregistered(relay, connection_id) == relay,
{
    if let Some(at) = first_with_connection(relay.members, connection_id) {
        assert(is_first_with_connection(relay.members, connection_id, at));
    }
}

/// In a roster of distinct connection ids, unregistering the same connection
/// a second time changes nothing.
pub proof fn lemma_second_unregister_is_no_op(relay: RelayView, connection_id: Seq<char>)
    requires
        connections_distinct(relay),
    ensures
        unregistered(unregistered(relay, connection_id), connection_id) == unregistered(
            relay,
            connection_id,
        ),
{
    lemma_unregistered_connection_is_gone(relay, connection_id);
    lemma_unknown_connection_is_no_op(unregistered(relay, connection_id), connection_id);
}

/// Unregistering a connection leaves everybody else as they were: the proctor
/// stays unless the connection was the proctor's, and the members that stay
/// keep their records and their order; at most one member leaves.
pub proof fn lemma_unregister_spares_the_others(relay: RelayView, connection_id: Seq<char>)
    ensures
        ({
            let after = unregistered(relay, connection_id);
            &&& !relay.proctor_has_connection(connection_id) ==> after.proctor == relay.proctor
            &&& relay.proctor_has_connection(connection_id) ==> after.members == relay.members
            &&& after.members == relay.members || exists|gone: int|
                is_first_with_connection(relay.members, connection_id, gone) && after.members
                    == relay.members.remove(gone)
        }),
{
    if !relay.proctor_has_connection(connection_id) {
        if let Some(at) = first_with_connection(relay.members, connection_id) {
            assert(is_first_with_connection(relay.members, connection_id, at));
        }
    }
}

/// A member's text goes to the proctor, whatever recipient the member names:
/// if the proctor's mailbox takes it, the proctor has received the envelope
/// of the event, the message and the member's id in decimal, and nobody else
/// has received anything.
pub proof fn lemma_member_text_reaches_proctor(
    before: RelayView,
    after: RelayView,
    outcome: Delivery,
    sender_id: i32,
    recipient_id: i64,
    event: Seq<char>,
    message: Seq<char>,
)
    requires
        before.proctor.is_some(),
        settled(
            before,
            after,
            outcome,
            routed(before, UserType::Member, sender_id, recipient_id),
            payload_text(event, message, sender_id as int),
        ),
    ensures
        outcome == Delivery::Delivered || outcome == Delivery::MailboxClosed,
        after.members == before.members,
        outcome == Delivery::Delivered ==> after.proctor == Some(
            received(
                before.proctor.unwrap(),
                outbound_text(event, message, decimal_text(sender_id as int)),
            ),
        ),
        outcome == Delivery::MailboxClosed ==> after == before,
{
}

/// Whom a member's text is routed to does not depend on the recipient that
/// the member names.
pub proof fn lemma_member_recipient_is_ignored(
    relay: RelayView,
    sender_id: i32,
    one_recipient: i64,
    other_recipient: i64,
)
    ensures
        routed(relay, UserType::Member, sender_id, one_recipient) == routed(
            relay,
            UserType::Member,
            sender_id,
            other_recipient,
        ),
{
}

/// A number that is no user id names nobody: a proctor's text for it is
/// dropped, whoever is in the roster.
pub proof fn lemma_number_outside_user_ids_names_nobody(
    relay: RelayView,
    sender_id: i32,
    recipient_id: i64,
)
    requires
        recipient_id < i32::MIN || recipient_id > i32::MAX,
    ensures
        routed(relay, UserType::Proctor, sender_id, recipient_id) == Err::<Recipient, Delivery>(
            Delivery::UnknownRecipient,
        ),
{
    lemma_first_with_user_none(relay.members, recipient_id as int);
}

/// A proctor's text for a number reaches members only, and only one whose
/// user id is that number: the proctor and every member with another user id
/// are left as they were, nobody joins or leaves, and at most the first
/// member with that user id has received the text. Where no member has that
/// user id the text is dropped and nothing changes.
pub proof fn lemma_proctor_text_reaches_addressed_member_only(
    before: RelayView,
    after: RelayView,
    outcome: Delivery,
    sender_id: i32,
    recipient_id: i64,
    text: Seq<char>,
)
    requires
        settled(
            before,
            after,
            outcome,
            routed(before, UserType::Proctor, sender_id, recipient_id),
            text,
        ),
    ensures
        after.proctor == before.proctor,
        after.members.len() == before.members.len(),
        forall|at: int|
            0 <= at < before.members.len() && (#[trigger] before.members[at]).user_id
                != recipient_id ==> after.members[at] == before.members[at],
        outcome == Delivery::Delivered ==> exists|at: int|
            is_first_with_user(before.members, recipient_id as int, at) && after.members
                == before.members.update(at, received(before.members[at], text)),
        (forall|at: int|
            0 <= at < before.members.len() ==> (#[trigger] before.members[at]).user_id
                != recipient_id) ==> after == before && (outcome == Delivery::UnknownRecipient
            || outcome == Delivery::SelfAddressed),
{
    if let Some(at) = first_with_user(before.members, recipient_id as int) {
        assert(is_first_with_user(before.members, recipient_id as int, at));
    }
}

} // verus!
