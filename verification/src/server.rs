//! The relay of one room: its roster, and who receives what.

use crate::mailbox::{Mailbox, MailboxView};
use crate::user_type::UserType;
use crate::wire::{encode_payload, payload_text};
use tokio::sync::mpsc::UnboundedSender;
use vstd::prelude::*;

verus! {

/// One connection in a room: who it is, which socket it came through, and
/// where texts for it go.
pub struct Participant {
    pub sender: Mailbox,
    pub id: i32,
    pub connection_id: String,
}

/// A participant as contracts see it.
#[verifier::ext_equal]
pub struct ParticipantView {
    pub user_id: i32,
    pub connection_id: Seq<char>,
    pub mailbox: MailboxView,
}

impl View for Participant {
    type V = ParticipantView;

    open spec fn view(&self) -> ParticipantView {
        ParticipantView {
            user_id: self.id,
            connection_id: self.connection_id@,
            mailbox: self.sender@,
        }
    }
}

/// A relay as contracts see it: the proctor, if one is registered, and the
/// members in the order in which they registered.
#[verifier::ext_equal]
pub struct RelayView {
    pub proctor: Option<ParticipantView>,
    pub members: Seq<ParticipantView>,
}

/// The user id that stands for "no proctor". It is never delivered to.
pub const NO_PROCTOR: i32 = 0;

/// The participant that a registration creates: nothing delivered yet.
pub open spec fn newcomer(
    channel: UnboundedSender<String>,
    user_id: i32,
    connection_id: Seq<char>,
) -> ParticipantView {
    ParticipantView {
        user_id,
        connection_id,
        mailbox: MailboxView { channel, delivered: Seq::empty() },
    }
}

/// The roster after a registration. A proctor takes the proctor's place,
/// whoever held it; a member joins behind the others; no other role is
/// taken in.
pub open spec fn registered(
    relay: RelayView,
    role: UserType,
    channel: UnboundedSender<String>,
    user_id: i32,
    connection_id: Seq<char>,
) -> RelayView {
    match role {
        UserType::Member => RelayView {
            proctor: relay.proctor,
            members: relay.members.push(newcomer(channel, user_id, connection_id)),
        },
        UserType::Proctor => RelayView {
            proctor: Some(newcomer(channel, user_id, connection_id)),
            members: relay.members,
        },
        UserType::Admin => relay,
    }
}

/// Whether `at` is the place of the first member whose user id is the
/// number `user_id`. A number that is no user id is nobody's.
pub open spec fn is_first_with_user(members: Seq<ParticipantView>, user_id: int, at: int) -> bool {
    &&& 0 <= at < members.len()
    &&& members[at].user_id == user_id
    &&& forall|before: int| 0 <= before < at ==> (#[trigger] members[before]).user_id != user_id
}

/// The place of the first member whose user id is the number `user_id`, if
/// there is one.
pub open spec fn first_with_user(members: Seq<ParticipantView>, user_id: int) -> Option<int> {
    if exists|at: int| is_first_with_user(members, user_id, at) {
        Some(choose|at: int| is_first_with_user(members, user_id, at))
    } else {
        None
    }
}

/// Whether `at` is the place of the first member that came through
/// connection `connection_id`.
pub open spec fn is_first_with_connection(
    members: Seq<ParticipantView>,
    connection_id: Seq<char>,
    at: int,
) -> bool {
    &&& 0 <= at < members.len()
    &&& members[at].connection_id == connection_id
    &&& forall|before: int|
        0 <= before < at ==> (#[trigger] members[before]).connection_id != connection_id
}

/// The place of the first member that came through connection
/// `connection_id`, if there is one.
pub open spec fn first_with_connection(
    members: Seq<ParticipantView>,
    connection_id: Seq<char>,
) -> Option<int> {
    if exists|at: int| is_first_with_connection(members, connection_id, at) {
        Some(choose|at: int| is_first_with_connection(members, connection_id, at))
    } else {
        None
    }
}

/// The first member with a user id has one place only.
pub proof fn lemma_first_with_user_is(members: Seq<ParticipantView>, user_id: int, at: int)
    requires
        is_first_with_user(members, user_id, at),
    ensures
        first_with_user(members, user_id) == Some(at),
{
    let chosen = choose|at: int| is_first_with_user(members, user_id, at);
    assert(is_first_with_user(members, user_id, chosen));
    if chosen < at {
        assert(members[chosen].user_id != user_id);
    } else if at < chosen {
        assert(members[at].user_id != user_id);
    }
}

/// Where no member has a user id, there is no first one.
pub proof fn lemma_first_with_user_none(members: Seq<ParticipantView>, user_id: int)
    requires
        forall|at: int| 0 <= at < members.len() ==> (#[trigger] members[at]).user_id != user_id,
    ensures
        first_with_user(members, user_id).is_none(),
{
}

/// The first member of a connection has one place only.
pub proof fn lemma_first_with_connection_is(
    members: Seq<ParticipantView>,
    connection_id: Seq<char>,
    at: int,
)
    requires
        is_first_with_connection(members, connection_id, at),
    ensures
        first_with_connection(members, connection_id) == Some(at),
{
    let chosen = choose|at: int| is_first_with_connection(members, connection_id, at);
    assert(is_first_with_connection(members, connection_id, chosen));
    if chosen < at {
        assert(members[chosen].connection_id != connection_id);
    } else if at < chosen {
        assert(members[at].connection_id != connection_id);
    }
}

/// Where no member came through a connection, there is no first one.
pub proof fn lemma_first_with_connection_none(
    members: Seq<ParticipantView>,
    connection_id: Seq<char>,
)
    requires
        forall|at: int|
            0 <= at < members.len() ==> (#[trigger] members[at]).connection_id != connection_id,
    ensures
        first_with_connection(members, connection_id).is_none(),
{
}

impl RelayView {
    /// The proctor's user id, or `NO_PROCTOR` where none is registered.
    pub open spec fn proctor_id(self) -> i32 {
        match self.proctor {
            Some(proctor) => proctor.user_id,
            None => NO_PROCTOR,
        }
    }

    /// Whether the proctor came through connection `connection_id`.
    pub open spec fn proctor_has_connection(self, connection_id: Seq<char>) -> bool {
        self.proctor.is_some() && self.proctor.unwrap().connection_id == connection_id
    }
}

/// The roster after the connection `connection_id` has gone. The proctor
/// leaves if the connection is the proctor's; otherwise the first member of
/// that connection leaves; otherwise nobody does.
pub open spec fn unregistered(relay: RelayView, connection_id: Seq<char>) -> RelayView {
    if relay.proctor_has_connection(connection_id) {
        RelayView { proctor: None, members: relay.members }
    } else {
        match first_with_connection(relay.members, connection_id) {
            Some(at) => RelayView { proctor: relay.proctor, members: relay.members.remove(at) },
            None => relay,
        }
    }
}

/// How an attempt to deliver a text ended. None of these is reported to the
/// sender.
#[derive(Debug, Clone, Copy, PartialEq, Eq, Structural)]
pub enum Delivery {
    /// The recipient's mailbox took the text.
    Delivered,
    /// The recipient is in the roster, but its mailbox is closed.
    MailboxClosed,
    /// The text was for the proctor, and none is registered.
    NoProctor,
    /// No member has the user id that the text was for.
    UnknownRecipient,
    /// A proctor addressed its own user id.
    SelfAddressed,
    /// The sender's role holds no session.
    InvalidSender,
}

/// How the push into a recipient's mailbox ended.
pub open spec fn pushed(accepted: bool) -> Delivery {
    if accepted {
        Delivery::Delivered
    } else {
        Delivery::MailboxClosed
    }
}

impl Delivery {
    /// The outcome of a push that the mailbox accepted, or did not.
    pub fn of_push(accepted: bool) -> (outcome: Delivery)
        ensures
            outcome == pushed(accepted),
    {
        if accepted {
            Delivery::Delivered
        } else {
            Delivery::MailboxClosed
        }
    }
}

/// A place in the roster.
pub enum Recipient {
    Proctor,
    Member(int),
}

/// A participant after its mailbox has taken one more text.
pub open spec fn received(participant: ParticipantView, text: Seq<char>) -> ParticipantView {
    ParticipantView {
        user_id: participant.user_id,
        connection_id: participant.connection_id,
        mailbox: MailboxView {
            channel: participant.mailbox.channel,
            delivered: participant.mailbox.delivered.push(text),
        },
    }
}

/// The roster after the mailbox at `to` has taken `text`. Nobody else's
/// mailbox changes, and nobody joins or leaves.
pub open spec fn delivered_to(relay: RelayView, to: Recipient, text: Seq<char>) -> RelayView {
    match to {
        Recipient::Proctor => RelayView {
            proctor: Some(received(relay.proctor.unwrap(), text)),
            members: relay.members,
        },
        Recipient::Member(at) => RelayView {
            proctor: relay.proctor,
            members: relay.members.update(at, received(relay.members[at], text)),
        },
    }
}

/// Who has the user id `recipient_id`. The proctor's id, and the id that
/// stands for "no proctor" while none is registered, mean the proctor; any
/// other id means the first member that has it.
pub open spec fn addressee(relay: RelayView, recipient_id: i32) -> Result<Recipient, Delivery> {
    if recipient_id == relay.proctor_id() {
        if relay.proctor.is_some() {
            Ok(Recipient::Proctor)
        } else {
            Err(Delivery::NoProctor)
        }
    } else {
        match first_with_user(relay.members, recipient_id as int) {
            Some(at) => Ok(Recipient::Member(at)),
            None => Err(Delivery::UnknownRecipient),
        }
    }
}

/// Who receives what a sender of role `sender_role` sends, given the number
/// that the sender names as recipient. A member's text goes to the proctor,
/// whatever number it names. A proctor's text goes to the first member whose
/// user id is that number, and to nobody if the number is the proctor's own
/// user id or no member's: a number that is no user id at all names nobody.
/// No other role sends.
pub open spec fn routed(
    relay: RelayView,
    sender_role: UserType,
    sender_id: i32,
    recipient_id: i64,
) -> Result<Recipient, Delivery> {
    match sender_role {
        UserType::Member => if relay.proctor.is_some() {
            Ok(Recipient::Proctor)
        } else {
            Err(Delivery::NoProctor)
        },
        UserType::Proctor => if recipient_id == sender_id {
            Err(Delivery::SelfAddressed)
        } else {
            match first_with_user(relay.members, recipient_id as int) {
                Some(at) => Ok(Recipient::Member(at)),
                None => Err(Delivery::UnknownRecipient),
            }
        },
        UserType::Admin => Err(Delivery::InvalidSender),
    }
}

/// How a delivery may end, given who was to receive `text`. With a
/// recipient, either its mailbox took the text, or it was closed and nothing
/// changed. Without one, nothing changed and the outcome names the reason.
pub open spec fn settled(
    before: RelayView,
    after: RelayView,
    outcome: Delivery,
    decision: Result<Recipient, Delivery>,
    text: Seq<char>,
) -> bool {
    match decision {
        Ok(to) => {
            ||| outcome == pushed(true) && after == delivered_to(before, to, text)
            ||| outcome == pushed(false) && after == before
        },
        Err(reason) => outcome == reason && after == before,
    }
}

/// The relay of one room. At most one proctor holds the proctor's place; the
/// members stand in the order in which they registered.
pub struct WebSocketServer {
    proctor: Option<Participant>,
    participants: Vec<Participant>,
}

impl View for WebSocketServer {
    type V = RelayView;

    closed spec fn view(&self) -> RelayView {
        RelayView {
            proctor: match self.proctor {
                Some(proctor) => Some(proctor@),
                None => None,
            },
            members: self.participants@.map_values(|member: Participant| member@),
        }
    }
}

impl WebSocketServer {
    /// A relay with nobody in it.
    pub fn new() -> (relay: Self)
        ensures
            relay@.proctor.is_none(),
            relay@.members == Seq::<ParticipantView>::empty(),
    {
        let relay = WebSocketServer { proctor: None, participants: Vec::new() };
        assert(relay@.members =~= Seq::<ParticipantView>::empty());
        relay
    }

    /// Takes a connection into the roster. A proctor replaces the proctor
    /// registered before, who is told nothing and receives nothing more; a
    /// member is added, whether or not its user id is already present; a
    /// connection of any other role is not taken in.
    pub fn register(
        &mut self,
        user_type: UserType,
        sender: UnboundedSender<String>,
        user_id: i32,
        connection_id: String,
    )
        ensures
            final(self)@ == registered(old(self)@, user_type, sender, user_id, connection_id@),
    {
        match user_type {
            UserType::Member => {
                let member = Participant { sender: Mailbox::new(sender), id: user_id, connection_id };
                self.participants.push(member);
                assert(self@.members =~= old(self)@.members.push(member@));
            },
            UserType::Proctor => {
                self.proctor = Some(
                    Participant { sender: Mailbox::new(sender), id: user_id, connection_id },
                );
            },
            UserType::Admin => {},
        }
    }

    /// The user id of the proctor, or `NO_PROCTOR` where none is registered.
    pub fn get_proctor_id(&self) -> (id: i32)
        ensures
            id == self@.proctor_id(),
    {
        match &self.proctor {
            Some(proctor) => proctor.id,
            None => NO_PROCTOR,
        }
    }

    fn member_of_connection(&self, connection_id: &String) -> (found: Option<usize>)
        ensures
            match found {
                Some(at) => first_with_connection(self@.members, connection_id@) == Some(at as int),
                None => first_with_connection(self@.members, connection_id@).is_none(),
            },
    {
        let mut at: usize = 0;
        while at < self.participants.len()
            invariant
                at <= self.participants.len(),
                forall|before: int|
                    0 <= before < at ==> (#[trigger] self@.members[before]).connection_id
                        != connection_id@,
            decreases self.participants.len() - at,
        {
            if self.participants[at].connection_id == *connection_id {
                proof {
                    lemma_first_with_connection_is(self@.members, connection_id@, at as int);
                }
                return Some(at);
            }
            at += 1;
        }
        proof {
            lemma_first_with_connection_none(self@.members, connection_id@);
        }
        None
    }

    fn member_of_user(&self, user_id: i32) -> (found: Option<usize>)
        ensures
            match found {
                Some(at) => first_with_user(self@.members, user_id as int) == Some(at as int),
                None => first_with_user(self@.members, user_id as int).is_none(),
            },
    {
        let mut at: usize = 0;
        while at < self.participants.len()
            invariant
                at <= self.participants.len(),
                forall|before: int|
                    0 <= before < at ==> (#[trigger] self@.members[before]).user_id != user_id,
            decreases self.participants.len() - at,
        {
            if self.participants[at].id == user_id {
                proof {
                    lemma_first_with_user_is(self@.members, user_id as int, at as int);
                }
                return Some(at);
            }
            at += 1;
        }
        proof {
            lemma_first_with_user_none(self@.members, user_id as int);
        }
        None
    }

    /// The user id of the first member that came through `connection_id`.
    /// The proctor is not looked at.
    pub fn get_participant_id(&self, connection_id: String) -> (id: Option<i32>)
        ensures
            id == match first_with_connection(self@.members, connection_id@) {
                Some(at) => Some(self@.members[at].user_id),
                None => None,
            },
    {
        match self.member_of_connection(&connection_id) {
            Some(at) => Some(self.participants[at].id),
            None => None,
        }
    }

    /// Takes the connection `connection_id` out of the roster: the proctor
    /// if it is the proctor's, else the first member that came through it.
    /// A connection that nobody came through changes nothing.
    pub fn unregister(&mut self, connection_id: String)
        ensures
            final(self)@ == unregistered(old(self)@, connection_id@),
    {
        let is_proctor = match &self.proctor {
            Some(proctor) => proctor.connection_id == connection_id,
            None => false,
        };
        if is_proctor {
            self.proctor = None;
        } else {
            match self.member_of_connection(&connection_id) {
                Some(at) => {
                    self.participants.remove(at);
                    assert(self@.members =~= old(self)@.members.remove(at as int));
                },
                None => {},
            }
        }
    }
}

impl WebSocketServer {
    fn deliver_to_proctor(&mut self, payload: String) -> (outcome: Delivery)
        requires
            old(self)@.proctor.is_some(),
        ensures
            settled(old(self)@, final(self)@, outcome, Ok(Recipient::Proctor), payload@),
    {
        let accepted = match &mut self.proctor {
            Some(proctor) => proctor.sender.push(payload),
            None => false,
        };
        proof {
            if accepted {
                assert(self@ =~= delivered_to(old(self)@, Recipient::Proctor, payload@));
            } else {
                assert(self@ =~= old(self)@);
            }
        }
        Delivery::of_push(accepted)
    }

    fn deliver_to_member(&mut self, at: usize, payload: String) -> (outcome: Delivery)
        requires
            at < old(self)@.members.len(),
        ensures
            settled(
                old(self)@,
                final(self)@,
                outcome,
                Ok(Recipient::Member(at as int)),
                payload@,
            ),
    {
        let accepted = self.participants[at].sender.push(payload);
        proof {
            if accepted {
                assert(self@ =~= delivered_to(
                    old(self)@,
                    Recipient::Member(at as int),
                    payload@,
                ));
            } else {
                assert(self@ =~= old(self)@);
            }
        }
        Delivery::of_push(accepted)
    }

    /// Delivers a text from `sender_id` to whoever has the user id
    /// `recipient_id`, as `addressee` says, and reports how that ended. The
    /// text delivered is the envelope of `event`, `message` and the sender's
    /// id in decimal.
    pub fn send_to(&mut self, sender_id: i32, recipient_id: i32, message: String, event: String) -> (outcome:
        Delivery)
        ensures
            settled(
                old(self)@,
                final(self)@,
                outcome,
                addressee(old(self)@, recipient_id),
                payload_text(event@, message@, sender_id as int),
            ),
    {
        let payload = encode_payload(event.as_str(), message.as_str(), sender_id);
        if recipient_id == self.get_proctor_id() {
            if self.proctor.is_some() {
                self.deliver_to_proctor(payload)
            } else {
                Delivery::NoProctor
            }
        } else {
            match self.member_of_user(recipient_id) {
                Some(at) => self.deliver_to_member(at, payload),
                None => Delivery::UnknownRecipient,
            }
        }
    }

    /// Relays what a session of role `sender_role` and user id `sender_id`
    /// sent, as `routed` says, and reports how that ended. `recipient_id` is
    /// the number that the sender named as recipient, whatever its size. The
    /// text delivered is the envelope of `event`, `message` and the sender's
    /// id in decimal.
    pub fn route(
        &mut self,
        sender_role: UserType,
        sender_id: i32,
        recipient_id: i64,
        message: String,
        event: String,
    ) -> (outcome: Delivery)
        ensures
            settled(
                old(self)@,
                final(self)@,
                outcome,
                routed(old(self)@, sender_role, sender_id, recipient_id),
                payload_text(event@, message@, sender_id as int),
            ),
    {
        match sender_role {
            UserType::Member => {
                if self.proctor.is_some() {
                    let payload = encode_payload(event.as_str(), message.as_str(), sender_id);
                    self.deliver_to_proctor(payload)
                } else {
                    Delivery::NoProctor
                }
            },
            UserType::Proctor => {
                if recipient_id == sender_id as i64 {
                    Delivery::SelfAddressed
                } else if recipient_id < i32::MIN as i64 || recipient_id > i32::MAX as i64 {
                    proof {
                        lemma_first_with_user_none(self@.members, recipient_id as int);
                    }
                    Delivery::UnknownRecipient
                } else {
                    match self.member_of_user(recipient_id as i32) {
                        Some(at) => {
                            let payload = encode_payload(
                                event.as_str(),
                                message.as_str(),
                                sender_id,
                            );
                            self.deliver_to_member(at, payload)
                        },
                        None => Delivery::UnknownRecipient,
                    }
                }
            },
            UserType::Admin => Delivery::InvalidSender,
        }
    }
}

} // verus!
