//! One client's session: what it does to the relay when it starts, when a
//! frame arrives, and when it stops. Reading the socket and writing to it is
//! the caller's part; every decision is made here.

use crate::claims::{parsed_id, Claims};
use crate::entropy::random_bytes;
use crate::server::{
    delivered_to, registered, routed, settled, unregistered, Delivery, Recipient, RelayView,
    WebSocketServer,
};
use crate::user_type::{role_named, UserType};
use crate::wire::{inbound_in, payload_text, InboundEnvelope};
use tokio::sync::mpsc::UnboundedSender;
use vstd::prelude::*;

verus! {

/// The length of the random part of a connection id, in bytes.
pub const CONNECTION_ID_BYTES: usize = 16;

/// The length of a connection id, in characters.
pub const CONNECTION_ID_LENGTH: usize = 36;

/// The text of the version 4 UUID that 16 random bytes make: hyphenated, in
/// lower case.
pub uninterp spec fn uuid_v4_text(random: Seq<u8>) -> Seq<char>;

/// Makes a version 4 UUID of 16 random bytes with
/// `uuid::Builder::from_random_bytes` and writes it with its `Display`, which
/// gives the hyphenated lower-case form of 36 characters. The text depends on
/// the bytes alone.
#[verifier::external_body]
fn uuid_text(random: &[u8]) -> (text: String)
    requires
        random@.len() == CONNECTION_ID_BYTES,
    ensures
        text@ == uuid_v4_text(random@),
        text@.len() == CONNECTION_ID_LENGTH,
{
    let mut bytes = [0u8; 16];
    bytes.copy_from_slice(random);
    uuid::Builder::from_random_bytes(bytes).into_uuid().to_string()
}

/// Where a session stands. `Closed` is final.
#[derive(Debug, Clone, Copy, PartialEq, Eq, Structural)]
pub enum SessionState {
    Connecting,
    Active,
    Closed,
}

/// What arrived on the socket.
pub enum Frame {
    /// A text frame.
    Text(String),
    /// A ping with its payload.
    Ping(Vec<u8>),
    /// The client closed the connection.
    Close,
    /// The socket layer reported a protocol error.
    Failed,
    /// Any other frame.
    Other,
}

/// What the caller is to do after a frame has been handled.
pub enum Action {
    /// Nothing.
    Nothing,
    /// Nothing: the text frame held no envelope and was discarded.
    Discarded,
    /// Nothing: the envelope was handed to the relay, with this outcome.
    Routed(Delivery),
    /// Answer with a pong that carries these bytes.
    Pong(Vec<u8>),
    /// Stop the session.
    Stop,
}

/// The session of one client socket.
pub struct WebSocketActor {
    connection_id: String,
    room_id: String,
    user_type: UserType,
    user_id: i32,
    state: SessionState,
}

/// A session as contracts see it.
pub struct SessionView {
    pub connection_id: Seq<char>,
    pub room_id: Seq<char>,
    pub role: UserType,
    pub user_id: i32,
    pub state: SessionState,
}

impl SessionView {
    /// Whether this is a session that has not started yet, for the given
    /// room and user, under the connection id that some 16 bytes make.
    pub open spec fn is_fresh(self, room_id: Seq<char>, role: UserType, user_id: i32) -> bool {
        &&& self.room_id == room_id
        &&& self.role == role
        &&& self.user_id == user_id
        &&& self.state == SessionState::Connecting
        &&& self.connection_id.len() == CONNECTION_ID_LENGTH
        &&& exists|random: Seq<u8>|
            random.len() == CONNECTION_ID_BYTES && self.connection_id == #[trigger] uuid_v4_text(
                random,
            )
    }

    /// This session in another state.
    pub open spec fn in_state(self, state: SessionState) -> SessionView {
        SessionView {
            connection_id: self.connection_id,
            room_id: self.room_id,
            role: self.role,
            user_id: self.user_id,
            state,
        }
    }
}

impl View for WebSocketActor {
    type V = SessionView;

    closed spec fn view(&self) -> SessionView {
        SessionView {
            connection_id: self.connection_id@,
            room_id: self.room_id@,
            role: self.user_type,
            user_id: self.user_id,
            state: self.state,
        }
    }
}

/// What starting a session does. A connecting session of a member or a
/// proctor registers and becomes active. A connecting session of any other
/// role closes and leaves the relay alone. A session that is not connecting
/// does nothing.
pub open spec fn started(
    before: SessionView,
    after: SessionView,
    relay_before: RelayView,
    relay_after: RelayView,
    channel: UnboundedSender<String>,
    active: bool,
) -> bool {
    if before.state == SessionState::Connecting && before.role.may_connect() {
        &&& active
        &&& after == before.in_state(SessionState::Active)
        &&& relay_after == registered(
            relay_before,
            before.role,
            channel,
            before.user_id,
            before.connection_id,
        )
    } else if before.state == SessionState::Connecting {
        &&& !active
        &&& after == before.in_state(SessionState::Closed)
        &&& relay_after == relay_before
    } else {
        &&& !active
        &&& after == before
        &&& relay_after == relay_before
    }
}

/// What handling a frame does. Only an active session acts. A text frame
/// with an envelope is routed with the session's own role and user id as the
/// sender; one without is discarded. A ping is answered with its own bytes.
/// A close frame or a protocol error unregisters the session's connection
/// and closes the session. Other frames are ignored.
pub open spec fn handled(
    before: SessionView,
    after: SessionView,
    relay_before: RelayView,
    relay_after: RelayView,
    frame: Frame,
    action: Action,
) -> bool {
    if before.state != SessionState::Active {
        &&& action is Nothing
        &&& after == before
        &&& relay_after == relay_before
    } else {
        match frame {
            Frame::Text(text) => {
                &&& after == before
                &&& match inbound_in(text@) {
                    Some(envelope) => {
                        &&& action is Routed
                        &&& settled(
                            relay_before,
                            relay_after,
                            action->Routed_0,
                            routed(relay_before, before.role, before.user_id, envelope.participant),
                            payload_text(envelope.event, envelope.message, before.user_id as int),
                        )
                    },
                    None => action is Discarded && relay_after == relay_before,
                }
            },
            Frame::Ping(bytes) => {
                &&& action is Pong
                &&& action->Pong_0@ == bytes@
                &&& after == before
                &&& relay_after == relay_before
            },
            Frame::Close | Frame::Failed => {
                &&& action is Stop
                &&& after == before.in_state(SessionState::Closed)
                &&& relay_after == unregistered(relay_before, before.connection_id)
            },
            Frame::Other => {
                &&& action is Nothing
                &&& after == before
                &&& relay_after == relay_before
            },
        }
    }
}

/// What stopping a session does: an active session unregisters its
/// connection, and every session ends up closed.
pub open spec fn stopped(
    before: SessionView,
    after: SessionView,
    relay_before: RelayView,
    relay_after: RelayView,
) -> bool {
    &&& after == before.in_state(SessionState::Closed)
    &&& relay_after == if before.state == SessionState::Active {
        unregistered(relay_before, before.connection_id)
    } else {
        relay_before
    }
}

impl WebSocketActor {
    /// A session that has not started yet.
    pub fn new(connection_id: String, room_id: String, user_type: UserType, user_id: i32) -> (session:
        Self)
        ensures
            session@ == (SessionView {
                connection_id: connection_id@,
                room_id: room_id@,
                role: user_type,
                user_id,
                state: SessionState::Connecting,
            }),
    {
        WebSocketActor { connection_id, room_id, user_type, user_id, state: SessionState::Connecting }
    }

    /// A session that has not started yet, under the connection id that 16
    /// random bytes make.
    pub fn with_random(random: &[u8], room_id: String, user_type: UserType, user_id: i32) -> (session:
        Self)
        requires
            random@.len() == CONNECTION_ID_BYTES,
        ensures
            session@ == (SessionView {
                connection_id: uuid_v4_text(random@),
                room_id: room_id@,
                role: user_type,
                user_id,
                state: SessionState::Connecting,
            }),
            session@.connection_id.len() == CONNECTION_ID_LENGTH,
    {
        WebSocketActor::new(uuid_text(random), room_id, user_type, user_id)
    }

    /// A session that has not started yet, under a connection id drawn for
    /// it: what `with_random` gives for some 16 bytes. Nothing comes back
    /// where the system has no randomness to give.
    pub fn open(room_id: String, user_type: UserType, user_id: i32) -> (session: Option<Self>)
        ensures
            session matches Some(opened) ==> opened@.is_fresh(room_id@, user_type, user_id),
    {
        match random_bytes(CONNECTION_ID_BYTES) {
            Some(random) => {
                let opened = WebSocketActor::with_random(
                    random.as_slice(),
                    room_id,
                    user_type,
                    user_id,
                );
                assert(opened@.connection_id == uuid_v4_text(random@));
                Some(opened)
            },
            None => None,
        }
    }

    /// The state of this session.
    pub fn state(&self) -> (state: SessionState)
        ensures
            state == self@.state,
    {
        self.state
    }

    /// The id of the connection this session came through.
    pub fn connection_id(&self) -> (id: &String)
        ensures
            id@ == self@.connection_id,
    {
        &self.connection_id
    }

    /// The key of the room this session belongs to.
    pub fn room_id(&self) -> (id: &String)
        ensures
            id@ == self@.room_id,
    {
        &self.room_id
    }

    /// The role of this session's user.
    pub fn user_type(&self) -> (role: UserType)
        ensures
            role == self@.role,
    {
        self.user_type
    }

    /// The id of this session's user.
    pub fn user_id(&self) -> (id: i32)
        ensures
            id == self@.user_id,
    {
        self.user_id
    }

    /// Starts the session: registers it with the relay, with `sender` as
    /// its mailbox, if its role may hold one. Says whether it is now active.
    pub fn started(&mut self, relay: &mut WebSocketServer, sender: UnboundedSender<String>) -> (active:
        bool)
        ensures
            started(old(self)@, final(self)@, old(relay)@, final(relay)@, sender, active),
    {
        match self.state {
            SessionState::Connecting => {
                if self.user_type.can_connect() {
                    relay.register(
                        self.user_type,
                        sender,
                        self.user_id,
                        self.connection_id.clone(),
                    );
                    self.state = SessionState::Active;
                    true
                } else {
                    self.state = SessionState::Closed;
                    false
                }
            },
            _ => false,
        }
    }

    /// Handles one frame from the socket and says what to do next.
    pub fn handle(&mut self, relay: &mut WebSocketServer, frame: Frame) -> (action: Action)
        ensures
            handled(old(self)@, final(self)@, old(relay)@, final(relay)@, frame, action),
    {
        match self.state {
            SessionState::Active => {},
            _ => {
                return Action::Nothing;
            },
        }
        match frame {
            Frame::Text(text) => {
                match InboundEnvelope::decode(text.as_str()) {
                    Some(envelope) => {
                        let outcome = relay.route(
                            self.user_type,
                            self.user_id,
                            envelope.participant,
                            envelope.message,
                            envelope.event,
                        );
                        Action::Routed(outcome)
                    },
                    None => Action::Discarded,
                }
            },
            Frame::Ping(bytes) => Action::Pong(bytes),
            Frame::Close | Frame::Failed => {
                relay.unregister(self.connection_id.clone());
                self.state = SessionState::Closed;
                Action::Stop
            },
            Frame::Other => Action::Nothing,
        }
    }

    /// Stops the session. Its connection is unregistered if it still was
    /// active, so a session leaves the relay once and no more.
    pub fn stopping(&mut self, relay: &mut WebSocketServer)
        ensures
            stopped(old(self)@, final(self)@, old(relay)@, final(relay)@),
    {
        match self.state {
            SessionState::Active => {
                relay.unregister(self.connection_id.clone());
            },
            _ => {},
        }
        self.state = SessionState::Closed;
    }
}

/// A closed session stays closed and leaves the relay alone, whatever is
/// asked of it.
pub proof fn lemma_closed_is_final(
    before: SessionView,
    after: SessionView,
    relay_before: RelayView,
    relay_after: RelayView,
    channel: UnboundedSender<String>,
    active: bool,
    frame: Frame,
    action: Action,
)
    requires
        before.state == SessionState::Closed,
        ({
            ||| started(before, after, relay_before, relay_after, channel, active)
            ||| handled(before, after, relay_before, relay_after, frame, action)
            ||| stopped(before, after, relay_before, relay_after)
        }),
    ensures
        after == before,
        relay_after == relay_before,
{
}

/// A session changes the roster in three ways only: it registers its own
/// connection when it starts, it unregisters its own connection when it
/// closes, and in between it delivers texts, which leaves the roster's
/// participants who they were.
pub proof fn lemma_session_touches_its_own_connection_only(
    before: SessionView,
    after: SessionView,
    relay_before: RelayView,
    relay_after: RelayView,
    channel: UnboundedSender<String>,
    active: bool,
    frame: Frame,
    action: Action,
)
    requires
        ({
            ||| started(before, after, relay_before, relay_after, channel, active)
            ||| handled(before, after, relay_before, relay_after, frame, action)
            ||| stopped(before, after, relay_before, relay_after)
        }),
    ensures
        ({
            ||| relay_after == relay_before
            ||| relay_after == registered(
                relay_before,
                before.role,
                channel,
                before.user_id,
                before.connection_id,
            ) && before.state == SessionState::Connecting && after.state == SessionState::Active
            ||| relay_after == unregistered(relay_before, before.connection_id) && before.state
                == SessionState::Active && after.state == SessionState::Closed
            ||| exists|to: Recipient, text: Seq<char>|
                relay_after == #[trigger] delivered_to(relay_before, to, text) && before.state
                    == SessionState::Active && after.state == SessionState::Active
        }),
{
    if handled(before, after, relay_before, relay_after, frame, action) && before.state
        == SessionState::Active {
        if let Frame::Text(text) = frame {
            if let Some(envelope) = inbound_in(text@) {
                let decision = routed(
                    relay_before,
                    before.role,
                    before.user_id,
                    envelope.participant,
                );
                let payload = payload_text(envelope.event, envelope.message, before.user_id as int);
                if let Ok(to) = decision {
                    if relay_after != relay_before {
                        assert(relay_after == delivered_to(relay_before, to, payload));
                    }
                }
            }
        }
    }
}

/// Why a request to connect was turned away before any session existed.
#[derive(Debug, Clone, Copy, PartialEq, Eq, Structural)]
pub enum Rejection {
    /// The request carries no identity that names a user.
    Unauthorized,
    /// The user's role holds no session.
    InvalidUserType,
    /// The system gave no randomness for a connection id.
    NoConnectionId,
}

/// The HTTP status that goes with a rejection.
pub open spec fn rejection_status(rejection: Rejection) -> u16 {
    match rejection {
        Rejection::Unauthorized => 401,
        Rejection::InvalidUserType => 400,
        Rejection::NoConnectionId => 500,
    }
}

/// The words that go with a rejection.
pub open spec fn rejection_words(rejection: Rejection) -> Seq<char> {
    match rejection {
        Rejection::Unauthorized => "Unauthorized"@,
        Rejection::InvalidUserType => "Invalid user type"@,
        Rejection::NoConnectionId => "Connection id unavailable"@,
    }
}

impl Rejection {
    /// The HTTP status that goes with this rejection.
    pub fn status(&self) -> (status: u16)
        ensures
            status == rejection_status(*self),
    {
        match self {
            Rejection::Unauthorized => 401,
            Rejection::InvalidUserType => 400,
            Rejection::NoConnectionId => 500,
        }
    }

    /// The words that go with this rejection.
    pub fn message(&self) -> (words: &'static str)
        ensures
            words@ == rejection_words(*self),
    {
        match self {
            Rejection::Unauthorized => "Unauthorized",
            Rejection::InvalidUserType => "Invalid user type",
            Rejection::NoConnectionId => "Connection id unavailable",
        }
    }
}

/// The user that asks to connect, as far as the claims of the request say.
pub open spec fn identified(claims: Option<Claims>) -> Result<i32, Rejection> {
    match claims {
        Some(found) => match parsed_id(found.sub@) {
            Some(user_id) => Ok(user_id),
            None => Err(Rejection::Unauthorized),
        },
        None => Err(Rejection::Unauthorized),
    }
}

/// The role under which a user whose stored role is `stored_type` connects.
pub open spec fn admitted_role(stored_type: Seq<char>) -> Result<UserType, Rejection> {
    match role_named(stored_type) {
        Some(role) => if role.may_connect() {
            Ok(role)
        } else {
            Err(Rejection::InvalidUserType)
        },
        None => Err(Rejection::InvalidUserType),
    }
}

/// The key of the room that a request names: the path's parameter, or
/// `unknown` where the path has none.
pub fn room_key(path_parameter: Option<&str>) -> (key: String)
    ensures
        key@ == match path_parameter {
            Some(named) => named@,
            None => "unknown"@,
        },
{
    match path_parameter {
        Some(named) => named.to_owned(),
        None => "unknown".to_owned(),
    }
}

impl WebSocketActor {
    /// The user that asks to connect. A request without claims, or with a
    /// subject that is no user id, is unauthorized.
    pub fn identify(claims: Option<&Claims>) -> (user: Result<i32, Rejection>)
        ensures
            user == identified(
                match claims {
                    Some(found) => Some(*found),
                    None => None,
                },
            ),
    {
        match claims {
            Some(found) => match found.user_id() {
                Some(user_id) => Ok(user_id),
                None => Err(Rejection::Unauthorized),
            },
            None => Err(Rejection::Unauthorized),
        }
    }

    /// Lets a user into a room: a member or a proctor gets a session that
    /// has not started yet, under a connection id drawn for it; a user of any
    /// other stored role is turned away. A member or a proctor is turned
    /// away only where the system has no randomness to give.
    pub fn enter(room_id: String, stored_type: &str, user_id: i32) -> (session: Result<
        WebSocketActor,
        Rejection,
    >)
        ensures
            match admitted_role(stored_type@) {
                Ok(role) => match session {
                    Ok(opened) => opened@.is_fresh(room_id@, role, user_id),
                    Err(rejection) => rejection == Rejection::NoConnectionId,
                },
                Err(rejection) => session is Err && session->Err_0 == rejection,
            },
    {
        match UserType::parse(stored_type) {
            Some(role) => if role.can_connect() {
                match WebSocketActor::open(room_id, role, user_id) {
                    Some(opened) => Ok(opened),
                    None => Err(Rejection::NoConnectionId),
                }
            } else {
                Err(Rejection::InvalidUserType)
            },
            None => Err(Rejection::InvalidUserType),
        }
    }
}

} // verus!
