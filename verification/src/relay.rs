//! The relay of one chat connection: for each message that the client sends,
//! decide whether it is stored, then look up its author, then broadcast it to
//! the room. The caller performs each action and hands back what came of it.

use vstd::prelude::*;
use crate::message::{MessagePayload, MessagePayloadView, NewMessage, NewMessageView};
use crate::room::RoomId;
use crate::user::{UserId, UserRole};
use crate::Timestamp;

verus! {

/// What the relay of a connection is doing.
pub enum RelayPhase {
    /// Waiting for the client's next frame.
    Listening,
    /// A message with this text is being stored.
    Storing(Seq<char>),
    /// A stored message with this text waits for its author's name and role.
    LookingUp(Seq<char>),
    /// The client's stream has ended.
    Closed,
}

/// What the caller reports to the relay.
pub enum RelayEvent {
    /// A text frame came in; it holds the message if the text is one.
    Frame(Option<NewMessageView>),
    /// The stream ended, failed, or sent a frame that is not text.
    StreamEnded,
    /// Storing the message succeeded (`true`) or failed.
    Stored(bool),
    /// The author's name and role, if the author could be found.
    AuthorFound(Option<(Seq<char>, UserRole)>),
}

/// What the relay asks the caller to do.
pub enum RelayAction {
    /// Read the client's next frame.
    Wait,
    /// Store a message with this room, author and text.
    Store { room_id: RoomId, user_id: UserId, content: Seq<char> },
    /// Look up the name and role of this user.
    LookUpAuthor { user_id: UserId },
    /// Send this message to every connection of the room.
    Broadcast(MessagePayloadView),
    /// Stop serving the connection.
    Stop,
}

/// A relay as the specification sees it.
pub struct RelayView {
    pub room_id: RoomId,
    pub user_id: UserId,
    pub phase: RelayPhase,
}

/// The action that a phase still waits to see carried out.
pub open spec fn pending_action(room_id: RoomId, user_id: UserId, phase: RelayPhase) -> RelayAction {
    match phase {
        RelayPhase::Listening => RelayAction::Wait,
        RelayPhase::Storing(content) => RelayAction::Store { room_id, user_id, content },
        RelayPhase::LookingUp(_) => RelayAction::LookUpAuthor { user_id },
        RelayPhase::Closed => RelayAction::Stop,
    }
}

/// The relay's next phase and action, for a connection of `user_id` to
/// `room_id`, on `event`, at time `now`. A message is stored only when it is
/// for the connection's room and by its user; a stored message is looked up
/// and then broadcast with its author's name and role; a failed store or a
/// missing author drops the message; the end of the stream stops the relay.
/// An event that the phase does not wait for changes nothing.
pub open spec fn relay_next(
    room_id: RoomId,
    user_id: UserId,
    phase: RelayPhase,
    event: RelayEvent,
    now: Timestamp,
) -> (RelayPhase, RelayAction) {
    match (phase, event) {
        (RelayPhase::Closed, _) => (RelayPhase::Closed, RelayAction::Stop),
        (RelayPhase::Listening, RelayEvent::StreamEnded) => (RelayPhase::Closed, RelayAction::Stop),
        (RelayPhase::Listening, RelayEvent::Frame(Some(msg))) =>
            if msg.room_id == room_id && msg.user_id == user_id {
                (
                    RelayPhase::Storing(msg.content),
                    RelayAction::Store { room_id, user_id, content: msg.content },
                )
            } else {
                (RelayPhase::Listening, RelayAction::Wait)
            },
        (RelayPhase::Listening, RelayEvent::Frame(None)) => (RelayPhase::Listening, RelayAction::Wait),
        (RelayPhase::Storing(content), RelayEvent::Stored(ok)) =>
            if ok {
                (RelayPhase::LookingUp(content), RelayAction::LookUpAuthor { user_id })
            } else {
                (RelayPhase::Listening, RelayAction::Wait)
            },
        (RelayPhase::LookingUp(content), RelayEvent::AuthorFound(found)) => match found {
            Some((name, role)) => (
                RelayPhase::Listening,
                RelayAction::Broadcast(
                    MessagePayloadView { user_name: name, role, content, timestamp: now },
                ),
            ),
            None => (RelayPhase::Listening, RelayAction::Wait),
        },
        (phase, _) => (phase, pending_action(room_id, user_id, phase)),
    }
}

/// A message for the connection's own room and by its own user goes, in
/// three steps, from the client to the room: it is stored, its author is
/// looked up, and it is broadcast with the author's name and role, its own
/// text and the time of the last step; then the relay listens again.
pub proof fn lemma_relay_delivers_own_message(
    room_id: RoomId,
    user_id: UserId,
    msg: NewMessageView,
    name: Seq<char>,
    role: UserRole,
    now: Timestamp,
)
    requires
        msg.room_id == room_id,
        msg.user_id == user_id,
    ensures
        ({
            let (p1, a1) = relay_next(
                room_id,
                user_id,
                RelayPhase::Listening,
                RelayEvent::Frame(Some(msg)),
                now,
            );
            let (p2, a2) = relay_next(room_id, user_id, p1, RelayEvent::Stored(true), now);
            let (p3, a3) = relay_next(
                room_id,
                user_id,
                p2,
                RelayEvent::AuthorFound(Some((name, role))),
                now,
            );
            &&& a1 == RelayAction::Store { room_id, user_id, content: msg.content }
            &&& a2 == RelayAction::LookUpAuthor { user_id }
            &&& a3 == RelayAction::Broadcast(
                MessagePayloadView { user_name: name, role, content: msg.content, timestamp: now },
            )
            &&& p3 == RelayPhase::Listening
        }),
{
}

/// A message for another room or by another user is neither stored nor
/// relayed: the relay just listens on.
pub proof fn lemma_relay_ignores_foreign_message(
    room_id: RoomId,
    user_id: UserId,
    msg: NewMessageView,
    now: Timestamp,
)
    requires
        msg.room_id != room_id || msg.user_id != user_id,
    ensures
        relay_next(room_id, user_id, RelayPhase::Listening, RelayEvent::Frame(Some(msg)), now) == (
        RelayPhase::Listening, RelayAction::Wait),
{
}

/// Whatever the phase and the event: the relay stores messages only for its
/// own room and user, and only the text it was last handed in a frame or is
/// storing; it broadcasts only a message whose author it was looking up, with
/// that message's text; and once closed it stays closed and stops.
pub proof fn lemma_relay_actions_respect_connection(
    room_id: RoomId,
    user_id: UserId,
    phase: RelayPhase,
    event: RelayEvent,
    now: Timestamp,
)
    ensures
        ({
            let (next, action) = relay_next(room_id, user_id, phase, event, now);
            &&& action matches RelayAction::Store { room_id: r, user_id: u, content: c } ==> {
                &&& r == room_id
                &&& u == user_id
                &&& next == RelayPhase::Storing(c)
            }
            &&& action matches RelayAction::LookUpAuthor { user_id: u } ==> u == user_id
            &&& action matches RelayAction::Broadcast(payload) ==> (phase matches RelayPhase::LookingUp(
                c,
            ) && payload.content == c && payload.timestamp == now)
            &&& phase is Closed ==> next is Closed && action is Stop
        }),
{
}

/// The relay's state, as the running code holds it.
pub enum RelayState {
    Listening,
    Storing(String),
    LookingUp(String),
    Closed,
}

impl View for RelayState {
    type V = RelayPhase;

    open spec fn view(&self) -> RelayPhase {
        match self {
            RelayState::Listening => RelayPhase::Listening,
            RelayState::Storing(content) => RelayPhase::Storing(content@),
            RelayState::LookingUp(content) => RelayPhase::LookingUp(content@),
            RelayState::Closed => RelayPhase::Closed,
        }
    }
}

/// What the caller reports, as the running code holds it.
pub enum SocketEvent {
    Frame(Option<NewMessage>),
    StreamEnded,
    Stored(bool),
    AuthorFound(Option<(String, UserRole)>),
}

impl View for SocketEvent {
    type V = RelayEvent;

    open spec fn view(&self) -> RelayEvent {
        match self {
            SocketEvent::Frame(msg) => RelayEvent::Frame(
                match msg {
                    Some(m) => Some(m@),
                    None => None,
                },
            ),
            SocketEvent::StreamEnded => RelayEvent::StreamEnded,
            SocketEvent::Stored(ok) => RelayEvent::Stored(*ok),
            SocketEvent::AuthorFound(found) => RelayEvent::AuthorFound(
                match found {
                    Some((name, role)) => Some((name@, *role)),
                    None => None,
                },
            ),
        }
    }
}

/// What the relay asks for, as the running code holds it.
pub enum SocketAction {
    Wait,
    Store { room_id: RoomId, user_id: UserId, content: String },
    LookUpAuthor { user_id: UserId },
    Broadcast(MessagePayload),
    Stop,
}

impl View for SocketAction {
    type V = RelayAction;

    open spec fn view(&self) -> RelayAction {
        match self {
            SocketAction::Wait => RelayAction::Wait,
            SocketAction::Store { room_id, user_id, content } => RelayAction::Store {
                room_id: *room_id,
                user_id: *user_id,
                content: content@,
            },
            SocketAction::LookUpAuthor { user_id } => RelayAction::LookUpAuthor { user_id: *user_id },
            SocketAction::Broadcast(payload) => RelayAction::Broadcast(payload@),
            SocketAction::Stop => RelayAction::Stop,
        }
    }
}

/// Calls `chrono::Utc::now` and reads the time as milliseconds since the Unix
/// epoch (`DateTime::timestamp_millis`). The time is not a function of
/// anything the library holds, so nothing is stated of it but that it is not
/// before the epoch: `Utc::now` panics on a clock set before 1970, and
/// returns otherwise.
#[verifier::external_body]
fn now_millis() -> (millis: Timestamp)
    ensures
        millis >= 0,
{
    chrono::Utc::now().timestamp_millis()
}

/// The relay of one client connection to one room.
pub struct SocketRelay {
    room_id: RoomId,
    user_id: UserId,
    state: RelayState,
}

impl View for SocketRelay {
    type V = RelayView;

    closed spec fn view(&self) -> RelayView {
        RelayView { room_id: self.room_id, user_id: self.user_id, phase: self.state@ }
    }
}

impl SocketRelay {
    /// The relay of a connection of `user_id` to `room_id`, waiting for the
    /// first frame.
    pub fn new(room_id: RoomId, user_id: UserId) -> (relay: SocketRelay)
        ensures
            relay@ == (RelayView { room_id, user_id, phase: RelayPhase::Listening }),
    {
        SocketRelay { room_id, user_id, state: RelayState::Listening }
    }

    /// The room of the connection.
    pub fn room_id(&self) -> (id: RoomId)
        ensures
            id == self@.room_id,
    {
        self.room_id
    }

    /// The user of the connection.
    pub fn user_id(&self) -> (id: UserId)
        ensures
            id == self@.user_id,
    {
        self.user_id
    }

    /// Whether the relay has stopped.
    pub fn is_closed(&self) -> (closed: bool)
        ensures
            closed == (self@.phase is Closed),
    {
        match self.state {
            RelayState::Closed => true,
            _ => false,
        }
    }

    /// Takes in `event` at time `now`: moves to the next phase and returns
    /// the action to carry out, as `relay_next` says.
    pub fn step_at(&mut self, event: SocketEvent, now: Timestamp) -> (action: SocketAction)
        ensures
            final(self)@.room_id == old(self)@.room_id,
            final(self)@.user_id == old(self)@.user_id,
            (final(self)@.phase, action@) == relay_next(
                old(self)@.room_id,
                old(self)@.user_id,
                old(self)@.phase,
                event@,
                now,
            ),
    {
        let room_id = self.room_id;
        let user_id = self.user_id;
        let mut state = RelayState::Listening;
        std::mem::swap(&mut state, &mut self.state);
        let (next, action) = match state {
            RelayState::Closed => (RelayState::Closed, SocketAction::Stop),
            RelayState::Listening => match event {
                SocketEvent::StreamEnded => (RelayState::Closed, SocketAction::Stop),
                SocketEvent::Frame(Some(msg)) => {
                    if *msg.room_id() == room_id && *msg.user_id() == user_id {
                        let content = String::from_str(msg.content());
                        let stored = String::from_str(msg.content());
                        (
                            RelayState::Storing(content),
                            SocketAction::Store { room_id, user_id, content: stored },
                        )
                    } else {
                        (RelayState::Listening, SocketAction::Wait)
                    }
                },
                _ => (RelayState::Listening, SocketAction::Wait),
            },
            RelayState::Storing(content) => match event {
                SocketEvent::Stored(ok) => {
                    if ok {
                        (RelayState::LookingUp(content), SocketAction::LookUpAuthor { user_id })
                    } else {
                        (RelayState::Listening, SocketAction::Wait)
                    }
                },
                _ => {
                    let again = content.clone();
                    (
                        RelayState::Storing(content),
                        SocketAction::Store { room_id, user_id, content: again },
                    )
                },
            },
            RelayState::LookingUp(content) => match event {
                SocketEvent::AuthorFound(found) => match found {
                    Some((name, role)) => (
                        RelayState::Listening,
                        SocketAction::Broadcast(MessagePayload::new(name, role, content, now)),
                    ),
                    None => (RelayState::Listening, SocketAction::Wait),
                },
                _ => (RelayState::LookingUp(content), SocketAction::LookUpAuthor { user_id }),
            },
        };
        self.state = next;
        action
    }

    /// Takes in `event` at the current time: as `step_at`, with the time read
    /// from the clock, which only a broadcast message carries.
    pub fn step(&mut self, event: SocketEvent) -> (action: SocketAction)
        ensures
            final(self)@.room_id == old(self)@.room_id,
            final(self)@.user_id == old(self)@.user_id,
            exists|now: Timestamp|
                now >= 0 && (#[trigger] relay_next(
                    old(self)@.room_id,
                    old(self)@.user_id,
                    old(self)@.phase,
                    event@,
                    now,
                )) == (final(self)@.phase, action@),
    {
        let now = now_millis();
        let action = self.step_at(event, now);
        action
    }
}

} // verus!
