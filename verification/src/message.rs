//! Chat messages: what a client sends, and what the chat relays and keeps.

use vstd::prelude::*;
use crate::room::RoomId;
use crate::user::{UserId, UserRole};
use crate::Timestamp;

verus! {

/// Identifier of a stored message.
pub type MessageId = i64;

/// A message as a client sends it: the room it is for, its author and its text.
pub struct NewMessageView {
    pub room_id: RoomId,
    pub user_id: UserId,
    pub content: Seq<char>,
}

/// A message that a client sends.
pub struct NewMessage {
    room_id: RoomId,
    user_id: UserId,
    content: String,
}

impl View for NewMessage {
    type V = NewMessageView;

    closed spec fn view(&self) -> NewMessageView {
        NewMessageView { room_id: self.room_id, user_id: self.user_id, content: self.content@ }
    }
}

impl NewMessage {
    /// A message for `room_id` by `user_id` with the text `content`.
    pub fn new(room_id: RoomId, user_id: UserId, content: String) -> (msg: NewMessage)
        ensures
            msg@ == (NewMessageView { room_id, user_id, content: content@ }),
    {
        NewMessage { room_id, user_id, content }
    }

    /// The room the message is for.
    pub fn room_id(&self) -> (id: &RoomId)
        ensures
            *id == self@.room_id,
    {
        &self.room_id
    }

    /// The message's author.
    pub fn user_id(&self) -> (id: &UserId)
        ensures
            *id == self@.user_id,
    {
        &self.user_id
    }

    /// The message's text.
    pub fn content(&self) -> (content: &str)
        ensures
            content@ == self@.content,
    {
        self.content.as_str()
    }
}

/// A message as the chat shows it: the author's name and role, the text and
/// the time it was sent.
pub struct MessagePayloadView {
    pub user_name: Seq<char>,
    pub role: UserRole,
    pub content: Seq<char>,
    pub timestamp: Timestamp,
}

/// A message that the chat shows in a room's history and relays to a room.
pub struct MessagePayload {
    user_name: String,
    role: UserRole,
    content: String,
    timestamp: Timestamp,
}

impl View for MessagePayload {
    type V = MessagePayloadView;

    closed spec fn view(&self) -> MessagePayloadView {
        MessagePayloadView {
            user_name: self.user_name@,
            role: self.role,
            content: self.content@,
            timestamp: self.timestamp,
        }
    }
}

impl MessagePayload {
    /// A shown message by `user_name` in `role`, with the text `content`,
    /// sent at `timestamp`.
    pub fn new(user_name: String, role: UserRole, content: String, timestamp: Timestamp) -> (payload:
        MessagePayload)
        ensures
            payload@ == (MessagePayloadView {
                user_name: user_name@,
                role,
                content: content@,
                timestamp,
            }),
    {
        MessagePayload { user_name, role, content, timestamp }
    }

    /// The author's name.
    pub fn user_name(&self) -> (name: &str)
        ensures
            name@ == self@.user_name,
    {
        self.user_name.as_str()
    }

    /// The author's role.
    pub fn role(&self) -> (role: UserRole)
        ensures
            role == self@.role,
    {
        self.role
    }

    /// The message's text.
    pub fn content(&self) -> (content: &str)
        ensures
            content@ == self@.content,
    {
        self.content.as_str()
    }

    /// When the message was sent.
    pub fn timestamp(&self) -> (timestamp: Timestamp)
        ensures
            timestamp == self@.timestamp,
    {
        self.timestamp
    }
}

} // verus!
