//! Turning the rows that the store gives back into the chat's values.

use vstd::prelude::*;
use crate::message::{MessagePayload, MessagePayloadView};
use crate::room::{Room, RoomId, RoomView};
use crate::user::{role_or_parent, role_parsed, User, UserId, UserRole, UserView};
use crate::Timestamp;

verus! {

/// The user that a stored row (identifier, name, role text) stands for; a
/// role text that names no role stands for a parent.
pub open spec fn user_of_row(row: (UserId, String, String)) -> UserView {
    UserView { id: Some(row.0), name: row.1@, role: role_or_parent(row.2@) }
}

/// The room that a stored row (identifier, name) stands for.
pub open spec fn room_of_row(row: (RoomId, String)) -> RoomView {
    RoomView { id: Some(row.0), name: row.1@ }
}

/// The shown message that a stored row (author name, author role, text, time)
/// stands for.
pub open spec fn payload_of_row(row: (String, UserRole, String, Timestamp)) -> MessagePayloadView {
    MessagePayloadView { user_name: row.0@, role: row.1, content: row.2@, timestamp: row.3 }
}

/// A stored user row gives a user with the row's identifier and name, and
/// the role that the row's role text names (case ignored), or a parent when
/// it names none.
pub proof fn lemma_user_row_fields(row: (UserId, String, String))
    ensures
        user_of_row(row).id == Some(row.0),
        user_of_row(row).name == row.1@,
        role_parsed(row.2@) matches Ok(named) ==> user_of_row(row).role == named,
        role_parsed(row.2@) is Err ==> user_of_row(row).role == UserRole::Parent,
{
}

/// A stored room row gives a room with the row's identifier and name.
pub proof fn lemma_room_row_fields(row: (RoomId, String))
    ensures
        room_of_row(row).id == Some(row.0),
        room_of_row(row).name == row.1@,
{
}

/// A stored message row is shown with its author's name and stored role, its
/// text and its time, all unchanged.
pub proof fn lemma_history_row_fields(row: (String, UserRole, String, Timestamp))
    ensures
        payload_of_row(row).user_name == row.0@,
        payload_of_row(row).role == row.1,
        payload_of_row(row).content == row.2@,
        payload_of_row(row).timestamp == row.3,
{
}

/// The users that the rows stand for, one per row, in the rows' order.
pub fn users_from_rows(rows: Vec<(UserId, String, String)>) -> (users: Vec<User>)
    ensures
        users.len() == rows.len(),
        forall|i: int| 0 <= i < rows.len() ==> (#[trigger] users[i])@ == user_of_row(rows[i]),
        forall|i: int|
            0 <= i < rows.len() ==> {
                &&& (#[trigger] users[i])@.id == Some(rows[i].0)
                &&& users[i]@.name == rows[i].1@
                &&& role_parsed(rows[i].2@) matches Ok(named) ==> users[i]@.role == named
                &&& role_parsed(rows[i].2@) is Err ==> users[i]@.role == UserRole::Parent
            },
{
    let mut users: Vec<User> = Vec::new();
    let mut i: usize = 0;
    while i < rows.len()
        invariant
            i <= rows.len(),
            users.len() == i,
            forall|j: int| 0 <= j < i ==> (#[trigger] users[j])@ == user_of_row(rows[j]),
        decreases rows.len() - i,
    {
        let row = &rows[i];
        let role = UserRole::parse_or_parent(row.2.as_str());
        users.push(User::new(Some(row.0), row.1.clone(), role));
        i = i + 1;
    }
    users
}

/// The rooms that the rows stand for, one per row, in the rows' order.
pub fn rooms_from_rows(rows: Vec<(RoomId, String)>) -> (rooms: Vec<Room>)
    ensures
        rooms.len() == rows.len(),
        forall|i: int| 0 <= i < rows.len() ==> (#[trigger] rooms[i])@ == room_of_row(rows[i]),
        forall|i: int|
            0 <= i < rows.len() ==> {
                &&& (#[trigger] rooms[i])@.id == Some(rows[i].0)
                &&& rooms[i]@.name == rows[i].1@
            },
{
    let mut rooms: Vec<Room> = Vec::new();
    let mut i: usize = 0;
    while i < rows.len()
        invariant
            i <= rows.len(),
            rooms.len() == i,
            forall|j: int| 0 <= j < i ==> (#[trigger] rooms[j])@ == room_of_row(rows[j]),
        decreases rows.len() - i,
    {
        let row = &rows[i];
        rooms.push(Room::new(Some(row.0), row.1.clone()));
        i = i + 1;
    }
    rooms
}

/// The shown messages that the rows stand for, one per row, in the rows'
/// order (the store gives them newest first).
pub fn history_from_rows(rows: Vec<(String, UserRole, String, Timestamp)>) -> (history: Vec<
    MessagePayload,
>)
    ensures
        history.len() == rows.len(),
        forall|i: int|
            0 <= i < rows.len() ==> (#[trigger] history[i])@ == payload_of_row(rows[i]),
        forall|i: int|
            0 <= i < rows.len() ==> {
                &&& (#[trigger] history[i])@.user_name == rows[i].0@
                &&& history[i]@.role == rows[i].1
                &&& history[i]@.content == rows[i].2@
                &&& history[i]@.timestamp == rows[i].3
            },
{
    let mut history: Vec<MessagePayload> = Vec::new();
    let mut i: usize = 0;
    while i < rows.len()
        invariant
            i <= rows.len(),
            history.len() == i,
            forall|j: int| 0 <= j < i ==> (#[trigger] history[j])@ == payload_of_row(rows[j]),
        decreases rows.len() - i,
    {
        let row = &rows[i];
        history.push(MessagePayload::new(row.0.clone(), row.1, row.2.clone(), row.3));
        i = i + 1;
    }
    history
}

} // verus!
