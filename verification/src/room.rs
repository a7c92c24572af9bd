//! Chat rooms.

use vstd::prelude::*;

verus! {

/// Identifier of a stored chat room.
pub type RoomId = i64;

/// A chat room as the chat stores it: its identifier (none before it is
/// stored) and its name.
pub struct RoomView {
    pub id: Option<RoomId>,
    pub name: Seq<char>,
}

/// A chat room.
pub struct Room {
    id: Option<RoomId>,
    name: String,
}

impl View for Room {
    type V = RoomView;

    closed spec fn view(&self) -> RoomView {
        RoomView { id: self.id, name: self.name@ }
    }
}

impl Room {
    /// A room with the given identifier and name.
    pub fn new(id: Option<RoomId>, name: String) -> (room: Room)
        ensures
            room@ == (RoomView { id, name: name@ }),
    {
        Room { id, name }
    }

    /// The room's identifier, if it has been stored.
    pub fn id(&self) -> (id: Option<RoomId>)
        ensures
            id == self@.id,
    {
        self.id
    }

    /// The room's name.
    pub fn name(&self) -> (name: &str)
        ensures
            name@ == self@.name,
    {
        self.name.as_str()
    }
}

} // verus!
