//! Domain logic of a class chat service: users and their roles, chat rooms,
//! chat messages, the conversion of stored rows into those values, the
//! per-connection relay of chat messages, and the server's settings.

pub mod config;
pub mod message;
pub mod records;
pub mod relay;
pub mod room;
pub mod text;
pub mod user;

use vstd::prelude::*;

verus! {

/// Milliseconds since the Unix epoch.
pub type Timestamp = i64;

} // verus!
