use classchat::message::{MessagePayload, NewMessage};
use classchat::room::Room;
use classchat::user::{ParseUserRoleError, User, UserRole};
use std::str::FromStr;

#[test]
fn role_parses_exact_names() {
    assert_eq!(UserRole::from_str("teacher"), Ok(UserRole::Teacher));
    assert_eq!(UserRole::from_str("parent"), Ok(UserRole::Parent));
}

#[test]
fn role_parse_ignores_case() {
    assert_eq!(UserRole::from_str("Teacher"), Ok(UserRole::Teacher));
    assert_eq!(UserRole::from_str("PARENT"), Ok(UserRole::Parent));
    assert_eq!(UserRole::from_str("tEaChEr"), Ok(UserRole::Teacher));
}

#[test]
fn role_parse_rejects_other_text() {
    assert_eq!(UserRole::from_str("student"), Err(ParseUserRoleError));
    assert_eq!(UserRole::from_str(""), Err(ParseUserRoleError));
    assert_eq!(UserRole::from_str(" teacher"), Err(ParseUserRoleError));
    assert_eq!(UserRole::from_str("teachers"), Err(ParseUserRoleError));
}

#[test]
fn role_from_lowercase_is_case_sensitive() {
    assert_eq!(UserRole::from_lowercase("teacher"), Ok(UserRole::Teacher));
    assert_eq!(UserRole::from_lowercase("Teacher"), Err(ParseUserRoleError));
}

#[test]
fn role_name_round_trip() {
    for role in [UserRole::Teacher, UserRole::Parent] {
        assert_eq!(UserRole::from_str(role.as_str()), Ok(role));
        assert_eq!(UserRole::from_str(&role.to_string()), Ok(role));
    }
    assert_eq!(UserRole::Teacher.as_str(), "teacher");
    assert_eq!(UserRole::Parent.to_string(), "parent");
    let name: &str = UserRole::Teacher.as_ref();
    assert_eq!(name, "teacher");
}

#[test]
fn role_std_conversions() {
    assert_eq!(<UserRole as FromStr>::from_str("Parent"), Ok(UserRole::Parent));
    assert_eq!(UserRole::try_from("TEACHER"), Ok(UserRole::Teacher));
    assert_eq!(UserRole::try_from(String::from("parent")), Ok(UserRole::Parent));
    assert_eq!(UserRole::try_from(String::from("admin")), Err(ParseUserRoleError));
}

#[test]
fn role_fallback_is_parent() {
    assert_eq!(UserRole::parse_or_parent("Teacher"), UserRole::Teacher);
    assert_eq!(UserRole::parse_or_parent("parent"), UserRole::Parent);
    assert_eq!(UserRole::parse_or_parent("janitor"), UserRole::Parent);
}

#[test]
fn parse_error_message() {
    assert_eq!(ParseUserRoleError.to_string(), "invalid user role");
}

#[test]
fn user_keeps_its_fields() {
    let user = User::new(Some(7), String::from("Ms. Lee"), UserRole::Teacher);
    assert_eq!(user.id(), Some(7));
    assert_eq!(user.name(), "Ms. Lee");
    assert_eq!(*user.role(), UserRole::Teacher);
    let fresh = User::new(None, String::from("Sam"), UserRole::Parent);
    assert_eq!(fresh.id(), None);
    assert_eq!(*fresh.role(), UserRole::Parent);
}

#[test]
fn room_keeps_its_fields() {
    let room = Room::new(Some(1), String::from("Class Discussion"));
    assert_eq!(room.id(), Some(1));
    assert_eq!(room.name(), "Class Discussion");
    assert_eq!(Room::new(None, String::new()).id(), None);
}

#[test]
fn new_message_keeps_its_fields() {
    let msg = NewMessage::new(2, 9, String::from("hello"));
    assert_eq!(*msg.room_id(), 2);
    assert_eq!(*msg.user_id(), 9);
    assert_eq!(msg.content(), "hello");
}

#[test]
fn payload_keeps_its_fields() {
    let payload = MessagePayload::new(String::from("Ana"), UserRole::Parent, String::from("hi"), 1_700_000_000_000);
    assert_eq!(payload.user_name(), "Ana");
    assert_eq!(payload.role(), UserRole::Parent);
    assert_eq!(payload.content(), "hi");
    assert_eq!(payload.timestamp(), 1_700_000_000_000);
}
