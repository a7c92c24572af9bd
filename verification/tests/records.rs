use classchat::records::{history_from_rows, rooms_from_rows, users_from_rows};
use classchat::user::UserRole;

#[test]
fn users_from_rows_keeps_order_and_falls_back_to_parent() {
    let rows = vec![
        (1, String::from("Ms. Lee"), String::from("teacher")),
        (2, String::from("Sam"), String::from("Parent")),
        (3, String::from("Kim"), String::from("unknown")),
    ];
    let users = users_from_rows(rows);
    assert_eq!(users.len(), 3);
    assert_eq!(users[0].id(), Some(1));
    assert_eq!(users[0].name(), "Ms. Lee");
    assert_eq!(*users[0].role(), UserRole::Teacher);
    assert_eq!(*users[1].role(), UserRole::Parent);
    assert_eq!(users[2].name(), "Kim");
    assert_eq!(*users[2].role(), UserRole::Parent);
}

#[test]
fn users_from_no_rows() {
    assert!(users_from_rows(Vec::new()).is_empty());
}

#[test]
fn rooms_from_rows_keeps_order() {
    let rows = vec![(1, String::from("Class Discussion")), (2, String::from("Teacher-Parent Chat"))];
    let rooms = rooms_from_rows(rows);
    assert_eq!(rooms.len(), 2);
    assert_eq!(rooms[0].id(), Some(1));
    assert_eq!(rooms[0].name(), "Class Discussion");
    assert_eq!(rooms[1].id(), Some(2));
    assert_eq!(rooms[1].name(), "Teacher-Parent Chat");
}

#[test]
fn history_from_rows_keeps_order() {
    let rows = vec![
        (String::from("Ana"), UserRole::Parent, String::from("later"), 20),
        (String::from("Ms. Lee"), UserRole::Teacher, String::from("earlier"), 10),
    ];
    let history = history_from_rows(rows);
    assert_eq!(history.len(), 2);
    assert_eq!(history[0].user_name(), "Ana");
    assert_eq!(history[0].role(), UserRole::Parent);
    assert_eq!(history[0].content(), "later");
    assert_eq!(history[0].timestamp(), 20);
    assert_eq!(history[1].user_name(), "Ms. Lee");
    assert_eq!(history[1].timestamp(), 10);
}
