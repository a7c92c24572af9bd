use classchat::config::{acme_contact, acme_enabled, port_setting, redirect_target, role_from_query, DEFAULT_PORT};
use classchat::user::UserRole;

#[test]
fn port_defaults_and_parses() {
    assert_eq!(DEFAULT_PORT, 3000);
    assert_eq!(port_setting(None), 3000);
    assert_eq!(port_setting(Some("8080")), 8080);
    assert_eq!(port_setting(Some("+443")), 443);
    assert_eq!(port_setting(Some("0080")), 80);
    assert_eq!(port_setting(Some("65535")), 65535);
    assert_eq!(port_setting(Some("65536")), 3000);
    assert_eq!(port_setting(Some("-1")), 3000);
    assert_eq!(port_setting(Some("")), 3000);
    assert_eq!(port_setting(Some(" 80")), 3000);
    assert_eq!(port_setting(Some("http")), 3000);
}

#[test]
fn acme_only_when_true() {
    assert!(!acme_enabled(None));
    assert!(acme_enabled(Some("true")));
    assert!(acme_enabled(Some("TRUE")));
    assert!(acme_enabled(Some("True")));
    assert!(!acme_enabled(Some("yes")));
    assert!(!acme_enabled(Some("false")));
    assert!(!acme_enabled(Some("1")));
}

#[test]
fn query_role_defaults_to_parent() {
    assert_eq!(role_from_query(None), UserRole::Parent);
    assert_eq!(role_from_query(Some("teacher")), UserRole::Teacher);
    assert_eq!(role_from_query(Some("Teacher")), UserRole::Teacher);
    assert_eq!(role_from_query(Some("nobody")), UserRole::Parent);
}

#[test]
fn redirect_keeps_path_and_query() {
    assert_eq!(redirect_target("example.org", Some("/rooms?x=1")), "https://example.org/rooms?x=1");
    assert_eq!(redirect_target("example.org", None), "https://example.org/");
}

#[test]
fn contact_is_mailto() {
    assert_eq!(acme_contact("a@b.c"), "mailto:a@b.c");
}
