//! The server's settings and the addresses it answers with.

use vstd::prelude::*;
use vstd::string::*;
use crate::text::{lowercased, parse_u16, parsed_u16, to_lowercase};
use crate::user::{role_or_parent, role_parsed, UserRole};

verus! {

/// The port served when none is configured or the setting is not a port.
pub const DEFAULT_PORT: u16 = 3000;

/// The port that a `PORT` setting selects: the setting read as a decimal port
/// number, or `DEFAULT_PORT` when it is missing or not such a number.
pub open spec fn port_of(setting: Option<Seq<char>>) -> u16 {
    match setting {
        Some(text) => match parsed_u16(text) {
            Some(port) => port,
            None => DEFAULT_PORT,
        },
        None => DEFAULT_PORT,
    }
}

/// A setting that reads as a port number selects that port; a missing
/// setting, or one that is no port number, selects the default.
pub proof fn lemma_port_of_follows_parse(text: Seq<char>)
    ensures
        parsed_u16(text) matches Some(served) ==> port_of(Some(text)) == served,
        parsed_u16(text) is None ==> port_of(Some(text)) == DEFAULT_PORT,
        port_of(None) == DEFAULT_PORT,
{
}

/// The port that the `PORT` setting selects.
pub fn port_setting(setting: Option<&str>) -> (port: u16)
    ensures
        match setting {
            Some(text) => match parsed_u16(text@) {
                Some(served) => port == served,
                None => port == DEFAULT_PORT,
            },
            None => port == DEFAULT_PORT,
        },
        port == port_of(
            match setting {
                Some(text) => Some(text@),
                None => None,
            },
        ),
{
    match setting {
        Some(text) => match parse_u16(text) {
            Some(port) => port,
            None => DEFAULT_PORT,
        },
        None => DEFAULT_PORT,
    }
}

/// Whether the `USE_ACME` setting asks for certificates to be obtained: the
/// setting, or "false" when it is missing, in lowercase, is "true".
pub fn acme_enabled(setting: Option<&str>) -> (enabled: bool)
    ensures
        enabled == (lowercased(
            match setting {
                Some(text) => text@,
                None => "false"@,
            },
        ) == "true"@),
{
    let text = match setting {
        Some(text) => text,
        None => "false",
    };
    let lower = to_lowercase(text);
    let expected = String::from_str("true");
    lower == expected
}

/// The role asked for by the `role` query parameter: the role it names, case
/// ignored, and a parent when it is missing or names no role.
pub fn role_from_query(param: Option<&str>) -> (role: UserRole)
    ensures
        role == match param {
            Some(text) => role_or_parent(text@),
            None => UserRole::Parent,
        },
        match param {
            Some(text) => match role_parsed(text@) {
                Ok(named) => role == named,
                Err(_) => role == UserRole::Parent,
            },
            None => role == UserRole::Parent,
        },
{
    match param {
        Some(text) => UserRole::parse_or_parent(text),
        None => UserRole::Parent,
    }
}

/// The address that a plain HTTP request is sent on to: "https://", the
/// domain, then the request's path and query, or "/" when it has none.
pub fn redirect_target(domain: &str, path_and_query: Option<&str>) -> (target: String)
    ensures
        target@ == "https://"@ + domain@ + match path_and_query {
            Some(rest) => rest@,
            None => "/"@,
        },
{
    let rest = match path_and_query {
        Some(rest) => rest,
        None => "/",
    };
    let mut target = String::from_str("https://");
    target.append(domain);
    target.append(rest);
    target
}

/// The contact that certificate requests give: "mailto:" then the address.
pub fn acme_contact(email: &str) -> (contact: String)
    ensures
        contact@ == "mailto:"@ + email@,
{
    let mut contact = String::from_str("mailto:");
    contact.append(email);
    contact
}

} // verus!
