//! Users of the chat and their roles.

use vstd::prelude::*;
use vstd::string::*;
use crate::text::{ascii_lowercase, is_ascii_text, lowercased, to_lowercase};

verus! {

/// Identifier of a stored user.
pub type UserId = i64;

/// The error for a text that names no role.
#[derive(Debug, PartialEq, Eq, Structural)]
pub struct ParseUserRoleError;

impl ParseUserRoleError {
    /// The error's message.
    pub fn to_string(&self) -> (s: String)
        ensures
            s@ == "invalid user role"@,
    {
        String::from_str("invalid user role")
    }
}

/// The role a user has in the class chat.
#[derive(Debug, Clone, Copy, PartialEq, Eq, Structural)]
pub enum UserRole {
    Teacher,
    Parent,
}

/// The name under which a role is written and stored.
pub open spec fn role_name(role: UserRole) -> Seq<char> {
    match role {
        UserRole::Teacher => "teacher"@,
        UserRole::Parent => "parent"@,
    }
}

/// The role whose name is exactly `name`, or the parse error.
pub open spec fn role_named(name: Seq<char>) -> Result<UserRole, ParseUserRoleError> {
    if name == "teacher"@ {
        Ok(UserRole::Teacher)
    } else if name == "parent"@ {
        Ok(UserRole::Parent)
    } else {
        Err(ParseUserRoleError)
    }
}

/// The role that a text names, case being ignored.
pub open spec fn role_parsed(text: Seq<char>) -> Result<UserRole, ParseUserRoleError> {
    role_named(lowercased(text))
}

/// The role a text names, case ignored, where a text that names no role
/// stands for a parent.
pub open spec fn role_or_parent(text: Seq<char>) -> UserRole {
    match role_parsed(text) {
        Ok(role) => role,
        Err(_) => UserRole::Parent,
    }
}

impl UserRole {
    /// The role whose name is exactly `name` (already in lowercase).
    pub fn from_lowercase(name: &str) -> (res: Result<UserRole, ParseUserRoleError>)
        ensures
            res == role_named(name@),
    {
        let given = String::from_str(name);
        let teacher = String::from_str("teacher");
        let parent = String::from_str("parent");
        if given == teacher {
            Ok(UserRole::Teacher)
        } else if given == parent {
            Ok(UserRole::Parent)
        } else {
            Err(ParseUserRoleError)
        }
    }

    /// Parses a role name, ignoring case: "teacher" or "parent".
    pub fn from_str(value: &str) -> (res: Result<UserRole, ParseUserRoleError>)
        ensures
            res == role_parsed(value@),
    {
        let lower = to_lowercase(value);
        UserRole::from_lowercase(lower.as_str())
    }

    /// The role a text names, case ignored; a text that names no role
    /// counts as a parent.
    pub fn parse_or_parent(text: &str) -> (role: UserRole)
        ensures
            role == role_or_parent(text@),
            role_parsed(text@) matches Ok(named) ==> role == named,
            role_parsed(text@) is Err ==> role == UserRole::Parent,
    {
        match UserRole::from_str(text) {
            Ok(role) => role,
            Err(_) => UserRole::Parent,
        }
    }

    /// The role's name.
    pub fn as_str(&self) -> (s: &'static str)
        ensures
            s@ == role_name(*self),
    {
        match self {
            UserRole::Teacher => "teacher",
            UserRole::Parent => "parent",
        }
    }

    /// The role's name, as an owned string.
    pub fn to_string(&self) -> (s: String)
        ensures
            s@ == role_name(*self),
    {
        String::from_str(self.as_str())
    }
}

/// A role's name reads back as that role, both as it is and through the
/// case-ignoring parse: it is ASCII, already in lowercase, and names exactly
/// that role; and the two roles have different names.
pub proof fn lemma_role_name_round_trip(role: UserRole)
    ensures
        is_ascii_text(role_name(role)),
        ascii_lowercase(role_name(role)) == role_name(role),
        role_named(role_name(role)) == Ok::<UserRole, ParseUserRoleError>(role),
        role_parsed(role_name(role)) == Ok::<UserRole, ParseUserRoleError>(role),
        role_name(UserRole::Teacher) != role_name(UserRole::Parent),
{
    reveal_strlit("teacher");
    reveal_strlit("parent");
    assert(ascii_lowercase("teacher"@) =~= "teacher"@);
    assert(ascii_lowercase("parent"@) =~= "parent"@);
    assert("teacher"@ != "parent"@) by {
        assert("teacher"@.len() != "parent"@.len());
    }
}

/// The fallback parse agrees with the case-ignoring parse: a text that names
/// a role gives that role, any other gives a parent; in particular an ASCII
/// text that is a role's name in any mix of cases gives that role.
pub proof fn lemma_role_or_parent_follows_parse(text: Seq<char>, role: UserRole)
    ensures
        role_parsed(text) == Ok::<UserRole, ParseUserRoleError>(role) ==> role_or_parent(text)
            == role,
        role_parsed(text) is Err ==> role_or_parent(text) == UserRole::Parent,
        is_ascii_text(text) && ascii_lowercase(text) == role_name(role) ==> role_or_parent(text)
            == role,
{
    lemma_role_name_round_trip(role);
}

/// A user as the chat stores it: its identifier (none before it is stored),
/// its display name and its role.
pub struct UserView {
    pub id: Option<UserId>,
    pub name: Seq<char>,
    pub role: UserRole,
}

/// A user of the chat.
pub struct User {
    id: Option<UserId>,
    name: String,
    role: UserRole,
}

impl View for User {
    type V = UserView;

    closed spec fn view(&self) -> UserView {
        UserView { id: self.id, name: self.name@, role: self.role }
    }
}

impl User {
    /// A user with the given identifier, name and role.
    pub fn new(id: Option<UserId>, name: String, role: UserRole) -> (user: User)
        ensures
            user@ == (UserView { id, name: name@, role }),
    {
        User { id, name, role }
    }

    /// The user's identifier, if it has been stored.
    pub fn id(&self) -> (id: Option<UserId>)
        ensures
            id == self@.id,
    {
        self.id
    }

    /// The user's display name.
    pub fn name(&self) -> (name: &str)
        ensures
            name@ == self@.name,
    {
        self.name.as_str()
    }

    /// The user's role.
    pub fn role(&self) -> (role: &UserRole)
        ensures
            *role == self@.role,
    {
        &self.role
    }
}

impl TryFrom<String> for UserRole {
    type Error = ParseUserRoleError;

    fn try_from(value: String) -> (res: Result<UserRole, ParseUserRoleError>) {
        UserRole::from_str(value.as_str())
    }
}

impl vstd::std_specs::convert::TryFromSpecImpl<String> for UserRole {
    open spec fn obeys_try_from_spec() -> bool {
        true
    }

    open spec fn try_from_spec(value: String) -> Result<UserRole, ParseUserRoleError> {
        role_parsed(value@)
    }
}

impl<'a> TryFrom<&'a str> for UserRole {
    type Error = ParseUserRoleError;

    fn try_from(value: &'a str) -> (res: Result<UserRole, ParseUserRoleError>) {
        UserRole::from_str(value)
    }
}

impl<'a> vstd::std_specs::convert::TryFromSpecImpl<&'a str> for UserRole {
    open spec fn obeys_try_from_spec() -> bool {
        true
    }

    open spec fn try_from_spec(value: &'a str) -> Result<UserRole, ParseUserRoleError> {
        role_parsed(value@)
    }
}

impl std::str::FromStr for UserRole {
    type Err = ParseUserRoleError;

    fn from_str(s: &str) -> (res: Result<UserRole, ParseUserRoleError>)
        ensures
            res == role_parsed(s@),
    {
        UserRole::from_str(s)
    }
}

impl AsRef<str> for UserRole {
    fn as_ref(&self) -> (name: &str)
        ensures
            name@ == role_name(*self),
    {
        self.as_str()
    }
}

} // verus!
