//! The entities of the directory and the requests made of it.

use vstd::prelude::*;

verus! {

/// Identifier of a group, assigned by the database.
#[derive(Clone, Copy, Debug, PartialEq, Eq, Structural, Hash)]
pub struct GroupId(pub i32);

/// A boolean expression that selects users.
#[derive(Debug, PartialEq, Eq)]
pub enum RequestFilter {
    /// Every one of the filters holds; with no filter at all, everything matches.
    And(Vec<RequestFilter>),
    /// One of the filters holds.
    Or(Vec<RequestFilter>),
    /// The filter does not hold.
    Not(Box<RequestFilter>),
    /// The named attribute of the user has the given value.
    Equality(String, String),
    /// The user is a member of the group with this display name.
    MemberOf(String),
    /// The user is a member of the group with this identifier.
    MemberOfId(GroupId),
}

/// What the backend is configured with.
#[derive(Clone, Debug, Default)]
pub struct Configuration {
    /// The administrative bind identity. It is no row of the users table.
    pub ldap_user_dn: String,
}

/// A user of the directory.
#[derive(Debug, PartialEq, Eq)]
pub struct User {
    pub user_id: String,
    pub email: String,
    pub display_name: String,
    pub first_name: String,
    pub last_name: String,
    pub avatar: Option<Vec<u8>>,
    pub creation_date: chrono::NaiveDateTime,
}

/// A group with the identifiers of its members.
#[derive(Debug, PartialEq, Eq)]
pub struct Group {
    pub id: GroupId,
    pub display_name: String,
    pub users: Vec<String>,
}

/// What a group is: its id, its display name and the ids of its members.
pub struct GroupView {
    pub id: GroupId,
    pub display_name: Seq<char>,
    pub users: Seq<Seq<char>>,
}

impl View for Group {
    type V = GroupView;

    open spec fn view(&self) -> GroupView {
        GroupView {
            id: self.id,
            display_name: self.display_name@,
            users: Seq::new(self.users@.len(), |i: int| self.users@[i]@),
        }
    }
}

/// The identifier of a group and its display name.
#[derive(Debug, PartialEq, Eq, Hash)]
pub struct GroupIdAndName(pub GroupId, pub String);

impl View for GroupIdAndName {
    type V = (GroupId, Seq<char>);

    open spec fn view(&self) -> (GroupId, Seq<char>) {
        (self.0, self.1@)
    }
}

/// What is known of a user to be created. The fields left out are stored as
/// empty text.
#[derive(Debug, Default, PartialEq, Eq)]
pub struct CreateUserRequest {
    pub user_id: String,
    pub email: String,
    pub display_name: Option<String>,
    pub first_name: Option<String>,
    pub last_name: Option<String>,
}

/// The fields of a user to be changed. The fields left out stay as they are.
#[derive(Debug, Default, PartialEq, Eq)]
pub struct UpdateUserRequest {
    pub user_id: String,
    pub email: Option<String>,
    pub display_name: Option<String>,
    pub first_name: Option<String>,
    pub last_name: Option<String>,
}

/// The fields of a group to be changed. The fields left out stay as they are.
#[derive(Debug, PartialEq, Eq)]
pub struct UpdateGroupRequest {
    pub group_id: GroupId,
    pub display_name: Option<String>,
}

/// The text of `field`, or the empty text where the field is left out.
pub open spec fn text_or_empty(field: Option<String>) -> Seq<char> {
    match field {
        Some(text) => text@,
        None => Seq::empty(),
    }
}

} // verus!
