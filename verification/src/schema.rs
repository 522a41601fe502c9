//! The tables of the database and their columns.

use vstd::prelude::*;

verus! {

/// The table of users and its columns.
#[derive(Clone, Copy, Debug, PartialEq, Eq, Structural)]
pub enum Users {
    Table,
    UserId,
    Email,
    DisplayName,
    FirstName,
    LastName,
    Avatar,
    CreationDate,
}

/// The table of groups and its columns.
#[derive(Clone, Copy, Debug, PartialEq, Eq, Structural)]
pub enum Groups {
    Table,
    GroupId,
    DisplayName,
}

/// The table of memberships, one row for each user of each group, and its
/// columns.
#[derive(Clone, Copy, Debug, PartialEq, Eq, Structural)]
pub enum Memberships {
    Table,
    UserId,
    GroupId,
}

impl Users {
    /// The identifier as the database knows it.
    pub open spec fn name(self) -> Seq<char> {
        match self {
            Users::Table => "users"@,
            Users::UserId => "user_id"@,
            Users::Email => "email"@,
            Users::DisplayName => "display_name"@,
            Users::FirstName => "first_name"@,
            Users::LastName => "last_name"@,
            Users::Avatar => "avatar"@,
            Users::CreationDate => "creation_date"@,
        }
    }

    /// The identifier as the database knows it.
    pub fn as_str(&self) -> (s: &'static str)
        ensures
            s@ == self.name(),
    {
        match self {
            Users::Table => "users",
            Users::UserId => "user_id",
            Users::Email => "email",
            Users::DisplayName => "display_name",
            Users::FirstName => "first_name",
            Users::LastName => "last_name",
            Users::Avatar => "avatar",
            Users::CreationDate => "creation_date",
        }
    }
}

impl Groups {
    /// The identifier as the database knows it.
    pub open spec fn name(self) -> Seq<char> {
        match self {
            Groups::Table => "groups"@,
            Groups::GroupId => "group_id"@,
            Groups::DisplayName => "display_name"@,
        }
    }

    /// The identifier as the database knows it.
    pub fn as_str(&self) -> (s: &'static str)
        ensures
            s@ == self.name(),
    {
        match self {
            Groups::Table => "groups",
            Groups::GroupId => "group_id",
            Groups::DisplayName => "display_name",
        }
    }
}

impl Memberships {
    /// The identifier as the database knows it.
    pub open spec fn name(self) -> Seq<char> {
        match self {
            Memberships::Table => "memberships"@,
            Memberships::UserId => "user_id"@,
            Memberships::GroupId => "group_id"@,
        }
    }

    /// The identifier as the database knows it.
    pub fn as_str(&self) -> (s: &'static str)
        ensures
            s@ == self.name(),
    {
        match self {
            Memberships::Table => "memberships",
            Memberships::UserId => "user_id",
            Memberships::GroupId => "group_id",
        }
    }
}

} // verus!
