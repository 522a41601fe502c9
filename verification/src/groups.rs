//! The operations on groups and memberships: for each, the statement to run
//! against the database.

use crate::expr::bare;
use crate::expr::bare_is_text;
use crate::expr::column;
use crate::expr::columns_match;
use crate::expr::equal;
use crate::expr::integer_literal;
use crate::expr::qualified;
use crate::expr::table_column;
use crate::expr::text_literal;
use crate::expr::ExprShape;
use crate::handler::SqlBackendHandler;
use crate::model::GroupId;
use crate::model::GroupIdAndName;
use crate::model::UpdateGroupRequest;
use crate::schema::Groups;
use crate::schema::Memberships;
use crate::statement::assign;
use crate::statement::assignment;
use crate::statement::delete_and_where;
use crate::statement::delete_from_table;
use crate::statement::delete_new;
use crate::statement::delete_shape;
use crate::statement::delete_sql;
use crate::statement::delete_to_string;
use crate::statement::insert_columns;
use crate::statement::insert_into_table;
use crate::statement::insert_new;
use crate::statement::insert_shape;
use crate::statement::insert_sql;
use crate::statement::insert_to_string;
use crate::statement::insert_values;
use crate::statement::select_and_where;
use crate::statement::select_expr;
use crate::statement::select_from;
use crate::statement::select_inner_join;
use crate::statement::select_left_join;
use crate::statement::select_new;
use crate::statement::select_order_by;
use crate::statement::select_shape;
use crate::statement::select_sql;
use crate::statement::select_to_string;
use crate::statement::shapes;
use crate::statement::texts;
use crate::statement::update_and_where;
use crate::statement::update_new;
use crate::statement::update_shape;
use crate::statement::update_sql;
use crate::statement::update_table;
use crate::statement::update_to_string;
use crate::statement::DeleteShape;
use crate::statement::InsertShape;
use crate::statement::JoinKind;
use crate::statement::JoinShape;
use crate::statement::SelectShape;
use crate::statement::UpdateShape;
use sea_query::Expr;
use vstd::prelude::*;

verus! {

/// How the groups of a user are found.
#[derive(Debug, PartialEq, Eq)]
pub enum UserGroups {
    /// The groups are these, and the database is not asked.
    Known(Vec<GroupIdAndName>),
    /// The groups are the rows that this statement selects.
    Query(String),
}

/// The two statements that create a group: the first inserts it, the second,
/// to be run after the first, selects the id that the database gave it.
#[derive(Debug, PartialEq, Eq)]
pub struct GroupCreation {
    pub insert: String,
    pub lookup: String,
}

/// `column = value` for a column named without its table and a group id.
pub open spec fn bare_is_group(name: Seq<char>, id: GroupId) -> ExprShape {
    ExprShape::Equal(Box::new(bare(name)), Box::new(ExprShape::Integer(id.0 as int)))
}

/// The statement that lists the groups, each with its members: one row for
/// each member of each group, and one row without a member for a group that
/// has none, since the memberships are left joined. The rows of one group
/// follow each other, the groups in the order of their display names, the
/// members of a group in the order of their user ids.
pub open spec fn group_listing() -> SelectShape {
    SelectShape {
        columns: seq![
            qualified(Groups::Table.name(), Groups::GroupId.name()),
            bare(Groups::DisplayName.name()),
            bare(Memberships::UserId.name()),
        ],
        tables: seq![Groups::Table.name()],
        joins: seq![
            JoinShape {
                kind: JoinKind::Left,
                table: Memberships::Table.name(),
                on: columns_match(
                    Groups::Table.name(),
                    Groups::GroupId.name(),
                    Memberships::Table.name(),
                    Memberships::GroupId.name(),
                ),
            },
        ],
        conditions: Seq::empty(),
        orders: seq![bare(Groups::DisplayName.name()), bare(Memberships::UserId.name())],
    }
}

/// The statement that selects the id and the display name of the group with
/// the id `group_id`.
pub open spec fn group_details(group_id: GroupId) -> SelectShape {
    SelectShape {
        columns: seq![bare(Groups::GroupId.name()), bare(Groups::DisplayName.name())],
        tables: seq![Groups::Table.name()],
        joins: Seq::empty(),
        conditions: seq![bare_is_group(Groups::GroupId.name(), group_id)],
        orders: Seq::empty(),
    }
}

/// The statement that selects the id and the display name of each group that
/// `user` is a member of. The memberships are inner joined: a user without a
/// membership gets no row.
pub open spec fn groups_of_user(user: Seq<char>) -> SelectShape {
    SelectShape {
        columns: seq![
            qualified(Groups::Table.name(), Groups::GroupId.name()),
            bare(Groups::DisplayName.name()),
        ],
        tables: seq![Groups::Table.name()],
        joins: seq![
            JoinShape {
                kind: JoinKind::Inner,
                table: Memberships::Table.name(),
                on: columns_match(
                    Groups::Table.name(),
                    Groups::GroupId.name(),
                    Memberships::Table.name(),
                    Memberships::GroupId.name(),
                ),
            },
        ],
        conditions: seq![bare_is_text(Memberships::UserId.name(), user)],
        orders: Seq::empty(),
    }
}

/// The id of the group that the administrative identity is a member of.
pub const ADMIN_GROUP_ID: i32 = 1;

/// The display name of the group that the administrative identity is a
/// member of.
pub open spec fn admin_group_name() -> Seq<char> {
    "lldap_admin"@
}

/// The statement that changes the group of `request` as it asks.
pub open spec fn group_update(request: UpdateGroupRequest) -> UpdateShape {
    UpdateShape {
        table: Some(Groups::Table.name()),
        values: assignment(Groups::DisplayName.name(), request.display_name),
        conditions: seq![bare_is_group(Groups::GroupId.name(), request.group_id)],
    }
}

/// The statement that inserts a group with the display name `name`.
pub open spec fn group_insertion(name: Seq<char>) -> InsertShape {
    InsertShape {
        table: Some(Groups::Table.name()),
        columns: seq![Groups::DisplayName.name()],
        rows: seq![seq![ExprShape::Text(name)]],
    }
}

/// The statement that selects the id of the group with the display name
/// `name`.
pub open spec fn group_id_lookup(name: Seq<char>) -> SelectShape {
    SelectShape {
        columns: seq![bare(Groups::GroupId.name())],
        tables: seq![Groups::Table.name()],
        joins: Seq::empty(),
        conditions: seq![bare_is_text(Groups::DisplayName.name(), name)],
        orders: Seq::empty(),
    }
}

/// The statement that deletes the group with the id `group_id`.
pub open spec fn group_deletion(group_id: GroupId) -> DeleteShape {
    DeleteShape {
        table: Some(Groups::Table.name()),
        conditions: seq![bare_is_group(Groups::GroupId.name(), group_id)],
    }
}

/// The statement that inserts the membership of `user_id` in `group_id`.
pub open spec fn membership_insertion(user_id: Seq<char>, group_id: GroupId) -> InsertShape {
    InsertShape {
        table: Some(Memberships::Table.name()),
        columns: seq![Memberships::UserId.name(), Memberships::GroupId.name()],
        rows: seq![seq![ExprShape::Text(user_id), ExprShape::Integer(group_id.0 as int)]],
    }
}

/// The statement that deletes the membership of `user_id` in `group_id`.
pub open spec fn membership_deletion(user_id: Seq<char>, group_id: GroupId) -> DeleteShape {
    DeleteShape {
        table: Some(Memberships::Table.name()),
        conditions: seq![
            bare_is_group(Memberships::GroupId.name(), group_id),
            bare_is_text(Memberships::UserId.name(), user_id),
        ],
    }
}

impl<Pool> SqlBackendHandler<Pool> {
    /// The statement that lists the groups with their members.
    pub fn list_groups_query(&self) -> (sql: String)
        ensures
            sql@ == select_sql(group_listing()),
    {
        let mut query = select_new();
        select_expr(&mut query, table_column(Groups::Table.as_str(), Groups::GroupId.as_str()));
        select_expr(&mut query, column(Groups::DisplayName.as_str()));
        select_expr(&mut query, column(Memberships::UserId.as_str()));
        select_from(&mut query, Groups::Table.as_str());
        select_left_join(
            &mut query,
            Memberships::Table.as_str(),
            equal(
                table_column(Groups::Table.as_str(), Groups::GroupId.as_str()),
                table_column(Memberships::Table.as_str(), Memberships::GroupId.as_str()),
            ),
        );
        select_order_by(&mut query, column(Groups::DisplayName.as_str()));
        select_order_by(&mut query, column(Memberships::UserId.as_str()));
        proof {
            let built = select_shape(query).unwrap();
            assert(built.columns =~= group_listing().columns);
            assert(built.tables =~= group_listing().tables);
            assert(built.joins =~= group_listing().joins);
            assert(built.orders =~= group_listing().orders);
        }
        select_to_string(&query)
    }

    /// The statement that selects the id and the display name of the group
    /// with the id `group_id`.
    pub fn get_group_details_query(&self, group_id: GroupId) -> (sql: String)
        ensures
            sql@ == select_sql(group_details(group_id)),
    {
        let mut query = select_new();
        select_expr(&mut query, column(Groups::GroupId.as_str()));
        select_expr(&mut query, column(Groups::DisplayName.as_str()));
        select_from(&mut query, Groups::Table.as_str());
        select_and_where(
            &mut query,
            equal(column(Groups::GroupId.as_str()), integer_literal(group_id.0)),
        );
        proof {
            let built = select_shape(query).unwrap();
            assert(built.columns =~= group_details(group_id).columns);
            assert(built.tables =~= group_details(group_id).tables);
            assert(built.conditions =~= group_details(group_id).conditions);
        }
        select_to_string(&query)
    }

    /// The groups of `user`. The administrative identity is a member of the
    /// administrators' group and of no other, and the database is not asked
    /// about it; for every other user, the statement that selects its groups.
    pub fn get_user_groups_query(&self, user: &str) -> (groups: UserGroups)
        ensures
            user@ == self.configuration().ldap_user_dn@ ==> (groups matches UserGroups::Known(known)
                && known@.len() == 1 && known@[0].0 == GroupId(ADMIN_GROUP_ID) && known@[0].1@
                == admin_group_name()),
            user@ != self.configuration().ldap_user_dn@ ==> (groups matches UserGroups::Query(sql)
                && sql@ == select_sql(groups_of_user(user@))),
    {
        let asked: String = user.to_owned();
        if asked == self.config().ldap_user_dn {
            let mut known: Vec<GroupIdAndName> = Vec::new();
            known.push(GroupIdAndName(GroupId(ADMIN_GROUP_ID), "lldap_admin".to_owned()));
            return UserGroups::Known(known);
        }
        let mut query = select_new();
        select_expr(&mut query, table_column(Groups::Table.as_str(), Groups::GroupId.as_str()));
        select_expr(&mut query, column(Groups::DisplayName.as_str()));
        select_from(&mut query, Groups::Table.as_str());
        select_inner_join(
            &mut query,
            Memberships::Table.as_str(),
            equal(
                table_column(Groups::Table.as_str(), Groups::GroupId.as_str()),
                table_column(Memberships::Table.as_str(), Memberships::GroupId.as_str()),
            ),
        );
        select_and_where(&mut query, equal(column(Memberships::UserId.as_str()), text_literal(user)));
        proof {
            let built = select_shape(query).unwrap();
            assert(built.columns =~= groups_of_user(user@).columns);
            assert(built.tables =~= groups_of_user(user@).tables);
            assert(built.joins =~= groups_of_user(user@).joins);
            assert(built.conditions =~= groups_of_user(user@).conditions);
        }
        UserGroups::Query(select_to_string(&query))
    }

    /// The statement that changes the group of `request` as it asks; none
    /// where the request asks for no change.
    pub fn update_group_query(&self, request: UpdateGroupRequest) -> (sql: Option<String>)
        ensures
            request.display_name is None ==> sql is None,
            request.display_name is Some ==> (sql matches Some(text) && text@ == update_sql(
                group_update(request),
            )),
    {
        if request.display_name.is_none() {
            return None;
        }
        let mut query = update_new();
        update_table(&mut query, Groups::Table.as_str());
        assign(&mut query, Groups::DisplayName.as_str(), &request.display_name);
        update_and_where(
            &mut query,
            equal(column(Groups::GroupId.as_str()), integer_literal(request.group_id.0)),
        );
        proof {
            let built = update_shape(query).unwrap();
            assert(built.values =~= group_update(request).values);
            assert(built.conditions =~= group_update(request).conditions);
        }
        Some(update_to_string(&query))
    }

    /// The statements that create a group with the display name `group_name`
    /// and find the id that the database gave it.
    pub fn create_group_query(&self, group_name: &str) -> (creation: GroupCreation)
        ensures
            creation.insert@ == insert_sql(group_insertion(group_name@)),
            creation.lookup@ == select_sql(group_id_lookup(group_name@)),
    {
        let mut query = insert_new();
        insert_into_table(&mut query, Groups::Table.as_str());
        let columns: Vec<&'static str> = vec![Groups::DisplayName.as_str()];
        assert(texts(columns@) =~= group_insertion(group_name@).columns);
        insert_columns(&mut query, columns);
        let mut values: Vec<Expr> = Vec::new();
        values.push(text_literal(group_name));
        assert(shapes(values@) =~= group_insertion(group_name@).rows[0]);
        insert_values(&mut query, values);
        assert(insert_shape(query).unwrap().rows =~= group_insertion(group_name@).rows);
        let insert = insert_to_string(&query);
        let mut query = select_new();
        select_expr(&mut query, column(Groups::GroupId.as_str()));
        select_from(&mut query, Groups::Table.as_str());
        select_and_where(
            &mut query,
            equal(column(Groups::DisplayName.as_str()), text_literal(group_name)),
        );
        proof {
            let built = select_shape(query).unwrap();
            assert(built.columns =~= group_id_lookup(group_name@).columns);
            assert(built.tables =~= group_id_lookup(group_name@).tables);
            assert(built.conditions =~= group_id_lookup(group_name@).conditions);
        }
        let lookup = select_to_string(&query);
        GroupCreation { insert, lookup }
    }

    /// The statement that deletes the group with the id `group_id`.
    pub fn delete_group_query(&self, group_id: GroupId) -> (sql: String)
        ensures
            sql@ == delete_sql(group_deletion(group_id)),
    {
        let mut query = delete_new();
        delete_from_table(&mut query, Groups::Table.as_str());
        delete_and_where(
            &mut query,
            equal(column(Groups::GroupId.as_str()), integer_literal(group_id.0)),
        );
        assert(delete_shape(query).unwrap().conditions =~= group_deletion(group_id).conditions);
        delete_to_string(&query)
    }

    /// The statement that makes the user `user_id` a member of the group
    /// `group_id`.
    pub fn add_user_to_group_query(&self, user_id: &str, group_id: GroupId) -> (sql: String)
        ensures
            sql@ == insert_sql(membership_insertion(user_id@, group_id)),
    {
        let mut query = insert_new();
        insert_into_table(&mut query, Memberships::Table.as_str());
        let columns: Vec<&'static str> = vec![
            Memberships::UserId.as_str(),
            Memberships::GroupId.as_str(),
        ];
        assert(texts(columns@) =~= membership_insertion(user_id@, group_id).columns);
        insert_columns(&mut query, columns);
        let mut values: Vec<Expr> = Vec::new();
        values.push(text_literal(user_id));
        values.push(integer_literal(group_id.0));
        assert(shapes(values@) =~= membership_insertion(user_id@, group_id).rows[0]);
        insert_values(&mut query, values);
        assert(insert_shape(query).unwrap().rows =~= membership_insertion(user_id@, group_id).rows);
        insert_to_string(&query)
    }

    /// The statement that ends the membership of the user `user_id` in the
    /// group `group_id`.
    pub fn remove_user_from_group_query(&self, user_id: &str, group_id: GroupId) -> (sql: String)
        ensures
            sql@ == delete_sql(membership_deletion(user_id@, group_id)),
    {
        let mut query = delete_new();
        delete_from_table(&mut query, Memberships::Table.as_str());
        delete_and_where(
            &mut query,
            equal(column(Memberships::GroupId.as_str()), integer_literal(group_id.0)),
        );
        delete_and_where(
            &mut query,
            equal(column(Memberships::UserId.as_str()), text_literal(user_id)),
        );
        assert(delete_shape(query).unwrap().conditions =~= membership_deletion(
            user_id@,
            group_id,
        ).conditions);
        delete_to_string(&query)
    }
}

} // verus!
