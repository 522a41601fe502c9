//! The operations on users: for each, the statement to run against the
//! database.

use crate::clock::current_time;
use crate::expr::bare;
use crate::expr::bare_is_text;
use crate::expr::column;
use crate::expr::columns_match;
use crate::expr::equal;
use crate::expr::expr_shape;
use crate::expr::qualified;
use crate::expr::table_column;
use crate::expr::text_literal;
use crate::expr::timestamp_literal;
use crate::expr::ExprShape;
use crate::filter::condition;
use crate::filter::get_filter_expr;
use crate::filter::requires_group;
use crate::handler::SqlBackendHandler;
use crate::model::text_or_empty;
use crate::model::CreateUserRequest;
use crate::model::RequestFilter;
use crate::model::UpdateUserRequest;
use crate::schema::Groups;
use crate::schema::Memberships;
use crate::schema::Users;
use crate::statement::assign;
use crate::statement::assignment;
use crate::statement::delete_and_where;
use crate::statement::delete_from_table;
use crate::statement::delete_new;
use crate::statement::delete_shape;
use crate::statement::delete_sql;
use crate::statement::delete_to_string;
use crate::statement::insert_columns;
use crate::statement::insert_into_table;
use crate::statement::insert_new;
use crate::statement::insert_shape;
use crate::statement::insert_sql;
use crate::statement::insert_to_string;
use crate::statement::insert_values;
use crate::statement::select_and_where;
use crate::statement::select_expr;
use crate::statement::select_from;
use crate::statement::select_left_join;
use crate::statement::select_new;
use crate::statement::select_order_by;
use crate::statement::select_shape;
use crate::statement::select_sql;
use crate::statement::select_to_string;
use crate::statement::shapes;
use crate::statement::texts;
use crate::statement::update_and_where;
use crate::statement::update_new;
use crate::statement::update_shape;
use crate::statement::update_sql;
use crate::statement::update_table;
use crate::statement::update_to_string;
use crate::statement::DeleteShape;
use crate::statement::InsertShape;
use crate::statement::JoinKind;
use crate::statement::JoinShape;
use crate::statement::SelectShape;
use crate::statement::UpdateShape;
use sea_query::Expr;
use vstd::prelude::*;

verus! {

/// How the users that a listing asks for are found.
#[derive(Debug, PartialEq, Eq)]
pub enum UserListing {
    /// No user can match: the listing is empty, and the database is not asked.
    Nothing,
    /// The users are the rows that this statement selects.
    Query(String),
}

/// Whether `filter` is the negation of the empty conjunction. No user
/// matches it.
pub open spec fn matches_nothing(filter: RequestFilter) -> bool {
    filter matches RequestFilter::Not(inner) && (*inner matches RequestFilter::And(fs) && fs@.len()
        == 0)
}

/// Whether `filter` is the empty conjunction or the empty disjunction. Both
/// are taken as true of every user.
pub open spec fn matches_everything(filter: RequestFilter) -> bool {
    (filter matches RequestFilter::And(fs) && fs@.len() == 0) || (filter matches RequestFilter::Or(
        fs,
    ) && fs@.len() == 0)
}

/// The statement that selects every user, with the columns of a user, in the
/// order of the user ids.
pub open spec fn all_users() -> SelectShape {
    SelectShape {
        columns: seq![
            qualified(Users::Table.name(), Users::UserId.name()),
            bare(Users::Email.name()),
            qualified(Users::Table.name(), Users::DisplayName.name()),
            bare(Users::FirstName.name()),
            bare(Users::LastName.name()),
            bare(Users::Avatar.name()),
            bare(Users::CreationDate.name()),
        ],
        tables: seq![Users::Table.name()],
        joins: Seq::empty(),
        conditions: Seq::empty(),
        orders: seq![qualified(Users::Table.name(), Users::UserId.name())],
    }
}

/// The joins that bring to each user the groups it is a member of: the
/// memberships by the user id, then the groups by the group id. Both are
/// left joins, so that a user without a group stays.
pub open spec fn group_joins() -> Seq<JoinShape> {
    seq![
        JoinShape {
            kind: JoinKind::Left,
            table: Memberships::Table.name(),
            on: columns_match(
                Users::Table.name(),
                Users::UserId.name(),
                Memberships::Table.name(),
                Memberships::UserId.name(),
            ),
        },
        JoinShape {
            kind: JoinKind::Left,
            table: Groups::Table.name(),
            on: columns_match(
                Memberships::Table.name(),
                Memberships::GroupId.name(),
                Groups::Table.name(),
                Groups::GroupId.name(),
            ),
        },
    ]
}

/// The statement that selects the users that `filter` asks for: that of all
/// users, with the condition of the filter, and with the joins to the groups
/// where the filter speaks of groups.
pub open spec fn users_where(filter: RequestFilter) -> SelectShape {
    SelectShape {
        conditions: seq![condition(filter)],
        joins: if requires_group(filter) {
            group_joins()
        } else {
            Seq::empty()
        },
        ..all_users()
    }
}

/// The statement of a listing of users: none where no user can match the
/// filter; that of all users where there is no filter or every user matches
/// it.
pub open spec fn user_listing(filters: Option<RequestFilter>) -> Option<SelectShape> {
    match filters {
        None => Some(all_users()),
        Some(filter) => if matches_nothing(filter) {
            None
        } else if matches_everything(filter) {
            Some(all_users())
        } else {
            Some(users_where(filter))
        },
    }
}

/// The statement that selects the user with the id `user_id`.
pub open spec fn user_details(user_id: Seq<char>) -> SelectShape {
    SelectShape {
        columns: seq![
            bare(Users::UserId.name()),
            bare(Users::Email.name()),
            bare(Users::DisplayName.name()),
            bare(Users::FirstName.name()),
            bare(Users::LastName.name()),
            bare(Users::Avatar.name()),
            bare(Users::CreationDate.name()),
        ],
        tables: seq![Users::Table.name()],
        joins: Seq::empty(),
        conditions: seq![bare_is_text(Users::UserId.name(), user_id)],
        orders: Seq::empty(),
    }
}

/// The statement that inserts the user of `request`, created at `now`. The
/// names that the request leaves out are stored as empty text.
pub open spec fn user_insertion(
    request: CreateUserRequest,
    now: chrono::NaiveDateTime,
) -> InsertShape {
    InsertShape {
        table: Some(Users::Table.name()),
        columns: seq![
            Users::UserId.name(),
            Users::Email.name(),
            Users::DisplayName.name(),
            Users::FirstName.name(),
            Users::LastName.name(),
            Users::CreationDate.name(),
        ],
        rows: seq![
            seq![
                ExprShape::Text(request.user_id@),
                ExprShape::Text(request.email@),
                ExprShape::Text(text_or_empty(request.display_name)),
                ExprShape::Text(text_or_empty(request.first_name)),
                ExprShape::Text(text_or_empty(request.last_name)),
                ExprShape::Timestamp(now),
            ],
        ],
    }
}

/// The columns that `request` sets, each with its new value: the fields
/// that are there, in the order email, display name, first name, last name.
pub open spec fn user_assignments(request: UpdateUserRequest) -> Seq<(Seq<char>, ExprShape)> {
    assignment(Users::Email.name(), request.email) + assignment(
        Users::DisplayName.name(),
        request.display_name,
    ) + assignment(Users::FirstName.name(), request.first_name) + assignment(
        Users::LastName.name(),
        request.last_name,
    )
}

/// Whether `request` leaves every field out, and so asks for no change.
pub open spec fn changes_nothing(request: UpdateUserRequest) -> bool {
    request.email is None && request.display_name is None && request.first_name is None
        && request.last_name is None
}

/// The statement that changes the user of `request` as it asks.
pub open spec fn user_update(request: UpdateUserRequest) -> UpdateShape {
    UpdateShape {
        table: Some(Users::Table.name()),
        values: user_assignments(request),
        conditions: seq![bare_is_text(Users::UserId.name(), request.user_id@)],
    }
}

/// The statement that deletes the user with the id `user_id`.
pub open spec fn user_deletion(user_id: Seq<char>) -> DeleteShape {
    DeleteShape {
        table: Some(Users::Table.name()),
        conditions: seq![bare_is_text(Users::UserId.name(), user_id)],
    }
}

/// The empty conjunction and the empty disjunction, as filters, give the
/// statement that no filter gives: that of all users, with no condition and no
/// join.
pub proof fn lemma_empty_list_is_no_filter(filter: RequestFilter)
    requires
        matches_everything(filter),
    ensures
        user_listing(Some(filter)) == user_listing(None),
        user_listing(Some(filter)) == Some(all_users()),
{
}

/// The negation of the empty conjunction, as a filter, gives no statement:
/// the listing is empty whatever the database holds.
pub proof fn lemma_negated_empty_conjunction_lists_nothing(filter: RequestFilter)
    requires
        matches_nothing(filter),
    ensures
        user_listing(Some(filter)) is None,
{
}

/// A filter that is neither gives the statement of all users with one
/// condition more, that of the filter, and joins the groups exactly where the
/// filter speaks of them.
pub proof fn lemma_filter_adds_condition_and_joins(filter: RequestFilter)
    requires
        !matches_nothing(filter),
        !matches_everything(filter),
    ensures
        user_listing(Some(filter)) matches Some(shape) && shape.conditions == seq![
            condition(filter),
        ] && (shape.joins.len() > 0 <==> requires_group(filter)) && shape.columns
            == all_users().columns && shape.orders == all_users().orders && shape.tables
            == all_users().tables,
{
}

/// A change of a user never sets its id: the column of the user id is
/// none of the columns that the statement sets.
pub proof fn lemma_update_keeps_the_user_id(request: UpdateUserRequest)
    ensures
        forall|i: int|
            0 <= i < user_assignments(request).len() ==> (#[trigger] user_assignments(
                request,
            )[i]).0 != Users::UserId.name(),
{
    let email = assignment(Users::Email.name(), request.email);
    let display_name = assignment(Users::DisplayName.name(), request.display_name);
    let first_name = assignment(Users::FirstName.name(), request.first_name);
    let last_name = assignment(Users::LastName.name(), request.last_name);
    reveal_strlit("user_id");
    reveal_strlit("email");
    reveal_strlit("display_name");
    reveal_strlit("first_name");
    reveal_strlit("last_name");
    assert(Users::UserId.name().len() == 7);
    assert(Users::Email.name().len() == 5);
    assert(Users::DisplayName.name().len() == 12);
    assert(Users::FirstName.name().len() == 10);
    assert(Users::LastName.name().len() == 9);
    assert forall|i: int| 0 <= i < user_assignments(request).len() implies (
    #[trigger] user_assignments(request)[i]).0 != Users::UserId.name() by {
        let all = user_assignments(request);
        if i < email.len() {
            assert(all[i] == email[i]);
        } else if i < email.len() + display_name.len() {
            assert(all[i] == display_name[i - email.len()]);
        } else if i < email.len() + display_name.len() + first_name.len() {
            assert(all[i] == first_name[i - email.len() - display_name.len()]);
        } else {
            assert(all[i] == last_name[i - email.len() - display_name.len() - first_name.len()]);
        }
    }
}

/// Whether `filter` is the negation of the empty conjunction.
pub fn is_match_nothing(filter: &RequestFilter) -> (b: bool)
    ensures
        b == matches_nothing(*filter),
{
    match filter {
        RequestFilter::Not(inner) => match &**inner {
            RequestFilter::And(fs) => fs.len() == 0,
            _ => false,
        },
        _ => false,
    }
}

/// Whether `filter` is the empty conjunction or the empty disjunction.
pub fn is_match_everything(filter: &RequestFilter) -> (b: bool)
    ensures
        b == matches_everything(*filter),
{
    match filter {
        RequestFilter::And(fs) => fs.len() == 0,
        RequestFilter::Or(fs) => fs.len() == 0,
        _ => false,
    }
}

/// The text of `field` as a constant, or the empty text where the field is
/// left out.
fn text_or_empty_literal(field: &Option<String>) -> (e: Expr)
    ensures
        expr_shape(e) == Some(ExprShape::Text(text_or_empty(*field))),
{
    match field {
        Some(text) => text_literal(text.as_str()),
        None => {
            let empty = String::new();
            text_literal(empty.as_str())
        },
    }
}

impl<Pool> SqlBackendHandler<Pool> {
    /// The statement that lists the users that `filters` asks for, in the
    /// order of their user ids.
    pub fn list_users_query(&self, filters: Option<RequestFilter>) -> (listing: UserListing)
        ensures
            match user_listing(filters) {
                None => listing is Nothing,
                Some(shape) => listing matches UserListing::Query(sql) && sql@ == select_sql(
                    shape,
                ),
            },
    {
        let mut query_builder = select_new();
        select_expr(&mut query_builder, table_column(Users::Table.as_str(), Users::UserId.as_str()));
        select_expr(&mut query_builder, column(Users::Email.as_str()));
        select_expr(
            &mut query_builder,
            table_column(Users::Table.as_str(), Users::DisplayName.as_str()),
        );
        select_expr(&mut query_builder, column(Users::FirstName.as_str()));
        select_expr(&mut query_builder, column(Users::LastName.as_str()));
        select_expr(&mut query_builder, column(Users::Avatar.as_str()));
        select_expr(&mut query_builder, column(Users::CreationDate.as_str()));
        select_from(&mut query_builder, Users::Table.as_str());
        select_order_by(
            &mut query_builder,
            table_column(Users::Table.as_str(), Users::UserId.as_str()),
        );
        proof {
            let built = select_shape(query_builder).unwrap();
            assert(built.columns =~= all_users().columns);
            assert(built.tables =~= all_users().tables);
            assert(built.orders =~= all_users().orders);
        }
        if let Some(filter) = filters {
            if is_match_nothing(&filter) {
                return UserListing::Nothing;
            }
            if !is_match_everything(&filter) {
                let (group, condition) = get_filter_expr(&filter);
                select_and_where(&mut query_builder, condition);
                if group.0 {
                    select_left_join(
                        &mut query_builder,
                        Memberships::Table.as_str(),
                        equal(
                            table_column(Users::Table.as_str(), Users::UserId.as_str()),
                            table_column(Memberships::Table.as_str(), Memberships::UserId.as_str()),
                        ),
                    );
                    select_left_join(
                        &mut query_builder,
                        Groups::Table.as_str(),
                        equal(
                            table_column(
                                Memberships::Table.as_str(),
                                Memberships::GroupId.as_str(),
                            ),
                            table_column(Groups::Table.as_str(), Groups::GroupId.as_str()),
                        ),
                    );
                }
                proof {
                    let built = select_shape(query_builder).unwrap();
                    assert(built.conditions =~= users_where(filter).conditions);
                    assert(built.joins =~= users_where(filter).joins);
                }
            }
        }
        UserListing::Query(select_to_string(&query_builder))
    }

    /// The statement that selects the user with the id `user_id`.
    pub fn get_user_details_query(&self, user_id: &str) -> (sql: String)
        ensures
            sql@ == select_sql(user_details(user_id@)),
    {
        let mut query = select_new();
        select_expr(&mut query, column(Users::UserId.as_str()));
        select_expr(&mut query, column(Users::Email.as_str()));
        select_expr(&mut query, column(Users::DisplayName.as_str()));
        select_expr(&mut query, column(Users::FirstName.as_str()));
        select_expr(&mut query, column(Users::LastName.as_str()));
        select_expr(&mut query, column(Users::Avatar.as_str()));
        select_expr(&mut query, column(Users::CreationDate.as_str()));
        select_from(&mut query, Users::Table.as_str());
        select_and_where(&mut query, equal(column(Users::UserId.as_str()), text_literal(user_id)));
        proof {
            let built = select_shape(query).unwrap();
            assert(built.columns =~= user_details(user_id@).columns);
            assert(built.tables =~= user_details(user_id@).tables);
            assert(built.conditions =~= user_details(user_id@).conditions);
        }
        select_to_string(&query)
    }

    /// The statement that inserts the user of `request`, created at `now`.
    pub fn create_user_query_at(
        &self,
        request: CreateUserRequest,
        now: chrono::NaiveDateTime,
    ) -> (sql: String)
        ensures
            sql@ == insert_sql(user_insertion(request, now)),
    {
        let mut query = insert_new();
        insert_into_table(&mut query, Users::Table.as_str());
        let columns: Vec<&'static str> = vec![
            Users::UserId.as_str(),
            Users::Email.as_str(),
            Users::DisplayName.as_str(),
            Users::FirstName.as_str(),
            Users::LastName.as_str(),
            Users::CreationDate.as_str(),
        ];
        assert(texts(columns@) =~= user_insertion(request, now).columns);
        insert_columns(&mut query, columns);
        let mut values: Vec<Expr> = Vec::new();
        values.push(text_literal(request.user_id.as_str()));
        values.push(text_literal(request.email.as_str()));
        values.push(text_or_empty_literal(&request.display_name));
        values.push(text_or_empty_literal(&request.first_name));
        values.push(text_or_empty_literal(&request.last_name));
        values.push(timestamp_literal(now));
        assert(shapes(values@) =~= user_insertion(request, now).rows[0]);
        insert_values(&mut query, values);
        assert(insert_shape(query).unwrap().rows =~= user_insertion(request, now).rows);
        insert_to_string(&query)
    }

    /// The statement that inserts the user of `request`, created at the time
    /// of the call.
    pub fn create_user_query(&self, request: CreateUserRequest) -> (sql: String)
        ensures
            exists|now: chrono::NaiveDateTime| sql@ == #[trigger] insert_sql(
                user_insertion(request, now),
            ),
    {
        let now = current_time();
        self.create_user_query_at(request, now)
    }

    /// The statement that changes the user of `request` as it asks; none
    /// where the request asks for no change.
    pub fn update_user_query(&self, request: UpdateUserRequest) -> (sql: Option<String>)
        ensures
            changes_nothing(request) ==> sql is None,
            !changes_nothing(request) ==> (sql matches Some(text) && text@ == update_sql(
                user_update(request),
            )),
    {
        if request.email.is_none() && request.display_name.is_none()
            && request.first_name.is_none() && request.last_name.is_none() {
            return None;
        }
        let mut query = update_new();
        update_table(&mut query, Users::Table.as_str());
        assign(&mut query, Users::Email.as_str(), &request.email);
        assign(&mut query, Users::DisplayName.as_str(), &request.display_name);
        assign(&mut query, Users::FirstName.as_str(), &request.first_name);
        assign(&mut query, Users::LastName.as_str(), &request.last_name);
        update_and_where(
            &mut query,
            equal(column(Users::UserId.as_str()), text_literal(request.user_id.as_str())),
        );
        proof {
            let built = update_shape(query).unwrap();
            assert(built.values =~= user_update(request).values);
            assert(built.conditions =~= user_update(request).conditions);
        }
        Some(update_to_string(&query))
    }

    /// The statement that deletes the user with the id `user_id`.
    pub fn delete_user_query(&self, user_id: &str) -> (sql: String)
        ensures
            sql@ == delete_sql(user_deletion(user_id@)),
    {
        let mut query = delete_new();
        delete_from_table(&mut query, Users::Table.as_str());
        delete_and_where(&mut query, equal(column(Users::UserId.as_str()), text_literal(user_id)));
        assert(delete_shape(query).unwrap().conditions =~= user_deletion(user_id@).conditions);
        delete_to_string(&query)
    }
}

} // verus!
