//! The filter compiler: from a filter over users to the condition of a
//! statement, and whether that condition speaks of groups.

use crate::expr::and;
use crate::expr::bool_literal;
use crate::expr::custom;
use crate::expr::equal;
use crate::expr::expr_shape;
use crate::expr::integer_literal;
use crate::expr::not;
use crate::expr::or;
use crate::expr::table_column;
use crate::expr::text_literal;
use crate::expr::ExprShape;
use crate::model::RequestFilter;
use crate::schema::Groups;
use crate::schema::Users;
use sea_query::Expr;
use vstd::prelude::*;

verus! {

/// Whether a condition speaks of groups, so that the statement that carries
/// it has to join the memberships and the groups.
#[derive(Clone, Copy, Debug, PartialEq, Eq, Structural)]
pub struct RequiresGroup(pub bool);

/// How the filters of a list are combined.
#[derive(Clone, Copy, Debug, PartialEq, Eq, Structural)]
pub enum Connective {
    And,
    Or,
}

/// `column = value` for a column of a table and a text.
pub open spec fn column_is_text(table: Seq<char>, name: Seq<char>, value: Seq<char>) -> ExprShape {
    ExprShape::Equal(
        Box::new(ExprShape::Column { table: Some(table), name }),
        Box::new(ExprShape::Text(value)),
    )
}

/// `column = value` for a column of a table and an integer.
pub open spec fn column_is_integer(table: Seq<char>, name: Seq<char>, value: int) -> ExprShape {
    ExprShape::Equal(
        Box::new(ExprShape::Column { table: Some(table), name }),
        Box::new(ExprShape::Integer(value)),
    )
}

/// The condition that the attribute `field` of a user is `value`: the
/// display name and the user id are columns of the users table, any other
/// field is taken over as it is written.
pub open spec fn attribute_is(field: Seq<char>, value: Seq<char>) -> ExprShape {
    if field == Users::DisplayName.name() {
        column_is_text(Users::Table.name(), Users::DisplayName.name(), value)
    } else if field == Users::UserId.name() {
        column_is_text(Users::Table.name(), Users::UserId.name(), value)
    } else {
        ExprShape::Equal(Box::new(ExprShape::Custom(field)), Box::new(ExprShape::Text(value)))
    }
}

/// `left` and `right` joined by `connective`.
pub open spec fn connect(connective: Connective, left: ExprShape, right: ExprShape) -> ExprShape {
    match connective {
        Connective::And => ExprShape::And(Box::new(left), Box::new(right)),
        Connective::Or => ExprShape::Or(Box::new(left), Box::new(right)),
    }
}

/// Whether `filter` speaks of group membership anywhere.
pub open spec fn requires_group(filter: RequestFilter) -> bool
    decreases filter, 0nat,
{
    match filter {
        RequestFilter::And(fs) => any_requires_group(fs@, fs@.len()),
        RequestFilter::Or(fs) => any_requires_group(fs@, fs@.len()),
        RequestFilter::Not(f) => requires_group(*f),
        RequestFilter::Equality(_, _) => false,
        RequestFilter::MemberOf(_) => true,
        RequestFilter::MemberOfId(_) => true,
    }
}

/// Whether one of the first `n` filters of `fs` speaks of group membership.
pub open spec fn any_requires_group(fs: Seq<RequestFilter>, n: nat) -> bool
    decreases fs, n,
{
    if n == 0 || n > fs.len() {
        false
    } else {
        any_requires_group(fs, (n - 1) as nat) || requires_group(fs[n - 1])
    }
}

/// The condition that `filter` compiles to.
pub open spec fn condition(filter: RequestFilter) -> ExprShape
    decreases filter, 0nat,
{
    match filter {
        RequestFilter::And(fs) => combined(Connective::And, fs@, fs@.len()),
        RequestFilter::Or(fs) => combined(Connective::Or, fs@, fs@.len()),
        RequestFilter::Not(f) => ExprShape::Not(Box::new(condition(*f))),
        RequestFilter::Equality(field, value) => attribute_is(field@, value@),
        RequestFilter::MemberOf(group) => column_is_text(
            Groups::Table.name(),
            Groups::DisplayName.name(),
            group@,
        ),
        RequestFilter::MemberOfId(id) => column_is_integer(
            Groups::Table.name(),
            Groups::GroupId.name(),
            id.0 as int,
        ),
    }
}

/// The conditions of the first `n` filters of `fs`, joined from the left by
/// `connective`; the constant true where there is none.
pub open spec fn combined(connective: Connective, fs: Seq<RequestFilter>, n: nat) -> ExprShape
    decreases fs, n,
{
    if n == 0 || n > fs.len() {
        ExprShape::Bool(true)
    } else if n == 1 {
        condition(fs[0])
    } else {
        connect(connective, combined(connective, fs, (n - 1) as nat), condition(fs[n - 1]))
    }
}

/// A list of filters asks for groups exactly where one of its filters does.
pub proof fn lemma_any_requires_group(fs: Seq<RequestFilter>, n: nat)
    requires
        n <= fs.len(),
    ensures
        any_requires_group(fs, n) <==> exists|i: int| 0 <= i < n && #[trigger] requires_group(fs[i]),
    decreases n,
{
    if n > 0 {
        lemma_any_requires_group(fs, (n - 1) as nat);
        if any_requires_group(fs, n) {
            if requires_group(fs[n - 1]) {
            } else {
                let i = choose|i: int| 0 <= i < n - 1 && #[trigger] requires_group(fs[i]);
                assert(0 <= i < n && requires_group(fs[i]));
            }
        }
        if exists|i: int| 0 <= i < n && #[trigger] requires_group(fs[i]) {
            let i = choose|i: int| 0 <= i < n && #[trigger] requires_group(fs[i]);
            if i < n - 1 {
                assert(0 <= i < n - 1 && requires_group(fs[i]));
            }
        }
    }
}

/// A list without a filter compiles to the constant true and asks for no
/// group, whether its filters are to be conjoined or disjoined.
pub proof fn lemma_empty_list_compiles_to_true(filter: RequestFilter)
    requires
        (filter matches RequestFilter::And(fs) && fs@.len() == 0) || (
        filter matches RequestFilter::Or(fs) && fs@.len() == 0),
    ensures
        condition(filter) == ExprShape::Bool(true),
        !requires_group(filter),
{
    reveal_with_fuel(condition, 2);
    reveal_with_fuel(requires_group, 2);
}

/// Whether `shape` names a column of the table `table`.
pub open spec fn names_table(shape: ExprShape, table: Seq<char>) -> bool
    decreases shape,
{
    match shape {
        ExprShape::Column { table: Some(of), name } => of == table,
        ExprShape::Equal(left, right) => names_table(*left, table) || names_table(*right, table),
        ExprShape::And(left, right) => names_table(*left, table) || names_table(*right, table),
        ExprShape::Or(left, right) => names_table(*left, table) || names_table(*right, table),
        ExprShape::Not(inner) => names_table(*inner, table),
        _ => false,
    }
}

/// The join is asked for exactly where it is needed: a filter asks for
/// groups if and only if its condition names a column of the groups table.
pub proof fn lemma_join_where_groups_are_named(filter: RequestFilter)
    ensures
        requires_group(filter) <==> names_table(condition(filter), Groups::Table.name()),
    decreases filter, 0nat,
{
    reveal_strlit("users");
    reveal_strlit("groups");
    reveal_with_fuel(names_table, 3);
    assert(Users::Table.name().len() != Groups::Table.name().len());
    match filter {
        RequestFilter::And(fs) => {
            lemma_join_where_groups_are_named_in_list(Connective::And, fs@, fs@.len());
        },
        RequestFilter::Or(fs) => {
            lemma_join_where_groups_are_named_in_list(Connective::Or, fs@, fs@.len());
        },
        RequestFilter::Not(f) => {
            lemma_join_where_groups_are_named(*f);
        },
        _ => {},
    }
}

/// A list of filters asks for groups if and only if its condition names a
/// column of the groups table.
proof fn lemma_join_where_groups_are_named_in_list(
    connective: Connective,
    fs: Seq<RequestFilter>,
    n: nat,
)
    requires
        n <= fs.len(),
    ensures
        any_requires_group(fs, n) <==> names_table(
            combined(connective, fs, n),
            Groups::Table.name(),
        ),
    decreases fs, n,
{
    if n == 1 {
        lemma_join_where_groups_are_named(fs[0]);
        assert(!any_requires_group(fs, 0));
    } else if n > 1 {
        lemma_join_where_groups_are_named_in_list(connective, fs, (n - 1) as nat);
        lemma_join_where_groups_are_named(fs[n - 1]);
    }
}

/// Negation changes the condition and not the need for groups.
pub proof fn lemma_negation_keeps_the_join(filter: RequestFilter)
    ensures
        requires_group(RequestFilter::Not(Box::new(filter))) == requires_group(filter),
        condition(RequestFilter::Not(Box::new(filter))) == ExprShape::Not(
            Box::new(condition(filter)),
        ),
{
}

/// Compiles the filters of a list and joins their conditions from the left
/// by `connective`. An empty list gives the constant true and asks for no
/// group.
fn get_repeated_filter(fs: &Vec<RequestFilter>, connective: Connective) -> (compiled: (
    RequiresGroup,
    Expr,
))
    ensures
        compiled.0.0 == any_requires_group(fs@, fs@.len()),
        expr_shape(compiled.1) == Some(combined(connective, fs@, fs@.len())),
    decreases *fs, 1nat,
{
    if fs.len() == 0 {
        return (RequiresGroup(false), bool_literal(true));
    }
    let (first_group, first_expr) = get_filter_expr(&fs[0]);
    let mut joins: bool = first_group.0;
    let mut filter: Expr = first_expr;
    let mut i: usize = 1;
    assert(!any_requires_group(fs@, 0));
    while i < fs.len()
        invariant
            1 <= i <= fs.len(),
            joins == any_requires_group(fs@, i as nat),
            expr_shape(filter) == Some(combined(connective, fs@, i as nat)),
        decreases fs.len() - i,
    {
        let (group, next) = get_filter_expr(&fs[i]);
        joins = joins || group.0;
        filter = match connective {
            Connective::And => and(filter, next),
            Connective::Or => or(filter, next),
        };
        i = i + 1;
    }
    (RequiresGroup(joins), filter)
}

/// Compiles a filter over users into the condition of a statement, and says
/// whether that condition speaks of groups, so that the statement has to
/// join the memberships and the groups.
pub fn get_filter_expr(filter: &RequestFilter) -> (compiled: (RequiresGroup, Expr))
    ensures
        compiled.0.0 == requires_group(*filter),
        expr_shape(compiled.1) == Some(condition(*filter)),
    decreases *filter, 0nat,
{
    match filter {
        RequestFilter::And(fs) => get_repeated_filter(fs, Connective::And),
        RequestFilter::Or(fs) => get_repeated_filter(fs, Connective::Or),
        RequestFilter::Not(f) => {
            let (group, inner) = get_filter_expr(f);
            (group, not(inner))
        },
        RequestFilter::Equality(field, value) => {
            let display_name: String = Users::DisplayName.as_str().to_owned();
            let user_id: String = Users::UserId.as_str().to_owned();
            let left = if *field == display_name {
                table_column(Users::Table.as_str(), Users::DisplayName.as_str())
            } else if *field == user_id {
                table_column(Users::Table.as_str(), Users::UserId.as_str())
            } else {
                custom(field.as_str())
            };
            (RequiresGroup(false), equal(left, text_literal(value.as_str())))
        },
        RequestFilter::MemberOf(group) => (
            RequiresGroup(true),
            equal(
                table_column(Groups::Table.as_str(), Groups::DisplayName.as_str()),
                text_literal(group.as_str()),
            ),
        ),
        RequestFilter::MemberOfId(id) => (
            RequiresGroup(true),
            equal(
                table_column(Groups::Table.as_str(), Groups::GroupId.as_str()),
                integer_literal(id.0),
            ),
        ),
    }
}

} // verus!
