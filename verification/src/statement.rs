//! Statements: the four statement types of `sea_query`, what each holds, the
//! builder calls this library makes on them, and their text for SQLite.

use crate::expr::expr_shape;
use crate::expr::text_literal;
use crate::expr::ExprShape;
use sea_query::Alias;
use sea_query::DeleteStatement;
use sea_query::Expr;
use sea_query::InsertStatement;
use sea_query::Order;
use sea_query::SelectStatement;
use sea_query::SqliteQueryBuilder;
use sea_query::UpdateStatement;
use vstd::prelude::*;

verus! {

/// The `SELECT` statement of `sea_query`, opaque to the verifier.
#[verifier::external_type_specification]
#[verifier::external_body]
pub struct ExSelectStatement(sea_query::SelectStatement);

/// The `INSERT` statement of `sea_query`, opaque to the verifier.
#[verifier::external_type_specification]
#[verifier::external_body]
pub struct ExInsertStatement(sea_query::InsertStatement);

/// The `UPDATE` statement of `sea_query`, opaque to the verifier.
#[verifier::external_type_specification]
#[verifier::external_body]
pub struct ExUpdateStatement(sea_query::UpdateStatement);

/// The `DELETE` statement of `sea_query`, opaque to the verifier.
#[verifier::external_type_specification]
#[verifier::external_body]
pub struct ExDeleteStatement(sea_query::DeleteStatement);

/// How a table is joined to those before it.
pub enum JoinKind {
    /// Rows without a partner in the joined table stay.
    Left,
    /// Only rows with a partner in the joined table stay.
    Inner,
}

/// One joined table of a `SELECT` statement.
pub struct JoinShape {
    pub kind: JoinKind,
    pub table: Seq<char>,
    pub on: ExprShape,
}

/// What a `SELECT` statement holds.
pub struct SelectShape {
    /// The expressions it projects, in order.
    pub columns: Seq<ExprShape>,
    /// The tables it selects from.
    pub tables: Seq<Seq<char>>,
    /// The tables it joins, in order.
    pub joins: Seq<JoinShape>,
    /// The conditions it conjoins.
    pub conditions: Seq<ExprShape>,
    /// The expressions it orders by, each ascending, the first one first.
    pub orders: Seq<ExprShape>,
}

/// What an `INSERT` statement holds.
pub struct InsertShape {
    pub table: Option<Seq<char>>,
    pub columns: Seq<Seq<char>>,
    /// The rows to insert, each with one value for each column.
    pub rows: Seq<Seq<ExprShape>>,
}

/// What an `UPDATE` statement holds.
pub struct UpdateShape {
    pub table: Option<Seq<char>>,
    /// The columns to set, each with its new value.
    pub values: Seq<(Seq<char>, ExprShape)>,
    /// The conditions it conjoins.
    pub conditions: Seq<ExprShape>,
}

/// What a `DELETE` statement holds.
pub struct DeleteShape {
    pub table: Option<Seq<char>>,
    /// The conditions it conjoins.
    pub conditions: Seq<ExprShape>,
}

/// What `statement` holds, where it holds nothing but projected expressions,
/// tables named by one name, left and inner joins on one expression,
/// conjoined conditions and ascending orderings, every expression with a
/// shape; `None` for every other statement.
pub uninterp spec fn select_shape(statement: sea_query::SelectStatement) -> Option<SelectShape>;

/// What `statement` holds, where it holds nothing but a table named by one
/// name, columns and rows of expressions with a shape; `None` for every other
/// statement.
pub uninterp spec fn insert_shape(statement: sea_query::InsertStatement) -> Option<InsertShape>;

/// What `statement` holds, where it holds nothing but a table named by one
/// name, columns to set and conjoined conditions, every expression with a
/// shape; `None` for every other statement.
pub uninterp spec fn update_shape(statement: sea_query::UpdateStatement) -> Option<UpdateShape>;

/// What `statement` holds, where it holds nothing but a table named by one
/// name and conjoined conditions with a shape; `None` for every other
/// statement.
pub uninterp spec fn delete_shape(statement: sea_query::DeleteStatement) -> Option<DeleteShape>;

/// The text that `sea_query` writes for SQLite of a `SELECT` statement that
/// holds `shape`.
pub uninterp spec fn select_sql(shape: SelectShape) -> Seq<char>;

/// The text that `sea_query` writes for SQLite of an `INSERT` statement that
/// holds `shape`.
pub uninterp spec fn insert_sql(shape: InsertShape) -> Seq<char>;

/// The text that `sea_query` writes for SQLite of an `UPDATE` statement that
/// holds `shape`.
pub uninterp spec fn update_sql(shape: UpdateShape) -> Seq<char>;

/// The text that `sea_query` writes for SQLite of a `DELETE` statement that
/// holds `shape`.
pub uninterp spec fn delete_sql(shape: DeleteShape) -> Seq<char>;

/// Whether every expression of `values` has a shape.
pub open spec fn all_shaped(values: Seq<Expr>) -> bool {
    forall|i: int| 0 <= i < values.len() ==> (#[trigger] expr_shape(values[i])) is Some
}

/// The shapes of `values`, in order.
pub open spec fn shapes(values: Seq<Expr>) -> Seq<ExprShape> {
    Seq::new(values.len(), |i: int| expr_shape(values[i]).unwrap())
}

/// The texts of `names`, in order.
pub open spec fn texts(names: Seq<&'static str>) -> Seq<Seq<char>> {
    Seq::new(names.len(), |i: int| names[i]@)
}

/// The column `name` set to the text of `field`, where the field is there.
pub open spec fn assignment(name: Seq<char>, field: Option<String>) -> Seq<(Seq<char>, ExprShape)> {
    match field {
        Some(text) => seq![(name, ExprShape::Text(text@))],
        None => Seq::empty(),
    }
}

/// `SelectStatement::new`: a statement that holds nothing.
#[verifier::external_body]
pub(crate) fn select_new() -> (statement: SelectStatement)
    ensures
        select_shape(statement) == Some(
            SelectShape {
                columns: Seq::empty(),
                tables: Seq::empty(),
                joins: Seq::empty(),
                conditions: Seq::empty(),
                orders: Seq::empty(),
            },
        ),
{
    SelectStatement::new()
}

/// `SelectStatement::expr`: `e` becomes the last projected expression.
#[verifier::external_body]
pub(crate) fn select_expr(statement: &mut SelectStatement, e: Expr)
    requires
        select_shape(*old(statement)) is Some,
        expr_shape(e) is Some,
    ensures
        select_shape(*final(statement)) == Some(
            SelectShape {
                columns: select_shape(*old(statement)).unwrap().columns.push(
                    expr_shape(e).unwrap(),
                ),
                ..select_shape(*old(statement)).unwrap()
            },
        ),
{
    statement.expr(e);
}

/// `SelectStatement::from`: `table` becomes the last table selected from.
#[verifier::external_body]
pub(crate) fn select_from(statement: &mut SelectStatement, table: &str)
    requires
        select_shape(*old(statement)) is Some,
    ensures
        select_shape(*final(statement)) == Some(
            SelectShape {
                tables: select_shape(*old(statement)).unwrap().tables.push(table@),
                ..select_shape(*old(statement)).unwrap()
            },
        ),
{
    statement.from(Alias::new(table));
}

/// `SelectStatement::left_join`: `table` becomes the last joined table, left
/// joined on `on`.
#[verifier::external_body]
pub(crate) fn select_left_join(statement: &mut SelectStatement, table: &str, on: Expr)
    requires
        select_shape(*old(statement)) is Some,
        expr_shape(on) is Some,
    ensures
        select_shape(*final(statement)) == Some(
            SelectShape {
                joins: select_shape(*old(statement)).unwrap().joins.push(
                    JoinShape { kind: JoinKind::Left, table: table@, on: expr_shape(on).unwrap() },
                ),
                ..select_shape(*old(statement)).unwrap()
            },
        ),
{
    statement.left_join(Alias::new(table), on);
}

/// `SelectStatement::inner_join`: `table` becomes the last joined table,
/// inner joined on `on`.
#[verifier::external_body]
pub(crate) fn select_inner_join(statement: &mut SelectStatement, table: &str, on: Expr)
    requires
        select_shape(*old(statement)) is Some,
        expr_shape(on) is Some,
    ensures
        select_shape(*final(statement)) == Some(
            SelectShape {
                joins: select_shape(*old(statement)).unwrap().joins.push(
                    JoinShape { kind: JoinKind::Inner, table: table@, on: expr_shape(on).unwrap() },
                ),
                ..select_shape(*old(statement)).unwrap()
            },
        ),
{
    statement.inner_join(Alias::new(table), on);
}

/// `SelectStatement::and_where`: `condition` becomes the last of the
/// conditions that the statement conjoins.
#[verifier::external_body]
pub(crate) fn select_and_where(statement: &mut SelectStatement, condition: Expr)
    requires
        select_shape(*old(statement)) is Some,
        expr_shape(condition) is Some,
    ensures
        select_shape(*final(statement)) == Some(
            SelectShape {
                conditions: select_shape(*old(statement)).unwrap().conditions.push(
                    expr_shape(condition).unwrap(),
                ),
                ..select_shape(*old(statement)).unwrap()
            },
        ),
{
    statement.and_where(condition);
}

/// `SelectStatement::order_by_expr` with `Order::Asc`: `e` becomes the last
/// expression ordered by, ascending.
#[verifier::external_body]
pub(crate) fn select_order_by(statement: &mut SelectStatement, e: Expr)
    requires
        select_shape(*old(statement)) is Some,
        expr_shape(e) is Some,
    ensures
        select_shape(*final(statement)) == Some(
            SelectShape {
                orders: select_shape(*old(statement)).unwrap().orders.push(expr_shape(e).unwrap()),
                ..select_shape(*old(statement)).unwrap()
            },
        ),
{
    statement.order_by_expr(e, Order::Asc);
}

/// `SelectStatement::to_string` with `SqliteQueryBuilder`: the text of the
/// statement for SQLite.
#[verifier::external_body]
pub(crate) fn select_to_string(statement: &SelectStatement) -> (sql: String)
    requires
        select_shape(*statement) is Some,
    ensures
        sql@ == select_sql(select_shape(*statement).unwrap()),
{
    statement.to_string(SqliteQueryBuilder)
}

/// `InsertStatement::new`: a statement that holds nothing.
#[verifier::external_body]
pub(crate) fn insert_new() -> (statement: InsertStatement)
    ensures
        insert_shape(statement) == Some(
            InsertShape { table: None, columns: Seq::empty(), rows: Seq::empty() },
        ),
{
    InsertStatement::new()
}

/// `InsertStatement::into_table`: `table` becomes the table inserted into.
#[verifier::external_body]
pub(crate) fn insert_into_table(statement: &mut InsertStatement, table: &str)
    requires
        insert_shape(*old(statement)) is Some,
    ensures
        insert_shape(*final(statement)) == Some(
            InsertShape { table: Some(table@), ..insert_shape(*old(statement)).unwrap() },
        ),
{
    statement.into_table(Alias::new(table));
}

/// `InsertStatement::columns`: `columns` become the columns of the statement.
#[verifier::external_body]
pub(crate) fn insert_columns(statement: &mut InsertStatement, columns: Vec<&'static str>)
    requires
        insert_shape(*old(statement)) is Some,
    ensures
        insert_shape(*final(statement)) == Some(
            InsertShape { columns: texts(columns@), ..insert_shape(*old(statement)).unwrap() },
        ),
{
    statement.columns(columns);
}

/// `InsertStatement::values_panic`: `values` become the last row to insert.
/// It panics where the row does not have one value for each column.
#[verifier::external_body]
pub(crate) fn insert_values(statement: &mut InsertStatement, values: Vec<Expr>)
    requires
        insert_shape(*old(statement)) is Some,
        all_shaped(values@),
        values@.len() == insert_shape(*old(statement)).unwrap().columns.len(),
        values@.len() > 0,
    ensures
        insert_shape(*final(statement)) == Some(
            InsertShape {
                rows: insert_shape(*old(statement)).unwrap().rows.push(shapes(values@)),
                ..insert_shape(*old(statement)).unwrap()
            },
        ),
{
    statement.values_panic(values);
}

/// `InsertStatement::to_string` with `SqliteQueryBuilder`: the text of the
/// statement for SQLite.
#[verifier::external_body]
pub(crate) fn insert_to_string(statement: &InsertStatement) -> (sql: String)
    requires
        insert_shape(*statement) is Some,
    ensures
        sql@ == insert_sql(insert_shape(*statement).unwrap()),
{
    statement.to_string(SqliteQueryBuilder)
}

/// `UpdateStatement::new`: a statement that holds nothing.
#[verifier::external_body]
pub(crate) fn update_new() -> (statement: UpdateStatement)
    ensures
        update_shape(statement) == Some(
            UpdateShape { table: None, values: Seq::empty(), conditions: Seq::empty() },
        ),
{
    UpdateStatement::new()
}

/// `UpdateStatement::table`: `table` becomes the table updated.
#[verifier::external_body]
pub(crate) fn update_table(statement: &mut UpdateStatement, table: &str)
    requires
        update_shape(*old(statement)) is Some,
    ensures
        update_shape(*final(statement)) == Some(
            UpdateShape { table: Some(table@), ..update_shape(*old(statement)).unwrap() },
        ),
{
    statement.table(Alias::new(table));
}

/// `UpdateStatement::value`: `column`, to be set to `value`, becomes the last
/// of the columns to set.
#[verifier::external_body]
pub(crate) fn update_value(statement: &mut UpdateStatement, column: &str, value: Expr)
    requires
        update_shape(*old(statement)) is Some,
        expr_shape(value) is Some,
    ensures
        update_shape(*final(statement)) == Some(
            UpdateShape {
                values: update_shape(*old(statement)).unwrap().values.push(
                    (column@, expr_shape(value).unwrap()),
                ),
                ..update_shape(*old(statement)).unwrap()
            },
        ),
{
    statement.value(Alias::new(column), value);
}

/// `UpdateStatement::and_where`: `condition` becomes the last of the
/// conditions that the statement conjoins.
#[verifier::external_body]
pub(crate) fn update_and_where(statement: &mut UpdateStatement, condition: Expr)
    requires
        update_shape(*old(statement)) is Some,
        expr_shape(condition) is Some,
    ensures
        update_shape(*final(statement)) == Some(
            UpdateShape {
                conditions: update_shape(*old(statement)).unwrap().conditions.push(
                    expr_shape(condition).unwrap(),
                ),
                ..update_shape(*old(statement)).unwrap()
            },
        ),
{
    statement.and_where(condition);
}

/// `UpdateStatement::to_string` with `SqliteQueryBuilder`: the text of the
/// statement for SQLite.
#[verifier::external_body]
pub(crate) fn update_to_string(statement: &UpdateStatement) -> (sql: String)
    requires
        update_shape(*statement) is Some,
    ensures
        sql@ == update_sql(update_shape(*statement).unwrap()),
{
    statement.to_string(SqliteQueryBuilder)
}

/// `DeleteStatement::new`: a statement that holds nothing.
#[verifier::external_body]
pub(crate) fn delete_new() -> (statement: DeleteStatement)
    ensures
        delete_shape(statement) == Some(DeleteShape { table: None, conditions: Seq::empty() }),
{
    DeleteStatement::new()
}

/// `DeleteStatement::from_table`: `table` becomes the table deleted from.
#[verifier::external_body]
pub(crate) fn delete_from_table(statement: &mut DeleteStatement, table: &str)
    requires
        delete_shape(*old(statement)) is Some,
    ensures
        delete_shape(*final(statement)) == Some(
            DeleteShape { table: Some(table@), ..delete_shape(*old(statement)).unwrap() },
        ),
{
    statement.from_table(Alias::new(table));
}

/// `DeleteStatement::and_where`: `condition` becomes the last of the
/// conditions that the statement conjoins.
#[verifier::external_body]
pub(crate) fn delete_and_where(statement: &mut DeleteStatement, condition: Expr)
    requires
        delete_shape(*old(statement)) is Some,
        expr_shape(condition) is Some,
    ensures
        delete_shape(*final(statement)) == Some(
            DeleteShape {
                conditions: delete_shape(*old(statement)).unwrap().conditions.push(
                    expr_shape(condition).unwrap(),
                ),
                ..delete_shape(*old(statement)).unwrap()
            },
        ),
{
    statement.and_where(condition);
}

/// `DeleteStatement::to_string` with `SqliteQueryBuilder`: the text of the
/// statement for SQLite.
#[verifier::external_body]
pub(crate) fn delete_to_string(statement: &DeleteStatement) -> (sql: String)
    requires
        delete_shape(*statement) is Some,
    ensures
        sql@ == delete_sql(delete_shape(*statement).unwrap()),
{
    statement.to_string(SqliteQueryBuilder)
}

/// Adds to `statement` the column `name`, set to the text of `field`, where
/// the field is there.
pub(crate) fn assign(statement: &mut UpdateStatement, name: &str, field: &Option<String>)
    requires
        update_shape(*old(statement)) is Some,
    ensures
        update_shape(*final(statement)) == Some(
            UpdateShape {
                values: update_shape(*old(statement)).unwrap().values + assignment(name@, *field),
                ..update_shape(*old(statement)).unwrap()
            },
        ),
{
    if let Some(text) = field {
        update_value(statement, name, text_literal(text.as_str()));
        assert(update_shape(*old(statement)).unwrap().values.push((name@, ExprShape::Text(text@)))
            =~= update_shape(*old(statement)).unwrap().values + assignment(name@, *field));
    } else {
        assert(update_shape(*old(statement)).unwrap().values =~= update_shape(
            *old(statement),
        ).unwrap().values + assignment(name@, *field));
    }
}

} // verus!
