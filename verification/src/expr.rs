//! Relational expressions: the `sea_query` expression type, what such an
//! expression is made of, and the constructors this library uses.

use sea_query::Alias;
use sea_query::Expr;
use sea_query::ExprTrait;
use vstd::prelude::*;

verus! {

/// The expression type of `sea_query`, opaque to the verifier.
#[verifier::external_type_specification]
#[verifier::external_body]
pub struct ExExpr(sea_query::Expr);

/// What an expression is made of.
pub enum ExprShape {
    /// A boolean constant.
    Bool(bool),
    /// A text constant.
    Text(Seq<char>),
    /// A 32-bit integer constant.
    Integer(int),
    /// A date and time constant.
    Timestamp(chrono::NaiveDateTime),
    /// A column, qualified by its table or bare.
    Column { table: Option<Seq<char>>, name: Seq<char> },
    /// Text taken over into the statement as it is.
    Custom(Seq<char>),
    /// `left = right`.
    Equal(Box<ExprShape>, Box<ExprShape>),
    /// `left AND right`.
    And(Box<ExprShape>, Box<ExprShape>),
    /// `left OR right`.
    Or(Box<ExprShape>, Box<ExprShape>),
    /// `NOT inner`.
    Not(Box<ExprShape>),
}

/// A column of a table, as an expression.
pub open spec fn qualified(table: Seq<char>, name: Seq<char>) -> ExprShape {
    ExprShape::Column { table: Some(table), name }
}

/// A column named without its table, as an expression.
pub open spec fn bare(name: Seq<char>) -> ExprShape {
    ExprShape::Column { table: None, name }
}

/// `left = right` for two columns, each of a table.
pub open spec fn columns_match(
    left_table: Seq<char>,
    left: Seq<char>,
    right_table: Seq<char>,
    right: Seq<char>,
) -> ExprShape {
    ExprShape::Equal(
        Box::new(qualified(left_table, left)),
        Box::new(qualified(right_table, right)),
    )
}

/// `column = value` for a column named without its table and a text.
pub open spec fn bare_is_text(name: Seq<char>, value: Seq<char>) -> ExprShape {
    ExprShape::Equal(Box::new(bare(name)), Box::new(ExprShape::Text(value)))
}

/// What `e` is made of, where it is built from constants, columns, custom
/// text, `=`, `AND`, `OR` and `NOT` alone; `None` for every other expression.
pub uninterp spec fn expr_shape(e: sea_query::Expr) -> Option<ExprShape>;

/// `Expr::value` of a `bool`: the expression that is this constant
/// (`Expr::Value(Value::Bool(Some(value)))`).
#[verifier::external_body]
pub(crate) fn bool_literal(value: bool) -> (e: Expr)
    ensures
        expr_shape(e) == Some(ExprShape::Bool(value)),
{
    Expr::value(value)
}

/// `Expr::value` of a `String`: the expression that is this text constant
/// (`Expr::Value(Value::String(Some(value)))`).
#[verifier::external_body]
pub(crate) fn text_literal(value: &str) -> (e: Expr)
    ensures
        expr_shape(e) == Some(ExprShape::Text(value@)),
{
    Expr::value(value.to_owned())
}

/// `Expr::value` of an `i32`: the expression that is this integer constant
/// (`Expr::Value(Value::Int(Some(value)))`).
#[verifier::external_body]
pub(crate) fn integer_literal(value: i32) -> (e: Expr)
    ensures
        expr_shape(e) == Some(ExprShape::Integer(value as int)),
{
    Expr::value(value)
}

/// `Expr::value` of a `NaiveDateTime`: the expression that is this date and
/// time constant (`Expr::Value(Value::ChronoDateTime(Some(value)))`).
#[verifier::external_body]
pub(crate) fn timestamp_literal(value: chrono::NaiveDateTime) -> (e: Expr)
    ensures
        expr_shape(e) == Some(ExprShape::Timestamp(value)),
{
    Expr::value(value)
}

/// `Expr::col` of a name: the expression that is the bare column
/// (`Expr::Column` of a column name without a table).
#[verifier::external_body]
pub(crate) fn column(name: &str) -> (e: Expr)
    ensures
        expr_shape(e) == Some(ExprShape::Column { table: None, name: name@ }),
{
    Expr::col(Alias::new(name))
}

/// `Expr::col` of a pair of names: the expression that is the column
/// qualified by its table.
#[verifier::external_body]
pub(crate) fn table_column(table: &str, name: &str) -> (e: Expr)
    ensures
        expr_shape(e) == Some(ExprShape::Column { table: Some(table@), name: name@ }),
{
    Expr::col((Alias::new(table), Alias::new(name)))
}

/// `Expr::cust`: the expression that is the given text, taken over as it is
/// (`Expr::Custom`).
#[verifier::external_body]
pub(crate) fn custom(text: &str) -> (e: Expr)
    ensures
        expr_shape(e) == Some(ExprShape::Custom(text@)),
{
    Expr::cust(text.to_owned())
}

/// `ExprTrait::eq`: the binary expression `left = right`
/// (`Expr::Binary` with `BinOper::Equal`).
#[verifier::external_body]
pub(crate) fn equal(left: Expr, right: Expr) -> (e: Expr)
    requires
        expr_shape(left) is Some,
        expr_shape(right) is Some,
    ensures
        expr_shape(e) == Some(
            ExprShape::Equal(
                Box::new(expr_shape(left).unwrap()),
                Box::new(expr_shape(right).unwrap()),
            ),
        ),
{
    ExprTrait::eq(left, right)
}

/// `ExprTrait::and`: the binary expression `left AND right`
/// (`Expr::Binary` with `BinOper::And`).
#[verifier::external_body]
pub(crate) fn and(left: Expr, right: Expr) -> (e: Expr)
    requires
        expr_shape(left) is Some,
        expr_shape(right) is Some,
    ensures
        expr_shape(e) == Some(
            ExprShape::And(
                Box::new(expr_shape(left).unwrap()),
                Box::new(expr_shape(right).unwrap()),
            ),
        ),
{
    ExprTrait::and(left, right)
}

/// `ExprTrait::or`: the binary expression `left OR right`
/// (`Expr::Binary` with `BinOper::Or`).
#[verifier::external_body]
pub(crate) fn or(left: Expr, right: Expr) -> (e: Expr)
    requires
        expr_shape(left) is Some,
        expr_shape(right) is Some,
    ensures
        expr_shape(e) == Some(
            ExprShape::Or(
                Box::new(expr_shape(left).unwrap()),
                Box::new(expr_shape(right).unwrap()),
            ),
        ),
{
    ExprTrait::or(left, right)
}

/// `ExprTrait::not`: the unary expression `NOT inner`
/// (`Expr::Unary` with `UnOper::Not`).
#[verifier::external_body]
pub(crate) fn not(inner: Expr) -> (e: Expr)
    requires
        expr_shape(inner) is Some,
    ensures
        expr_shape(e) == Some(ExprShape::Not(Box::new(expr_shape(inner).unwrap()))),
{
    ExprTrait::not(inner)
}

} // verus!
