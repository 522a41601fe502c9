use lldap_backend::filter::get_filter_expr;
use lldap_backend::model::GroupId;
use lldap_backend::model::RequestFilter;
use lldap_backend::schema::Groups;
use lldap_backend::schema::Memberships;
use lldap_backend::schema::Users;
use lldap_backend::users::is_match_everything;
use lldap_backend::users::is_match_nothing;
use sea_query::Expr;
use sea_query::ExprTrait;

fn equality(field: &str, value: &str) -> RequestFilter {
    RequestFilter::Equality(field.to_string(), value.to_string())
}

#[test]
fn equality_on_user_id_is_a_column_of_users() {
    let (group, expr) = get_filter_expr(&equality("user_id", "bob"));
    assert!(!group.0);
    assert_eq!(expr, Expr::col(("users", "user_id")).eq("bob"));
}

#[test]
fn equality_on_display_name_is_a_column_of_users() {
    let (group, expr) = get_filter_expr(&equality("display_name", "Bob"));
    assert!(!group.0);
    assert_eq!(expr, Expr::col(("users", "display_name")).eq("Bob"));
}

#[test]
fn equality_on_another_field_is_taken_over_as_written() {
    let (group, expr) = get_filter_expr(&equality("email", "bob@bob.bob"));
    assert!(!group.0);
    assert_eq!(expr, Expr::cust("email").eq("bob@bob.bob"));
}

#[test]
fn member_of_compares_the_display_name_of_the_group() {
    let (group, expr) = get_filter_expr(&RequestFilter::MemberOf("Best Group".to_string()));
    assert!(group.0);
    assert_eq!(expr, Expr::col(("groups", "display_name")).eq("Best Group"));
}

#[test]
fn member_of_id_compares_the_id_of_the_group() {
    let (group, expr) = get_filter_expr(&RequestFilter::MemberOfId(GroupId(4)));
    assert!(group.0);
    assert_eq!(expr, Expr::col(("groups", "group_id")).eq(4));
}

#[test]
fn not_negates_and_keeps_the_join() {
    let (group, expr) = get_filter_expr(&RequestFilter::Not(Box::new(RequestFilter::MemberOf(
        "Best Group".to_string(),
    ))));
    assert!(group.0);
    assert_eq!(
        expr,
        Expr::col(("groups", "display_name")).eq("Best Group").not()
    );
    let (group, expr) = get_filter_expr(&RequestFilter::Not(Box::new(equality("user_id", "bob"))));
    assert!(!group.0);
    assert_eq!(expr, Expr::col(("users", "user_id")).eq("bob").not());
}

#[test]
fn and_folds_from_the_left() {
    let (group, expr) = get_filter_expr(&RequestFilter::And(vec![
        equality("user_id", "a"),
        equality("user_id", "b"),
        equality("user_id", "c"),
    ]));
    assert!(!group.0);
    assert_eq!(
        expr,
        Expr::col(("users", "user_id"))
            .eq("a")
            .and(Expr::col(("users", "user_id")).eq("b"))
            .and(Expr::col(("users", "user_id")).eq("c"))
    );
}

#[test]
fn or_joins_if_any_branch_speaks_of_groups() {
    let (group, expr) = get_filter_expr(&RequestFilter::Or(vec![
        equality("user_id", "bob"),
        RequestFilter::MemberOfId(GroupId(2)),
    ]));
    assert!(group.0);
    assert_eq!(
        expr,
        Expr::col(("users", "user_id"))
            .eq("bob")
            .or(Expr::col(("groups", "group_id")).eq(2))
    );
    let (group, _) = get_filter_expr(&RequestFilter::Or(vec![
        RequestFilter::MemberOfId(GroupId(2)),
        equality("user_id", "bob"),
    ]));
    assert!(group.0);
}

#[test]
fn a_list_of_one_filter_is_that_filter() {
    let (group, expr) = get_filter_expr(&RequestFilter::Or(vec![equality("user_id", "bob")]));
    assert!(!group.0);
    assert_eq!(expr, Expr::col(("users", "user_id")).eq("bob"));
}

#[test]
fn an_empty_list_is_true_and_needs_no_join() {
    let (group, expr) = get_filter_expr(&RequestFilter::And(Vec::new()));
    assert!(!group.0);
    assert_eq!(expr, Expr::value(true));
    let (group, expr) = get_filter_expr(&RequestFilter::Or(Vec::new()));
    assert!(!group.0);
    assert_eq!(expr, Expr::value(true));
}

#[test]
fn nested_lists_pass_the_join_up() {
    let (group, _) = get_filter_expr(&RequestFilter::And(vec![
        equality("user_id", "bob"),
        RequestFilter::Not(Box::new(RequestFilter::Or(vec![
            equality("email", "x"),
            RequestFilter::MemberOf("g".to_string()),
        ]))),
    ]));
    assert!(group.0);
}

#[test]
fn the_trivial_filters_are_told_apart() {
    let empty_and = || RequestFilter::And(Vec::new());
    let empty_or = || RequestFilter::Or(Vec::new());
    assert!(is_match_everything(&empty_and()));
    assert!(is_match_everything(&empty_or()));
    assert!(!is_match_everything(&RequestFilter::Not(Box::new(empty_and()))));
    assert!(!is_match_everything(&RequestFilter::And(vec![empty_and()])));
    assert!(!is_match_everything(&equality("user_id", "bob")));
    assert!(is_match_nothing(&RequestFilter::Not(Box::new(empty_and()))));
    assert!(!is_match_nothing(&RequestFilter::Not(Box::new(empty_or()))));
    assert!(!is_match_nothing(&RequestFilter::Not(Box::new(RequestFilter::And(vec![
        equality("user_id", "bob")
    ])))));
    assert!(!is_match_nothing(&empty_and()));
    assert!(!is_match_nothing(&RequestFilter::MemberOf("g".to_string())));
}

#[test]
fn the_tables_and_columns_have_the_names_of_the_database() {
    assert_eq!(Users::Table.as_str(), "users");
    assert_eq!(Users::UserId.as_str(), "user_id");
    assert_eq!(Users::Email.as_str(), "email");
    assert_eq!(Users::DisplayName.as_str(), "display_name");
    assert_eq!(Users::FirstName.as_str(), "first_name");
    assert_eq!(Users::LastName.as_str(), "last_name");
    assert_eq!(Users::Avatar.as_str(), "avatar");
    assert_eq!(Users::CreationDate.as_str(), "creation_date");
    assert_eq!(Groups::Table.as_str(), "groups");
    assert_eq!(Groups::GroupId.as_str(), "group_id");
    assert_eq!(Groups::DisplayName.as_str(), "display_name");
    assert_eq!(Memberships::Table.as_str(), "memberships");
    assert_eq!(Memberships::UserId.as_str(), "user_id");
    assert_eq!(Memberships::GroupId.as_str(), "group_id");
}
