use lldap_backend::error::one_row;
use lldap_backend::error::DomainError;
use lldap_backend::model::Group;
use lldap_backend::model::GroupId;
use lldap_backend::model::GroupIdAndName;
use lldap_backend::model::User;
use lldap_backend::rows::groups_from_rows;
use lldap_backend::rows::user_from_row;
use lldap_backend::rows::user_groups_from_rows;
use lldap_backend::rows::GroupRow;
use lldap_backend::rows::UserRow;

fn row(id: i32, name: &str, user: Option<&str>) -> GroupRow {
    GroupRow {
        group_id: GroupId(id),
        display_name: name.to_string(),
        user_id: user.map(|u| u.to_string()),
    }
}

fn group(id: i32, name: &str, users: &[&str]) -> Group {
    Group {
        id: GroupId(id),
        display_name: name.to_string(),
        users: users.iter().map(|u| u.to_string()).collect(),
    }
}

#[test]
fn no_rows_give_no_groups() {
    assert_eq!(groups_from_rows(Vec::new()), Vec::new());
}

#[test]
fn rows_of_one_group_give_one_group_with_its_members_in_order() {
    assert_eq!(
        groups_from_rows(vec![
            row(1, "Best Group", Some("bob")),
            row(1, "Best Group", Some("patrick")),
        ]),
        vec![group(1, "Best Group", &["bob", "patrick"])]
    );
}

#[test]
fn a_group_without_members_is_listed_with_no_member() {
    assert_eq!(
        groups_from_rows(vec![row(3, "Empty Group", None)]),
        vec![group(3, "Empty Group", &[])]
    );
    assert_eq!(
        groups_from_rows(vec![row(3, "Empty Group", Some(""))]),
        vec![group(3, "Empty Group", &[])]
    );
}

#[test]
fn the_listing_of_three_groups_keeps_the_order_of_the_rows() {
    assert_eq!(
        groups_from_rows(vec![
            row(1, "Best Group", Some("bob")),
            row(1, "Best Group", Some("patrick")),
            row(3, "Empty Group", None),
            row(2, "Worst Group", Some("John")),
            row(2, "Worst Group", Some("patrick")),
        ]),
        vec![
            group(1, "Best Group", &["bob", "patrick"]),
            group(3, "Empty Group", &[]),
            group(2, "Worst Group", &["John", "patrick"]),
        ]
    );
}

#[test]
fn a_run_ends_where_the_id_or_the_name_changes() {
    assert_eq!(
        groups_from_rows(vec![
            row(1, "a", Some("x")),
            row(2, "a", Some("y")),
            row(2, "b", Some("z")),
            row(2, "b", None),
            row(1, "a", Some("w")),
        ]),
        vec![
            group(1, "a", &["x"]),
            group(2, "a", &["y"]),
            group(2, "b", &["z"]),
            group(1, "a", &["w"]),
        ]
    );
}

#[test]
fn a_user_is_the_columns_of_its_row() {
    let creation_date = chrono::NaiveDate::from_ymd_opt(2021, 5, 17)
        .unwrap()
        .and_hms_opt(8, 30, 15)
        .unwrap();
    assert_eq!(
        user_from_row(UserRow {
            user_id: "bob".to_string(),
            email: "bob@bob.bob".to_string(),
            display_name: Some("Bob".to_string()),
            first_name: None,
            last_name: Some("".to_string()),
            avatar: Some(vec![1, 2, 3]),
            creation_date,
        }),
        User {
            user_id: "bob".to_string(),
            email: "bob@bob.bob".to_string(),
            display_name: "Bob".to_string(),
            first_name: "".to_string(),
            last_name: "".to_string(),
            avatar: Some(vec![1, 2, 3]),
            creation_date,
        }
    );
}

#[test]
fn the_groups_of_a_user_are_each_listed_once() {
    let group = |id: i32, name: &str| GroupIdAndName(GroupId(id), name.to_string());
    assert_eq!(user_groups_from_rows(Vec::new()), Vec::new());
    assert_eq!(
        user_groups_from_rows(vec![
            group(1, "Group1"),
            group(2, "Group2"),
            group(1, "Group1"),
            group(1, "Group2"),
            group(2, "Group2"),
        ]),
        vec![group(1, "Group1"), group(2, "Group2"), group(1, "Group2")]
    );
}

#[test]
fn a_fetch_of_one_row_that_finds_none_is_not_found() {
    assert_eq!(one_row(Some(7)), Ok(7));
    assert_eq!(one_row::<i32>(None), Err(DomainError::NotFound));
}
