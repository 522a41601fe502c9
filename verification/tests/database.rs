use lldap_backend::error::one_row;
use lldap_backend::error::DomainError;
use lldap_backend::handler::SqlBackendHandler;
use lldap_backend::groups::UserGroups;
use lldap_backend::users::UserListing;
use lldap_backend::model::Configuration;
use lldap_backend::model::CreateUserRequest;
use lldap_backend::model::Group;
use lldap_backend::model::GroupId;
use lldap_backend::model::GroupIdAndName;
use lldap_backend::model::RequestFilter;
use lldap_backend::model::UpdateUserRequest;
use lldap_backend::rows::groups_from_rows;
use lldap_backend::rows::user_groups_from_rows;
use lldap_backend::rows::GroupRow;
use sqlx::sqlite::SqlitePool;
use sqlx::sqlite::SqlitePoolOptions;
use sqlx::AssertSqlSafe;
use sqlx::Row;
use std::collections::HashSet;

type Handler = SqlBackendHandler<SqlitePool>;

fn run<F: std::future::Future>(future: F) -> F::Output {
    tokio::runtime::Builder::new_current_thread()
        .enable_all()
        .build()
        .unwrap()
        .block_on(future)
}

async fn execute(handler: &Handler, sql: String) {
    sqlx::query(AssertSqlSafe(sql))
        .execute(handler.sql_pool())
        .await
        .unwrap();
}

async fn get_initialized_handler() -> Handler {
    let sql_pool = SqlitePoolOptions::new()
        .max_connections(1)
        .connect("sqlite::memory:")
        .await
        .unwrap();
    let handler = SqlBackendHandler::new(Configuration::default(), sql_pool);
    for table in [
        "CREATE TABLE users (user_id TEXT NOT NULL PRIMARY KEY, email TEXT NOT NULL, \
         display_name TEXT, first_name TEXT, last_name TEXT, avatar BLOB, \
         creation_date TEXT NOT NULL)",
        "CREATE TABLE groups (group_id INTEGER NOT NULL PRIMARY KEY AUTOINCREMENT, \
         display_name TEXT NOT NULL UNIQUE)",
        "CREATE TABLE memberships (\
         user_id TEXT NOT NULL REFERENCES users (user_id) ON DELETE CASCADE ON UPDATE CASCADE, \
         group_id INTEGER NOT NULL REFERENCES groups (group_id) ON DELETE CASCADE ON UPDATE CASCADE, \
         UNIQUE (user_id, group_id))",
    ] {
        execute(&handler, table.to_string()).await;
    }
    handler
}

async fn insert_user(handler: &Handler, name: &str) {
    let sql = handler.create_user_query(CreateUserRequest {
        user_id: name.to_string(),
        email: "bob@bob.bob".to_string(),
        ..Default::default()
    });
    execute(handler, sql).await;
}

async fn insert_group(handler: &Handler, name: &str) -> GroupId {
    let creation = handler.create_group_query(name);
    execute(handler, creation.insert).await;
    let row = sqlx::query(AssertSqlSafe(creation.lookup))
        .fetch_one(handler.sql_pool())
        .await
        .unwrap();
    GroupId(row.get::<i32, _>("group_id"))
}

async fn insert_membership(handler: &Handler, group_id: GroupId, user_id: &str) {
    execute(handler, handler.add_user_to_group_query(user_id, group_id)).await;
}

async fn list_users(handler: &Handler, filters: Option<RequestFilter>) -> Vec<String> {
    match handler.list_users_query(filters) {
        UserListing::Nothing => Vec::new(),
        UserListing::Query(sql) => sqlx::query(AssertSqlSafe(sql))
            .fetch_all(handler.sql_pool())
            .await
            .unwrap()
            .iter()
            .map(|row| row.get::<String, _>("user_id"))
            .collect(),
    }
}

async fn list_groups(handler: &Handler) -> Vec<Group> {
    let rows = sqlx::query(AssertSqlSafe(handler.list_groups_query()))
        .fetch_all(handler.sql_pool())
        .await
        .unwrap()
        .iter()
        .map(|row| GroupRow {
            group_id: GroupId(row.get::<i32, _>("group_id")),
            display_name: row.get::<String, _>("display_name"),
            user_id: row.get::<Option<String>, _>("user_id"),
        })
        .collect();
    groups_from_rows(rows)
}

async fn get_user_details(handler: &Handler, user_id: &str) -> Result<(String, String), DomainError> {
    let row = sqlx::query(AssertSqlSafe(handler.get_user_details_query(user_id)))
        .fetch_optional(handler.sql_pool())
        .await
        .unwrap();
    one_row(row).map(|row| (row.get::<String, _>("user_id"), row.get::<String, _>("email")))
}

async fn get_user_groups(handler: &Handler, user: &str) -> HashSet<GroupIdAndName> {
    let groups = match handler.get_user_groups_query(user) {
        UserGroups::Known(groups) => groups,
        UserGroups::Query(sql) => user_groups_from_rows(
            sqlx::query(AssertSqlSafe(sql))
                .fetch_all(handler.sql_pool())
                .await
                .unwrap()
                .iter()
                .map(|row| {
                    GroupIdAndName(
                        GroupId(row.get::<i32, _>("group_id")),
                        row.get::<String, _>("display_name"),
                    )
                })
                .collect(),
        ),
    };
    groups.into_iter().collect()
}

fn attribute(field: &str, value: &str) -> RequestFilter {
    RequestFilter::Equality(field.to_string(), value.to_string())
}

#[test]
fn test_list_users() {
    run(async {
        let handler = get_initialized_handler().await;
        insert_user(&handler, "bob").await;
        insert_user(&handler, "patrick").await;
        insert_user(&handler, "John").await;
        {
            let users = list_users(&handler, None).await;
            assert_eq!(users, vec!["John", "bob", "patrick"]);
        }
        {
            let users = list_users(&handler, Some(attribute("user_id", "bob"))).await;
            assert_eq!(users, vec!["bob"]);
        }
        {
            let users = list_users(
                &handler,
                Some(RequestFilter::Or(vec![
                    attribute("user_id", "bob"),
                    attribute("user_id", "John"),
                ])),
            )
            .await;
            assert_eq!(users, vec!["John", "bob"]);
        }
        {
            let users = list_users(
                &handler,
                Some(RequestFilter::Not(Box::new(attribute("user_id", "bob")))),
            )
            .await;
            assert_eq!(users, vec!["John", "patrick"]);
        }
    });
}

#[test]
fn test_list_users_with_trivial_filters() {
    run(async {
        let handler = get_initialized_handler().await;
        insert_user(&handler, "bob").await;
        insert_user(&handler, "patrick").await;
        insert_user(&handler, "John").await;
        let all = list_users(&handler, None).await;
        assert_eq!(
            list_users(&handler, Some(RequestFilter::And(Vec::new()))).await,
            all
        );
        assert_eq!(
            list_users(&handler, Some(RequestFilter::Or(Vec::new()))).await,
            all
        );
        assert_eq!(
            list_users(
                &handler,
                Some(RequestFilter::Not(Box::new(RequestFilter::And(Vec::new()))))
            )
            .await,
            Vec::<String>::new()
        );
    });
}

#[test]
fn test_list_users_by_group() {
    run(async {
        let handler = get_initialized_handler().await;
        insert_user(&handler, "bob").await;
        insert_user(&handler, "patrick").await;
        insert_user(&handler, "John").await;
        let group_1 = insert_group(&handler, "Best Group").await;
        let group_2 = insert_group(&handler, "Worst Group").await;
        insert_membership(&handler, group_1, "bob").await;
        insert_membership(&handler, group_1, "patrick").await;
        insert_membership(&handler, group_2, "patrick").await;
        assert_eq!(
            list_users(
                &handler,
                Some(RequestFilter::MemberOf("Best Group".to_string()))
            )
            .await,
            vec!["bob", "patrick"]
        );
        assert_eq!(
            list_users(&handler, Some(RequestFilter::MemberOfId(group_2))).await,
            vec!["patrick"]
        );
        assert_eq!(
            list_users(
                &handler,
                Some(RequestFilter::And(vec![
                    RequestFilter::MemberOf("Best Group".to_string()),
                    attribute("user_id", "bob"),
                ]))
            )
            .await,
            vec!["bob"]
        );
        assert_eq!(
            list_users(
                &handler,
                Some(RequestFilter::Or(vec![
                    attribute("user_id", "John"),
                    RequestFilter::MemberOfId(group_2),
                ]))
            )
            .await,
            vec!["John", "patrick"]
        );
    });
}

#[test]
fn test_list_groups() {
    run(async {
        let handler = get_initialized_handler().await;
        insert_user(&handler, "bob").await;
        insert_user(&handler, "patrick").await;
        insert_user(&handler, "John").await;
        let group_1 = insert_group(&handler, "Best Group").await;
        let group_2 = insert_group(&handler, "Worst Group").await;
        let group_3 = insert_group(&handler, "Empty Group").await;
        insert_membership(&handler, group_1, "bob").await;
        insert_membership(&handler, group_1, "patrick").await;
        insert_membership(&handler, group_2, "patrick").await;
        insert_membership(&handler, group_2, "John").await;
        assert_eq!(
            list_groups(&handler).await,
            vec![
                Group {
                    id: group_1,
                    display_name: "Best Group".to_string(),
                    users: vec!["bob".to_string(), "patrick".to_string()]
                },
                Group {
                    id: group_3,
                    display_name: "Empty Group".to_string(),
                    users: vec![]
                },
                Group {
                    id: group_2,
                    display_name: "Worst Group".to_string(),
                    users: vec!["John".to_string(), "patrick".to_string()]
                },
            ]
        );
    });
}

#[test]
fn test_get_user_details() {
    run(async {
        let handler = get_initialized_handler().await;
        insert_user(&handler, "bob").await;
        {
            let user = get_user_details(&handler, "bob").await.unwrap();
            assert_eq!(user.0, "bob".to_string());
        }
        {
            assert_eq!(
                get_user_details(&handler, "John").await.unwrap_err(),
                DomainError::NotFound
            );
        }
    });
}

#[test]
fn test_get_user_groups() {
    run(async {
        let handler = get_initialized_handler().await;
        insert_user(&handler, "bob").await;
        insert_user(&handler, "patrick").await;
        insert_user(&handler, "John").await;
        let group_1 = insert_group(&handler, "Group1").await;
        let group_2 = insert_group(&handler, "Group2").await;
        insert_membership(&handler, group_1, "bob").await;
        insert_membership(&handler, group_1, "patrick").await;
        insert_membership(&handler, group_2, "patrick").await;
        let mut bob_groups = HashSet::new();
        bob_groups.insert(GroupIdAndName(group_1, "Group1".to_string()));
        let mut patrick_groups = HashSet::new();
        patrick_groups.insert(GroupIdAndName(group_1, "Group1".to_string()));
        patrick_groups.insert(GroupIdAndName(group_2, "Group2".to_string()));
        assert_eq!(get_user_groups(&handler, "bob").await, bob_groups);
        assert_eq!(get_user_groups(&handler, "patrick").await, patrick_groups);
        assert_eq!(get_user_groups(&handler, "John").await, HashSet::new());
    });
}

#[test]
fn test_delete_user() {
    run(async {
        let handler = get_initialized_handler().await;

        insert_user(&handler, "val").await;
        insert_user(&handler, "Hector").await;
        insert_user(&handler, "Jennz").await;

        execute(&handler, handler.delete_user_query("Jennz")).await;

        let users = list_users(&handler, None).await;

        assert_eq!(users, vec!["Hector", "val"]);

        insert_user(&handler, "NewBoi").await;
        execute(&handler, handler.delete_user_query("Hector")).await;
        execute(&handler, handler.delete_user_query("NewBoi")).await;

        let users = list_users(&handler, None).await;

        assert_eq!(users, vec!["val"]);
    });
}

#[test]
fn test_update_user() {
    run(async {
        let handler = get_initialized_handler().await;
        insert_user(&handler, "bob").await;
        let before = get_user_details(&handler, "bob").await.unwrap();
        assert_eq!(
            handler.update_user_query(UpdateUserRequest {
                user_id: "bob".to_string(),
                ..Default::default()
            }),
            None
        );
        assert_eq!(get_user_details(&handler, "bob").await.unwrap(), before);
        let sql = handler
            .update_user_query(UpdateUserRequest {
                user_id: "bob".to_string(),
                email: Some("bob@example.com".to_string()),
                ..Default::default()
            })
            .unwrap();
        execute(&handler, sql).await;
        assert_eq!(
            get_user_details(&handler, "bob").await.unwrap(),
            ("bob".to_string(), "bob@example.com".to_string())
        );
    });
}

#[test]
fn test_memberships_and_groups_change() {
    run(async {
        let handler = get_initialized_handler().await;
        insert_user(&handler, "bob").await;
        let group = insert_group(&handler, "Group1").await;
        insert_membership(&handler, group, "bob").await;
        execute(&handler, handler.remove_user_from_group_query("bob", group)).await;
        assert_eq!(get_user_groups(&handler, "bob").await, HashSet::new());
        let row = sqlx::query(AssertSqlSafe(handler.get_group_details_query(group)))
            .fetch_optional(handler.sql_pool())
            .await
            .unwrap();
        assert_eq!(one_row(row).unwrap().get::<String, _>("display_name"), "Group1");
        execute(&handler, handler.delete_group_query(group)).await;
        assert_eq!(list_groups(&handler).await, Vec::new());
    });
}
