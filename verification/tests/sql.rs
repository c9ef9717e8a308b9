use crudgen::gen::conf::{Config, TableConfig};
use crudgen::gen::crud::{
    contains_name, count_query, create_query, crud, delete_query, get_query, list_query,
    refers_to_own_columns, render_assignment, render_conjunction, render_predicate,
    render_tenant_predicate,
    select_create_columns, select_predicate_columns, select_update_columns, statements_for,
    update_query,
};
use crudgen::gen::plugin::{Column, Table};

fn column(name: &str, db_type: &str, not_null: bool) -> Column {
    Column { name: name.to_string(), db_type: db_type.to_string(), not_null, is_array: false }
}

fn authors() -> Table {
    Table {
        name: "authors".to_string(),
        columns: vec![
            column("id", "text", true),
            column("name", "text", true),
            column("bio", "text", false),
            column("created_at", "timestamp", true),
            column("updated_at", "timestamp", true),
        ],
    }
}

fn strings(items: &[&str]) -> Vec<String> {
    items.iter().map(|s| s.to_string()).collect()
}

fn config(table: &str, id_cols: &[&str], tenants_cols: &[&str]) -> TableConfig {
    TableConfig {
        table: table.to_string(),
        id_cols: strings(id_cols),
        tenants_cols: strings(tenants_cols),
    }
}

fn names(columns: &[Column]) -> Vec<String> {
    columns.iter().map(|c| c.name.clone()).collect()
}

#[test]
fn authors_create_query() {
    let q = create_query(&authors(), "Author").unwrap();
    assert_eq!(
        q,
        "-- name: CreateAuthor :one\nINSERT INTO authors (id, name, bio) VALUES (@id, @name, @bio) RETURNING *;"
    );
}

#[test]
fn authors_update_query() {
    let q = update_query(&authors(), &TableConfig::new("authors"), "Author").unwrap();
    assert_eq!(
        q,
        "-- name: UpdateAuthor :one\nUPDATE authors SET name = COALESCE(sqlc.narg('name')::text, name), bio = COALESCE(sqlc.narg('bio')::text, bio), updated_at = now() WHERE id = @id RETURNING *;"
    );
}

#[test]
fn authors_get_query() {
    let q = get_query(&authors(), &TableConfig::new("authors"), "Author").unwrap();
    assert_eq!(q, "-- name: GetAuthor :one\nSELECT * FROM authors WHERE id = @id;");
}

#[test]
fn authors_list_query() {
    let q = list_query(&authors(), &TableConfig::new("authors"), "Authors").unwrap();
    assert_eq!(q, "-- name: ListAuthors :many\nSELECT * FROM authors LIMIT @take OFFSET @skip;");
}

#[test]
fn authors_count_query() {
    let q = count_query(&authors(), &TableConfig::new("authors"), "Authors").unwrap();
    assert_eq!(q, "-- name: CountAuthors :one\nSELECT COUNT(*) FROM authors;");
}

#[test]
fn authors_delete_query() {
    let q = delete_query(&authors(), &TableConfig::new("authors"), "Author").unwrap();
    assert_eq!(q, "-- name: DeleteAuthor :one\nDELETE FROM authors WHERE id = @id RETURNING *;");
}

#[test]
fn authors_unit_through_crud() {
    let unit = crud(&authors(), &Config { tables: vec![] }, "-- generated\n\n").unwrap();
    let expected = [
        "-- generated\n\n-- name: CreateAuthor :one\nINSERT INTO authors (id, name, bio) VALUES (@id, @name, @bio) RETURNING *;",
        "-- name: UpdateAuthor :one\nUPDATE authors SET name = COALESCE(sqlc.narg('name')::text, name), bio = COALESCE(sqlc.narg('bio')::text, bio), updated_at = now() WHERE id = @id RETURNING *;",
        "-- name: GetAuthor :one\nSELECT * FROM authors WHERE id = @id;",
        "-- name: ListAuthors :many\nSELECT * FROM authors LIMIT @take OFFSET @skip;",
        "-- name: CountAuthors :one\nSELECT COUNT(*) FROM authors;",
        "-- name: DeleteAuthor :one\nDELETE FROM authors WHERE id = @id RETURNING *;",
    ]
    .join("\n\n");
    assert_eq!(unit, expected);
}

#[test]
fn unit_keeps_statement_order_and_header() {
    let unit =
        statements_for(&authors(), &TableConfig::new("authors"), "One", "Many", "HEAD").unwrap();
    assert!(unit.starts_with("HEAD-- name: CreateOne :one\n"));
    let order = ["CreateOne", "UpdateOne", "GetOne", "ListMany", "CountMany", "DeleteOne"];
    let mut at = 0;
    for name in order {
        let found = unit[at..].find(&format!("-- name: {} ", name)).unwrap();
        at += found + 1;
    }
    assert_eq!(unit.matches("\n\n").count(), 5);
    assert!(unit.ends_with("RETURNING *;"));
}

#[test]
fn predicate_composition() {
    let c = config("memberships", &["id", "org_id"], &["org_id"]);
    assert_eq!(render_predicate(&c), "id = @id AND org_id = @org_id");
    assert_eq!(render_tenant_predicate(&c), "org_id = @org_id");
    let t = Table {
        name: "memberships".to_string(),
        columns: vec![
            column("id", "text", true),
            column("org_id", "text", true),
            column("role", "text", true),
        ],
    };
    assert_eq!(
        get_query(&t, &c, "Membership").unwrap(),
        "-- name: GetMembership :one\nSELECT * FROM memberships WHERE id = @id AND org_id = @org_id;"
    );
    assert_eq!(
        delete_query(&t, &c, "Membership").unwrap(),
        "-- name: DeleteMembership :one\nDELETE FROM memberships WHERE id = @id AND org_id = @org_id RETURNING *;"
    );
    assert_eq!(
        update_query(&t, &c, "Membership").unwrap(),
        "-- name: UpdateMembership :one\nUPDATE memberships SET role = COALESCE(sqlc.narg('role')::text, role) WHERE id = @id AND org_id = @org_id RETURNING *;"
    );
    assert_eq!(
        list_query(&t, &c, "Memberships").unwrap(),
        "-- name: ListMemberships :many\nSELECT * FROM memberships WHERE org_id = @org_id LIMIT @take OFFSET @skip;"
    );
    assert_eq!(
        count_query(&t, &c, "Memberships").unwrap(),
        "-- name: CountMemberships :one\nSELECT COUNT(*) FROM memberships WHERE org_id = @org_id;"
    );
}

#[test]
fn predicate_has_identity_then_tenant() {
    let c = config("t", &["id"], &["org_id", "region"]);
    assert_eq!(select_predicate_columns(&c), strings(&["id", "org_id", "region"]));
    assert_eq!(render_predicate(&c), "id = @id AND org_id = @org_id AND region = @region");
    assert_eq!(render_tenant_predicate(&c), "org_id = @org_id AND region = @region");
}

#[test]
fn predicate_of_no_columns_is_empty() {
    let c = config("t", &[], &[]);
    assert_eq!(render_predicate(&c), "");
    assert_eq!(render_tenant_predicate(&c), "");
    assert_eq!(render_conjunction(&vec![]), "");
    assert_eq!(
        get_query(&authors(), &c, "Author").unwrap(),
        "-- name: GetAuthor :one\nSELECT * FROM authors WHERE ;"
    );
}

#[test]
fn list_has_where_only_with_tenant() {
    let table = authors();
    let without = list_query(&table, &config("authors", &["id"], &[]), "Authors").unwrap();
    assert!(!without.contains("WHERE"));
    let with = list_query(&table, &config("authors", &["id"], &["org_id"]), "Authors").unwrap();
    assert!(with.contains(" WHERE org_id = @org_id "));
    let count = count_query(&table, &config("authors", &["id"], &[]), "Authors").unwrap();
    assert!(!count.contains("WHERE"));
}

#[test]
fn create_columns_drop_both_timestamps() {
    let kept = select_create_columns(&authors());
    assert_eq!(names(&kept), strings(&["id", "name", "bio"]));
    assert_eq!(kept[2].db_type, "text");
    assert!(!kept[2].not_null);
}

#[test]
fn update_columns_drop_created_at_and_predicate_columns() {
    let t = Table {
        name: "t".to_string(),
        columns: vec![
            column("id", "text", true),
            column("org_id", "text", true),
            column("title", "varchar", true),
            column("created_at", "timestamp", true),
            column("updated_at", "timestamp", true),
        ],
    };
    let kept = select_update_columns(&t, &config("t", &["id"], &["org_id"]));
    assert_eq!(names(&kept), strings(&["title", "updated_at"]));
    let kept = select_update_columns(&t, &config("t", &[], &[]));
    assert_eq!(names(&kept), strings(&["id", "org_id", "title", "updated_at"]));
}

#[test]
fn assignment_casts_to_declared_type() {
    assert_eq!(
        render_assignment(&column("age", "int", true)),
        "age = COALESCE(sqlc.narg('age')::int, age)"
    );
    assert_eq!(render_assignment(&column("updated_at", "timestamp", true)), "updated_at = now()");
    assert_eq!(
        render_assignment(&column("created_at", "timestamp", true)),
        "created_at = COALESCE(sqlc.narg('created_at')::timestamp, created_at)"
    );
}

#[test]
fn no_create_query_without_insertable_column() {
    let t = Table {
        name: "stamps".to_string(),
        columns: vec![
            column("created_at", "timestamp", true),
            column("updated_at", "timestamp", true),
        ],
    };
    assert!(create_query(&t, "Stamp").is_none());
    assert!(update_query(&t, &TableConfig::new("stamps"), "Stamp").is_some());
    assert!(crud(&t, &Config { tables: vec![] }, "").is_none());
    let empty = Table { name: "none".to_string(), columns: vec![] };
    assert!(create_query(&empty, "None").is_none());
    assert!(crud(&empty, &Config { tables: vec![] }, "").is_none());
    assert!(get_query(&empty, &TableConfig::new("none"), "None").is_some());
}

#[test]
fn no_update_query_without_assignable_column() {
    let t = Table {
        name: "keys".to_string(),
        columns: vec![column("id", "text", true), column("created_at", "timestamp", true)],
    };
    assert!(update_query(&t, &TableConfig::new("keys"), "Key").is_none());
    assert!(create_query(&t, "Key").is_some());
    assert!(crud(&t, &Config { tables: vec![] }, "").is_none());
    assert!(statements_for(&t, &TableConfig::new("keys"), "Key", "Keys", "").is_none());
}

#[test]
fn absent_table_equals_explicit_defaults() {
    let t = authors();
    let absent = Config { tables: vec![config("books", &["isbn"], &["shop"])] };
    let explicit = Config { tables: vec![config("authors", &["id"], &[])] };
    assert_eq!(crud(&t, &absent, "H"), crud(&t, &explicit, "H"));
    assert_eq!(crud(&t, &Config { tables: vec![] }, "H"), crud(&t, &explicit, "H"));
}

#[test]
fn configured_table_uses_its_entry() {
    let t = Table {
        name: "books".to_string(),
        columns: vec![
            column("isbn", "text", true),
            column("shop", "text", true),
            column("title", "text", true),
        ],
    };
    let opts = Config {
        tables: vec![config("authors", &["id"], &[]), config("books", &["isbn"], &["shop"])],
    };
    let unit = crud(&t, &opts, "").unwrap();
    assert!(unit.contains("SELECT * FROM books WHERE isbn = @isbn AND shop = @shop;"));
    assert!(unit.contains("UPDATE books SET title = COALESCE(sqlc.narg('title')::text, title) WHERE"));
    assert!(unit.contains("SELECT COUNT(*) FROM books WHERE shop = @shop;"));
}

#[test]
fn generation_is_repeatable() {
    let t = authors();
    let opts = Config { tables: vec![config("authors", &["id"], &["org_id"])] };
    let first = crud(&t, &opts, "H").unwrap();
    let second = crud(&t, &opts, "H").unwrap();
    assert_eq!(first.as_bytes(), second.as_bytes());
}

#[test]
fn contains_name_compares_exactly() {
    let list = strings(&["id", "org_id"]);
    assert!(contains_name(&list, &"org_id".to_string()));
    assert!(!contains_name(&list, &"org".to_string()));
    assert!(!contains_name(&list, &"ID".to_string()));
    assert!(!contains_name(&vec![], &"id".to_string()));
}

#[test]
fn options_that_name_foreign_columns_are_told_apart() {
    let t = authors();
    assert!(refers_to_own_columns(&t, &config("authors", &["id"], &[])));
    assert!(refers_to_own_columns(&t, &config("authors", &["id", "name"], &["bio"])));
    assert!(refers_to_own_columns(&t, &config("authors", &[], &[])));
    assert!(!refers_to_own_columns(&t, &config("authors", &["id"], &["org_id"])));
    assert!(!refers_to_own_columns(&t, &config("authors", &["uuid"], &[])));
    assert!(!refers_to_own_columns(&t, &config("authors", &["Id"], &[])));
    let empty = Table { name: "none".to_string(), columns: vec![] };
    assert!(!refers_to_own_columns(&empty, &TableConfig::new("none")));
}

#[test]
fn foreign_columns_are_written_as_given() {
    let c = config("authors", &["id"], &["org_id"]);
    assert_eq!(
        get_query(&authors(), &c, "Author").unwrap(),
        "-- name: GetAuthor :one\nSELECT * FROM authors WHERE id = @id AND org_id = @org_id;"
    );
}
