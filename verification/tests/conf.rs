use crudgen::gen::conf::{
    default_id_cols, default_tables, default_tenants_cols, Config, TableConfig,
};

fn entry(table: &str, id: &str) -> TableConfig {
    TableConfig { table: table.to_string(), id_cols: vec![id.to_string()], tenants_cols: vec![] }
}

#[test]
fn new_table_config_has_defaults() {
    let c = TableConfig::new("authors");
    assert_eq!(c.table, "authors");
    assert_eq!(c.id_cols, vec!["id".to_string()]);
    assert!(c.tenants_cols.is_empty());
}

#[test]
fn default_table_config_has_no_name() {
    let c = TableConfig::default();
    assert_eq!(c.table, "");
    assert_eq!(c.id_cols, vec!["id".to_string()]);
    assert!(c.tenants_cols.is_empty());
}

#[test]
fn default_lists() {
    assert!(default_tables().is_empty());
    assert_eq!(default_id_cols(), vec!["id".to_string()]);
    assert!(default_tenants_cols().is_empty());
}

#[test]
fn lookup_finds_first_match() {
    let opts = Config { tables: vec![entry("a", "x"), entry("b", "y"), entry("b", "z")] };
    assert_eq!(opts.lookup("b").unwrap().id_cols, vec!["y".to_string()]);
    assert_eq!(opts.lookup("a").unwrap().id_cols, vec!["x".to_string()]);
    assert!(opts.lookup("c").is_none());
    assert!(opts.lookup("A").is_none());
    assert!(Config { tables: vec![] }.lookup("a").is_none());
}

#[test]
fn resolve_returns_entry_or_defaults() {
    let opts = Config {
        tables: vec![TableConfig {
            table: "books".to_string(),
            id_cols: vec!["isbn".to_string()],
            tenants_cols: vec!["shop".to_string()],
        }],
    };
    let found = opts.resolve("books");
    assert_eq!(found.table, "books");
    assert_eq!(found.id_cols, vec!["isbn".to_string()]);
    assert_eq!(found.tenants_cols, vec!["shop".to_string()]);
    let missing = opts.resolve("authors");
    assert_eq!(missing.table, "authors");
    assert_eq!(missing.id_cols, vec!["id".to_string()]);
    assert!(missing.tenants_cols.is_empty());
}

#[test]
fn table_config_clone_keeps_everything() {
    let c = TableConfig {
        table: "t".to_string(),
        id_cols: vec!["a".to_string(), "b".to_string()],
        tenants_cols: vec!["c".to_string()],
    };
    let d = c.clone();
    assert_eq!(d.table, c.table);
    assert_eq!(d.id_cols, c.id_cols);
    assert_eq!(d.tenants_cols, c.tenants_cols);
}
