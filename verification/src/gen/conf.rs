//! Per-table configuration: which columns identify a row, which columns scope
//! it to a tenant, and the defaults for a table that is not configured.

use super::text::{clone_strings, owned, views};
use vstd::prelude::*;

verus! {

/// The options of one table.
#[derive(Debug)]
pub struct TableConfig {
    /// The raw name of the table that the options belong to.
    pub table: String,
    /// The columns that address one row, in order.
    pub id_cols: Vec<String>,
    /// The columns that scope a row to its tenant.
    pub tenants_cols: Vec<String>,
}

/// What a [`TableConfig`] stands for.
pub struct TableConfigView {
    pub table: Seq<char>,
    pub id_cols: Seq<Seq<char>>,
    pub tenants_cols: Seq<Seq<char>>,
}

impl View for TableConfig {
    type V = TableConfigView;

    open spec fn view(&self) -> TableConfigView {
        TableConfigView {
            table: self.table@,
            id_cols: views(self.id_cols@),
            tenants_cols: views(self.tenants_cols@),
        }
    }
}

/// The view of each entry of a sequence of table options.
pub open spec fn table_config_views(entries: Seq<TableConfig>) -> Seq<TableConfigView> {
    entries.map_values(|c: TableConfig| c@)
}

/// The generation options: one entry for each configured table.
#[derive(Debug)]
pub struct Config {
    pub tables: Vec<TableConfig>,
}

impl View for Config {
    type V = Seq<TableConfigView>;

    open spec fn view(&self) -> Seq<TableConfigView> {
        table_config_views(self.tables@)
    }
}

/// The options of a table that has none of its own: the single identity
/// column `id` and no tenant column.
pub open spec fn default_table_config(table: Seq<char>) -> TableConfigView {
    TableConfigView { table, id_cols: seq!["id"@], tenants_cols: Seq::empty() }
}

/// The first entry for `table`, if there is one.
pub open spec fn lookup(entries: Seq<TableConfigView>, table: Seq<char>) -> Option<
    TableConfigView,
>
    decreases entries.len(),
{
    if entries.len() == 0 {
        None
    } else if entries.first().table == table {
        Some(entries.first())
    } else {
        lookup(entries.drop_first(), table)
    }
}

/// The options in force for `table`: its first entry, or the defaults.
pub open spec fn resolve(entries: Seq<TableConfigView>, table: Seq<char>) -> TableConfigView {
    match lookup(entries, table) {
        Some(entry) => entry,
        None => default_table_config(table),
    }
}

/// The entries of a configuration that names no table.
pub fn default_tables() -> (tables: Vec<TableConfig>)
    ensures
        tables@.len() == 0,
{
    Vec::new()
}

/// The identity columns of a table that configures none: `id`.
pub fn default_id_cols() -> (cols: Vec<String>)
    ensures
        views(cols@) == seq!["id"@],
{
    let mut cols: Vec<String> = Vec::new();
    cols.push(owned("id"));
    assert(views(cols@) =~= seq!["id"@]);
    cols
}

/// The tenant columns of a table that configures none: none.
pub fn default_tenants_cols() -> (cols: Vec<String>)
    ensures
        cols@.len() == 0,
{
    Vec::new()
}

impl TableConfig {
    /// The default options, for the table `table`.
    pub fn new(table: &str) -> (config: Self)
        ensures
            config@ == default_table_config(table@),
    {
        let config = TableConfig {
            table: owned(table),
            id_cols: default_id_cols(),
            tenants_cols: default_tenants_cols(),
        };
        assert(config@.tenants_cols =~= Seq::empty());
        config
    }
}

impl Default for TableConfig {
    /// The default options, for a table without a name.
    fn default() -> (config: Self)
        ensures
            config@ == default_table_config(Seq::empty()),
    {
        let config = TableConfig {
            table: String::new(),
            id_cols: default_id_cols(),
            tenants_cols: default_tenants_cols(),
        };
        assert(config@.tenants_cols =~= Seq::empty());
        config
    }
}

impl Clone for TableConfig {
    fn clone(&self) -> (copy: Self)
        ensures
            copy@ == self@,
    {
        TableConfig {
            table: self.table.clone(),
            id_cols: clone_strings(&self.id_cols),
            tenants_cols: clone_strings(&self.tenants_cols),
        }
    }
}

impl Config {
    /// The first entry whose table name is `table`, by exact comparison.
    pub fn lookup(&self, table: &str) -> (found: Option<&TableConfig>)
        ensures
            match found {
                Some(entry) => lookup(self@, table@) == Some(entry@),
                None => lookup(self@, table@) is None,
            },
    {
        let wanted = owned(table);
        let mut i: usize = 0;
        assert(self@.skip(0) == self@);
        while i < self.tables.len()
            invariant
                i <= self.tables.len(),
                wanted@ == table@,
                lookup(self@, table@) == lookup(self@.skip(i as int), table@),
            decreases self.tables.len() - i,
        {
            proof {
                assert(self@.skip(i as int).first() == self.tables[i as int]@);
                assert(self@.skip(i as int).drop_first() == self@.skip(i + 1));
            }
            if self.tables[i].table == wanted {
                return Some(&self.tables[i]);
            }
            i += 1;
        }
        None
    }

    /// The options in force for `table`: its own entry where the configuration
    /// has one, the defaults where it has none.
    pub fn resolve(&self, table: &str) -> (config: TableConfig)
        ensures
            config@ == resolve(self@, table@),
    {
        match self.lookup(table) {
            Some(entry) => entry.clone(),
            None => TableConfig::new(table),
        }
    }
}

} // verus!
