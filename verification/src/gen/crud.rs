//! The SQL template engine: for one table and its options, the six statements
//! that create, update, get, list, count and delete its rows.

use super::conf::{default_table_config, lookup, resolve, Config, TableConfig, TableConfigView};
use super::data::Named;
use super::plugin::{column_views, Column, ColumnView, Table, TableView};
use super::text::{clone_strings, join, joined, owned, reads, text_of, views};
use vstd::prelude::*;

verus! {

/// Whether a column takes part in an insert: every column does, but for the
/// two timestamps that the server fills in.
pub open spec fn is_create_column(name: Seq<char>) -> bool {
    name != "created_at"@ && name != "updated_at"@
}

/// The columns that an insert lists, in table order.
pub open spec fn create_columns(columns: Seq<ColumnView>) -> Seq<ColumnView> {
    columns.filter(|c: ColumnView| is_create_column(c.name))
}

/// Whether a column can be assigned by an update: every column can, but for
/// `created_at` and the columns that the predicate is made of.
pub open spec fn is_update_column(name: Seq<char>, config: TableConfigView) -> bool {
    name != "created_at"@ && !config.id_cols.contains(name) && !config.tenants_cols.contains(name)
}

/// The columns that an update assigns, in table order.
pub open spec fn update_columns(columns: Seq<ColumnView>, config: TableConfigView) -> Seq<
    ColumnView,
> {
    columns.filter(|c: ColumnView| is_update_column(c.name, config))
}

/// The names of a sequence of columns.
pub open spec fn column_names(columns: Seq<ColumnView>) -> Seq<Seq<char>> {
    columns.map_values(|c: ColumnView| c.name)
}

/// The named parameter that stands for a column's value.
pub open spec fn parameter(name: Seq<char>) -> Seq<char> {
    "@"@ + name
}

/// The named parameter of each column.
pub open spec fn parameters(columns: Seq<ColumnView>) -> Seq<Seq<char>> {
    columns.map_values(|c: ColumnView| parameter(c.name))
}

/// What an update assigns to one column: the current time to `updated_at`; to
/// any other column the value that the caller supplied, cast to the column's
/// declared type, or the stored value where the caller supplied none.
pub open spec fn assignment(column: ColumnView) -> Seq<char> {
    if column.name == "updated_at"@ {
        "updated_at = now()"@
    } else {
        column.name + " = COALESCE(sqlc.narg('"@ + column.name + "')::"@ + column.db_type + ", "@
            + column.name + ")"@
    }
}

/// The assignment to each column.
pub open spec fn assignments(columns: Seq<ColumnView>) -> Seq<Seq<char>> {
    columns.map_values(|c: ColumnView| assignment(c))
}

/// The comparison of a column with its named parameter.
pub open spec fn equality(name: Seq<char>) -> Seq<char> {
    name + " = @"@ + name
}

/// The comparisons of the columns `names`, all of which must hold.
pub open spec fn conjunction(names: Seq<Seq<char>>) -> Seq<char> {
    joined(names.map_values(|n: Seq<char>| equality(n)), " AND "@)
}

/// The columns that address one row: the identity columns, followed by the
/// tenant columns that are not identity columns already.
pub open spec fn predicate_columns(config: TableConfigView) -> Seq<Seq<char>> {
    config.id_cols + config.tenants_cols.filter(|t: Seq<char>| !config.id_cols.contains(t))
}

/// The predicate of the statements that address one row.
pub open spec fn predicate(config: TableConfigView) -> Seq<char> {
    conjunction(predicate_columns(config))
}

/// The predicate of the statements that range over a tenant's rows.
pub open spec fn tenant_predicate(config: TableConfigView) -> Seq<char> {
    conjunction(config.tenants_cols)
}

/// The `WHERE` clause for a predicate: none at all for the empty predicate.
pub open spec fn where_clause(condition: Seq<char>) -> Seq<char> {
    if condition.len() == 0 {
        Seq::empty()
    } else {
        " WHERE "@ + condition
    }
}

/// The statement that inserts a row, if the table has a column to insert.
pub open spec fn create_statement(table: TableView, singular: Seq<char>) -> Option<Seq<char>> {
    let columns = create_columns(table.columns);
    if columns.len() == 0 {
        None
    } else {
        Some(
            "-- name: Create"@ + singular + " :one\nINSERT INTO "@ + table.name + " ("@ + joined(
                column_names(columns),
                ", "@,
            ) + ") VALUES ("@ + joined(parameters(columns), ", "@) + ") RETURNING *;"@,
        )
    }
}

/// The statement that updates a row, if the table has a column to assign.
pub open spec fn update_statement(
    table: TableView,
    config: TableConfigView,
    singular: Seq<char>,
) -> Option<Seq<char>> {
    let columns = update_columns(table.columns, config);
    if columns.len() == 0 {
        None
    } else {
        Some(
            "-- name: Update"@ + singular + " :one\nUPDATE "@ + table.name + " SET "@ + joined(
                assignments(columns),
                ", "@,
            ) + " WHERE "@ + predicate(config) + " RETURNING *;"@,
        )
    }
}

/// The statement that reads one row.
pub open spec fn get_statement(
    table: TableView,
    config: TableConfigView,
    singular: Seq<char>,
) -> Seq<char> {
    "-- name: Get"@ + singular + " :one\nSELECT * FROM "@ + table.name + " WHERE "@ + predicate(
        config,
    ) + ";"@
}

/// The statement that reads a page of rows.
pub open spec fn list_statement(
    table: TableView,
    config: TableConfigView,
    plural: Seq<char>,
) -> Seq<char> {
    "-- name: List"@ + plural + " :many\nSELECT * FROM "@ + table.name + where_clause(
        tenant_predicate(config),
    ) + " LIMIT @take OFFSET @skip;"@
}

/// The statement that counts rows.
pub open spec fn count_statement(
    table: TableView,
    config: TableConfigView,
    plural: Seq<char>,
) -> Seq<char> {
    "-- name: Count"@ + plural + " :one\nSELECT COUNT(*) FROM "@ + table.name + where_clause(
        tenant_predicate(config),
    ) + ";"@
}

/// The statement that deletes one row.
pub open spec fn delete_statement(
    table: TableView,
    config: TableConfigView,
    singular: Seq<char>,
) -> Seq<char> {
    "-- name: Delete"@ + singular + " :one\nDELETE FROM "@ + table.name + " WHERE "@ + predicate(
        config,
    ) + " RETURNING *;"@
}

/// Whether every statement can be written for the table: it has a column to
/// insert and a column to assign.
pub open spec fn has_statements(table: TableView, config: TableConfigView) -> bool {
    create_columns(table.columns).len() > 0 && update_columns(table.columns, config).len() > 0
}

/// The unit of one table: the header block as it was handed in, then the six
/// statements in the order create, update, get, list, count, delete, with a
/// blank line between neighbours. There is no unit where the insert or the
/// update cannot be written.
pub open spec fn statements(
    table: TableView,
    config: TableConfigView,
    singular: Seq<char>,
    plural: Seq<char>,
    header: Seq<char>,
) -> Option<Seq<char>> {
    if has_statements(table, config) {
        Some(
            header + joined(
                seq![
                    create_statement(table, singular)->0,
                    update_statement(table, config, singular)->0,
                    get_statement(table, config, singular),
                    list_statement(table, config, plural),
                    count_statement(table, config, plural),
                    delete_statement(table, config, singular),
                ],
                "\n\n"@,
            ),
        )
    } else {
        None
    }
}

/// Whether the options speak of the table's own columns only: every identity
/// column and every tenant column is the name of a column of the table. The
/// statements are written either way; where this fails, a predicate compares
/// a column that the table does not have.
pub open spec fn names_own_columns(table: TableView, config: TableConfigView) -> bool {
    let names = column_names(table.columns);
    &&& forall|i: int| 0 <= i < config.id_cols.len() ==> names.contains(#[trigger] config.id_cols[i])
    &&& forall|i: int|
        0 <= i < config.tenants_cols.len() ==> names.contains(#[trigger] config.tenants_cols[i])
}

/// Whether `out` is what generating for `table` gives under the options
/// `config`, for some singular and some plural of the table's name.
pub open spec fn is_unit_of(
    out: Option<Seq<char>>,
    table: TableView,
    config: TableConfigView,
    header: Seq<char>,
) -> bool {
    exists|singular: Seq<char>, plural: Seq<char>|
        out == statements(table, config, singular, plural, header)
}

/// Whether `name` is one of `names`.
pub fn contains_name(names: &Vec<String>, name: &String) -> (found: bool)
    ensures
        found == views(names@).contains(name@),
{
    let mut i: usize = 0;
    while i < names.len()
        invariant
            i <= names.len(),
            forall|j: int| 0 <= j < i ==> names[j]@ != name@,
        decreases names.len() - i,
    {
        if names[i] == *name {
            assert(views(names@)[i as int] == name@);
            return true;
        }
        i += 1;
    }
    false
}

/// Whether every one of `wanted` is one of `names`.
fn contains_all(names: &Vec<String>, wanted: &Vec<String>) -> (found: bool)
    ensures
        found == forall|i: int|
            0 <= i < wanted.len() ==> views(names@).contains(#[trigger] views(wanted@)[i]),
{
    let mut i: usize = 0;
    while i < wanted.len()
        invariant
            i <= wanted.len(),
            forall|j: int| 0 <= j < i ==> views(names@).contains(#[trigger] views(wanted@)[j]),
        decreases wanted.len() - i,
    {
        if !contains_name(names, &wanted[i]) {
            assert(!views(names@).contains(views(wanted@)[i as int]));
            return false;
        }
        i += 1;
    }
    true
}

/// Whether `config` speaks of the columns of `table` only. The generators do
/// not ask for it: a caller that wants to refuse options that name a column
/// the table does not have asks here first.
pub fn refers_to_own_columns(table: &Table, config: &TableConfig) -> (ok: bool)
    ensures
        ok == names_own_columns(table@, config@),
{
    let names = names_of(&table.columns);
    let ids = contains_all(&names, &config.id_cols);
    let tenants = contains_all(&names, &config.tenants_cols);
    assert(config@.id_cols == views(config.id_cols@));
    assert(config@.tenants_cols == views(config.tenants_cols@));
    ids && tenants
}

/// The columns of `table` that an insert lists.
pub fn select_create_columns(table: &Table) -> (kept: Vec<Column>)
    ensures
        column_views(kept@) == create_columns(table@.columns),
{
    let ghost all = column_views(table.columns@);
    let ghost keep = |c: ColumnView| is_create_column(c.name);
    let mut kept: Vec<Column> = Vec::new();
    let mut i: usize = 0;
    proof {
        assert(all.take(0) == Seq::<ColumnView>::empty());
        reveal(Seq::filter);
        assert(column_views(kept@) == all.take(0).filter(keep));
    }
    while i < table.columns.len()
        invariant
            i <= table.columns.len(),
            all == column_views(table.columns@),
            keep == |c: ColumnView| is_create_column(c.name),
            column_views(kept@) == all.take(i as int).filter(keep),
        decreases table.columns.len() - i,
    {
        let column = &table.columns[i];
        proof {
            assert(all.take(i + 1) == all.take(i as int).push(all[i as int]));
            all.take(i as int).lemma_filter_push(all[i as int], keep);
        }
        if !reads(&column.name, "created_at") && !reads(&column.name, "updated_at") {
            let ghost before = column_views(kept@);
            kept.push(column.clone());
            assert(column_views(kept@) == before.push(all[i as int]));
        }
        i += 1;
    }
    proof {
        assert(all.take(i as int) == all);
    }
    kept
}

/// The columns of `table` that an update assigns under `config`.
pub fn select_update_columns(table: &Table, config: &TableConfig) -> (kept: Vec<Column>)
    ensures
        column_views(kept@) == update_columns(table@.columns, config@),
{
    let ghost all = column_views(table.columns@);
    let ghost keep = |c: ColumnView| is_update_column(c.name, config@);
    let mut kept: Vec<Column> = Vec::new();
    let mut i: usize = 0;
    proof {
        assert(all.take(0) == Seq::<ColumnView>::empty());
        reveal(Seq::filter);
        assert(column_views(kept@) == all.take(0).filter(keep));
    }
    while i < table.columns.len()
        invariant
            i <= table.columns.len(),
            all == column_views(table.columns@),
            keep == |c: ColumnView| is_update_column(c.name, config@),
            column_views(kept@) == all.take(i as int).filter(keep),
        decreases table.columns.len() - i,
    {
        let column = &table.columns[i];
        proof {
            assert(all.take(i + 1) == all.take(i as int).push(all[i as int]));
            all.take(i as int).lemma_filter_push(all[i as int], keep);
        }
        if !reads(&column.name, "created_at") && !contains_name(&config.id_cols, &column.name)
            && !contains_name(&config.tenants_cols, &column.name) {
            let ghost before = column_views(kept@);
            kept.push(column.clone());
            assert(column_views(kept@) == before.push(all[i as int]));
        }
        i += 1;
    }
    proof {
        assert(all.take(i as int) == all);
    }
    kept
}

/// The names of `columns`, in order.
fn names_of(columns: &Vec<Column>) -> (names: Vec<String>)
    ensures
        views(names@) == column_names(column_views(columns@)),
{
    let mut names: Vec<String> = Vec::new();
    let mut i: usize = 0;
    while i < columns.len()
        invariant
            i <= columns.len(),
            names.len() == i,
            forall|j: int| 0 <= j < i ==> names[j]@ == columns[j]@.name,
        decreases columns.len() - i,
    {
        names.push(columns[i].name.clone());
        i += 1;
    }
    assert(views(names@) =~= column_names(column_views(columns@)));
    names
}

/// The named parameter of each of `columns`, in order.
fn parameters_of(columns: &Vec<Column>) -> (params: Vec<String>)
    ensures
        views(params@) == parameters(column_views(columns@)),
{
    let mut params: Vec<String> = Vec::new();
    let mut i: usize = 0;
    while i < columns.len()
        invariant
            i <= columns.len(),
            params.len() == i,
            forall|j: int| 0 <= j < i ==> params[j]@ == parameter(columns[j]@.name),
        decreases columns.len() - i,
    {
        let mut param = owned("@");
        param.append(columns[i].name.as_str());
        params.push(param);
        i += 1;
    }
    assert(views(params@) =~= parameters(column_views(columns@)));
    params
}

/// What an update assigns to `column`.
pub fn render_assignment(column: &Column) -> (out: String)
    ensures
        out@ == assignment(column@),
{
    if reads(&column.name, "updated_at") {
        owned("updated_at = now()")
    } else {
        let mut out = column.name.clone();
        out.append(" = COALESCE(sqlc.narg('");
        out.append(column.name.as_str());
        out.append("')::");
        out.append(column.db_type.as_str());
        out.append(", ");
        out.append(column.name.as_str());
        out.append(")");
        out
    }
}

/// The assignment to each of `columns`, in order.
fn assignments_of(columns: &Vec<Column>) -> (items: Vec<String>)
    ensures
        views(items@) == assignments(column_views(columns@)),
{
    let mut items: Vec<String> = Vec::new();
    let mut i: usize = 0;
    while i < columns.len()
        invariant
            i <= columns.len(),
            items.len() == i,
            forall|j: int| 0 <= j < i ==> items[j]@ == assignment(columns[j]@),
        decreases columns.len() - i,
    {
        items.push(render_assignment(&columns[i]));
        i += 1;
    }
    assert(views(items@) =~= assignments(column_views(columns@)));
    items
}

/// The comparisons of the columns `names` with their parameters, joined by
/// `AND`.
pub fn render_conjunction(names: &Vec<String>) -> (out: String)
    ensures
        out@ == conjunction(views(names@)),
{
    let mut items: Vec<String> = Vec::new();
    let mut i: usize = 0;
    while i < names.len()
        invariant
            i <= names.len(),
            items.len() == i,
            forall|j: int| 0 <= j < i ==> items[j]@ == equality(names[j]@),
        decreases names.len() - i,
    {
        let mut item = names[i].clone();
        item.append(" = @");
        item.append(names[i].as_str());
        items.push(item);
        i += 1;
    }
    assert(views(items@) =~= views(names@).map_values(|n: Seq<char>| equality(n)));
    join(&items, " AND ")
}

/// The columns that address one row under `config`.
pub fn select_predicate_columns(config: &TableConfig) -> (names: Vec<String>)
    ensures
        views(names@) == predicate_columns(config@),
{
    let ghost tenants = views(config.tenants_cols@);
    let ghost fresh = |t: Seq<char>| !config@.id_cols.contains(t);
    let mut names = clone_strings(&config.id_cols);
    let mut i: usize = 0;
    proof {
        assert(tenants.take(0) == Seq::<Seq<char>>::empty());
        reveal(Seq::filter);
        assert(views(names@) == config@.id_cols + tenants.take(0).filter(fresh));
    }
    while i < config.tenants_cols.len()
        invariant
            i <= config.tenants_cols.len(),
            tenants == views(config.tenants_cols@),
            fresh == |t: Seq<char>| !config@.id_cols.contains(t),
            views(names@) == config@.id_cols + tenants.take(i as int).filter(fresh),
        decreases config.tenants_cols.len() - i,
    {
        let tenant = &config.tenants_cols[i];
        proof {
            assert(tenants.take(i + 1) == tenants.take(i as int).push(tenants[i as int]));
            tenants.take(i as int).lemma_filter_push(tenants[i as int], fresh);
        }
        if !contains_name(&config.id_cols, tenant) {
            let ghost before = views(names@);
            names.push(tenant.clone());
            assert(views(names@) == before.push(tenants[i as int]));
        }
        i += 1;
    }
    proof {
        assert(tenants.take(i as int) == tenants);
    }
    names
}

/// The predicate of the statements that address one row under `config`.
pub fn render_predicate(config: &TableConfig) -> (out: String)
    ensures
        out@ == predicate(config@),
{
    let names = select_predicate_columns(config);
    render_conjunction(&names)
}

/// The predicate of the statements that range over a tenant's rows.
pub fn render_tenant_predicate(config: &TableConfig) -> (out: String)
    ensures
        out@ == tenant_predicate(config@),
{
    render_conjunction(&config.tenants_cols)
}

/// Appends the `WHERE` clause for `condition` to `out`: nothing at all where
/// the condition is empty.
fn push_where_clause(out: &mut String, condition: &String)
    ensures
        final(out)@ == old(out)@ + where_clause(condition@),
{
    if !condition.as_str().is_empty() {
        out.append(" WHERE ");
        out.append(condition.as_str());
        assert(out@ == old(out)@ + (" WHERE "@ + condition@));
    } else {
        assert(out@ == old(out)@ + Seq::<char>::empty());
    }
}

/// The statement that inserts a row of `table`, named after `singular`.
/// There is none where the table has no column to insert.
pub fn create_query(table: &Table, singular: &str) -> (out: Option<String>)
    ensures
        text_of(out) == create_statement(table@, singular@),
{
    let columns = select_create_columns(table);
    if columns.len() == 0 {
        return None;
    }
    let names = names_of(&columns);
    let params = parameters_of(&columns);
    let mut out = owned("-- name: Create");
    out.append(singular);
    out.append(" :one\nINSERT INTO ");
    out.append(table.name.as_str());
    out.append(" (");
    out.append(join(&names, ", ").as_str());
    out.append(") VALUES (");
    out.append(join(&params, ", ").as_str());
    out.append(") RETURNING *;");
    Some(out)
}

/// The statement that updates a row of `table` under `config`, named after
/// `singular`. There is none where the table has no column to assign.
pub fn update_query(table: &Table, config: &TableConfig, singular: &str) -> (out: Option<String>)
    ensures
        text_of(out) == update_statement(table@, config@, singular@),
{
    let columns = select_update_columns(table, config);
    if columns.len() == 0 {
        return None;
    }
    let items = assignments_of(&columns);
    let mut out = owned("-- name: Update");
    out.append(singular);
    out.append(" :one\nUPDATE ");
    out.append(table.name.as_str());
    out.append(" SET ");
    out.append(join(&items, ", ").as_str());
    out.append(" WHERE ");
    out.append(render_predicate(config).as_str());
    out.append(" RETURNING *;");
    Some(out)
}

/// The statement that reads one row of `table`, named after `singular`.
pub fn get_query(table: &Table, config: &TableConfig, singular: &str) -> (out: Option<String>)
    ensures
        text_of(out) == Some(get_statement(table@, config@, singular@)),
{
    let mut out = owned("-- name: Get");
    out.append(singular);
    out.append(" :one\nSELECT * FROM ");
    out.append(table.name.as_str());
    out.append(" WHERE ");
    out.append(render_predicate(config).as_str());
    out.append(";");
    Some(out)
}

/// The statement that reads a page of the rows of `table`, named after
/// `plural`. It has a `WHERE` clause exactly where `config` has a tenant
/// column.
pub fn list_query(table: &Table, config: &TableConfig, plural: &str) -> (out: Option<String>)
    ensures
        text_of(out) == Some(list_statement(table@, config@, plural@)),
{
    let mut out = owned("-- name: List");
    out.append(plural);
    out.append(" :many\nSELECT * FROM ");
    out.append(table.name.as_str());
    let condition = render_tenant_predicate(config);
    push_where_clause(&mut out, &condition);
    out.append(" LIMIT @take OFFSET @skip;");
    Some(out)
}

/// The statement that counts the rows of `table`, named after `plural`. It
/// has a `WHERE` clause exactly where `config` has a tenant column.
pub fn count_query(table: &Table, config: &TableConfig, plural: &str) -> (out: Option<String>)
    ensures
        text_of(out) == Some(count_statement(table@, config@, plural@)),
{
    let mut out = owned("-- name: Count");
    out.append(plural);
    out.append(" :one\nSELECT COUNT(*) FROM ");
    out.append(table.name.as_str());
    let condition = render_tenant_predicate(config);
    push_where_clause(&mut out, &condition);
    out.append(";");
    Some(out)
}

/// The statement that deletes one row of `table`, named after `singular`.
pub fn delete_query(table: &Table, config: &TableConfig, singular: &str) -> (out: Option<String>)
    ensures
        text_of(out) == Some(delete_statement(table@, config@, singular@)),
{
    let mut out = owned("-- name: Delete");
    out.append(singular);
    out.append(" :one\nDELETE FROM ");
    out.append(table.name.as_str());
    out.append(" WHERE ");
    out.append(render_predicate(config).as_str());
    out.append(" RETURNING *;");
    Some(out)
}

/// The unit of `table` under `config`: `header` as it is, then the six
/// statements with a blank line between neighbours. `singular` and `plural`
/// are the forms of the table's name that the statements are named after.
/// There is no unit where the table has no column to insert or none to
/// assign.
pub fn statements_for(
    table: &Table,
    config: &TableConfig,
    singular: &str,
    plural: &str,
    header: &str,
) -> (out: Option<String>)
    ensures
        text_of(out) == statements(table@, config@, singular@, plural@, header@),
{
    let create = match create_query(table, singular) {
        Some(text) => text,
        None => {
            return None;
        },
    };
    let update = match update_query(table, config, singular) {
        Some(text) => text,
        None => {
            return None;
        },
    };
    let get = match get_query(table, config, singular) {
        Some(text) => text,
        None => {
            return None;
        },
    };
    let list = match list_query(table, config, plural) {
        Some(text) => text,
        None => {
            return None;
        },
    };
    let count = match count_query(table, config, plural) {
        Some(text) => text,
        None => {
            return None;
        },
    };
    let delete = match delete_query(table, config, singular) {
        Some(text) => text,
        None => {
            return None;
        },
    };
    let ghost parts = seq![create@, update@, get@, list@, count@, delete@];
    let mut queries: Vec<String> = Vec::new();
    queries.push(create);
    queries.push(update);
    queries.push(get);
    queries.push(list);
    queries.push(count);
    queries.push(delete);
    assert(views(queries@) =~= parts);
    let mut out = owned(header);
    out.append(join(&queries, "\n\n").as_str());
    Some(out)
}

/// The unit of `table`: its options are looked up in `opts`, with the
/// defaults for a table that has no entry, and the statements are named after
/// the singular and the plural of the table's name. Those two forms come
/// from the inflection, of which nothing is known; whatever they are, the
/// unit is the one that [`statements`] describes for them.
pub fn crud(table: &Table, opts: &Config, header: &str) -> (out: Option<String>)
    ensures
        out is Some <==> has_statements(table@, resolve(opts@, table@.name)),
        is_unit_of(text_of(out), table@, resolve(opts@, table@.name), header@),
{
    let config = opts.resolve(table.name.as_str());
    let singular = table.singular();
    let plural = table.plural();
    let out = statements_for(table, &config, singular.as_str(), plural.as_str(), header);
    assert(text_of(out) == statements(table@, config@, singular@, plural@, header@));
    out
}

/// Two tests that agree on every value keep the same items of a sequence.
pub proof fn lemma_filter_agrees<A>(items: Seq<A>, p: spec_fn(A) -> bool, q: spec_fn(A) -> bool)
    requires
        forall|x: A| #[trigger] p(x) == q(x),
    ensures
        items.filter(p) == items.filter(q),
    decreases items.len(),
{
    reveal(Seq::filter);
    if items.len() > 0 {
        lemma_filter_agrees(items.drop_last(), p, q);
    }
}

/// The statements read the identity and the tenant columns of the options and
/// nothing else: options that agree on both give the same unit.
pub proof fn lemma_statements_read_columns_only(
    table: TableView,
    first: TableConfigView,
    second: TableConfigView,
    singular: Seq<char>,
    plural: Seq<char>,
    header: Seq<char>,
)
    requires
        first.id_cols == second.id_cols,
        first.tenants_cols == second.tenants_cols,
    ensures
        statements(table, first, singular, plural, header) == statements(
            table,
            second,
            singular,
            plural,
            header,
        ),
{
    lemma_filter_agrees(
        table.columns,
        |c: ColumnView| is_update_column(c.name, first),
        |c: ColumnView| is_update_column(c.name, second),
    );
    lemma_filter_agrees(
        first.tenants_cols,
        |t: Seq<char>| !first.id_cols.contains(t),
        |t: Seq<char>| !second.id_cols.contains(t),
    );
}

/// A configuration without an entry for a table has no first entry for it.
pub proof fn lemma_lookup_absent(entries: Seq<TableConfigView>, table: Seq<char>)
    requires
        forall|i: int| 0 <= i < entries.len() ==> entries[i].table != table,
    ensures
        lookup(entries, table) is None,
    decreases entries.len(),
{
    if entries.len() > 0 {
        assert(entries.first() == entries[0]);
        assert forall|i: int| 0 <= i < entries.drop_first().len() implies entries.drop_first()[i].table
            != table by {
            assert(entries.drop_first()[i] == entries[i + 1]);
        }
        lemma_lookup_absent(entries.drop_first(), table);
    }
}

/// Generating for a table that the configuration does not mention gives what
/// options written out with the identity column `id` and no tenant column
/// give.
pub proof fn lemma_absent_table_gets_defaults(
    table: TableView,
    entries: Seq<TableConfigView>,
    explicit: TableConfigView,
    singular: Seq<char>,
    plural: Seq<char>,
    header: Seq<char>,
)
    requires
        forall|i: int| 0 <= i < entries.len() ==> entries[i].table != table.name,
        explicit.id_cols == seq!["id"@],
        explicit.tenants_cols == Seq::<Seq<char>>::empty(),
    ensures
        statements(table, resolve(entries, table.name), singular, plural, header) == statements(
            table,
            explicit,
            singular,
            plural,
            header,
        ),
{
    lemma_lookup_absent(entries, table.name);
    lemma_statements_read_columns_only(
        table,
        default_table_config(table.name),
        explicit,
        singular,
        plural,
        header,
    );
}

/// A table has statements exactly where one of its columns can be inserted
/// and one of its columns can be assigned.
pub proof fn lemma_has_statements(table: TableView, config: TableConfigView)
    ensures
        has_statements(table, config) <==> (exists|i: int|
            0 <= i < table.columns.len() && is_create_column(#[trigger] table.columns[i].name)) && (
        exists|j: int|
            0 <= j < table.columns.len() && is_update_column(
                #[trigger] table.columns[j].name,
                config,
            )),
{
    let columns = table.columns;
    let insertable = |c: ColumnView| is_create_column(c.name);
    let assignable = |c: ColumnView| is_update_column(c.name, config);
    lemma_filter_nonempty(columns, insertable);
    lemma_filter_nonempty(columns, assignable);
    if columns.filter(insertable).len() > 0 {
        let i = choose|i: int| 0 <= i < columns.len() && insertable(#[trigger] columns[i]);
        assert(is_create_column(columns[i].name));
    }
    if columns.filter(assignable).len() > 0 {
        let j = choose|j: int| 0 <= j < columns.len() && assignable(#[trigger] columns[j]);
        assert(is_update_column(columns[j].name, config));
    }
    if exists|i: int| 0 <= i < columns.len() && is_create_column(#[trigger] columns[i].name) {
        let i = choose|i: int| 0 <= i < columns.len() && is_create_column(#[trigger] columns[i].name);
        assert(insertable(columns[i]));
    }
    if exists|j: int| 0 <= j < columns.len() && is_update_column(#[trigger] columns[j].name, config) {
        let j = choose|j: int|
            0 <= j < columns.len() && is_update_column(#[trigger] columns[j].name, config);
        assert(assignable(columns[j]));
    }
}

/// A test keeps an item of a sequence exactly where an item passes it.
pub proof fn lemma_filter_nonempty<A>(items: Seq<A>, p: spec_fn(A) -> bool)
    ensures
        items.filter(p).len() > 0 <==> exists|i: int| 0 <= i < items.len() && p(#[trigger] items[i]),
    decreases items.len(),
{
    reveal(Seq::filter);
    if items.len() > 0 {
        let init = items.drop_last();
        lemma_filter_nonempty(init, p);
        if init.filter(p).len() > 0 {
            let i = choose|i: int| 0 <= i < init.len() && p(#[trigger] init[i]);
            assert(items[i] == init[i]);
        }
        if exists|i: int| 0 <= i < items.len() && p(#[trigger] items[i]) {
            let i = choose|i: int| 0 <= i < items.len() && p(#[trigger] items[i]);
            if i < init.len() {
                assert(init[i] == items[i]);
            }
        }
    }
}

/// The unit is a function of what the table, the options, the names and the
/// header read as: inputs that read the same give the same unit, character
/// for character, and so the same bytes.
pub proof fn lemma_unit_is_determined(
    first: Table,
    second: Table,
    first_config: TableConfig,
    second_config: TableConfig,
    singular: Seq<char>,
    plural: Seq<char>,
    header: Seq<char>,
)
    requires
        first@ == second@,
        first_config@ == second_config@,
    ensures
        statements(first@, first_config@, singular, plural, header) == statements(
            second@,
            second_config@,
            singular,
            plural,
            header,
        ),
{
}

/// The comparisons of one column or more are not the empty text.
pub proof fn lemma_conjunction_nonempty(names: Seq<Seq<char>>)
    requires
        names.len() > 0,
    ensures
        conjunction(names).len() > 0,
{
    reveal_strlit(" = @");
    let items = names.map_values(|n: Seq<char>| equality(n));
    assert(items.last() == equality(names.last()));
    assert(joined(items, " AND "@).len() >= items.last().len());
}

/// The listing and the counting statement have a `WHERE` clause exactly where
/// the options have a tenant column: without one, the table's name is
/// followed at once by what ends the statement.
pub proof fn lemma_tenant_scope(table: TableView, config: TableConfigView, plural: Seq<char>)
    ensures
        config.tenants_cols.len() == 0 ==> list_statement(table, config, plural)
            == "-- name: List"@ + plural + " :many\nSELECT * FROM "@ + table.name
            + " LIMIT @take OFFSET @skip;"@,
        config.tenants_cols.len() == 0 ==> count_statement(table, config, plural)
            == "-- name: Count"@ + plural + " :one\nSELECT COUNT(*) FROM "@ + table.name + ";"@,
        config.tenants_cols.len() > 0 ==> list_statement(table, config, plural)
            == "-- name: List"@ + plural + " :many\nSELECT * FROM "@ + table.name + (" WHERE "@
            + tenant_predicate(config)) + " LIMIT @take OFFSET @skip;"@,
        config.tenants_cols.len() > 0 ==> count_statement(table, config, plural)
            == "-- name: Count"@ + plural + " :one\nSELECT COUNT(*) FROM "@ + table.name + (
            " WHERE "@ + tenant_predicate(config)) + ";"@,
{
    if config.tenants_cols.len() > 0 {
        lemma_conjunction_nonempty(config.tenants_cols);
    } else {
        let prefix_list = "-- name: List"@ + plural + " :many\nSELECT * FROM "@ + table.name;
        let prefix_count = "-- name: Count"@ + plural + " :one\nSELECT COUNT(*) FROM "@
            + table.name;
        assert(prefix_list + Seq::<char>::empty() == prefix_list);
        assert(prefix_count + Seq::<char>::empty() == prefix_count);
    }
}

} // verus!
