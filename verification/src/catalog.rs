//! The SQL artifacts of a catalog whose tables have no options of their own:
//! a greeting, one file of statements for every table that has statements,
//! and the request as it came.

use crate::crud::{
    are_crud_files_of, crud_file, crud_file_for, is_crud_file_of, is_table_file_of,
    lemma_crud_files_concat, lemma_crud_files_of_one, present, request_file, request_file_for,
};
use crate::gen::conf::{default_table_config, resolve, Config, TableConfigView};
use crate::gen::crud::{crud, has_statements};
use crate::gen::data::Named;
use crate::gen::plugin::{
    Catalog, CodeGenRequest, CodeGenResponse, File, FileView, Schema, Table, TableView,
};
use crate::gen::text::{owned, to_bytes, utf8};
use crate::utils::all_tables;
use vstd::prelude::*;
use vstd::seq_lib::lemma_flatten_concat;

verus! {

/// Whether `files` are what `tables` yield under the default options: the
/// file of statements of each table that has statements, in table order. A
/// table without statements yields no file.
pub open spec fn are_table_files_of(
    files: Seq<FileView>,
    tables: Seq<TableView>,
    header: Seq<char>,
) -> bool {
    are_crud_files_of(files, tables, Seq::empty(), header)
}

/// The greeting that every response of this generator begins with.
pub open spec fn greeting_file() -> FileView {
    FileView { name: "hello.txt"@, contents: utf8("Hello World Ludovico"@) }
}

/// Whether `files` are the artifacts of `tables`: the greeting, the files
/// that the tables yield, and last the request file.
pub open spec fn is_catalog_response_of(
    files: Seq<FileView>,
    tables: Seq<TableView>,
    req_json: Seq<char>,
    header: Seq<char>,
) -> bool {
    &&& files.len() >= 2
    &&& files.first() == greeting_file()
    &&& are_table_files_of(files.subrange(1, files.len() - 1), tables, header)
    &&& files.last() == request_file(req_json)
}

/// Adds the file of statements of `table` to `res`. The table's options are
/// the defaults, and `header` stands in front of the statements. A table that
/// has no column to insert or none to assign has no statements: `res` stays as
/// it is.
pub fn handle_table(table: &Table, res: &mut CodeGenResponse, header: &str)
    ensures
        !has_statements(table@, default_table_config(table@.name)) ==> final(res)@ == old(res)@,
        has_statements(table@, default_table_config(table@.name)) ==> exists|file: FileView|
            is_table_file_of(file, table@, default_table_config(table@.name), header@)
                && final(res)@ == #[trigger] old(res)@.push(file),
{
    let name = table.name();
    assert(table.raw_name() == table@.name);
    let opts = Config { tables: Vec::new() };
    assert(resolve(opts@, table@.name) == default_table_config(table@.name));
    match crud(table, &opts, header) {
        Some(unit) => {
            let file = crud_file_for(name.as_str(), unit.as_str());
            let ghost made = file@;
            assert(made == crud_file(table@.name, unit@));
            res.files.push(file);
            assert(res@ == old(res)@.push(made));
        },
        None => {},
    }
}

/// Adds the file of statements of every table of `schema` that has
/// statements to `res`, in the schema's order.
pub fn handle_schema(schema: &Schema, res: &mut CodeGenResponse, header: &str)
    ensures
        exists|files: Seq<FileView>|
            are_table_files_of(files, schema@, header@) && final(res)@ == #[trigger] (old(res)@
                + files),
{
    let ghost none: Seq<TableConfigView> = Seq::empty();
    let ghost mut files: Seq<FileView> = Seq::empty();
    let mut i: usize = 0;
    proof {
        assert(res@ == old(res)@ + files);
        assert(schema@.take(0).len() == 0);
        let made: Seq<Option<FileView>> = Seq::empty();
        assert(present(made) == files);
        assert(made.len() == schema@.take(0).len());
    }
    while i < schema.tables.len()
        invariant
            i <= schema.tables.len(),
            none == Seq::<TableConfigView>::empty(),
            are_table_files_of(files, schema@.take(i as int), header@),
            res@ == old(res)@ + files,
        decreases schema.tables.len() - i,
    {
        let ghost before = res@;
        let ghost table = schema@[i as int];
        let ghost config = default_table_config(table.name);
        assert(table == schema.tables[i as int]@);
        handle_table(&schema.tables[i], res, header);
        proof {
            assert(resolve(none, table.name) == config);
            let out: Option<FileView> = if has_statements(table, config) {
                Some(
                    choose|file: FileView|
                        is_table_file_of(file, table, config, header@) && res@
                            == #[trigger] before.push(file),
                )
            } else {
                None
            };
            assert(is_crud_file_of(out, table, resolve(none, table.name), header@));
            lemma_crud_files_of_one(out, table, none, header@);
            let added = present(seq![out]);
            assert(res@ == before + added);
            lemma_crud_files_concat(
                files,
                schema@.take(i as int),
                added,
                seq![table],
                none,
                header@,
            );
            assert(schema@.take(i + 1) == schema@.take(i as int) + seq![table]);
            files = files + added;
            assert(res@ == old(res)@ + files);
        }
        i += 1;
    }
    assert(schema@.take(i as int) == schema@);
}

/// Adds the file of statements of every table of `catalog` that has
/// statements to `res`, schema by schema.
pub fn handle_catalog(catalog: &Catalog, res: &mut CodeGenResponse, header: &str)
    ensures
        exists|files: Seq<FileView>|
            are_table_files_of(files, catalog@.flatten(), header@) && final(res)@ == #[trigger] (
            old(res)@ + files),
{
    let ghost none: Seq<TableConfigView> = Seq::empty();
    let ghost mut files: Seq<FileView> = Seq::empty();
    let ghost schemas = catalog@;
    let mut i: usize = 0;
    proof {
        assert(res@ == old(res)@ + files);
        assert(schemas.take(0) == Seq::<Seq<TableView>>::empty());
        assert(schemas.take(0).flatten() == Seq::<TableView>::empty());
        let made: Seq<Option<FileView>> = Seq::empty();
        assert(present(made) == files);
        assert(made.len() == schemas.take(0).flatten().len());
    }
    while i < catalog.schemas.len()
        invariant
            i <= catalog.schemas.len(),
            schemas == catalog@,
            none == Seq::<TableConfigView>::empty(),
            are_table_files_of(files, schemas.take(i as int).flatten(), header@),
            res@ == old(res)@ + files,
        decreases catalog.schemas.len() - i,
    {
        let ghost before = res@;
        let ghost done = schemas.take(i as int);
        let schema = &catalog.schemas[i];
        proof {
            assert(schemas[i as int] == schema@);
            assert(schemas.take(i + 1) == done + seq![schema@]);
            lemma_flatten_concat(done, seq![schema@]);
            seq![schema@].lemma_flatten_one_element();
        }
        handle_schema(schema, res, header);
        proof {
            let added = choose|added: Seq<FileView>|
                are_table_files_of(added, schema@, header@) && res@ == #[trigger] (before + added);
            lemma_crud_files_concat(files, done.flatten(), added, schema@, none, header@);
            files = files + added;
            assert(res@ == old(res)@ + files);
        }
        i += 1;
    }
    assert(schemas.take(i as int) == schemas);
}

/// The artifacts of the request: the greeting, the file of statements of
/// every table that has statements, and the file `req.json`, which holds
/// `req_json`. Every table gets the default options, and `header` stands in
/// front of each table's statements.
pub fn create_codegen_response(req: &CodeGenRequest, req_json: &str, header: &str) -> (resp:
    CodeGenResponse)
    ensures
        is_catalog_response_of(resp@, all_tables(req@), req_json@, header@),
{
    let mut files: Vec<File> = Vec::new();
    files.push(File { name: owned("hello.txt"), contents: to_bytes("Hello World Ludovico") });
    let mut resp = CodeGenResponse { files };
    let ghost start = resp@;
    assert(start == seq![greeting_file()]);
    let ghost mut added: Seq<FileView> = Seq::empty();
    match &req.catalog {
        Some(catalog) => {
            handle_catalog(catalog, &mut resp, header);
            proof {
                added = choose|added: Seq<FileView>|
                    are_table_files_of(added, catalog@.flatten(), header@) && resp@ == #[trigger] (
                    start + added);
            }
        },
        None => {
            proof {
                let made: Seq<Option<FileView>> = Seq::empty();
                assert(present(made) == added);
                assert(made.len() == all_tables(req@).len());
                assert(resp@ == start + added);
            }
        },
    }
    let ghost before = resp@;
    let file = request_file_for(req_json);
    resp.files.push(file);
    proof {
        assert(resp@ == before.push(request_file(req_json@)));
        assert(resp@.subrange(1, resp@.len() - 1) == added);
    }
    resp
}

} // verus!
