//! The SQL artifacts of a request: the request as it came, then one file of
//! statements for each table that has statements.

use crate::gen::conf::{resolve, Config, TableConfigView};
use crate::gen::crud::{crud, has_statements, is_unit_of};
use crate::gen::data::Named;
use crate::gen::plugin::{
    file_views, CodeGenRequest, CodeGenResponse, File, FileView, Table, TableView,
};
use crate::gen::text::{owned, to_bytes, utf8};
use crate::utils::{all_tables, get_tables};
use vstd::prelude::*;

verus! {

/// The file of statements of the table `name`.
pub open spec fn crud_file(name: Seq<char>, unit: Seq<char>) -> FileView {
    FileView { name: name + "_crud.gen.sql"@, contents: utf8(unit) }
}

/// The file that hands the request back as it was sent: `req_json` is its
/// JSON text.
pub open spec fn request_file(req_json: Seq<char>) -> FileView {
    FileView { name: "req.json"@, contents: utf8(req_json) }
}

/// Whether `file` is the file of statements of `table` under `config`, for
/// some singular and some plural of the table's name.
pub open spec fn is_table_file_of(
    file: FileView,
    table: TableView,
    config: TableConfigView,
    header: Seq<char>,
) -> bool {
    exists|unit: Seq<char>|
        is_unit_of(Some(unit), table, config, header) && file == #[trigger] crud_file(
            table.name,
            unit,
        )
}

/// Whether `out` is what a table yields under `config`: its file of
/// statements where it has statements, and nothing where it has none.
pub open spec fn is_crud_file_of(
    out: Option<FileView>,
    table: TableView,
    config: TableConfigView,
    header: Seq<char>,
) -> bool {
    match out {
        Some(file) => has_statements(table, config) && is_table_file_of(
            file,
            table,
            config,
            header,
        ),
        None => !has_statements(table, config),
    }
}

/// The view of a file that may be absent.
pub open spec fn file_of(out: Option<File>) -> Option<FileView> {
    match out {
        Some(file) => Some(file@),
        None => None,
    }
}

/// The items that are present, in order.
pub open spec fn present<A>(items: Seq<Option<A>>) -> Seq<A>
    decreases items.len(),
{
    if items.len() == 0 {
        Seq::empty()
    } else {
        match items.last() {
            Some(item) => present(items.drop_last()).push(item),
            None => present(items.drop_last()),
        }
    }
}

/// Whether `files` are what `tables` yield under the configuration
/// `entries`: the file of each table that has statements, in table order.
pub open spec fn are_crud_files_of(
    files: Seq<FileView>,
    tables: Seq<TableView>,
    entries: Seq<TableConfigView>,
    header: Seq<char>,
) -> bool {
    exists|made: Seq<Option<FileView>>|
        {
            &&& made.len() == tables.len()
            &&& forall|i: int|
                0 <= i < tables.len() ==> is_crud_file_of(
                    #[trigger] made[i],
                    tables[i],
                    resolve(entries, tables[i].name),
                    header,
                )
            &&& files == present(made)
        }
}

/// Whether `files` are the SQL artifacts of `tables`: the request file, then
/// the files that the tables yield.
pub open spec fn is_crud_response_of(
    files: Seq<FileView>,
    tables: Seq<TableView>,
    entries: Seq<TableConfigView>,
    req_json: Seq<char>,
    header: Seq<char>,
) -> bool {
    &&& files.len() >= 1
    &&& files[0] == request_file(req_json)
    &&& are_crud_files_of(files.skip(1), tables, entries, header)
}

/// The present items of two runs, one after the other, are the present
/// items of the runs put together.
pub proof fn lemma_present_concat<A>(first: Seq<Option<A>>, second: Seq<Option<A>>)
    ensures
        present(first + second) == present(first) + present(second),
    decreases second.len(),
{
    if second.len() == 0 {
        assert(first + second == first);
        assert(present(first) + present(second) == present(first));
    } else {
        let all = first + second;
        assert(all.drop_last() == first + second.drop_last());
        assert(all.last() == second.last());
        lemma_present_concat(first, second.drop_last());
        match second.last() {
            Some(item) => {
                assert(present(first) + present(second.drop_last()).push(item) == (present(first)
                    + present(second.drop_last())).push(item));
            },
            None => {},
        }
    }
}

/// What one table yields is what the run of that one table yields.
pub proof fn lemma_crud_files_of_one(
    out: Option<FileView>,
    table: TableView,
    entries: Seq<TableConfigView>,
    header: Seq<char>,
)
    requires
        is_crud_file_of(out, table, resolve(entries, table.name), header),
    ensures
        are_crud_files_of(present(seq![out]), seq![table], entries, header),
        present(seq![out]) == match out {
            Some(file) => seq![file],
            None => Seq::empty(),
        },
{
    let made = seq![out];
    assert(made.drop_last() == Seq::<Option<FileView>>::empty());
    assert(present(made.drop_last()) == Seq::<FileView>::empty());
    assert(made.len() == 1 && made[0] == out);
    assert(seq![table][0] == table);
}

/// What two runs of tables yield, one after the other, is what the two runs
/// put together yield.
pub proof fn lemma_crud_files_concat(
    first: Seq<FileView>,
    first_tables: Seq<TableView>,
    second: Seq<FileView>,
    second_tables: Seq<TableView>,
    entries: Seq<TableConfigView>,
    header: Seq<char>,
)
    requires
        are_crud_files_of(first, first_tables, entries, header),
        are_crud_files_of(second, second_tables, entries, header),
    ensures
        are_crud_files_of(first + second, first_tables + second_tables, entries, header),
{
    let made_first = choose|made: Seq<Option<FileView>>|
        {
            &&& made.len() == first_tables.len()
            &&& forall|i: int|
                0 <= i < first_tables.len() ==> is_crud_file_of(
                    #[trigger] made[i],
                    first_tables[i],
                    resolve(entries, first_tables[i].name),
                    header,
                )
            &&& first == present(made)
        };
    let made_second = choose|made: Seq<Option<FileView>>|
        {
            &&& made.len() == second_tables.len()
            &&& forall|i: int|
                0 <= i < second_tables.len() ==> is_crud_file_of(
                    #[trigger] made[i],
                    second_tables[i],
                    resolve(entries, second_tables[i].name),
                    header,
                )
            &&& second == present(made)
        };
    let made = made_first + made_second;
    let tables = first_tables + second_tables;
    lemma_present_concat(made_first, made_second);
    assert forall|i: int| 0 <= i < tables.len() implies is_crud_file_of(
        #[trigger] made[i],
        tables[i],
        resolve(entries, tables[i].name),
        header,
    ) by {
        if i < first_tables.len() {
            assert(made[i] == made_first[i]);
            assert(tables[i] == first_tables[i]);
        } else {
            assert(made[i] == made_second[i - first_tables.len()]);
            assert(tables[i] == second_tables[i - first_tables.len()]);
        }
    }
    assert(made.len() == tables.len());
    assert(first + second == present(made));
}

/// Whether a table yields a file, and under which name, does not rest on the
/// inflection: two outcomes for the same table, options and header are both
/// present or both absent, and present files have the same name. Their
/// contents are the same wherever the table's name was given the same
/// singular and plural.
pub proof fn lemma_crud_file_presence_and_name(
    first: Option<FileView>,
    second: Option<FileView>,
    table: TableView,
    config: TableConfigView,
    header: Seq<char>,
)
    requires
        is_crud_file_of(first, table, config, header),
        is_crud_file_of(second, table, config, header),
    ensures
        first is Some <==> second is Some,
        first is Some ==> first->0.name == second->0.name,
{
}

/// The file of statements of the table `name`, around the unit `unit`.
pub fn crud_file_for(name: &str, unit: &str) -> (file: File)
    ensures
        file@ == crud_file(name@, unit@),
{
    let mut file_name = owned(name);
    file_name.append("_crud.gen.sql");
    File { name: file_name, contents: to_bytes(unit) }
}

/// The file of statements of `table` under the configuration `opts`, with
/// `header` in front of the statements. There is none where the table has no
/// column to insert or none to assign.
pub fn table_to_crud_file(table: &Table, opts: &Config, header: &str) -> (out: Option<File>)
    ensures
        is_crud_file_of(file_of(out), table@, resolve(opts@, table@.name), header@),
{
    let cr = match crud(table, opts, header) {
        Some(unit) => unit,
        None => {
            return None;
        },
    };
    let name = table.name();
    assert(table.raw_name() == table@.name);
    let file = crud_file_for(name.as_str(), cr.as_str());
    assert(file@ == crud_file(table@.name, cr@));
    Some(file)
}

/// The file that hands the request back: `req_json` is its JSON text.
pub fn request_file_for(req_json: &str) -> (file: File)
    ensures
        file@ == request_file(req_json@),
{
    File { name: owned("req.json"), contents: to_bytes(req_json) }
}

/// The SQL artifacts of the request: the file `req.json`, which holds
/// `req_json`, then the file of statements of every table that has
/// statements, in catalog order. Each table's options are looked up in
/// `opts`, and `header` stands in front of each table's statements.
pub fn create_codegen_response(
    req: &CodeGenRequest,
    opts: &Config,
    req_json: &str,
    header: &str,
) -> (resp: CodeGenResponse)
    ensures
        is_crud_response_of(resp@, all_tables(req@), opts@, req_json@, header@),
{
    let mut files: Vec<File> = Vec::new();
    files.push(request_file_for(req_json));
    let tables = get_tables(req);
    let ghost mut made: Seq<Option<FileView>> = Seq::empty();
    let mut i: usize = 0;
    while i < tables.len()
        invariant
            i <= tables.len(),
            made.len() == i,
            forall|j: int|
                0 <= j < i ==> is_crud_file_of(
                    #[trigger] made[j],
                    tables[j]@,
                    resolve(opts@, tables[j]@.name),
                    header@,
                ),
            file_views(files@) == seq![request_file(req_json@)] + present(made),
        decreases tables.len() - i,
    {
        let out = table_to_crud_file(&tables[i], opts, header);
        let ghost sofar = file_views(files@);
        proof {
            assert(made.push(file_of(out)).drop_last() == made);
            made = made.push(file_of(out));
        }
        match out {
            Some(file) => {
                files.push(file);
                assert(file_views(files@) == sofar.push(file@));
            },
            None => {},
        }
        i += 1;
    }
    let resp = CodeGenResponse { files };
    proof {
        let all = all_tables(req@);
        assert(resp@.skip(1) == present(made));
        assert forall|j: int| 0 <= j < all.len() implies is_crud_file_of(
            #[trigger] made[j],
            all[j],
            resolve(opts@, all[j].name),
            header@,
        ) by {
            assert(all[j] == tables[j]@);
        }
    }
    resp
}

} // verus!
