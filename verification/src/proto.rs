//! The protocol artifacts of a request: one file with the message of every
//! table, one with the conversion function of every table, and one service
//! file for each table.

use crate::gen::data::Named;
use crate::gen::plugin::{
    file_views, table_views, CodeGenRequest, CodeGenResponse, File, FileView, Table, TableView,
};
use crate::gen::proto::{
    convert_table_fncs, create_crud_service, is_conversion_function_of, is_message_of,
    is_service_of, proto_gen,
};
use crate::gen::text::{join, joined, owned, to_bytes, utf8, views};
use crate::utils::{all_tables, get_tables};
use vstd::prelude::*;

verus! {

/// The file of messages: the syntax line, the import of the timestamp type,
/// then the messages with two blank lines between neighbours.
pub open spec fn proto_file(messages: Seq<Seq<char>>) -> FileView {
    FileView {
        name: "proto.gen.proto"@,
        contents: utf8(
            "syntax = \"proto3\";\n\nimport \"google/protobuf/timestamp.proto\"; \n\n"@ + joined(
                messages,
                "\n\n\n"@,
            ),
        ),
    }
}

/// The file of conversion functions: the functions with two blank lines
/// between neighbours.
pub open spec fn convs_file(functions: Seq<Seq<char>>) -> FileView {
    FileView { name: "proto.cnv.go"@, contents: utf8(joined(functions, "\n\n\n"@)) }
}

/// The service file of the table `name`.
pub open spec fn service_file(name: Seq<char>, service: Seq<char>) -> FileView {
    FileView { name: name + "_crud.proto"@, contents: utf8(service) }
}

/// Whether `file` is the file of messages of `tables`: it holds one message
/// for each table, in table order.
pub open spec fn is_proto_file_of(file: FileView, tables: Seq<TableView>) -> bool {
    exists|messages: Seq<Seq<char>>|
        {
            &&& messages.len() == tables.len()
            &&& forall|i: int|
                0 <= i < tables.len() ==> is_message_of(#[trigger] messages[i], tables[i])
            &&& file == proto_file(messages)
        }
}

/// Whether `file` is the file of conversion functions of `tables`: it holds
/// one function for each table, in table order.
pub open spec fn is_convs_file_of(file: FileView, tables: Seq<TableView>) -> bool {
    exists|functions: Seq<Seq<char>>|
        {
            &&& functions.len() == tables.len()
            &&& forall|i: int|
                0 <= i < tables.len() ==> is_conversion_function_of(
                    #[trigger] functions[i],
                    tables[i],
                )
            &&& file == convs_file(functions)
        }
}

/// Whether `file` is the service file of `table`.
pub open spec fn is_service_file_of(file: FileView, table: TableView) -> bool {
    exists|service: Seq<char>|
        is_service_of(service, table) && file == #[trigger] service_file(table.name, service)
}

/// Whether `files` are the service files of `tables`, one for each table in
/// table order.
pub open spec fn are_service_files_of(files: Seq<FileView>, tables: Seq<TableView>) -> bool {
    &&& files.len() == tables.len()
    &&& forall|i: int| 0 <= i < tables.len() ==> is_service_file_of(#[trigger] files[i], tables[i])
}

/// The file of the messages `messages`.
pub fn proto_file_for(messages: &Vec<String>) -> (file: File)
    ensures
        file@ == proto_file(views(messages@)),
{
    let mut code = owned("syntax = \"proto3\";\n\nimport \"google/protobuf/timestamp.proto\"; \n\n");
    code.append(join(messages, "\n\n\n").as_str());
    File { name: owned("proto.gen.proto"), contents: to_bytes(code.as_str()) }
}

/// The file of the messages of `tables`.
pub fn get_proto_file(tables: &Vec<Table>) -> (file: File)
    ensures
        is_proto_file_of(file@, table_views(tables@)),
{
    let mut messages: Vec<String> = Vec::new();
    let mut i: usize = 0;
    while i < tables.len()
        invariant
            i <= tables.len(),
            messages.len() == i,
            forall|j: int| 0 <= j < i ==> is_message_of(#[trigger] messages[j]@, tables[j]@),
        decreases tables.len() - i,
    {
        messages.push(proto_gen(&tables[i]));
        i += 1;
    }
    let file = proto_file_for(&messages);
    proof {
        let texts = views(messages@);
        assert forall|j: int| 0 <= j < tables.len() implies is_message_of(
            #[trigger] texts[j],
            table_views(tables@)[j],
        ) by {
            assert(is_message_of(messages[j]@, tables[j]@));
        }
    }
    file
}

/// The file of the conversion functions `functions`.
pub fn convs_file_for(functions: &Vec<String>) -> (file: File)
    ensures
        file@ == convs_file(views(functions@)),
{
    let code = join(functions, "\n\n\n");
    File { name: owned("proto.cnv.go"), contents: to_bytes(code.as_str()) }
}

/// The file of the conversion functions of `tables`.
pub fn get_convs_file(tables: &Vec<Table>) -> (file: File)
    ensures
        is_convs_file_of(file@, table_views(tables@)),
{
    let mut functions: Vec<String> = Vec::new();
    let mut i: usize = 0;
    while i < tables.len()
        invariant
            i <= tables.len(),
            functions.len() == i,
            forall|j: int|
                0 <= j < i ==> is_conversion_function_of(#[trigger] functions[j]@, tables[j]@),
        decreases tables.len() - i,
    {
        functions.push(convert_table_fncs(&tables[i]));
        i += 1;
    }
    let file = convs_file_for(&functions);
    proof {
        let texts = views(functions@);
        assert forall|j: int| 0 <= j < tables.len() implies is_conversion_function_of(
            #[trigger] texts[j],
            table_views(tables@)[j],
        ) by {
            assert(is_conversion_function_of(functions[j]@, tables[j]@));
        }
    }
    file
}

/// The service file of the table `name`, around the service `service`.
pub fn service_file_for(name: &str, service: &str) -> (file: File)
    ensures
        file@ == service_file(name@, service@),
{
    let mut file_name = owned(name);
    file_name.append("_crud.proto");
    File { name: file_name, contents: to_bytes(service) }
}

/// The service file of each of `tables`, in table order.
pub fn get_crud_svcs(tables: &Vec<Table>) -> (files: Vec<File>)
    ensures
        are_service_files_of(file_views(files@), table_views(tables@)),
{
    let mut files: Vec<File> = Vec::new();
    let mut i: usize = 0;
    while i < tables.len()
        invariant
            i <= tables.len(),
            files.len() == i,
            forall|j: int| 0 <= j < i ==> is_service_file_of(#[trigger] files[j]@, tables[j]@),
        decreases tables.len() - i,
    {
        let table = &tables[i];
        let service = create_crud_service(table);
        let name = table.name();
        assert(table.raw_name() == table@.name);
        let file = service_file_for(name.as_str(), service.as_str());
        assert(file@ == service_file(table@.name, service@));
        files.push(file);
        i += 1;
    }
    proof {
        let made = file_views(files@);
        assert forall|j: int| 0 <= j < tables.len() implies is_service_file_of(
            #[trigger] made[j],
            table_views(tables@)[j],
        ) by {
            assert(is_service_file_of(files[j]@, tables[j]@));
        }
    }
    files
}

/// Whether `files` are the protocol artifacts of `tables`: the file of
/// messages, the file of conversion functions, then the service file of each
/// table in table order.
pub open spec fn is_proto_response_of(files: Seq<FileView>, tables: Seq<TableView>) -> bool {
    &&& files.len() >= 2
    &&& is_proto_file_of(files[0], tables)
    &&& is_convs_file_of(files[1], tables)
    &&& are_service_files_of(files.skip(2), tables)
}

/// The response that hands out `proto_file`, `convs_file` and then
/// `crud_files`, in that order.
pub fn response_for(proto_file: File, convs_file: File, crud_files: Vec<File>) -> (resp:
    CodeGenResponse)
    ensures
        resp@ == seq![proto_file@, convs_file@] + file_views(crud_files@),
{
    let mut files: Vec<File> = Vec::new();
    files.push(proto_file);
    files.push(convs_file);
    let mut rest = crud_files;
    files.append(&mut rest);
    let resp = CodeGenResponse { files };
    assert(resp@ =~= seq![proto_file@, convs_file@] + file_views(crud_files@));
    resp
}

/// The protocol artifacts of every table of the request.
pub fn create_codegen_response(req: &CodeGenRequest) -> (resp: CodeGenResponse)
    ensures
        is_proto_response_of(resp@, all_tables(req@)),
{
    let tables = get_tables(req);
    let proto_file = get_proto_file(&tables);
    let convs_file = get_convs_file(&tables);
    let crud_files = get_crud_svcs(&tables);
    let ghost services = file_views(crud_files@);
    let resp = response_for(proto_file, convs_file, crud_files);
    assert(resp@.skip(2) == services);
    resp
}

} // verus!
