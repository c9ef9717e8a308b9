//! The protocol definition emitter: the message of a table, the function that
//! converts a record into it, and the service that serves its rows. The type
//! of a field comes from a small table of database types.

use super::data::{idiomatic_name, Named};
use super::plugin::{Column, ColumnView, Table, TableView};
use super::text::{decimal, join, joined, owned, push_decimal, reads, views};
use vstd::prelude::*;

verus! {

/// The database types that the type table knows.
#[derive(Clone, Copy, Debug, PartialEq, Eq, Structural)]
pub enum KnownType {
    Text,
    Varchar,
    Timestamp,
    Int,
}

/// The known type that a database type name stands for, if it stands for one.
/// Names are compared exactly.
pub open spec fn known_type(db_type: Seq<char>) -> Option<KnownType> {
    if db_type == "text"@ {
        Some(KnownType::Text)
    } else if db_type == "varchar"@ {
        Some(KnownType::Varchar)
    } else if db_type == "timestamp"@ {
        Some(KnownType::Timestamp)
    } else if db_type == "int"@ {
        Some(KnownType::Int)
    } else {
        None
    }
}

/// The protocol type of a known type.
pub open spec fn proto_name(known: KnownType) -> Seq<char> {
    match known {
        KnownType::Text => "string"@,
        KnownType::Varchar => "string"@,
        KnownType::Timestamp => "google.protobuf.Timestamp"@,
        KnownType::Int => "int32"@,
    }
}

/// The protocol type for a database type: `string` for `text` and `varchar`,
/// the well-known timestamp for `timestamp`, `int32` for `int`, and any other
/// name as it is.
pub open spec fn proto_type(db_type: Seq<char>) -> Seq<char> {
    match known_type(db_type) {
        Some(known) => proto_name(known),
        None => db_type,
    }
}

/// The type of a column's field: the protocol type of its database type,
/// `repeated` for an array, else `optional` for a column that may be null.
/// An array is never marked `optional`.
pub open spec fn field_type(column: ColumnView) -> Seq<char> {
    if column.is_array {
        "repeated "@ + proto_type(column.db_type)
    } else if !column.not_null {
        "optional "@ + proto_type(column.db_type)
    } else {
        proto_type(column.db_type)
    }
}

/// The field of the column at `index` (counted from zero): its type, its
/// name, and as its number the column's position counted from one.
pub open spec fn field_line(column: ColumnView, index: nat) -> Seq<char> {
    "  "@ + field_type(column) + " "@ + column.name + " = "@ + decimal(index + 1) + ";"@
}

/// The field of each column, in column order.
pub open spec fn field_lines(columns: Seq<ColumnView>) -> Seq<Seq<char>> {
    Seq::new(columns.len(), |i: int| field_line(columns[i], i as nat))
}

/// The message of a table: one field for each column, under the singular of
/// the table's name.
pub open spec fn message_definition(singular: Seq<char>, columns: Seq<ColumnView>) -> Seq<char> {
    "message "@ + singular + " {\n"@ + joined(field_lines(columns), "\n"@) + "\n}"@
}

/// One assignment of the conversion function: the field `field` takes the
/// record's member of the column's idiomatic name, wrapped into a timestamp
/// where the column is one.
pub open spec fn conversion_line(field: Seq<char>, column: ColumnView) -> Seq<char> {
    if known_type(column.db_type) == Some(KnownType::Timestamp) {
        field + ": timestamppb.New("@ + idiomatic_name(column.name) + "),"@
    } else {
        field + ": "@ + idiomatic_name(column.name) + ","@
    }
}

/// The assignment for each column, `fields[i]` being the field of column `i`.
pub open spec fn conversion_lines(fields: Seq<Seq<char>>, columns: Seq<ColumnView>) -> Seq<
    Seq<char>,
> {
    Seq::new(columns.len(), |i: int| conversion_line(fields[i], columns[i]))
}

/// The function that converts a record into its message, around the
/// assignments `lines`.
pub open spec fn conversion_function(singular: Seq<char>, lines: Seq<Seq<char>>) -> Seq<char> {
    "func (t "@ + singular + ") Pb() *pb."@ + singular + " {\n  return &pb."@ + singular
        + " {\n"@ + joined(lines, "\n"@) + "\n}\n}"@
}

/// One RPC of the service: `verb` applied to `noun`, with the request and the
/// response named after both.
pub open spec fn rpc(verb: Seq<char>, noun: Seq<char>) -> Seq<char> {
    "            rpc "@ + verb + noun + "("@ + verb + noun + "Request) returns ("@ + verb + noun
        + "Response) {}\n"@
}

/// One message of the service file: `title` around `body`, opened after
/// `open` and closed after `close`.
pub open spec fn message_block(
    open: Seq<char>,
    title: Seq<char>,
    body: Seq<char>,
    close: Seq<char>,
) -> Seq<char> {
    open + "message "@ + title + " {\n"@ + body + close + "}\n"@
}

/// The body of a message that carries the whole entity.
pub open spec fn entity_field(singular: Seq<char>, sing_snake: Seq<char>) -> Seq<char> {
    "            "@ + singular + " "@ + sing_snake + " = 1;\n"@
}

/// The body of a message that carries the entities of one page.
pub open spec fn page_field(singular: Seq<char>, name: Seq<char>) -> Seq<char> {
    "            repeated "@ + singular + " "@ + name + "s = 1;\n"@
}

/// The name of a request or response: `verb`, `noun` and `kind` in a row.
pub open spec fn title(verb: Seq<char>, noun: Seq<char>, kind: Seq<char>) -> Seq<char> {
    verb + noun + kind
}

/// The service of a table: the five RPCs create, get, update, delete and
/// list, then the request and the response of each. Create and update carry
/// the entity, get and delete an `id`, list a limit and an offset, and its
/// response the entities of the page.
pub open spec fn crud_service(
    singular: Seq<char>,
    sing_snake: Seq<char>,
    name: Seq<char>,
) -> Seq<char> {
    let entity = entity_field(singular, sing_snake);
    let id = "            string id = 1;\n"@;
    let page = "            int32 limit = 1;\n            int32 offset = 2;\n"@;
    let many = singular + "s"@;
    let pad = "        "@;
    "service "@ + singular + "CrudService {\n"@ + rpc("Create"@, singular) + rpc(
        "Get"@,
        singular,
    ) + rpc("Update"@, singular) + rpc("Delete"@, singular) + rpc("List"@, many)
        + "          })\n          \n"@ + message_block(
        "          "@,
        title("Create"@, singular, "Request"@),
        entity,
        "          "@,
    ) + "\n"@ + message_block(
        "           "@,
        title("Create"@, singular, "Response"@),
        entity,
        pad,
    ) + "\n"@ + message_block(pad, title("Get"@, singular, "Request"@), id, pad) + "        \n"@
        + message_block(pad, title("Get"@, singular, "Response"@), entity, pad) + "\n"@
        + message_block(pad, title("Update"@, singular, "Request"@), entity, pad) + "\n"@
        + message_block(pad, title("Update"@, singular, "Response"@), entity, pad) + "\n"@
        + message_block(pad, title("Delete"@, singular, "Request"@), id, pad) + "\n"@
        + message_block(pad, title("Delete"@, singular, "Response"@), id, pad) + "\n"@
        + message_block(pad, title("List"@, many, "Request"@), page, pad) + "\n"@ + message_block(
        pad,
        title("List"@, many, "Response"@),
        page_field(singular, name),
        pad,
    ) + pad
}

/// Whether `text` is the message of `table` under some name.
pub open spec fn is_message_of(text: Seq<char>, table: TableView) -> bool {
    exists|singular: Seq<char>| text == message_definition(singular, table.columns)
}

/// Whether `text` is the assignment for `column` to some field.
pub open spec fn is_conversion_line_of(text: Seq<char>, column: ColumnView) -> bool {
    exists|field: Seq<char>| text == conversion_line(field, column)
}

/// Whether `text` is the conversion function of `table` under some name of
/// the message and some names of the fields, one for each column.
pub open spec fn is_conversion_function_of(text: Seq<char>, table: TableView) -> bool {
    exists|singular: Seq<char>, fields: Seq<Seq<char>>|
        fields.len() == table.columns.len() && text == conversion_function(
            singular,
            conversion_lines(fields, table.columns),
        )
}

/// Whether `text` is the service of `table` under some names of the entity
/// and of its field.
pub open spec fn is_service_of(text: Seq<char>, table: TableView) -> bool {
    exists|singular: Seq<char>, sing_snake: Seq<char>|
        text == crud_service(singular, sing_snake, table.name)
}

/// A mapped type is mapped to itself: none of the protocol types is a
/// database type of the table.
pub proof fn lemma_proto_type_is_fixed(db_type: Seq<char>)
    ensures
        proto_type(proto_type(db_type)) == proto_type(db_type),
{
    reveal_strlit("text");
    reveal_strlit("varchar");
    reveal_strlit("timestamp");
    reveal_strlit("int");
    reveal_strlit("string");
    reveal_strlit("google.protobuf.Timestamp");
    reveal_strlit("int32");
}

/// A type with a modifier in front is mapped to itself.
pub proof fn lemma_field_type_is_fixed(column: ColumnView)
    ensures
        proto_type(field_type(column)) == field_type(column),
{
    reveal_strlit("text");
    reveal_strlit("varchar");
    reveal_strlit("timestamp");
    reveal_strlit("int");
    reveal_strlit("repeated ");
    reveal_strlit("optional ");
    lemma_proto_type_is_fixed(column.db_type);
    let mapped = proto_type(column.db_type);
    assert(("repeated "@ + mapped)[0] == 'r');
    assert(("optional "@ + mapped)[0] == 'o');
    assert("timestamp"@[0] == 't');
}

/// The type table: the four database types it knows, and every other name
/// as it is.
pub proof fn lemma_type_table(db_type: Seq<char>)
    ensures
        known_type("text"@) == Some(KnownType::Text),
        known_type("varchar"@) == Some(KnownType::Varchar),
        known_type("timestamp"@) == Some(KnownType::Timestamp),
        known_type("int"@) == Some(KnownType::Int),
        proto_type("text"@) == "string"@,
        proto_type("varchar"@) == "string"@,
        proto_type("timestamp"@) == "google.protobuf.Timestamp"@,
        proto_type("int"@) == "int32"@,
        db_type != "text"@ && db_type != "varchar"@ && db_type != "timestamp"@ && db_type
            != "int"@ ==> proto_type(db_type) == db_type,
{
    reveal_strlit("text");
    reveal_strlit("varchar");
    reveal_strlit("timestamp");
    reveal_strlit("int");
    assert("text"@.len() == 4 && "varchar"@.len() == 7);
    assert("timestamp"@.len() == 9 && "int"@.len() == 3);
}

/// The field of an array says `repeated` and never `optional`, whether or
/// not the column may be null.
pub proof fn lemma_array_is_repeated(column: ColumnView)
    requires
        column.is_array,
    ensures
        field_type(column) == "repeated "@ + proto_type(column.db_type),
        field_type(column) != "optional "@ + ("repeated "@ + proto_type(column.db_type)),
{
    reveal_strlit("repeated ");
    reveal_strlit("optional ");
    let repeated = "repeated "@ + proto_type(column.db_type);
    assert(repeated[0] == 'r');
    assert(("optional "@ + repeated)[0] == 'o');
}

/// The number of a field is the position of its column, counted from one,
/// whatever order the columns come in.
pub proof fn lemma_field_number_is_position(columns: Seq<ColumnView>, i: int)
    requires
        0 <= i < columns.len(),
    ensures
        field_lines(columns).len() == columns.len(),
        field_lines(columns)[i] == "  "@ + field_type(columns[i]) + " "@ + columns[i].name
            + " = "@ + decimal((i + 1) as nat) + ";"@,
{
}

/// The definitions are functions of what the tables and names read as:
/// tables that read the same give the same message, the same conversion
/// function and the same service, character for character.
pub proof fn lemma_definitions_are_determined(
    first: Table,
    second: Table,
    singular: Seq<char>,
    sing_snake: Seq<char>,
    fields: Seq<Seq<char>>,
)
    requires
        first@ == second@,
    ensures
        message_definition(singular, first@.columns) == message_definition(
            singular,
            second@.columns,
        ),
        conversion_function(singular, conversion_lines(fields, first@.columns))
            == conversion_function(singular, conversion_lines(fields, second@.columns)),
        crud_service(singular, sing_snake, first@.name) == crud_service(
            singular,
            sing_snake,
            second@.name,
        ),
{
}

/// The known type that the name `db_type` stands for, if it stands for one.
pub fn classify(db_type: &String) -> (known: Option<KnownType>)
    ensures
        known == known_type(db_type@),
{
    if reads(db_type, "text") {
        Some(KnownType::Text)
    } else if reads(db_type, "varchar") {
        Some(KnownType::Varchar)
    } else if reads(db_type, "timestamp") {
        Some(KnownType::Timestamp)
    } else if reads(db_type, "int") {
        Some(KnownType::Int)
    } else {
        None
    }
}

/// The protocol type of the known type `known`.
pub fn proto_name_of(known: KnownType) -> (out: String)
    ensures
        out@ == proto_name(known),
{
    match known {
        KnownType::Text => owned("string"),
        KnownType::Varchar => owned("string"),
        KnownType::Timestamp => owned("google.protobuf.Timestamp"),
        KnownType::Int => owned("int32"),
    }
}

/// The protocol type for the database type `i`.
pub fn db2proto(i: &String) -> (out: String)
    ensures
        out@ == proto_type(i@),
{
    match classify(i) {
        Some(known) => proto_name_of(known),
        None => i.clone(),
    }
}

/// The field of the column `c`, which stands at `id` counted from zero: its
/// number is `id + 1`.
pub fn col_to_proto(c: &Column, id: usize) -> (out: String)
    ensures
        out@ == field_line(c@, id as nat),
{
    let mut proto_type = db2proto(&c.db_type);
    if c.is_array {
        let mut repeated = owned("repeated ");
        repeated.append(proto_type.as_str());
        proto_type = repeated;
    } else if !c.not_null {
        let mut optional = owned("optional ");
        optional.append(proto_type.as_str());
        proto_type = optional;
    }
    proof {
        lemma_field_type_is_fixed(c@);
    }
    let number: u128 = id as u128 + 1;
    let mut out = owned("  ");
    out.append(db2proto(&proto_type).as_str());
    out.append(" ");
    out.append(c.name.as_str());
    out.append(" = ");
    push_decimal(&mut out, number);
    out.append(";");
    out
}

/// The message of `table` under the name `singular`.
pub fn message_for(table: &Table, singular: &str) -> (out: String)
    ensures
        out@ == message_definition(singular@, table@.columns),
{
    let mut lines: Vec<String> = Vec::new();
    let mut i: usize = 0;
    while i < table.columns.len()
        invariant
            i <= table.columns.len(),
            lines.len() == i,
            forall|j: int| 0 <= j < i ==> lines[j]@ == field_line(table.columns[j]@, j as nat),
        decreases table.columns.len() - i,
    {
        lines.push(col_to_proto(&table.columns[i], i));
        i += 1;
    }
    assert(views(lines@) =~= field_lines(table@.columns));
    let mut out = owned("message ");
    out.append(singular);
    out.append(" {\n");
    out.append(join(&lines, "\n").as_str());
    out.append("\n}");
    out
}

/// The message of the table `t`, under the singular of its name. The singular
/// comes from the inflection, of which nothing is known; whatever it is, the
/// message is the one that [`message_definition`] describes for it.
pub fn proto_gen(t: &Table) -> (out: String)
    ensures
        is_message_of(out@, t@),
{
    let sing = t.singular();
    let out = message_for(t, sing.as_str());
    assert(out@ == message_definition(sing@, t@.columns));
    out
}

/// The assignment for the column `c` to the field `field`.
pub fn conversion_line_for(c: &Column, field: &str) -> (out: String)
    ensures
        out@ == conversion_line(field@, c@),
{
    let go_name = c.ideomatic_go();
    assert(c.raw_name() == c@.name);
    let mut out = owned(field);
    match classify(&c.db_type) {
        Some(KnownType::Timestamp) => {
            out.append(": timestamppb.New(");
            out.append(go_name.as_str());
            out.append("),");
        },
        _ => {
            out.append(": ");
            out.append(go_name.as_str());
            out.append(",");
        },
    }
    out
}

/// The assignment for the column `c`, to the field that the singular of the
/// column's camel-case name gives. That singular comes from the inflection,
/// of which nothing is known.
pub fn col_convert_proto(c: &Column) -> (out: String)
    ensures
        is_conversion_line_of(out@, c@),
{
    let name = c.singular();
    let out = conversion_line_for(c, name.as_str());
    assert(out@ == conversion_line(name@, c@));
    out
}

/// The conversion function for the message `singular`, around the
/// assignments `lines`.
pub fn conversion_function_for(singular: &str, lines: &Vec<String>) -> (out: String)
    ensures
        out@ == conversion_function(singular@, views(lines@)),
{
    let mut out = owned("func (t ");
    out.append(singular);
    out.append(") Pb() *pb.");
    out.append(singular);
    out.append(" {\n  return &pb.");
    out.append(singular);
    out.append(" {\n");
    out.append(join(lines, "\n").as_str());
    out.append("\n}\n}");
    out
}

/// The conversion function of the table `t`: one assignment for each column.
/// The name of the message and the fields come from the inflection, of which
/// nothing is known; whatever they are, the function is the one that
/// [`conversion_function`] describes for them.
pub fn convert_table_fncs(t: &Table) -> (out: String)
    ensures
        is_conversion_function_of(out@, t@),
{
    let mut lines: Vec<String> = Vec::new();
    let ghost mut fields: Seq<Seq<char>> = Seq::empty();
    let mut i: usize = 0;
    while i < t.columns.len()
        invariant
            i <= t.columns.len(),
            lines.len() == i,
            fields.len() == i,
            forall|j: int| 0 <= j < i ==> lines[j]@ == conversion_line(fields[j], t.columns[j]@),
        decreases t.columns.len() - i,
    {
        let line = col_convert_proto(&t.columns[i]);
        proof {
            let field = choose|field: Seq<char>| line@ == conversion_line(field, t.columns[i as int]@);
            fields = fields.push(field);
        }
        lines.push(line);
        i += 1;
    }
    let sing = t.singular();
    let out = conversion_function_for(sing.as_str(), &lines);
    proof {
        assert(views(lines@) =~= conversion_lines(fields, t@.columns));
        assert(out@ == conversion_function(sing@, conversion_lines(fields, t@.columns)));
    }
    out
}

/// One RPC of the service.
fn rpc_line(verb: &str, noun: &str) -> (out: String)
    ensures
        out@ == rpc(verb@, noun@),
{
    let mut out = owned("            rpc ");
    out.append(verb);
    out.append(noun);
    out.append("(");
    out.append(verb);
    out.append(noun);
    out.append("Request) returns (");
    out.append(verb);
    out.append(noun);
    out.append("Response) {}\n");
    out
}

/// One message of the service file, under the name `verb`, `noun`, `kind`.
fn message_block_for(open: &str, verb: &str, noun: &str, kind: &str, body: &str, close: &str) -> (out:
    String)
    ensures
        out@ == message_block(open@, title(verb@, noun@, kind@), body@, close@),
{
    let mut name = owned(verb);
    name.append(noun);
    name.append(kind);
    let mut out = owned(open);
    out.append("message ");
    out.append(name.as_str());
    out.append(" {\n");
    out.append(body);
    out.append(close);
    out.append("}\n");
    out
}

/// The service of a table whose name is `name`, whose entity is called
/// `singular` and whose field of the entity is called `sing_snake`.
pub fn service_for(singular: &str, sing_snake: &str, name: &str) -> (out: String)
    ensures
        out@ == crud_service(singular@, sing_snake@, name@),
{
    let mut entity_text = owned("            ");
    entity_text.append(singular);
    entity_text.append(" ");
    entity_text.append(sing_snake);
    entity_text.append(" = 1;\n");
    let entity = entity_text.as_str();
    let mut page_text = owned("            repeated ");
    page_text.append(singular);
    page_text.append(" ");
    page_text.append(name);
    page_text.append("s = 1;\n");
    let id = "            string id = 1;\n";
    let page = "            int32 limit = 1;\n            int32 offset = 2;\n";
    let mut many_text = owned(singular);
    many_text.append("s");
    let many = many_text.as_str();
    let pad = "        ";

    let mut out = owned("service ");
    out.append(singular);
    out.append("CrudService {\n");
    out.append(rpc_line("Create", singular).as_str());
    out.append(rpc_line("Get", singular).as_str());
    out.append(rpc_line("Update", singular).as_str());
    out.append(rpc_line("Delete", singular).as_str());
    out.append(rpc_line("List", many).as_str());
    out.append("          })\n          \n");
    out.append(
        message_block_for("          ", "Create", singular, "Request", entity, "          ").as_str(),
    );
    out.append("\n");
    out.append(message_block_for("           ", "Create", singular, "Response", entity, pad).as_str());
    out.append("\n");
    out.append(message_block_for(pad, "Get", singular, "Request", id, pad).as_str());
    out.append("        \n");
    out.append(message_block_for(pad, "Get", singular, "Response", entity, pad).as_str());
    out.append("\n");
    out.append(message_block_for(pad, "Update", singular, "Request", entity, pad).as_str());
    out.append("\n");
    out.append(message_block_for(pad, "Update", singular, "Response", entity, pad).as_str());
    out.append("\n");
    out.append(message_block_for(pad, "Delete", singular, "Request", id, pad).as_str());
    out.append("\n");
    out.append(message_block_for(pad, "Delete", singular, "Response", id, pad).as_str());
    out.append("\n");
    out.append(message_block_for(pad, "List", many, "Request", page, pad).as_str());
    out.append("\n");
    out.append(message_block_for(pad, "List", many, "Response", page_text.as_str(), pad).as_str());
    out.append(pad);
    out
}

/// The service of the table `t`. The names of the entity and of its field
/// come from the inflection, of which nothing is known; whatever they are,
/// the service is the one that [`crud_service`] describes for them.
pub fn create_crud_service(t: &Table) -> (out: String)
    ensures
        is_service_of(out@, t@),
{
    let sing = t.singular();
    let sing_snake = t.sing_snake();
    let name = t.name();
    assert(t.raw_name() == t@.name);
    let out = service_for(sing.as_str(), sing_snake.as_str(), name.as_str());
    assert(out@ == crud_service(sing@, sing_snake@, t@.name));
    out
}

} // verus!
