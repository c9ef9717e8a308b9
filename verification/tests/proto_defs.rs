use crudgen::gen::plugin::{Column, Table};
use crudgen::gen::proto::{
    classify, col_convert_proto, col_to_proto, conversion_function_for, conversion_line_for,
    convert_table_fncs, create_crud_service, db2proto, message_for, proto_gen, proto_name_of,
    service_for, KnownType,
};

fn column(name: &str, db_type: &str, not_null: bool, is_array: bool) -> Column {
    Column { name: name.to_string(), db_type: db_type.to_string(), not_null, is_array }
}

fn authors() -> Table {
    Table {
        name: "authors".to_string(),
        columns: vec![
            column("id", "text", true, false),
            column("name", "text", true, false),
            column("bio", "text", false, false),
            column("created_at", "timestamp", true, false),
            column("updated_at", "timestamp", true, false),
        ],
    }
}

fn service_text(sing: &str, sing_snake: &str, name: &str) -> String {
    format!(
        r#"service {sing}CrudService {{
            rpc Create{sing}(Create{sing}Request) returns (Create{sing}Response) {{}}
            rpc Get{sing}(Get{sing}Request) returns (Get{sing}Response) {{}}
            rpc Update{sing}(Update{sing}Request) returns (Update{sing}Response) {{}}
            rpc Delete{sing}(Delete{sing}Request) returns (Delete{sing}Response) {{}}
            rpc List{sing}s(List{sing}sRequest) returns (List{sing}sResponse) {{}}
          }})
          
          message Create{sing}Request {{
            {sing} {sing_snake} = 1;
          }}

           message Create{sing}Response {{
            {sing} {sing_snake} = 1;
        }}

        message Get{sing}Request {{
            string id = 1;
        }}
        
        message Get{sing}Response {{
            {sing} {sing_snake} = 1;
        }}

        message Update{sing}Request {{
            {sing} {sing_snake} = 1;
        }}

        message Update{sing}Response {{
            {sing} {sing_snake} = 1;
        }}

        message Delete{sing}Request {{
            string id = 1;
        }}

        message Delete{sing}Response {{
            string id = 1;
        }}

        message List{sing}sRequest {{
            int32 limit = 1;
            int32 offset = 2;
        }}

        message List{sing}sResponse {{
            repeated {sing} {name}s = 1;
        }}
        "#
    )
}

#[test]
fn test_col_to_proto() {
    let table = authors();

    let res = proto_gen(&table);
    println!("{}", res);
    assert_eq!(res, "message Author {\n  string id = 1;\n  string name = 2;\n  optional string bio = 3;\n  google.protobuf.Timestamp created_at = 4;\n  google.protobuf.Timestamp updated_at = 5;\n}");
}

#[test]
fn test_convert_fn() {
    let table = authors();

    let res = convert_table_fncs(&table);
    println!("{}", res);
    assert_eq!(res, "func (t Author) Pb() *pb.Author {\n  return &pb.Author {\nId: ID,\nName: Name,\nBio: Bio,\nCreatedAt: timestamppb.New(CreatedAt),\nUpdatedAt: timestamppb.New(UpdatedAt),\n}\n}");
}

#[test]
fn known_types_are_mapped() {
    assert_eq!(db2proto(&"text".to_string()), "string");
    assert_eq!(db2proto(&"varchar".to_string()), "string");
    assert_eq!(db2proto(&"timestamp".to_string()), "google.protobuf.Timestamp");
    assert_eq!(db2proto(&"int".to_string()), "int32");
}

#[test]
fn unknown_types_pass_through() {
    for t in ["uuid", "jsonb", "TEXT", "int4", "", "timestamptz", "string", "int32"] {
        assert_eq!(db2proto(&t.to_string()), t);
    }
}

#[test]
fn array_is_repeated_not_optional() {
    assert_eq!(col_to_proto(&column("tags", "text", true, true), 0), "  repeated string tags = 1;");
    assert_eq!(col_to_proto(&column("tags", "text", false, true), 0), "  repeated string tags = 1;");
    assert_eq!(col_to_proto(&column("at", "timestamp", false, true), 3),
        "  repeated google.protobuf.Timestamp at = 4;");
}

#[test]
fn nullable_is_optional() {
    assert_eq!(col_to_proto(&column("bio", "text", false, false), 2), "  optional string bio = 3;");
    assert_eq!(col_to_proto(&column("n", "int", false, false), 0), "  optional int32 n = 1;");
    assert_eq!(col_to_proto(&column("u", "uuid", false, false), 0), "  optional uuid u = 1;");
    assert_eq!(col_to_proto(&column("u", "uuid", true, false), 0), "  uuid u = 1;");
}

#[test]
fn field_number_is_position_plus_one() {
    assert_eq!(col_to_proto(&column("a", "int", true, false), 0), "  int32 a = 1;");
    assert_eq!(col_to_proto(&column("a", "int", true, false), 9), "  int32 a = 10;");
    assert_eq!(col_to_proto(&column("a", "int", true, false), 122), "  int32 a = 123;");
    assert_eq!(
        col_to_proto(&column("a", "int", true, false), usize::MAX),
        format!("  int32 a = {};", usize::MAX as u128 + 1)
    );
}

#[test]
fn field_numbers_follow_column_order() {
    let forward = Table {
        name: "t".to_string(),
        columns: vec![
            column("a", "int", true, false),
            column("b", "text", true, false),
            column("c", "uuid", true, false),
        ],
    };
    let backward = Table {
        name: "t".to_string(),
        columns: vec![
            column("c", "uuid", true, false),
            column("b", "text", true, false),
            column("a", "int", true, false),
        ],
    };
    assert_eq!(
        message_for(&forward, "T"),
        "message T {\n  int32 a = 1;\n  string b = 2;\n  uuid c = 3;\n}"
    );
    assert_eq!(
        message_for(&backward, "T"),
        "message T {\n  uuid c = 1;\n  string b = 2;\n  int32 a = 3;\n}"
    );
}

#[test]
fn message_of_no_columns() {
    let t = Table { name: "things".to_string(), columns: vec![] };
    assert_eq!(message_for(&t, "Thing"), "message Thing {\n\n}");
    assert_eq!(proto_gen(&t), "message Thing {\n\n}");
}

#[test]
fn conversion_lines() {
    assert_eq!(conversion_line_for(&column("org_id", "text", true, false), "OrgId"), "OrgId: OrgID,");
    assert_eq!(
        conversion_line_for(&column("seen_at", "timestamp", true, false), "SeenAt"),
        "SeenAt: timestamppb.New(SeenAt),"
    );
    assert_eq!(col_convert_proto(&column("id", "text", true, false)), "Id: ID,");
    assert_eq!(
        col_convert_proto(&column("created_at", "timestamp", false, false)),
        "CreatedAt: timestamppb.New(CreatedAt),"
    );
    assert_eq!(col_convert_proto(&column("at", "timestamptz", true, false)), "At: At,");
}

#[test]
fn conversion_function_wraps_lines() {
    let lines = vec!["A: A,".to_string(), "B: B,".to_string()];
    assert_eq!(
        conversion_function_for("Thing", &lines),
        "func (t Thing) Pb() *pb.Thing {\n  return &pb.Thing {\nA: A,\nB: B,\n}\n}"
    );
    assert_eq!(
        conversion_function_for("Thing", &vec![]),
        "func (t Thing) Pb() *pb.Thing {\n  return &pb.Thing {\n\n}\n}"
    );
}

#[test]
fn service_has_the_fixed_shape() {
    assert_eq!(service_for("Author", "author", "authors"), service_text("Author", "author", "authors"));
    assert_eq!(service_for("X", "y", "z"), service_text("X", "y", "z"));
    assert_eq!(service_for("", "", ""), service_text("", "", ""));
}

#[test]
fn service_of_a_table() {
    let text = create_crud_service(&authors());
    assert_eq!(text, service_text("Author", "author", "authors"));
    assert!(text.starts_with("service AuthorCrudService {\n"));
    assert_eq!(text.matches("rpc ").count(), 5);
    assert_eq!(text.matches("message ").count(), 10);
    assert!(text.contains("rpc ListAuthors(ListAuthorsRequest) returns (ListAuthorsResponse) {}"));
    assert!(text.contains("repeated Author authorss = 1;"));
    assert!(text.contains("int32 limit = 1;\n            int32 offset = 2;"));
}

#[test]
fn definitions_are_repeatable() {
    let t = authors();
    assert_eq!(proto_gen(&t).as_bytes(), proto_gen(&t).as_bytes());
    assert_eq!(convert_table_fncs(&t).as_bytes(), convert_table_fncs(&t).as_bytes());
    assert_eq!(create_crud_service(&t).as_bytes(), create_crud_service(&t).as_bytes());
}

#[test]
fn known_types_are_told_apart() {
    assert_eq!(classify(&"text".to_string()), Some(KnownType::Text));
    assert_eq!(classify(&"varchar".to_string()), Some(KnownType::Varchar));
    assert_eq!(classify(&"timestamp".to_string()), Some(KnownType::Timestamp));
    assert_eq!(classify(&"int".to_string()), Some(KnownType::Int));
    for other in ["", "Text", "text ", "integer", "timestamptz", "string"] {
        assert_eq!(classify(&other.to_string()), None);
    }
    assert_eq!(proto_name_of(KnownType::Text), "string");
    assert_eq!(proto_name_of(KnownType::Varchar), "string");
    assert_eq!(proto_name_of(KnownType::Timestamp), "google.protobuf.Timestamp");
    assert_eq!(proto_name_of(KnownType::Int), "int32");
}
