//! The catalog as the generation engine reads it, and the files it hands back.

use vstd::prelude::*;

verus! {

/// One column of a table.
#[derive(Debug)]
pub struct Column {
    /// The column's raw name, unique within its table.
    pub name: String,
    /// The name of the declared database type.
    pub db_type: String,
    /// Whether the column is declared `NOT NULL`.
    pub not_null: bool,
    /// Whether the column holds an array of its type.
    pub is_array: bool,
}

/// What a [`Column`] stands for.
pub struct ColumnView {
    pub name: Seq<char>,
    pub db_type: Seq<char>,
    pub not_null: bool,
    pub is_array: bool,
}

impl View for Column {
    type V = ColumnView;

    open spec fn view(&self) -> ColumnView {
        ColumnView {
            name: self.name@,
            db_type: self.db_type@,
            not_null: self.not_null,
            is_array: self.is_array,
        }
    }
}

impl Clone for Column {
    fn clone(&self) -> (copy: Self)
        ensures
            copy@ == self@,
    {
        Column {
            name: self.name.clone(),
            db_type: self.db_type.clone(),
            not_null: self.not_null,
            is_array: self.is_array,
        }
    }
}

/// The view of each column of a sequence.
pub open spec fn column_views(columns: Seq<Column>) -> Seq<ColumnView> {
    columns.map_values(|c: Column| c@)
}

/// A table: its raw name and its columns in declaration order.
#[derive(Debug)]
pub struct Table {
    pub name: String,
    pub columns: Vec<Column>,
}

/// What a [`Table`] stands for.
pub struct TableView {
    pub name: Seq<char>,
    pub columns: Seq<ColumnView>,
}

impl View for Table {
    type V = TableView;

    open spec fn view(&self) -> TableView {
        TableView { name: self.name@, columns: column_views(self.columns@) }
    }
}

impl Clone for Table {
    fn clone(&self) -> (copy: Self)
        ensures
            copy@ == self@,
    {
        let mut columns: Vec<Column> = Vec::new();
        let mut i: usize = 0;
        while i < self.columns.len()
            invariant
                i <= self.columns.len(),
                columns.len() == i,
                forall|j: int| 0 <= j < i ==> columns[j]@ == self.columns[j]@,
            decreases self.columns.len() - i,
        {
            columns.push(self.columns[i].clone());
            i += 1;
        }
        assert(column_views(columns@) =~= column_views(self.columns@));
        Table { name: self.name.clone(), columns }
    }
}

/// The view of each table of a sequence.
pub open spec fn table_views(tables: Seq<Table>) -> Seq<TableView> {
    tables.map_values(|t: Table| t@)
}

/// A schema: a group of tables.
#[derive(Debug)]
pub struct Schema {
    pub tables: Vec<Table>,
}

impl View for Schema {
    type V = Seq<TableView>;

    open spec fn view(&self) -> Seq<TableView> {
        table_views(self.tables@)
    }
}

/// The view of each schema of a sequence.
pub open spec fn schema_views(schemas: Seq<Schema>) -> Seq<Seq<TableView>> {
    schemas.map_values(|s: Schema| s@)
}

/// A catalog: a group of schemas.
#[derive(Debug)]
pub struct Catalog {
    pub schemas: Vec<Schema>,
}

impl View for Catalog {
    type V = Seq<Seq<TableView>>;

    open spec fn view(&self) -> Seq<Seq<TableView>> {
        schema_views(self.schemas@)
    }
}

/// A generation request. The catalog may be absent.
#[derive(Debug)]
pub struct CodeGenRequest {
    pub catalog: Option<Catalog>,
}

impl View for CodeGenRequest {
    type V = Option<Seq<Seq<TableView>>>;

    open spec fn view(&self) -> Option<Seq<Seq<TableView>>> {
        match self.catalog {
            Some(catalog) => Some(catalog@),
            None => None,
        }
    }
}

/// One generated file: a name and its bytes.
#[derive(Debug)]
pub struct File {
    pub name: String,
    pub contents: Vec<u8>,
}

/// What a [`File`] stands for.
pub struct FileView {
    pub name: Seq<char>,
    pub contents: Seq<u8>,
}

impl View for File {
    type V = FileView;

    open spec fn view(&self) -> FileView {
        FileView { name: self.name@, contents: self.contents@ }
    }
}

/// The view of each file of a sequence.
pub open spec fn file_views(files: Seq<File>) -> Seq<FileView> {
    files.map_values(|f: File| f@)
}

/// The files of one generation run, in the order they were produced.
#[derive(Debug)]
pub struct CodeGenResponse {
    pub files: Vec<File>,
}

impl View for CodeGenResponse {
    type V = Seq<FileView>;

    open spec fn view(&self) -> Seq<FileView> {
        file_views(self.files@)
    }
}

} // verus!
