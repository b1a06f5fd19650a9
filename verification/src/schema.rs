//! The declared database schema and the migration that applies it.
//!
//! The schema is held as plain data: tables, typed columns, and the foreign
//! key from attachments to todos with its cascade actions. The migration
//! produces the statements to apply or revert the schema; executing them
//! against a database engine is the surrounding process's job.

use vstd::prelude::*;
use crate::text::str_eq;

verus! {

/// The storage type a column is declared with.
#[derive(Clone, Copy, PartialEq, Eq, Structural, Debug)]
pub enum ColumnType {
    Uuid,
    Text,
    Date,
    Integer,
    Category,
}

/// The referential action declared on a foreign key.
#[derive(Clone, Copy, PartialEq, Eq, Structural, Debug)]
pub enum ForeignKeyAction {
    Cascade,
    SetNull,
    Restrict,
    NoAction,
}

/// One declared column.
#[derive(Debug)]
pub struct ColumnSpec {
    pub name: String,
    pub col_type: ColumnType,
    pub nullable: bool,
    pub primary_key: bool,
}

/// One declared foreign key.
#[derive(Debug)]
pub struct ForeignKeySpec {
    pub name: String,
    pub from_table: String,
    pub from_column: String,
    pub to_table: String,
    pub to_column: String,
    pub on_delete: ForeignKeyAction,
    pub on_update: ForeignKeyAction,
}

/// One declared table.
#[derive(Debug)]
pub struct TableSpec {
    pub name: String,
    pub if_not_exists: bool,
    pub columns: Vec<ColumnSpec>,
    pub foreign_keys: Vec<ForeignKeySpec>,
}

/// One schema-changing statement.
#[derive(Debug)]
pub enum SchemaStatement {
    CreateTable(TableSpec),
    DropTable(String),
}

/// A column pinned field by field.
pub open spec fn spec_column_is(
    c: ColumnSpec,
    name: Seq<char>,
    col_type: ColumnType,
    nullable: bool,
    primary_key: bool,
) -> bool {
    c.name@ == name && c.col_type == col_type && c.nullable == nullable && c.primary_key
        == primary_key
}

/// The declared todo table: id, title, text, optional due date.
pub open spec fn spec_is_todo_table(t: TableSpec) -> bool {
    &&& t.name@ == "todo"@
    &&& t.if_not_exists
    &&& t.columns@.len() == 4
    &&& spec_column_is(t.columns@[0], "id"@, ColumnType::Uuid, false, true)
    &&& spec_column_is(t.columns@[1], "title"@, ColumnType::Text, false, false)
    &&& spec_column_is(t.columns@[2], "text"@, ColumnType::Text, false, false)
    &&& spec_column_is(t.columns@[3], "due_date"@, ColumnType::Date, true, false)
    &&& t.foreign_keys@.len() == 0
}

/// The declared attachment table: id, nullable reference to the owning todo,
/// name, url, category, and the cascading foreign key on the reference.
pub open spec fn spec_is_attachment_table(t: TableSpec) -> bool {
    &&& t.name@ == "attachment"@
    &&& t.if_not_exists
    &&& t.columns@.len() == 5
    &&& spec_column_is(t.columns@[0], "id"@, ColumnType::Uuid, false, true)
    &&& spec_column_is(t.columns@[1], "todo"@, ColumnType::Uuid, true, false)
    &&& spec_column_is(t.columns@[2], "name"@, ColumnType::Text, false, false)
    &&& spec_column_is(t.columns@[3], "url"@, ColumnType::Text, false, false)
    &&& spec_column_is(t.columns@[4], "category"@, ColumnType::Category, false, false)
    &&& t.foreign_keys@.len() == 1
    &&& t.foreign_keys@[0].name@ == "attachment_todo"@
    &&& t.foreign_keys@[0].from_table@ == "attachment"@
    &&& t.foreign_keys@[0].from_column@ == "todo"@
    &&& t.foreign_keys@[0].to_table@ == "todo"@
    &&& t.foreign_keys@[0].to_column@ == "id"@
    &&& t.foreign_keys@[0].on_delete == ForeignKeyAction::Cascade
    &&& t.foreign_keys@[0].on_update == ForeignKeyAction::Cascade
}

/// Some column of the table carries the given name.
pub open spec fn spec_table_has_column(t: TableSpec, name: Seq<char>) -> bool {
    exists|i: int| 0 <= i < t.columns@.len() && (#[trigger] t.columns@[i]).name@ == name
}

/// A table is well formed: distinct column names and exactly one primary key.
pub open spec fn spec_table_wf(t: TableSpec) -> bool {
    &&& (forall|i: int, j: int|
        0 <= i < j < t.columns@.len() ==> (#[trigger] t.columns@[i]).name@ != (
        #[trigger] t.columns@[j]).name@)
    &&& (exists|i: int|
        0 <= i < t.columns@.len() && (#[trigger] t.columns@[i]).primary_key && (forall|j: int|
            0 <= j < t.columns@.len() && (#[trigger] t.columns@[j]).primary_key ==> j == i))
}

/// A foreign key of `owner` is well formed within `tables`: its source column
/// exists in the owning table and its target table and column exist.
pub open spec fn spec_fk_wf(owner: TableSpec, fk: ForeignKeySpec, tables: Seq<TableSpec>) -> bool {
    &&& fk.from_table@ == owner.name@
    &&& spec_table_has_column(owner, fk.from_column@)
    &&& (exists|ti: int|
        0 <= ti < tables.len() && (#[trigger] tables[ti]).name@ == fk.to_table@
            && spec_table_has_column(tables[ti], fk.to_column@))
}

/// A whole schema is well formed: well-formed tables with distinct names,
/// and every foreign key resolves.
pub open spec fn spec_schema_wf(tables: Seq<TableSpec>) -> bool {
    &&& (forall|i: int| 0 <= i < tables.len() ==> spec_table_wf(#[trigger] tables[i]))
    &&& (forall|i: int, j: int|
        0 <= i < j < tables.len() ==> (#[trigger] tables[i]).name@ != (#[trigger] tables[j]).name@)
    &&& (forall|i: int, k: int|
        0 <= i < tables.len() && 0 <= k < tables[i].foreign_keys@.len() ==> spec_fk_wf(
            tables[i],
            #[trigger] tables[i].foreign_keys@[k],
            tables,
        ))
}

/// Build one column.
fn column(name: &str, col_type: ColumnType, nullable: bool, primary_key: bool) -> (c: ColumnSpec)
    ensures
        spec_column_is(c, name@, col_type, nullable, primary_key),
{
    ColumnSpec { name: name.to_owned(), col_type, nullable, primary_key }
}

/// Build the declared todo table.
pub fn todo_table() -> (t: TableSpec)
    ensures
        spec_is_todo_table(t),
{
    let mut columns: Vec<ColumnSpec> = Vec::new();
    columns.push(column("id", ColumnType::Uuid, false, true));
    columns.push(column("title", ColumnType::Text, false, false));
    columns.push(column("text", ColumnType::Text, false, false));
    columns.push(column("due_date", ColumnType::Date, true, false));
    TableSpec {
        name: "todo".to_owned(),
        if_not_exists: true,
        columns,
        foreign_keys: Vec::new(),
    }
}

/// Build the declared attachment table, with its cascading foreign key.
pub fn attachment_table() -> (t: TableSpec)
    ensures
        spec_is_attachment_table(t),
{
    let mut columns: Vec<ColumnSpec> = Vec::new();
    columns.push(column("id", ColumnType::Uuid, false, true));
    columns.push(column("todo", ColumnType::Uuid, true, false));
    columns.push(column("name", ColumnType::Text, false, false));
    columns.push(column("url", ColumnType::Text, false, false));
    columns.push(column("category", ColumnType::Category, false, false));
    let fk = ForeignKeySpec {
        name: "attachment_todo".to_owned(),
        from_table: "attachment".to_owned(),
        from_column: "todo".to_owned(),
        to_table: "todo".to_owned(),
        to_column: "id".to_owned(),
        on_delete: ForeignKeyAction::Cascade,
        on_update: ForeignKeyAction::Cascade,
    };
    let mut foreign_keys: Vec<ForeignKeySpec> = Vec::new();
    foreign_keys.push(fk);
    TableSpec { name: "attachment".to_owned(), if_not_exists: true, columns, foreign_keys }
}

/// The single schema migration.
pub struct Migration;

impl Migration {
    /// Apply: create the todo table, then the attachment table.
    pub fn up(&self) -> (stmts: Vec<SchemaStatement>)
        ensures
            stmts@.len() == 2,
            stmts@[0] matches SchemaStatement::CreateTable(t) && spec_is_todo_table(t),
            stmts@[1] matches SchemaStatement::CreateTable(t) && spec_is_attachment_table(t),
    {
        let mut stmts: Vec<SchemaStatement> = Vec::new();
        stmts.push(SchemaStatement::CreateTable(todo_table()));
        stmts.push(SchemaStatement::CreateTable(attachment_table()));
        stmts
    }

    /// Revert: drop the todo table.
    pub fn down(&self) -> (stmts: Vec<SchemaStatement>)
        ensures
            stmts@.len() == 1,
            stmts@[0] matches SchemaStatement::DropTable(n) && n@ == "todo"@,
    {
        let mut stmts: Vec<SchemaStatement> = Vec::new();
        stmts.push(SchemaStatement::DropTable("todo".to_owned()));
        stmts
    }
}

/// The declared two-table schema is well formed, and its one foreign key
/// carries cascade on delete and on update.
pub proof fn lemma_declared_schema_wf(t0: TableSpec, t1: TableSpec)
    requires
        spec_is_todo_table(t0),
        spec_is_attachment_table(t1),
    ensures
        spec_schema_wf(seq![t0, t1]),
        t1.foreign_keys@[0].on_delete == ForeignKeyAction::Cascade,
        t1.foreign_keys@[0].on_update == ForeignKeyAction::Cascade,
{
    broadcast use vstd::string::group_string_axioms;

    reveal_strlit("todo");
    reveal_strlit("attachment");
    reveal_strlit("id");
    reveal_strlit("title");
    reveal_strlit("text");
    reveal_strlit("due_date");
    reveal_strlit("name");
    reveal_strlit("url");
    reveal_strlit("category");
    // Lengths (and one first character) separate the declared names.
    assert("todo"@.len() == 4 && "todo"@[0] == 't');
    assert("attachment"@.len() == 10);
    assert("id"@.len() == 2);
    assert("title"@.len() == 5);
    assert("text"@.len() == 4 && "text"@[0] == 't');
    assert("due_date"@.len() == 8 && "due_date"@[0] == 'd');
    assert("name"@.len() == 4 && "name"@[0] == 'n');
    assert("url"@.len() == 3);
    assert("category"@.len() == 8 && "category"@[0] == 'c');
    let tables = seq![t0, t1];
    assert(spec_table_wf(t0)) by {
        assert(t0.columns@[0].primary_key && (forall|j: int|
            0 <= j < t0.columns@.len() && (#[trigger] t0.columns@[j]).primary_key ==> j == 0));
    }
    assert(spec_table_wf(t1)) by {
        assert(t1.columns@[0].primary_key && (forall|j: int|
            0 <= j < t1.columns@.len() && (#[trigger] t1.columns@[j]).primary_key ==> j == 0));
    }
    assert forall|i: int, k: int|
        0 <= i < tables.len() && 0 <= k < tables[i].foreign_keys@.len() implies spec_fk_wf(
        tables[i],
        #[trigger] tables[i].foreign_keys@[k],
        tables,
    ) by {
        assert(i == 1 && k == 0);
        let fk = t1.foreign_keys@[0];
        assert(t1.columns@[1].name@ == fk.from_column@);
        assert(tables[0].name@ == fk.to_table@);
        assert(t0.columns@[0].name@ == fk.to_column@);
    }
}

/// Decide whether a statement creates the table of the given name.
pub fn creates_table(stmt: &SchemaStatement, name: &str) -> (r: bool)
    ensures
        r == (stmt matches SchemaStatement::CreateTable(t) && t.name@ == name@),
{
    match stmt {
        SchemaStatement::CreateTable(t) => str_eq(t.name.as_str(), name),
        SchemaStatement::DropTable(_) => false,
    }
}

} // verus!
