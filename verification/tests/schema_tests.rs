use dream_stack::schema::{
    attachment_table, creates_table, todo_table, ColumnType, ForeignKeyAction, Migration,
    SchemaStatement,
};

#[test]
fn up_creates_the_todo_then_the_attachment_table() {
    let m = Migration;
    let stmts = m.up();
    assert_eq!(stmts.len(), 2);
    assert!(creates_table(&stmts[0], "todo"));
    assert!(creates_table(&stmts[1], "attachment"));
}

#[test]
fn down_drops_the_todo_table() {
    let m = Migration;
    let stmts = m.down();
    assert_eq!(stmts.len(), 1);
    match &stmts[0] {
        SchemaStatement::DropTable(name) => assert_eq!(name.as_str(), "todo"),
        SchemaStatement::CreateTable(_) => panic!("expected a drop statement"),
    }
}

#[test]
fn todo_table_declares_its_four_columns() {
    let t = todo_table();
    assert_eq!(t.name.as_str(), "todo");
    assert!(t.if_not_exists);
    assert_eq!(t.columns.len(), 4);
    assert_eq!(t.columns[0].name.as_str(), "id");
    assert_eq!(t.columns[0].col_type, ColumnType::Uuid);
    assert!(t.columns[0].primary_key);
    assert!(!t.columns[0].nullable);
    assert_eq!(t.columns[1].name.as_str(), "title");
    assert_eq!(t.columns[1].col_type, ColumnType::Text);
    assert_eq!(t.columns[2].name.as_str(), "text");
    assert_eq!(t.columns[2].col_type, ColumnType::Text);
    assert_eq!(t.columns[3].name.as_str(), "due_date");
    assert_eq!(t.columns[3].col_type, ColumnType::Date);
    assert!(t.columns[3].nullable);
    assert!(t.foreign_keys.is_empty());
}

#[test]
fn attachment_table_declares_the_cascading_foreign_key() {
    let t = attachment_table();
    assert_eq!(t.name.as_str(), "attachment");
    assert_eq!(t.columns.len(), 5);
    assert_eq!(t.columns[1].name.as_str(), "todo");
    assert!(t.columns[1].nullable);
    assert_eq!(t.columns[4].name.as_str(), "category");
    assert_eq!(t.columns[4].col_type, ColumnType::Category);
    assert_eq!(t.foreign_keys.len(), 1);
    let fk = &t.foreign_keys[0];
    assert_eq!(fk.from_table.as_str(), "attachment");
    assert_eq!(fk.from_column.as_str(), "todo");
    assert_eq!(fk.to_table.as_str(), "todo");
    assert_eq!(fk.to_column.as_str(), "id");
    assert_eq!(fk.on_delete, ForeignKeyAction::Cascade);
    assert_eq!(fk.on_update, ForeignKeyAction::Cascade);
}
