use dream_stack::category::AttachmentType;
use dream_stack::store::{StoreError, TodoStore};

fn store_with_two_todos() -> (TodoStore, u64, u64) {
    let mut store = TodoStore::new();
    let a = store.insert_todo("first".to_string(), "alpha".to_string(), None);
    let b = store.insert_todo("second".to_string(), "beta".to_string(), None);
    (store, a, b)
}

#[test]
fn inserted_todos_are_listed_in_order() {
    let (store, a, b) = store_with_two_todos();
    let todos = store.list_todos();
    assert_eq!(todos.len(), 2);
    assert_eq!(todos[0].id, a);
    assert_eq!(todos[0].title.as_str(), "first");
    assert_eq!(todos[0].text.as_str(), "alpha");
    assert_eq!(todos[1].id, b);
    assert_eq!(todos[1].title.as_str(), "second");
    assert_eq!(todos[1].text.as_str(), "beta");
    assert_ne!(a, b);
}

#[test]
fn n_sequential_creates_yield_n_records() {
    let mut store = TodoStore::new();
    for k in 0..10u32 {
        store.insert_todo(format!("title {}", k), format!("text {}", k), None);
    }
    assert_eq!(store.list_todos().len(), 10);
    for k in 0..10usize {
        assert_eq!(store.list_todos()[k].title, format!("title {}", k));
        assert_eq!(store.list_todos()[k].text, format!("text {}", k));
    }
}

#[test]
fn attachment_linked_to_absent_todo_is_rejected() {
    let (mut store, _a, b) = store_with_two_todos();
    let r = store.insert_attachment(
        Some(b + 1000),
        "scan".to_string(),
        "file:///scan".to_string(),
        AttachmentType::Pdf,
    );
    assert_eq!(r, Err(StoreError::UnknownTodo));
    assert_eq!(store.list_attachments().len(), 0);
}

#[test]
fn unlinked_attachment_is_accepted() {
    let mut store = TodoStore::new();
    let r = store.insert_attachment(
        None,
        "notes".to_string(),
        "file:///notes".to_string(),
        AttachmentType::Zip,
    );
    assert!(r.is_ok());
    assert_eq!(store.list_attachments().len(), 1);
    assert!(store.list_attachments()[0].todo_id.is_none());
}

#[test]
fn raw_category_outside_the_enumeration_is_rejected() {
    let (mut store, a, _b) = store_with_two_todos();
    let r = store.insert_attachment_raw(
        Some(a),
        "scan".to_string(),
        "file:///scan".to_string(),
        "Word",
    );
    assert_eq!(r, Err(StoreError::InvalidCategory));
    assert_eq!(store.list_attachments().len(), 0);
}

#[test]
fn raw_category_inside_the_enumeration_is_stored() {
    let (mut store, a, _b) = store_with_two_todos();
    let r = store.insert_attachment_raw(
        Some(a),
        "scan".to_string(),
        "file:///scan".to_string(),
        "Csv",
    );
    assert!(r.is_ok());
    let attachments = store.list_attachments();
    assert_eq!(attachments.len(), 1);
    assert_eq!(attachments[0].category, AttachmentType::Csv);
    assert_eq!(attachments[0].todo_id, Some(a));
}

#[test]
fn delete_cascades_to_linked_attachments() {
    let (mut store, a, b) = store_with_two_todos();
    store
        .insert_attachment(Some(a), "a1".to_string(), "u1".to_string(), AttachmentType::Pdf)
        .unwrap();
    store
        .insert_attachment(Some(b), "a2".to_string(), "u2".to_string(), AttachmentType::Image)
        .unwrap();
    store
        .insert_attachment(None, "a3".to_string(), "u3".to_string(), AttachmentType::Zip)
        .unwrap();
    let found = store.delete_todo(a);
    assert!(found);
    assert_eq!(store.list_todos().len(), 1);
    assert_eq!(store.list_todos()[0].id, b);
    let attachments = store.list_attachments();
    assert_eq!(attachments.len(), 2);
    assert_eq!(attachments[0].name.as_str(), "a2");
    assert_eq!(attachments[0].todo_id, Some(b));
    assert_eq!(attachments[1].name.as_str(), "a3");
    assert_eq!(attachments[1].todo_id, None);
}

#[test]
fn delete_of_absent_id_changes_nothing() {
    let (mut store, a, b) = store_with_two_todos();
    let found = store.delete_todo(a + b + 7);
    assert!(!found);
    assert_eq!(store.list_todos().len(), 2);
}

#[test]
fn id_update_cascades_to_linked_attachments() {
    let (mut store, a, b) = store_with_two_todos();
    store
        .insert_attachment(Some(a), "a1".to_string(), "u1".to_string(), AttachmentType::Pdf)
        .unwrap();
    store
        .insert_attachment(Some(b), "a2".to_string(), "u2".to_string(), AttachmentType::Csv)
        .unwrap();
    let fresh: u64 = 40;
    let r = store.update_todo_id(a, fresh);
    assert_eq!(r, Ok(true));
    assert_eq!(store.list_todos()[0].id, fresh);
    assert_eq!(store.list_todos()[0].title.as_str(), "first");
    assert_eq!(store.list_todos()[1].id, b);
    let attachments = store.list_attachments();
    assert_eq!(attachments[0].todo_id, Some(fresh));
    assert_eq!(attachments[1].todo_id, Some(b));
}

#[test]
fn id_update_to_a_taken_id_is_rejected() {
    let (mut store, a, b) = store_with_two_todos();
    let r = store.update_todo_id(a, b);
    assert_eq!(r, Err(StoreError::DuplicateTodoId));
    assert_eq!(store.list_todos()[0].id, a);
    assert_eq!(store.list_todos()[1].id, b);
}

#[test]
fn id_update_of_absent_todo_is_a_no_op() {
    let (mut store, a, b) = store_with_two_todos();
    let r = store.update_todo_id(a + b + 9, 3);
    assert_eq!(r, Ok(false));
    assert_eq!(store.list_todos()[0].id, a);
    assert_eq!(store.list_todos()[1].id, b);
}

#[test]
fn store_error_messages_are_fixed() {
    assert_eq!(
        StoreError::UnknownTodo.message().as_str(),
        "referenced todo does not exist"
    );
    assert_eq!(
        StoreError::DuplicateTodoId.message().as_str(),
        "todo id is already in use"
    );
    assert_eq!(
        StoreError::InvalidCategory.message().as_str(),
        "category is not in the enumerated set"
    );
}
