use dream_stack::handler::{
    add_todo, create_todo, hello_from_srv, home_page, list_response, new_todo_form,
    render_response, storage_error_response,
};
use dream_stack::model::{CreateRequest, Date, TodoRequest};
use dream_stack::store::TodoStore;

#[test]
fn hello_returns_the_greeting() {
    assert_eq!(hello_from_srv().as_str(), "Hello!");
}

#[test]
fn home_page_of_empty_store_is_an_empty_list() {
    let store = TodoStore::new();
    let resp = home_page(&store);
    assert_eq!(resp.status, 200);
    assert_eq!(resp.body.as_str(), "<ul></ul>");
}

#[test]
fn created_todo_appears_verbatim_on_the_list_page() {
    let mut store = TodoStore::new();
    let resp = create_todo(
        &mut store,
        CreateRequest {
            title: "Buy milk".to_string(),
            text: "2%".to_string(),
            due_date: None,
        },
    );
    assert_eq!(resp.status, 200);
    assert!(resp.body.contains("Buy milk"));
    assert!(resp.body.contains("2%"));
    let list = home_page(&store);
    assert!(list.body.contains("Buy milk"));
    assert!(list.body.contains("2%"));
}

#[test]
fn create_renders_the_whole_updated_list() {
    let mut store = TodoStore::new();
    create_todo(
        &mut store,
        CreateRequest {
            title: "one".to_string(),
            text: "1".to_string(),
            due_date: Date::new(2026, 1, 31),
        },
    );
    let resp = create_todo(
        &mut store,
        CreateRequest { title: "two".to_string(), text: "2".to_string(), due_date: None },
    );
    assert_eq!(resp.body.as_str(), "<ul><li>one: 1</li><li>two: 2</li></ul>");
}

#[test]
fn form_page_carries_the_form_and_the_list() {
    let mut store = TodoStore::new();
    create_todo(
        &mut store,
        CreateRequest { title: "one".to_string(), text: "1".to_string(), due_date: None },
    );
    let resp = new_todo_form(&store);
    assert_eq!(resp.status, 200);
    assert!(resp.body.starts_with("<form action=\"/api/todos\" method=\"post\">"));
    assert!(resp.body.contains("<li>one: 1</li>"));
}

#[test]
fn add_todo_lists_the_line_and_the_recipients() {
    let mut store = TodoStore::new();
    let req = TodoRequest::new(
        "water the plants".to_string(),
        vec!["Ada".to_string(), "Grace".to_string()],
        vec!["ada@example.com".to_string(), "grace@example.com".to_string()],
    );
    let resp = add_todo(&mut store, req);
    assert_eq!(resp.status, 200);
    assert_eq!(
        resp.body.as_str(),
        "<ul><li>water the plants: </li></ul>\
         <p>Ada <ada@example.com></p><p>Grace <grace@example.com></p>"
    );
    assert_eq!(store.list_todos().len(), 1);
    assert_eq!(store.list_todos()[0].title.as_str(), "water the plants");
    assert_eq!(store.list_todos()[0].text.as_str(), "");
}

#[test]
fn get_recipients_pairs_up_to_the_shorter_list() {
    let req = TodoRequest::new(
        "x".to_string(),
        vec!["Ada".to_string(), "Grace".to_string(), "Edsger".to_string()],
        vec!["ada@example.com".to_string()],
    );
    let recs = req.get_recipients();
    assert_eq!(recs.len(), 1);
    assert_eq!(recs[0].name.as_str(), "Ada");
    assert_eq!(recs[0].email.as_str(), "ada@example.com");
}

#[test]
fn render_success_passes_the_body_through() {
    let resp = render_response(Ok("<p>fine</p>".to_string()));
    assert_eq!(resp.status, 200);
    assert_eq!(resp.body.as_str(), "<p>fine</p>");
}

#[test]
fn render_failure_becomes_a_server_error() {
    let resp = render_response(Err("missing variable".to_string()));
    assert_eq!(resp.status, 500);
    assert_eq!(
        resp.body.as_str(),
        "Failed to render template. Error: missing variable"
    );
}

#[test]
fn fetch_failure_becomes_a_server_error() {
    let resp = list_response(Err("connection lost".to_string()));
    assert_eq!(resp.status, 500);
    assert_eq!(resp.body.as_str(), "storage error: connection lost");
    let direct = storage_error_response("constraint violation");
    assert_eq!(direct.status, 500);
    assert_eq!(direct.body.as_str(), "storage error: constraint violation");
}

#[test]
fn fetch_success_renders_the_fetched_rows() {
    let mut store = TodoStore::new();
    create_todo(
        &mut store,
        CreateRequest { title: "kept".to_string(), text: "row".to_string(), due_date: None },
    );
    let rows = store.list_todos().clone();
    let resp = list_response(Ok(rows));
    assert_eq!(resp.status, 200);
    assert_eq!(resp.body.as_str(), "<ul><li>kept: row</li></ul>");
}
