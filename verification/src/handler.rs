//! The request handlers: each HTTP route's logic, from plain request values
//! to a response whose status and whole body are pinned by contract.

use vstd::prelude::*;
use vstd::string::StringExecFns;
use crate::model::{spec_created, CreateRequest, Todo, TodoRequest};
use crate::render::{
    render_page, render_form_page, render_recipients, lemma_page_contains,
    lemma_recipients_render, spec_render_form_page, spec_render_page, spec_rendered_recipients,
};
use crate::store::TodoStore;
use crate::text::{is_substring, lemma_substring_in_context};

verus! {

/// A response about to be handed to the web framework.
#[derive(Debug)]
pub struct HttpResponse {
    pub status: u16,
    pub body: String,
}

/// The greeting returned by the health route.
pub fn hello_from_srv() -> (r: String)
    ensures
        r@ == "Hello!"@,
{
    String::from_str("Hello!")
}

/// The home route: the page listing every stored todo.
pub fn home_page(store: &TodoStore) -> (resp: HttpResponse)
    ensures
        resp.status == 200,
        resp.body@ == spec_render_page(store.todos@),
{
    let body = render_page(store.list_todos());
    HttpResponse { status: 200, body }
}

/// The new-todo route: the form above the current list.
pub fn new_todo_form(store: &TodoStore) -> (resp: HttpResponse)
    ensures
        resp.status == 200,
        resp.body@ == spec_render_form_page(store.todos@),
{
    let body = render_form_page(store.list_todos());
    HttpResponse { status: 200, body }
}

/// The create route: store the submitted todo under a generated id, then
/// re-render the list. The submitted title and text appear verbatim in the
/// response body.
pub fn create_todo(store: &mut TodoStore, req: CreateRequest) -> (resp: HttpResponse)
    requires
        old(store).wf(),
        old(store).next_todo_id < u64::MAX,
    ensures
        final(store).todos@ == old(store).todos@.push(
            spec_created(req, old(store).next_todo_id),
        ),
        final(store).attachments@ == old(store).attachments@,
        final(store).next_todo_id == old(store).next_todo_id + 1,
        final(store).next_attachment_id == old(store).next_attachment_id,
        final(store).wf(),
        resp.status == 200,
        resp.body@ == spec_render_page(final(store).todos@),
        is_substring(req.title@, resp.body@),
        is_substring(req.text@, resp.body@),
{
    let CreateRequest { title, text, due_date } = req;
    let _ = store.insert_todo(title, text, due_date);
    let body = render_page(store.list_todos());
    proof {
        lemma_page_contains(store.todos@, store.todos@.len() - 1);
    }
    HttpResponse { status: 200, body }
}

/// The line-based create route: append the submitted todo line as a todo
/// with an empty body, then render the list followed by the submitted
/// recipients.
/// The submitted line appears verbatim in the response body.
pub fn add_todo(store: &mut TodoStore, req: TodoRequest) -> (resp: HttpResponse)
    requires
        old(store).wf(),
        old(store).next_todo_id < u64::MAX,
    ensures
        final(store).todos@.len() == old(store).todos@.len() + 1,
        final(store).todos@.subrange(0, old(store).todos@.len() as int) == old(store).todos@,
        ({
            let t = final(store).todos@.last();
            t.id == old(store).next_todo_id && t.title == req.todo && t.text@
                == Seq::<char>::empty() && t.due_date is None
        }),
        final(store).attachments@ == old(store).attachments@,
        final(store).next_todo_id == old(store).next_todo_id + 1,
        final(store).next_attachment_id == old(store).next_attachment_id,
        final(store).wf(),
        resp.status == 200,
        resp.body@ == spec_render_page(final(store).todos@) + spec_rendered_recipients(req),
        is_substring(req.todo@, resp.body@),
{
    let recipients = req.get_recipients();
    let _ = store.insert_todo(req.todo, String::new(), None);
    let mut body = render_page(store.list_todos());
    let recipients_html = render_recipients(&recipients);
    proof {
        let page = body@;
        let recs = recipients_html@;
        lemma_page_contains(store.todos@, store.todos@.len() - 1);
        lemma_recipients_render(recipients@, req);
        lemma_substring_in_context(store.todos@.last().title@, Seq::empty(), page, recs);
        assert(Seq::<char>::empty() + page + recs =~= page + recs);
        assert(old(store).todos@.push(store.todos@.last()).subrange(
            0,
            old(store).todos@.len() as int,
        ) =~= old(store).todos@);
    }
    body.append(recipients_html.as_str());
    HttpResponse { status: 200, body }
}

/// Map a template render result to a response, embedding a render failure in
/// a server-error page.
pub fn render_response(r: Result<String, String>) -> (resp: HttpResponse)
    ensures
        r matches Ok(html) ==> resp.status == 200 && resp.body == html,
        r matches Err(e) ==> resp.status == 500 && resp.body@ == "Failed to render template. Error: "@
            + e@,
{
    match r {
        Ok(html) => HttpResponse { status: 200, body: html },
        Err(e) => {
            let mut body = String::from_str("Failed to render template. Error: ");
            body.append(e.as_str());
            HttpResponse { status: 500, body }
        },
    }
}

/// The server-error response carrying a storage failure's text.
pub fn storage_error_response(err: &str) -> (resp: HttpResponse)
    ensures
        resp.status == 500,
        resp.body@ == "storage error: "@ + err@,
{
    let mut body = String::from_str("storage error: ");
    body.append(err);
    HttpResponse { status: 500, body }
}

/// The home route over an external storage engine's fetch result: the listing
/// page on success, a server error carrying the engine's text on failure.
pub fn list_response(fetch: Result<Vec<Todo>, String>) -> (resp: HttpResponse)
    ensures
        fetch matches Ok(todos) ==> resp.status == 200 && resp.body@ == spec_render_page(todos@),
        fetch matches Err(e) ==> resp.status == 500 && resp.body@ == "storage error: "@ + e@,
{
    match fetch {
        Ok(todos) => {
            let body = render_page(&todos);
            HttpResponse { status: 200, body }
        },
        Err(e) => storage_error_response(e.as_str()),
    }
}

} // verus!
