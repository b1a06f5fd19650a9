//! HTML rendering of the pages the handlers serve.
//!
//! Every page is specified character by character, so a handler's contract
//! can pin its whole response body.

use vstd::prelude::*;
use vstd::string::StringExecFns;
use crate::model::{Recipient, Todo, TodoRequest};
use crate::text::{is_substring, lemma_substring_at, lemma_substring_in_context};

verus! {

/// The list entry rendered for one todo.
pub open spec fn spec_render_item(t: Todo) -> Seq<char> {
    "<li>"@ + t.title@ + ": "@ + t.text@ + "</li>"@
}

/// The concatenated list entries, in storage order.
pub open spec fn spec_render_items(todos: Seq<Todo>) -> Seq<char>
    decreases todos.len(),
{
    if todos.len() == 0 {
        Seq::empty()
    } else {
        spec_render_items(todos.drop_last()) + spec_render_item(todos.last())
    }
}

/// The home page listing all todos.
pub open spec fn spec_render_page(todos: Seq<Todo>) -> Seq<char> {
    "<ul>"@ + spec_render_items(todos) + "</ul>"@
}

/// The markup of the new-todo form.
pub open spec fn spec_form_html() -> Seq<char> {
    "<form action=\"/api/todos\" method=\"post\"><input name=\"title\"/><input name=\"text\"/><input name=\"due_date\"/><button>Create</button></form>"@
}

/// The new-todo page: the form followed by the current list.
pub open spec fn spec_render_form_page(todos: Seq<Todo>) -> Seq<char> {
    spec_form_html() + spec_render_page(todos)
}

/// The markup rendered for one recipient.
pub open spec fn spec_render_recipient(name: Seq<char>, email: Seq<char>) -> Seq<char> {
    "<p>"@ + name + " <"@ + email + ">"@ + "</p>"@
}

/// The concatenated recipient entries.
pub open spec fn spec_render_recipients(recs: Seq<Recipient>) -> Seq<char>
    decreases recs.len(),
{
    if recs.len() == 0 {
        Seq::empty()
    } else {
        spec_render_recipients(recs.drop_last()) + spec_render_recipient(
            recs.last().name@,
            recs.last().email@,
        )
    }
}

/// The recipient markup of the first `k` (name, email) pairs of a request.
pub open spec fn spec_rendered_recipients_upto(req: TodoRequest, k: int) -> Seq<char>
    decreases k,
{
    if k <= 0 {
        Seq::empty()
    } else {
        spec_rendered_recipients_upto(req, k - 1) + spec_render_recipient(
            req.name@[k - 1]@,
            req.email@[k - 1]@,
        )
    }
}

/// The recipient markup a request's complete pairs render to.
pub open spec fn spec_rendered_recipients(req: TodoRequest) -> Seq<char> {
    spec_rendered_recipients_upto(req, req.spec_recipient_count() as int)
}

/// Render one todo's list entry.
pub fn render_item(t: &Todo) -> (r: String)
    ensures
        r@ == spec_render_item(*t),
{
    let mut r = String::from_str("<li>");
    r.append(t.title.as_str());
    r.append(": ");
    r.append(t.text.as_str());
    r.append("</li>");
    r
}

/// Render the home page listing all todos.
pub fn render_page(todos: &Vec<Todo>) -> (r: String)
    ensures
        r@ == spec_render_page(todos@),
{
    let mut r = String::from_str("<ul>");
    proof {
        assert(r@ + Seq::<char>::empty() =~= r@);
        assert(todos@.subrange(0, 0) =~= Seq::<Todo>::empty());
    }
    let mut i: usize = 0;
    while i < todos.len()
        invariant
            i <= todos@.len(),
            r@ == "<ul>"@ + spec_render_items(todos@.subrange(0, i as int)),
        decreases todos@.len() - i,
    {
        let item = render_item(&todos[i]);
        r.append(item.as_str());
        proof {
            let sub1 = todos@.subrange(0, i + 1);
            assert(sub1.drop_last() =~= todos@.subrange(0, i as int));
            assert(sub1.last() == todos@[i as int]);
        }
        i = i + 1;
    }
    proof {
        assert(todos@.subrange(0, todos@.len() as int) =~= todos@);
    }
    r.append("</ul>");
    r
}

/// Render the new-todo page.
pub fn render_form_page(todos: &Vec<Todo>) -> (r: String)
    ensures
        r@ == spec_render_form_page(todos@),
{
    let mut r = String::from_str(
        "<form action=\"/api/todos\" method=\"post\"><input name=\"title\"/><input name=\"text\"/><input name=\"due_date\"/><button>Create</button></form>",
    );
    let page = render_page(todos);
    r.append(page.as_str());
    r
}

/// Render the recipient list of a submitted form.
pub fn render_recipients(recs: &Vec<Recipient>) -> (r: String)
    ensures
        r@ == spec_render_recipients(recs@),
{
    let mut r = String::new();
    proof {
        assert(recs@.subrange(0, 0) =~= Seq::<Recipient>::empty());
        assert(r@ =~= spec_render_recipients(recs@.subrange(0, 0)));
    }
    let mut i: usize = 0;
    while i < recs.len()
        invariant
            i <= recs@.len(),
            r@ == spec_render_recipients(recs@.subrange(0, i as int)),
        decreases recs@.len() - i,
    {
        r.append("<p>");
        r.append(recs[i].name.as_str());
        r.append(" <");
        r.append(recs[i].email.as_str());
        r.append(">");
        r.append("</p>");
        proof {
            let sub1 = recs@.subrange(0, i + 1);
            assert(sub1.drop_last() =~= recs@.subrange(0, i as int));
            assert(sub1.last() == recs@[i as int]);
        }
        i = i + 1;
    }
    proof {
        assert(recs@.subrange(0, recs@.len() as int) =~= recs@);
    }
    r
}

/// Recipients whose names and emails come from a request's pairs render to
/// that request's recipient markup.
pub proof fn lemma_recipients_render(recs: Seq<Recipient>, req: TodoRequest)
    requires
        recs.len() <= req.spec_recipient_count(),
        forall|k: int|
            0 <= k < recs.len() ==> (#[trigger] recs[k]).name@ == req.name@[k]@ && recs[k].email@
                == req.email@[k]@,
    ensures
        spec_render_recipients(recs) == spec_rendered_recipients_upto(req, recs.len() as int),
    decreases recs.len(),
{
    if recs.len() > 0 {
        let front = recs.drop_last();
        assert(forall|k: int| 0 <= k < front.len() ==> #[trigger] front[k] == recs[k]);
        lemma_recipients_render(front, req);
    }
}

/// Every listed todo's title and text occur verbatim in the rendered list
/// entries.
pub proof fn lemma_items_contain(todos: Seq<Todo>, i: int)
    requires
        0 <= i < todos.len(),
    ensures
        is_substring(todos[i].title@, spec_render_items(todos)),
        is_substring(todos[i].text@, spec_render_items(todos)),
    decreases todos.len(),
{
    let items = spec_render_items(todos);
    let last = spec_render_item(todos.last());
    let front = spec_render_items(todos.drop_last());
    if i == todos.len() - 1 {
        let t = todos[i];
        lemma_substring_at("<li>"@, t.title@, ": "@ + t.text@ + "</li>"@);
        assert("<li>"@ + t.title@ + (": "@ + t.text@ + "</li>"@) =~= last);
        lemma_substring_in_context(t.title@, front, last, Seq::empty());
        assert(front + last + Seq::<char>::empty() =~= items);
        lemma_substring_at("<li>"@ + t.title@ + ": "@, t.text@, "</li>"@);
        assert("<li>"@ + t.title@ + ": "@ + t.text@ + "</li>"@ =~= last);
        lemma_substring_in_context(t.text@, front, last, Seq::empty());
    } else {
        lemma_items_contain(todos.drop_last(), i);
        assert(todos.drop_last()[i] == todos[i]);
        lemma_substring_in_context(todos[i].title@, Seq::empty(), front, last);
        lemma_substring_in_context(todos[i].text@, Seq::empty(), front, last);
        assert(Seq::<char>::empty() + front + last =~= items);
    }
}

/// Every listed todo's title and text occur verbatim in the home page.
pub proof fn lemma_page_contains(todos: Seq<Todo>, i: int)
    requires
        0 <= i < todos.len(),
    ensures
        is_substring(todos[i].title@, spec_render_page(todos)),
        is_substring(todos[i].text@, spec_render_page(todos)),
{
    lemma_items_contain(todos, i);
    lemma_substring_in_context(todos[i].title@, "<ul>"@, spec_render_items(todos), "</ul>"@);
    lemma_substring_in_context(todos[i].text@, "<ul>"@, spec_render_items(todos), "</ul>"@);
}

} // verus!
