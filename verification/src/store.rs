//! The storage layer: an in-memory store of todos and attachments that
//! enforces the declared schema constraints — generated unique identities,
//! the category enumeration, and the cascading foreign key from attachments
//! to todos.

use vstd::prelude::*;
use crate::category::{spec_parse_category, parse_category, AttachmentType};
use crate::model::{spec_created, Attachment, CreateRequest, Date, Todo};
use crate::seq_facts::{lemma_filter_distinct_keys, lemma_filter_is_subset};

verus! {

/// A constraint violation reported by the storage layer.
#[derive(Clone, Copy, PartialEq, Eq, Structural, Debug)]
pub enum StoreError {
    /// An attachment referenced a todo id that is not present.
    UnknownTodo,
    /// An id update would collide with another todo's id.
    DuplicateTodoId,
    /// A category string outside the enumerated set.
    InvalidCategory,
}

impl StoreError {
    /// The error text surfaced in a server-error response.
    pub open spec fn spec_message(self) -> Seq<char> {
        match self {
            StoreError::UnknownTodo => "referenced todo does not exist"@,
            StoreError::DuplicateTodoId => "todo id is already in use"@,
            StoreError::InvalidCategory => "category is not in the enumerated set"@,
        }
    }

    pub fn message(&self) -> (r: String)
        ensures
            r@ == self.spec_message(),
    {
        match self {
            StoreError::UnknownTodo => "referenced todo does not exist".to_owned(),
            StoreError::DuplicateTodoId => "todo id is already in use".to_owned(),
            StoreError::InvalidCategory => "category is not in the enumerated set".to_owned(),
        }
    }
}

/// The database owns the persisted records; the handlers only hand values in
/// and out. Identities are generated from the two counters.
pub struct TodoStore {
    pub todos: Vec<Todo>,
    pub attachments: Vec<Attachment>,
    pub next_todo_id: u64,
    pub next_attachment_id: u64,
}

impl TodoStore {
    /// Every stored todo id was generated: it lies below the counter.
    pub open spec fn todo_ids_bounded(self) -> bool {
        forall|i: int|
            0 <= i < self.todos@.len() ==> (#[trigger] self.todos@[i]).id < self.next_todo_id
    }

    /// Stored todo ids are pairwise distinct.
    pub open spec fn todo_ids_unique(self) -> bool {
        forall|i: int, j: int|
            0 <= i < j < self.todos@.len() ==> (#[trigger] self.todos@[i]).id != (
            #[trigger] self.todos@[j]).id
    }

    pub open spec fn attachment_ids_bounded(self) -> bool {
        forall|i: int|
            0 <= i < self.attachments@.len() ==> (#[trigger] self.attachments@[i]).id
                < self.next_attachment_id
    }

    pub open spec fn attachment_ids_unique(self) -> bool {
        forall|i: int, j: int|
            0 <= i < j < self.attachments@.len() ==> (#[trigger] self.attachments@[i]).id != (
            #[trigger] self.attachments@[j]).id
    }

    /// Some stored todo carries the given id.
    pub open spec fn spec_has_todo(self, id: u64) -> bool {
        exists|i: int| 0 <= i < self.todos@.len() && (#[trigger] self.todos@[i]).id == id
    }

    /// The foreign key holds: a linked attachment references a stored todo.
    pub open spec fn refs_intact(self) -> bool {
        forall|i: int|
            0 <= i < self.attachments@.len() ==> ((#[trigger] self.attachments@[i]).todo_id
                matches Some(t) ==> self.spec_has_todo(t))
    }

    /// Well-formedness: generated ids and an intact foreign key.
    pub open spec fn wf(self) -> bool {
        self.todo_ids_bounded() && self.todo_ids_unique() && self.attachment_ids_bounded()
            && self.attachment_ids_unique() && self.refs_intact()
    }

    /// A fresh, empty store.
    pub fn new() -> (r: TodoStore)
        ensures
            r.todos@.len() == 0,
            r.attachments@.len() == 0,
            r.next_todo_id == 0,
            r.next_attachment_id == 0,
            r.wf(),
    {
        TodoStore {
            todos: Vec::new(),
            attachments: Vec::new(),
            next_todo_id: 0,
            next_attachment_id: 0,
        }
    }

    /// Whether a todo with the given id is stored.
    pub fn contains_todo(&self, id: u64) -> (r: bool)
        ensures
            r == self.spec_has_todo(id),
    {
        let mut i: usize = 0;
        while i < self.todos.len()
            invariant
                i <= self.todos@.len(),
                forall|k: int| 0 <= k < i ==> (#[trigger] self.todos@[k]).id != id,
            decreases self.todos@.len() - i,
        {
            if self.todos[i].id == id {
                return true;
            }
            i = i + 1;
        }
        false
    }

    /// Insert a new todo with a generated identity and return that identity.
    pub fn insert_todo(&mut self, title: String, text: String, due_date: Option<Date>) -> (id: u64)
        requires
            old(self).wf(),
            old(self).next_todo_id < u64::MAX,
        ensures
            id == old(self).next_todo_id,
            final(self).todos@ == old(self).todos@.push(Todo { id, title, text, due_date }),
            final(self).attachments@ == old(self).attachments@,
            final(self).next_todo_id == old(self).next_todo_id + 1,
            final(self).next_attachment_id == old(self).next_attachment_id,
            final(self).wf(),
    {
        let id = self.next_todo_id;
        let t = Todo { id, title, text, due_date };
        self.todos.push(t);
        self.next_todo_id = self.next_todo_id + 1;
        proof {
            assert forall|i: int|
                0 <= i < self.attachments@.len() implies ((#[trigger] self.attachments@[i]).todo_id
                matches Some(tid) ==> self.spec_has_todo(tid)) by {
                if self.attachments@[i].todo_id is Some {
                    let tid = self.attachments@[i].todo_id->0;
                    let j = choose|j: int|
                        0 <= j < old(self).todos@.len() && (#[trigger] old(self).todos@[j]).id
                            == tid;
                    assert(self.todos@[j].id == tid);
                }
            }
        }
        id
    }

    /// All stored todos, in storage order.
    pub fn list_todos(&self) -> (r: &Vec<Todo>)
        ensures
            r@ == self.todos@,
    {
        &self.todos
    }

    /// All stored attachments, in storage order.
    pub fn list_attachments(&self) -> (r: &Vec<Attachment>)
        ensures
            r@ == self.attachments@,
    {
        &self.attachments
    }
}

/// The todos surviving a delete of the todo with the given id.
pub open spec fn delete_keeps_todo(id: u64) -> spec_fn(Todo) -> bool {
    |t: Todo| t.id != id
}

/// The attachments surviving the cascade of that delete.
pub open spec fn delete_keeps_attachment(id: u64) -> spec_fn(Attachment) -> bool {
    |a: Attachment| a.todo_id != Some(id)
}

impl TodoStore {
    /// Insert a new attachment with a generated identity. The foreign key is
    /// enforced: a link to an absent todo is rejected.
    pub fn insert_attachment(
        &mut self,
        todo_id: Option<u64>,
        name: String,
        url: String,
        category: AttachmentType,
    ) -> (r: Result<u64, StoreError>)
        requires
            old(self).wf(),
            old(self).next_attachment_id < u64::MAX,
        ensures
            ({
                let linked_ok = match todo_id {
                    Some(t) => old(self).spec_has_todo(t),
                    None => true,
                };
                match r {
                    Ok(id) => {
                        &&& linked_ok
                        &&& id == old(self).next_attachment_id
                        &&& final(self).attachments@ == old(self).attachments@.push(
                            Attachment { id, todo_id, name, url, category },
                        )
                        &&& final(self).todos@ == old(self).todos@
                        &&& final(self).next_attachment_id == old(self).next_attachment_id + 1
                        &&& final(self).next_todo_id == old(self).next_todo_id
                        &&& final(self).wf()
                    },
                    Err(e) => {
                        &&& !linked_ok
                        &&& e == StoreError::UnknownTodo
                        &&& *final(self) == *old(self)
                    },
                }
            }),
    {
        match todo_id {
            Some(t) => {
                if !self.contains_todo(t) {
                    return Err(StoreError::UnknownTodo);
                }
            },
            None => {},
        }
        let id = self.next_attachment_id;
        let a = Attachment { id, todo_id, name, url, category };
        self.attachments.push(a);
        self.next_attachment_id = self.next_attachment_id + 1;
        proof {
            assert forall|i: int|
                0 <= i < self.attachments@.len() implies ((#[trigger] self.attachments@[i]).todo_id
                matches Some(tid) ==> self.spec_has_todo(tid)) by {
                if self.attachments@[i].todo_id is Some {
                    let tid = self.attachments@[i].todo_id->0;
                    if i < old(self).attachments@.len() {
                        assert(old(self).attachments@[i].todo_id is Some);
                        let j = choose|j: int|
                            0 <= j < old(self).todos@.len() && (#[trigger] old(self).todos@[j]).id
                                == tid;
                        assert(self.todos@[j].id == tid);
                    } else {
                        let j = choose|j: int|
                            0 <= j < old(self).todos@.len() && (#[trigger] old(self).todos@[j]).id
                                == tid;
                        assert(self.todos@[j].id == tid);
                    }
                }
            }
        }
        Ok(id)
    }

    /// Insert an attachment whose category arrives as its stored string; a
    /// string outside the enumeration is rejected by the storage layer.
    pub fn insert_attachment_raw(
        &mut self,
        todo_id: Option<u64>,
        name: String,
        url: String,
        category: &str,
    ) -> (r: Result<u64, StoreError>)
        requires
            old(self).wf(),
            old(self).next_attachment_id < u64::MAX,
        ensures
            ({
                let linked_ok = match todo_id {
                    Some(t) => old(self).spec_has_todo(t),
                    None => true,
                };
                match spec_parse_category(category@) {
                    None => {
                        &&& r == Err::<u64, StoreError>(StoreError::InvalidCategory)
                        &&& *final(self) == *old(self)
                    },
                    Some(c) => match r {
                        Ok(id) => {
                            &&& linked_ok
                            &&& id == old(self).next_attachment_id
                            &&& final(self).attachments@ == old(self).attachments@.push(
                                Attachment { id, todo_id, name, url, category: c },
                            )
                            &&& final(self).todos@ == old(self).todos@
                            &&& final(self).next_attachment_id == old(self).next_attachment_id + 1
                            &&& final(self).next_todo_id == old(self).next_todo_id
                            &&& final(self).wf()
                        },
                        Err(e) => {
                            &&& !linked_ok
                            &&& e == StoreError::UnknownTodo
                            &&& *final(self) == *old(self)
                        },
                    },
                }
            }),
    {
        match parse_category(category) {
            Some(c) => self.insert_attachment(todo_id, name, url, c),
            None => Err(StoreError::InvalidCategory),
        }
    }

    /// Delete the todo with the given id. The declared foreign-key action is
    /// cascade-on-delete: every attachment linked to that todo goes with it.
    pub fn delete_todo(&mut self, id: u64) -> (found: bool)
        requires
            old(self).wf(),
        ensures
            found == old(self).spec_has_todo(id),
            final(self).todos@ == old(self).todos@.filter(delete_keeps_todo(id)),
            final(self).attachments@ == old(self).attachments@.filter(delete_keeps_attachment(id)),
            final(self).next_todo_id == old(self).next_todo_id,
            final(self).next_attachment_id == old(self).next_attachment_id,
            final(self).wf(),
    {
        let found = self.contains_todo(id);
        let mut kept_todos: Vec<Todo> = Vec::new();
        proof {
            reveal(Seq::filter);
            assert(self.todos@.subrange(0, 0) =~= Seq::<Todo>::empty());
        }
        let mut i: usize = 0;
        while i < self.todos.len()
            invariant
                i <= self.todos@.len(),
                kept_todos@ == self.todos@.subrange(0, i as int).filter(delete_keeps_todo(id)),
            decreases self.todos@.len() - i,
        {
            proof {
                reveal(Seq::filter);
                let sub1 = self.todos@.subrange(0, i + 1);
                assert(sub1.drop_last() =~= self.todos@.subrange(0, i as int));
                assert(sub1.last() == self.todos@[i as int]);
            }
            let t = self.todos[i].clone();
            if t.id != id {
                kept_todos.push(t);
            }
            i = i + 1;
        }
        proof {
            assert(self.todos@.subrange(0, self.todos@.len() as int) =~= self.todos@);
        }
        let mut kept_attachments: Vec<Attachment> = Vec::new();
        proof {
            reveal(Seq::filter);
            assert(self.attachments@.subrange(0, 0) =~= Seq::<Attachment>::empty());
        }
        let mut j: usize = 0;
        while j < self.attachments.len()
            invariant
                j <= self.attachments@.len(),
                kept_attachments@ == self.attachments@.subrange(0, j as int).filter(
                    delete_keeps_attachment(id),
                ),
            decreases self.attachments@.len() - j,
        {
            proof {
                reveal(Seq::filter);
                let sub1 = self.attachments@.subrange(0, j + 1);
                assert(sub1.drop_last() =~= self.attachments@.subrange(0, j as int));
                assert(sub1.last() == self.attachments@[j as int]);
            }
            let a = self.attachments[j].clone();
            let keep = match a.todo_id {
                Some(t) => t != id,
                None => true,
            };
            if keep {
                kept_attachments.push(a);
            }
            j = j + 1;
        }
        proof {
            assert(self.attachments@.subrange(0, self.attachments@.len() as int)
                =~= self.attachments@);
        }
        self.todos = kept_todos;
        self.attachments = kept_attachments;
        proof {
            self.lemma_delete_preserves_wf(*old(self), id);
        }
        found
    }

    /// Deleting preserves well-formedness: the survivors keep their generated
    /// ids, and no surviving attachment is orphaned by the cascade.
    proof fn lemma_delete_preserves_wf(self, pre: TodoStore, id: u64)
        requires
            pre.wf(),
            self.todos@ == pre.todos@.filter(delete_keeps_todo(id)),
            self.attachments@ == pre.attachments@.filter(delete_keeps_attachment(id)),
            self.next_todo_id == pre.next_todo_id,
            self.next_attachment_id == pre.next_attachment_id,
        ensures
            self.wf(),
    {
        broadcast use vstd::seq_lib::group_filter_ensures;

        let tp = delete_keeps_todo(id);
        let ap = delete_keeps_attachment(id);
        lemma_filter_distinct_keys(pre.todos@, tp, |t: Todo| t.id);
        lemma_filter_distinct_keys(pre.attachments@, ap, |a: Attachment| a.id);
        assert forall|i: int|
            0 <= i < self.todos@.len() implies (#[trigger] self.todos@[i]).id
            < self.next_todo_id by {
            lemma_filter_is_subset(pre.todos@, tp, i);
            let j = choose|j: int| 0 <= j < pre.todos@.len() && pre.todos@[j] == self.todos@[i];
            assert(pre.todos@[j].id < pre.next_todo_id);
        }
        assert forall|i: int|
            0 <= i < self.attachments@.len() implies (#[trigger] self.attachments@[i]).id
            < self.next_attachment_id by {
            lemma_filter_is_subset(pre.attachments@, ap, i);
            let j = choose|j: int|
                0 <= j < pre.attachments@.len() && pre.attachments@[j] == self.attachments@[i];
            assert(pre.attachments@[j].id < pre.next_attachment_id);
        }
        assert forall|i: int|
            0 <= i < self.attachments@.len() implies ((#[trigger] self.attachments@[i]).todo_id
            matches Some(tid) ==> self.spec_has_todo(tid)) by {
            if self.attachments@[i].todo_id is Some {
                let tid = self.attachments@[i].todo_id->0;
                assert(ap(self.attachments@[i]));
                assert(tid != id);
                lemma_filter_is_subset(pre.attachments@, ap, i);
                let j = choose|j: int|
                    0 <= j < pre.attachments@.len() && pre.attachments@[j] == self.attachments@[i];
                assert(pre.attachments@[j].todo_id is Some);
                let k = choose|k: int|
                    0 <= k < pre.todos@.len() && (#[trigger] pre.todos@[k]).id == tid;
                assert(tp(pre.todos@[k]));
                assert(pre.todos@.filter(tp).contains(pre.todos@[k]));
                let m = choose|m: int|
                    0 <= m < self.todos@.len() && self.todos@[m] == pre.todos@[k];
                assert(self.todos@[m].id == tid);
            }
        }
    }
}

/// The value a stored todo takes when the todo with id `old_id` is renamed to
/// `new_id`.
pub open spec fn spec_renamed_todo(t: Todo, old_id: u64, new_id: u64) -> Todo {
    if t.id == old_id {
        Todo { id: new_id, title: t.title, text: t.text, due_date: t.due_date }
    } else {
        t
    }
}

/// The value a stored attachment takes under the cascade of that rename.
pub open spec fn spec_renamed_attachment(a: Attachment, old_id: u64, new_id: u64) -> Attachment {
    if a.todo_id == Some(old_id) {
        Attachment { id: a.id, todo_id: Some(new_id), name: a.name, url: a.url, category: a.category }
    } else {
        a
    }
}

impl TodoStore {
    /// Change a stored todo's id. The declared foreign-key action is
    /// cascade-on-update: every attachment linked to the todo follows it to
    /// the new id. An id held by another todo is rejected; an absent todo
    /// leaves the store unchanged, as a database update of no rows would.
    pub fn update_todo_id(&mut self, old_id: u64, new_id: u64) -> (r: Result<bool, StoreError>)
        requires
            old(self).wf(),
            new_id < u64::MAX,
        ensures
            ({
                let found = old(self).spec_has_todo(old_id);
                let conflict = new_id != old_id && old(self).spec_has_todo(new_id);
                match r {
                    Err(e) => {
                        &&& found && conflict
                        &&& e == StoreError::DuplicateTodoId
                        &&& *final(self) == *old(self)
                    },
                    Ok(f) => {
                        &&& f == found
                        &&& !(found && conflict)
                        &&& (!found ==> *final(self) == *old(self))
                        &&& (found ==> {
                            &&& final(self).todos@.len() == old(self).todos@.len()
                            &&& (forall|k: int|
                                0 <= k < old(self).todos@.len() ==> #[trigger] final(self).todos@[k]
                                    == spec_renamed_todo(old(self).todos@[k], old_id, new_id))
                            &&& final(self).attachments@.len() == old(self).attachments@.len()
                            &&& (forall|k: int|
                                0 <= k < old(self).attachments@.len()
                                    ==> #[trigger] final(self).attachments@[k]
                                    == spec_renamed_attachment(
                                    old(self).attachments@[k],
                                    old_id,
                                    new_id,
                                ))
                            &&& final(self).next_todo_id == (if old(self).next_todo_id > new_id {
                                old(self).next_todo_id as int
                            } else {
                                new_id + 1
                            })
                            &&& final(self).next_attachment_id == old(self).next_attachment_id
                            &&& final(self).wf()
                        })
                    },
                }
            }),
    {
        let found = self.contains_todo(old_id);
        if !found {
            return Ok(false);
        }
        if new_id != old_id && self.contains_todo(new_id) {
            return Err(StoreError::DuplicateTodoId);
        }
        let mut new_todos: Vec<Todo> = Vec::new();
        let mut i: usize = 0;
        while i < self.todos.len()
            invariant
                i <= self.todos@.len(),
                new_todos@.len() == i,
                forall|k: int|
                    0 <= k < i ==> #[trigger] new_todos@[k] == spec_renamed_todo(
                        self.todos@[k],
                        old_id,
                        new_id,
                    ),
            decreases self.todos@.len() - i,
        {
            let t = self.todos[i].clone();
            if t.id == old_id {
                new_todos.push(
                    Todo { id: new_id, title: t.title, text: t.text, due_date: t.due_date },
                );
            } else {
                new_todos.push(t);
            }
            i = i + 1;
        }
        let mut new_attachments: Vec<Attachment> = Vec::new();
        let mut j: usize = 0;
        while j < self.attachments.len()
            invariant
                j <= self.attachments@.len(),
                new_attachments@.len() == j,
                forall|k: int|
                    0 <= k < j ==> #[trigger] new_attachments@[k] == spec_renamed_attachment(
                        self.attachments@[k],
                        old_id,
                        new_id,
                    ),
            decreases self.attachments@.len() - j,
        {
            let a = self.attachments[j].clone();
            let linked_to_old = match a.todo_id {
                Some(t) => t == old_id,
                None => false,
            };
            if linked_to_old {
                new_attachments.push(
                    Attachment {
                        id: a.id,
                        todo_id: Some(new_id),
                        name: a.name,
                        url: a.url,
                        category: a.category,
                    },
                );
            } else {
                new_attachments.push(a);
            }
            j = j + 1;
        }
        self.todos = new_todos;
        self.attachments = new_attachments;
        if self.next_todo_id <= new_id {
            self.next_todo_id = new_id + 1;
        }
        proof {
            self.lemma_rename_preserves_wf(*old(self), old_id, new_id);
        }
        Ok(true)
    }

    /// Renaming a stored id preserves well-formedness when the new id is not
    /// held by another todo.
    proof fn lemma_rename_preserves_wf(self, pre: TodoStore, old_id: u64, new_id: u64)
        requires
            pre.wf(),
            pre.spec_has_todo(old_id),
            !(new_id != old_id && pre.spec_has_todo(new_id)),
            self.todos@.len() == pre.todos@.len(),
            forall|k: int|
                0 <= k < pre.todos@.len() ==> #[trigger] self.todos@[k] == spec_renamed_todo(
                    pre.todos@[k],
                    old_id,
                    new_id,
                ),
            self.attachments@.len() == pre.attachments@.len(),
            forall|k: int|
                0 <= k < pre.attachments@.len() ==> #[trigger] self.attachments@[k]
                    == spec_renamed_attachment(pre.attachments@[k], old_id, new_id),
            self.next_todo_id == (if pre.next_todo_id > new_id {
                pre.next_todo_id as int
            } else {
                new_id + 1
            }),
            new_id < u64::MAX,
            self.next_attachment_id == pre.next_attachment_id,
        ensures
            self.wf(),
    {
        assert forall|i: int, j: int|
            0 <= i < j < self.todos@.len() implies (#[trigger] self.todos@[i]).id != (
        #[trigger] self.todos@[j]).id by {
            if pre.todos@[i].id == old_id {
                assert(pre.todos@[j].id != old_id);
                assert(self.todos@[j].id != new_id);
            } else if pre.todos@[j].id == old_id {
                assert(pre.todos@[i].id != old_id);
                assert(self.todos@[i].id != new_id);
            }
        }
        assert forall|i: int|
            0 <= i < self.attachments@.len() implies ((#[trigger] self.attachments@[i]).todo_id
            matches Some(tid) ==> self.spec_has_todo(tid)) by {
            if self.attachments@[i].todo_id is Some {
                let tid = self.attachments@[i].todo_id->0;
                if pre.attachments@[i].todo_id == Some(old_id) {
                    let m = choose|m: int|
                        0 <= m < pre.todos@.len() && (#[trigger] pre.todos@[m]).id == old_id;
                    assert(self.todos@[m].id == new_id);
                    assert(tid == new_id);
                } else {
                    let m = choose|m: int|
                        0 <= m < pre.todos@.len() && (#[trigger] pre.todos@[m]).id == tid;
                    assert(tid != old_id);
                    assert(self.todos@[m].id == tid);
                }
            }
        }
    }
}

} // verus!

verus! {

/// The todo list after a run of create requests is applied in order, ids
/// drawn from the counter.
pub open spec fn spec_apply_creates(todos: Seq<Todo>, next_id: int, reqs: Seq<CreateRequest>) -> Seq<
    Todo,
>
    decreases reqs.len(),
{
    if reqs.len() == 0 {
        todos
    } else {
        spec_apply_creates(
            todos.push(spec_created(reqs[0], next_id as u64)),
            next_id + 1,
            reqs.drop_first(),
        )
    }
}

/// Cascade-on-delete fires: after a delete of the todo with `id`, no
/// surviving record carries or references that id, and every todo and
/// attachment not tied to it survives.
pub proof fn lemma_delete_cascade(pre: TodoStore, post: TodoStore, id: u64)
    requires
        post.todos@ == pre.todos@.filter(delete_keeps_todo(id)),
        post.attachments@ == pre.attachments@.filter(delete_keeps_attachment(id)),
    ensures
        forall|i: int| 0 <= i < post.todos@.len() ==> (#[trigger] post.todos@[i]).id != id,
        forall|i: int|
            0 <= i < post.attachments@.len() ==> (#[trigger] post.attachments@[i]).todo_id != Some(
                id,
            ),
        forall|i: int|
            0 <= i < pre.todos@.len() && (#[trigger] pre.todos@[i]).id != id
                ==> post.todos@.contains(pre.todos@[i]),
        forall|i: int|
            0 <= i < pre.attachments@.len() && (#[trigger] pre.attachments@[i]).todo_id != Some(id)
                ==> post.attachments@.contains(pre.attachments@[i]),
{
    broadcast use vstd::seq_lib::group_filter_ensures;

    assert forall|i: int| 0 <= i < post.todos@.len() implies (#[trigger] post.todos@[i]).id
        != id by {
        assert(delete_keeps_todo(id)(post.todos@[i]));
    }
    assert forall|i: int|
        0 <= i < post.attachments@.len() implies (#[trigger] post.attachments@[i]).todo_id != Some(
        id,
    ) by {
        assert(delete_keeps_attachment(id)(post.attachments@[i]));
    }
}

/// Cascade-on-update fires: after the todo with `old_id` is renamed to
/// `new_id`, every attachment that referenced it references `new_id`, and
/// every other record is unchanged.
pub proof fn lemma_update_cascade(pre: TodoStore, post: TodoStore, old_id: u64, new_id: u64)
    requires
        pre.attachments@.len() == post.attachments@.len(),
        forall|k: int|
            0 <= k < pre.attachments@.len() ==> #[trigger] post.attachments@[k]
                == spec_renamed_attachment(pre.attachments@[k], old_id, new_id),
        pre.todos@.len() == post.todos@.len(),
        forall|k: int|
            0 <= k < pre.todos@.len() ==> #[trigger] post.todos@[k] == spec_renamed_todo(
                pre.todos@[k],
                old_id,
                new_id,
            ),
    ensures
        forall|k: int|
            0 <= k < pre.attachments@.len() && (#[trigger] pre.attachments@[k]).todo_id == Some(
                old_id,
            ) ==> post.attachments@[k].todo_id == Some(new_id),
        forall|k: int|
            0 <= k < pre.attachments@.len() && (#[trigger] pre.attachments@[k]).todo_id != Some(
                old_id,
            ) ==> post.attachments@[k] == pre.attachments@[k],
        forall|k: int|
            0 <= k < pre.todos@.len() && (#[trigger] pre.todos@[k]).id != old_id
                ==> post.todos@[k] == pre.todos@[k],
        forall|k: int|
            0 <= k < pre.todos@.len() && (#[trigger] pre.todos@[k]).id == old_id
                ==> post.todos@[k].id == new_id && post.todos@[k].title == pre.todos@[k].title
                && post.todos@[k].text == pre.todos@[k].text && post.todos@[k].due_date
                == pre.todos@[k].due_date,
{
}

/// Sequential creates only accumulate: applying N create requests keeps every
/// earlier record in place and appends one record per request, carrying that
/// request's title, text and due date. In particular at least N records are
/// then retrievable.
pub proof fn lemma_sequential_creates(todos: Seq<Todo>, next_id: int, reqs: Seq<CreateRequest>)
    ensures
        spec_apply_creates(todos, next_id, reqs).len() == todos.len() + reqs.len(),
        forall|k: int|
            0 <= k < todos.len() ==> #[trigger] spec_apply_creates(todos, next_id, reqs)[k]
                == todos[k],
        forall|k: int|
            0 <= k < reqs.len() ==> #[trigger] spec_apply_creates(todos, next_id, reqs)[todos.len()
                + k] == spec_created(reqs[k], (next_id + k) as u64),
    decreases reqs.len(),
{
    if reqs.len() == 0 {
    } else {
        let stepped = todos.push(spec_created(reqs[0], next_id as u64));
        let rest = reqs.drop_first();
        lemma_sequential_creates(stepped, next_id + 1, rest);
        let out = spec_apply_creates(todos, next_id, reqs);
        assert forall|k: int| 0 <= k < todos.len() implies #[trigger] out[k] == todos[k] by {
            assert(out[k] == stepped[k]);
        }
        assert forall|k: int| 0 <= k < reqs.len() implies #[trigger] out[todos.len() + k]
            == spec_created(reqs[k], (next_id + k) as u64) by {
            if k == 0 {
                assert(out[stepped.len() - 1] == stepped[stepped.len() - 1]);
            } else {
                assert(out[stepped.len() + (k - 1)] == spec_created(
                    rest[k - 1],
                    (next_id + 1 + (k - 1)) as u64,
                ));
                assert(rest[k - 1] == reqs[k]);
            }
        }
    }
}

} // verus!
