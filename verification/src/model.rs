//! The persisted data model: todos, attachments, and request payloads.

use vstd::prelude::*;
use crate::category::AttachmentType;

verus! {

/// A calendar date for a todo's optional due date.
#[derive(Clone, Copy, PartialEq, Eq, Structural, Debug)]
pub struct Date {
    pub year: u16,
    pub month: u8,
    pub day: u8,
}

/// Whether `year` is a leap year in the Gregorian calendar.
pub open spec fn spec_is_leap_year(year: u16) -> bool {
    (year % 4 == 0 && year % 100 != 0) || year % 400 == 0
}

/// Number of days in the given month, 0 for a month outside 1..=12.
pub open spec fn spec_days_in_month(year: u16, month: u8) -> u8 {
    if month == 1 || month == 3 || month == 5 || month == 7 || month == 8 || month == 10 || month
        == 12 {
        31
    } else if month == 4 || month == 6 || month == 9 || month == 11 {
        30
    } else if month == 2 {
        if spec_is_leap_year(year) {
            29
        } else {
            28
        }
    } else {
        0
    }
}

impl Date {
    /// A date is well formed when its month exists and its day falls inside
    /// that month.
    pub open spec fn wf(self) -> bool {
        1 <= self.month <= 12 && 1 <= self.day <= spec_days_in_month(self.year, self.month)
    }

    /// Number of days in the given month of the given year.
    pub fn days_in_month(year: u16, month: u8) -> (r: u8)
        ensures
            r == spec_days_in_month(year, month),
    {
        if month == 1 || month == 3 || month == 5 || month == 7 || month == 8 || month == 10
            || month == 12 {
            31
        } else if month == 4 || month == 6 || month == 9 || month == 11 {
            30
        } else if month == 2 {
            if (year % 4 == 0 && year % 100 != 0) || year % 400 == 0 {
                29
            } else {
                28
            }
        } else {
            0
        }
    }

    /// Build a date, rejecting any combination that is not a calendar date.
    pub fn new(year: u16, month: u8, day: u8) -> (r: Option<Date>)
        ensures
            r matches Some(d) ==> d == (Date { year, month, day }) && d.wf(),
            r is None <==> !(Date { year, month, day }).wf(),
    {
        let d = Date { year, month, day };
        if 1 <= month && month <= 12 && 1 <= day && day <= Self::days_in_month(year, month) {
            Some(d)
        } else {
            None
        }
    }
}

/// A persisted todo record.
#[derive(Debug)]
pub struct Todo {
    pub id: u64,
    pub title: String,
    pub text: String,
    pub due_date: Option<Date>,
}

impl Clone for Todo {
    fn clone(&self) -> (r: Self)
        ensures
            r == *self,
    {
        Todo {
            id: self.id,
            title: self.title.clone(),
            text: self.text.clone(),
            due_date: self.due_date,
        }
    }
}

/// A persisted attachment record, optionally owned by a todo.
#[derive(Debug)]
pub struct Attachment {
    pub id: u64,
    pub todo_id: Option<u64>,
    pub name: String,
    pub url: String,
    pub category: AttachmentType,
}

impl Clone for Attachment {
    fn clone(&self) -> (r: Self)
        ensures
            r == *self,
    {
        Attachment {
            id: self.id,
            todo_id: self.todo_id,
            name: self.name.clone(),
            url: self.url.clone(),
            category: self.category,
        }
    }
}

/// A submitted create-todo payload: title, body text, optional due date.
#[derive(Debug)]
pub struct CreateRequest {
    pub title: String,
    pub text: String,
    pub due_date: Option<Date>,
}

/// The todo record a create request becomes under the given generated id.
pub open spec fn spec_created(req: CreateRequest, id: u64) -> Todo {
    Todo { id, title: req.title, text: req.text, due_date: req.due_date }
}

/// A recipient listed on a submitted todo form.
#[derive(Debug)]
pub struct Recipient {
    pub name: String,
    pub email: String,
}

/// The line-based create payload: one todo line and two parallel lists
/// describing recipients.
#[derive(Debug)]
pub struct TodoRequest {
    pub todo: String,
    pub name: Vec<String>,
    pub email: Vec<String>,
}

impl TodoRequest {
    /// How many complete (name, email) pairs the request carries.
    pub open spec fn spec_recipient_count(self) -> nat {
        if self.name@.len() <= self.email@.len() {
            self.name@.len()
        } else {
            self.email@.len()
        }
    }

    pub fn new(todo: String, name: Vec<String>, email: Vec<String>) -> (r: TodoRequest)
        ensures
            r == (TodoRequest { todo, name, email }),
    {
        TodoRequest { todo, name, email }
    }

    /// Pair the name and email lists into recipients, dropping the unmatched
    /// tail of the longer list.
    pub fn get_recipients(&self) -> (r: Vec<Recipient>)
        ensures
            r@.len() == self.spec_recipient_count(),
            forall|k: int|
                0 <= k < r@.len() ==> (#[trigger] r@[k]).name@ == self.name@[k]@ && r@[k].email@
                    == self.email@[k]@,
    {
        let n: usize = if self.name.len() <= self.email.len() {
            self.name.len()
        } else {
            self.email.len()
        };
        let mut r: Vec<Recipient> = Vec::new();
        let mut i: usize = 0;
        while i < n
            invariant
                i <= n,
                n == self.spec_recipient_count(),
                n <= self.name@.len() && n <= self.email@.len(),
                r@.len() == i,
                forall|k: int|
                    0 <= k < i ==> (#[trigger] r@[k]).name@ == self.name@[k]@ && r@[k].email@
                        == self.email@[k]@,
            decreases n - i,
        {
            let rec = Recipient { name: self.name[i].clone(), email: self.email[i].clone() };
            r.push(rec);
            i = i + 1;
        }
        r
    }
}

} // verus!
