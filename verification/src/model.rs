//! The todo model: status and priority, the item, and the list of items
//! with the operations that change it.

use std::collections::HashMap;
use vstd::prelude::*;

use crate::clock::{in_datetime_range, now_timestamp};
use crate::ident::{is_uuid_v4_text, new_uuid};

verus! {

/// Progress of a todo item.
#[derive(Debug, Clone, Copy, PartialEq, Eq, Structural)]
pub enum Status {
    Pending,
    InProgress,
    Completed,
}

impl Default for Status {
    /// A fresh item is pending.
    fn default() -> (s: Self)
        ensures
            s == Status::Pending,
    {
        Status::Pending
    }
}

/// How urgent a todo item is.
#[derive(Debug, Clone, Copy, PartialEq, Eq, Structural)]
pub enum Priority {
    Low,
    Medium,
    High,
}

impl Default for Priority {
    /// The neutral priority is medium.
    fn default() -> (p: Self)
        ensures
            p == Priority::Medium,
    {
        Priority::Medium
    }
}

/// One todo. Moments are whole seconds since the Unix epoch (UTC).
#[derive(Debug, Clone)]
pub struct TodoItem {
    /// Unique identifier (a UUID for items made by `TodoItem::new`).
    pub id: String,
    pub title: String,
    pub description: Option<String>,
    pub status: Status,
    pub priority: Option<Priority>,
    pub created_at: i64,
    pub updated_at: Option<i64>,
    pub due_date: Option<i64>,
    pub tags: Vec<String>,
    pub metadata: Option<HashMap<String, String>>,
}

/// The view of an optional string.
pub open spec fn opt_text(o: Option<String>) -> Option<Seq<char>> {
    match o {
        Some(s) => Some(s@),
        None => None,
    }
}

/// Whether an optional moment, where present, is one that a date-time can hold.
pub open spec fn opt_in_range(o: Option<i64>) -> bool {
    match o {
        Some(t) => in_datetime_range(t as int),
        None => true,
    }
}

/// The description that a description text gives: none for an empty text.
pub open spec fn description_of(text: Seq<char>) -> Option<Seq<char>> {
    if text.len() == 0 {
        None
    } else {
        Some(text)
    }
}

/// Whether two optional metadata maps hold the same entries.
pub open spec fn same_metadata(
    a: Option<HashMap<String, String>>,
    b: Option<HashMap<String, String>>,
) -> bool {
    match (a, b) {
        (Some(x), Some(y)) => x@ == y@,
        (None, None) => true,
        _ => false,
    }
}

impl TodoItem {
    /// Every moment of the item is one that a date-time can hold.
    pub open spec fn wf(&self) -> bool {
        &&& in_datetime_range(self.created_at as int)
        &&& opt_in_range(self.updated_at)
        &&& opt_in_range(self.due_date)
    }

    /// The tags as texts.
    pub open spec fn tag_texts(&self) -> Seq<Seq<char>> {
        crate::text::texts(self.tags@)
    }

    /// The fields of an item as it is first made: the given title, the
    /// description unless it is empty, pending, with no priority, update,
    /// due date, tags or metadata.
    pub open spec fn is_fresh(&self, title: Seq<char>, description: Seq<char>) -> bool {
        &&& self.title@ == title
        &&& opt_text(self.description) == description_of(description)
        &&& self.status == Status::Pending
        &&& self.priority is None
        &&& self.updated_at is None
        &&& self.due_date is None
        &&& self.tags@.len() == 0
        &&& self.metadata is None
    }

    /// A fresh item with the given identity and creation moment.
    pub fn with_identity(id: String, created_at: i64, title: &str, description: &str) -> (item:
        TodoItem)
        ensures
            item.id@ == id@,
            item.created_at == created_at,
            item.is_fresh(title@, description@),
    {
        let description = if description.unicode_len() == 0 {
            None
        } else {
            Some(String::from_str(description))
        };
        TodoItem {
            id,
            title: String::from_str(title),
            description,
            status: Status::Pending,
            priority: None,
            created_at,
            updated_at: None,
            due_date: None,
            tags: Vec::new(),
            metadata: None,
        }
    }

    /// The item with another status, updated at `now`.
    pub open spec fn with_status(self, status: Status, now: i64) -> TodoItem {
        TodoItem { status, updated_at: Some(now), ..self }
    }

    /// Gives the item another status and records `now` as its last update.
    pub fn set_status(&mut self, status: Status, now: i64)
        ensures
            *final(self) == old(self).with_status(status, now),
    {
        self.status = status;
        self.updated_at = Some(now);
    }

    /// A new item with a fresh random identifier, created now.
    pub fn new(title: &str, description: &str) -> (item: TodoItem)
        ensures
            is_uuid_v4_text(item.id@),
            item.created_at >= 0,
            item.wf(),
            item.is_fresh(title@, description@),
    {
        let id = new_uuid();
        let created_at = now_timestamp();
        TodoItem::with_identity(id, created_at, title, description)
    }
}

/// The todo items, in the order in which they are shown.
#[derive(Debug)]
pub struct TodoList {
    pub items: Vec<TodoItem>,
}

impl Default for TodoList {
    /// The empty list.
    fn default() -> (list: Self)
        ensures
            list.items@.len() == 0,
    {
        TodoList { items: Vec::new() }
    }
}

impl TodoList {
    /// Every item is well formed.
    pub open spec fn wf(&self) -> bool {
        forall|i: int| 0 <= i < self.items@.len() ==> (#[trigger] self.items@[i]).wf()
    }

    /// Adds an item at the end of the list.
    pub fn add(&mut self, item: TodoItem)
        ensures
            final(self).items@ == old(self).items@.push(item),
            old(self).wf() && item.wf() ==> final(self).wf(),
    {
        self.items.push(item);
    }

    /// Whether `position` (1-based, as the listing shows) names an item.
    pub open spec fn has_position(&self, position: int) -> bool {
        1 <= position <= self.items@.len()
    }

    /// The 0-based index of the item at 1-based `position`, if there is one.
    pub fn index_of_position(&self, position: usize) -> (r: Option<usize>)
        ensures
            r == (if self.has_position(position as int) {
                Some((position - 1) as usize)
            } else {
                None
            }),
    {
        if position == 0 || position > self.items.len() {
            None
        } else {
            Some(position - 1)
        }
    }

    /// Removes and returns the item at 1-based `position`; a position that
    /// names no item leaves the list as it is.
    pub fn remove_position(&mut self, position: usize) -> (r: Option<TodoItem>)
        ensures
            old(self).has_position(position as int) ==> {
                &&& r == Some(old(self).items@[position - 1])
                &&& final(self).items@ == old(self).items@.remove(position - 1)
            },
            !old(self).has_position(position as int) ==> {
                &&& r is None
                &&& final(self).items@ == old(self).items@
            },
            old(self).wf() ==> final(self).wf(),
    {
        if position == 0 || position > self.items.len() {
            None
        } else {
            Some(self.items.remove(position - 1))
        }
    }

    /// Puts `item` in place of the item at 0-based `index`.
    pub fn replace_at(&mut self, index: usize, item: TodoItem)
        requires
            index < old(self).items@.len(),
        ensures
            final(self).items@ == old(self).items@.update(index as int, item),
            old(self).wf() && item.wf() ==> final(self).wf(),
    {
        self.items.set(index, item);
    }

    /// Gives the item at 0-based `index` another status, updated at `now`.
    pub fn set_status_at(&mut self, index: usize, status: Status, now: i64)
        requires
            index < old(self).items@.len(),
        ensures
            final(self).items@ == old(self).items@.update(
                index as int,
                old(self).items@[index as int].with_status(status, now),
            ),
            old(self).wf() && in_datetime_range(now as int) ==> final(self).wf(),
    {
        let mut item = self.items.remove(index);
        item.set_status(status, now);
        self.items.insert(index, item);
        assert(self.items@ =~= old(self).items@.update(
            index as int,
            old(self).items@[index as int].with_status(status, now),
        ));
    }
}

} // verus!
