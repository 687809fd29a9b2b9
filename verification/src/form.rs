//! The add/edit form: how each reply, together with the item being edited
//! (if any), decides a field, and how the fields make the new item.

use std::collections::HashMap;
use vstd::prelude::*;

use crate::clock::{format_ymd, in_datetime_range, parse_ymd_midnight, ymd_midnight_of, ymd_text};
use crate::ident::is_uuid_v4_text;
use crate::model::{
    description_of, opt_in_range, opt_text, same_metadata, Priority, Status, TodoItem,
};
use crate::text::{
    copy_all, join, joined, lowercase_of, parse_tags, same_text, tag_list, texts, to_lowercase,
};

verus! {

/// The title a reply gives: the reply itself unless it is empty; else the
/// title of the item being edited, unless that is empty too; else none,
/// and the form asks again.
pub open spec fn title_choice(reply: Seq<char>, existing: Option<&TodoItem>) -> Option<Seq<char>> {
    if reply.len() > 0 {
        Some(reply)
    } else {
        match existing {
            Some(e) => if e.title@.len() > 0 {
                Some(e.title@)
            } else {
                None
            },
            None => None,
        }
    }
}

/// The title for the form (see `title_choice`); `None` means ask again.
pub fn resolve_title(reply: &str, existing: Option<&TodoItem>) -> (r: Option<String>)
    ensures
        opt_text(r) == title_choice(reply@, existing),
{
    if reply.unicode_len() > 0 {
        return Some(String::from_str(reply));
    }
    match existing {
        Some(e) => if e.title.as_str().unicode_len() > 0 {
            Some(e.title.clone())
        } else {
            None
        },
        None => None,
    }
}

/// The description a reply gives: the reply unless it is empty; else the
/// description of the item being edited, if any.
pub open spec fn description_choice(reply: Seq<char>, existing: Option<&TodoItem>) -> Option<
    Seq<char>,
> {
    if reply.len() > 0 {
        Some(reply)
    } else {
        match existing {
            Some(e) => opt_text(e.description),
            None => None,
        }
    }
}

/// The description for the form (see `description_choice`).
pub fn resolve_description(reply: &str, existing: Option<&TodoItem>) -> (r: Option<String>)
    ensures
        opt_text(r) == description_choice(reply@, existing),
{
    if reply.unicode_len() > 0 {
        return Some(String::from_str(reply));
    }
    match existing {
        Some(e) => match &e.description {
            Some(d) => Some(d.clone()),
            None => None,
        },
        None => None,
    }
}

/// The priority that a lower-cased word names: "low", "high", and medium
/// for anything else.
pub open spec fn priority_named(word: Seq<char>) -> Priority {
    if word == "low"@ {
        Priority::Low
    } else if word == "high"@ {
        Priority::High
    } else {
        Priority::Medium
    }
}

/// The priority that a word names (see `priority_named`).
pub fn priority_from_word(word: &str) -> (p: Priority)
    ensures
        p == priority_named(word@),
{
    if same_text(word, "low") {
        Priority::Low
    } else if same_text(word, "high") {
        Priority::High
    } else {
        Priority::Medium
    }
}

/// The priority a reply gives: that of the item being edited (or none)
/// for an empty reply; else the one the lower-cased reply names.
pub open spec fn priority_choice(reply: Seq<char>, existing: Option<&TodoItem>) -> Option<
    Priority,
> {
    if reply.len() == 0 {
        match existing {
            Some(e) => e.priority,
            None => None,
        }
    } else {
        Some(priority_named(lowercase_of(reply)))
    }
}

/// The priority for the form (see `priority_choice`).
pub fn resolve_priority(reply: &str, existing: Option<&TodoItem>) -> (r: Option<Priority>)
    ensures
        r == priority_choice(reply@, existing),
{
    if reply.unicode_len() == 0 {
        match existing {
            Some(e) => e.priority,
            None => None,
        }
    } else {
        Some(priority_from_word(to_lowercase(reply).as_str()))
    }
}

impl Priority {
    /// The word that names the priority in the form.
    pub fn prompt_name(&self) -> (r: &'static str)
        ensures
            r@ == (match *self {
                Priority::Low => "low"@,
                Priority::Medium => "med"@,
                Priority::High => "high"@,
            }),
    {
        match self {
            Priority::Low => "low",
            Priority::Medium => "med",
            Priority::High => "high",
        }
    }
}

/// The due date the form settles on, and whether the reply was refused as
/// a date.
#[derive(Debug, Clone, Copy, PartialEq, Eq)]
pub struct DueChoice {
    pub due: Option<i64>,
    pub rejected: bool,
}

/// The due date of the item being edited, if any.
pub open spec fn existing_due(existing: Option<&TodoItem>) -> Option<i64> {
    match existing {
        Some(e) => e.due_date,
        None => None,
    }
}

/// Settles the due date from the date read from a non-empty reply: that
/// date where the reply is one; else the due date of the item being
/// edited, and the reply is marked as refused.
pub fn due_from_parse(parsed: Option<i64>, existing: Option<&TodoItem>) -> (r: DueChoice)
    ensures
        r.due == (match parsed {
            Some(t) => Some(t),
            None => existing_due(existing),
        }),
        r.rejected == parsed is None,
{
    match parsed {
        Some(t) => DueChoice { due: Some(t), rejected: false },
        None => DueChoice {
            due: match existing {
                Some(e) => e.due_date,
                None => None,
            },
            rejected: true,
        },
    }
}

/// The due date for the form: that of the item being edited (or none) for
/// an empty reply; else the reply read as `YYYY-MM-DD` at midnight UTC,
/// falling back to the item's due date when it is not a date.
pub fn resolve_due(reply: &str, existing: Option<&TodoItem>) -> (r: DueChoice)
    ensures
        reply@.len() == 0 ==> r.due == existing_due(existing) && !r.rejected,
        reply@.len() > 0 ==> {
            &&& r.due == (match ymd_midnight_of(reply@) {
                Some(t) => Some(t),
                None => existing_due(existing),
            })
            &&& r.rejected == ymd_midnight_of(reply@) is None
        },
        opt_in_range(existing_due(existing)) ==> opt_in_range(r.due),
{
    if reply.unicode_len() == 0 {
        DueChoice {
            due: match existing {
                Some(e) => e.due_date,
                None => None,
            },
            rejected: false,
        }
    } else {
        due_from_parse(parse_ymd_midnight(reply), existing)
    }
}

/// The tags a reply gives: those of the item being edited (or none) for an
/// empty reply; else the tags that the reply lists.
pub open spec fn tags_choice(reply: Seq<char>, existing: Option<&TodoItem>) -> Seq<Seq<char>> {
    if reply.len() == 0 {
        match existing {
            Some(e) => e.tag_texts(),
            None => Seq::empty(),
        }
    } else {
        tag_list(reply)
    }
}

/// The tags for the form (see `tags_choice`).
pub fn resolve_tags(reply: &str, existing: Option<&TodoItem>) -> (r: Vec<String>)
    ensures
        texts(r@) == tags_choice(reply@, existing),
{
    if reply.unicode_len() == 0 {
        match existing {
            Some(e) => copy_all(&e.tags),
            None => Vec::new(),
        }
    } else {
        parse_tags(reply)
    }
}

/// A copy of optional metadata.
fn copy_metadata(m: &Option<HashMap<String, String>>) -> (r: Option<HashMap<String, String>>)
    ensures
        same_metadata(r, *m),
{
    match m {
        Some(map) => Some(map.clone()),
        None => None,
    }
}

impl TodoItem {
    /// The due date as the form shows it, `YYYY-MM-DD`.
    pub fn due_prompt(&self) -> (r: Option<String>)
        requires
            self.wf(),
        ensures
            opt_text(r) == (match self.due_date {
                Some(d) => Some(ymd_text(d as int)),
                None => None,
            }),
    {
        match self.due_date {
            Some(d) => Some(format_ymd(d)),
            None => None,
        }
    }

    /// The tags as the form shows them: joined by commas; none if there are
    /// no tags.
    pub fn tags_prompt(&self) -> (r: Option<String>)
        ensures
            opt_text(r) == (if self.tags@.len() > 0 {
                Some(joined(self.tag_texts(), ","@))
            } else {
                None
            }),
    {
        if self.tags.len() > 0 {
            Some(join(&self.tags, ","))
        } else {
            None
        }
    }

    /// The item that the form makes when editing `existing`: the given
    /// fields, with the identity, status, creation moment and metadata of
    /// `existing`, updated at `now`.
    pub fn edited(
        existing: &TodoItem,
        title: String,
        description: Option<String>,
        priority: Option<Priority>,
        due_date: Option<i64>,
        tags: Vec<String>,
        now: i64,
    ) -> (r: TodoItem)
        ensures
            r.id == existing.id,
            r.title == title,
            r.description == description,
            r.status == existing.status,
            r.priority == priority,
            r.created_at == existing.created_at,
            r.updated_at == Some(now),
            r.due_date == due_date,
            r.tags == tags,
            same_metadata(r.metadata, existing.metadata),
    {
        TodoItem {
            id: existing.id.clone(),
            title,
            description,
            status: existing.status,
            priority,
            created_at: existing.created_at,
            updated_at: Some(now),
            due_date,
            tags,
            metadata: copy_metadata(&existing.metadata),
        }
    }

    /// The item that the form makes when adding: a new item (fresh
    /// identifier, created now) with the given fields; an absent or empty
    /// description gives none.
    pub fn drafted(
        title: &str,
        description: Option<String>,
        priority: Option<Priority>,
        due_date: Option<i64>,
        tags: Vec<String>,
    ) -> (r: TodoItem)
        ensures
            is_uuid_v4_text(r.id@),
            in_datetime_range(r.created_at as int),
            r.title@ == title@,
            opt_text(r.description) == (match description {
                Some(d) => description_of(d@),
                None => None,
            }),
            r.status == Status::Pending,
            r.priority == priority,
            r.updated_at is None,
            r.due_date == due_date,
            r.tags == tags,
            r.metadata is None,
    {
        let mut item = match &description {
            Some(d) => TodoItem::new(title, d.as_str()),
            None => TodoItem::new(title, ""),
        };
        proof {
            reveal_strlit("");
        }
        item.priority = priority;
        item.due_date = due_date;
        item.tags = tags;
        item
    }

    /// The edit as it is stored: the `draft` from the form, keeping the
    /// identity and creation moment of `old`, updated at `now`; a draft
    /// without priority keeps the old priority, one without tags the old
    /// tags.
    pub fn finish_edit(old: &TodoItem, draft: TodoItem, now: i64) -> (r: TodoItem)
        ensures
            r.id == old.id,
            r.created_at == old.created_at,
            r.updated_at == Some(now),
            r.title == draft.title,
            r.description == draft.description,
            r.status == draft.status,
            r.priority == (if draft.priority is Some {
                draft.priority
            } else {
                old.priority
            }),
            r.due_date == draft.due_date,
            r.tags@ == (if draft.tags@.len() > 0 {
                draft.tags@
            } else {
                old.tags@
            }),
            same_metadata(r.metadata, draft.metadata),
    {
        let mut r = draft;
        r.id = old.id.clone();
        r.created_at = old.created_at;
        r.updated_at = Some(now);
        if r.priority.is_none() {
            r.priority = old.priority;
        }
        if r.tags.len() == 0 {
            r.tags = copy_all(&old.tags);
        }
        r
    }
}

} // verus!
