//! How an item is shown: labels for status and priority, the one-line
//! summary, the lines of the listing, the banner and the form's prompts.
//! Each takes a colour flag: with colours on, the text carries the ANSI
//! styling that `owo-colors` writes; with colours off, it is plain.

use vstd::prelude::*;

use crate::clock::{format_ymd, ymd_text};
use crate::model::{opt_text, Priority, Status, TodoItem};
use crate::style::{
    bold, bold_text, bright_blue, bright_blue_text, bright_white, bright_white_text, cyan,
    cyan_text, dimmed, dimmed_text, green, green_text, red, red_text, yellow, yellow_text,
};
use crate::text::{decimal, decimal_text, join, joined, pad_left, right_align, texts};

verus! {

/// The plain name of a status.
pub open spec fn status_word(s: Status) -> Seq<char> {
    match s {
        Status::Pending => "Pending"@,
        Status::InProgress => "InProgress"@,
        Status::Completed => "Completed"@,
    }
}

/// The label of a status: its name, in yellow, cyan or green when colours
/// are on.
pub open spec fn status_label_text(s: Status, colors: bool) -> Seq<char> {
    if colors {
        match s {
            Status::Pending => yellow_text(status_word(s)),
            Status::InProgress => cyan_text(status_word(s)),
            Status::Completed => green_text(status_word(s)),
        }
    } else {
        status_word(s)
    }
}

/// The plain short name of a priority.
pub open spec fn priority_word(p: Priority) -> Seq<char> {
    match p {
        Priority::Low => "Low"@,
        Priority::Medium => "Med"@,
        Priority::High => "High"@,
    }
}

/// The label of a priority: its short name; when colours are on, dim
/// "Low", bright white "Med", bold red "High".
pub open spec fn priority_label_text(p: Priority, colors: bool) -> Seq<char> {
    if colors {
        match p {
            Priority::Low => dimmed_text(priority_word(p)),
            Priority::Medium => bright_white_text(priority_word(p)),
            Priority::High => bold_text(red_text(priority_word(p))),
        }
    } else {
        priority_word(p)
    }
}

/// The title; bold and bright white when colours are on.
pub open spec fn title_text(item: TodoItem, colors: bool) -> Seq<char> {
    if colors {
        bright_white_text(bold_text(item.title@))
    } else {
        item.title@
    }
}

/// The status label in square brackets.
pub open spec fn status_part(item: TodoItem, colors: bool) -> Seq<char> {
    "["@ + status_label_text(item.status, colors) + "]"@
}

/// The due date of an item as text, if it has one.
pub open spec fn due_text(item: TodoItem) -> Option<Seq<char>> {
    match item.due_date {
        Some(d) => Some(ymd_text(d as int)),
        None => None,
    }
}

/// The pieces of an item's summary, in order: the title; the status; the
/// priority in parentheses, if any; `due:` and the date text, if one is
/// given; `tags:` and the tags joined by commas, if there are tags.
pub open spec fn summary_parts_with(item: TodoItem, date: Option<Seq<char>>, colors: bool) -> Seq<
    Seq<char>,
> {
    let base = seq![title_text(item, colors), status_part(item, colors)];
    let with_priority = match item.priority {
        Some(p) => base.push("("@ + priority_label_text(p, colors) + ")"@),
        None => base,
    };
    let with_due = match date {
        Some(d) => with_priority.push("due:"@ + d),
        None => with_priority,
    };
    if item.tags@.len() > 0 {
        with_due.push("tags:"@ + joined(item.tag_texts(), ","@))
    } else {
        with_due
    }
}

/// The pieces of an item's summary, with its due date as `chrono` writes it.
pub open spec fn summary_parts(item: TodoItem, colors: bool) -> Seq<Seq<char>> {
    summary_parts_with(item, due_text(item), colors)
}

/// The one-line summary of an item: its pieces joined by single spaces.
pub open spec fn summary_text(item: TodoItem, colors: bool) -> Seq<char> {
    joined(summary_parts(item, colors), " "@)
}

/// The line of the listing for the item at 1-based `position`: the
/// position right-aligned in three columns, a dot, and the summary (in
/// bright white when colours are on).
pub open spec fn list_line_text(item: TodoItem, position: nat, colors: bool) -> Seq<char> {
    let summary = summary_text(item, colors);
    pad_left(decimal_text(position), 3) + ". "@ + (if colors {
        bright_white_text(summary)
    } else {
        summary
    })
}

/// The description under an item in the listing, indented by six spaces
/// (dimmed when colours are on); none where the item has no description or
/// an empty one.
pub open spec fn description_line_text(item: TodoItem, colors: bool) -> Option<Seq<char>> {
    match item.description {
        Some(d) => if d@.len() > 0 {
            Some(
                "      "@ + (if colors {
                    dimmed_text(d@)
                } else {
                    d@
                }),
            )
        } else {
            None
        },
        None => None,
    }
}

/// The title of the banner: the number of todos and the file that holds
/// them; bold and bright blue when colours are on.
pub open spec fn banner_text(count: nat, todo_file: Seq<char>, colors: bool) -> Seq<char> {
    let t = " TodoRust \u{2014} "@ + decimal_text(count) + " todos (file: "@ + todo_file + ") "@;
    if colors {
        bright_blue_text(bold_text(t))
    } else {
        t
    }
}

/// The label of a prompt; cyan and bold when colours are on.
pub open spec fn prompt_label_text(label: Seq<char>, colors: bool) -> Seq<char> {
    if colors {
        bold_text(cyan_text(label))
    } else {
        label
    }
}

/// What a prompt shows before the reply: the label and, where there is a
/// non-empty default, the default in square brackets (dimmed when colours
/// are on); where there is none, the label followed by the hint
/// `[blank for none]` if the field may stay empty. Then `: `.
pub open spec fn prompt_text(
    label: Seq<char>,
    may_be_blank: bool,
    default: Option<Seq<char>>,
    colors: bool,
) -> Seq<char> {
    match default {
        Some(d) => if d.len() > 0 {
            prompt_label_text(label, colors) + " ["@ + (if colors {
                dimmed_text(d)
            } else {
                d
            }) + "]: "@
        } else {
            prompt_label_text(
                if may_be_blank {
                    label + " [blank for none]"@
                } else {
                    label
                },
                colors,
            ) + ": "@
        },
        None => prompt_label_text(
            if may_be_blank {
                label + " [blank for none]"@
            } else {
                label
            },
            colors,
        ) + ": "@,
    }
}

/// A copy of `text`.
fn plain(text: &str) -> (r: String)
    ensures
        r@ == text@,
{
    String::from_str(text)
}

/// The label of a status (see `status_label_text`).
pub fn format_status(status: &Status, colors: bool) -> (r: String)
    ensures
        r@ == status_label_text(*status, colors),
{
    let word = match status {
        Status::Pending => "Pending",
        Status::InProgress => "InProgress",
        Status::Completed => "Completed",
    };
    if !colors {
        return plain(word);
    }
    match status {
        Status::Pending => yellow(word),
        Status::InProgress => cyan(word),
        Status::Completed => green(word),
    }
}

/// The title of the banner shown when the program starts.
pub fn banner_title(count: usize, todo_file: &str, colors: bool) -> (r: String)
    ensures
        r@ == banner_text(count as nat, todo_file@, colors),
{
    let mut t = String::from_str(" TodoRust \u{2014} ");
    t.append(decimal(count).as_str());
    t.append(" todos (file: ");
    t.append(todo_file);
    t.append(") ");
    if colors {
        bright_blue(bold(t.as_str()).as_str())
    } else {
        t
    }
}

/// The label of a prompt (see `prompt_label_text`).
fn prompt_label(label: &str, colors: bool) -> (r: String)
    ensures
        r@ == prompt_label_text(label@, colors),
{
    if colors {
        bold(cyan(label).as_str())
    } else {
        plain(label)
    }
}

/// The text of a prompt (see `prompt_text`).
pub fn form_prompt(label: &str, may_be_blank: bool, default: Option<&str>, colors: bool) -> (r:
    String)
    ensures
        r@ == prompt_text(
            label@,
            may_be_blank,
            match default {
                Some(d) => Some(d@),
                None => None,
            },
            colors,
        ),
{
    let has_default = match default {
        Some(d) => d.unicode_len() > 0,
        None => false,
    };
    if has_default {
        let d = default.unwrap();
        let mut r = prompt_label(label, colors);
        r.append(" [");
        if colors {
            r.append(dimmed(d).as_str());
        } else {
            r.append(d);
        }
        r.append("]: ");
        r
    } else {
        let mut l = plain(label);
        if may_be_blank {
            l.append(" [blank for none]");
        }
        let mut r = prompt_label(l.as_str(), colors);
        r.append(": ");
        r
    }
}

impl Priority {
    /// The label of the priority (see `priority_label_text`).
    pub fn colored_label(&self, colors: bool) -> (r: String)
        ensures
            r@ == priority_label_text(*self, colors),
    {
        let word = match self {
            Priority::Low => "Low",
            Priority::Medium => "Med",
            Priority::High => "High",
        };
        if !colors {
            return plain(word);
        }
        match self {
            Priority::Low => dimmed(word),
            Priority::Medium => bright_white(word),
            Priority::High => bold(red(word).as_str()),
        }
    }
}

/// `prefix`, then `body`, then `suffix`.
fn enclose(prefix: &str, body: &str, suffix: &str) -> (r: String)
    ensures
        r@ == prefix@ + body@ + suffix@,
{
    let mut r = String::from_str(prefix);
    r.append(body);
    r.append(suffix);
    r
}

impl TodoItem {
    /// A concise one-line summary: title, status, priority, due date and
    /// tags; coloured for a terminal when `colors` is on, plain otherwise.
    pub fn format(&self, colors: bool) -> (r: String)
        requires
            self.wf(),
        ensures
            r@ == summary_text(*self, colors),
    {
        match self.due_date {
            Some(d) => {
                let date = format_ymd(d);
                self.summary_with_date(Some(date.as_str()), colors)
            },
            None => self.summary_with_date(None, colors),
        }
    }

    /// The summary of the item, with `date` as the text of its due date
    /// (`None` leaves the due date out).
    pub fn summary_with_date(&self, date: Option<&str>, colors: bool) -> (r: String)
        ensures
            r@ == joined(
                summary_parts_with(
                    *self,
                    match date {
                        Some(d) => Some(d@),
                        None => None,
                    },
                    colors,
                ),
                " "@,
            ),
    {
        let mut parts: Vec<String> = Vec::new();
        if colors {
            parts.push(bright_white(bold(self.title.as_str()).as_str()));
        } else {
            parts.push(self.title.clone());
        }
        parts.push(enclose("[", format_status(&self.status, colors).as_str(), "]"));
        match self.priority {
            Some(p) => {
                parts.push(enclose("(", p.colored_label(colors).as_str(), ")"));
            },
            None => {},
        }
        match date {
            Some(d) => {
                parts.push(enclose("due:", d, ""));
            },
            None => {},
        }
        if self.tags.len() > 0 {
            parts.push(enclose("tags:", join(&self.tags, ",").as_str(), ""));
        }
        proof {
            reveal_strlit("");
            assert(texts(parts@) =~= summary_parts_with(
                *self,
                match date {
                    Some(d) => Some(d@),
                    None => None,
                },
                colors,
            ));
        }
        join(&parts, " ")
    }

    /// The line of the listing for this item at 1-based `position`.
    pub fn list_line(&self, position: usize, colors: bool) -> (r: String)
        requires
            self.wf(),
        ensures
            r@ == list_line_text(*self, position as nat, colors),
    {
        let mut r = right_align(decimal(position).as_str(), 3);
        r.append(". ");
        let summary = self.format(colors);
        if colors {
            r.append(bright_white(summary.as_str()).as_str());
        } else {
            r.append(summary.as_str());
        }
        r
    }

    /// The description line shown under the item in the listing, if any.
    pub fn description_line(&self, colors: bool) -> (r: Option<String>)
        ensures
            opt_text(r) == description_line_text(*self, colors),
    {
        proof {
            reveal_strlit("");
        }
        match &self.description {
            Some(d) => {
                if d.unicode_len() > 0 {
                    let body = if colors {
                        dimmed(d.as_str())
                    } else {
                        d.clone()
                    };
                    Some(enclose("      ", body.as_str(), ""))
                } else {
                    None
                }
            },
            None => None,
        }
    }
}

} // verus!
