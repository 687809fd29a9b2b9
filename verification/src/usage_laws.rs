//! What the form, the summary and the session decisions are for, stated
//! over all inputs and proved from the specifications their contracts use.

use vstd::prelude::*;

use crate::form::{description_choice, priority_choice, tags_choice, title_choice};
use crate::model::{opt_text, Priority, TodoItem};
use crate::render::{priority_label_text, summary_parts_with};
use crate::model::Status;
use crate::render::{banner_text, description_line_text, prompt_text};
use crate::session::{
    color_choice, command_of, first_operand, index_reply_of, status_choice_of, todo_file_choice,
    Command, IndexReply,
};
use crate::text::{
    decimal_text, comma_pieces, joined, lowercase_of, nonempty_trimmed, parsed_usize, starts_with_char, tag_list,
    trim_text,
};

verus! {

/// Whether `w` occurs in `s` as a run of consecutive chars.
pub open spec fn occurs_in(w: Seq<char>, s: Seq<char>) -> bool {
    exists|k: int| 0 <= k && k + w.len() <= s.len() && #[trigger] s.subrange(k, k + w.len()) == w
}

// ---------------------------------------------------------------- the form

/// A non-empty reply is the title the form settles on, whether or not an
/// item is being edited.
pub proof fn lemma_typed_title_is_taken(reply: Seq<char>, existing: Option<&TodoItem>)
    requires
        reply.len() > 0,
    ensures
        title_choice(reply, existing) == Some(reply),
{
}

/// An empty reply keeps the title of the item being edited, if it has one;
/// when adding, an empty reply gives no title and the form asks again.
pub proof fn lemma_blank_title(existing: Option<&TodoItem>)
    ensures
        existing is None ==> title_choice(Seq::empty(), existing) is None,
        existing matches Some(e) ==> (e.title@.len() > 0 ==> title_choice(Seq::empty(), existing)
            == Some(e.title@)),
{
}

/// A non-empty reply is the description, whether or not an item is being
/// edited; an empty one keeps the edited item's description (none when
/// adding).
pub proof fn lemma_description_from_reply(reply: Seq<char>, existing: Option<&TodoItem>)
    ensures
        reply.len() > 0 ==> description_choice(reply, existing) == Some(reply),
        existing is None ==> description_choice(Seq::empty(), existing) is None,
        existing matches Some(e) ==> description_choice(Seq::empty(), existing) == opt_text(
            e.description,
        ),
{
}

/// A non-empty reply sets the priority, whatever the item being edited
/// had: "low" and "high" (in any case) name low and high, anything else
/// medium.
pub proof fn lemma_typed_priority(
    reply: Seq<char>,
    existing: Option<&TodoItem>,
    other: Option<&TodoItem>,
)
    requires
        reply.len() > 0,
    ensures
        priority_choice(reply, existing) == priority_choice(reply, other),
        lowercase_of(reply) == "low"@ ==> priority_choice(reply, existing) == Some(Priority::Low),
        lowercase_of(reply) == "high"@ ==> priority_choice(reply, existing) == Some(Priority::High),
        lowercase_of(reply) != "low"@ && lowercase_of(reply) != "high"@ ==> priority_choice(
            reply,
            existing,
        ) == Some(Priority::Medium),
{
    reveal_strlit("low");
    reveal_strlit("high");
    assert("low"@.len() != "high"@.len());
}

/// An empty reply keeps the priority of the item being edited (none when
/// adding).
pub proof fn lemma_blank_priority(existing: Option<&TodoItem>)
    ensures
        existing is None ==> priority_choice(Seq::empty(), existing) is None,
        existing matches Some(e) ==> priority_choice(Seq::empty(), existing) == e.priority,
{
}

/// A non-empty reply gives the tags it lists, whatever the item being
/// edited had; an empty reply keeps the edited item's tags (none when
/// adding).
pub proof fn lemma_tags_from_reply(
    reply: Seq<char>,
    existing: Option<&TodoItem>,
    other: Option<&TodoItem>,
)
    ensures
        reply.len() > 0 ==> tags_choice(reply, existing) == tags_choice(reply, other),
        reply.len() > 0 ==> tags_choice(reply, existing) == tag_list(reply),
        existing is None ==> tags_choice(Seq::empty(), existing).len() == 0,
        existing matches Some(e) ==> tags_choice(Seq::empty(), existing) == e.tag_texts(),
{
}

// ------------------------------------------------------------ the summary

/// Each piece of a joined text occurs in it.
pub proof fn lemma_joined_holds_piece(list: Seq<Seq<char>>, sep: Seq<char>, i: int)
    requires
        0 <= i < list.len(),
    ensures
        occurs_in(list[i], joined(list, sep)),
    decreases list.len(),
{
    let j = joined(list, sep);
    if list.len() == 1 {
        let k: int = 0;
        let w = list[i];
        assert(j.subrange(k, k + w.len()) =~= w);
    } else {
        let front = joined(list.drop_last(), sep);
        assert(j == front + sep + list.last());
        if i == list.len() - 1 {
            let k: int = front.len() as int + sep.len() as int;
            let w = list[i];
            assert(j.subrange(k, k + w.len()) =~= w);
        } else {
            lemma_joined_holds_piece(list.drop_last(), sep, i);
            let w = list[i];
            assert(list.drop_last()[i] == w);
            let k = choose|k: int|
                0 <= k && k + w.len() <= front.len() && #[trigger] front.subrange(k, k + w.len())
                    == w;
            assert(j.subrange(k, k + w.len()) =~= front.subrange(k, k + w.len()));
        }
    }
}

/// An item's summary shows its priority, in parentheses, whenever it has
/// one; with the given date text, it shows `due:` and that text; with tags,
/// it shows `tags:` and the tags joined by commas.
pub proof fn lemma_summary_shows_fields(item: TodoItem, date: Option<Seq<char>>, colors: bool)
    ensures
        item.priority matches Some(p) ==> occurs_in(
            "("@ + priority_label_text(p, colors) + ")"@,
            joined(summary_parts_with(item, date, colors), " "@),
        ),
        date matches Some(d) ==> occurs_in(
            "due:"@ + d,
            joined(summary_parts_with(item, date, colors), " "@),
        ),
        item.tags@.len() > 0 ==> occurs_in(
            "tags:"@ + joined(item.tag_texts(), ","@),
            joined(summary_parts_with(item, date, colors), " "@),
        ),
{
    let parts = summary_parts_with(item, date, colors);
    let with_p: int = if item.priority is Some {
        3
    } else {
        2
    };
    let with_d: int = if date is Some {
        with_p + 1
    } else {
        with_p
    };
    if item.priority is Some {
        lemma_joined_holds_piece(parts, " "@, 2);
    }
    if date is Some {
        lemma_joined_holds_piece(parts, " "@, with_p);
    }
    if item.tags@.len() > 0 {
        lemma_joined_holds_piece(parts, " "@, with_d);
    }
}

/// With colours off, the summary of an item with a priority shows the
/// priority's short name in parentheses: `(Low)`, `(Med)` or `(High)`.
pub proof fn lemma_plain_summary_shows_priority(item: TodoItem, date: Option<Seq<char>>)
    ensures
        item.priority == Some(Priority::Low) ==> occurs_in(
            "(Low)"@,
            joined(summary_parts_with(item, date, false), " "@),
        ),
        item.priority == Some(Priority::Medium) ==> occurs_in(
            "(Med)"@,
            joined(summary_parts_with(item, date, false), " "@),
        ),
        item.priority == Some(Priority::High) ==> occurs_in(
            "(High)"@,
            joined(summary_parts_with(item, date, false), " "@),
        ),
{
    reveal_strlit("(");
    reveal_strlit(")");
    reveal_strlit("Low");
    reveal_strlit("Med");
    reveal_strlit("High");
    reveal_strlit("(Low)");
    reveal_strlit("(Med)");
    reveal_strlit("(High)");
    lemma_summary_shows_fields(item, date, false);
    assert("("@ + "Low"@ + ")"@ =~= "(Low)"@);
    assert("("@ + "Med"@ + ")"@ =~= "(Med)"@);
    assert("("@ + "High"@ + ")"@ =~= "(High)"@);
}

// ------------------------------------------------------------ the session

/// The last colour flag among the arguments decides: after a `--no-color`
/// that no later `--color` overrides, colours are off; after a `--color`
/// that no later `--no-color` overrides, they are on. Other arguments
/// play no part.
pub proof fn lemma_last_color_flag_decides(args: Seq<Seq<char>>, is_terminal: bool, i: int)
    requires
        0 <= i < args.len(),
        args[i] == "--no-color"@ || args[i] == "--color"@,
        forall|j: int|
            i < j < args.len() ==> args[j] != "--no-color"@ && args[j] != "--color"@,
    ensures
        color_choice(args, is_terminal) == (args[i] == "--color"@),
    decreases args.len(),
{
    reveal_strlit("--no-color");
    reveal_strlit("--color");
    assert("--no-color"@.len() != "--color"@.len());
    if i < args.len() - 1 {
        let last = args.len() - 1;
        assert(args[last] != "--no-color"@ && args[last] != "--color"@);
        lemma_last_color_flag_decides(args.drop_last(), is_terminal, i);
    }
}

/// Without any colour flag, colours follow whether the output is a
/// terminal.
pub proof fn lemma_no_color_flag(args: Seq<Seq<char>>, is_terminal: bool)
    requires
        forall|j: int| 0 <= j < args.len() ==> args[j] != "--no-color"@ && args[j] != "--color"@,
    ensures
        color_choice(args, is_terminal) == is_terminal,
    decreases args.len(),
{
    if args.len() > 0 {
        lemma_no_color_flag(args.drop_last(), is_terminal);
    }
}

proof fn lemma_first_operand_none(args: Seq<Seq<char>>)
    requires
        forall|j: int| 0 <= j < args.len() ==> starts_with_char(#[trigger] args[j], '-'),
    ensures
        first_operand(args) is None,
    decreases args.len(),
{
    if args.len() > 0 {
        assert(starts_with_char(args[0], '-'));
        lemma_first_operand_none(args.drop_first());
    }
}

proof fn lemma_first_operand_at(args: Seq<Seq<char>>, i: int)
    requires
        0 <= i < args.len(),
        !starts_with_char(args[i], '-'),
        forall|j: int| 0 <= j < i ==> starts_with_char(#[trigger] args[j], '-'),
    ensures
        first_operand(args) == Some(args[i]),
    decreases args.len(),
{
    if i > 0 {
        assert(starts_with_char(args[0], '-'));
        let rest = args.drop_first();
        assert forall|j: int| 0 <= j < i - 1 implies starts_with_char(#[trigger] rest[j], '-') by {
            assert(rest[j] == args[j + 1]);
        }
        lemma_first_operand_at(rest, i - 1);
    }
}

/// The first argument that is not a flag names the todo file, chosen by
/// the user, whatever `TODO_FILE` holds.
pub proof fn lemma_operand_names_file(
    args: Seq<Seq<char>>,
    env_value: Option<Seq<char>>,
    default_path: Seq<char>,
    i: int,
)
    requires
        0 <= i < args.len(),
        !starts_with_char(args[i], '-'),
        forall|j: int| 0 <= j < i ==> starts_with_char(#[trigger] args[j], '-'),
    ensures
        todo_file_choice(args, env_value, default_path) == (args[i], true),
{
    lemma_first_operand_at(args, i);
}

/// When every argument is a flag (or there are none), `TODO_FILE` names the
/// file, chosen by the user; without it the default path is used, not
/// chosen by the user.
pub proof fn lemma_env_names_file(
    args: Seq<Seq<char>>,
    env_value: Option<Seq<char>>,
    default_path: Seq<char>,
)
    requires
        forall|j: int| 0 <= j < args.len() ==> starts_with_char(#[trigger] args[j], '-'),
    ensures
        env_value matches Some(e) ==> todo_file_choice(args, env_value, default_path) == (e, true),
        env_value is None ==> todo_file_choice(args, env_value, default_path) == (
            default_path,
            false,
        ),
{
    lemma_first_operand_none(args);
}

// ------------------------------------------------------- commands, replies

/// Each command is named by its full name and by its first letter, and by
/// nothing else.
pub proof fn lemma_command_names(word: Seq<char>)
    ensures
        command_of("l"@) == Command::List && command_of("list"@) == Command::List,
        command_of("a"@) == Command::Add && command_of("add"@) == Command::Add,
        command_of("r"@) == Command::Remove && command_of("remove"@) == Command::Remove,
        command_of("e"@) == Command::Edit && command_of("edit"@) == Command::Edit,
        command_of("s"@) == Command::ChangeStatus && command_of("status"@) == Command::ChangeStatus,
        command_of("q"@) == Command::Quit && command_of("quit"@) == Command::Quit,
        command_of(word) == Command::List ==> word == "l"@ || word == "list"@,
        command_of(word) == Command::Add ==> word == "a"@ || word == "add"@,
        command_of(word) == Command::Remove ==> word == "r"@ || word == "remove"@,
        command_of(word) == Command::Edit ==> word == "e"@ || word == "edit"@,
        command_of(word) == Command::ChangeStatus ==> word == "s"@ || word == "status"@,
        command_of(word) == Command::Quit ==> word == "q"@ || word == "quit"@,
{
    reveal_strlit("l");
    reveal_strlit("list");
    reveal_strlit("a");
    reveal_strlit("add");
    reveal_strlit("r");
    reveal_strlit("remove");
    reveal_strlit("e");
    reveal_strlit("edit");
    reveal_strlit("s");
    reveal_strlit("status");
    reveal_strlit("q");
    reveal_strlit("quit");
    assert("l"@ =~= seq!['l']);
    assert("list"@ =~= seq!['l', 'i', 's', 't']);
    assert("a"@ =~= seq!['a']);
    assert("add"@ =~= seq!['a', 'd', 'd']);
    assert("r"@ =~= seq!['r']);
    assert("remove"@ =~= seq!['r', 'e', 'm', 'o', 'v', 'e']);
    assert("e"@ =~= seq!['e']);
    assert("edit"@ =~= seq!['e', 'd', 'i', 't']);
    assert("s"@ =~= seq!['s']);
    assert("status"@ =~= seq!['s', 't', 'a', 't', 'u', 's']);
    assert("q"@ =~= seq!['q']);
    assert("quit"@ =~= seq!['q', 'u', 'i', 't']);
    lemma_names_differ();
}

proof fn lemma_names_differ()
    ensures
        seq!['l'] != seq!['l', 'i', 's', 't'],
        seq!['l'] != seq!['a'],
        seq!['l'] != seq!['a', 'd', 'd'],
        seq!['l'] != seq!['r'],
        seq!['l'] != seq!['r', 'e', 'm', 'o', 'v', 'e'],
        seq!['l'] != seq!['e'],
        seq!['l'] != seq!['e', 'd', 'i', 't'],
        seq!['l'] != seq!['s'],
        seq!['l'] != seq!['s', 't', 'a', 't', 'u', 's'],
        seq!['l'] != seq!['q'],
        seq!['l'] != seq!['q', 'u', 'i', 't'],
        seq!['l', 'i', 's', 't'] != seq!['a'],
        seq!['l', 'i', 's', 't'] != seq!['a', 'd', 'd'],
        seq!['l', 'i', 's', 't'] != seq!['r'],
        seq!['l', 'i', 's', 't'] != seq!['r', 'e', 'm', 'o', 'v', 'e'],
        seq!['l', 'i', 's', 't'] != seq!['e'],
        seq!['l', 'i', 's', 't'] != seq!['e', 'd', 'i', 't'],
        seq!['l', 'i', 's', 't'] != seq!['s'],
        seq!['l', 'i', 's', 't'] != seq!['s', 't', 'a', 't', 'u', 's'],
        seq!['l', 'i', 's', 't'] != seq!['q'],
        seq!['l', 'i', 's', 't'] != seq!['q', 'u', 'i', 't'],
        seq!['a'] != seq!['a', 'd', 'd'],
        seq!['a'] != seq!['r'],
        seq!['a'] != seq!['r', 'e', 'm', 'o', 'v', 'e'],
        seq!['a'] != seq!['e'],
        seq!['a'] != seq!['e', 'd', 'i', 't'],
        seq!['a'] != seq!['s'],
        seq!['a'] != seq!['s', 't', 'a', 't', 'u', 's'],
        seq!['a'] != seq!['q'],
        seq!['a'] != seq!['q', 'u', 'i', 't'],
        seq!['a', 'd', 'd'] != seq!['r'],
        seq!['a', 'd', 'd'] != seq!['r', 'e', 'm', 'o', 'v', 'e'],
        seq!['a', 'd', 'd'] != seq!['e'],
        seq!['a', 'd', 'd'] != seq!['e', 'd', 'i', 't'],
        seq!['a', 'd', 'd'] != seq!['s'],
        seq!['a', 'd', 'd'] != seq!['s', 't', 'a', 't', 'u', 's'],
        seq!['a', 'd', 'd'] != seq!['q'],
        seq!['a', 'd', 'd'] != seq!['q', 'u', 'i', 't'],
        seq!['r'] != seq!['r', 'e', 'm', 'o', 'v', 'e'],
        seq!['r'] != seq!['e'],
        seq!['r'] != seq!['e', 'd', 'i', 't'],
        seq!['r'] != seq!['s'],
        seq!['r'] != seq!['s', 't', 'a', 't', 'u', 's'],
        seq!['r'] != seq!['q'],
        seq!['r'] != seq!['q', 'u', 'i', 't'],
        seq!['r', 'e', 'm', 'o', 'v', 'e'] != seq!['e'],
        seq!['r', 'e', 'm', 'o', 'v', 'e'] != seq!['e', 'd', 'i', 't'],
        seq!['r', 'e', 'm', 'o', 'v', 'e'] != seq!['s'],
        seq!['r', 'e', 'm', 'o', 'v', 'e'] != seq!['s', 't', 'a', 't', 'u', 's'],
        seq!['r', 'e', 'm', 'o', 'v', 'e'] != seq!['q'],
        seq!['r', 'e', 'm', 'o', 'v', 'e'] != seq!['q', 'u', 'i', 't'],
        seq!['e'] != seq!['e', 'd', 'i', 't'],
        seq!['e'] != seq!['s'],
        seq!['e'] != seq!['s', 't', 'a', 't', 'u', 's'],
        seq!['e'] != seq!['q'],
        seq!['e'] != seq!['q', 'u', 'i', 't'],
        seq!['e', 'd', 'i', 't'] != seq!['s'],
        seq!['e', 'd', 'i', 't'] != seq!['s', 't', 'a', 't', 'u', 's'],
        seq!['e', 'd', 'i', 't'] != seq!['q'],
        seq!['e', 'd', 'i', 't'] != seq!['q', 'u', 'i', 't'],
        seq!['s'] != seq!['s', 't', 'a', 't', 'u', 's'],
        seq!['s'] != seq!['q'],
        seq!['s'] != seq!['q', 'u', 'i', 't'],
        seq!['s', 't', 'a', 't', 'u', 's'] != seq!['q'],
        seq!['s', 't', 'a', 't', 'u', 's'] != seq!['q', 'u', 'i', 't'],
        seq!['q'] != seq!['q', 'u', 'i', 't'],
{
    assert(seq!['l'].len() != seq!['l', 'i', 's', 't'].len());
    assert(seq!['l'][0] != seq!['a'][0]);
    assert(seq!['l'].len() != seq!['a', 'd', 'd'].len());
    assert(seq!['l'][0] != seq!['r'][0]);
    assert(seq!['l'].len() != seq!['r', 'e', 'm', 'o', 'v', 'e'].len());
    assert(seq!['l'][0] != seq!['e'][0]);
    assert(seq!['l'].len() != seq!['e', 'd', 'i', 't'].len());
    assert(seq!['l'][0] != seq!['s'][0]);
    assert(seq!['l'].len() != seq!['s', 't', 'a', 't', 'u', 's'].len());
    assert(seq!['l'][0] != seq!['q'][0]);
    assert(seq!['l'].len() != seq!['q', 'u', 'i', 't'].len());
    assert(seq!['l', 'i', 's', 't'].len() != seq!['a'].len());
    assert(seq!['l', 'i', 's', 't'].len() != seq!['a', 'd', 'd'].len());
    assert(seq!['l', 'i', 's', 't'].len() != seq!['r'].len());
    assert(seq!['l', 'i', 's', 't'].len() != seq!['r', 'e', 'm', 'o', 'v', 'e'].len());
    assert(seq!['l', 'i', 's', 't'].len() != seq!['e'].len());
    assert(seq!['l', 'i', 's', 't'][0] != seq!['e', 'd', 'i', 't'][0]);
    assert(seq!['l', 'i', 's', 't'].len() != seq!['s'].len());
    assert(seq!['l', 'i', 's', 't'].len() != seq!['s', 't', 'a', 't', 'u', 's'].len());
    assert(seq!['l', 'i', 's', 't'].len() != seq!['q'].len());
    assert(seq!['l', 'i', 's', 't'][0] != seq!['q', 'u', 'i', 't'][0]);
    assert(seq!['a'].len() != seq!['a', 'd', 'd'].len());
    assert(seq!['a'][0] != seq!['r'][0]);
    assert(seq!['a'].len() != seq!['r', 'e', 'm', 'o', 'v', 'e'].len());
    assert(seq!['a'][0] != seq!['e'][0]);
    assert(seq!['a'].len() != seq!['e', 'd', 'i', 't'].len());
    assert(seq!['a'][0] != seq!['s'][0]);
    assert(seq!['a'].len() != seq!['s', 't', 'a', 't', 'u', 's'].len());
    assert(seq!['a'][0] != seq!['q'][0]);
    assert(seq!['a'].len() != seq!['q', 'u', 'i', 't'].len());
    assert(seq!['a', 'd', 'd'].len() != seq!['r'].len());
    assert(seq!['a', 'd', 'd'].len() != seq!['r', 'e', 'm', 'o', 'v', 'e'].len());
    assert(seq!['a', 'd', 'd'].len() != seq!['e'].len());
    assert(seq!['a', 'd', 'd'].len() != seq!['e', 'd', 'i', 't'].len());
    assert(seq!['a', 'd', 'd'].len() != seq!['s'].len());
    assert(seq!['a', 'd', 'd'].len() != seq!['s', 't', 'a', 't', 'u', 's'].len());
    assert(seq!['a', 'd', 'd'].len() != seq!['q'].len());
    assert(seq!['a', 'd', 'd'].len() != seq!['q', 'u', 'i', 't'].len());
    assert(seq!['r'].len() != seq!['r', 'e', 'm', 'o', 'v', 'e'].len());
    assert(seq!['r'][0] != seq!['e'][0]);
    assert(seq!['r'].len() != seq!['e', 'd', 'i', 't'].len());
    assert(seq!['r'][0] != seq!['s'][0]);
    assert(seq!['r'].len() != seq!['s', 't', 'a', 't', 'u', 's'].len());
    assert(seq!['r'][0] != seq!['q'][0]);
    assert(seq!['r'].len() != seq!['q', 'u', 'i', 't'].len());
    assert(seq!['r', 'e', 'm', 'o', 'v', 'e'].len() != seq!['e'].len());
    assert(seq!['r', 'e', 'm', 'o', 'v', 'e'].len() != seq!['e', 'd', 'i', 't'].len());
    assert(seq!['r', 'e', 'm', 'o', 'v', 'e'].len() != seq!['s'].len());
    assert(seq!['r', 'e', 'm', 'o', 'v', 'e'][0] != seq!['s', 't', 'a', 't', 'u', 's'][0]);
    assert(seq!['r', 'e', 'm', 'o', 'v', 'e'].len() != seq!['q'].len());
    assert(seq!['r', 'e', 'm', 'o', 'v', 'e'].len() != seq!['q', 'u', 'i', 't'].len());
    assert(seq!['e'].len() != seq!['e', 'd', 'i', 't'].len());
    assert(seq!['e'][0] != seq!['s'][0]);
    assert(seq!['e'].len() != seq!['s', 't', 'a', 't', 'u', 's'].len());
    assert(seq!['e'][0] != seq!['q'][0]);
    assert(seq!['e'].len() != seq!['q', 'u', 'i', 't'].len());
    assert(seq!['e', 'd', 'i', 't'].len() != seq!['s'].len());
    assert(seq!['e', 'd', 'i', 't'].len() != seq!['s', 't', 'a', 't', 'u', 's'].len());
    assert(seq!['e', 'd', 'i', 't'].len() != seq!['q'].len());
    assert(seq!['e', 'd', 'i', 't'][0] != seq!['q', 'u', 'i', 't'][0]);
    assert(seq!['s'].len() != seq!['s', 't', 'a', 't', 'u', 's'].len());
    assert(seq!['s'][0] != seq!['q'][0]);
    assert(seq!['s'].len() != seq!['q', 'u', 'i', 't'].len());
    assert(seq!['s', 't', 'a', 't', 'u', 's'].len() != seq!['q'].len());
    assert(seq!['s', 't', 'a', 't', 'u', 's'].len() != seq!['q', 'u', 'i', 't'].len());
    assert(seq!['q'].len() != seq!['q', 'u', 'i', 't'].len());
}

/// A line of nothing but white space is the blank command.
pub proof fn lemma_blank_line_is_blank(word: Seq<char>)
    requires
        trim_text(word).len() == 0,
    ensures
        command_of(word) == Command::Blank,
{
    reveal_strlit("l");
    reveal_strlit("list");
    reveal_strlit("a");
    reveal_strlit("add");
    reveal_strlit("r");
    reveal_strlit("remove");
    reveal_strlit("e");
    reveal_strlit("edit");
    reveal_strlit("s");
    reveal_strlit("status");
    reveal_strlit("q");
    reveal_strlit("quit");
    if word.len() > 0 && !crate::text::is_white_space(word[0]) {
        assert(crate::text::trim_start_text(word) == word);
        lemma_trim_end_keeps_first(word);
    }
}

proof fn lemma_trim_end_keeps_first(w: Seq<char>)
    requires
        w.len() > 0,
        !crate::text::is_white_space(w[0]),
    ensures
        crate::text::trim_end_text(w).len() > 0,
    decreases w.len(),
{
    if w.len() > 1 && crate::text::is_white_space(w.last()) {
        lemma_trim_end_keeps_first(w.drop_last());
    }
}

/// The status menu: 1, 2 and 3 choose pending, in progress and completed;
/// no other reply chooses a status.
pub proof fn lemma_status_choices(reply: Seq<char>)
    ensures
        status_choice_of("1"@) == Some(Status::Pending),
        status_choice_of("2"@) == Some(Status::InProgress),
        status_choice_of("3"@) == Some(Status::Completed),
        status_choice_of(reply) is Some ==> reply == "1"@ || reply == "2"@ || reply == "3"@,
{
    reveal_strlit("1");
    reveal_strlit("2");
    reveal_strlit("3");
    assert("1"@[0] != "2"@[0]);
    assert("1"@[0] != "3"@[0]);
    assert("2"@[0] != "3"@[0]);
}

/// An empty reply to "enter index" is missing; a reply is a number exactly
/// where its trimmed text parses as one, and then it is that number.
pub proof fn lemma_index_replies(reply: Seq<char>)
    ensures
        reply.len() == 0 ==> index_reply_of(reply) == IndexReply::Missing,
        reply.len() > 0 ==> match parsed_usize(trim_text(reply)) {
            Some(n) => index_reply_of(reply) == IndexReply::Number(n as usize),
            None => index_reply_of(reply) == IndexReply::Invalid,
        },
        index_reply_of(reply) matches IndexReply::Number(n) ==> parsed_usize(trim_text(reply))
            == Some(n as nat),
{
}

// ------------------------------------------------------------- the listing

/// The listing shows a description line exactly for an item with a
/// non-empty description; with colours off it is the description after six
/// spaces.
pub proof fn lemma_description_line(item: TodoItem, colors: bool)
    ensures
        description_line_text(item, colors) is Some <==> (item.description matches Some(d)
            && d@.len() > 0),
        !colors ==> (item.description matches Some(d) ==> (d@.len() > 0
            ==> description_line_text(item, colors) == Some(Seq::new(6, |i: int| ' ') + d@))),
{
    reveal_strlit("      ");
    assert("      "@ =~= Seq::new(6, |i: int| ' '));
}

/// A prompt always ends with `: `; with colours off it begins with its
/// label, and a non-empty default shows in square brackets.
pub proof fn lemma_prompt_shape(
    label: Seq<char>,
    may_be_blank: bool,
    default: Option<Seq<char>>,
    colors: bool,
)
    ensures
        prompt_text(label, may_be_blank, default, colors).len() >= 2,
        prompt_text(label, may_be_blank, default, colors).subrange(
            prompt_text(label, may_be_blank, default, colors).len() - 2,
            prompt_text(label, may_be_blank, default, colors).len() as int,
        ) == ": "@,
        !colors ==> prompt_text(label, may_be_blank, default, colors).take(label.len() as int)
            == label,
        !colors ==> (default matches Some(d) ==> (d.len() > 0 ==> occurs_in(
            "["@ + d + "]"@,
            prompt_text(label, may_be_blank, default, colors),
        ))),
{
    reveal_strlit(": ");
    reveal_strlit("]: ");
    reveal_strlit(" [");
    reveal_strlit("[");
    reveal_strlit("]");
    reveal_strlit(" [blank for none]");
    let p = prompt_text(label, may_be_blank, default, colors);
    let l = p.len() as int;
    let has_default = match default {
        Some(d) => d.len() > 0,
        None => false,
    };
    if has_default {
        let d = default.unwrap();
        let front = crate::render::prompt_label_text(label, colors) + " ["@ + (if colors {
            crate::style::dimmed_text(d)
        } else {
            d
        });
        assert(p == front + "]: "@);
        assert(p.subrange(l - 2, l) =~= ": "@);
        if !colors {
            assert(p.take(label.len() as int) =~= label);
            let k: int = label.len() as int + 1;
            let w = "["@ + d + "]"@;
            assert(p.subrange(k, k + w.len()) =~= w);
        }
    } else {
        assert(p.subrange(l - 2, l) =~= ": "@);
        if !colors {
            assert(p.take(label.len() as int) =~= label);
        }
    }
}

/// The banner names the number of todos and the file; with colours on, it
/// is the plain banner inside the escape codes for bold bright blue.
pub proof fn lemma_banner_names_count_and_file(count: nat, todo_file: Seq<char>)
    ensures
        occurs_in(decimal_text(count), banner_text(count, todo_file, false)),
        occurs_in(todo_file, banner_text(count, todo_file, false)),
        banner_text(count, todo_file, true).subrange(
            9,
            9 + banner_text(count, todo_file, false).len() as int,
        ) == banner_text(count, todo_file, false),
{
    let head = " TodoRust \u{2014} "@;
    let mid = " todos (file: "@;
    let d = decimal_text(count);
    let t = banner_text(count, todo_file, false);
    assert(t == head + d + mid + todo_file + ") "@);
    let k1: int = head.len() as int;
    assert(t.subrange(k1, k1 + d.len()) =~= d);
    let k2: int = head.len() as int + d.len() as int + mid.len() as int;
    assert(t.subrange(k2, k2 + todo_file.len()) =~= todo_file);
    assert(crate::style::sgr(seq!['9', '4']).len() == 5);
    assert(crate::style::sgr(seq!['1']).len() == 4);
    let c = banner_text(count, todo_file, true);
    assert(c.subrange(9, 9 + t.len() as int) =~= t);
}

// ------------------------------------------------------------------- tags

proof fn lemma_comma_pieces_nonempty(s: Seq<char>)
    ensures
        comma_pieces(s).len() >= 1,
    decreases s.len(),
{
    if s.len() > 0 {
        lemma_comma_pieces_nonempty(s.drop_last());
    }
}

proof fn lemma_comma_pieces_split(a: Seq<char>, b: Seq<char>)
    ensures
        comma_pieces(a + seq![','] + b) == comma_pieces(a) + comma_pieces(b),
    decreases b.len(),
{
    let s = a + seq![','] + b;
    lemma_comma_pieces_nonempty(a);
    if b.len() == 0 {
        assert(s.drop_last() =~= a);
        assert(comma_pieces(s) =~= comma_pieces(a) + comma_pieces(b));
    } else {
        lemma_comma_pieces_split(a, b.drop_last());
        lemma_comma_pieces_nonempty(b.drop_last());
        assert(s.drop_last() =~= a + seq![','] + b.drop_last());
        assert(s.last() == b.last());
        let x = comma_pieces(a);
        let y = comma_pieces(b.drop_last());
        if b.last() == ',' {
            assert(comma_pieces(s) =~= x + y.push(Seq::empty()));
        } else {
            assert(comma_pieces(s) =~= x + y.update(y.len() - 1, y.last().push(b.last())));
        }
    }
}

proof fn lemma_nonempty_trimmed_concat(x: Seq<Seq<char>>, y: Seq<Seq<char>>)
    ensures
        nonempty_trimmed(x + y) == nonempty_trimmed(x) + nonempty_trimmed(y),
    decreases y.len(),
{
    if y.len() == 0 {
        assert(x + y =~= x);
        assert(nonempty_trimmed(x) + nonempty_trimmed(y) =~= nonempty_trimmed(x));
    } else {
        lemma_nonempty_trimmed_concat(x, y.drop_last());
        assert((x + y).drop_last() =~= x + y.drop_last());
        assert((x + y).last() == y.last());
        let t = trim_text(y.last());
        if t.len() > 0 {
            assert(nonempty_trimmed(x + y) =~= nonempty_trimmed(x) + nonempty_trimmed(y));
        } else {
            assert(nonempty_trimmed(x + y) =~= nonempty_trimmed(x) + nonempty_trimmed(y));
        }
    }
}

proof fn lemma_comma_pieces_single(s: Seq<char>)
    requires
        !s.contains(','),
    ensures
        comma_pieces(s) == seq![s],
    decreases s.len(),
{
    if s.len() > 0 {
        assert(!s.drop_last().contains(',')) by {
            if s.drop_last().contains(',') {
                let i = choose|i: int| 0 <= i < s.drop_last().len() && s.drop_last()[i] == ',';
                assert(s[i] == ',');
            }
        }
        lemma_comma_pieces_single(s.drop_last());
        assert(s.last() != ',') by {
            if s.last() == ',' {
                assert(s[s.len() - 1] == ',');
            }
        }
        assert(s.drop_last().push(s.last()) =~= s);
        assert(comma_pieces(s) =~= seq![s]);
    } else {
        assert(s =~= Seq::<char>::empty());
        assert(comma_pieces(s) =~= seq![s]);
    }
}

/// Tags split at every comma: the tags of `a,b` are those of `a` followed
/// by those of `b`; a reply without commas names one tag, itself trimmed,
/// unless it is blank.
pub proof fn lemma_tags_split_at_commas(a: Seq<char>, b: Seq<char>)
    ensures
        tag_list(a + seq![','] + b) == tag_list(a) + tag_list(b),
        !a.contains(',') ==> tag_list(a) == (if trim_text(a).len() > 0 {
            seq![trim_text(a)]
        } else {
            Seq::empty()
        }),
{
    lemma_comma_pieces_split(a, b);
    lemma_nonempty_trimmed_concat(comma_pieces(a), comma_pieces(b));
    if !a.contains(',') {
        lemma_comma_pieces_single(a);
        let one = seq![a];
        assert(one.drop_last() =~= Seq::<Seq<char>>::empty());
        assert(nonempty_trimmed(one.drop_last()) =~= Seq::<Seq<char>>::empty());
        if trim_text(a).len() > 0 {
            assert(nonempty_trimmed(one) =~= seq![trim_text(a)]);
        } else {
            assert(nonempty_trimmed(one) =~= Seq::<Seq<char>>::empty());
        }
    }
}

} // verus!
