//! The decisions of an interactive session: which command a line names,
//! which list position or status a reply names, whether to colour the
//! output, and which file holds the todos.

use vstd::prelude::*;

use crate::model::Status;
use crate::text::{
    lowercase_of, parse_usize, parsed_usize, same_text, starts_with_char, texts,
    to_lowercase, trim, trim_text,
};

verus! {

/// A command of the interactive prompt.
#[derive(Debug, Clone, Copy, PartialEq, Eq, Structural)]
pub enum Command {
    List,
    Add,
    Remove,
    Edit,
    ChangeStatus,
    Quit,
    /// Nothing but white space was entered.
    Blank,
    /// Anything else.
    Unknown,
}

/// The command that a (trimmed, lower-cased) word names: each command by
/// its full name or its first letter.
pub open spec fn command_of(word: Seq<char>) -> Command {
    if word == "l"@ || word == "list"@ {
        Command::List
    } else if word == "a"@ || word == "add"@ {
        Command::Add
    } else if word == "r"@ || word == "remove"@ {
        Command::Remove
    } else if word == "e"@ || word == "edit"@ {
        Command::Edit
    } else if word == "s"@ || word == "status"@ {
        Command::ChangeStatus
    } else if word == "q"@ || word == "quit"@ {
        Command::Quit
    } else if trim_text(word).len() == 0 {
        Command::Blank
    } else {
        Command::Unknown
    }
}

/// Whether a text is empty once trimmed.
fn is_blank(s: &str) -> (r: bool)
    ensures
        r == (trim_text(s@).len() == 0),
{
    trim(s).unicode_len() == 0
}

impl Command {
    /// The command that a word names, the word taken as it is.
    pub fn from_word(word: &str) -> (c: Command)
        ensures
            c == command_of(word@),
    {
        if same_text(word, "l") || same_text(word, "list") {
            Command::List
        } else if same_text(word, "a") || same_text(word, "add") {
            Command::Add
        } else if same_text(word, "r") || same_text(word, "remove") {
            Command::Remove
        } else if same_text(word, "e") || same_text(word, "edit") {
            Command::Edit
        } else if same_text(word, "s") || same_text(word, "status") {
            Command::ChangeStatus
        } else if same_text(word, "q") || same_text(word, "quit") {
            Command::Quit
        } else if is_blank(word) {
            Command::Blank
        } else {
            Command::Unknown
        }
    }

    /// The command that an input line names: the line trimmed and
    /// lower-cased, then read as a word.
    pub fn parse(line: &str) -> (c: Command)
        ensures
            c == command_of(lowercase_of(trim_text(line@))),
    {
        let word = to_lowercase(trim(line));
        Command::from_word(word.as_str())
    }
}

/// The status that a (trimmed) reply chooses: 1, 2 or 3.
pub open spec fn status_choice_of(reply: Seq<char>) -> Option<Status> {
    if reply == "1"@ {
        Some(Status::Pending)
    } else if reply == "2"@ {
        Some(Status::InProgress)
    } else if reply == "3"@ {
        Some(Status::Completed)
    } else {
        None
    }
}

/// The status chosen by a reply to the status menu, if it names one.
pub fn parse_status_choice(reply: &str) -> (r: Option<Status>)
    ensures
        r == status_choice_of(trim_text(reply@)),
{
    let t = trim(reply);
    if same_text(t, "1") {
        Some(Status::Pending)
    } else if same_text(t, "2") {
        Some(Status::InProgress)
    } else if same_text(t, "3") {
        Some(Status::Completed)
    } else {
        None
    }
}

/// What a reply to "enter index" holds.
#[derive(Debug, Clone, Copy, PartialEq, Eq, Structural)]
pub enum IndexReply {
    /// Nothing was entered.
    Missing,
    /// The reply is not a number.
    Invalid,
    /// A number (not yet checked against the list).
    Number(usize),
}

/// The reading of a reply: empty, a decimal number, or neither.
pub open spec fn index_reply_of(reply: Seq<char>) -> IndexReply {
    if reply.len() == 0 {
        IndexReply::Missing
    } else {
        match parsed_usize(trim_text(reply)) {
            Some(n) => IndexReply::Number(n as usize),
            None => IndexReply::Invalid,
        }
    }
}

/// Reads a reply to "enter index": `Missing` for an empty reply, the
/// number where the trimmed reply is one, `Invalid` otherwise.
pub fn parse_index_reply(reply: &str) -> (r: IndexReply)
    ensures
        r == index_reply_of(reply@),
{
    if reply.unicode_len() == 0 {
        IndexReply::Missing
    } else {
        match parse_usize(trim(reply)) {
            Some(n) => IndexReply::Number(n),
            None => IndexReply::Invalid,
        }
    }
}

/// Whether output is coloured, given the arguments and whether standard
/// output is a terminal: the last of `--no-color` and `--color` decides;
/// without either, colour follows the terminal.
pub open spec fn color_choice(args: Seq<Seq<char>>, is_terminal: bool) -> bool
    decreases args.len(),
{
    if args.len() == 0 {
        is_terminal
    } else if args.last() == "--no-color"@ {
        false
    } else if args.last() == "--color"@ {
        true
    } else {
        color_choice(args.drop_last(), is_terminal)
    }
}

/// Whether to colour the output (see `color_choice`).
pub fn colors_enabled(args: &Vec<String>, is_terminal: bool) -> (r: bool)
    ensures
        r == color_choice(texts(args@), is_terminal),
{
    let mut colors = is_terminal;
    let n = args.len();
    let mut i: usize = 0;
    while i < n
        invariant
            n == args@.len(),
            i <= n,
            colors == color_choice(texts(args@).take(i as int), is_terminal),
        decreases n - i,
    {
        assert(texts(args@).take(i + 1).drop_last() =~= texts(args@).take(i as int));
        if same_text(args[i].as_str(), "--no-color") {
            colors = false;
        } else if same_text(args[i].as_str(), "--color") {
            colors = true;
        }
        i = i + 1;
    }
    assert(texts(args@).take(n as int) =~= texts(args@));
    colors
}

/// The first argument that is not a flag (does not begin with `-`).
pub open spec fn first_operand(args: Seq<Seq<char>>) -> Option<Seq<char>>
    decreases args.len(),
{
    if args.len() == 0 {
        None
    } else if !starts_with_char(args[0], '-') {
        Some(args[0])
    } else {
        first_operand(args.drop_first())
    }
}

/// The todo file and whether the user chose it: the first argument that is
/// not a flag; else the value of the environment variable; else the
/// default path, not chosen by the user.
pub open spec fn todo_file_choice(
    args: Seq<Seq<char>>,
    env_value: Option<Seq<char>>,
    default_path: Seq<char>,
) -> (Seq<char>, bool) {
    match first_operand(args) {
        Some(a) => (a, true),
        None => match env_value {
            Some(e) => (e, true),
            None => (default_path, false),
        },
    }
}

/// Picks the todo file (see `todo_file_choice`). `args` are the program's
/// arguments after its name; `env_value` is the `TODO_FILE` variable.
pub fn select_todo_file(args: &Vec<String>, env_value: Option<String>, default_path: String) -> (r:
    (String, bool))
    ensures
        (r.0@, r.1) == todo_file_choice(texts(args@), crate::model::opt_text(env_value), default_path@),
{
    let n = args.len();
    let mut i: usize = 0;
    assert(texts(args@).skip(0) =~= texts(args@));
    while i < n
        invariant
            n == args@.len(),
            i <= n,
            first_operand(texts(args@)) == first_operand(texts(args@).skip(i as int)),
        decreases n - i,
    {
        let a = args[i].as_str();
        let starts_with_dash = a.unicode_len() > 0 && a.get_char(0) == '-';
        assert(texts(args@).skip(i as int)[0] == a@);
        if !starts_with_dash {
            return (args[i].clone(), true);
        }
        assert(texts(args@).skip(i as int).drop_first() =~= texts(args@).skip(i + 1));
        i = i + 1;
    }
    assert(texts(args@).skip(n as int) =~= Seq::<Seq<char>>::empty());
    match env_value {
        Some(e) => (e, true),
        None => (default_path, false),
    }
}

} // verus!
