//! Properties of the library as a whole, each proved from the contracts of
//! the functions it speaks of.

use vstd::prelude::*;

use crate::form::title_choice;
use crate::model::{Status, TodoItem, TodoList};
use crate::render::{
    list_line_text,
    priority_word, status_label_text, status_part, status_word, summary_parts, summary_parts_with,
    summary_text, title_text,
};
use crate::session::{index_reply_of, IndexReply};
use crate::store::temp_name_text;
use crate::style::{foreground, sgr};
use crate::text::{
    decimal_text, digit_char, pad_left, digits_value, is_ascii_digit, is_white_space, joined,
    nonempty_trimmed, parsed_usize, tag_list, trim_end_text, trim_start_text, trim_text,
};

verus! {

proof fn lemma_joined_starts_with_first(list: Seq<Seq<char>>, sep: Seq<char>)
    requires
        list.len() >= 1,
    ensures
        list[0].len() <= joined(list, sep).len(),
        joined(list, sep).subrange(0, list[0].len() as int) == list[0],
    decreases list.len(),
{
    if list.len() > 1 {
        lemma_joined_starts_with_first(list.drop_last(), sep);
        let j = joined(list.drop_last(), sep);
        assert((j + sep + list.last()).subrange(0, list[0].len() as int) =~= j.subrange(
            0,
            list[0].len() as int,
        ));
    }
}

proof fn lemma_joined_starts_with_two(list: Seq<Seq<char>>, sep: Seq<char>)
    requires
        list.len() >= 2,
    ensures
        (list[0] + sep + list[1]).len() <= joined(list, sep).len(),
        joined(list, sep).subrange(0, (list[0] + sep + list[1]).len() as int) == list[0] + sep
            + list[1],
    decreases list.len(),
{
    let head = list[0] + sep + list[1];
    if list.len() == 2 {
        assert(list.drop_last() =~= seq![list[0]]);
        assert(joined(list.drop_last(), sep) == list[0]);
        assert(list.last() == list[1]);
        assert(joined(list, sep) =~= head);
        assert(head.subrange(0, head.len() as int) =~= head);
    } else {
        lemma_joined_starts_with_two(list.drop_last(), sep);
        let j = joined(list.drop_last(), sep);
        assert((j + sep + list.last()).subrange(0, head.len() as int) =~= j.subrange(
            0,
            head.len() as int,
        ));
    }
}

/// Where the title starts in the summary: after the two escape codes that
/// make it bold and bright white when colours are on, at the start otherwise.
pub open spec fn title_offset(colors: bool) -> int {
    if colors {
        9
    } else {
        0
    }
}

/// The one-line summary of an item shows its title in full.
pub proof fn lemma_summary_shows_title(item: TodoItem, colors: bool)
    ensures
        title_offset(colors) + item.title@.len() <= summary_text(item, colors).len(),
        summary_text(item, colors).subrange(
            title_offset(colors),
            title_offset(colors) + item.title@.len(),
        ) == item.title@,
{
    let parts = summary_parts(item, colors);
    let first = title_text(item, colors);
    let k = title_offset(colors);
    let n = item.title@.len() as int;
    assert(parts[0] == first);
    lemma_joined_starts_with_first(parts, " "@);
    assert(sgr(seq!['9', '7']).len() == 5);
    assert(sgr(seq!['1']).len() == 4);
    let s = summary_text(item, colors);
    assert(s.subrange(k, k + n) =~= first.subrange(k, k + n));
    assert(first.subrange(k, k + n) =~= item.title@);
}

/// The one-line summary of an item names its status.
pub proof fn lemma_summary_shows_status(item: TodoItem, colors: bool)
    ensures
        exists|k: int|
            0 <= k && k + status_word(item.status).len() <= summary_text(item, colors).len()
                && #[trigger] summary_text(item, colors).subrange(
                k,
                k + status_word(item.status).len(),
            ) == status_word(item.status),
{
    let parts = summary_parts(item, colors);
    let w = status_word(item.status);
    assert(parts[0] == title_text(item, colors));
    assert(parts[1] == status_part(item, colors));
    lemma_joined_starts_with_two(parts, " "@);
    reveal_strlit(" ");
    reveal_strlit("[");
    let k: int = parts[0].len() as int + 2 + (if colors {
        5int
    } else {
        0int
    });
    let code = match item.status {
        Status::Pending => seq!['3', '3'],
        Status::InProgress => seq!['3', '6'],
        Status::Completed => seq!['3', '2'],
    };
    if colors {
        assert(status_part(item, colors) == "["@ + foreground(code, w) + "]"@);
        assert(sgr(code).len() == 5);
    } else {
        assert(status_part(item, colors) == "["@ + w + "]"@);
    }
    let head = parts[0] + " "@ + parts[1];
    let s = summary_text(item, colors);
    assert(s.subrange(k, k + w.len()) =~= head.subrange(k, k + w.len()));
    assert(head.subrange(k, k + w.len()) =~= w);
}

/// Different statuses get different labels; each label is the status's
/// name, plain when colours are off and between the colour codes when on.
pub proof fn lemma_status_labels(s1: Status, s2: Status, colors: bool)
    ensures
        s1 != s2 ==> status_label_text(s1, colors) != status_label_text(s2, colors),
        !colors ==> status_label_text(s1, colors) == status_word(s1),
        colors ==> status_label_text(s1, colors).subrange(5, 5 + status_word(s1).len() as int)
            == status_word(s1),
{
    reveal_strlit("Pending");
    reveal_strlit("InProgress");
    reveal_strlit("Completed");
    assert("Pending"@.len() == 7);
    assert("InProgress"@.len() == 10);
    assert("Completed"@.len() == 9);
    let w = status_word(s1);
    if colors {
        let code = match s1 {
            Status::Pending => seq!['3', '3'],
            Status::InProgress => seq!['3', '6'],
            Status::Completed => seq!['3', '2'],
        };
        assert(status_label_text(s1, colors) == foreground(code, w));
        assert(sgr(code).len() == 5);
        assert(foreground(code, w).subrange(5, 5 + w.len() as int) =~= w);
        assert(status_label_text(s1, colors).len() == w.len() + 10);
        let code2 = match s2 {
            Status::Pending => seq!['3', '3'],
            Status::InProgress => seq!['3', '6'],
            Status::Completed => seq!['3', '2'],
        };
        assert(status_label_text(s2, colors) == foreground(code2, status_word(s2)));
        assert(sgr(code2).len() == 5);
        assert(status_label_text(s2, colors).len() == status_word(s2).len() + 10);
    }
}

/// Whether a text holds no escape char (so no terminal styling).
pub open spec fn has_no_escape(s: Seq<char>) -> bool {
    forall|i: int| 0 <= i < s.len() ==> s[i] != '\u{1b}'
}

proof fn lemma_no_escape_concat(a: Seq<char>, b: Seq<char>)
    requires
        has_no_escape(a),
        has_no_escape(b),
    ensures
        has_no_escape(a + b),
{
    assert forall|i: int| 0 <= i < (a + b).len() implies (a + b)[i] != '\u{1b}' by {
        if i >= a.len() {
            assert((a + b)[i] == b[i - a.len()]);
        }
    }
}

proof fn lemma_joined_no_escape(list: Seq<Seq<char>>, sep: Seq<char>)
    requires
        has_no_escape(sep),
        forall|i: int| 0 <= i < list.len() ==> has_no_escape(#[trigger] list[i]),
    ensures
        has_no_escape(joined(list, sep)),
    decreases list.len(),
{
    if list.len() > 1 {
        lemma_joined_no_escape(list.drop_last(), sep);
        lemma_no_escape_concat(joined(list.drop_last(), sep), sep);
        lemma_no_escape_concat(joined(list.drop_last(), sep) + sep, list.last());
    }
}

/// With colours off, the summary holds no escape char unless the title,
/// a tag or the date text itself holds one.
pub proof fn lemma_plain_summary_has_no_escape(item: TodoItem, date: Option<Seq<char>>)
    requires
        has_no_escape(item.title@),
        forall|i: int| 0 <= i < item.tags@.len() ==> has_no_escape(#[trigger] item.tags@[i]@),
        date matches Some(d) ==> has_no_escape(d),
    ensures
        has_no_escape(joined(summary_parts_with(item, date, false), " "@)),
{
    reveal_strlit(" ");
    reveal_strlit(",");
    reveal_strlit("[");
    reveal_strlit("]");
    reveal_strlit("(");
    reveal_strlit(")");
    reveal_strlit("due:");
    reveal_strlit("tags:");
    reveal_strlit("Pending");
    reveal_strlit("InProgress");
    reveal_strlit("Completed");
    reveal_strlit("Low");
    reveal_strlit("Med");
    reveal_strlit("High");
    let parts = summary_parts_with(item, date, false);
    lemma_no_escape_concat("["@, status_word(item.status));
    lemma_no_escape_concat("["@ + status_word(item.status), "]"@);
    match item.priority {
        Some(p) => {
            lemma_no_escape_concat("("@, priority_word(p));
            lemma_no_escape_concat("("@ + priority_word(p), ")"@);
        },
        None => {},
    }
    match date {
        Some(d) => {
            lemma_no_escape_concat("due:"@, d);
        },
        None => {},
    }
    let tags = item.tag_texts();
    assert forall|i: int| 0 <= i < tags.len() implies has_no_escape(#[trigger] tags[i]) by {
        assert(tags[i] == item.tags@[i]@);
    }
    lemma_joined_no_escape(tags, ","@);
    lemma_no_escape_concat("tags:"@, joined(tags, ","@));
    assert forall|i: int| 0 <= i < parts.len() implies has_no_escape(#[trigger] parts[i]) by {}
    lemma_joined_no_escape(parts, " "@);
}

proof fn lemma_digit_char(d: int)
    requires
        0 <= d < 10,
    ensures
        is_ascii_digit(digit_char(d)),
        digit_char(d) as int - '0' as int == d,
{
    let digits = seq!['0', '1', '2', '3', '4', '5', '6', '7', '8', '9'];
    assert(digits[0] == '0');
    assert(digits[1] == '1');
    assert(digits[2] == '2');
    assert(digits[3] == '3');
    assert(digits[4] == '4');
    assert(digits[5] == '5');
    assert(digits[6] == '6');
    assert(digits[7] == '7');
    assert(digits[8] == '8');
    assert(digits[9] == '9');
}

proof fn lemma_decimal_text(n: nat)
    ensures
        decimal_text(n).len() >= 1,
        forall|i: int| 0 <= i < decimal_text(n).len() ==> is_ascii_digit(#[trigger] decimal_text(n)[i]),
        digits_value(decimal_text(n)) == n,
    decreases n,
{
    let t = decimal_text(n);
    if n < 10 {
        lemma_digit_char(n as int);
        assert(t.drop_last() =~= Seq::<char>::empty());
        assert(digits_value(t) == digits_value(t.drop_last()) * 10 + (t.last() as int
            - '0' as int) as nat);
    } else {
        lemma_decimal_text(n / 10);
        lemma_digit_char((n % 10) as int);
        let s = decimal_text(n / 10);
        assert(t.drop_last() =~= s);
        assert(t.last() == digit_char((n % 10) as int));
        assert(digits_value(t) == digits_value(s) * 10 + (t.last() as int - '0' as int) as nat);
        assert((n / 10) * 10 + n % 10 == n) by (nonlinear_arith);
    }
}

proof fn lemma_trim_keeps_digits(s: Seq<char>)
    requires
        s.len() >= 1,
        forall|i: int| 0 <= i < s.len() ==> is_ascii_digit(#[trigger] s[i]),
    ensures
        trim_text(s) == s,
{
    assert(is_ascii_digit(s[0]));
    assert(is_ascii_digit(s.last()));
    assert(trim_start_text(s) == s);
    assert(trim_end_text(s) == s);
}

/// The position that the listing shows for an item, typed back at the
/// "enter index" prompt, reads as that same position.
pub proof fn lemma_listed_position_reads_back(position: usize)
    ensures
        index_reply_of(decimal_text(position as nat)) == IndexReply::Number(position),
{
    let s = decimal_text(position as nat);
    lemma_decimal_text(position as nat);
    lemma_trim_keeps_digits(s);
    assert(is_ascii_digit(s[0]));
    assert(s[0] != '+');
    assert(parsed_usize(s) == Some(position as nat));
}

proof fn lemma_trim_start_skips_spaces(n: nat, s: Seq<char>)
    ensures
        trim_start_text(Seq::new(n, |i: int| ' ') + s) == trim_start_text(s),
    decreases n,
{
    if n > 0 {
        let x = Seq::new(n, |i: int| ' ') + s;
        assert(x[0] == ' ');
        assert(is_white_space(' '));
        assert(x.drop_first() =~= Seq::new((n - 1) as nat, |i: int| ' ') + s);
        lemma_trim_start_skips_spaces((n - 1) as nat, s);
    } else {
        assert(Seq::new(n, |i: int| ' ') + s =~= s);
    }
}

/// In the listing, the text before the first `. ` of an item's line, typed
/// back at the "enter index" prompt, reads as that item's position.
pub proof fn lemma_list_line_shows_position(item: TodoItem, position: usize, colors: bool)
    ensures
        exists|j: int|
            0 <= j && j + 2 <= list_line_text(item, position as nat, colors).len()
                && #[trigger] list_line_text(item, position as nat, colors).subrange(j, j + 2)
                == ". "@ && index_reply_of(list_line_text(item, position as nat, colors).take(j))
                == IndexReply::Number(position),
{
    reveal_strlit(". ");
    let d = decimal_text(position as nat);
    let pad = pad_left(d, 3);
    let line = list_line_text(item, position as nat, colors);
    let j = pad.len() as int;
    lemma_decimal_text(position as nat);
    lemma_trim_keeps_digits(d);
    if d.len() < 3 {
        lemma_trim_start_skips_spaces((3 - d.len()) as nat, d);
        let e = trim_start_text(pad);
        assert(e == trim_start_text(d));
        assert(trim_start_text(d) == d);
    } else {
        assert(pad == d);
    }
    assert(trim_text(pad) == d);
    assert(line.take(j) =~= pad);
    assert(line.subrange(j, j + 2) =~= ". "@);
    assert(d[0] != '+');
    assert(parsed_usize(d) == Some(position as nat));
    assert(pad.len() > 0);
    assert(index_reply_of(line.take(j)) == IndexReply::Number(position));
}

/// Removing the item at the last position right after adding an item gives
/// back that item and the list as it was before.
pub proof fn lemma_remove_last_undoes_add(before: TodoList, after: TodoList, item: TodoItem)
    requires
        after.items@ == before.items@.push(item),
    ensures
        after.has_position(before.items@.len() + 1int),
        after.items@[before.items@.len() as int] == item,
        after.items@.remove(before.items@.len() as int) == before.items@,
{
    assert(after.items@.remove(before.items@.len() as int) =~= before.items@);
}

/// The temporary file of a save never has the name of the file it replaces.
pub proof fn lemma_temp_name_differs(file_name: Seq<char>)
    ensures
        temp_name_text(file_name) != file_name,
        temp_name_text(file_name).len() == file_name.len() + 5,
{
    reveal_strlit(".");
    reveal_strlit(".tmp");
}

/// A title that the form settles on is never empty.
pub proof fn lemma_form_title_nonempty(reply: Seq<char>, existing: Option<&TodoItem>)
    ensures
        title_choice(reply, existing) matches Some(t) ==> t.len() > 0,
{
}

proof fn lemma_trim_start_result(x: Seq<char>)
    ensures
        trim_start_text(x).len() == 0 || !is_white_space(trim_start_text(x)[0]),
    decreases x.len(),
{
    if x.len() > 0 && is_white_space(x[0]) {
        lemma_trim_start_result(x.drop_first());
    }
}

proof fn lemma_trim_end_result(y: Seq<char>)
    ensures
        trim_end_text(y).len() <= y.len(),
        trim_end_text(y) == y.take(trim_end_text(y).len() as int),
        trim_end_text(y).len() == 0 || !is_white_space(trim_end_text(y).last()),
    decreases y.len(),
{
    if y.len() > 0 && is_white_space(y.last()) {
        lemma_trim_end_result(y.drop_last());
        let r = trim_end_text(y.drop_last());
        assert(y.drop_last().take(r.len() as int) =~= y.take(r.len() as int));
    } else {
        assert(y.take(y.len() as int) =~= y);
    }
}

proof fn lemma_trim_idempotent(x: Seq<char>)
    ensures
        trim_text(trim_text(x)) == trim_text(x),
{
    let u = trim_start_text(x);
    let t = trim_end_text(u);
    lemma_trim_start_result(x);
    lemma_trim_end_result(u);
    if t.len() > 0 {
        assert(t[0] == u[0]);
    }
    assert(trim_start_text(t) == t);
    assert(trim_end_text(t) == t);
}

proof fn lemma_nonempty_trimmed_clean(pieces: Seq<Seq<char>>)
    ensures
        forall|i: int|
            0 <= i < nonempty_trimmed(pieces).len() ==> {
                &&& (#[trigger] nonempty_trimmed(pieces)[i]).len() > 0
                &&& trim_text(nonempty_trimmed(pieces)[i]) == nonempty_trimmed(pieces)[i]
            },
    decreases pieces.len(),
{
    if pieces.len() > 0 {
        lemma_nonempty_trimmed_clean(pieces.drop_last());
        lemma_trim_idempotent(pieces.last());
        let rest = nonempty_trimmed(pieces.drop_last());
        let r = nonempty_trimmed(pieces);
        assert forall|i: int| 0 <= i < r.len() implies {
            &&& (#[trigger] r[i]).len() > 0
            &&& trim_text(r[i]) == r[i]
        } by {
            if i < rest.len() {
                assert(r[i] == rest[i]);
            }
        }
    }
}

/// Every tag that a comma-separated reply gives is non-empty and has no
/// white space at either end.
pub proof fn lemma_tags_are_clean(reply: Seq<char>)
    ensures
        forall|i: int|
            0 <= i < tag_list(reply).len() ==> {
                &&& (#[trigger] tag_list(reply)[i]).len() > 0
                &&& trim_text(tag_list(reply)[i]) == tag_list(reply)[i]
            },
{
    lemma_nonempty_trimmed_clean(crate::text::comma_pieces(reply));
}

} // verus!
