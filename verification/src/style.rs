//! Terminal styling of text, by the ANSI escape sequences that the
//! `owo-colors` crate writes around a displayed value.

use owo_colors::OwoColorize;
use vstd::prelude::*;

verus! {

/// The escape sequence `ESC [ code m` (a "select graphic rendition" command).
pub open spec fn sgr(code: Seq<char>) -> Seq<char> {
    seq!['\u{1b}', '['] + code + seq!['m']
}

/// Text in a foreground colour: the colour's code before it, and the code
/// that restores the default foreground (39) after it.
pub open spec fn foreground(code: Seq<char>, text: Seq<char>) -> Seq<char> {
    sgr(code) + text + sgr(seq!['3', '9'])
}

/// Text under an effect (bold, dim): the effect's code before it, and the
/// reset code (0) after it.
pub open spec fn effect(code: Seq<char>, text: Seq<char>) -> Seq<char> {
    sgr(code) + text + sgr(seq!['0'])
}

pub open spec fn bold_text(text: Seq<char>) -> Seq<char> {
    effect(seq!['1'], text)
}

pub open spec fn dimmed_text(text: Seq<char>) -> Seq<char> {
    effect(seq!['2'], text)
}

pub open spec fn red_text(text: Seq<char>) -> Seq<char> {
    foreground(seq!['3', '1'], text)
}

pub open spec fn green_text(text: Seq<char>) -> Seq<char> {
    foreground(seq!['3', '2'], text)
}

pub open spec fn yellow_text(text: Seq<char>) -> Seq<char> {
    foreground(seq!['3', '3'], text)
}

pub open spec fn cyan_text(text: Seq<char>) -> Seq<char> {
    foreground(seq!['3', '6'], text)
}

pub open spec fn bright_white_text(text: Seq<char>) -> Seq<char> {
    foreground(seq!['9', '7'], text)
}

pub open spec fn bright_blue_text(text: Seq<char>) -> Seq<char> {
    foreground(seq!['9', '4'], text)
}

/// `OwoColorize::bold`, displayed: owo-colors writes `ESC[1m`, the text,
/// then `ESC[0m` (styles.rs, `impl_fmt_for_style`).
#[verifier::external_body]
pub(crate) fn bold(text: &str) -> (r: String)
    ensures
        r@ == bold_text(text@),
{
    text.bold().to_string()
}

/// `OwoColorize::dimmed`, displayed: `ESC[2m`, the text, `ESC[0m`.
#[verifier::external_body]
pub(crate) fn dimmed(text: &str) -> (r: String)
    ensures
        r@ == dimmed_text(text@),
{
    text.dimmed().to_string()
}

/// `OwoColorize::red`, displayed: `ESC[31m`, the text, `ESC[39m`
/// (colors.rs, `impl_fmt_for` and the colour table).
#[verifier::external_body]
pub(crate) fn red(text: &str) -> (r: String)
    ensures
        r@ == red_text(text@),
{
    text.red().to_string()
}

/// `OwoColorize::green`, displayed: `ESC[32m`, the text, `ESC[39m`.
#[verifier::external_body]
pub(crate) fn green(text: &str) -> (r: String)
    ensures
        r@ == green_text(text@),
{
    text.green().to_string()
}

/// `OwoColorize::yellow`, displayed: `ESC[33m`, the text, `ESC[39m`.
#[verifier::external_body]
pub(crate) fn yellow(text: &str) -> (r: String)
    ensures
        r@ == yellow_text(text@),
{
    text.yellow().to_string()
}

/// `OwoColorize::cyan`, displayed: `ESC[36m`, the text, `ESC[39m`.
#[verifier::external_body]
pub(crate) fn cyan(text: &str) -> (r: String)
    ensures
        r@ == cyan_text(text@),
{
    text.cyan().to_string()
}

/// `OwoColorize::bright_white`, displayed: `ESC[97m`, the text, `ESC[39m`.
#[verifier::external_body]
pub(crate) fn bright_white(text: &str) -> (r: String)
    ensures
        r@ == bright_white_text(text@),
{
    text.bright_white().to_string()
}

/// `OwoColorize::bright_blue`, displayed: `ESC[94m`, the text, `ESC[39m`.
#[verifier::external_body]
pub(crate) fn bright_blue(text: &str) -> (r: String)
    ensures
        r@ == bright_blue_text(text@),
{
    text.bright_blue().to_string()
}

} // verus!
