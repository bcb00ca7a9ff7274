//! The one line that sums a directory up, and the line that says why there
//! is none. Each field is tinted for a terminal; whether the tint shows is
//! for the `colored` crate to decide from the terminal and the environment.

use colored::Colorize;
use vstd::prelude::*;

verus! {

/// The foreground colours that the lines use.
#[derive(Debug, Clone, Copy, PartialEq, Eq)]
pub enum Tint {
    BrightRed,
    BrightGreen,
    BrightYellow,
    BrightMagenta,
    BrightCyan,
}

impl Tint {
    /// The number by which a terminal knows the colour.
    pub open spec fn code(self) -> Seq<char> {
        match self {
            Tint::BrightRed => seq!['9', '1'],
            Tint::BrightGreen => seq!['9', '2'],
            Tint::BrightYellow => seq!['9', '3'],
            Tint::BrightMagenta => seq!['9', '5'],
            Tint::BrightCyan => seq!['9', '6'],
        }
    }

    /// The sequence that switches a terminal to the colour.
    pub open spec fn switch_on(self) -> Seq<char> {
        seq!['\u{1b}', '['] + self.code() + seq!['m']
    }
}

/// The sequence that switches a terminal back to its own colours.
pub open spec fn switch_off() -> Seq<char> {
    seq!['\u{1b}', '[', '0', 'm']
}

/// Whether the sequence that switches colours off stands at place `i` of a
/// text.
pub open spec fn switches_off_at(text: Seq<char>, i: int) -> bool {
    0 <= i <= text.len() - 4 && text.subrange(i, i + 4) == switch_off()
}

/// Whether a text holds the sequence that switches colours off.
pub open spec fn holds_switch_off(text: Seq<char>) -> bool {
    exists|i: int| switches_off_at(text, i)
}

/// A text in which colours are switched on again wherever the text itself
/// switches them off: `style` stands behind each switching-off sequence.
pub open spec fn restyled(text: Seq<char>, style: Seq<char>) -> Seq<char>
    decreases text.len(),
{
    if text.len() < 4 {
        text
    } else if switches_off_at(text, 0) {
        switch_off() + style + restyled(text.skip(4), style)
    } else {
        seq![text[0]] + restyled(text.skip(1), style)
    }
}

/// Whether `shown` is `text` as handed to a terminal in the colour `tint`.
/// Where colours are off it is the text alone. Where they are on it is the
/// text between the two switching sequences, with the colour switched on
/// again behind every switching-off sequence that the text holds. Where
/// colours go on or off while the text is formatted, the first sequence may
/// be missing, and so may those put into the text.
pub open spec fn is_tinted(shown: Seq<char>, text: Seq<char>, tint: Tint) -> bool {
    ||| shown == text
    ||| shown == tint.switch_on() + restyled(text, tint.switch_on()) + switch_off()
    ||| shown == tint.switch_on() + text + switch_off()
    ||| shown == restyled(text, tint.switch_on()) + switch_off()
    ||| shown == text + switch_off()
}

/// A text that does not switch colours off has nothing put into it.
pub proof fn lemma_restyled_leaves_plain_text(text: Seq<char>, style: Seq<char>)
    requires
        !holds_switch_off(text),
    ensures
        restyled(text, style) == text,
    decreases text.len(),
{
    if text.len() >= 4 {
        assert(!switches_off_at(text, 0));
        let rest = text.skip(1);
        assert forall|i: int| !switches_off_at(rest, i) by {
            if 0 <= i <= rest.len() - 4 {
                assert(rest.subrange(i, i + 4) =~= text.subrange(i + 1, i + 1 + 4));
                assert(!switches_off_at(text, i + 1));
            }
        }
        lemma_restyled_leaves_plain_text(rest, style);
        assert(seq![text[0]] + rest =~= text);
    }
}

/// A text that does not switch colours off is shown unchanged, or between
/// the two switching sequences, or before the second of them.
pub proof fn lemma_tinted_plain_text(shown: Seq<char>, text: Seq<char>, tint: Tint)
    requires
        is_tinted(shown, text, tint),
        !holds_switch_off(text),
    ensures
        shown == text || shown == tint.switch_on() + text + switch_off() || shown == text
            + switch_off(),
{
    lemma_restyled_leaves_plain_text(text, tint.switch_on());
}

/// What stands between two fields of the summary.
pub open spec fn separator() -> Seq<char> {
    " | "@
}

/// Four fields as one line.
pub open spec fn joined(
    dir: Seq<char>,
    size: Seq<char>,
    branch: Seq<char>,
    project: Seq<char>,
) -> Seq<char> {
    dir + separator() + size + separator() + branch + separator() + project
}

/// Whether `line` is the summary of the four fields, each in its colour.
pub open spec fn is_summary(
    line: Seq<char>,
    dir: Seq<char>,
    size: Seq<char>,
    branch: Seq<char>,
    project: Seq<char>,
) -> bool {
    exists|a: Seq<char>, b: Seq<char>, c: Seq<char>, d: Seq<char>|
        {
            &&& is_tinted(a, dir, Tint::BrightGreen)
            &&& is_tinted(b, size, Tint::BrightCyan)
            &&& is_tinted(c, branch, Tint::BrightYellow)
            &&& is_tinted(d, project, Tint::BrightMagenta)
            &&& line == #[trigger] joined(a, b, c, d)
        }
}

/// What every failure message starts with.
pub open spec fn failure_prefix() -> Seq<char> {
    "Error getting current directory: "@
}

/// Whether `message` reports that the directory could not be had for
/// `reason`.
pub open spec fn is_failure_message(message: Seq<char>, reason: Seq<char>) -> bool {
    exists|shown: Seq<char>| #[trigger]
        is_tinted(shown, reason, Tint::BrightRed) && message == failure_prefix() + shown
}

/// `colored::Colorize::bright_red` on `text`, and the result formatted with
/// its `Display`. Believed of it, not proved: with colours off the text comes
/// back as it is; with colours on it comes back between the sequence for
/// bright red (91) and the sequence that resets, and behind every resetting
/// sequence that the text itself holds the sequence for the colour stands
/// again. The crate asks more than once whether colours are on while it
/// formats, so the forms in which the leading sequence, the sequences put
/// into the text, or both are missing are allowed for.
#[verifier::external_body]
fn bright_red(text: &str) -> (shown: String)
    ensures
        is_tinted(shown@, text@, Tint::BrightRed),
{
    text.bright_red().to_string()
}

/// `colored::Colorize::bright_green` on `text`, and the result formatted with
/// its `Display`. Believed of it, not proved: with colours off the text comes
/// back as it is; with colours on it comes back between the sequence for
/// bright green (92) and the sequence that resets, and behind every resetting
/// sequence that the text itself holds the sequence for the colour stands
/// again. The crate asks more than once whether colours are on while it
/// formats, so the forms in which the leading sequence, the sequences put
/// into the text, or both are missing are allowed for.
#[verifier::external_body]
fn bright_green(text: &str) -> (shown: String)
    ensures
        is_tinted(shown@, text@, Tint::BrightGreen),
{
    text.bright_green().to_string()
}

/// `colored::Colorize::bright_yellow` on `text`, and the result formatted with
/// its `Display`. Believed of it, not proved: with colours off the text comes
/// back as it is; with colours on it comes back between the sequence for
/// bright yellow (93) and the sequence that resets, and behind every resetting
/// sequence that the text itself holds the sequence for the colour stands
/// again. The crate asks more than once whether colours are on while it
/// formats, so the forms in which the leading sequence, the sequences put
/// into the text, or both are missing are allowed for.
#[verifier::external_body]
fn bright_yellow(text: &str) -> (shown: String)
    ensures
        is_tinted(shown@, text@, Tint::BrightYellow),
{
    text.bright_yellow().to_string()
}

/// `colored::Colorize::bright_magenta` on `text`, and the result formatted with
/// its `Display`. Believed of it, not proved: with colours off the text comes
/// back as it is; with colours on it comes back between the sequence for
/// bright magenta (95) and the sequence that resets, and behind every resetting
/// sequence that the text itself holds the sequence for the colour stands
/// again. The crate asks more than once whether colours are on while it
/// formats, so the forms in which the leading sequence, the sequences put
/// into the text, or both are missing are allowed for.
#[verifier::external_body]
fn bright_magenta(text: &str) -> (shown: String)
    ensures
        is_tinted(shown@, text@, Tint::BrightMagenta),
{
    text.bright_magenta().to_string()
}

/// `colored::Colorize::bright_cyan` on `text`, and the result formatted with
/// its `Display`. Believed of it, not proved: with colours off the text comes
/// back as it is; with colours on it comes back between the sequence for
/// bright cyan (96) and the sequence that resets, and behind every resetting
/// sequence that the text itself holds the sequence for the colour stands
/// again. The crate asks more than once whether colours are on while it
/// formats, so the forms in which the leading sequence, the sequences put
/// into the text, or both are missing are allowed for.
#[verifier::external_body]
fn bright_cyan(text: &str) -> (shown: String)
    ensures
        is_tinted(shown@, text@, Tint::BrightCyan),
{
    text.bright_cyan().to_string()
}

/// Joins four fields into one line, with " | " between them.
pub fn summary_line(dir: &str, size: &str, branch: &str, project: &str) -> (line: String)
    ensures
        line@ == joined(dir@, size@, branch@, project@),
{
    let mut line = String::from_str(dir);
    line.append(" | ");
    line.append(size);
    line.append(" | ");
    line.append(branch);
    line.append(" | ");
    line.append(project);
    line
}

/// The summary of a directory: its path in green, its size in cyan, its
/// branch in yellow and its kind in magenta, joined into one line.
pub fn colored_summary_line(dir: &str, size: &str, branch: &str, project: &str) -> (line: String)
    ensures
        is_summary(line@, dir@, size@, branch@, project@),
{
    let a = bright_green(dir);
    let b = bright_cyan(size);
    let c = bright_yellow(branch);
    let d = bright_magenta(project);
    summary_line(a.as_str(), b.as_str(), c.as_str(), d.as_str())
}

/// The message for a directory that could not be had: a fixed opening and
/// the reason in red.
pub fn failure_message(reason: &str) -> (message: String)
    ensures
        is_failure_message(message@, reason@),
{
    let shown = bright_red(reason);
    let mut message = String::from_str("Error getting current directory: ");
    message.append(shown.as_str());
    message
}

} // verus!
