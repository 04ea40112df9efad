//! The banner that announces the rewrite: its lines, and the frame that is
//! drawn around them.
//!
//! Colours come from the `console` crate, which decides by the terminal and
//! the environment whether it emits them. So of a coloured text only this
//! is known: it is the text as it is, or the text between the escape
//! sequences of its colour and the one that resets it.

use crate::text::{append_char, views_of};
use vstd::prelude::*;
use vstd::string::StringExecFns;

verus! {

/// The escape sequence that ends all colouring.
pub open spec fn reset() -> Seq<char> {
    "\x1b[0m"@
}

/// The escape sequences for yellow and for bold.
pub open spec fn yellow_bold_prefix() -> Seq<char> {
    "\x1b[33m\x1b[1m"@
}

/// The escape sequences for cyan and for bold.
pub open spec fn cyan_bold_prefix() -> Seq<char> {
    "\x1b[36m\x1b[1m"@
}

/// The escape sequence for cyan.
pub open spec fn cyan_prefix() -> Seq<char> {
    "\x1b[36m"@
}

/// The escape sequences for blue and for bold.
pub open spec fn blue_bold_prefix() -> Seq<char> {
    "\x1b[34m\x1b[1m"@
}

/// `out` is `text` as it is, or `text` between `prefix` and the reset.
pub open spec fn is_styled(out: Seq<char>, text: Seq<char>, prefix: Seq<char>) -> bool {
    out == text || out == prefix + text + reset()
}

/// The number of terminal columns that `console::measure_text_width` counts
/// for a text. Escape sequences count for nothing.
pub uninterp spec fn visible_width(text: Seq<char>) -> usize;

/// `console::style(text).yellow().bold()`, formatted: `text` unchanged where
/// `console` has colours off, and else `text` after the escape sequences for
/// yellow and bold and before the reset.
#[verifier::external_body]
fn yellow_bold(text: &str) -> (out: String)
    ensures
        is_styled(out@, text@, yellow_bold_prefix()),
{
    console::style(text).yellow().bold().to_string()
}

/// `console::style(text).cyan().bold()`, formatted: `text` unchanged where
/// `console` has colours off, and else `text` after the escape sequences for
/// cyan and bold and before the reset.
#[verifier::external_body]
fn cyan_bold(text: &str) -> (out: String)
    ensures
        is_styled(out@, text@, cyan_bold_prefix()),
{
    console::style(text).cyan().bold().to_string()
}

/// `console::style(text).cyan()`, formatted: `text` unchanged where `console`
/// has colours off, and else `text` after the escape sequence for cyan and
/// before the reset.
#[verifier::external_body]
fn cyan(text: &str) -> (out: String)
    ensures
        is_styled(out@, text@, cyan_prefix()),
{
    console::style(text).cyan().to_string()
}

/// `console::style(text).blue().bold()`, formatted: `text` unchanged where
/// `console` has colours off, and else `text` after the escape sequences for
/// blue and bold and before the reset.
#[verifier::external_body]
fn blue_bold(text: &str) -> (out: String)
    ensures
        is_styled(out@, text@, blue_bold_prefix()),
{
    console::style(text).blue().bold().to_string()
}

/// `console::measure_text_width`: the number of terminal columns of `text`,
/// which depends on `text` alone.
#[verifier::external_body]
fn measure(text: &str) -> (width: usize)
    ensures
        width == visible_width(text@),
{
    console::measure_text_width(text)
}

/// The first of the two lines that tell the mode.
pub open spec fn mode_line(manual_mode: bool) -> Seq<char> {
    if manual_mode {
        "Manual mode: you'll edit the todo list yourself."@
    } else {
        "Auto mode: all `pick` lines will be changed to `edit`."@
    }
}

/// The second of the two lines that tell the mode.
pub open spec fn mode_hint(manual_mode: bool) -> Seq<char> {
    if manual_mode {
        "Tip: mark commits you want to change as `edit`."@
    } else {
        "(Use --manual to keep your editor and control which commits to edit.)"@
    }
}

/// The colour of the first mode line.
pub open spec fn mode_line_prefix(manual_mode: bool) -> Seq<char> {
    if manual_mode {
        yellow_bold_prefix()
    } else {
        cyan_bold_prefix()
    }
}

/// The colour of the second mode line.
pub open spec fn mode_hint_prefix(manual_mode: bool) -> Seq<char> {
    if manual_mode {
        yellow_bold_prefix()
    } else {
        cyan_prefix()
    }
}

/// The line that names the new author.
pub open spec fn author_notice(name: Seq<char>, email: Seq<char>) -> Seq<char> {
    "New author will be set to: "@ + name + " <"@ + email + ">"@
}

/// The nine lines of the banner, with `first` and `second` as the two lines
/// that tell the mode.
pub open spec fn banner_with(
    first: Seq<char>,
    second: Seq<char>,
    name: Seq<char>,
    email: Seq<char>,
) -> Seq<Seq<char>> {
    seq![
        "Rewrite commit authors via interactive rebase"@,
        Seq::empty(),
        first,
        second,
        Seq::empty(),
        author_notice(name, email),
        "This tool will automatically:"@,
        "  1) Amend each stop with the new author"@,
        "  2) Run `git rebase --continue` until finished"@,
    ]
}

/// `lines` is the banner for the given author and mode: the nine lines of
/// `banner_with`, the two that tell the mode in their colours or plain.
pub open spec fn is_banner(
    lines: Seq<Seq<char>>,
    name: Seq<char>,
    email: Seq<char>,
    manual_mode: bool,
) -> bool {
    exists|first: Seq<char>, second: Seq<char>|
        {
            &&& is_styled(first, mode_line(manual_mode), mode_line_prefix(manual_mode))
            &&& is_styled(second, mode_hint(manual_mode), mode_hint_prefix(manual_mode))
            &&& lines == #[trigger] banner_with(first, second, name, email)
        }
}

/// Puts the banner together from the two lines that tell the mode, as they
/// came out of the colouring, and the author.
pub fn assemble_banner(first: String, second: String, name: &str, email: &str) -> (lines: Vec<
    String,
>)
    ensures
        views_of(lines@) == banner_with(first@, second@, name@, email@),
{
    let mut author = String::from_str("New author will be set to: ");
    author.append(name);
    author.append(" <");
    author.append(email);
    author.append(">");
    let mut lines: Vec<String> = Vec::new();
    lines.push(String::from_str("Rewrite commit authors via interactive rebase"));
    lines.push(String::new());
    lines.push(first);
    lines.push(second);
    lines.push(String::new());
    lines.push(author);
    lines.push(String::from_str("This tool will automatically:"));
    lines.push(String::from_str("  1) Amend each stop with the new author"));
    lines.push(String::from_str("  2) Run `git rebase --continue` until finished"));
    proof {
        assert(views_of(lines@) =~= banner_with(first@, second@, name@, email@));
    }
    lines
}

/// The lines of the banner: the title, the mode in two coloured lines, the
/// new author, and what the tool will do.
pub fn banner_lines(name: &str, email: &str, manual_mode: bool) -> (lines: Vec<String>)
    ensures
        is_banner(views_of(lines@), name@, email@, manual_mode),
        lines@.len() == 9,
{
    let first = if manual_mode {
        yellow_bold("Manual mode: you'll edit the todo list yourself.")
    } else {
        cyan_bold("Auto mode: all `pick` lines will be changed to `edit`.")
    };
    let second = if manual_mode {
        yellow_bold("Tip: mark commits you want to change as `edit`.")
    } else {
        cyan("(Use --manual to keep your editor and control which commits to edit.)")
    };
    let ghost first_view = first@;
    let ghost second_view = second@;
    let lines = assemble_banner(first, second, name, email);
    proof {
        assert(views_of(lines@) == banner_with(first_view, second_view, name@, email@));
        assert(views_of(lines@).len() == 9);
    }
    lines
}

/// The greatest of `widths`, and 0 where there is none.
pub open spec fn max_width(widths: Seq<usize>) -> nat
    decreases widths.len(),
{
    if widths.len() == 0 {
        0
    } else {
        let rest = max_width(widths.drop_last());
        if widths.last() > rest {
            widths.last() as nat
        } else {
            rest
        }
    }
}

/// No width is greater than the greatest.
pub proof fn lemma_max_width_bounds(widths: Seq<usize>, i: int)
    requires
        0 <= i < widths.len(),
    ensures
        widths[i] <= max_width(widths),
    decreases widths.len(),
{
    if i < widths.len() - 1 {
        lemma_max_width_bounds(widths.drop_last(), i);
    }
}

/// `n` times the character `c`.
pub open spec fn repeated(c: char, n: nat) -> Seq<char> {
    Seq::new(n, |i: int| c)
}

/// The width between the two sides of the frame: two more than the widest
/// line.
pub open spec fn inner_width_of(widths: Seq<usize>) -> nat {
    max_width(widths) + 2
}

/// One line of the banner in the frame: the left side, the line, spaces up
/// to the width `inner` less the one that the left side brings, and the
/// right side.
pub open spec fn framed_row(
    left: Seq<char>,
    line: Seq<char>,
    inner: nat,
    visible: nat,
    right: Seq<char>,
) -> Seq<char> {
    left + line + repeated(' ', (inner - visible - 1) as nat) + right
}

/// The banner in its frame: an empty line, the top, the lines between the
/// sides, the bottom, and an empty line.
pub open spec fn framed(
    lines: Seq<Seq<char>>,
    widths: Seq<usize>,
    inner: nat,
    top: Seq<char>,
    left: Seq<char>,
    right: Seq<char>,
    bottom: Seq<char>,
) -> Seq<Seq<char>> {
    seq![Seq::empty(), top] + Seq::new(
        lines.len(),
        |i: int| framed_row(left, lines[i], inner, widths[i] as nat, right),
    ) + seq![bottom, Seq::empty()]
}

/// The top or the bottom of the frame before it is coloured: a corner, the
/// horizontal bar `inner` times, and a corner.
pub open spec fn border(open: char, inner: nat, close: char) -> Seq<char> {
    seq![open] + repeated('═', inner) + seq![close]
}

/// The string of `n` times the character `c`.
pub fn repeat_char(c: char, n: usize) -> (s: String)
    ensures
        s@ == repeated(c, n as nat),
{
    let mut s = String::new();
    let mut i: usize = 0;
    while i < n
        invariant
            i <= n,
            s@ == repeated(c, i as nat),
        decreases n - i,
    {
        append_char(&mut s, c);
        i += 1;
        proof {
            assert(s@ =~= repeated(c, i as nat));
        }
    }
    s
}

/// The greatest of the widths.
pub fn widest(widths: &Vec<usize>) -> (w: usize)
    ensures
        w == max_width(widths@),
{
    let mut w: usize = 0;
    let mut i: usize = 0;
    while i < widths.len()
        invariant
            i <= widths.len(),
            w == max_width(widths@.take(i as int)),
        decreases widths.len() - i,
    {
        proof {
            assert(widths@.take(i + 1).drop_last() =~= widths@.take(i as int));
        }
        if widths[i] > w {
            w = widths[i];
        }
        i += 1;
    }
    proof {
        assert(widths@.take(widths.len() as int) =~= widths@);
    }
    w
}

/// The width between the two sides of the frame, where it can be counted.
pub fn inner_width(widths: &Vec<usize>) -> (inner: Option<usize>)
    ensures
        inner_width_of(widths@) <= usize::MAX ==> inner == Some(inner_width_of(widths@) as usize),
        inner_width_of(widths@) > usize::MAX ==> inner is None,
{
    let w = widest(widths);
    if w <= usize::MAX - 2 {
        Some(w + 2)
    } else {
        None
    }
}

/// The uncoloured top or bottom of a frame of the width `inner`.
pub fn border_text(open: char, inner: usize, close: char) -> (text: String)
    ensures
        text@ == border(open, inner as nat, close),
{
    let mut text = String::new();
    append_char(&mut text, open);
    let bar = repeat_char('═', inner);
    text.append(bar.as_str());
    append_char(&mut text, close);
    proof {
        assert(text@ =~= border(open, inner as nat, close));
    }
    text
}

/// Draws the frame around the lines. `widths` holds the visible width of
/// each line, and `inner` is the width between the two sides.
pub fn frame_rows(
    lines: &Vec<String>,
    widths: &Vec<usize>,
    inner: usize,
    top: String,
    left: &str,
    right: &str,
    bottom: String,
) -> (rows: Vec<String>)
    requires
        widths.len() == lines.len(),
        forall|i: int| 0 <= i < widths.len() ==> #[trigger] widths[i] + 2 <= inner,
    ensures
        views_of(rows@) == framed(
            views_of(lines@),
            widths@,
            inner as nat,
            top@,
            left@,
            right@,
            bottom@,
        ),
{
    let ghost all = framed(
        views_of(lines@),
        widths@,
        inner as nat,
        top@,
        left@,
        right@,
        bottom@,
    );
    let mut rows: Vec<String> = Vec::new();
    rows.push(String::new());
    rows.push(top);
    let mut i: usize = 0;
    while i < lines.len()
        invariant
            i <= lines.len(),
            widths.len() == lines.len(),
            forall|j: int| 0 <= j < widths.len() ==> #[trigger] widths[j] + 2 <= inner,
            all == framed(
                views_of(lines@),
                widths@,
                inner as nat,
                top@,
                left@,
                right@,
                bottom@,
            ),
            rows@.len() == i + 2,
            views_of(rows@) == all.take(i + 2),
        decreases lines.len() - i,
    {
        assert(widths[i as int] + 2 <= inner);
        let pad = inner - widths[i];
        let mut row = String::from_str(left);
        row.append(lines[i].as_str());
        let spaces = repeat_char(' ', pad - 1);
        row.append(spaces.as_str());
        row.append(right);
        proof {
            assert(row@ == all[i + 2]);
            assert(views_of(rows@.push(row)) =~= views_of(rows@).push(row@));
            assert(all.take(i + 3) =~= all.take(i + 2).push(all[i + 2]));
        }
        rows.push(row);
        i += 1;
    }
    proof {
        assert(views_of(rows@.push(bottom)) =~= views_of(rows@).push(bottom@));
    }
    rows.push(bottom);
    let last = String::new();
    proof {
        assert(views_of(rows@.push(last)) =~= views_of(rows@).push(last@));
    }
    rows.push(last);
    proof {
        assert(views_of(rows@) =~= all);
    }
    rows
}

/// The visible width of each of `lines`.
pub open spec fn widths_of(lines: Seq<Seq<char>>) -> Seq<usize> {
    lines.map_values(|line: Seq<char>| visible_width(line))
}

/// `rows` is `lines` in the frame that fits them: between an empty line
/// before and after, a top and a bottom as wide as the widest line needs,
/// and each line between the two sides; top, sides and bottom in blue and
/// bold, or plain.
pub open spec fn is_frame_of(rows: Seq<Seq<char>>, lines: Seq<Seq<char>>) -> bool {
    exists|top: Seq<char>, left: Seq<char>, right: Seq<char>, bottom: Seq<char>|
        {
            &&& is_styled(
                top,
                border('╔', inner_width_of(widths_of(lines)), '╗'),
                blue_bold_prefix(),
            )
            &&& is_styled(left, "║ "@, blue_bold_prefix())
            &&& is_styled(right, "║"@, blue_bold_prefix())
            &&& is_styled(
                bottom,
                border('╚', inner_width_of(widths_of(lines)), '╝'),
                blue_bold_prefix(),
            )
            &&& rows == #[trigger] framed(
                lines,
                widths_of(lines),
                inner_width_of(widths_of(lines)),
                top,
                left,
                right,
                bottom,
            )
        }
}

/// What `banner_rows` may give for the author and the mode: the banner in
/// its frame, or nothing where the width of the frame cannot be counted.
pub open spec fn is_framed_banner(
    rows: Option<Seq<Seq<char>>>,
    name: Seq<char>,
    email: Seq<char>,
    manual_mode: bool,
) -> bool {
    exists|lines: Seq<Seq<char>>|
        {
            &&& #[trigger] is_banner(lines, name, email, manual_mode)
            &&& match rows {
                Some(rows) => is_frame_of(rows, lines),
                None => inner_width_of(widths_of(lines)) > usize::MAX,
            }
        }
}

/// The visible width of each of the lines.
pub fn measure_lines(lines: &Vec<String>) -> (widths: Vec<usize>)
    ensures
        widths@ == widths_of(views_of(lines@)),
{
    let mut widths: Vec<usize> = Vec::new();
    let mut i: usize = 0;
    while i < lines.len()
        invariant
            i <= lines.len(),
            widths.len() == i,
            forall|j: int| 0 <= j < i ==> widths[j] == visible_width(#[trigger] lines[j]@),
        decreases lines.len() - i,
    {
        widths.push(measure(lines[i].as_str()));
        i += 1;
    }
    proof {
        assert(widths@ =~= widths_of(views_of(lines@)));
    }
    widths
}

/// The banner as it is printed, row by row: the lines of `banner_lines` in a
/// blue frame that is as wide as the widest of them needs. There is no
/// banner only where that width cannot be counted.
pub fn banner_rows(name: &str, email: &str, manual_mode: bool) -> (rows: Option<Vec<String>>)
    ensures
        is_framed_banner(
            match rows {
                Some(rows) => Some(views_of(rows@)),
                None => None,
            },
            name@,
            email@,
            manual_mode,
        ),
        rows matches Some(rows) ==> rows@.len() == 13,
{
    let lines = banner_lines(name, email, manual_mode);
    let widths = measure_lines(&lines);
    match inner_width(&widths) {
        Some(inner) => {
            proof {
                assert forall|i: int| 0 <= i < widths.len() implies #[trigger] widths[i] + 2
                    <= inner by {
                    lemma_max_width_bounds(widths@, i);
                }
            }
            let top = blue_bold(border_text('╔', inner, '╗').as_str());
            let bottom = blue_bold(border_text('╚', inner, '╝').as_str());
            let left = blue_bold("║ ");
            let right = blue_bold("║");
            let ghost top_view = top@;
            let ghost bottom_view = bottom@;
            let rows = frame_rows(
                &lines,
                &widths,
                inner,
                top,
                left.as_str(),
                right.as_str(),
                bottom,
            );
            proof {
                let all = views_of(rows@);
                let shown = views_of(lines@);
                assert(all == framed(
                    shown,
                    widths_of(shown),
                    inner_width_of(widths_of(shown)),
                    top_view,
                    left@,
                    right@,
                    bottom_view,
                ));
                assert(is_frame_of(all, shown));
                assert(all.len() == 13);
            }
            Some(rows)
        },
        None => None,
    }
}

} // verus!
