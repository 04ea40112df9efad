//! The sequence editor: rewrites a rebase todo list so that every commit
//! that would be picked is stopped at for editing.
//!
//! `git` hands the todo list to an editor as a file. Reading and writing that
//! file is left to the caller; this module says what the new content is.

use crate::text::{
    append_char, append_chars, first_newline, indent_len, indent_of, join_lines, joined,
    lemma_first_newline, lemma_indent_len, lines_of, split_lines, to_chars, trim_start, views_of,
    without_cr,
};
use vstd::prelude::*;
use vstd::string::StringExecFns;

verus! {

/// What a line of a todo list is taken for.
#[derive(Clone, Copy, Debug, PartialEq, Eq, Structural)]
pub enum LineKind {
    /// The first character after the leading whitespace is `#`.
    Comment,
    /// The line is no comment and reads `pick ` after the leading whitespace.
    Pick,
    /// Any other line.
    Other,
}

/// The command that is replaced, with the space that ends it.
pub open spec fn pick_keyword() -> Seq<char> {
    seq!['p', 'i', 'c', 'k', ' ']
}

/// The command that is put in its place, with the space that ends it.
pub open spec fn edit_keyword() -> Seq<char> {
    seq!['e', 'd', 'i', 't', ' ']
}

/// The kind of `line`. The comment rule is tried first.
pub open spec fn kind_of(line: Seq<char>) -> LineKind {
    let rest = trim_start(line);
    if rest.len() > 0 && rest[0] == '#' {
        LineKind::Comment
    } else if pick_keyword().is_prefix_of(rest) {
        LineKind::Pick
    } else {
        LineKind::Other
    }
}

/// What `line` becomes: in a pick line the command is replaced, the leading
/// whitespace and all that follows the command stay; every other line stays
/// as it is.
pub open spec fn rewritten_line(line: Seq<char>) -> Seq<char> {
    if kind_of(line) == LineKind::Pick {
        line.take(indent_len(line) as int) + edit_keyword() + trim_start(line).skip(5)
    } else {
        line
    }
}

/// `out` is `line` with the four characters from position `at` on replaced by
/// `edit`, and nothing else changed.
pub open spec fn keyword_replaced(line: Seq<char>, out: Seq<char>, at: int) -> bool {
    &&& 0 <= at
    &&& at + 4 <= line.len()
    &&& out.len() == line.len()
    &&& line.subrange(at, at + 4) == seq!['p', 'i', 'c', 'k']
    &&& out.subrange(at, at + 4) == seq!['e', 'd', 'i', 't']
    &&& forall|i: int| 0 <= i < line.len() && !(at <= i < at + 4) ==> out[i] == line[i]
}

/// Each line rewritten.
pub open spec fn rewritten_lines(lines: Seq<Seq<char>>) -> Seq<Seq<char>> {
    lines.map_values(|line: Seq<char>| rewritten_line(line))
}

/// What a todo list with the content `body` becomes: its lines, each
/// rewritten, joined by line feeds, and one line feed after the last.
pub open spec fn transformed(body: Seq<char>) -> Seq<char> {
    joined(rewritten_lines(lines_of(body))) + seq!['\n']
}

/// `body` with a line feed at its end: its own, or one added.
pub open spec fn newline_terminated(body: Seq<char>) -> Seq<char> {
    if body.len() > 0 && body.last() == '\n' {
        body
    } else {
        body + seq!['\n']
    }
}

/// No line of `body` is a pick line.
pub open spec fn has_no_pick(body: Seq<char>) -> bool {
    forall|i: int|
        0 <= i < lines_of(body).len() ==> kind_of(#[trigger] lines_of(body)[i]) != LineKind::Pick
}

/// No line feed of `body` follows a carriage return.
pub open spec fn has_no_crlf(body: Seq<char>) -> bool {
    forall|i: int| 0 < i < body.len() && #[trigger] body[i] == '\n' ==> body[i - 1] != '\r'
}

/// A rewritten pick line differs from the line in the command alone: it is
/// as long, it reads `edit` where the line reads `pick`, and every other
/// character, the leading whitespace included, is the same.
pub proof fn lemma_pick_becomes_edit(line: Seq<char>)
    requires
        kind_of(line) == LineKind::Pick,
    ensures
        keyword_replaced(line, rewritten_line(line), indent_len(line) as int),
{
    let k = indent_len(line) as int;
    let rest = trim_start(line);
    let out = rewritten_line(line);
    lemma_indent_len(line, k);
    assert(rest.subrange(0, 5) =~= pick_keyword());
    assert forall|j: int| 0 <= j < 5 implies line[k + j] == pick_keyword()[j] by {
        assert(rest.subrange(0, 5)[j] == rest[j]);
        assert(rest[j] == line[k + j]);
    }
    assert(line.subrange(k, k + 4) =~= seq!['p', 'i', 'c', 'k']);
    assert(out.subrange(k, k + 4) =~= seq!['e', 'd', 'i', 't']);
    assert forall|i: int| 0 <= i < line.len() && !(k <= i < k + 4) implies out[i] == line[i] by {
        if i == k + 4 {
            assert(line[k + 4] == pick_keyword()[4]);
        } else if i > k + 4 {
            assert(rest.skip(5)[i - k - 5] == rest[i - k]);
        }
    }
}

/// A todo list with nothing in it becomes a single line feed.
pub proof fn lemma_empty_becomes_newline()
    ensures
        transformed(Seq::<char>::empty()) == seq!['\n'],
{
    let none = lines_of(Seq::<char>::empty());
    assert(rewritten_lines(none) =~= Seq::<Seq<char>>::empty());
    assert(transformed(Seq::<char>::empty()) =~= seq!['\n']);
}

/// A text with characters in it has a line.
proof fn lemma_lines_nonempty(s: Seq<char>)
    requires
        s.len() > 0,
    ensures
        lines_of(s).len() > 0,
{
}

/// Splitting a text without carriage returns before line feeds into lines
/// and joining them again gives the text back, but for the line feed at the
/// end, which is there afterwards whether or not it was before.
pub proof fn lemma_joined_lines(body: Seq<char>)
    requires
        has_no_crlf(body),
    ensures
        joined(lines_of(body)) + seq!['\n'] == newline_terminated(body),
    decreases body.len(),
{
    if body.len() == 0 {
        assert(joined(lines_of(body)) + seq!['\n'] =~= newline_terminated(body));
    } else {
        let n = first_newline(body) as int;
        lemma_first_newline(body, n);
        if n >= body.len() {
            assert(body[body.len() - 1] != '\n');
        } else {
            let head = body.take(n);
            let rest = body.skip(n + 1);
            if n > 0 {
                assert(body[n] == '\n');
                assert(head.last() == body[n - 1]);
            }
            assert(without_cr(head) == head);
            assert forall|i: int| 0 < i < rest.len() && #[trigger] rest[i] == '\n' implies rest[i
                - 1] != '\r' by {
                assert(body[i + n + 1] == '\n');
            }
            lemma_joined_lines(rest);
            let lines = lines_of(body);
            assert(lines == seq![head] + lines_of(rest));
            if rest.len() == 0 {
                assert(lines =~= seq![head]);
                assert(head + seq!['\n'] =~= body);
            } else {
                lemma_lines_nonempty(rest);
                assert(lines.drop_first() =~= lines_of(rest));
                assert(rest.last() == body.last());
                assert(head + seq!['\n'] + rest =~= body);
                assert(head + seq!['\n'] + joined(lines_of(rest)) + seq!['\n'] =~= head + seq![
                    '\n',
                ] + (joined(lines_of(rest)) + seq!['\n']));
                if rest.last() != '\n' {
                    assert(head + seq!['\n'] + (rest + seq!['\n']) =~= body + seq!['\n']);
                }
            }
        }
    }
}

/// A todo list without pick lines, such as one of comments and `exec` lines
/// alone, comes out with the lines it had.
pub proof fn lemma_no_pick_keeps_lines(body: Seq<char>)
    requires
        has_no_pick(body),
    ensures
        transformed(body) == joined(lines_of(body)) + seq!['\n'],
{
    let lines = lines_of(body);
    assert forall|i: int| 0 <= i < lines.len() implies rewritten_lines(lines)[i] == lines[i] by {
        assert(kind_of(lines[i]) != LineKind::Pick);
    }
    assert(rewritten_lines(lines) =~= lines);
}

/// Rewriting a todo list without pick lines is a no-op: the content stays,
/// character for character, and ends in a line feed afterwards.
pub proof fn lemma_no_pick_is_noop(body: Seq<char>)
    requires
        has_no_pick(body),
        has_no_crlf(body),
    ensures
        transformed(body) == newline_terminated(body),
{
    lemma_no_pick_keeps_lines(body);
    lemma_joined_lines(body);
}

/// Classifies the characters of a line and counts its leading whitespace.
fn classify_chars(v: &Vec<char>) -> (r: (LineKind, usize))
    ensures
        r.0 == kind_of(v@),
        r.1 == indent_len(v@),
        r.1 <= v.len(),
        r.0 == LineKind::Pick ==> r.1 + 5 <= v.len(),
{
    let k = indent_of(v);
    let n = v.len();
    proof {
        let rest = trim_start(v@);
        assert forall|j: int| 0 <= j < rest.len() implies rest[j] == v@[k + j] by {}
        if n - k >= 5 {
            assert(rest.subrange(0, 5) =~= pick_keyword() <==> (v@[k as int] == 'p' && v@[k + 1]
                == 'i' && v@[k + 2] == 'c' && v@[k + 3] == 'k' && v@[k + 4] == ' ')) by {
                if rest.subrange(0, 5) =~= pick_keyword() {
                    assert forall|j: int| 0 <= j < 5 implies v@[k + j] == pick_keyword()[j] by {
                        assert(rest.subrange(0, 5)[j] == rest[j]);
                    }
                }
            }
        }
    }
    if k < n && v[k] == '#' {
        (LineKind::Comment, k)
    } else if n - k >= 5 && v[k] == 'p' && v[k + 1] == 'i' && v[k + 2] == 'c' && v[k + 3] == 'k'
        && v[k + 4] == ' ' {
        (LineKind::Pick, k)
    } else {
        (LineKind::Other, k)
    }
}

/// Tells which of the three kinds a line is.
pub fn classify(line: &str) -> (kind: LineKind)
    ensures
        kind == kind_of(line@),
{
    let v = to_chars(line);
    classify_chars(&v).0
}

/// Rewrites one line of a todo list.
///
/// A comment comes back unchanged, whatever it holds. A pick line comes back
/// with `pick` replaced by `edit`, its leading whitespace kept as it was and
/// the rest of the line untouched. Any other line comes back unchanged.
pub fn transform_line(line: &str) -> (out: String)
    ensures
        out@ == rewritten_line(line@),
        kind_of(line@) == LineKind::Comment ==> out@ == line@,
        kind_of(line@) == LineKind::Pick ==> keyword_replaced(
            line@,
            out@,
            indent_len(line@) as int,
        ),
        kind_of(line@) == LineKind::Other ==> out@ == line@,
{
    let v = to_chars(line);
    let (kind, k) = classify_chars(&v);
    match kind {
        LineKind::Pick => {
            let mut out = String::new();
            append_chars(&mut out, &v, 0, k);
            append_char(&mut out, 'e');
            append_char(&mut out, 'd');
            append_char(&mut out, 'i');
            append_char(&mut out, 't');
            append_char(&mut out, ' ');
            append_chars(&mut out, &v, k + 5, v.len());
            proof {
                assert(v@.subrange(0, k as int) =~= line@.take(k as int));
                assert(v@.subrange(k + 5, v.len() as int) =~= trim_start(line@).skip(5));
                assert(out@ =~= rewritten_line(line@));
                lemma_pick_becomes_edit(line@);
            }
            out
        },
        _ => line.to_owned(),
    }
}

/// Rewrites the content of a todo list: splits it into lines, rewrites each,
/// and joins them with line feeds, with one more line feed at the end.
pub fn transform(body: &str) -> (out: String)
    ensures
        out@ == transformed(body@),
        body@.len() == 0 ==> out@ == seq!['\n'],
        has_no_pick(body@) && has_no_crlf(body@) ==> out@ == newline_terminated(body@),
{
    let lines = split_lines(body);
    let mut rewritten: Vec<String> = Vec::new();
    let mut i: usize = 0;
    while i < lines.len()
        invariant
            i <= lines.len(),
            views_of(rewritten@) == rewritten_lines(views_of(lines@).take(i as int)),
        decreases lines.len() - i,
    {
        let line = transform_line(lines[i].as_str());
        proof {
            let all = views_of(lines@);
            assert(all.take(i + 1) =~= all.take(i as int).push(all[i as int]));
            assert(views_of(rewritten@.push(line)) =~= views_of(rewritten@).push(line@));
            assert(rewritten_lines(all.take(i as int).push(all[i as int])) =~= rewritten_lines(
                all.take(i as int),
            ).push(rewritten_line(all[i as int])));
        }
        rewritten.push(line);
        i += 1;
    }
    proof {
        assert(views_of(lines@).take(lines.len() as int) =~= views_of(lines@));
    }
    let mut out = join_lines(&rewritten);
    append_char(&mut out, '\n');
    proof {
        assert(out@ =~= transformed(body@));
        if body@.len() == 0 {
            lemma_empty_becomes_newline();
        }
        if has_no_pick(body@) && has_no_crlf(body@) {
            lemma_no_pick_is_noop(body@);
        }
    }
    out
}

/// Why the new content could not be stored.
#[derive(Debug, PartialEq, Eq)]
pub enum WriteFailure {
    /// The file could not be opened for writing; the system's message.
    Create(String),
    /// The file was opened and the content could not be written; the
    /// system's message.
    Write(String),
}

/// The message for a run without a path.
pub open spec fn missing_path_message() -> Seq<char> {
    "missing todo file path"@
}

/// The message for a todo list that could not be read for the reason `cause`.
pub open spec fn read_failed_message(cause: Seq<char>) -> Seq<char> {
    "read failed: "@ + cause
}

/// The message for a todo list that could not be stored.
pub open spec fn write_failed_message(failure: WriteFailure) -> Seq<char> {
    match failure {
        WriteFailure::Create(cause) => "create failed: "@ + cause@,
        WriteFailure::Write(cause) => "write failed: "@ + cause@,
    }
}

impl WriteFailure {
    /// The message that reports this failure.
    pub fn message(&self) -> (text: String)
        ensures
            text@ == write_failed_message(*self),
    {
        match self {
            WriteFailure::Create(cause) => {
                let mut text = String::from_str("create failed: ");
                text.append(cause.as_str());
                text
            },
            WriteFailure::Write(cause) => {
                let mut text = String::from_str("write failed: ");
                text.append(cause.as_str());
                text
            },
        }
    }
}

/// Begins a run of the sequence editor: says which file is to be rewritten.
///
/// With a path the run goes on with that path; without one it fails at once,
/// with `missing_path_message()`.
pub fn run(todo_path: Option<&str>) -> (r: Result<String, String>)
    ensures
        match todo_path {
            Some(path) => r is Ok && r->Ok_0@ == path@,
            None => r is Err && r->Err_0@ == missing_path_message(),
        },
{
    match todo_path {
        Some(path) => Ok(path.to_owned()),
        None => Err(String::from_str("missing todo file path")),
    }
}

/// Goes on with what reading the todo list gave: the content to store in its
/// place, or the failure to report.
pub fn rewrite(read: Result<String, String>) -> (r: Result<String, String>)
    ensures
        match read {
            Ok(body) => r is Ok && r->Ok_0@ == transformed(body@),
            Err(cause) => r is Err && r->Err_0@ == read_failed_message(cause@),
        },
{
    match read {
        Ok(body) => Ok(transform(body.as_str())),
        Err(cause) => {
            let mut text = String::from_str("read failed: ");
            text.append(cause.as_str());
            Err(text)
        },
    }
}

} // verus!
