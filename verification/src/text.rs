//! Character-level text handling: Unicode whitespace, trimming, line
//! splitting and joining, and conversion between strings and vectors of
//! characters.
//!
//! Every string is modelled by its view, the sequence of its characters.

use vstd::prelude::*;
use vstd::string::StringExecFns;

verus! {

/// Whether `c` has the Unicode property `White_Space`.
pub open spec fn is_whitespace(c: char) -> bool {
    ||| c == ' '
    ||| ('\u{9}' <= c && c <= '\u{d}')
    ||| c == '\u{85}'
    ||| c == '\u{a0}'
    ||| c == '\u{1680}'
    ||| ('\u{2000}' <= c && c <= '\u{200a}')
    ||| c == '\u{2028}'
    ||| c == '\u{2029}'
    ||| c == '\u{202f}'
    ||| c == '\u{205f}'
    ||| c == '\u{3000}'
}

/// Number of whitespace characters at the front of `s`.
pub open spec fn indent_len(s: Seq<char>) -> nat
    decreases s.len(),
{
    if s.len() > 0 && is_whitespace(s[0]) {
        1 + indent_len(s.drop_first())
    } else {
        0
    }
}

/// Number of whitespace characters at the back of `s`.
pub open spec fn tail_len(s: Seq<char>) -> nat
    decreases s.len(),
{
    if s.len() > 0 && is_whitespace(s.last()) {
        1 + tail_len(s.drop_last())
    } else {
        0
    }
}

/// `s` without its leading whitespace.
pub open spec fn trim_start(s: Seq<char>) -> Seq<char> {
    s.skip(indent_len(s) as int)
}

/// `s` without its trailing whitespace.
pub open spec fn trim_end(s: Seq<char>) -> Seq<char> {
    s.take(s.len() - tail_len(s))
}

/// `s` without its leading and trailing whitespace.
pub open spec fn trimmed(s: Seq<char>) -> Seq<char> {
    trim_end(trim_start(s))
}

/// The first `k` characters of `s` are whitespace and the next one, if there
/// is one, is not.
pub open spec fn is_indent_of(s: Seq<char>, k: int) -> bool {
    &&& 0 <= k <= s.len()
    &&& forall|i: int| 0 <= i < k ==> is_whitespace(#[trigger] s[i])
    &&& k < s.len() ==> !is_whitespace(s[k])
}

/// The last `k` characters of `s` are whitespace and the one before them, if
/// there is one, is not.
pub open spec fn is_tail_of(s: Seq<char>, k: int) -> bool {
    &&& 0 <= k <= s.len()
    &&& forall|i: int| s.len() - k <= i < s.len() ==> is_whitespace(#[trigger] s[i])
    &&& k < s.len() ==> !is_whitespace(s[s.len() - k - 1])
}

/// `indent_len` is the one length that separates the leading whitespace from
/// the rest.
pub proof fn lemma_indent_len(s: Seq<char>, k: int)
    ensures
        is_indent_of(s, k) <==> k == indent_len(s),
    decreases s.len(),
{
    if s.len() > 0 && is_whitespace(s[0]) {
        let rest = s.drop_first();
        lemma_indent_len(rest, indent_len(rest) as int);
        lemma_indent_len(rest, k - 1);
        assert forall|i: int| 0 <= i < 1 + indent_len(rest) implies is_whitespace(
            #[trigger] s[i],
        ) by {
            if i > 0 {
                assert(s[i] == rest[i - 1]);
            }
        }
        if is_indent_of(s, k) {
            assert(k >= 1);
            assert forall|i: int| 0 <= i < k - 1 implies is_whitespace(#[trigger] rest[i]) by {
                assert(rest[i] == s[i + 1]);
            }
            assert(is_indent_of(rest, k - 1));
        }
    } else {
        if is_indent_of(s, k) && k > 0 {
            assert(is_whitespace(s[0]));
        }
    }
}

/// `tail_len` is the one length that separates the trailing whitespace from
/// what stands before it.
pub proof fn lemma_tail_len(s: Seq<char>, k: int)
    ensures
        is_tail_of(s, k) <==> k == tail_len(s),
    decreases s.len(),
{
    if s.len() > 0 && is_whitespace(s.last()) {
        let rest = s.drop_last();
        lemma_tail_len(rest, tail_len(rest) as int);
        lemma_tail_len(rest, k - 1);
        assert forall|i: int| s.len() - (1 + tail_len(rest)) <= i < s.len() implies is_whitespace(
            #[trigger] s[i],
        ) by {
            if i < s.len() - 1 {
                assert(s[i] == rest[i]);
            }
        }
        if is_tail_of(s, k) {
            assert(k >= 1);
            assert forall|i: int| rest.len() - (k - 1) <= i < rest.len() implies is_whitespace(
                #[trigger] rest[i],
            ) by {
                assert(rest[i] == s[i]);
            }
            assert(is_tail_of(rest, k - 1));
        }
    } else {
        if is_tail_of(s, k) && k > 0 {
            assert(is_whitespace(s[s.len() - 1]));
        }
    }
}

/// A trimmed text has no whitespace at either end, so trimming it again
/// changes nothing.
pub proof fn lemma_trimmed_is_trimmed(s: Seq<char>)
    ensures
        indent_len(trimmed(s)) == 0,
        tail_len(trimmed(s)) == 0,
        trimmed(trimmed(s)) == trimmed(s),
{
    let k = indent_len(s) as int;
    let t = trim_start(s);
    let m = tail_len(t) as int;
    let u = trimmed(s);
    lemma_indent_len(s, k);
    lemma_tail_len(t, m);
    if u.len() > 0 {
        assert(u[0] == s[k]);
        assert(u.last() == t[t.len() - m - 1]);
    }
    assert(is_indent_of(u, 0));
    assert(is_tail_of(u, 0));
    lemma_indent_len(u, 0);
    lemma_tail_len(u, 0);
    assert(u.skip(0) =~= u);
    assert(trimmed(u) =~= u);
}

/// Position of the first line feed of `s`, or the length of `s` where it has
/// none.
pub open spec fn first_newline(s: Seq<char>) -> nat
    decreases s.len(),
{
    if s.len() == 0 || s[0] == '\n' {
        0
    } else {
        1 + first_newline(s.drop_first())
    }
}

/// No line feed stands before position `n` of `s`, and one stands at `n`
/// unless `n` is the end of `s`.
pub open spec fn is_first_newline(s: Seq<char>, n: int) -> bool {
    &&& 0 <= n <= s.len()
    &&& forall|i: int| 0 <= i < n ==> #[trigger] s[i] != '\n'
    &&& n < s.len() ==> s[n] == '\n'
}

/// `first_newline` is the one position that `is_first_newline` describes.
pub proof fn lemma_first_newline(s: Seq<char>, n: int)
    ensures
        is_first_newline(s, n) <==> n == first_newline(s),
    decreases s.len(),
{
    if s.len() == 0 || s[0] == '\n' {
        if is_first_newline(s, n) && n > 0 {
            assert(s[0] != '\n');
        }
    } else {
        let rest = s.drop_first();
        lemma_first_newline(rest, first_newline(rest) as int);
        lemma_first_newline(rest, n - 1);
        assert forall|i: int| 0 <= i < 1 + first_newline(rest) implies #[trigger] s[i] != '\n' by {
            if i > 0 {
                assert(s[i] == rest[i - 1]);
            }
        }
        if is_first_newline(s, n) {
            assert(n >= 1);
            assert forall|i: int| 0 <= i < n - 1 implies #[trigger] rest[i] != '\n' by {
                assert(rest[i] == s[i + 1]);
            }
            assert(is_first_newline(rest, n - 1));
        }
    }
}

/// `line` without a carriage return at its end.
pub open spec fn without_cr(line: Seq<char>) -> Seq<char> {
    if line.len() > 0 && line.last() == '\r' {
        line.drop_last()
    } else {
        line
    }
}

/// The lines of `s`. A line ends at a line feed, or at a carriage return
/// directly followed by a line feed; the terminator is not part of the line.
/// What follows the last terminator is a line of its own unless it is empty,
/// and there a lone carriage return stays.
pub open spec fn lines_of(s: Seq<char>) -> Seq<Seq<char>>
    decreases s.len(),
{
    if s.len() == 0 {
        Seq::empty()
    } else {
        let n = first_newline(s) as int;
        if n >= s.len() {
            seq![s]
        } else {
            seq![without_cr(s.take(n))] + lines_of(s.skip(n + 1))
        }
    }
}

/// The lines with a line feed between each two of them.
pub open spec fn joined(lines: Seq<Seq<char>>) -> Seq<char>
    decreases lines.len(),
{
    if lines.len() == 0 {
        Seq::empty()
    } else if lines.len() == 1 {
        lines[0]
    } else {
        lines[0] + seq!['\n'] + joined(lines.drop_first())
    }
}

/// The views of the strings of `v`, in order.
pub open spec fn views_of(v: Seq<String>) -> Seq<Seq<char>> {
    v.map_values(|s: String| s@)
}

/// Joining one more line adds a line feed and the line, or the line alone
/// where it is the first.
pub proof fn lemma_joined_push(lines: Seq<Seq<char>>, line: Seq<char>)
    ensures
        joined(lines.push(line)) == if lines.len() == 0 {
            line
        } else {
            joined(lines) + seq!['\n'] + line
        },
    decreases lines.len(),
{
    let all = lines.push(line);
    if lines.len() == 0 {
        assert(all[0] == line);
    } else if lines.len() == 1 {
        assert(all.drop_first() =~= seq![line]);
        assert(joined(all.drop_first()) == line);
    } else {
        lemma_joined_push(lines.drop_first(), line);
        assert(all.drop_first() =~= lines.drop_first().push(line));
        assert(lines[0] + seq!['\n'] + (joined(lines.drop_first()) + seq!['\n'] + line) =~= (
        lines[0] + seq!['\n'] + joined(lines.drop_first())) + seq!['\n'] + line);
    }
}

/// Tests a character for the Unicode property `White_Space`.
pub fn is_space(c: char) -> (b: bool)
    ensures
        b == is_whitespace(c),
{
    c == ' ' || ('\u{9}' <= c && c <= '\u{d}') || c == '\u{85}' || c == '\u{a0}' || c == '\u{1680}'
        || ('\u{2000}' <= c && c <= '\u{200a}') || c == '\u{2028}' || c == '\u{2029}' || c
        == '\u{202f}' || c == '\u{205f}' || c == '\u{3000}'
}

/// The characters of `s`, in order.
pub fn to_chars(s: &str) -> (v: Vec<char>)
    ensures
        v@ == s@,
{
    let mut v: Vec<char> = Vec::new();
    for c in it: s.chars()
        invariant
            v@ == it.seq().take(it.index()),
            it.seq() == s@,
    {
        v.push(c);
    }
    v
}

/// `String::push` appends the one character `c` to the end of `s`.
#[verifier::external_body]
fn push_char(s: &mut String, c: char)
    ensures
        final(s)@ == old(s)@.push(c),
{
    s.push(c)
}

/// Appends the characters of `v` from position `from` up to `to` to `s`.
pub fn append_chars(s: &mut String, v: &Vec<char>, from: usize, to: usize)
    requires
        from <= to <= v.len(),
    ensures
        final(s)@ == old(s)@ + v@.subrange(from as int, to as int),
{
    let mut i: usize = from;
    while i < to
        invariant
            from <= i <= to <= v.len(),
            s@ == old(s)@ + v@.subrange(from as int, i as int),
        decreases to - i,
    {
        push_char(s, v[i]);
        assert(v@.subrange(from as int, i + 1) =~= v@.subrange(from as int, i as int).push(
            v@[i as int],
        ));
        i += 1;
    }
}

/// Appends the one character `c` to `s`.
pub fn append_char(s: &mut String, c: char)
    ensures
        final(s)@ == old(s)@.push(c),
{
    push_char(s, c);
}

/// The string made of the characters of `v` from position `from` up to `to`.
pub fn string_of(v: &Vec<char>, from: usize, to: usize) -> (s: String)
    requires
        from <= to <= v.len(),
    ensures
        s@ == v@.subrange(from as int, to as int),
{
    let mut s = String::new();
    append_chars(&mut s, v, from, to);
    s
}

/// Counts the whitespace characters at the front of `v`.
pub fn indent_of(v: &Vec<char>) -> (k: usize)
    ensures
        k == indent_len(v@),
        k <= v.len(),
{
    let mut k: usize = 0;
    while k < v.len() && is_space(v[k])
        invariant
            k <= v.len(),
            forall|i: int| 0 <= i < k ==> is_whitespace(#[trigger] v@[i]),
        decreases v.len() - k,
    {
        k += 1;
    }
    proof {
        lemma_indent_len(v@, k as int);
    }
    k
}

/// Finds where `v` without its leading and trailing whitespace begins and
/// ends.
pub fn trim_bounds(v: &Vec<char>) -> (r: (usize, usize))
    ensures
        r.0 <= r.1 <= v.len(),
        r.0 == indent_len(v@),
        v@.subrange(r.0 as int, r.1 as int) == trimmed(v@),
{
    let start = indent_of(v);
    let mut end: usize = v.len();
    while end > start && is_space(v[end - 1])
        invariant
            start <= end <= v.len(),
            forall|i: int| end <= i < v.len() ==> is_whitespace(#[trigger] v@[i]),
        decreases end,
    {
        end -= 1;
    }
    proof {
        let s = v@;
        let t = trim_start(s);
        lemma_indent_len(s, start as int);
        if end == start && start < s.len() {
            assert(is_whitespace(s[start as int]));
        }
        assert forall|i: int| t.len() - (s.len() - end) <= i < t.len() implies is_whitespace(
            #[trigger] t[i],
        ) by {
            assert(t[i] == s[start + i]);
        }
        assert(is_tail_of(t, s.len() - end));
        lemma_tail_len(t, s.len() - end);
        assert(s.subrange(start as int, end as int) =~= trim_end(t));
    }
    (start, end)
}

/// `s` without its leading and trailing whitespace.
pub fn trim(s: &str) -> (r: String)
    ensures
        r@ == trimmed(s@),
{
    let v = to_chars(s);
    let (start, end) = trim_bounds(&v);
    string_of(&v, start, end)
}

/// Whether `a` and `b` hold the same characters once the whitespace at both
/// ends of each is set aside.
pub fn same_trimmed(a: &str, b: &str) -> (r: bool)
    ensures
        r == (trimmed(a@) == trimmed(b@)),
{
    let va = to_chars(a);
    let vb = to_chars(b);
    let (a0, a1) = trim_bounds(&va);
    let (b0, b1) = trim_bounds(&vb);
    if a1 - a0 != b1 - b0 {
        proof {
            assert(trimmed(a@).len() == a1 - a0);
            assert(trimmed(b@).len() == b1 - b0);
        }
        return false;
    }
    let n = a1 - a0;
    let mut i: usize = 0;
    while i < n
        invariant
            i <= n,
            n == a1 - a0,
            n == b1 - b0,
            a0 <= a1 <= va.len(),
            b0 <= b1 <= vb.len(),
            va@.subrange(a0 as int, a1 as int) == trimmed(a@),
            vb@.subrange(b0 as int, b1 as int) == trimmed(b@),
            forall|j: int| 0 <= j < i ==> #[trigger] va@[a0 + j] == vb@[b0 + j],
        decreases n - i,
    {
        if va[a0 + i] != vb[b0 + i] {
            proof {
                assert(trimmed(a@)[i as int] == va@[a0 + i]);
                assert(trimmed(b@)[i as int] == vb@[b0 + i]);
            }
            return false;
        }
        i += 1;
    }
    proof {
        let ta = va@.subrange(a0 as int, a1 as int);
        let tb = vb@.subrange(b0 as int, b1 as int);
        assert forall|j: int| 0 <= j < ta.len() implies ta[j] == tb[j] by {
            assert(va@[a0 + j] == vb@[b0 + j]);
        }
        assert(ta =~= tb);
    }
    true
}

/// `first` followed by `second`.
pub fn concat2(first: &str, second: &str) -> (s: String)
    ensures
        s@ == first@ + second@,
{
    let mut s = String::from_str(first);
    s.append(second);
    s
}

/// `first` followed by `second` and `third`.
pub fn concat3(first: &str, second: &str, third: &str) -> (s: String)
    ensures
        s@ == first@ + second@ + third@,
{
    let mut s = String::from_str(first);
    s.append(second);
    s.append(third);
    s
}

/// Whether `a` and `b` hold the same characters.
pub fn same_text(a: &str, b: &str) -> (r: bool)
    ensures
        r == (a@ == b@),
{
    let va = to_chars(a);
    let vb = to_chars(b);
    if va.len() != vb.len() {
        return false;
    }
    let mut i: usize = 0;
    while i < va.len()
        invariant
            i <= va.len(),
            va.len() == vb.len(),
            va@ == a@,
            vb@ == b@,
            forall|j: int| 0 <= j < i ==> va@[j] == vb@[j],
        decreases va.len() - i,
    {
        if va[i] != vb[i] {
            return false;
        }
        i += 1;
    }
    proof {
        assert(va@ =~= vb@);
    }
    true
}

/// Whether `c` occurs in `s`.
pub fn contains_char(s: &str, c: char) -> (r: bool)
    ensures
        r == s@.contains(c),
{
    let v = to_chars(s);
    let mut i: usize = 0;
    while i < v.len()
        invariant
            i <= v.len(),
            v@ == s@,
            forall|j: int| 0 <= j < i ==> v@[j] != c,
        decreases v.len() - i,
    {
        if v[i] == c {
            proof {
                assert(s@[i as int] == c);
            }
            return true;
        }
        i += 1;
    }
    false
}

/// Splits `s` into its lines.
pub fn split_lines(s: &str) -> (lines: Vec<String>)
    ensures
        views_of(lines@) == lines_of(s@),
{
    let v = to_chars(s);
    let n = v.len();
    let mut lines: Vec<String> = Vec::new();
    let mut start: usize = 0;
    let mut i: usize = 0;
    proof {
        assert(v@.skip(0) =~= v@);
        assert(views_of(lines@) =~= Seq::<Seq<char>>::empty());
    }
    while i < n
        invariant
            n == v.len(),
            start <= i <= n,
            forall|j: int| start <= j < i ==> #[trigger] v@[j] != '\n',
            views_of(lines@) + lines_of(v@.skip(start as int)) == lines_of(v@),
        decreases n - i,
    {
        if v[i] == '\n' {
            let end = if i > start && v[i - 1] == '\r' {
                i - 1
            } else {
                i
            };
            let line = string_of(&v, start, end);
            proof {
                let rest = v@.skip(start as int);
                let k = i - start;
                assert forall|j: int| 0 <= j < k implies #[trigger] rest[j] != '\n' by {
                    assert(rest[j] == v@[start + j]);
                }
                assert(is_first_newline(rest, k));
                lemma_first_newline(rest, k);
                assert(rest.take(k) =~= v@.subrange(start as int, i as int));
                assert(line@ =~= without_cr(rest.take(k)));
                assert(rest.skip(k + 1) =~= v@.skip(i + 1));
                assert(views_of(lines@.push(line)) =~= views_of(lines@).push(line@));
                assert(views_of(lines@).push(line@) + lines_of(v@.skip(i + 1)) =~= views_of(
                    lines@,
                ) + lines_of(rest));
            }
            lines.push(line);
            start = i + 1;
        }
        i += 1;
    }
    if start < n {
        let line = string_of(&v, start, n);
        proof {
            let rest = v@.skip(start as int);
            assert forall|j: int| 0 <= j < rest.len() implies #[trigger] rest[j] != '\n' by {
                assert(rest[j] == v@[start + j]);
            }
            assert(is_first_newline(rest, rest.len() as int));
            lemma_first_newline(rest, rest.len() as int);
            assert(line@ =~= rest);
            assert(views_of(lines@.push(line)) =~= views_of(lines@).push(line@));
            assert(views_of(lines@).push(line@) =~= views_of(lines@) + lines_of(rest));
        }
        lines.push(line);
    } else {
        proof {
            assert(views_of(lines@) + lines_of(v@.skip(start as int)) =~= views_of(lines@));
        }
    }
    lines
}

/// Joins the lines with a line feed between each two of them.
pub fn join_lines(lines: &Vec<String>) -> (out: String)
    ensures
        out@ == joined(views_of(lines@)),
{
    let mut out = String::new();
    let mut i: usize = 0;
    proof {
        assert(views_of(lines@).take(0) =~= Seq::<Seq<char>>::empty());
    }
    while i < lines.len()
        invariant
            i <= lines.len(),
            out@ == joined(views_of(lines@).take(i as int)),
        decreases lines.len() - i,
    {
        proof {
            let all = views_of(lines@);
            lemma_joined_push(all.take(i as int), all[i as int]);
            assert(all.take(i + 1) =~= all.take(i as int).push(all[i as int]));
        }
        if i > 0 {
            push_char(&mut out, '\n');
        }
        let ghost before = out@;
        out.append(lines[i].as_str());
        proof {
            if i > 0 {
                assert(before =~= joined(views_of(lines@).take(i as int)) + seq!['\n']);
            }
        }
        i += 1;
    }
    proof {
        assert(views_of(lines@).take(lines.len() as int) =~= views_of(lines@));
    }
    out
}

} // verus!
