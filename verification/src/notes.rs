//! Multi-line text as the interfaces show it: splitting into lines, the
//! shortened release notes of an update, and how many rows wrapped text
//! takes on screen.

use crate::text::{chars_of, split_chars, split_seq, string_of, trim_end_seq, views, is_whitespace, is_ws};
use vstd::prelude::*;

verus! {

/// `p` without one trailing carriage return.
pub open spec fn strip_cr(p: Seq<char>) -> Seq<char> {
    if p.len() > 0 && p.last() == '\r' { p.drop_last() } else { p }
}

/// The lines ended by a line feed, each without a carriage return before it.
pub open spec fn ended_lines(parts: Seq<Seq<char>>) -> Seq<Seq<char>>
    decreases parts.len(),
{
    if parts.len() == 0 {
        Seq::empty()
    } else {
        ended_lines(parts.drop_last()).push(strip_cr(parts.last()))
    }
}

/// The lines of `s` (`str::lines`): split at line feeds, a carriage return
/// before a line feed dropped, and no empty last line after a final line
/// feed.
pub open spec fn lines_spec(s: Seq<char>) -> Seq<Seq<char>> {
    let parts = split_seq(s, seq!['\n']);
    let last = parts.last();
    ended_lines(parts.drop_last()) + if last.len() > 0 { seq![last] } else { Seq::empty() }
}

/// The lines of `s`.
pub fn lines_of(s: &str) -> (r: Vec<Vec<char>>)
    ensures
        views(r@) == lines_spec(s@),
{
    let parts = split_chars(chars_of(s).as_slice(), &['\n']);
    assert((&['\n'])@ =~= seq!['\n']);
    proof {
        crate::text::lemma_split_nonempty(s@, seq!['\n']);
    }
    let ghost pv = views(parts@);
    let n = parts.len();
    let mut r: Vec<Vec<char>> = Vec::new();
    for i in 0..n - 1
        invariant
            n == parts@.len(),
            n >= 1,
            pv == views(parts@),
            views(r@) == ended_lines(pv.drop_last().take(i as int)),
    {
        let p = &parts[i];
        let mut line: Vec<char> = Vec::new();
        let keep = if p.len() > 0 && p[p.len() - 1] == '\r' { p.len() - 1 } else { p.len() };
        for k in 0..keep
            invariant
                keep <= p@.len(),
                line@ == p@.take(k as int),
        {
            line.push(p[k]);
            assert(p@.take(k as int).push(p@[k as int]) =~= p@.take(k + 1));
        }
        assert(line@ =~= strip_cr(p@));
        let ghost before = r@;
        r.push(line);
        assert(pv.drop_last().take(i + 1).drop_last() =~= pv.drop_last().take(i as int));
        assert(pv.drop_last().take(i + 1).last() == p@);
        assert(views(r@) =~= views(before).push(strip_cr(p@)));
    }
    assert(pv.drop_last().take((n - 1) as int) =~= pv.drop_last());
    let last = &parts[n - 1];
    if last.len() > 0 {
        let mut copy: Vec<char> = Vec::new();
        for k in 0..last.len()
            invariant
                copy@ == last@.take(k as int),
        {
            copy.push(last[k]);
            assert(last@.take(k as int).push(last@[k as int]) =~= last@.take(k + 1));
        }
        assert(copy@ =~= last@);
        let ghost before = r@;
        r.push(copy);
        assert(views(r@) =~= views(before).push(copy@));
    }
    assert(views(r@) =~= lines_spec(s@));
    r
}

/// The number of bytes of `c` in UTF-8.
pub open spec fn utf8_len_char(c: char) -> nat {
    let u = c as u32;
    if u < 0x80 { 1 } else if u < 0x800 { 2 } else if u < 0x10000 { 3 } else { 4 }
}

/// The number of bytes of `s` in UTF-8.
pub open spec fn utf8_len(s: Seq<char>) -> nat
    decreases s.len(),
{
    if s.len() == 0 { 0 } else { utf8_len(s.drop_last()) + utf8_len_char(s.last()) }
}

/// The number of bytes of `c` in UTF-8.
pub fn char_utf8_len(c: char) -> (n: usize)
    ensures
        n == utf8_len_char(c),
{
    let u = c as u32;
    if u < 0x80 { 1 } else if u < 0x800 { 2 } else if u < 0x10000 { 3 } else { 4 }
}

/// The longest prefix of `s` that fits in `n` bytes of UTF-8.
pub open spec fn byte_prefix(s: Seq<char>, n: nat) -> Seq<char>
    decreases s.len(),
{
    if utf8_len(s) <= n || s.len() == 0 { s } else { byte_prefix(s.drop_last(), n) }
}

/// `s` without trailing whitespace (`str::trim_end`).
pub open spec fn rtrim(s: Seq<char>) -> Seq<char> {
    trim_end_seq(s)
}

/// The release notes shortened from line `i` on, with `out` built so far:
/// blank lines are skipped, kept lines lose trailing whitespace and are
/// joined by line feeds; past `max_lines` lines, or once the text reaches
/// `max_chars` bytes (cut back to whole characters within that size), the
/// text ends with `…`.
pub open spec fn notes_from(lines: Seq<Seq<char>>, i: nat, out: Seq<char>, max_lines: nat, max_chars: nat) -> Seq<char>
    decreases lines.len() - i,
{
    if i >= lines.len() {
        out
    } else if i >= max_lines {
        out.push('…')
    } else {
        let line = rtrim(lines[i as int]);
        if line.len() == 0 {
            notes_from(lines, i + 1, out, max_lines, max_chars)
        } else {
            let joined = (if out.len() > 0 { out.push('\n') } else { out }) + line;
            if utf8_len(joined) >= max_chars {
                byte_prefix(joined, max_chars).push('…')
            } else {
                notes_from(lines, i + 1, joined, max_lines, max_chars)
            }
        }
    }
}

/// The release notes `body` shortened to `max_lines` lines and about
/// `max_chars` bytes.
pub open spec fn preview_notes_spec(body: Seq<char>, max_lines: nat, max_chars: nat) -> Seq<char> {
    notes_from(lines_spec(body), 0, Seq::empty(), max_lines, max_chars)
}

/// `v` without trailing whitespace.
fn rtrim_chars(v: &[char]) -> (r: Vec<char>)
    ensures
        r@ == rtrim(v@),
{
    let mut n = v.len();
    assert(v@.take(v@.len() as int) =~= v@);
    while n > 0 && is_whitespace(v[n - 1])
        invariant
            n <= v@.len(),
            trim_end_seq(v@.take(n as int)) == trim_end_seq(v@),
        decreases n,
    {
        assert(v@.take(n as int).drop_last() =~= v@.take(n - 1));
        n = n - 1;
    }
    assert(n > 0 ==> v@.take(n as int).last() == v@[n - 1]);
    let mut out: Vec<char> = Vec::new();
    for i in 0..n
        invariant
            n <= v@.len(),
            out@ == v@.take(i as int),
    {
        out.push(v[i]);
        assert(v@.take(i as int).push(v@[i as int]) =~= v@.take(i + 1));
    }
    out
}

/// The UTF-8 size of a prefix grows by the size of the next character.
proof fn lemma_utf8_push(s: Seq<char>, c: char)
    ensures
        utf8_len(s.push(c)) == utf8_len(s) + utf8_len_char(c),
{
    assert(s.push(c).drop_last() =~= s);
}

/// The UTF-8 size of a concatenation.
proof fn lemma_utf8_concat(a: Seq<char>, b: Seq<char>)
    ensures
        utf8_len(a + b) == utf8_len(a) + utf8_len(b),
    decreases b.len(),
{
    if b.len() == 0 {
        assert(a + b =~= a);
    } else {
        lemma_utf8_concat(a, b.drop_last());
        assert((a + b).drop_last() =~= a + b.drop_last());
    }
}

/// The UTF-8 size of a prefix never exceeds that of the whole.
proof fn lemma_utf8_prefix(s: Seq<char>, k: int)
    requires
        0 <= k <= s.len(),
    ensures
        utf8_len(s.take(k)) <= utf8_len(s),
    decreases s.len() - k,
{
    if k < s.len() {
        lemma_utf8_prefix(s, k + 1);
        assert(s.take(k + 1).drop_last() =~= s.take(k));
    } else {
        assert(s.take(k) =~= s);
    }
}

/// The longest prefix within `n` bytes is the prefix of `k` characters when
/// those fit and one more would not.
proof fn lemma_byte_prefix(s: Seq<char>, n: nat, k: int)
    requires
        0 <= k <= s.len(),
        utf8_len(s.take(k)) <= n,
        k < s.len() ==> utf8_len(s.take(k + 1)) > n,
    ensures
        byte_prefix(s, n) == s.take(k),
    decreases s.len(),
{
    if utf8_len(s) <= n || s.len() == 0 {
        if k < s.len() {
            lemma_utf8_prefix(s, k + 1);
        }
        assert(s.take(k) =~= s);
    } else {
        assert(k < s.len()) by {
            if k == s.len() {
                assert(s.take(k) =~= s);
            }
        }
        if k == s.len() - 1 {
            assert(s.take(k) =~= s.drop_last());
            assert(utf8_len(s.drop_last()) <= n);
        } else {
            assert(s.drop_last().take(k) =~= s.take(k));
            assert(s.drop_last().take(k + 1) =~= s.take(k + 1));
        }
        if k == s.len() - 1 {
            assert(byte_prefix(s.drop_last(), n) == s.drop_last());
        } else {
            lemma_byte_prefix(s.drop_last(), n, k);
        }
    }
}

/// The longest prefix of `v` within `n` bytes.
fn byte_prefix_chars(v: &[char], n: usize) -> (r: Vec<char>)
    ensures
        r@ == byte_prefix(v@, n as nat),
{
    let mut out: Vec<char> = Vec::new();
    let mut size: usize = 0;
    let mut k: usize = 0;
    assert(v@.take(0) =~= Seq::<char>::empty());
    while k < v.len()
        invariant
            k <= v@.len(),
            out@ == v@.take(k as int),
            size == utf8_len(v@.take(k as int)),
            size <= n,
        decreases v@.len() - k,
    {
        let c = char_utf8_len(v[k]);
        proof {
            lemma_utf8_push(v@.take(k as int), v@[k as int]);
            assert(v@.take(k as int).push(v@[k as int]) =~= v@.take(k + 1));
        }
        if c > n - size {
            proof {
                lemma_byte_prefix(v@, n as nat, k as int);
            }
            return out;
        }
        size = size + c;
        out.push(v[k]);
        k = k + 1;
    }
    proof {
        lemma_byte_prefix(v@, n as nat, k as int);
    }
    out
}

/// The UTF-8 size of `v`, or `None` when it does not fit in a `usize`.
fn utf8_size(v: &[char]) -> (r: Option<usize>)
    ensures
        match r {
            Some(n) => n == utf8_len(v@),
            None => utf8_len(v@) > usize::MAX,
        },
{
    let mut size: usize = 0;
    for k in 0..v.len()
        invariant
            size == utf8_len(v@.take(k as int)),
    {
        let c = char_utf8_len(v[k]);
        proof {
            lemma_utf8_push(v@.take(k as int), v@[k as int]);
            assert(v@.take(k as int).push(v@[k as int]) =~= v@.take(k + 1));
        }
        if c > usize::MAX - size {
            proof {
                lemma_utf8_prefix(v@, k + 1);
            }
            return None;
        }
        size = size + c;
    }
    assert(v@.take(v@.len() as int) =~= v@);
    Some(size)
}

/// Shortens release notes for display: at most `max_lines` lines (blank
/// ones skipped) and about `max_chars` bytes, marking a cut with `…`.
pub fn preview_notes(body: &str, max_lines: usize, max_chars: usize) -> (s: String)
    ensures
        s@ == preview_notes_spec(body@, max_lines as nat, max_chars as nat),
{
    let lines = lines_of(body);
    let ghost lv = views(lines@);
    let mut out: Vec<char> = Vec::new();
    let mut i: usize = 0;
    assert(lv.len() == lines@.len());
    while i < lines.len()
        invariant
            lv == views(lines@),
            lv == lines_spec(body@),
            i <= lines@.len(),
            notes_from(lv, i as nat, out@, max_lines as nat, max_chars as nat) == preview_notes_spec(
                body@,
                max_lines as nat,
                max_chars as nat,
            ),
        decreases lines@.len() - i,
    {
        assert(lv[i as int] == lines@[i as int]@);
        if i >= max_lines {
            out.push('…');
            return string_of(out.as_slice());
        }
        let line = rtrim_chars(lines[i].as_slice());
        let ghost prev = out@;
        if line.len() > 0 {
            if out.len() > 0 {
                out.push('\n');
            }
            out.extend_from_slice(line.as_slice());
            assert(out@ == (if prev.len() > 0 { prev.push('\n') } else { prev }) + line@);
            assert(notes_from(lv, i as nat, prev, max_lines as nat, max_chars as nat) == (if utf8_len(out@) >= max_chars {
                byte_prefix(out@, max_chars as nat).push('…')
            } else {
                notes_from(lv, (i + 1) as nat, out@, max_lines as nat, max_chars as nat)
            }));
            match utf8_size(out.as_slice()) {
                Some(size) => {
                    if size >= max_chars {
                        let mut cut = byte_prefix_chars(out.as_slice(), max_chars);
                        cut.push('…');
                        return string_of(cut.as_slice());
                    }
                },
                None => {
                    let mut cut = byte_prefix_chars(out.as_slice(), max_chars);
                    cut.push('…');
                    return string_of(cut.as_slice());
                },
            }
        }
        i = i + 1;
    }
    string_of(out.as_slice())
}

/// The number of screen rows `textwrap` wraps a line into at a width.
pub uninterp spec fn wrapped_rows(line: Seq<char>, width: usize) -> usize;

/// `textwrap::wrap(line, width).len()`: the number of rows the line wraps
/// into. The count is a function of the line and the width.
#[verifier::external_body]
fn wrap_row_count(line: &str, width: usize) -> (n: usize)
    requires
        width >= 1,
    ensures
        n == wrapped_rows(line@, width),
{
    textwrap::wrap(line, width).len()
}

/// The rows the lines from `i` on take, each at least one, adding with
/// saturation.
pub open spec fn rows_from(lines: Seq<Seq<char>>, i: nat, width: usize, acc: nat) -> nat
    decreases lines.len() - i,
{
    if i >= lines.len() {
        acc
    } else {
        let w = wrapped_rows(lines[i as int], width);
        let rows: nat = if w >= 1 { w as nat } else { 1 };
        let next = if acc + rows > usize::MAX { usize::MAX as nat } else { acc + rows };
        rows_from(lines, i + 1, width, next)
    }
}

/// The rows `text` takes when wrapped at `width` columns (at least one
/// column and at least one row).
pub open spec fn wrapped_line_count_spec(text: Seq<char>, width: u16) -> nat {
    let w: usize = if width >= 1 { width as usize } else { 1 };
    let total = rows_from(lines_spec(text), 0, w, 0);
    if total >= 1 { total } else { 1 }
}

/// The number of rows `text` takes when wrapped at `width` columns.
pub fn wrapped_line_count(text: &str, width: u16) -> (n: usize)
    ensures
        n == wrapped_line_count_spec(text@, width),
{
    let w: usize = if width >= 1 { width as usize } else { 1 };
    let lines = lines_of(text);
    let ghost lv = views(lines@);
    let mut total: usize = 0;
    let mut i: usize = 0;
    while i < lines.len()
        invariant
            lv == views(lines@),
            lv == lines_spec(text@),
            w >= 1,
            w == (if width >= 1 { width as usize } else { 1usize }),
            i <= lines@.len(),
            rows_from(lv, i as nat, w, total as nat) == rows_from(lv, 0, w, 0),
        decreases lines@.len() - i,
    {
        assert(lv[i as int] == lines@[i as int]@);
        let s = string_of(lines[i].as_slice());
        let c = wrap_row_count(s.as_str(), w);
        let rows = if c >= 1 { c } else { 1 };
        total = total.saturating_add(rows);
        i = i + 1;
    }
    if total >= 1 { total } else { 1 }
}

} // verus!
