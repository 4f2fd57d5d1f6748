//! The home screen of the terminal interface: what the typed line asks for,
//! where cover images are looked for, and how log lines are split for
//! colouring.

use crate::book_id::{opt_view, parse_book_id, parse_book_id_spec};
use crate::range::{parse_range_input, parse_range_spec, range_result_view, ChapterRange, RangeError};
use crate::text::{chars_of, eq_ignore_ascii_case, is_whitespace, is_ws, lower_seq, string_of, trim_chars, trim_seq, views};
use vstd::prelude::*;

verus! {

/// What the line typed on the home screen asks for.
#[derive(Debug, PartialEq, Eq)]
pub enum HomeInput {
    /// `ooo`: switch to the line-oriented interface (takes effect on restart).
    SwitchToOldCli,
    /// A download is waiting for its chapter range: the range read from the
    /// line (`None` for all chapters), or why it was refused.
    PendingRange(Result<Option<ChapterRange>, RangeError>),
    /// Nothing typed.
    Empty,
    /// A book id read from the line: preview that book.
    Preview(String),
    /// Anything else: search for it.
    Search(String),
}

/// What the line asks for, as values.
pub enum HomeInputView {
    SwitchToOldCli,
    PendingRange(Result<Option<(nat, nat)>, RangeError>),
    Empty,
    Preview(Seq<char>),
    Search(Seq<char>),
}

/// The view of a home-screen request.
pub open spec fn home_input_view(h: HomeInput) -> HomeInputView {
    match h {
        HomeInput::SwitchToOldCli => HomeInputView::SwitchToOldCli,
        HomeInput::PendingRange(r) => HomeInputView::PendingRange(range_result_view(r)),
        HomeInput::Empty => HomeInputView::Empty,
        HomeInput::Preview(s) => HomeInputView::Preview(s@),
        HomeInput::Search(s) => HomeInputView::Search(s@),
    }
}

/// What the home-screen line `input` asks for; `pending_total` is the
/// chapter count of a download waiting for its range, if any.
pub open spec fn home_input_spec(input: Seq<char>, pending_total: Option<usize>) -> HomeInputView {
    let t = trim_seq(input);
    if lower_seq(t) == lower_seq("ooo"@) {
        HomeInputView::SwitchToOldCli
    } else {
        match pending_total {
            Some(total) => HomeInputView::PendingRange(parse_range_spec(t, total as nat)),
            None => if t.len() == 0 {
                HomeInputView::Empty
            } else {
                match parse_book_id_spec(t) {
                    Some(id) => HomeInputView::Preview(id),
                    None => HomeInputView::Search(t),
                }
            },
        }
    }
}

/// The home line: `ooo` (in any case, spaces around it ignored) always
/// switches to the line-oriented interface; a blank line without a pending
/// download asks for nothing; while a download waits for its range, a
/// range `s-e` within the catalogue is taken as that range.
pub proof fn lemma_home_line(input: Seq<char>, total: usize, s: nat, e: nat)
    ensures
        lower_seq(trim_seq(input)) == lower_seq("ooo"@) ==> home_input_spec(input, Some(total)) == HomeInputView::SwitchToOldCli
            && home_input_spec(input, None) == HomeInputView::SwitchToOldCli,
        trim_seq(input).len() == 0 ==> home_input_spec(input, None) == HomeInputView::Empty,
        1 <= s <= e <= total ==> home_input_spec(crate::text::dec_string(s) + seq!['-'] + crate::text::dec_string(e), Some(total))
            == HomeInputView::PendingRange(Ok(Some((s, e)))),
{
    reveal_strlit("ooo");
    if trim_seq(input).len() == 0 {
        assert(lower_seq(trim_seq(input)).len() == 0);
        assert(lower_seq("ooo"@).len() == 3);
    }
    if 1 <= s <= e <= total {
        let t = crate::text::dec_string(s) + seq!['-'] + crate::text::dec_string(e);
        crate::range::lemma_typed_range_accepted(s, e, total as nat);
        crate::text::lemma_dec_string(s);
        crate::text::lemma_dec_string(e);
        let ds = crate::text::dec_string(s);
        assert(crate::text::is_digit(ds[0]));
        crate::text::lemma_trim_noop(t);
        assert(t[0] == ds[0]);
        assert(lower_seq(t)[0] == t[0]);
        assert(lower_seq("ooo"@)[0] == 'o');
        assert(lower_seq(trim_seq(t)) != lower_seq("ooo"@));
    }
}

/// Reads the line typed on the home screen.
pub fn process_input(input: &str, pending_total: Option<usize>) -> (r: HomeInput)
    ensures
        home_input_view(r) == home_input_spec(input@, pending_total),
{
    let tv = trim_chars(chars_of(input).as_slice());
    let t = string_of(tv.as_slice());
    proof {
        crate::text::lemma_trim_idempotent(input@);
    }
    if eq_ignore_ascii_case(t.as_str(), "ooo") {
        return HomeInput::SwitchToOldCli;
    }
    match pending_total {
        Some(total) => HomeInput::PendingRange(parse_range_input(t.as_str(), total)),
        None => {
            if tv.len() == 0 {
                return HomeInput::Empty;
            }
            match parse_book_id(t.as_str()) {
                Some(id) => HomeInput::Preview(id),
                None => HomeInput::Search(t),
            }
        },
    }
}

/// The path `base` joined with `name` (`Path::join`), as text.
pub uninterp spec fn joined_path(base: Seq<char>, name: Seq<char>) -> Seq<char>;

/// Whether two paths are equal as paths (`PathBuf == PathBuf`, which compares
/// components).
pub uninterp spec fn same_path(a: Seq<char>, b: Seq<char>) -> bool;

/// `std::path::Path::join(base, name)`, as text. The result is a function of
/// the two texts; the joined path of valid text is valid text.
#[verifier::external_body]
fn path_join(base: &str, name: &str) -> (r: String)
    ensures
        r@ == joined_path(base@, name@),
{
    std::path::Path::new(base).join(name).to_string_lossy().into_owned()
}

/// `PathBuf` equality of two paths given as text: a function of the two
/// texts, and (`Path` equality being reflexive) true for equal texts.
#[verifier::external_body]
fn path_eq(a: &str, b: &str) -> (r: bool)
    ensures
        r == same_path(a@, b@),
        a@ == b@ ==> r,
{
    std::path::Path::new(a) == std::path::Path::new(b)
}

/// The cover file names looked for in a folder, in order.
pub open spec fn cover_file_names(title: Seq<char>, safe_title: Seq<char>) -> Seq<Seq<char>> {
    seq![safe_title + ".jpg"@, safe_title + ".png"@, title + ".jpg"@, title + ".png"@, "cover.jpg"@, "cover.png"@]
}

/// Whether `list` holds a path equal to `p`.
pub open spec fn holds_path(list: Seq<Seq<char>>, p: Seq<char>) -> bool {
    exists|i: int| 0 <= i < list.len() && same_path(#[trigger] list[i], p)
}

/// No two entries of `list` are the same text.
pub open spec fn distinct_texts(list: Seq<Seq<char>>) -> bool {
    forall|i: int, j: int| 0 <= i < j < list.len() ==> list[i] != list[j]
}

/// `list` with each of `paths` appended unless an equal path is already
/// there (counting the ones appended before it).
pub open spec fn add_new_paths(list: Seq<Seq<char>>, paths: Seq<Seq<char>>) -> Seq<Seq<char>>
    decreases paths.len(),
{
    if paths.len() == 0 {
        list
    } else {
        let prev = add_new_paths(list, paths.drop_last());
        if holds_path(prev, paths.last()) { prev } else { prev.push(paths.last()) }
    }
}

/// Whether `list` holds a path equal to `p`; when it does not, no entry
/// is the same text as `p`.
fn contains_path(list: &Vec<String>, p: &str) -> (b: bool)
    ensures
        b == holds_path(crate::text::strings_view(list@), p@),
        !b ==> forall|j: int| 0 <= j < list@.len() ==> #[trigger] list@[j]@ != p@,
{
    let ghost lv = crate::text::strings_view(list@);
    for i in 0..list.len()
        invariant
            lv == crate::text::strings_view(list@),
            forall|j: int| 0 <= j < i ==> !same_path(#[trigger] lv[j], p@),
            forall|j: int| 0 <= j < i ==> #[trigger] list@[j]@ != p@,
    {
        if path_eq(list[i].as_str(), p) {
            assert(lv[i as int] == list@[i as int]@);
            return true;
        }
    }
    false
}

/// Adds the places a book's cover may be found in folder `base` to `list`:
/// the safe and the plain title as JPEG and PNG, then `cover.jpg` and
/// `cover.png`, skipping paths already listed.
pub fn push_cover_candidates(list: &mut Vec<String>, base: &str, title: &str, safe_title: &str)
    ensures
        crate::text::strings_view(final(list)@) == add_new_paths(
            crate::text::strings_view(old(list)@),
            cover_file_names(title@, safe_title@).map_values(|n: Seq<char>| joined_path(base@, n)),
        ),
        distinct_texts(crate::text::strings_view(old(list)@)) ==> distinct_texts(crate::text::strings_view(final(list)@)),
{
    let mut names: Vec<String> = Vec::new();
    let mut a = chars_of(safe_title);
    a.extend_from_slice(chars_of(".jpg").as_slice());
    names.push(string_of(a.as_slice()));
    let mut b = chars_of(safe_title);
    b.extend_from_slice(chars_of(".png").as_slice());
    names.push(string_of(b.as_slice()));
    let mut c = chars_of(title);
    c.extend_from_slice(chars_of(".jpg").as_slice());
    names.push(string_of(c.as_slice()));
    let mut d = chars_of(title);
    d.extend_from_slice(chars_of(".png").as_slice());
    names.push(string_of(d.as_slice()));
    names.push(String::from_str("cover.jpg"));
    names.push(String::from_str("cover.png"));
    let ghost want = cover_file_names(title@, safe_title@).map_values(|n: Seq<char>| joined_path(base@, n));
    assert(names@.len() == 6);
    assert(names@[0]@ == safe_title@ + ".jpg"@);
    assert(names@[1]@ == safe_title@ + ".png"@);
    assert(names@[2]@ == title@ + ".jpg"@);
    assert(names@[3]@ == title@ + ".png"@);
    assert(names@[4]@ == "cover.jpg"@);
    assert(names@[5]@ == "cover.png"@);
    assert(crate::text::strings_view(names@) =~= cover_file_names(title@, safe_title@));
    let ghost start = crate::text::strings_view(list@);
    assert(want.take(0) =~= Seq::<Seq<char>>::empty());
    for i in 0..names.len()
        invariant
            names@.len() == 6,
            crate::text::strings_view(names@) == cover_file_names(title@, safe_title@),
            want == cover_file_names(title@, safe_title@).map_values(|n: Seq<char>| joined_path(base@, n)),
            crate::text::strings_view(list@) == add_new_paths(start, want.take(i as int)),
            distinct_texts(start) ==> distinct_texts(crate::text::strings_view(list@)),
    {
        let path = path_join(base, names[i].as_str());
        assert(names@[i as int]@ == crate::text::strings_view(names@)[i as int]);
        assert(path@ == want[i as int]);
        assert(want.take(i + 1).drop_last() =~= want.take(i as int));
        if !contains_path(list, path.as_str()) {
            let ghost before = list@;
            let ghost pv = path@;
            list.push(path);
            assert(crate::text::strings_view(list@) =~= crate::text::strings_view(before).push(pv));
            proof {
                let sv = crate::text::strings_view(list@);
                if distinct_texts(start) {
                    assert forall|a: int, b: int| 0 <= a < b < sv.len() implies sv[a] != sv[b] by {
                        if b == sv.len() - 1 {
                            assert(before[a]@ != pv);
                        } else {
                            assert(crate::text::strings_view(before)[a] == sv[a]);
                            assert(crate::text::strings_view(before)[b] == sv[b]);
                        }
                    }
                }
            }
        }
    }
    assert(want.take(6) =~= want);
}

/// The whitespace-separated words of `s` (`str::split_whitespace`).
pub open spec fn words(s: Seq<char>) -> Seq<Seq<char>>
    decreases s.len(),
{
    if s.len() == 0 {
        Seq::empty()
    } else {
        let w = words(s.drop_last());
        if is_ws(s.last()) {
            w
        } else if s.len() >= 2 && !is_ws(s[s.len() - 2]) && w.len() > 0 {
            w.update(w.len() - 1, w.last().push(s.last()))
        } else {
            w.push(seq![s.last()])
        }
    }
}

/// A log line split for display: time stamp, level, target and message.
pub struct LogParts {
    pub timestamp: String,
    pub level: String,
    pub target: String,
    pub message: String,
}

/// The words of `w` from index `i` on, joined by single spaces.
pub open spec fn join_words(w: Seq<Seq<char>>) -> Seq<char> {
    crate::text::join_seq(w, " "@)
}

/// The word at `i`, or empty.
pub open spec fn word_at(w: Seq<Seq<char>>, i: int) -> Seq<char> {
    if 0 <= i < w.len() { w[i] } else { Seq::empty() }
}

/// How a log line is split: its first word is the time stamp, the second the
/// level (uppercased), the third the target, and the remaining words, joined
/// by single spaces, the message.
pub open spec fn log_parts_spec(line: Seq<char>) -> (Seq<char>, Seq<char>, Seq<char>, Seq<char>) {
    let w = words(line);
    (
        word_at(w, 0),
        crate::text::upper_seq(word_at(w, 1)),
        word_at(w, 2),
        join_words(if w.len() > 3 { w.skip(3) } else { Seq::empty() }),
    )
}

/// The whitespace-separated words of `v`.
fn words_of(v: &[char]) -> (r: Vec<Vec<char>>)
    ensures
        views(r@) == words(v@),
{
    let mut r: Vec<Vec<char>> = Vec::new();
    for i in 0..v.len()
        invariant
            views(r@) == words(v@.take(i as int)),
    {
        let c = v[i];
        let ghost prev = views(r@);
        assert(v@.take(i + 1).drop_last() =~= v@.take(i as int));
        assert(v@.take(i + 1).last() == c);
        if is_whitespace(c) {
        } else if i >= 1 && !is_whitespace(v[i - 1]) && r.len() > 0 {
            assert(v@.take(i + 1)[i - 1] == v@[i - 1]);
            let last = r.len() - 1;
            let mut w = r.pop().unwrap();
            w.push(c);
            r.push(w);
            assert(views(r@) =~= prev.update(prev.len() - 1, prev.last().push(c)));
        } else {
            proof {
                if i >= 1 {
                    assert(v@.take(i + 1)[i - 1] == v@[i - 1]);
                }
            }
            let mut w: Vec<char> = Vec::new();
            w.push(c);
            r.push(w);
            assert(views(r@) =~= prev.push(seq![c]));
        }
    }
    assert(v@.take(v@.len() as int) =~= v@);
    r
}

/// Splits a log line for display.
pub fn split_log_line(line: &str) -> (r: LogParts)
    ensures
        (r.timestamp@, r.level@, r.target@, r.message@) == log_parts_spec(line@),
{
    let w = words_of(chars_of(line).as_slice());
    let ghost wv = views(w@);
    let ts = if w.len() > 0 { string_of(w[0].as_slice()) } else { String::new() };
    let level = if w.len() > 1 { string_of(crate::text::to_upper_chars(w[1].as_slice()).as_slice()) } else { String::new() };
    let target = if w.len() > 2 { string_of(w[2].as_slice()) } else { String::new() };
    let mut msg: Vec<char> = Vec::new();
    let mut i: usize = 3;
    assert(wv.len() > 3 ==> wv.skip(3).take(0) =~= Seq::<Seq<char>>::empty());
    while i < w.len()
        invariant
            wv == views(w@),
            3 <= i,
            i <= w@.len() || w@.len() <= 3,
            w@.len() > 3 ==> msg@ == join_words(wv.skip(3).take(i - 3)),
            w@.len() <= 3 ==> msg@.len() == 0,
        decreases w@.len() - i,
    {
        let ghost before = msg@;
        if i > 3 {
            msg.push(' ');
        }
        msg.extend_from_slice(w[i].as_slice());
        proof {
            let t = wv.skip(3).take(i + 1 - 3);
            assert(t.drop_last() =~= wv.skip(3).take(i - 3));
            assert(t.last() == w@[i as int]@);
            if i == 3 {
                assert(wv.skip(3).take(0) =~= Seq::<Seq<char>>::empty());
                assert(before.len() == 0);
                assert(msg@ =~= t[0]);
            } else {
                reveal_strlit(" ");
                assert(msg@ =~= join_words(t.drop_last()) + " "@ + t.last());
            }
        }
        i = i + 1;
    }
    proof {
        if wv.len() > 3 {
            assert(wv.skip(3).take(wv.len() - 3) =~= wv.skip(3));
        } else {
            assert(msg@ =~= join_words(Seq::<Seq<char>>::empty()));
        }
        if w@.len() > 0 { assert(wv[0] == w@[0]@); } else { assert(ts@ =~= Seq::<char>::empty()); }
        if w@.len() > 1 { assert(wv[1] == w@[1]@); } else { assert(level@ =~= crate::text::upper_seq(Seq::<char>::empty())); }
        if w@.len() > 2 { assert(wv[2] == w@[2]@); } else { assert(target@ =~= Seq::<char>::empty()); }
    }
    LogParts { timestamp: ts, level, target, message: string_of(msg.as_slice()) }
}

/// How a log level is coloured.
#[derive(Debug, Clone, Copy, PartialEq, Eq, Structural)]
pub enum LevelColor {
    Red,
    Yellow,
    Cyan,
    Gray,
    White,
}

/// The colour of an (uppercased) log level.
pub open spec fn level_color_spec(level: Seq<char>) -> LevelColor {
    if level == "ERROR"@ { LevelColor::Red }
    else if level == "WARN"@ { LevelColor::Yellow }
    else if level == "INFO"@ { LevelColor::Cyan }
    else if level == "DEBUG"@ || level == "TRACE"@ { LevelColor::Gray }
    else { LevelColor::White }
}

/// The colour of an (uppercased) log level.
pub fn level_color(level: &str) -> (c: LevelColor)
    ensures
        c == level_color_spec(level@),
{
    let v = chars_of(level);
    if crate::text::chars_eq_str(v.as_slice(), "ERROR") { LevelColor::Red }
    else if crate::text::chars_eq_str(v.as_slice(), "WARN") { LevelColor::Yellow }
    else if crate::text::chars_eq_str(v.as_slice(), "INFO") { LevelColor::Cyan }
    else if crate::text::chars_eq_str(v.as_slice(), "DEBUG") || crate::text::chars_eq_str(v.as_slice(), "TRACE") { LevelColor::Gray }
    else { LevelColor::White }
}

} // verus!
