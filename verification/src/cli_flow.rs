//! The decisions of the line-oriented console interface: what a typed line
//! asks for, which search result or update was picked, which download mode
//! and chapter range apply, and which chapters a download covers.

use crate::book_id::{opt_view, parse_book_id, parse_book_id_spec};
use crate::range::ChapterRange;
use crate::text::{
    all_ascii_digits, all_digits, chars_eq_str, chars_of, dec_string, eq_ignore_ascii_case, lower_seq,
    parse_unsigned, parse_unsigned_spec, split_chars, split_seq, string_of, to_lower_chars, trim_chars,
    trim_seq, u64_to_dec, views,
};
use vstd::prelude::*;

verus! {

/// What a line typed at the main prompt asks for.
#[derive(Debug, Clone, PartialEq, Eq)]
pub enum MainInput {
    /// A blank line: ask again.
    Empty,
    /// `q`: leave.
    Quit,
    /// `s`: the settings menu.
    Settings,
    /// `u` (in any case): the update menu.
    Updates,
    /// A book id, given directly or found in a link.
    BookId(String),
    /// Anything else: a title to search for.
    Search(String),
}

/// The view of a main-prompt request.
pub enum MainInputView {
    Empty,
    Quit,
    Settings,
    Updates,
    BookId(Seq<char>),
    Search(Seq<char>),
}

/// The view of a main-prompt request.
pub open spec fn main_input_view(m: MainInput) -> MainInputView {
    match m {
        MainInput::Empty => MainInputView::Empty,
        MainInput::Quit => MainInputView::Quit,
        MainInput::Settings => MainInputView::Settings,
        MainInput::Updates => MainInputView::Updates,
        MainInput::BookId(s) => MainInputView::BookId(s@),
        MainInput::Search(s) => MainInputView::Search(s@),
    }
}

/// What the main-prompt line `input` asks for: the commands `q`, `s` and `u`
/// in any case (so `U` opens the update menu too), then a book id read from
/// the text or a link, then a bare number as a book id, then a title search.
pub open spec fn main_input_spec(input: Seq<char>) -> MainInputView {
    let t = trim_seq(input);
    if t.len() == 0 {
        MainInputView::Empty
    } else if lower_seq(t) == lower_seq("q"@) {
        MainInputView::Quit
    } else if lower_seq(t) == lower_seq("s"@) {
        MainInputView::Settings
    } else if lower_seq(t) == lower_seq("u"@) {
        MainInputView::Updates
    } else {
        match parse_book_id_spec(t) {
            Some(id) => MainInputView::BookId(id),
            None => if all_digits(t) { MainInputView::BookId(t) } else { MainInputView::Search(t) },
        }
    }
}

/// Reads a line typed at the main prompt.
pub fn parse_main_input(input: &str) -> (r: MainInput)
    ensures
        main_input_view(r) == main_input_spec(input@),
{
    let tv = trim_chars(chars_of(input).as_slice());
    if tv.len() == 0 {
        return MainInput::Empty;
    }
    let t = string_of(tv.as_slice());
    if eq_ignore_ascii_case(t.as_str(), "q") {
        return MainInput::Quit;
    }
    if eq_ignore_ascii_case(t.as_str(), "s") {
        return MainInput::Settings;
    }
    if eq_ignore_ascii_case(t.as_str(), "u") {
        return MainInput::Updates;
    }
    proof {
        crate::text::lemma_trim_idempotent(input@);
    }
    match parse_book_id(t.as_str()) {
        Some(id) => MainInput::BookId(id),
        None => {
            let c = chars_of(t.as_str());
            if all_ascii_digits(c.as_slice()) {
                MainInput::BookId(t)
            } else {
                MainInput::Search(t)
            }
        },
    }
}

/// `s` without trailing `/` and `\`.
pub open spec fn trim_end_slashes(s: Seq<char>) -> Seq<char>
    decreases s.len(),
{
    if s.len() > 0 && (s.last() == '/' || s.last() == '\\') {
        trim_end_slashes(s.drop_last())
    } else {
        s
    }
}

/// The save directory typed after a book was chosen: none for a blank line,
/// otherwise the trimmed text without trailing path separators.
pub open spec fn save_dir_spec(input: Seq<char>) -> Option<Seq<char>> {
    let t = trim_seq(input);
    if t.len() == 0 { None } else { Some(trim_end_slashes(t)) }
}

/// Reads the save directory typed after a book was chosen.
pub fn save_dir_choice(input: &str) -> (r: Option<String>)
    ensures
        opt_view(r) == save_dir_spec(input@),
{
    let t = trim_chars(chars_of(input).as_slice());
    if t.len() == 0 {
        return None;
    }
    let mut n = t.len();
    assert(t@.take(t@.len() as int) =~= t@);
    while n > 0 && (t[n - 1] == '/' || t[n - 1] == '\\')
        invariant
            n <= t@.len(),
            trim_end_slashes(t@.take(n as int)) == trim_end_slashes(t@),
        decreases n,
    {
        assert(t@.take(n as int).drop_last() =~= t@.take(n - 1));
        n = n - 1;
    }
    assert(n > 0 ==> t@.take(n as int).last() == t@[n - 1]);
    let mut out: Vec<char> = Vec::new();
    for i in 0..n
        invariant
            n <= t@.len(),
            out@ == t@.take(i as int),
    {
        out.push(t[i]);
        assert(t@.take(i as int).push(t@[i as int]) =~= t@.take(i + 1));
    }
    Some(string_of(out.as_slice()))
}

/// What was typed at the search-results prompt.
#[derive(Debug, Clone, PartialEq, Eq)]
pub enum SearchPick {
    /// `0` or `q`: cancelled.
    Cancel,
    /// Not a listed number: cancelled with a notice.
    Invalid,
    /// The book id of the chosen result.
    Pick(String),
}

/// The meaning of `input` at a prompt listing `ids` (numbered from 1): the
/// chosen id, a cancellation, or an invalid choice.
pub open spec fn search_pick_spec(input: Seq<char>, ids: Seq<Seq<char>>) -> Option<Option<Seq<char>>> {
    let t = trim_seq(input);
    if t == "0"@ || lower_seq(t) == lower_seq("q"@) {
        Some(None)
    } else {
        match parse_unsigned_spec(t, usize::MAX as nat) {
            Some(n) => if 1 <= n <= ids.len() { Some(Some(ids[n - 1])) } else { None },
            None => None,
        }
    }
}

/// The view of a search pick: `Some(None)` a cancellation, `None` an invalid
/// choice.
pub open spec fn search_pick_view(p: SearchPick) -> Option<Option<Seq<char>>> {
    match p {
        SearchPick::Cancel => Some(None),
        SearchPick::Invalid => None,
        SearchPick::Pick(s) => Some(Some(s@)),
    }
}

/// Picks a search result by the number typed at the prompt.
pub fn search_and_pick(input: &str, ids: &[String]) -> (r: SearchPick)
    ensures
        search_pick_view(r) == search_pick_spec(input@, ids@.map_values(|s: String| s@)),
{
    let t = trim_chars(chars_of(input).as_slice());
    let ts = string_of(t.as_slice());
    if chars_eq_str(t.as_slice(), "0") || eq_ignore_ascii_case(ts.as_str(), "q") {
        return SearchPick::Cancel;
    }
    match parse_unsigned(t.as_slice(), usize::MAX as u64) {
        Some(n) => {
            if n >= 1 && n <= ids.len() as u64 {
                let idx = (n - 1) as usize;
                let id = string_of(chars_of(ids[idx].as_str()).as_slice());
                SearchPick::Pick(id)
            } else {
                SearchPick::Invalid
            }
        },
        None => SearchPick::Invalid,
    }
}

/// How a book with a download history is downloaded.
#[derive(Debug, Clone, Copy, PartialEq, Eq, Structural)]
pub enum DownloadMode {
    Resume,
    Full,
    FailedOnly,
    RangeIgnoreHistory,
    RangeOrAll,
    Cancel,
}

/// The mode chosen at the download-mode prompt: `1` or blank resumes, `2`
/// downloads everything again, `3` (offered only when chapters failed)
/// retries the failed ones, `4` downloads a range ignoring the history,
/// `q` cancels; anything else resumes.
pub open spec fn download_mode_spec(input: Seq<char>, has_failed: bool) -> DownloadMode {
    let s = lower_seq(trim_seq(input));
    if s.len() == 0 || s == "1"@ {
        DownloadMode::Resume
    } else if s == "2"@ {
        DownloadMode::Full
    } else if s == "3"@ && has_failed {
        DownloadMode::FailedOnly
    } else if s == "4"@ {
        DownloadMode::RangeIgnoreHistory
    } else if s == "q"@ {
        DownloadMode::Cancel
    } else {
        DownloadMode::Resume
    }
}

/// The download-mode prompt reads as its menu says, whatever surrounds the
/// answer in spaces and in any ASCII case: a blank answer and `1` continue
/// the unfinished chapters; `2` downloads everything again; `3` retries the
/// failed chapters when some failed (and otherwise continues); `4`
/// downloads a range ignoring the history; `q` cancels.
pub proof fn lemma_download_mode_menu(input: Seq<char>, has_failed: bool)
    ensures
        trim_seq(input).len() == 0 ==> download_mode_spec(input, has_failed) == DownloadMode::Resume,
        lower_seq(trim_seq(input)) == "1"@ ==> download_mode_spec(input, has_failed) == DownloadMode::Resume,
        lower_seq(trim_seq(input)) == "2"@ ==> download_mode_spec(input, has_failed) == DownloadMode::Full,
        lower_seq(trim_seq(input)) == "3"@ ==> download_mode_spec(input, has_failed)
            == (if has_failed { DownloadMode::FailedOnly } else { DownloadMode::Resume }),
        lower_seq(trim_seq(input)) == "4"@ ==> download_mode_spec(input, has_failed) == DownloadMode::RangeIgnoreHistory,
        lower_seq(trim_seq(input)) == "q"@ ==> download_mode_spec(input, has_failed) == DownloadMode::Cancel,
{
    reveal_strlit("1");
    reveal_strlit("2");
    reveal_strlit("3");
    reveal_strlit("4");
    reveal_strlit("q");
    let l = lower_seq(trim_seq(input));
    if trim_seq(input).len() == 0 {
        assert(l.len() == 0);
    }
    if l == "2"@ || l == "3"@ || l == "4"@ || l == "q"@ {
        assert(l.len() == 1 && l[0] != '1');
        assert(l != "1"@);
    }
    if l == "3"@ || l == "4"@ || l == "q"@ {
        assert(l[0] != '2');
        assert(l != "2"@);
    }
    if l == "4"@ || l == "q"@ {
        assert(l[0] != '3');
        assert(l != "3"@);
    }
    if l == "q"@ {
        assert(l[0] != '4');
        assert(l != "4"@);
    }
}

/// Reads the download-mode prompt.
pub fn select_download_mode(input: &str, has_failed: bool) -> (m: DownloadMode)
    ensures
        m == download_mode_spec(input@, has_failed),
{
    let s = to_lower_chars(trim_chars(chars_of(input).as_slice()).as_slice());
    if s.len() == 0 || chars_eq_str(s.as_slice(), "1") {
        DownloadMode::Resume
    } else if chars_eq_str(s.as_slice(), "2") {
        DownloadMode::Full
    } else if chars_eq_str(s.as_slice(), "3") && has_failed {
        DownloadMode::FailedOnly
    } else if chars_eq_str(s.as_slice(), "4") {
        DownloadMode::RangeIgnoreHistory
    } else if chars_eq_str(s.as_slice(), "q") {
        DownloadMode::Cancel
    } else {
        DownloadMode::Resume
    }
}

/// The mode used before any prompt: a book with downloaded or failed
/// chapters asks (`None`); a fresh book downloads a range or everything.
pub fn initial_download_mode(downloaded_ok: usize, failed: usize) -> (m: Option<DownloadMode>)
    ensures
        m == if downloaded_ok > 0 || failed > 0 { None } else { Some(DownloadMode::RangeOrAll) },
{
    if downloaded_ok > 0 || failed > 0 { None } else { Some(DownloadMode::RangeOrAll) }
}

/// What the chapter-range prompt (`a~b`) gave.
#[derive(Debug, Clone, Copy, PartialEq, Eq, Structural)]
pub enum RangeAnswer {
    /// Blank: all chapters.
    All,
    /// No `~`: all chapters, with a notice.
    FormatError,
    /// A side is not a number: all chapters, with a notice.
    ParseError,
    /// A range, clamped into the catalogue and put in order.
    Range(ChapterRange),
}

/// `v` clamped into `1..=total` (with `total` 0 counting as 1), after 0 is
/// read as 1.
pub open spec fn clamp_chapter(v: nat, total: nat) -> nat {
    let v1 = if v == 0 { 1 } else { v };
    let m = if v1 < total { v1 } else { total };
    if m < 1 { 1 } else { m }
}

/// The first `~` splits the text; none means no split.
pub open spec fn split_once_tilde(t: Seq<char>) -> Option<(Seq<char>, Seq<char>)> {
    let parts = split_seq(t, seq!['~']);
    if parts.len() < 2 {
        None
    } else {
        let a = parts[0];
        Some((a, t.skip((a.len() + 1) as int)))
    }
}

/// What the range prompt answer `input` means for a book of `total` chapters.
pub open spec fn range_answer_spec(input: Seq<char>, total: nat) -> RangeAnswer {
    let t = trim_seq(input);
    if t.len() == 0 {
        RangeAnswer::All
    } else {
        match split_once_tilde(t) {
            None => RangeAnswer::FormatError,
            Some((a, b)) => match (
                parse_unsigned_spec(trim_seq(a), usize::MAX as nat),
                parse_unsigned_spec(trim_seq(b), usize::MAX as nat),
            ) {
                (Some(s), Some(e)) => {
                    let s1 = clamp_chapter(s, total);
                    let e1 = clamp_chapter(e, total);
                    if s1 > e1 {
                        RangeAnswer::Range(ChapterRange { start: e1 as usize, end: s1 as usize })
                    } else {
                        RangeAnswer::Range(ChapterRange { start: s1 as usize, end: e1 as usize })
                    }
                },
                _ => RangeAnswer::ParseError,
            },
        }
    }
}

/// `v` clamped into the catalogue.
fn clamp_to_total(v: usize, total: usize) -> (r: usize)
    ensures
        r as nat == clamp_chapter(v as nat, total as nat),
{
    let v1 = if v == 0 { 1 } else { v };
    let m = if v1 < total { v1 } else { total };
    if m < 1 { 1 } else { m }
}

/// Reads the chapter-range prompt for a book of `total` chapters.
pub fn prompt_range(input: &str, total: usize) -> (r: RangeAnswer)
    ensures
        r == range_answer_spec(input@, total as nat),
{
    let t = trim_chars(chars_of(input).as_slice());
    if t.len() == 0 {
        return RangeAnswer::All;
    }
    let parts = split_chars(t.as_slice(), &['~']);
    assert((&['~'])@ =~= seq!['~']);
    proof {
        crate::text::lemma_split_nonempty(t@, seq!['~']);
    }
    if parts.len() < 2 {
        return RangeAnswer::FormatError;
    }
    assert(views(parts@)[0] == parts@[0]@);
    let a_len = parts[0].len();
    proof {
        lemma_first_piece_prefix(t@, seq!['~']);
    }
    let mut b: Vec<char> = Vec::new();
    let mut i = a_len + 1;
    while i < t.len()
        invariant
            a_len + 1 <= i <= t@.len() || (i == a_len + 1 && a_len + 1 > t@.len()),
            b@ == t@.subrange(a_len + 1, i as int),
        decreases t@.len() - i,
    {
        b.push(t[i]);
        assert(t@.subrange(a_len + 1, i as int).push(t@[i as int]) =~= t@.subrange(a_len + 1, i + 1));
        i = i + 1;
    }
    assert(b@ =~= t@.skip(a_len + 1));
    let a = trim_chars(parts[0].as_slice());
    let bt = trim_chars(b.as_slice());
    let s = match parse_unsigned(a.as_slice(), usize::MAX as u64) {
        Some(v) => v as usize,
        None => return RangeAnswer::ParseError,
    };
    let e = match parse_unsigned(bt.as_slice(), usize::MAX as u64) {
        Some(v) => v as usize,
        None => return RangeAnswer::ParseError,
    };
    let s1 = clamp_to_total(s, total);
    let e1 = clamp_to_total(e, total);
    if s1 > e1 {
        RangeAnswer::Range(ChapterRange { start: e1, end: s1 })
    } else {
        RangeAnswer::Range(ChapterRange { start: s1, end: e1 })
    }
}

/// When the text contains a separator, the first piece is followed by that
/// separator in the text.
pub proof fn lemma_first_piece_prefix(s: Seq<char>, seps: Seq<char>)
    ensures
        split_seq(s, seps).len() >= 1,
        split_seq(s, seps)[0].len() <= s.len(),
        s.take(split_seq(s, seps)[0].len() as int) == split_seq(s, seps)[0],
        split_seq(s, seps).len() >= 2 ==> split_seq(s, seps)[0].len() < s.len()
            && seps.contains(s[split_seq(s, seps)[0].len() as int]),
    decreases s.len(),
{
    crate::text::lemma_split_nonempty(s, seps);
    if s.len() == 0 {
        assert(s.take(0) =~= Seq::<char>::empty());
    } else {
        let p = split_seq(s.drop_last(), seps);
        lemma_first_piece_prefix(s.drop_last(), seps);
        crate::text::lemma_split_nonempty(s.drop_last(), seps);
        let a = p[0];
        assert(s.drop_last().take(a.len() as int) =~= s.take(a.len() as int));
        if seps.contains(s.last()) {
            assert(split_seq(s, seps) == p.push(Seq::<char>::empty()));
            if p.len() == 1 {
                assert(a.len() == s.drop_last().len()) by {
                    lemma_single_piece_whole(s.drop_last(), seps);
                }
                assert(s[a.len() as int] == s.last());
            }
        } else {
            if p.len() == 1 {
                lemma_single_piece_whole(s.drop_last(), seps);
                assert(split_seq(s, seps)[0] == a.push(s.last()));
                assert(s.take((a.len() + 1) as int) =~= a.push(s.last()));
            } else {
                assert(split_seq(s, seps)[0] == a);
            }
        }
    }
}

/// A text that splits into one piece is that piece.
pub proof fn lemma_single_piece_whole(s: Seq<char>, seps: Seq<char>)
    requires
        split_seq(s, seps).len() == 1,
    ensures
        split_seq(s, seps)[0] == s,
    decreases s.len(),
{
    if s.len() == 0 {
    } else {
        crate::text::lemma_split_nonempty(s.drop_last(), seps);
        let p = split_seq(s.drop_last(), seps);
        if seps.contains(s.last()) {
            assert(split_seq(s, seps).len() == p.len() + 1);
        } else {
            lemma_single_piece_whole(s.drop_last(), seps);
            assert(s =~= s.drop_last().push(s.last()));
        }
    }
}

/// A chapter of a book's catalogue.
#[derive(Debug)]
pub struct ChapterRef {
    pub id: String,
    pub title: String,
}

/// A chapter as its id and title.
pub open spec fn chapter_view(c: ChapterRef) -> (Seq<char>, Seq<char>) {
    (c.id@, c.title@)
}

/// Chapters as ids and titles.
pub open spec fn chapters_view(v: Seq<ChapterRef>) -> Seq<(Seq<char>, Seq<char>)> {
    v.map_values(|c: ChapterRef| chapter_view(c))
}

/// A copy of a chapter.
pub fn copy_chapter(c: &ChapterRef) -> (r: ChapterRef)
    ensures
        chapter_view(r) == chapter_view(*c),
{
    ChapterRef {
        id: string_of(chars_of(c.id.as_str()).as_slice()),
        title: string_of(chars_of(c.title.as_str()).as_slice()),
    }
}

/// The chapters a range selects from a catalogue of `len` chapters, as the
/// index bounds `[from, to)`: all of them without a range; none for a range
/// starting at 0, running backwards, or starting past the end; otherwise
/// from the start chapter to the end chapter, clamped to the catalogue.
pub open spec fn range_bounds(len: nat, range: Option<ChapterRange>) -> (int, int) {
    match range {
        None => (0, len as int),
        Some(r) => if r.start == 0 || r.start > r.end || r.start - 1 >= len {
            (0, 0)
        } else {
            let end = if r.end < len { r.end as int } else { len as int };
            (r.start - 1, end)
        },
    }
}

/// The chapters of `chapters` that `range` selects.
pub fn apply_range(chapters: &[ChapterRef], range: Option<ChapterRange>) -> (r: Vec<ChapterRef>)
    ensures
        chapters_view(r@) == chapters_view(chapters@).subrange(
            range_bounds(chapters@.len(), range).0,
            range_bounds(chapters@.len(), range).1,
        ),
{
    let len = chapters.len();
    let (from, to): (usize, usize) = match range {
        None => (0, len),
        Some(r) => {
            if r.start == 0 || r.start > r.end || r.start - 1 >= len {
                (0, 0)
            } else {
                (r.start - 1, if r.end < len { r.end } else { len })
            }
        },
    };
    let mut out: Vec<ChapterRef> = Vec::new();
    let mut i = from;
    while i < to
        invariant
            from <= i <= to <= chapters@.len(),
            chapters_view(out@) == chapters_view(chapters@).subrange(from as int, i as int),
        decreases to - i,
    {
        let c = copy_chapter(&chapters[i]);
        let ghost prev = out@;
        let ghost cv = chapter_view(c);
        out.push(c);
        assert(out@ == prev.push(c));
        assert(chapters_view(out@) =~= chapters_view(prev).push(cv));
        assert(cv == chapters_view(chapters@)[i as int]);
        assert(chapters_view(out@) =~= chapters_view(chapters@).subrange(from as int, i + 1));
        i = i + 1;
    }
    out
}

/// What the download history says of a chapter.
#[derive(Debug, Clone, Copy, PartialEq, Eq, Structural)]
pub enum ChapterState {
    /// Downloaded with content.
    Downloaded,
    /// Recorded without content: the download failed.
    Failed,
    /// Not recorded.
    Missing,
}

/// How many of `states` are `s`.
pub open spec fn count_state(states: Seq<ChapterState>, s: ChapterState) -> nat
    decreases states.len(),
{
    if states.len() == 0 {
        0
    } else {
        count_state(states.drop_last(), s) + if states.last() == s { 1nat } else { 0nat }
    }
}

/// The numbers of downloaded and of failed chapters.
pub fn count_download_state(states: &[ChapterState]) -> (r: (usize, usize))
    ensures
        r.0 == count_state(states@, ChapterState::Downloaded),
        r.1 == count_state(states@, ChapterState::Failed),
{
    let mut ok: usize = 0;
    let mut failed: usize = 0;
    for i in 0..states.len()
        invariant
            ok == count_state(states@.take(i as int), ChapterState::Downloaded),
            failed == count_state(states@.take(i as int), ChapterState::Failed),
            ok <= i,
            failed <= i,
    {
        assert(states@.take((i + 1) as int).drop_last() =~= states@.take(i as int));
        proof {
            lemma_count_le(states@.take((i + 1) as int), ChapterState::Downloaded);
            lemma_count_le(states@.take((i + 1) as int), ChapterState::Failed);
        }
        match states[i] {
            ChapterState::Downloaded => ok = ok + 1,
            ChapterState::Failed => failed = failed + 1,
            ChapterState::Missing => {},
        }
    }
    assert(states@.take(states@.len() as int) =~= states@);
    (ok, failed)
}

/// A count never exceeds the length.
pub proof fn lemma_count_le(states: Seq<ChapterState>, s: ChapterState)
    ensures
        count_state(states, s) <= states.len(),
    decreases states.len(),
{
    if states.len() > 0 {
        lemma_count_le(states.drop_last(), s);
    }
}

/// Whether the answer to "retry the failed chapters? [Y/n]" retries: any
/// answer but `n` (in any case, trimmed) does.
pub open spec fn retry_spec(answer: Seq<char>) -> bool {
    lower_seq(trim_seq(answer)) != "n"@
}

/// Failed chapters are retried unless the answer is `n` (in any case, with
/// spaces around): a blank answer, `y` and `yes` retry.
pub proof fn lemma_retry_answers(answer: Seq<char>)
    ensures
        lower_seq(trim_seq(answer)) == "n"@ ==> !retry_spec(answer),
        (trim_seq(answer).len() == 0 || lower_seq(trim_seq(answer)) == "y"@ || lower_seq(trim_seq(answer)) == "yes"@)
            ==> retry_spec(answer),
{
    reveal_strlit("n");
    reveal_strlit("y");
    reveal_strlit("yes");
    let l = lower_seq(trim_seq(answer));
    if trim_seq(answer).len() == 0 {
        assert(l.len() == 0);
    }
    if l == "y"@ || l == "yes"@ {
        assert(l[0] == 'y');
    }
}

/// Reads the retry prompt.
pub fn retry_failed(answer: &str) -> (b: bool)
    ensures
        b == retry_spec(answer@),
{
    let s = to_lower_chars(trim_chars(chars_of(answer).as_slice()).as_slice());
    !chars_eq_str(s.as_slice(), "n")
}

/// A description shortened for the book summary: at most fifty characters,
/// followed by `...` when it was longer.
pub open spec fn short_description_spec(desc: Seq<char>) -> Seq<char> {
    if desc.len() > 50 { desc.take(50) + "..."@ } else { desc }
}

/// The description shown in the book summary.
pub fn short_description(desc: &str) -> (s: String)
    ensures
        s@ == short_description_spec(desc@),
{
    let v = chars_of(desc);
    if v.len() > 50 {
        let mut out: Vec<char> = Vec::new();
        for i in 0..50
            invariant
                v@.len() > 50,
                out@ == v@.take(i as int),
        {
            out.push(v[i]);
            assert(v@.take(i as int).push(v@[i as int]) =~= v@.take(i + 1));
        }
        out.extend_from_slice(chars_of("...").as_slice());
        string_of(out.as_slice())
    } else {
        string_of(v.as_slice())
    }
}


/// What a download mode asks of the console download: whether it stops
/// (clearing the status folder), forgets the downloaded chapters first,
/// asks for a chapter range, or fetches only the failed chapters.
#[derive(Debug, Clone, Copy, PartialEq, Eq, Structural)]
pub struct ModePlan {
    pub cancel: bool,
    pub clear_history: bool,
    pub ask_range: bool,
    pub failed_only: bool,
}

/// The steps of each mode: "cancel" stops; "full" forgets the history;
/// "range ignoring history" forgets it and asks for a range; "range or
/// all" asks for a range; "failed only" fetches the failed chapters;
/// "resume" fetches what is missing.
pub open spec fn mode_plan_spec(mode: DownloadMode) -> ModePlan {
    match mode {
        DownloadMode::Cancel => ModePlan { cancel: true, clear_history: false, ask_range: false, failed_only: false },
        DownloadMode::Full => ModePlan { cancel: false, clear_history: true, ask_range: false, failed_only: false },
        DownloadMode::RangeIgnoreHistory => ModePlan { cancel: false, clear_history: true, ask_range: true, failed_only: false },
        DownloadMode::RangeOrAll => ModePlan { cancel: false, clear_history: false, ask_range: true, failed_only: false },
        DownloadMode::FailedOnly => ModePlan { cancel: false, clear_history: false, ask_range: false, failed_only: true },
        DownloadMode::Resume => ModePlan { cancel: false, clear_history: false, ask_range: false, failed_only: false },
    }
}

/// The steps a download mode asks for.
pub fn mode_plan(mode: DownloadMode) -> (p: ModePlan)
    ensures
        p == mode_plan_spec(mode),
{
    match mode {
        DownloadMode::Cancel => ModePlan { cancel: true, clear_history: false, ask_range: false, failed_only: false },
        DownloadMode::Full => ModePlan { cancel: false, clear_history: true, ask_range: false, failed_only: false },
        DownloadMode::RangeIgnoreHistory => ModePlan { cancel: false, clear_history: true, ask_range: true, failed_only: false },
        DownloadMode::RangeOrAll => ModePlan { cancel: false, clear_history: false, ask_range: true, failed_only: false },
        DownloadMode::FailedOnly => ModePlan { cancel: false, clear_history: false, ask_range: false, failed_only: true },
        DownloadMode::Resume => ModePlan { cancel: false, clear_history: false, ask_range: false, failed_only: false },
    }
}

/// What the console shows of a book before downloading it.
#[derive(Debug)]
pub struct BookSummary {
    pub book_id: String,
    pub name: Option<String>,
    pub author: Option<String>,
    pub finished: Option<bool>,
    pub chapter_count: Option<usize>,
    pub tags: Vec<String>,
    pub description: Option<String>,
}

/// `label` and the value, when there is one.
pub open spec fn line_if(label: Seq<char>, v: Option<String>) -> Seq<Seq<char>> {
    match v {
        Some(s) => seq![label + s@],
        None => Seq::<Seq<char>>::empty(),
    }
}

/// The lines of the book summary: the name (the id when the book has
/// none) after an empty line, then the author, whether it is finished, the
/// chapter count, the tags joined by "|", and the description shortened to
/// fifty characters, each when known.
pub open spec fn summary_view(b: BookSummary) -> Seq<Seq<char>> {
    seq!["\n书名: "@ + (match b.name { Some(n) => n@, None => b.book_id@ })]
        + line_if("作者: "@, b.author)
        + (match b.finished { Some(f) => seq!["是否完结: "@ + (if f { "完结"@ } else { "连载"@ })], None => Seq::<Seq<char>>::empty() })
        + (match b.chapter_count { Some(c) => seq!["章节数: "@ + dec_string(c as nat)], None => Seq::<Seq<char>>::empty() })
        + (if b.tags@.len() > 0 { seq!["标签: "@ + crate::text::join_seq(crate::text::strings_view(b.tags@), "|"@)] } else { Seq::<Seq<char>>::empty() })
        + (match b.description { Some(d) => seq!["简介: "@ + short_description_spec(d@)], None => Seq::<Seq<char>>::empty() })
}

/// `label` followed by `value`.
fn labelled_line(label: &str, value: &str) -> (s: String)
    ensures
        s@ == label@ + value@,
{
    let mut v = chars_of(label);
    v.extend_from_slice(chars_of(value).as_slice());
    string_of(v.as_slice())
}

/// The book summary printed before a console download.
#[verifier::rlimit(40)]
pub fn summary_lines(b: &BookSummary) -> (r: Vec<String>)
    ensures
        crate::text::strings_view(r@) == summary_view(*b),
{
    let mut r: Vec<String> = Vec::new();
    let name = match &b.name {
        Some(n) => n.as_str(),
        None => b.book_id.as_str(),
    };
    r.push(labelled_line("\n书名: ", name));
    let ghost r0 = crate::text::strings_view(r@);
    match &b.author {
        Some(a) => r.push(labelled_line("作者: ", a.as_str())),
        None => {},
    }
    let ghost r1 = crate::text::strings_view(r@);
    assert(r1 =~= r0 + line_if("作者: "@, b.author));
    match b.finished {
        Some(f) => r.push(labelled_line("是否完结: ", if f { "完结" } else { "连载" })),
        None => {},
    }
    let ghost r2 = crate::text::strings_view(r@);
    assert(r2 =~= r1 + (match b.finished { Some(f) => seq!["是否完结: "@ + (if f { "完结"@ } else { "连载"@ })], None => Seq::<Seq<char>>::empty() }));
    match b.chapter_count {
        Some(c) => {
            let mut v = chars_of("章节数: ");
            push_number(&mut v, c);
            r.push(string_of(v.as_slice()));
        },
        None => {},
    }
    let ghost r3 = crate::text::strings_view(r@);
    assert(r3 =~= r2 + (match b.chapter_count { Some(c) => seq!["章节数: "@ + dec_string(c as nat)], None => Seq::<Seq<char>>::empty() }));
    if b.tags.len() > 0 {
        let joined = crate::text::join_strings(b.tags.as_slice(), "|");
        r.push(labelled_line("标签: ", joined.as_str()));
    }
    let ghost r4 = crate::text::strings_view(r@);
    assert(r4 =~= r3 + (if b.tags@.len() > 0 { seq!["标签: "@ + crate::text::join_seq(crate::text::strings_view(b.tags@), "|"@)] } else { Seq::<Seq<char>>::empty() }));
    match &b.description {
        Some(d) => {
            let short = short_description(d.as_str());
            r.push(labelled_line("简介: ", short.as_str()));
        },
        None => {},
    }
    assert(crate::text::strings_view(r@) =~= r4 + (match b.description { Some(d) => seq!["简介: "@ + short_description_spec(d@)], None => Seq::<Seq<char>>::empty() }));
    r
}

/// The decimal digits of `n` appended to `v`.
fn push_number(v: &mut Vec<char>, n: usize)
    ensures
        final(v)@ == old(v)@ + dec_string(n as nat),
{
    v.extend_from_slice(u64_to_dec(n as u64).as_slice());
}

/// The count line shown before the mode prompt.
pub fn chapter_counts_line(total: usize, failed: usize, downloaded_ok: usize) -> (s: String)
    ensures
        s@ == "共发现 "@ + dec_string(total as nat) + " 章，下载失败 "@ + dec_string(failed as nat) + " 章，已下载 "@
            + dec_string(downloaded_ok as nat) + " 章"@,
{
    let mut v = chars_of("共发现 ");
    push_number(&mut v, total);
    v.extend_from_slice(chars_of(" 章，下载失败 ").as_slice());
    push_number(&mut v, failed);
    v.extend_from_slice(chars_of(" 章，已下载 ").as_slice());
    push_number(&mut v, downloaded_ok);
    v.extend_from_slice(chars_of(" 章").as_slice());
    string_of(v.as_slice())
}

/// The line shown when resuming: the chapters left and those of the chosen
/// range already done.
pub fn resume_line(pending: usize, chosen: usize) -> (s: String)
    ensures
        s@ == "继续下载剩余章节: "@ + dec_string(pending as nat) + " 章 (已完成 "@
            + dec_string((if chosen >= pending { chosen - pending } else { 0 }) as nat) + ")"@,
{
    let mut v = chars_of("继续下载剩余章节: ");
    push_number(&mut v, pending);
    v.extend_from_slice(chars_of(" 章 (已完成 ").as_slice());
    push_number(&mut v, chosen.saturating_sub(pending));
    v.extend_from_slice(chars_of(")").as_slice());
    string_of(v.as_slice())
}

/// The line reporting one pass of a download.
pub fn stage_line(success: usize, failed: usize, canceled: usize) -> (s: String)
    ensures
        s@ == "\n下载完成（阶段）成功: "@ + dec_string(success as nat) + " 章 | 失败: "@ + dec_string(failed as nat)
            + " 章 | 取消: "@ + dec_string(canceled as nat) + " 章"@,
{
    let mut v = chars_of("\n下载完成（阶段）成功: ");
    push_number(&mut v, success);
    v.extend_from_slice(chars_of(" 章 | 失败: ").as_slice());
    push_number(&mut v, failed);
    v.extend_from_slice(chars_of(" 章 | 取消: ").as_slice());
    push_number(&mut v, canceled);
    v.extend_from_slice(chars_of(" 章").as_slice());
    string_of(v.as_slice())
}

/// Whatever the mode, the console download never both stops and fetches:
/// a cancelled download forgets nothing, asks nothing and retries nothing,
/// and only the two "from scratch" modes forget the downloaded chapters.
pub proof fn lemma_cancel_does_nothing_else(mode: DownloadMode)
    ensures
        mode_plan_spec(mode).cancel ==> !mode_plan_spec(mode).clear_history && !mode_plan_spec(mode).ask_range
            && !mode_plan_spec(mode).failed_only,
        mode_plan_spec(mode).clear_history <==> (mode == DownloadMode::Full || mode == DownloadMode::RangeIgnoreHistory),
{
}

/// A range accepted by the chapter-range box lies in the catalogue and
/// selects exactly the chapters from its start to its end.
pub proof fn lemma_parsed_range_selects(input: Seq<char>, total: nat, s: nat, e: nat)
    requires
        crate::range::parse_range_spec(input, total) == Ok::<Option<(nat, nat)>, crate::range::RangeError>(Some((s, e))),
        total <= usize::MAX,
    ensures
        1 <= s <= e <= total,
        range_bounds(total, Some(ChapterRange { start: s as usize, end: e as usize })) == (s - 1, e as int),
{
}

/// The range read from the "a~b" prompt lies in the catalogue (of at least
/// one chapter) and selects the chapters from its start to its end.
pub proof fn lemma_prompt_range_selects(input: Seq<char>, total: usize, r: ChapterRange)
    requires
        range_answer_spec(input, total as nat) == RangeAnswer::Range(r),
        total >= 1,
    ensures
        1 <= r.start <= r.end <= total,
        range_bounds(total as nat, Some(r)) == (r.start - 1, r.end as int),
{
}

} // verus!
