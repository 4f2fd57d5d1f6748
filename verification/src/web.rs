//! Request rules of the web interface: what a download request must hold,
//! the chapter range a job downloads, the download header of a file, the
//! listening addresses, and the detail lines of a history record.

use crate::book_id::{opt_view, parse_book_id, parse_book_id_spec};
use crate::range::ChapterRange;
use crate::text::{
    chars_of, list_spec, parse_list, split_seq, string_of, strings_view, trim_seq, starts_with,
};
use vstd::prelude::*;

verus! {

/// Why a download request was refused (answered with "bad request").
#[derive(Debug, Clone, Copy, PartialEq, Eq, Structural)]
pub enum JobRequestError {
    /// No book id could be read from the request.
    BadBookId,
    /// A range bound is 0, or the start is after the end.
    BadRange,
    /// Only one of the two range bounds was given.
    HalfRange,
}

/// The book id and the range bounds a download request is accepted with,
/// or why it is refused: the book id is read from the text or a link; the
/// range needs both bounds, each at least 1, in order.
pub open spec fn job_request_spec(book_id: Seq<char>, start: Option<usize>, end: Option<usize>) -> Result<Seq<char>, JobRequestError> {
    match parse_book_id_spec(book_id) {
        None => Err(JobRequestError::BadBookId),
        Some(id) => if id.len() == 0 {
            Err(JobRequestError::BadBookId)
        } else {
            match (start, end) {
                (Some(s), Some(e)) => if s < 1 || e < 1 || s > e { Err(JobRequestError::BadRange) } else { Ok(id) },
                (None, None) => Ok(id),
                _ => Err(JobRequestError::HalfRange),
            }
        },
    }
}

/// Checks a download request; on success, the book id to download.
pub fn validate_create_job(book_id: &str, range_start: Option<usize>, range_end: Option<usize>) -> (r: Result<String, JobRequestError>)
    ensures
        match r {
            Ok(id) => job_request_spec(book_id@, range_start, range_end) == Ok::<Seq<char>, JobRequestError>(id@),
            Err(e) => job_request_spec(book_id@, range_start, range_end) == Err::<Seq<char>, JobRequestError>(e),
        },
{
    let id = match parse_book_id(book_id) {
        Some(id) => id,
        None => return Err(JobRequestError::BadBookId),
    };
    let idc = chars_of(id.as_str());
    if idc.len() == 0 {
        return Err(JobRequestError::BadBookId);
    }
    match (range_start, range_end) {
        (Some(s), Some(e)) => {
            if s < 1 || e < 1 || s > e {
                return Err(JobRequestError::BadRange);
            }
        },
        (None, None) => {},
        _ => return Err(JobRequestError::HalfRange),
    }
    Ok(id)
}

/// The chapter range a job downloads from a catalogue of `total` chapters:
/// the requested one when both bounds are given, at least 1, in order and
/// within the catalogue; otherwise all chapters (`None`).
pub open spec fn job_range_spec(start: Option<usize>, end: Option<usize>, total: usize) -> Option<ChapterRange> {
    match (start, end) {
        (Some(s), Some(e)) => if s >= 1 && e >= 1 && s <= e && e <= total {
            Some(ChapterRange { start: s, end: e })
        } else {
            None
        },
        _ => None,
    }
}

/// The chapter range a job downloads.
pub fn job_chapter_range(range_start: Option<usize>, range_end: Option<usize>, total: usize) -> (r: Option<ChapterRange>)
    ensures
        r == job_range_spec(range_start, range_end, total),
{
    match (range_start, range_end) {
        (Some(s), Some(e)) => {
            if s >= 1 && e >= 1 && s <= e && e <= total {
                Some(ChapterRange { start: s, end: e })
            } else {
                None
            }
        },
        _ => None,
    }
}

/// Whether the user is asked to choose the book's file name: only when
/// there is more than one candidate.
pub fn needs_book_name_choice(n_options: usize) -> (b: bool)
    ensures
        b == (n_options > 1),
{
    n_options > 1
}

/// The state a finished job is left in.
#[derive(Debug, Clone, Copy, PartialEq, Eq, Structural)]
pub enum JobEnd {
    Done,
    Canceled,
    Failed,
}

/// How a job ends: done when the download succeeded; otherwise cancelled
/// when a cancellation was requested, failed when not.
pub fn job_end(succeeded: bool, cancel_requested: bool) -> (e: JobEnd)
    ensures
        e == if succeeded { JobEnd::Done } else if cancel_requested { JobEnd::Canceled } else { JobEnd::Failed },
{
    if succeeded {
        JobEnd::Done
    } else if cancel_requested {
        JobEnd::Canceled
    } else {
        JobEnd::Failed
    }
}

/// The UTF-8 encoding of one character.
pub open spec fn utf8_char(c: char) -> Seq<u8> {
    let u = c as u32;
    if u < 0x80 {
        seq![u as u8]
    } else if u < 0x800 {
        seq![(0xC0 | (u >> 6)) as u8, (0x80 | (u & 0x3F)) as u8]
    } else if u < 0x10000 {
        seq![(0xE0 | (u >> 12)) as u8, (0x80 | ((u >> 6) & 0x3F)) as u8, (0x80 | (u & 0x3F)) as u8]
    } else {
        seq![
            (0xF0 | (u >> 18)) as u8,
            (0x80 | ((u >> 12) & 0x3F)) as u8,
            (0x80 | ((u >> 6) & 0x3F)) as u8,
            (0x80 | (u & 0x3F)) as u8,
        ]
    }
}

/// The UTF-8 encoding of a character sequence.
pub open spec fn utf8(s: Seq<char>) -> Seq<u8>
    decreases s.len(),
{
    if s.len() == 0 { Seq::empty() } else { utf8(s.drop_last()) + utf8_char(s.last()) }
}

/// The UTF-8 encoding of `c`.
fn encode_char(c: char) -> (r: Vec<u8>)
    ensures
        r@ == utf8_char(c),
{
    let u = c as u32;
    let mut r: Vec<u8> = Vec::new();
    if u < 0x80 {
        r.push(u as u8);
    } else if u < 0x800 {
        r.push((0xC0 | (u >> 6)) as u8);
        r.push((0x80 | (u & 0x3F)) as u8);
    } else if u < 0x10000 {
        r.push((0xE0 | (u >> 12)) as u8);
        r.push((0x80 | ((u >> 6) & 0x3F)) as u8);
        r.push((0x80 | (u & 0x3F)) as u8);
    } else {
        r.push((0xF0 | (u >> 18)) as u8);
        r.push((0x80 | ((u >> 12) & 0x3F)) as u8);
        r.push((0x80 | ((u >> 6) & 0x3F)) as u8);
        r.push((0x80 | (u & 0x3F)) as u8);
    }
    assert(r@ =~= utf8_char(c));
    r
}

/// A byte that stands for itself in a percent-encoded file name.
pub open spec fn unreserved(b: u8) -> bool {
    (48u8 <= b <= 57u8) || (97u8 <= b <= 122u8) || (65u8 <= b <= 90u8) || b == 45u8 || b == 46u8 || b == 95u8
}

/// An uppercase hexadecimal digit.
pub open spec fn hex_upper(d: u8) -> char {
    if d < 10 { ((d + 48) as u32) as char } else { ((d + 55) as u32) as char }
}

/// The percent-encoding of one byte.
pub open spec fn pct_byte(b: u8) -> Seq<char> {
    if unreserved(b) { seq![(b as u32) as char] } else { seq!['%', hex_upper(b / 16), hex_upper(b % 16)] }
}

/// The percent-encoding of a byte string.
pub open spec fn pct(bytes: Seq<u8>) -> Seq<char>
    decreases bytes.len(),
{
    if bytes.len() == 0 { Seq::empty() } else { pct(bytes.drop_last()) + pct_byte(bytes.last()) }
}

/// The ASCII fallback name: letters, digits, `-`, `.` and `_` kept, every
/// other character replaced by `_`.
pub open spec fn ascii_fallback(s: Seq<char>) -> Seq<char> {
    s.map_values(|c: char| if ('0' <= c <= '9') || ('a' <= c <= 'z') || ('A' <= c <= 'Z') || c == '-' || c == '.' || c == '_' { c } else { '_' })
}

/// The `Content-Disposition` value of a download: an ASCII fallback name
/// and the RFC 5987 UTF-8 name.
pub open spec fn content_disposition_spec(filename: Seq<char>) -> Seq<char> {
    "attachment; filename=\""@ + ascii_fallback(filename) + "\"; filename*=UTF-8''"@ + pct(utf8(filename))
}

/// The uppercase hexadecimal digit of `d < 16`.
fn hex_digit(d: u8) -> (c: char)
    requires
        d < 16,
    ensures
        c == hex_upper(d),
{
    if d < 10 { (48u8 + d) as char } else { (55u8 + d) as char }
}

/// The `Content-Disposition` header value offered for a downloaded file.
pub fn make_content_disposition(filename: &str) -> (s: String)
    ensures
        s@ == content_disposition_spec(filename@),
{
    let chars = chars_of(filename);
    let mut encoded: Vec<char> = Vec::new();
    let mut fallback: Vec<char> = Vec::new();
    for i in 0..chars.len()
        invariant
            chars@ == filename@,
            encoded@ == pct(utf8(chars@.take(i as int))),
            fallback@ == ascii_fallback(chars@.take(i as int)),
    {
        let c = chars[i];
        let bytes = encode_char(c);
        let ghost before = encoded@;
        for k in 0..bytes.len()
            invariant
                encoded@ == before + pct(bytes@.take(k as int)),
        {
            let b = bytes[k];
            let ghost mid = encoded@;
            if (48u8 <= b && b <= 57u8) || (97u8 <= b && b <= 122u8) || (65u8 <= b && b <= 90u8) || b == 45u8 || b == 46u8
                || b == 95u8 {
                encoded.push(b as char);
            } else {
                encoded.push('%');
                encoded.push(hex_digit(b / 16));
                encoded.push(hex_digit(b % 16));
            }
            assert(bytes@.take(k + 1).drop_last() =~= bytes@.take(k as int));
            assert(encoded@ =~= mid + pct_byte(b));
        }
        assert(bytes@.take(bytes@.len() as int) =~= bytes@);
        proof {
            lemma_pct_concat(utf8(chars@.take(i as int)), utf8_char(c));
            assert(chars@.take(i + 1).drop_last() =~= chars@.take(i as int));
        }
        let fc = if ('0' <= c && c <= '9') || ('a' <= c && c <= 'z') || ('A' <= c && c <= 'Z') || c == '-' || c == '.'
            || c == '_' {
            c
        } else {
            '_'
        };
        fallback.push(fc);
        assert(fallback@ =~= ascii_fallback(chars@.take(i + 1)));
    }
    assert(chars@.take(chars@.len() as int) =~= chars@);
    let mut out = chars_of("attachment; filename=\"");
    out.extend_from_slice(fallback.as_slice());
    out.extend_from_slice(chars_of("\"; filename*=UTF-8''").as_slice());
    out.extend_from_slice(encoded.as_slice());
    string_of(out.as_slice())
}

/// Percent-encoding distributes over concatenation.
pub proof fn lemma_pct_concat(a: Seq<u8>, b: Seq<u8>)
    ensures
        pct(a + b) == pct(a) + pct(b),
    decreases b.len(),
{
    if b.len() == 0 {
        assert(a + b =~= a);
        assert(pct(a) + pct(b) =~= pct(a));
    } else {
        lemma_pct_concat(a, b.drop_last());
        assert((a + b).drop_last() =~= a + b.drop_last());
        assert(pct(a) + pct(b) =~= pct(a) + pct(b.drop_last()) + pct_byte(b.last()));
    }
}

/// The listening addresses given in one setting: separated by commas or
/// semicolons, each trimmed, blank ones dropped.
pub fn bind_addr_parts(raw: &str) -> (r: Vec<String>)
    ensures
        strings_view(r@) == list_spec(raw@, seq![',', ';']),
{
    let r = parse_list(raw, &[',', ';']);
    assert((&[',', ';'])@ =~= seq![',', ';']);
    r
}

/// The text after the last `:` and the text before it, when there is a `:`.
pub open spec fn rsplit_colon(s: Seq<char>) -> Option<(Seq<char>, Seq<char>)>
    decreases s.len(),
{
    if s.len() == 0 {
        None
    } else if s.last() == ':' {
        Some((s.drop_last(), Seq::empty()))
    } else {
        match rsplit_colon(s.drop_last()) {
            Some((h, p)) => Some((h, p.push(s.last()))),
            None => None,
        }
    }
}

/// The bracketed form `[host]:port` tried for an IPv6 address written
/// without brackets: when the text does not start with `[`, its last `:`
/// separates a non-empty host that contains a `:` from a port of digits.
pub open spec fn bracketed_spec(s: Seq<char>) -> Option<Seq<char>> {
    if s.len() > 0 && s[0] == '[' {
        None
    } else {
        match rsplit_colon(s) {
            Some((host, port)) => if host.len() > 0 && crate::text::all_digits(port) && host.contains(':') {
                Some("["@ + host + "]:"@ + port)
            } else {
                None
            },
            None => None,
        }
    }
}

/// The bracketed alternative of a listening address, if one is tried.
pub fn bracketed_bind_addr(s: &str) -> (r: Option<String>)
    ensures
        opt_view(r) == bracketed_spec(s@),
{
    let v = chars_of(s);
    if v.len() > 0 && v[0] == '[' {
        return None;
    }
    let mut k = v.len();
    while k > 0 && v[k - 1] != ':'
        invariant
            k <= v@.len(),
            forall|j: int| k <= j < v@.len() ==> v@[j] != ':',
        decreases k,
    {
        k = k - 1;
    }
    proof {
        lemma_rsplit(v@, k as int);
    }
    if k == 0 {
        return None;
    }
    let mut host: Vec<char> = Vec::new();
    let mut host_has_colon = false;
    for i in 0..k - 1
        invariant
            k >= 1,
            k <= v@.len(),
            host@ == v@.take(i as int),
            host_has_colon == host@.contains(':'),
    {
        host.push(v[i]);
        assert(v@.take(i as int).push(v@[i as int]) =~= v@.take(i + 1));
        if v[i] == ':' {
            host_has_colon = true;
        }
        proof {
            if !host_has_colon {
                assert forall|j: int| 0 <= j < host@.len() implies host@[j] != ':' by {
                    if j < i {
                        assert(host@[j] == v@.take(i as int)[j]);
                    }
                }
            } else {
                if v@[i as int] == ':' {
                    assert(host@[i as int] == ':');
                } else {
                    let j = choose|j: int| 0 <= j < v@.take(i as int).len() && v@.take(i as int)[j] == ':';
                    assert(host@[j] == ':');
                }
            }
        }
    }
    let mut port: Vec<char> = Vec::new();
    let mut digits = true;
    let mut i = k;
    while i < v.len()
        invariant
            k <= i <= v@.len(),
            port@ == v@.subrange(k as int, i as int),
            digits == crate::text::all_digits(port@),
        decreases v@.len() - i,
    {
        port.push(v[i]);
        assert(v@.subrange(k as int, i as int).push(v@[i as int]) =~= v@.subrange(k as int, i + 1));
        if !('0' <= v[i] && v[i] <= '9') {
            digits = false;
            assert(!crate::text::is_digit(port@[port@.len() - 1]));
        }
        i = i + 1;
    }
    if host.len() > 0 && digits && host_has_colon {
        let mut out = chars_of("[");
        out.extend_from_slice(host.as_slice());
        out.extend_from_slice(chars_of("]:").as_slice());
        out.extend_from_slice(port.as_slice());
        Some(string_of(out.as_slice()))
    } else {
        None
    }
}

/// The last `:` of `s` is at `k - 1` (none when `k` is 0).
proof fn lemma_rsplit(s: Seq<char>, k: int)
    requires
        0 <= k <= s.len(),
        forall|j: int| k <= j < s.len() ==> s[j] != ':',
        k > 0 ==> s[k - 1] == ':',
    ensures
        k == 0 ==> rsplit_colon(s) is None,
        k > 0 ==> rsplit_colon(s) == Some((s.take(k - 1), s.skip(k))),
    decreases s.len(),
{
    if s.len() == 0 {
    } else if k == s.len() {
        assert(s.drop_last() =~= s.take(k - 1));
        assert(s.skip(k) =~= Seq::<char>::empty());
    } else {
        lemma_rsplit(s.drop_last(), k);
        if k > 0 {
            assert(s.drop_last().take(k - 1) =~= s.take(k - 1));
            assert(s.drop_last().skip(k).push(s.last()) =~= s.skip(k));
        }
    }
}

/// A record of the download history.
#[derive(Debug, Clone)]
pub struct DownloadHistoryRecord {
    pub timestamp: String,
    pub book_name: String,
    pub author: String,
    pub book_id: String,
    pub progress: String,
    pub status: String,
}

/// The detail lines of the selected history record, or a single line saying
/// there is nothing to show.
pub open spec fn history_details_spec(items: Seq<DownloadHistoryRecord>, selected: Option<usize>) -> Seq<Seq<char>> {
    match selected {
        Some(i) if i < items.len() => {
            let it = items[i as int];
            seq![
                "时间: "@ + it.timestamp@,
                "书名: "@ + it.book_name@,
                "作者: "@ + (if it.author@.len() == 0 { "未知"@ } else { it.author@ }),
                "Book ID: "@ + it.book_id@,
                "进度: "@ + it.progress@,
                "状态: "@ + it.status@,
            ]
        },
        _ => seq!["暂无可展示详情"@],
    }
}

/// `prefix` followed by `s`.
fn labelled(prefix: &str, s: &str) -> (r: String)
    ensures
        r@ == prefix@ + s@,
{
    let mut v = chars_of(prefix);
    v.extend_from_slice(chars_of(s).as_slice());
    string_of(v.as_slice())
}

/// The detail lines of the selected history record.
pub fn selected_details(items: &[DownloadHistoryRecord], selected: Option<usize>) -> (r: Vec<String>)
    ensures
        strings_view(r@) == history_details_spec(items@, selected),
{
    let mut r: Vec<String> = Vec::new();
    match selected {
        Some(i) => {
            if i < items.len() {
                let it = &items[i];
                r.push(labelled("时间: ", it.timestamp.as_str()));
                r.push(labelled("书名: ", it.book_name.as_str()));
                let author_empty = chars_of(it.author.as_str()).len() == 0;
                r.push(labelled("作者: ", if author_empty { "未知" } else { it.author.as_str() }));
                r.push(labelled("Book ID: ", it.book_id.as_str()));
                r.push(labelled("进度: ", it.progress.as_str()));
                r.push(labelled("状态: ", it.status.as_str()));
                assert(strings_view(r@) =~= history_details_spec(items@, selected));
                return r;
            }
        },
        None => {},
    }
    r.push(String::from_str("暂无可展示详情"));
    assert(strings_view(r@) =~= history_details_spec(items@, selected));
    r
}

} // verus!
