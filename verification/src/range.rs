//! Chapter ranges: parsing what the user types, clamping to the catalogue,
//! and selecting the chapters a download covers.

use crate::text::{
    chars_of, parse_unsigned, parse_unsigned_spec, split_chars, split_seq,
    trim_chars, trim_seq, views, lemma_split_nonempty, dec_string, is_digit, lemma_dec_string,
    lemma_parse_dec_string, lemma_split_concat, lemma_split_no_sep, lemma_trim_noop,
};
use vstd::prelude::*;

verus! {

/// An inclusive, 1-based chapter range.
#[derive(Debug, Clone, Copy, PartialEq, Eq, Structural)]
pub struct ChapterRange {
    pub start: usize,
    pub end: usize,
}

/// Why a typed range was refused.
#[derive(Debug, Clone, Copy, PartialEq, Eq, Structural)]
pub enum RangeError {
    /// More than one `-`.
    Format,
    /// The start is not a number.
    StartNotNumber,
    /// The end is not a number.
    EndNotNumber,
    /// A chapter number is 0.
    ZeroChapter,
    /// The start is after the end.
    StartAfterEnd,
    /// The start is beyond the last chapter.
    StartBeyondTotal,
}

impl RangeError {
    /// The message shown to the user.
    pub fn message(&self) -> (s: String)
        ensures
            s@ == range_error_text(*self),
    {
        match self {
            RangeError::Format => String::from_str("格式应为 start-end，例如 1-10"),
            RangeError::StartNotNumber => String::from_str("起始章节需为数字"),
            RangeError::EndNotNumber => String::from_str("结束章节需为数字"),
            RangeError::ZeroChapter => String::from_str("章节编号需大于 0"),
            RangeError::StartAfterEnd => String::from_str("起始章节不能大于结束章节"),
            RangeError::StartBeyondTotal => String::from_str("起始章节超过目录长度"),
        }
    }
}

/// The message of each range error.
pub open spec fn range_error_text(e: RangeError) -> Seq<char> {
    match e {
        RangeError::Format => "格式应为 start-end，例如 1-10"@,
        RangeError::StartNotNumber => "起始章节需为数字"@,
        RangeError::EndNotNumber => "结束章节需为数字"@,
        RangeError::ZeroChapter => "章节编号需大于 0"@,
        RangeError::StartAfterEnd => "起始章节不能大于结束章节"@,
        RangeError::StartBeyondTotal => "起始章节超过目录长度"@,
    }
}

/// What a typed range `start-end` means for a book of `total` chapters: empty
/// input means all chapters; a missing start means 1, a missing end means the
/// last chapter; the end is clamped to `total`.
pub open spec fn parse_range_spec(input: Seq<char>, total: nat) -> Result<Option<(nat, nat)>, RangeError> {
    let t = trim_seq(input);
    let parts = split_seq(t, seq!['-']);
    if t.len() == 0 {
        Ok(None)
    } else if parts.len() > 2 {
        Err(RangeError::Format)
    } else {
        let sp = trim_seq(parts[0]);
        let ep = if parts.len() == 2 { trim_seq(parts[1]) } else { Seq::<char>::empty() };
        let start = if sp.len() == 0 { Some(1nat) } else { parse_unsigned_spec(sp, usize::MAX as nat) };
        let end = if ep.len() == 0 { Some(total) } else { parse_unsigned_spec(ep, usize::MAX as nat) };
        match (start, end) {
            (None, _) => Err(RangeError::StartNotNumber),
            (_, None) => Err(RangeError::EndNotNumber),
            (Some(s), Some(e)) => if s == 0 || e == 0 {
                Err(RangeError::ZeroChapter)
            } else if s > e {
                Err(RangeError::StartAfterEnd)
            } else if s > total {
                Err(RangeError::StartBeyondTotal)
            } else {
                Ok(Some((s, if e < total { e } else { total })))
            },
        }
    }
}

/// A decimal number has no whitespace at its ends and no `-`.
proof fn lemma_number_text(n: nat)
    ensures
        dec_string(n).len() > 0,
        trim_seq(dec_string(n)) == dec_string(n),
        forall|i: int| 0 <= i < dec_string(n).len() ==> !seq!['-'].contains(#[trigger] dec_string(n)[i]),
        forall|i: int| 0 <= i < dec_string(n).len() ==> is_digit(#[trigger] dec_string(n)[i]),
{
    let d = dec_string(n);
    lemma_dec_string(n);
    assert(is_digit(d[0]));
    assert(is_digit(d[d.len() - 1]));
    lemma_trim_noop(d);
    assert forall|i: int| 0 <= i < d.len() implies !seq!['-'].contains(#[trigger] d[i]) by {
        assert(is_digit(d[i]));
        if seq!['-'].contains(d[i]) {
            assert(seq!['-'][0] == '-');
        }
    }
}

/// Every range within the catalogue is accepted as typed: `s-e` with
/// `1 <= s <= e <= total` selects chapters `s` to `e` (a single chapter
/// when they are equal), and `s-` selects chapter `s` to the last.
pub proof fn lemma_typed_range_accepted(s: nat, e: nat, total: nat)
    requires
        1 <= s <= e <= total,
        total <= usize::MAX,
    ensures
        parse_range_spec(dec_string(s) + seq!['-'] + dec_string(e), total) == Ok::<Option<(nat, nat)>, RangeError>(Some((s, e))),
        parse_range_spec(dec_string(s) + seq!['-'], total) == Ok::<Option<(nat, nat)>, RangeError>(Some((s, total))),
{
    let dash = seq!['-'];
    assert(dash.contains('-')) by {
        assert(dash[0] == '-');
    }
    let ds = dec_string(s);
    let de = dec_string(e);
    lemma_number_text(s);
    lemma_number_text(e);
    lemma_parse_dec_string(s, usize::MAX as nat);
    lemma_parse_dec_string(e, usize::MAX as nat);
    let t = ds + dash + de;
    assert(t[0] == ds[0]);
    assert(t[t.len() - 1] == de[de.len() - 1]);
    assert(is_digit(ds[0]) && is_digit(de[de.len() - 1]));
    lemma_trim_noop(t);
    lemma_split_no_sep(ds, dash);
    lemma_split_no_sep(de, dash);
    lemma_split_concat(ds, '-', de, dash);
    assert(split_seq(t, dash) =~= seq![ds, de]);

    let u = ds + dash;
    let empty = Seq::<char>::empty();
    assert(u =~= ds + dash + empty);
    assert(u[0] == ds[0]);
    lemma_trim_noop(u);
    assert(trim_seq(u).len() > 0);
    lemma_split_no_sep(empty, dash);
    lemma_split_concat(ds, '-', empty, dash);
    assert(split_seq(u, dash) =~= seq![ds, empty]);
    assert(trim_seq(empty) =~= empty);
}

/// A range is refused for the reason it fails: a chapter 0, a start after
/// the end, or a start beyond the last chapter; an end beyond the last
/// chapter is cut to it.
pub proof fn lemma_typed_range_refused(s: nat, e: nat, total: nat)
    requires
        total <= usize::MAX,
        s <= usize::MAX,
        e <= usize::MAX,
    ensures
        (s == 0 || e == 0) ==> parse_range_spec(dec_string(s) + seq!['-'] + dec_string(e), total)
            == Err::<Option<(nat, nat)>, RangeError>(RangeError::ZeroChapter),
        (s > 0 && e > 0 && s > e) ==> parse_range_spec(dec_string(s) + seq!['-'] + dec_string(e), total)
            == Err::<Option<(nat, nat)>, RangeError>(RangeError::StartAfterEnd),
        (s > 0 && s <= e && s > total) ==> parse_range_spec(dec_string(s) + seq!['-'] + dec_string(e), total)
            == Err::<Option<(nat, nat)>, RangeError>(RangeError::StartBeyondTotal),
        (s > 0 && s <= total && total < e) ==> parse_range_spec(dec_string(s) + seq!['-'] + dec_string(e), total)
            == Ok::<Option<(nat, nat)>, RangeError>(Some((s, total))),
{
    let dash = seq!['-'];
    assert(dash.contains('-')) by {
        assert(dash[0] == '-');
    }
    let ds = dec_string(s);
    let de = dec_string(e);
    lemma_number_text(s);
    lemma_number_text(e);
    lemma_parse_dec_string(s, usize::MAX as nat);
    lemma_parse_dec_string(e, usize::MAX as nat);
    let t = ds + dash + de;
    assert(t[0] == ds[0]);
    assert(t[t.len() - 1] == de[de.len() - 1]);
    lemma_trim_noop(t);
    lemma_split_no_sep(ds, dash);
    lemma_split_no_sep(de, dash);
    lemma_split_concat(ds, '-', de, dash);
    assert(split_seq(t, dash) =~= seq![ds, de]);
}

/// The view of a parse result.
pub open spec fn range_result_view(r: Result<Option<ChapterRange>, RangeError>) -> Result<Option<(nat, nat)>, RangeError> {
    match r {
        Ok(Some(c)) => Ok(Some((c.start as nat, c.end as nat))),
        Ok(None) => Ok(None),
        Err(e) => Err(e),
    }
}

/// Parses a typed chapter range `start-end` for a book of `total` chapters.
pub fn parse_range_input(input: &str, total: usize) -> (r: Result<Option<ChapterRange>, RangeError>)
    ensures
        range_result_view(r) == parse_range_spec(input@, total as nat),
{
    let t = trim_chars(chars_of(input).as_slice());
    if t.len() == 0 {
        return Ok(None);
    }
    let parts = split_chars(t.as_slice(), &['-']);
    assert(seq!['-'] =~= (&['-'])@) by {
        assert((&['-'])@.len() == 1);
    }
    proof {
        lemma_split_nonempty(t@, seq!['-']);
    }
    assert(views(parts@).len() == parts@.len());
    if parts.len() > 2 {
        return Err(RangeError::Format);
    }
    assert(views(parts@)[0] == parts@[0]@);
    let sp = trim_chars(parts[0].as_slice());
    let ep = if parts.len() == 2 {
        assert(views(parts@)[1] == parts@[1]@);
        trim_chars(parts[1].as_slice())
    } else {
        Vec::new()
    };
    let start: usize = if sp.len() == 0 {
        1
    } else {
        match parse_unsigned(sp.as_slice(), usize::MAX as u64) {
            Some(v) => v as usize,
            None => return Err(RangeError::StartNotNumber),
        }
    };
    let end: usize = if ep.len() == 0 {
        total
    } else {
        match parse_unsigned(ep.as_slice(), usize::MAX as u64) {
            Some(v) => v as usize,
            None => return Err(RangeError::EndNotNumber),
        }
    };
    if start == 0 || end == 0 {
        return Err(RangeError::ZeroChapter);
    }
    if start > end {
        return Err(RangeError::StartAfterEnd);
    }
    if start > total {
        return Err(RangeError::StartBeyondTotal);
    }
    Ok(Some(ChapterRange { start, end: if end < total { end } else { total } }))
}

} // verus!
