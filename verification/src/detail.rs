//! The book details shown beside the search results of the terminal
//! interface: which details a book has, how fresh details are merged into
//! older ones, and the text lines shown for the selected book.

use crate::nav::truncated;
use crate::text::{chars_of, dec_string, join_seq, str_eq, string_of, strings_view, u64_to_dec};
use vstd::prelude::*;

verus! {

/// What is known of a book beyond its title, author and id. The score, a
/// decimal fraction, is held as the bits of its `f32`.
#[derive(Debug, Clone)]
pub struct BookDetail {
    pub description: Option<String>,
    pub tags: Vec<String>,
    pub chapter_count: Option<usize>,
    pub finished: Option<bool>,
    pub cover_url: Option<String>,
    pub detail_cover_url: Option<String>,
    pub word_count: Option<usize>,
    pub score_bits: Option<u32>,
    pub read_count: Option<String>,
    pub read_count_text: Option<String>,
    pub book_short_name: Option<String>,
    pub original_book_name: Option<String>,
    pub first_chapter_title: Option<String>,
    pub last_chapter_title: Option<String>,
    pub category: Option<String>,
    pub cover_primary_color: Option<String>,
}

/// A search result.
#[derive(Debug, Clone)]
pub struct SearchItem {
    pub title: String,
    pub author: String,
    pub book_id: String,
    pub detail: Option<BookDetail>,
}

/// Whether any detail is known.
pub open spec fn has_any(d: BookDetail) -> bool {
    d.description is Some || d.tags@.len() > 0 || d.chapter_count is Some || d.finished is Some
        || d.cover_url is Some || d.detail_cover_url is Some || d.word_count is Some || d.score_bits is Some
        || d.read_count is Some || d.read_count_text is Some || d.book_short_name is Some
        || d.original_book_name is Some || d.first_chapter_title is Some || d.last_chapter_title is Some
        || d.category is Some || d.cover_primary_color is Some
}

impl BookDetail {
    /// Whether any detail is known.
    pub fn has_data(&self) -> (b: bool)
        ensures
            b == has_any(*self),
    {
        self.description.is_some() || self.tags.len() > 0 || self.chapter_count.is_some() || self.finished.is_some()
            || self.cover_url.is_some() || self.detail_cover_url.is_some() || self.word_count.is_some()
            || self.score_bits.is_some() || self.read_count.is_some() || self.read_count_text.is_some()
            || self.book_short_name.is_some() || self.original_book_name.is_some()
            || self.first_chapter_title.is_some() || self.last_chapter_title.is_some() || self.category.is_some()
            || self.cover_primary_color.is_some()
    }
}

/// `a`, or `b` when `a` is absent.
pub open spec fn or_else<T>(a: Option<T>, b: Option<T>) -> Option<T> {
    if a is Some { a } else { b }
}

/// Fresh details over older ones: each detail comes from `primary` when it
/// has it, else from `fallback`; the tags are `primary`'s unless it has
/// none.
pub open spec fn merged(primary: BookDetail, fallback: BookDetail) -> BookDetail {
    BookDetail {
        description: or_else(primary.description, fallback.description),
        tags: if primary.tags@.len() == 0 { fallback.tags } else { primary.tags },
        chapter_count: or_else(primary.chapter_count, fallback.chapter_count),
        finished: or_else(primary.finished, fallback.finished),
        cover_url: or_else(primary.cover_url, fallback.cover_url),
        detail_cover_url: or_else(primary.detail_cover_url, fallback.detail_cover_url),
        word_count: or_else(primary.word_count, fallback.word_count),
        score_bits: or_else(primary.score_bits, fallback.score_bits),
        read_count: or_else(primary.read_count, fallback.read_count),
        read_count_text: or_else(primary.read_count_text, fallback.read_count_text),
        book_short_name: or_else(primary.book_short_name, fallback.book_short_name),
        original_book_name: or_else(primary.original_book_name, fallback.original_book_name),
        first_chapter_title: or_else(primary.first_chapter_title, fallback.first_chapter_title),
        last_chapter_title: or_else(primary.last_chapter_title, fallback.last_chapter_title),
        category: or_else(primary.category, fallback.category),
        cover_primary_color: or_else(primary.cover_primary_color, fallback.cover_primary_color),
    }
}

/// `a`, or `b` when `a` is absent.
fn pick<T>(a: Option<T>, b: Option<T>) -> (r: Option<T>)
    ensures
        r == or_else(a, b),
{
    match a {
        Some(x) => Some(x),
        None => b,
    }
}

/// Merges fresh details into older ones.
pub fn merge_detail(primary: BookDetail, fallback: BookDetail) -> (r: BookDetail)
    ensures
        r == merged(primary, fallback),
{
    let tags = if primary.tags.len() == 0 { fallback.tags } else { primary.tags };
    BookDetail {
        description: pick(primary.description, fallback.description),
        tags,
        chapter_count: pick(primary.chapter_count, fallback.chapter_count),
        finished: pick(primary.finished, fallback.finished),
        cover_url: pick(primary.cover_url, fallback.cover_url),
        detail_cover_url: pick(primary.detail_cover_url, fallback.detail_cover_url),
        word_count: pick(primary.word_count, fallback.word_count),
        score_bits: pick(primary.score_bits, fallback.score_bits),
        read_count: pick(primary.read_count, fallback.read_count),
        read_count_text: pick(primary.read_count_text, fallback.read_count_text),
        book_short_name: pick(primary.book_short_name, fallback.book_short_name),
        original_book_name: pick(primary.original_book_name, fallback.original_book_name),
        first_chapter_title: pick(primary.first_chapter_title, fallback.first_chapter_title),
        last_chapter_title: pick(primary.last_chapter_title, fallback.last_chapter_title),
        category: pick(primary.category, fallback.category),
        cover_primary_color: pick(primary.cover_primary_color, fallback.cover_primary_color),
    }
}

/// The first result whose id is `book_id`.
pub open spec fn first_with_id(results: Seq<SearchItem>, book_id: Seq<char>) -> Option<int> {
    if exists|i: int| 0 <= i < results.len() && results[i].book_id@ == book_id {
        Some(choose|i: int| 0 <= i < results.len() && results[i].book_id@ == book_id
            && forall|j: int| 0 <= j < i ==> results[j].book_id@ != book_id)
    } else {
        None
    }
}

/// Merges fresh details of book `book_id` into the first search result of
/// that id (over its older details, if any); other results, and the result
/// list when no result has that id, stay as they were.
pub fn upsert_result_detail(results: &mut Vec<SearchItem>, book_id: &str, incoming: BookDetail)
    ensures
        final(results)@.len() == old(results)@.len(),
        (forall|i: int| 0 <= i < old(results)@.len() ==> old(results)@[i].book_id@ != book_id@) ==> final(results)@ == old(results)@,
        forall|k: int|
            0 <= k < old(results)@.len() && old(results)@[k].book_id@ == book_id@
                && (forall|j: int| 0 <= j < k ==> old(results)@[j].book_id@ != book_id@) ==> {
                &&& final(results)@ == old(results)@.update(k, SearchItem { detail: Some(match old(results)@[k].detail {
                    Some(d) => merged(incoming, d),
                    None => incoming,
                }), ..old(results)@[k] })
            },
{
    let mut i: usize = 0;
    while i < results.len()
        invariant
            i <= results@.len(),
            results@ == old(results)@,
            forall|j: int| 0 <= j < i ==> results@[j].book_id@ != book_id@,
        decreases results@.len() - i,
    {
        if str_eq(results[i].book_id.as_str(), book_id) {
            let mut item = results.remove(i);
            let detail = match item.detail {
                Some(d) => merge_detail(incoming, d),
                None => incoming,
            };
            item.detail = Some(detail);
            results.insert(i, item);
            proof {
                assert forall|k: int|
                    0 <= k < old(results)@.len() && old(results)@[k].book_id@ == book_id@
                        && (forall|j: int| 0 <= j < k ==> old(results)@[j].book_id@ != book_id@) implies k == i as int by {
                    if k < i as int {
                    } else if k > i as int {
                        assert(old(results)@[i as int].book_id@ == book_id@);
                    }
                }
                assert(results@ =~= old(results)@.update(i as int, SearchItem { detail: Some(match old(results)@[i as int].detail {
                    Some(d) => merged(incoming, d),
                    None => incoming,
                }), ..old(results)@[i as int] }));
            }
            return;
        }
        i += 1;
    }
}

/// `parts` joined by " | " as one more line, unless there are none.
pub open spec fn with_parts(lines: Seq<Seq<char>>, parts: Seq<Seq<char>>) -> Seq<Seq<char>> {
    if parts.len() == 0 { lines } else { lines.push(join_seq(parts, " | "@)) }
}

/// `label` followed by the value, when there is one.
pub open spec fn labelled(label: Seq<char>, v: Option<String>) -> Seq<Seq<char>> {
    match v {
        Some(s) => seq![label + s@],
        None => Seq::empty(),
    }
}

/// The first line: title, author and id.
pub open spec fn head_line(item: SearchItem) -> Seq<char> {
    "选中: 《"@ + item.title@ + "》 | 作者: "@ + item.author@ + " | ID: "@ + item.book_id@
}

/// The text lines shown for a search result, given how its word count and
/// score read (`words_text`, `score_text`, used only when the result has
/// them): the head line; then, with details, the word count, the score,
/// reads and category, the other names, the first and last chapters (cut
/// to 48 characters), chapter count and state, the tags, and the
/// description (cut to 220 characters, or "暂无"), each group one line of
/// parts joined by " | " and left out when empty; without details
/// "简介: 未加载".
pub open spec fn detail_lines(item: SearchItem, words_text: Seq<char>, score_text: Seq<char>) -> Seq<Seq<char>> {
    let head = seq![head_line(item)];
    match item.detail {
        None => head.push("简介: 未加载"@),
        Some(d) => {
            let status = if d.word_count is Some { seq!["字数: "@ + words_text] } else { Seq::<Seq<char>>::empty() };
            let score = if d.score_bits is Some { seq!["评分: "@ + score_text] } else { Seq::<Seq<char>>::empty() };
            let meta = score + labelled("阅读: "@, or_else(d.read_count_text, d.read_count)) + labelled("分类: "@, d.category);
            let alias = labelled("别名: "@, d.book_short_name) + labelled("原名: "@, d.original_book_name);
            let bounds = (match d.first_chapter_title { Some(f) => seq!["首章: "@ + truncated(f@, 48)], None => Seq::<Seq<char>>::empty() })
                + (match d.last_chapter_title { Some(l) => seq!["末章: "@ + truncated(l@, 48)], None => Seq::<Seq<char>>::empty() });
            let row = (match d.chapter_count { Some(c) => seq!["章节: "@ + dec_string(c as nat)], None => Seq::<Seq<char>>::empty() })
                + (match d.finished { Some(f) => seq!["状态: "@ + (if f { "完结"@ } else { "连载"@ })], None => Seq::<Seq<char>>::empty() });
            let dv: BookDetail = item.detail->0;
        let tags = if dv.tags@.len() == 0 { Seq::<Seq<char>>::empty() } else { seq!["标签: "@ + join_seq(strings_view(d.tags@), " | "@)] };
            let desc = match dv.description { Some(s) => "简介: "@ + truncated(s@, 220), None => "简介: 暂无"@ };
            with_parts(with_parts(with_parts(with_parts(with_parts(head, status), meta), alias), bounds), row) + tags + seq![desc]
        },
    }
}

/// `label` followed by `value`.
fn label_with(label: &str, value: &str) -> (s: String)
    ensures
        s@ == label@ + value@,
{
    let mut v = chars_of(label);
    v.extend_from_slice(chars_of(value).as_slice());
    string_of(v.as_slice())
}

/// Adds `label` followed by the value to `parts`, when there is a value.
fn push_labelled(parts: &mut Vec<String>, label: &str, v: &Option<String>)
    ensures
        strings_view(final(parts)@) == strings_view(old(parts)@) + labelled(label@, *v),
{
    match v {
        Some(s) => {
            let line = label_with(label, s.as_str());
            parts.push(line);
            proof {
                assert(strings_view(parts@) =~= strings_view(old(parts)@) + labelled(label@, *v));
            }
        },
        None => {
            proof {
                assert(strings_view(parts@) =~= strings_view(old(parts)@) + labelled(label@, *v));
            }
        },
    }
}

/// Adds `parts` joined by " | " to `lines`, unless there are none.
fn push_parts(lines: &mut Vec<String>, parts: Vec<String>)
    ensures
        strings_view(final(lines)@) == with_parts(strings_view(old(lines)@), strings_view(parts@)),
{
    if parts.len() > 0 {
        let joined = crate::text::join_strings(parts.as_slice(), " | ");
        lines.push(joined);
        proof {
            assert(strings_view(lines@) =~= strings_view(old(lines)@).push(joined@));
        }
    } else {
        proof {
            assert(strings_view(lines@) =~= strings_view(old(lines)@));
        }
    }
}

/// The text lines shown for a search result.
pub fn selection_detail_lines(item: &SearchItem, words_text: &str, score_text: &str) -> (lines: Vec<String>)
    ensures
        strings_view(lines@) == detail_lines(*item, words_text@, score_text@),
{
    let mut lines: Vec<String> = Vec::new();
    let mut head = chars_of("选中: 《");
    head.extend_from_slice(chars_of(item.title.as_str()).as_slice());
    head.extend_from_slice(chars_of("》 | 作者: ").as_slice());
    head.extend_from_slice(chars_of(item.author.as_str()).as_slice());
    head.extend_from_slice(chars_of(" | ID: ").as_slice());
    head.extend_from_slice(chars_of(item.book_id.as_str()).as_slice());
    let hs = string_of(head.as_slice());
    assert(hs@ == head_line(*item));
    lines.push(hs);
    proof {
        assert(strings_view(lines@) =~= seq![head_line(*item)]);
    }
    let d = match &item.detail {
        None => {
            lines.push(String::from_str("简介: 未加载"));
            proof {
                assert(strings_view(lines@) =~= seq![head_line(*item)].push("简介: 未加载"@));
            }
            return lines;
        },
        Some(d) => d,
    };

    let mut status: Vec<String> = Vec::new();
    if d.word_count.is_some() {
        status.push(label_with("字数: ", words_text));
    }
    proof {
        assert(strings_view(status@) =~= if d.word_count is Some { seq!["字数: "@ + words_text@] } else { Seq::<Seq<char>>::empty() });
    }
    push_parts(&mut lines, status);

    let mut meta: Vec<String> = Vec::new();
    if d.score_bits.is_some() {
        meta.push(label_with("评分: ", score_text));
    }
    proof {
        assert(strings_view(meta@) =~= if d.score_bits is Some { seq!["评分: "@ + score_text@] } else { Seq::<Seq<char>>::empty() });
    }
    let reads = if d.read_count_text.is_some() { &d.read_count_text } else { &d.read_count };
    push_labelled(&mut meta, "阅读: ", reads);
    push_labelled(&mut meta, "分类: ", &d.category);
    push_parts(&mut lines, meta);

    let mut alias: Vec<String> = Vec::new();
    proof {
        assert(strings_view(alias@) =~= Seq::<Seq<char>>::empty());
    }
    push_labelled(&mut alias, "别名: ", &d.book_short_name);
    push_labelled(&mut alias, "原名: ", &d.original_book_name);
    push_parts(&mut lines, alias);

    let mut bounds: Vec<String> = Vec::new();
    match &d.first_chapter_title {
        Some(f) => {
            let t = crate::nav::truncate(f.as_str(), 48);
            bounds.push(label_with("首章: ", t.as_str()));
        },
        None => {},
    }
    match &d.last_chapter_title {
        Some(l) => {
            let t = crate::nav::truncate(l.as_str(), 48);
            bounds.push(label_with("末章: ", t.as_str()));
        },
        None => {},
    }
    proof {
        assert(strings_view(bounds@) =~= (match d.first_chapter_title { Some(f) => seq!["首章: "@ + truncated(f@, 48)], None => Seq::<Seq<char>>::empty() })
            + (match d.last_chapter_title { Some(l) => seq!["末章: "@ + truncated(l@, 48)], None => Seq::<Seq<char>>::empty() }));
    }
    push_parts(&mut lines, bounds);

    let mut row: Vec<String> = Vec::new();
    match d.chapter_count {
        Some(c) => {
            let n = u64_to_dec(c as u64);
            let mut v = chars_of("章节: ");
            v.extend_from_slice(n.as_slice());
            let part = string_of(v.as_slice());
            assert(part@ == "章节: "@ + dec_string(c as nat));
            row.push(part);
        },
        None => {},
    }
    let ghost r1 = strings_view(row@);
    assert(r1 =~= (match d.chapter_count { Some(c) => seq!["章节: "@ + dec_string(c as nat)], None => Seq::<Seq<char>>::empty() }));
    match d.finished {
        Some(f) => {
            let part = label_with("状态: ", if f { "完结" } else { "连载" });
            assert(part@ == "状态: "@ + (if f { "完结"@ } else { "连载"@ }));
            row.push(part);
        },
        None => {},
    }
    proof {
        assert(strings_view(row@) =~= r1 + (match d.finished { Some(f) => seq!["状态: "@ + (if f { "完结"@ } else { "连载"@ })], None => Seq::<Seq<char>>::empty() }));
    }
    push_parts(&mut lines, row);
    let ghost before_tags = strings_view(lines@);

    if d.tags.len() > 0 {
        let joined = crate::text::join_strings(d.tags.as_slice(), " | ");
        lines.push(label_with("标签: ", joined.as_str()));
    }
    let ghost before_desc = strings_view(lines@);
    match &d.description {
        Some(s) => {
            let t = crate::nav::truncate(s.as_str(), 220);
            lines.push(label_with("简介: ", t.as_str()));
        },
        None => {
            lines.push(String::from_str("简介: 暂无"));
        },
    }
    proof {
        let dv: BookDetail = item.detail->0;
        let tags = if dv.tags@.len() == 0 { Seq::<Seq<char>>::empty() } else { seq!["标签: "@ + join_seq(strings_view(dv.tags@), " | "@)] };
        assert(before_desc =~= before_tags + tags);
        let desc = match dv.description { Some(s) => "简介: "@ + truncated(s@, 220), None => "简介: 暂无"@ };
        assert(strings_view(lines@) =~= before_desc.push(desc));
        assert(before_tags + tags + seq![desc] =~= (before_tags + tags).push(desc));
    }
    lines
}

/// Merging loses nothing: the merged details are known exactly when either
/// side's are, every detail the fresh side has wins, and merging details
/// with themselves changes nothing.
pub proof fn lemma_merge_keeps_details(primary: BookDetail, fallback: BookDetail)
    ensures
        has_any(merged(primary, fallback)) <==> (has_any(primary) || has_any(fallback)),
        primary.description is Some ==> merged(primary, fallback).description == primary.description,
        primary.score_bits is Some ==> merged(primary, fallback).score_bits == primary.score_bits,
        primary.tags@.len() > 0 ==> merged(primary, fallback).tags == primary.tags,
        merged(primary, primary) == primary,
{
}

} // verus!
