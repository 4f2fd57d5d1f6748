//! Book details picked out of the JSON a book search or a book directory
//! returns: the objects looked at, and the description, tags and chapter
//! count found in them under their several possible keys; and the count of
//! downloaded chapters a book's status file records.

use crate::detail::BookDetail;
use crate::text::{
    chars_of, dec_string, list_spec, parse_list, parse_unsigned, parse_unsigned_spec, string_of, strings_view,
    trim_seq, trim_str, u64_to_dec,
};
use vstd::prelude::*;

verus! {

/// A JSON value; numbers are kept as `serde_json` keeps them: non-negative
/// integers, negative integers, and other numbers (by the bits of their
/// `f64`).
#[derive(Debug)]
pub enum JsonValue {
    Null,
    Bool(bool),
    PosInt(u64),
    NegInt(i64),
    Float(u64),
    Str(String),
    Array(Vec<JsonValue>),
    Object(Vec<(String, JsonValue)>),
}

/// The value under `key` in an object's entries (the first entry with that
/// key; a JSON object has one).
pub open spec fn lookup(obj: Seq<(String, JsonValue)>, key: Seq<char>) -> Option<JsonValue>
    decreases obj.len(),
{
    if obj.len() == 0 {
        None
    } else if obj[0].0@ == key {
        Some(obj[0].1)
    } else {
        lookup(obj.drop_first(), key)
    }
}

/// The position of the entry under `key`.
fn find_key(obj: &Vec<(String, JsonValue)>, key: &str) -> (r: Option<usize>)
    ensures
        r matches Some(i) ==> i < obj@.len() && lookup(obj@, key@) == Some(obj@[i as int].1),
        r is None ==> lookup(obj@, key@) is None,
{
    let mut i: usize = 0;
    assert(obj@.skip(0) =~= obj@);
    while i < obj.len()
        invariant
            i <= obj@.len(),
            lookup(obj@, key@) == lookup(obj@.skip(i as int), key@),
        decreases obj@.len() - i,
    {
        assert(obj@.skip(i as int)[0] == obj@[i as int]);
        if crate::text::str_eq(obj[i].0.as_str(), key) {
            return Some(i);
        }
        assert(obj@.skip(i as int).drop_first() =~= obj@.skip(i + 1));
        i += 1;
    }
    assert(obj@.skip(i as int) =~= Seq::<(String, JsonValue)>::empty());
    None
}

/// The objects searched for details: the value itself when it is an
/// object, then its "book_info" and "bookInfo" objects.
pub open spec fn collect_maps_spec(raw: JsonValue) -> Seq<Seq<(String, JsonValue)>> {
    match raw {
        JsonValue::Object(m) => {
            let info = match lookup(m@, "book_info"@) {
                Some(JsonValue::Object(i)) => seq![i@],
                _ => Seq::empty(),
            };
            let info2 = match lookup(m@, "bookInfo"@) {
                Some(JsonValue::Object(i)) => seq![i@],
                _ => Seq::empty(),
            };
            seq![m@] + info + info2
        },
        _ => Seq::empty(),
    }
}

/// The text of an integer (`i64::to_string`).
pub open spec fn int_text(n: int) -> Seq<char> {
    if n < 0 { seq!['-'] + dec_string((-n) as nat) } else { dec_string(n as nat) }
}

/// What a value gives as text: a string trimmed (when not blank), or an
/// integer that fits in `i64` written out.
pub open spec fn text_of(v: JsonValue) -> Option<Seq<char>> {
    match v {
        JsonValue::Str(s) => if trim_seq(s@).len() > 0 { Some(trim_seq(s@)) } else { None },
        JsonValue::PosInt(n) => if n <= i64::MAX { Some(dec_string(n as nat)) } else { None },
        JsonValue::NegInt(n) => Some(int_text(n as int)),
        _ => None,
    }
}

/// The first of `keys` under which the object has a text, and that text.
pub open spec fn pick_string_spec(m: Seq<(String, JsonValue)>, keys: Seq<Seq<char>>) -> Option<Seq<char>>
    decreases keys.len(),
{
    if keys.len() == 0 {
        None
    } else {
        match lookup(m, keys[0]) {
            Some(v) => match text_of(v) {
                Some(t) => Some(t),
                None => pick_string_spec(m, keys.drop_first()),
            },
            None => pick_string_spec(m, keys.drop_first()),
        }
    }
}

/// The tags a value holds: the trimmed non-blank strings of an array, or a
/// string's items separated by '|', ',' or ' ', trimmed, blank ones dropped.
pub open spec fn tags_spec(v: JsonValue) -> Seq<Seq<char>> {
    match v {
        JsonValue::Array(a) => array_strings(a@),
        JsonValue::Str(s) => list_spec(s@, seq!['|', ',', ' ']),
        _ => Seq::empty(),
    }
}

/// The trimmed non-blank strings among `a`, in order.
pub open spec fn array_strings(a: Seq<JsonValue>) -> Seq<Seq<char>>
    decreases a.len(),
{
    if a.len() == 0 {
        Seq::empty()
    } else {
        let rest = array_strings(a.drop_last());
        match a.last() {
            JsonValue::Str(s) => if trim_seq(s@).len() > 0 { rest.push(trim_seq(s@)) } else { rest },
            _ => rest,
        }
    }
}

/// The keys tags are looked for under, in order.
pub open spec fn tag_keys() -> Seq<Seq<char>> {
    seq!["tags"@, "book_tags"@, "tag"@, "category"@, "categories"@, "classify_tags"@]
}

/// The tags under the first of `keys` that holds any.
pub open spec fn pick_tags_from(m: Seq<(String, JsonValue)>, keys: Seq<Seq<char>>) -> Option<Seq<Seq<char>>>
    decreases keys.len(),
{
    if keys.len() == 0 {
        None
    } else {
        match lookup(m, keys[0]) {
            Some(v) => if tags_spec(v).len() > 0 { Some(tags_spec(v)) } else { pick_tags_from(m, keys.drop_first()) },
            None => pick_tags_from(m, keys.drop_first()),
        }
    }
}

/// The keys a chapter count is looked for under, in order.
pub open spec fn count_keys() -> Seq<Seq<char>> {
    seq!["item_cnt"@, "book_item_cnt"@, "chapter_num"@, "chapter_count"@, "chapter_total_cnt"@]
}

/// What a value gives as a chapter count: a non-negative integer, 0 for a
/// negative one, or a string holding a decimal number.
pub open spec fn count_of(v: JsonValue) -> Option<usize> {
    match v {
        JsonValue::PosInt(n) => Some(n as usize),
        JsonValue::NegInt(_) => Some(0usize),
        JsonValue::Str(s) => match parse_unsigned_spec(trim_seq(s@), usize::MAX as nat) {
            Some(n) => Some(n as usize),
            None => None,
        },
        _ => None,
    }
}

/// The count under the first of `keys` that gives one.
pub open spec fn pick_count_from(m: Seq<(String, JsonValue)>, keys: Seq<Seq<char>>) -> Option<usize>
    decreases keys.len(),
{
    if keys.len() == 0 {
        None
    } else {
        match lookup(m, keys[0]) {
            Some(v) => match count_of(v) {
                Some(c) => Some(c),
                None => pick_count_from(m, keys.drop_first()),
            },
            None => pick_count_from(m, keys.drop_first()),
        }
    }
}

/// The views of a list of string slices.
pub open spec fn strs_view(v: Seq<&str>) -> Seq<Seq<char>> {
    v.map_values(|k: &str| k@)
}

/// The objects searched for details.
pub fn collect_maps(raw: &JsonValue) -> (r: Vec<&Vec<(String, JsonValue)>>)
    ensures
        r@.map_values(|m: &Vec<(String, JsonValue)>| m@) == collect_maps_spec(*raw),
{
    let mut r: Vec<&Vec<(String, JsonValue)>> = Vec::new();
    if let JsonValue::Object(m) = raw {
        r.push(m);
        match find_key(m, "book_info") {
            Some(i) => {
                if let JsonValue::Object(info) = &m[i].1 {
                    r.push(info);
                }
            },
            None => {},
        }
        let ghost after_first = r@;
        match find_key(m, "bookInfo") {
            Some(i) => {
                if let JsonValue::Object(info) = &m[i].1 {
                    r.push(info);
                }
            },
            None => {},
        }
        proof {
            let f = |mm: &Vec<(String, JsonValue)>| mm@;
            let info = match lookup(m@, "book_info"@) {
                Some(JsonValue::Object(i)) => seq![i@],
                _ => Seq::empty(),
            };
            assert(after_first.map_values(f) =~= seq![m@] + info);
            let info2 = match lookup(m@, "bookInfo"@) {
                Some(JsonValue::Object(i)) => seq![i@],
                _ => Seq::empty(),
            };
            assert(r@.map_values(f) =~= seq![m@] + info + info2);
        }
        return r;
    }
    proof {
        assert(r@.map_values(|mm: &Vec<(String, JsonValue)>| mm@) =~= Seq::<Seq<(String, JsonValue)>>::empty());
    }
    r
}

/// The text of an `i64` (`i64::to_string`).
fn i64_text(n: i64) -> (s: Vec<char>)
    ensures
        s@ == int_text(n as int),
{
    if n < 0 {
        let a: u64 = (-(n as i128)) as u64;
        let mut v: Vec<char> = Vec::new();
        v.push('-');
        v.extend_from_slice(u64_to_dec(a).as_slice());
        assert(v@ =~= seq!['-'] + dec_string((-(n as int)) as nat));
        v
    } else {
        u64_to_dec(n as u64)
    }
}

/// What a value gives as text.
fn value_text(v: &JsonValue) -> (r: Option<String>)
    ensures
        match r {
            Some(s) => text_of(*v) == Some(s@),
            None => text_of(*v) is None,
        },
{
    match v {
        JsonValue::Str(s) => {
            let t = trim_str(s.as_str());
            if t.len() > 0 { Some(string_of(t.as_slice())) } else { None }
        },
        JsonValue::PosInt(n) => if *n <= 9223372036854775807u64 { Some(string_of(u64_to_dec(*n).as_slice())) } else { None },
        JsonValue::NegInt(n) => Some(string_of(i64_text(*n).as_slice())),
        _ => None,
    }
}

/// The first of `keys` under which the object has a text, and that text
/// (a string trimmed when not blank, or an integer written out).
pub fn pick_string_field(m: &Vec<(String, JsonValue)>, keys: &[&str]) -> (r: Option<String>)
    ensures
        match r {
            Some(s) => pick_string_spec(m@, strs_view(keys@)) == Some(s@),
            None => pick_string_spec(m@, strs_view(keys@)) is None,
        },
{
    let mut i: usize = 0;
    assert(strs_view(keys@).skip(0) =~= strs_view(keys@));
    while i < keys.len()
        invariant
            i <= keys@.len(),
            pick_string_spec(m@, strs_view(keys@)) == pick_string_spec(m@, strs_view(keys@).skip(i as int)),
        decreases keys@.len() - i,
    {
        let ghost rest = strs_view(keys@).skip(i as int);
        assert(rest[0] == keys@[i as int]@);
        assert(rest.drop_first() =~= strs_view(keys@).skip(i + 1));
        if let Some(k) = find_key(m, keys[i]) {
            if let Some(t) = value_text(&m[k].1) {
                return Some(t);
            }
        }
        i += 1;
    }
    assert(strs_view(keys@).skip(i as int) =~= Seq::<Seq<char>>::empty());
    None
}

/// The trimmed non-blank strings of an array.
fn array_tags(a: &Vec<JsonValue>) -> (r: Vec<String>)
    ensures
        strings_view(r@) == array_strings(a@),
{
    let mut r: Vec<String> = Vec::new();
    for i in 0..a.len()
        invariant
            strings_view(r@) == array_strings(a@.take(i as int)),
    {
        assert(a@.take(i + 1).drop_last() =~= a@.take(i as int));
        match &a[i] {
            JsonValue::Str(s) => {
                let t = trim_str(s.as_str());
                if t.len() > 0 {
                    r.push(string_of(t.as_slice()));
                    assert(strings_view(r@) =~= array_strings(a@.take(i as int)).push(t@));
                }
            },
            _ => {},
        }
    }
    assert(a@.take(a@.len() as int) =~= a@);
    r
}

/// The tags a value holds.
pub fn tags_from_value(v: &JsonValue) -> (r: Vec<String>)
    ensures
        strings_view(r@) == tags_spec(*v),
{
    match v {
        JsonValue::Array(a) => array_tags(a),
        JsonValue::Str(s) => {
            let seps = vec!['|', ',', ' '];
            assert(seps@ =~= seq!['|', ',', ' ']);
            parse_list(s.as_str(), seps.as_slice())
        },
        _ => {
            let r: Vec<String> = Vec::new();
            assert(strings_view(r@) =~= Seq::<Seq<char>>::empty());
            r
        },
    }
}

/// The tags under the first of the tag keys that holds any.
pub fn pick_tags_field(m: &Vec<(String, JsonValue)>) -> (r: Option<Vec<String>>)
    ensures
        match r {
            Some(t) => pick_tags_from(m@, tag_keys()) == Some(strings_view(t@)),
            None => pick_tags_from(m@, tag_keys()) is None,
        },
{
    let keys: [&str; 6] = ["tags", "book_tags", "tag", "category", "categories", "classify_tags"];
    let mut i: usize = 0;
    proof {
        reveal_strlit("tags");
        reveal_strlit("book_tags");
        reveal_strlit("tag");
        reveal_strlit("category");
        reveal_strlit("categories");
        reveal_strlit("classify_tags");
        assert(strs_view(keys@) =~= tag_keys());
        assert(tag_keys().skip(0) =~= tag_keys());
    }
    while i < 6
        invariant
            i <= 6,
            keys@.len() == 6,
            strs_view(keys@) == tag_keys(),
            pick_tags_from(m@, tag_keys()) == pick_tags_from(m@, tag_keys().skip(i as int)),
        decreases 6 - i,
    {
        let ghost rest = tag_keys().skip(i as int);
        assert(rest[0] == keys@[i as int]@);
        assert(rest.drop_first() =~= tag_keys().skip(i + 1));
        if let Some(k) = find_key(m, keys[i]) {
            let items = tags_from_value(&m[k].1);
            if items.len() > 0 {
                return Some(items);
            }
        }
        i += 1;
    }
    assert(tag_keys().skip(6) =~= Seq::<Seq<char>>::empty());
    None
}

/// What a value gives as a chapter count.
fn value_count(v: &JsonValue) -> (r: Option<usize>)
    ensures
        r == count_of(*v),
{
    match v {
        JsonValue::PosInt(n) => Some(*n as usize),
        JsonValue::NegInt(_) => Some(0),
        JsonValue::Str(s) => {
            let t = trim_str(s.as_str());
            match parse_unsigned(t.as_slice(), usize::MAX as u64) {
                Some(n) => Some(n as usize),
                None => None,
            }
        },
        _ => None,
    }
}

/// The chapter count under the first of the count keys that gives one.
pub fn pick_chapter_count(m: &Vec<(String, JsonValue)>) -> (r: Option<usize>)
    ensures
        r == pick_count_from(m@, count_keys()),
{
    let keys: [&str; 5] = ["item_cnt", "book_item_cnt", "chapter_num", "chapter_count", "chapter_total_cnt"];
    let mut i: usize = 0;
    proof {
        reveal_strlit("item_cnt");
        reveal_strlit("book_item_cnt");
        reveal_strlit("chapter_num");
        reveal_strlit("chapter_count");
        reveal_strlit("chapter_total_cnt");
        assert(strs_view(keys@) =~= count_keys());
        assert(count_keys().skip(0) =~= count_keys());
    }
    while i < 5
        invariant
            i <= 5,
            keys@.len() == 5,
            strs_view(keys@) == count_keys(),
            pick_count_from(m@, count_keys()) == pick_count_from(m@, count_keys().skip(i as int)),
        decreases 5 - i,
    {
        let ghost rest = count_keys().skip(i as int);
        assert(rest[0] == keys@[i as int]@);
        assert(rest.drop_first() =~= count_keys().skip(i + 1));
        if let Some(k) = find_key(m, keys[i]) {
            let c = value_count(&m[k].1);
            if c.is_some() {
                return c;
            }
        }
        i += 1;
    }
    assert(count_keys().skip(5) =~= Seq::<Seq<char>>::empty());
    None
}

/// The keys a search result's description is looked for under, in order.
pub open spec fn description_keys() -> Seq<Seq<char>> {
    seq!["abstract"@, "desc"@, "description"@, "brief"@, "intro"@, "summary"@, "recommendation_reason"@, "book_abstract"@]
}

/// The keys a book directory's description is looked for under, in order.
pub open spec fn directory_description_keys() -> Seq<Seq<char>> {
    seq!["description"@, "desc"@, "abstract"@, "intro"@, "summary"@, "book_abstract"@, "recommendation_reason"@]
}

/// The text under `keys` in the first of `maps` that has one.
pub open spec fn first_description(maps: Seq<Seq<(String, JsonValue)>>, keys: Seq<Seq<char>>) -> Option<Seq<char>>
    decreases maps.len(),
{
    if maps.len() == 0 {
        None
    } else {
        match pick_string_spec(maps[0], keys) {
            Some(d) => Some(d),
            None => first_description(maps.drop_first(), keys),
        }
    }
}

/// The tags of the first of `maps` that holds any.
pub open spec fn first_tags(maps: Seq<Seq<(String, JsonValue)>>) -> Option<Seq<Seq<char>>>
    decreases maps.len(),
{
    if maps.len() == 0 {
        None
    } else {
        match pick_tags_from(maps[0], tag_keys()) {
            Some(t) => Some(t),
            None => first_tags(maps.drop_first()),
        }
    }
}

/// The chapter count of the first of `maps` that gives one.
pub open spec fn first_count(maps: Seq<Seq<(String, JsonValue)>>) -> Option<usize>
    decreases maps.len(),
{
    if maps.len() == 0 {
        None
    } else {
        match pick_count_from(maps[0], count_keys()) {
            Some(c) => Some(c),
            None => first_count(maps.drop_first()),
        }
    }
}

/// The description (under `keys`), tags and chapter count found first
/// among `maps`.
fn pick_details(maps: &Vec<&Vec<(String, JsonValue)>>, keys: &[&str]) -> (r: (Option<String>, Vec<String>, Option<usize>))
    ensures
        ({
            let mv = maps@.map_values(|m: &Vec<(String, JsonValue)>| m@);
            &&& (match r.0 { Some(s) => first_description(mv, strs_view(keys@)) == Some(s@), None => first_description(mv, strs_view(keys@)) is None })
            &&& strings_view(r.1@) == (match first_tags(mv) { Some(t) => t, None => Seq::empty() })
            &&& r.2 == first_count(mv)
        }),
{
    let ghost mv = maps@.map_values(|m: &Vec<(String, JsonValue)>| m@);
    let mut description: Option<String> = None;
    let mut tags: Option<Vec<String>> = None;
    let mut chapter_count: Option<usize> = None;
    let mut i: usize = 0;
    assert(mv.skip(0) =~= mv);
    while i < maps.len()
        invariant
            i <= maps@.len(),
            mv == maps@.map_values(|m: &Vec<(String, JsonValue)>| m@),
            match description {
                Some(s) => first_description(mv, strs_view(keys@)) == Some(s@),
                None => first_description(mv, strs_view(keys@)) == first_description(mv.skip(i as int), strs_view(keys@)),
            },
            match tags {
                Some(t) => first_tags(mv) == Some(strings_view(t@)),
                None => first_tags(mv) == first_tags(mv.skip(i as int)),
            },
            match chapter_count {
                Some(c) => first_count(mv) == Some(c),
                None => first_count(mv) == first_count(mv.skip(i as int)),
            },
        decreases maps@.len() - i,
    {
        let m = maps[i];
        assert(mv.skip(i as int)[0] == m@);
        assert(mv.skip(i as int).drop_first() =~= mv.skip(i + 1));
        if description.is_none() {
            description = pick_string_field(m, keys);
        }
        if tags.is_none() {
            tags = pick_tags_field(m);
        }
        if chapter_count.is_none() {
            chapter_count = pick_chapter_count(m);
        }
        i += 1;
    }
    proof {
        assert(mv.skip(i as int) =~= Seq::<Seq<(String, JsonValue)>>::empty());
    }
    let tags_v = match tags {
        Some(t) => t,
        None => {
            let e: Vec<String> = Vec::new();
            assert(strings_view(e@) =~= Seq::<Seq<char>>::empty());
            e
        },
    };
    (description, tags_v, chapter_count)
}

/// Details holding only a description, tags and a chapter count.
fn detail_of(description: Option<String>, tags: Vec<String>, chapter_count: Option<usize>) -> (d: BookDetail)
    ensures
        d.description == description,
        d.tags == tags,
        d.chapter_count == chapter_count,
        d.finished is None && d.cover_url is None && d.detail_cover_url is None && d.word_count is None,
        d.score_bits is None && d.read_count is None && d.read_count_text is None && d.book_short_name is None,
        d.original_book_name is None && d.first_chapter_title is None && d.last_chapter_title is None,
        d.category is None && d.cover_primary_color is None,
{
    BookDetail {
        description,
        tags,
        chapter_count,
        finished: None,
        cover_url: None,
        detail_cover_url: None,
        word_count: None,
        score_bits: None,
        read_count: None,
        read_count_text: None,
        book_short_name: None,
        original_book_name: None,
        first_chapter_title: None,
        last_chapter_title: None,
        category: None,
        cover_primary_color: None,
    }
}

/// Whether `d` holds nothing beyond a description, tags and a chapter count.
pub open spec fn only_basic(d: BookDetail) -> bool {
    &&& d.finished is None && d.cover_url is None && d.detail_cover_url is None && d.word_count is None
    &&& d.score_bits is None && d.read_count is None && d.read_count_text is None && d.book_short_name is None
    &&& d.original_book_name is None && d.first_chapter_title is None && d.last_chapter_title is None
    &&& d.category is None && d.cover_primary_color is None
}

/// The details of a search result: the description, tags and chapter
/// count found first among its objects (no tags when none has any); the
/// other details are not read from search results.
pub fn detail_from_search(raw: &JsonValue) -> (d: BookDetail)
    ensures
        ({
            let maps = collect_maps_spec(*raw);
            &&& (match d.description { Some(s) => first_description(maps, description_keys()) == Some(s@), None => first_description(maps, description_keys()) is None })
            &&& strings_view(d.tags@) == (match first_tags(maps) { Some(t) => t, None => Seq::empty() })
            &&& d.chapter_count == first_count(maps)
            &&& only_basic(d)
        }),
{
    let maps = collect_maps(raw);
    let keys: [&str; 8] = ["abstract", "desc", "description", "brief", "intro", "summary", "recommendation_reason", "book_abstract"];
    proof {
        reveal_strlit("abstract");
        reveal_strlit("desc");
        reveal_strlit("description");
        reveal_strlit("brief");
        reveal_strlit("intro");
        reveal_strlit("summary");
        reveal_strlit("recommendation_reason");
        reveal_strlit("book_abstract");
        assert(strs_view(keys@) =~= description_keys());
    }
    let (description, tags, chapter_count) = pick_details(&maps, &keys);
    detail_of(description, tags, chapter_count)
}

/// The details of a book directory with `n_chapters` chapters: the
/// description (under the directory's keys) and tags found first among its
/// objects, and the number of chapters.
pub fn detail_from_directory(raw: &JsonValue, n_chapters: usize) -> (d: BookDetail)
    ensures
        ({
            let maps = collect_maps_spec(*raw);
            &&& (match d.description {
                Some(s) => first_description(maps, directory_description_keys()) == Some(s@),
                None => first_description(maps, directory_description_keys()) is None,
            })
            &&& strings_view(d.tags@) == (match first_tags(maps) { Some(t) => t, None => Seq::empty() })
            &&& d.chapter_count == Some(n_chapters)
            &&& only_basic(d)
        }),
{
    let maps = collect_maps(raw);
    let keys: [&str; 7] = ["description", "desc", "abstract", "intro", "summary", "book_abstract", "recommendation_reason"];
    proof {
        reveal_strlit("abstract");
        reveal_strlit("desc");
        reveal_strlit("description");
        reveal_strlit("intro");
        reveal_strlit("summary");
        reveal_strlit("recommendation_reason");
        reveal_strlit("book_abstract");
        assert(strs_view(keys@) =~= directory_description_keys());
    }
    let (description, tags, _) = pick_details(&maps, &keys);
    detail_of(description, tags, Some(n_chapters))
}

/// The status files of a book folder, newest name first: "status.json",
/// then "chapter_status_<book id>.json".
pub fn status_file_names(book_id: &str) -> (r: (String, String))
    ensures
        r.0@ == "status.json"@,
        r.1@ == "chapter_status_"@ + book_id@ + ".json"@,
{
    let mut v = chars_of("chapter_status_");
    v.extend_from_slice(chars_of(book_id).as_slice());
    v.extend_from_slice(chars_of(".json").as_slice());
    (String::from_str("status.json"), string_of(v.as_slice()))
}

/// The number of chapters a status file records as downloaded: the number
/// of entries of its "downloaded" object, if it has one.
pub open spec fn downloaded_count_spec(raw: JsonValue) -> Option<usize> {
    match raw {
        JsonValue::Object(m) => match lookup(m@, "downloaded"@) {
            Some(JsonValue::Object(d)) => Some(d@.len() as usize),
            _ => None,
        },
        _ => None,
    }
}

/// The number of chapters a status file records as downloaded.
pub fn downloaded_count(raw: &JsonValue) -> (r: Option<usize>)
    ensures
        r == downloaded_count_spec(*raw),
{
    match raw {
        JsonValue::Object(m) => match find_key(m, "downloaded") {
            Some(i) => match &m[i].1 {
                JsonValue::Object(d) => Some(d.len()),
                _ => None,
            },
            None => None,
        },
        _ => None,
    }
}

} // verus!
