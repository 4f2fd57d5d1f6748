//! Extracting a book id from user input: a share link, a bare number, or a
//! fragment of a link.

use crate::text::{all_ascii_digits, all_digits, chars_of, string_of, trim_chars, trim_seq};
use vstd::prelude::*;

verus! {

/// The text of the leftmost match of regular expression `pattern` in `text`
/// (`None` when there is none or the pattern does not compile).
pub uninterp spec fn regex_find_spec(pattern: Seq<char>, text: Seq<char>) -> Option<Seq<char>>;

/// For the leftmost match of `pattern` in `text`, the text of capture group
/// `group` (empty when the group took no part); `None` when there is no match
/// or the pattern does not compile.
pub uninterp spec fn regex_capture_spec(pattern: Seq<char>, group: nat, text: Seq<char>) -> Option<
    Seq<char>,
>;

/// `regex::Regex::new(pattern)` then `find(text)`: the contract claims only
/// that the result is a function of the pattern and the text.
#[verifier::external_body]
fn regex_find(pattern: &str, text: &str) -> (r: Option<String>)
    ensures
        match r {
            Some(m) => regex_find_spec(pattern@, text@) == Some(m@),
            None => regex_find_spec(pattern@, text@) is None,
        },
{
    match regex::Regex::new(pattern) {
        Ok(re) => re.find(text).map(|m| m.as_str().to_string()),
        Err(_) => None,
    }
}

/// `regex::Regex::new(pattern)` then `captures(text)` and group `group`: the
/// contract claims only that the result is a function of its arguments.
#[verifier::external_body]
fn regex_capture(pattern: &str, group: usize, text: &str) -> (r: Option<String>)
    ensures
        match r {
            Some(m) => regex_capture_spec(pattern@, group as nat, text@) == Some(m@),
            None => regex_capture_spec(pattern@, group as nat, text@) is None,
        },
{
    match regex::Regex::new(pattern) {
        Ok(re) => re.captures(text).map(|c| c.get(group).map(|m| m.as_str()).unwrap_or("").to_string()),
        Err(_) => None,
    }
}

/// The first of two optional values that is present.
pub open spec fn or_else<T>(a: Option<T>, b: Option<T>) -> Option<T> {
    match a {
        Some(x) => Some(x),
        None => b,
    }
}

/// The book id in `input`, looked for in this order: in the first `http(s)://`
/// link (a `/page/<digits>` path, else a `book_id=`/`bookId=` query
/// parameter), then the whole trimmed input when it is all ASCII digits (so
/// also when it is empty), then a `/page/<digits>` path or a
/// `book_id=`/`bookId=` parameter anywhere in the input.
pub open spec fn parse_book_id_spec(input: Seq<char>) -> Option<Seq<char>> {
    let t = trim_seq(input);
    let from_link = match regex_find_spec("https?://\\S+"@, t) {
        Some(u) => or_else(
            regex_capture_spec("/page/(\\d+)"@, 1, u),
            regex_capture_spec("(?i)[?&](book_id|bookId)=([0-9]+)"@, 2, u),
        ),
        None => None,
    };
    if from_link is Some {
        from_link
    } else if all_digits(t) {
        Some(t)
    } else {
        or_else(
            regex_capture_spec("/page/(\\d+)"@, 1, t),
            regex_capture_spec("(?i)(book_id|bookId)=([0-9]+)"@, 2, t),
        )
    }
}

/// The book id chosen from the trimmed input `trimmed` and the regular
/// expression results on it: `link_page`/`link_query` are the `/page/<digits>`
/// and query-parameter captures in its first link (both `None` without a
/// link), `page`/`query` the same captures in the whole text.
pub open spec fn pick_book_id_spec(
    trimmed: Seq<char>,
    link_page: Option<Seq<char>>,
    link_query: Option<Seq<char>>,
    page: Option<Seq<char>>,
    query: Option<Seq<char>>,
) -> Option<Seq<char>> {
    if link_page is Some {
        link_page
    } else if link_query is Some {
        link_query
    } else if all_digits(trimmed) {
        Some(trimmed)
    } else {
        or_else(page, query)
    }
}

/// The view of an optional string.
pub open spec fn opt_view(o: Option<String>) -> Option<Seq<char>> {
    match o {
        Some(s) => Some(s@),
        None => None,
    }
}

/// Chooses the book id from the regular expression results on the input.
pub fn pick_book_id(
    trimmed: &str,
    link_page: Option<String>,
    link_query: Option<String>,
    page: Option<String>,
    query: Option<String>,
) -> (r: Option<String>)
    ensures
        opt_view(r) == pick_book_id_spec(
            trimmed@,
            opt_view(link_page),
            opt_view(link_query),
            opt_view(page),
            opt_view(query),
        ),
{
    if link_page.is_some() {
        return link_page;
    }
    if link_query.is_some() {
        return link_query;
    }
    let t = chars_of(trimmed);
    if all_ascii_digits(t.as_slice()) {
        return Some(string_of(t.as_slice()));
    }
    if page.is_some() {
        page
    } else {
        query
    }
}

/// Extracts a book id from a share link, a bare number or a link fragment.
pub fn parse_book_id(input: &str) -> (r: Option<String>)
    ensures
        opt_view(r) == parse_book_id_spec(input@),
{
    let t = trim_chars(chars_of(input).as_slice());
    let trimmed = string_of(t.as_slice());
    let (link_page, link_query) = match regex_find("https?://\\S+", trimmed.as_str()) {
        Some(url) => (
            regex_capture("/page/(\\d+)", 1, url.as_str()),
            regex_capture("(?i)[?&](book_id|bookId)=([0-9]+)", 2, url.as_str()),
        ),
        None => (None, None),
    };
    let page = regex_capture("/page/(\\d+)", 1, trimmed.as_str());
    let query = regex_capture("(?i)(book_id|bookId)=([0-9]+)", 2, trimmed.as_str());
    pick_book_id(trimmed.as_str(), link_page, link_query, page, query)
}

} // verus!
