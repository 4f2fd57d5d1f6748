//! The web interface's view of the download folder: which files are listed
//! and offered, how request paths and download headers are formed, which
//! folders are internal caches, and how scan results are reported.

use crate::text::{
    all_ascii_digits, all_digits, chars_eq_str, chars_of, lower_seq, string_of, strings_view, trim_chars,
    trim_seq,
};
use vstd::prelude::*;

verus! {

/// The file types the library lists and serves.
pub open spec fn allowed_ext(ext: Seq<char>) -> bool {
    ext == "epub"@ || ext == "txt"@ || ext == "mp3"@ || ext == "wav"@
}

/// Whether files with this (lowercase) extension are listed and served.
pub fn is_allowed_ext(ext: &str) -> (b: bool)
    ensures
        b == allowed_ext(ext@),
{
    let v = chars_of(ext);
    chars_eq_str(v.as_slice(), "epub") || chars_eq_str(v.as_slice(), "txt") || chars_eq_str(v.as_slice(), "mp3")
        || chars_eq_str(v.as_slice(), "wav")
}

/// The content type served for an allowed extension.
pub open spec fn mime_spec(ext: Seq<char>) -> Seq<char> {
    if ext == "epub"@ { "application/epub+zip"@ }
    else if ext == "txt"@ { "text/plain; charset=utf-8"@ }
    else if ext == "mp3"@ { "audio/mpeg"@ }
    else if ext == "wav"@ { "audio/wav"@ }
    else { "application/octet-stream"@ }
}

/// The content type served for a file extension.
pub fn mime_for_ext(ext: &str) -> (r: &'static str)
    ensures
        r@ == mime_spec(ext@),
{
    let v = chars_of(ext);
    if chars_eq_str(v.as_slice(), "epub") { "application/epub+zip" }
    else if chars_eq_str(v.as_slice(), "txt") { "text/plain; charset=utf-8" }
    else if chars_eq_str(v.as_slice(), "mp3") { "audio/mpeg" }
    else if chars_eq_str(v.as_slice(), "wav") { "audio/wav" }
    else { "application/octet-stream" }
}

/// `s` with every `\` replaced by `/`.
pub open spec fn forward_slashes(s: Seq<char>) -> Seq<char> {
    s.map_values(|c: char| if c == '\\' { '/' } else { c })
}

/// `s` without leading `/`.
pub open spec fn trim_start_slash(s: Seq<char>) -> Seq<char>
    decreases s.len(),
{
    if s.len() > 0 && s[0] == '/' { trim_start_slash(s.drop_first()) } else { s }
}

/// `s` without trailing `/`.
pub open spec fn trim_end_slash(s: Seq<char>) -> Seq<char>
    decreases s.len(),
{
    if s.len() > 0 && s.last() == '/' { trim_end_slash(s.drop_last()) } else { s }
}

/// A library-relative path in canonical form: forward slashes, no slash at
/// either end.
pub open spec fn normalized_rel(s: Seq<char>) -> Seq<char> {
    trim_end_slash(trim_start_slash(forward_slashes(s)))
}

/// Brings a requested library-relative path to canonical form.
pub fn normalize_rel(rel: &str) -> (r: String)
    ensures
        r@ == normalized_rel(rel@),
{
    let v = chars_of(rel);
    let mut f: Vec<char> = Vec::new();
    for i in 0..v.len()
        invariant
            f@ == forward_slashes(v@.take(i as int)),
    {
        let c = v[i];
        f.push(if c == '\\' { '/' } else { c });
        assert(forward_slashes(v@.take(i as int)).push(if c == '\\' { '/' } else { c }) =~= forward_slashes(
            v@.take(i + 1),
        ));
    }
    assert(v@.take(v@.len() as int) =~= v@);
    let mut a: usize = 0;
    assert(f@.skip(0) =~= f@);
    while a < f.len() && f[a] == '/'
        invariant
            a <= f@.len(),
            trim_start_slash(f@.skip(a as int)) == trim_start_slash(f@),
        decreases f@.len() - a,
    {
        assert(f@.skip(a as int).drop_first() =~= f@.skip(a + 1));
        a = a + 1;
    }
    assert(a < f@.len() ==> f@.skip(a as int)[0] == f@[a as int]);
    let mut b: usize = f.len();
    while b > a && f[b - 1] == '/'
        invariant
            a <= b <= f@.len(),
            trim_end_slash(f@.subrange(a as int, b as int)) == trim_end_slash(f@.skip(a as int)),
        decreases b,
    {
        assert(f@.subrange(a as int, b as int).drop_last() =~= f@.subrange(a as int, b - 1));
        b = b - 1;
    }
    assert(f@.subrange(a as int, f@.len() as int) =~= f@.skip(a as int));
    assert(b > a ==> f@.subrange(a as int, b as int).last() == f@[b - 1]);
    let mut out: Vec<char> = Vec::new();
    let mut i = a;
    while i < b
        invariant
            a <= i <= b <= f@.len(),
            out@ == f@.subrange(a as int, i as int),
        decreases b - i,
    {
        out.push(f[i]);
        assert(f@.subrange(a as int, i as int).push(f@[i as int]) =~= f@.subrange(a as int, i + 1));
        i = i + 1;
    }
    string_of(out.as_slice())
}

/// One entry of a library listing.
#[derive(Debug, Clone)]
pub struct LibraryScanRow {
    pub kind: String,
    pub name: String,
    pub rel_path: String,
    pub ext: String,
    pub size: u64,
    pub file_count: Option<u64>,
    pub modified_ms: Option<u64>,
}

/// What a directory entry is.
#[derive(Debug, Clone, Copy, PartialEq, Eq, Structural)]
pub enum EntryKind {
    Dir,
    File,
    /// Neither (a link to nothing, a device, ...).
    Other,
}

/// A path with its backslashes turned into slashes.
pub open spec fn slashed(p: Seq<char>) -> Seq<char> {
    p.map_values(|c: char| if c == '\\' { '/' } else { c })
}

/// A path with its backslashes turned into slashes.
pub fn slash_path(p: &str) -> (r: String)
    ensures
        r@ == slashed(p@),
{
    let v = chars_of(p);
    let mut out: Vec<char> = Vec::new();
    for i in 0..v.len()
        invariant
            v@ == p@,
            out@ == slashed(v@.take(i as int)),
    {
        out.push(if v[i] == '\\' { '/' } else { v[i] });
        assert(slashed(v@.take(i as int)).push(if v@[i as int] == '\\' { '/' } else { v@[i as int] }) =~= slashed(v@.take(i + 1)));
    }
    assert(v@.take(v@.len() as int) =~= v@);
    string_of(out.as_slice())
}

/// The listing row of a directory entry, given its slashed path below the
/// library folder, its file name, its kind, whether it is an internal book
/// cache folder, its extension, size and modification time: folders are
/// listed unless they are caches (with no size), files only with an allowed
/// extension (compared in lowercase), and nothing else.
pub open spec fn entry_row_spec(
    rel_path: Seq<char>,
    name: Seq<char>,
    kind: EntryKind,
    internal_cache: bool,
    ext: Seq<char>,
    size: u64,
    modified_ms: Option<u64>,
) -> Option<(Seq<char>, Seq<char>, Seq<char>, Seq<char>, u64, Option<u64>, Option<u64>)> {
    match kind {
        EntryKind::Dir => if internal_cache { None } else { Some(("dir"@, name, rel_path, Seq::empty(), 0u64, None, modified_ms)) },
        EntryKind::File => if allowed_ext(lower_seq(ext)) {
            Some(("file"@, name, rel_path, lower_seq(ext), size, None, modified_ms))
        } else {
            None
        },
        EntryKind::Other => None,
    }
}

/// A listing row as plain values.
pub open spec fn row_view(r: LibraryScanRow) -> (Seq<char>, Seq<char>, Seq<char>, Seq<char>, u64, Option<u64>, Option<u64>) {
    (r.kind@, r.name@, r.rel_path@, r.ext@, r.size, r.file_count, r.modified_ms)
}

/// The listing row of a directory entry, if it is listed.
pub fn row_from_entry(
    rel_path: String,
    name: String,
    kind: EntryKind,
    internal_cache: bool,
    ext: &str,
    size: u64,
    modified_ms: Option<u64>,
) -> (r: Option<LibraryScanRow>)
    ensures
        r matches Some(row) ==> entry_row_spec(rel_path@, name@, kind, internal_cache, ext@, size, modified_ms) == Some(row_view(row)),
        r is None ==> entry_row_spec(rel_path@, name@, kind, internal_cache, ext@, size, modified_ms) is None,
{
    match kind {
        EntryKind::Dir => {
            if internal_cache {
                None
            } else {
                Some(LibraryScanRow {
                    kind: String::from_str("dir"),
                    name,
                    rel_path,
                    ext: String::new(),
                    size: 0,
                    file_count: None,
                    modified_ms,
                })
            }
        },
        EntryKind::File => {
            let lower = string_of(crate::text::to_lower_chars(chars_of(ext).as_slice()).as_slice());
            if !is_allowed_ext(lower.as_str()) {
                return None;
            }
            Some(LibraryScanRow { kind: String::from_str("file"), name, rel_path, ext: lower, size, file_count: None, modified_ms })
        },
        EntryKind::Other => None,
    }
}

/// The lowercase of a text (`str::to_lowercase`, Unicode's full mapping).
pub uninterp spec fn lowercase_of(s: Seq<char>) -> Seq<char>;

/// `str::to_lowercase`: the contract claims only that the result is a
/// function of the text (the mapping is Unicode's, fixed by the standard
/// library and independent of any locale).
#[verifier::external_body]
fn lowercase(s: &str) -> (r: String)
    ensures
        r@ == lowercase_of(s@),
{
    s.to_lowercase()
}

/// Whether `needle` occurs in `hay` as a run of characters.
pub open spec fn contains_text(hay: Seq<char>, needle: Seq<char>) -> bool {
    exists|i: int| 0 <= i && i + needle.len() <= hay.len() && #[trigger] hay.subrange(i, i + needle.len()) == needle
}

/// Whether `needle` occurs in `hay`.
fn text_contains(hay: &[char], needle: &[char]) -> (b: bool)
    ensures
        b == contains_text(hay@, needle@),
{
    if needle.len() > hay.len() {
        return false;
    }
    if needle.len() == 0 {
        proof {
            let z: int = 0;
            assert(hay@.subrange(z, z + needle@.len()) =~= needle@);
        }
        return true;
    }
    let hl = hay.len();
    let last = hl - needle.len();
    let mut i: usize = 0;
    while i < last + 1
        invariant
            needle@.len() > 0,
            hl == hay@.len(),
            last + needle@.len() == hay@.len(),
            i <= last + 1,
            forall|k: int| 0 <= k < i ==> #[trigger] hay@.subrange(k, k + needle@.len()) != needle@,
        decreases last + 1 - i,
    {
        let mut j: usize = 0;
        let mut same = true;
        while j < needle.len()
            invariant
                i <= last,
                hl == hay@.len(),
                last + needle@.len() == hay@.len(),
                j <= needle@.len(),
                same == forall|m: int| 0 <= m < j ==> hay@[i + m] == needle@[m],
            decreases needle@.len() - j,
        {
            if hay[i + j] != needle[j] {
                same = false;
            }
            j = j + 1;
        }
        if same {
            assert(hay@.subrange(i as int, i + needle@.len()) =~= needle@);
            return true;
        }
        proof {
            let k = choose|m: int| 0 <= m < needle@.len() && hay@[i + m] != needle@[m];
            assert(hay@.subrange(i as int, i + needle@.len())[k] != needle@[k]);
        }
        i = i + 1;
    }
    proof {
        assert forall|k: int| 0 <= k && k + needle@.len() <= hay@.len() implies #[trigger] hay@.subrange(k, k + needle@.len()) != needle@ by {
            assert(k < i);
        }
    }
    false
}

/// Whether a listing row's name holds the keyword, both in lowercase.
pub open spec fn name_matches(row: LibraryScanRow, keyword: Seq<char>) -> bool {
    contains_text(lowercase_of(row.name@), lowercase_of(keyword))
}

/// The rows whose names hold the keyword (ignoring case), in order.
pub open spec fn filter_named(rows: Seq<LibraryScanRow>, keyword: Seq<char>) -> Seq<LibraryScanRow>
    decreases rows.len(),
{
    if rows.len() == 0 {
        rows
    } else {
        let rest = filter_named(rows.drop_last(), keyword);
        if name_matches(rows.last(), keyword) { rest.push(rows.last()) } else { rest }
    }
}

/// Keeps the listing rows whose file or folder name holds `keyword`,
/// ignoring case.
pub fn filter_by_name(rows: Vec<LibraryScanRow>, keyword: &str) -> (r: Vec<LibraryScanRow>)
    ensures
        r@ == filter_named(rows@, keyword@),
{
    let kw = lowercase(keyword);
    let kwc = chars_of(kw.as_str());
    let ghost all = rows@;
    let n = rows.len();
    let mut rest = rows;
    let mut out: Vec<LibraryScanRow> = Vec::new();
    let mut k: usize = 0;
    while rest.len() > 0
        invariant
            kwc@ == lowercase_of(keyword@),
            all.len() == n,
            k + rest@.len() == all.len(),
            rest@ == all.skip(k as int),
            out@ == filter_named(all.take(k as int), keyword@),
        decreases rest@.len(),
    {
        let row = rest.remove(0);
        assert(row == all[k as int]);
        let name = lowercase(row.name.as_str());
        let hit = text_contains(chars_of(name.as_str()).as_slice(), kwc.as_slice());
        assert(all.take(k + 1).drop_last() =~= all.take(k as int));
        assert(all.take(k + 1).last() == row);
        if hit {
            out.push(row);
        }
        k = k + 1;
        assert(rest@ =~= all.skip(k as int));
    }
    assert(all.take(k as int) =~= all);
    out
}

/// Whether a file found beside a previewed book is only its cover: an image
/// (jpg, jpeg, png, webp or gif, in any case) named after the book's safe
/// name or "cover" (in any case); folders never are. The terminal and the
/// web interface count the same images.
pub open spec fn cover_like_spec(is_dir: bool, stem: Option<Seq<char>>, ext: Option<Seq<char>>, safe_name: Seq<char>) -> bool {
    !is_dir && stem is Some && ext is Some && {
        let e = lower_seq(ext->0);
        &&& (e == "jpg"@ || e == "jpeg"@ || e == "png"@ || e == "webp"@ || e == "gif"@)
        &&& (stem->0 == safe_name || lower_seq(stem->0) == lower_seq("cover"@))
    }
}

/// Whether a file found beside a previewed book is only its cover.
pub fn is_cover_like(is_dir: bool, stem: Option<&str>, ext: Option<&str>, safe_name: &str) -> (b: bool)
    ensures
        b == cover_like_spec(
            is_dir,
            match stem { Some(s) => Some(s@), None => None },
            match ext { Some(e) => Some(e@), None => None },
            safe_name@,
        ),
{
    if is_dir {
        return false;
    }
    let (st, ex) = match (stem, ext) {
        (Some(st), Some(ex)) => (st, ex),
        _ => return false,
    };
    let e = crate::text::to_lower_chars(chars_of(ex).as_slice());
    let is_img = chars_eq_str(e.as_slice(), "jpg") || chars_eq_str(e.as_slice(), "jpeg") || chars_eq_str(e.as_slice(), "png")
        || chars_eq_str(e.as_slice(), "webp") || chars_eq_str(e.as_slice(), "gif");
    if !is_img {
        return false;
    }
    crate::text::str_eq(st, safe_name) || crate::text::eq_ignore_ascii_case(st, "cover")
}

/// An entry of a previewed book's folder: whether it is a folder, its file
/// stem and its extension.
#[derive(Debug, Clone)]
pub struct FolderEntry {
    pub is_dir: bool,
    pub stem: Option<String>,
    pub ext: Option<String>,
}

/// Whether a folder entry is only the book's cover.
pub open spec fn entry_cover_like(e: FolderEntry, safe_name: Seq<char>) -> bool {
    cover_like_spec(
        e.is_dir,
        match e.stem { Some(s) => Some(s@), None => None },
        match e.ext { Some(x) => Some(x@), None => None },
        safe_name,
    )
}

/// What becomes of a previewed book's folder once the preview closes.
#[derive(Debug, Clone, Copy, PartialEq, Eq, Structural)]
pub enum CoverCleanup {
    /// It holds a download or other files: left alone.
    Keep,
    /// It is empty: removed.
    RemoveFolder,
    /// It holds only cover images: they are removed, then the folder if it
    /// is empty.
    RemoveFiles,
}

/// The cleanup of a previewed book's folder: a folder with a download
/// status is kept; an empty one goes; one holding only cover images loses
/// them; any other file keeps the folder as it is.
pub open spec fn cover_cleanup_spec(has_status: bool, entries: Seq<FolderEntry>, safe_name: Seq<char>) -> CoverCleanup {
    if has_status {
        CoverCleanup::Keep
    } else if entries.len() == 0 {
        CoverCleanup::RemoveFolder
    } else if forall|i: int| 0 <= i < entries.len() ==> #[trigger] entry_cover_like(entries[i], safe_name) {
        CoverCleanup::RemoveFiles
    } else {
        CoverCleanup::Keep
    }
}

/// Decides the cleanup of a previewed book's folder.
pub fn cover_cleanup(has_status: bool, entries: &[FolderEntry], safe_name: &str) -> (r: CoverCleanup)
    ensures
        r == cover_cleanup_spec(has_status, entries@, safe_name@),
{
    if has_status {
        return CoverCleanup::Keep;
    }
    if entries.len() == 0 {
        return CoverCleanup::RemoveFolder;
    }
    let mut i: usize = 0;
    while i < entries.len()
        invariant
            i <= entries@.len(),
            forall|j: int| 0 <= j < i ==> #[trigger] entry_cover_like(entries@[j], safe_name@),
        decreases entries@.len() - i,
    {
        let e = &entries[i];
        let stem = match &e.stem {
            Some(s) => Some(s.as_str()),
            None => None,
        };
        let ext = match &e.ext {
            Some(x) => Some(x.as_str()),
            None => None,
        };
        if !is_cover_like(e.is_dir, stem, ext, safe_name) {
            assert(!entry_cover_like(entries@[i as int], safe_name@));
            return CoverCleanup::Keep;
        }
        i = i + 1;
    }
    CoverCleanup::RemoveFiles
}

/// Whether a file with this extension is taken as a downloaded cover
/// (jpg, jpeg or png, in any case).
pub fn is_cover_image_ext(ext: &str) -> (b: bool)
    ensures
        b == (lower_seq(ext@) == "jpg"@ || lower_seq(ext@) == "jpeg"@ || lower_seq(ext@) == "png"@),
{
    let e = crate::text::to_lower_chars(chars_of(ext).as_slice());
    chars_eq_str(e.as_slice(), "jpg") || chars_eq_str(e.as_slice(), "jpeg") || chars_eq_str(e.as_slice(), "png")
}

/// The state of a listing of one library folder.
#[derive(Debug, Clone)]
pub struct LibraryScanInfo {
    pub path: String,
    pub running: bool,
    pub scanned: usize,
    pub items: Vec<LibraryScanRow>,
    pub error: Option<String>,
    pub started_ms: u64,
    pub updated_ms: u64,
}

/// The listing reported for a folder that has not been scanned: idle, empty,
/// without error or times.
pub fn empty_snapshot(path: String) -> (r: LibraryScanInfo)
    ensures
        r.path == path,
        !r.running,
        r.scanned == 0,
        r.items@.len() == 0,
        r.error is None,
        r.started_ms == 0,
        r.updated_ms == 0,
{
    LibraryScanInfo {
        path,
        running: false,
        scanned: 0,
        items: Vec::new(),
        error: None,
        started_ms: 0,
        updated_ms: 0,
    }
}

/// The part of a folder name before the first `_` (all of it without one).
pub open spec fn name_prefix(name: Seq<char>) -> Seq<char>
    decreases name.len(),
{
    if name.len() == 0 {
        name
    } else if name.last() == '_' && !name.drop_last().contains('_') {
        name.drop_last()
    } else if name.drop_last().contains('_') {
        name_prefix(name.drop_last())
    } else {
        name
    }
}

/// The book id a download-cache folder is named by: the part of the name
/// before the first `_`, when it is a non-empty run of ASCII digits.
pub open spec fn cache_book_id(name: Seq<char>) -> Option<Seq<char>> {
    let id = name_prefix(name);
    if id.len() > 0 && all_digits(id) { Some(id) } else { None }
}

/// The part before the first `_` is the prefix up to the first `_`.
proof fn lemma_name_prefix(name: Seq<char>, k: int)
    requires
        0 <= k <= name.len(),
        forall|j: int| 0 <= j < k ==> name[j] != '_',
        k < name.len() ==> name[k] == '_',
    ensures
        name_prefix(name) == name.take(k),
    decreases name.len(),
{
    if name.len() == 0 {
        assert(name.take(k) =~= name);
    } else if k == name.len() {
        assert(!name.drop_last().contains('_')) by {
            if name.drop_last().contains('_') {
                let j = choose|j: int| 0 <= j < name.drop_last().len() && name.drop_last()[j] == '_';
                assert(name[j] == '_');
            }
        }
        assert(name.take(k) =~= name);
    } else if k == name.len() - 1 {
        assert(!name.drop_last().contains('_')) by {
            if name.drop_last().contains('_') {
                let j = choose|j: int| 0 <= j < name.drop_last().len() && name.drop_last()[j] == '_';
                assert(name[j] == '_');
            }
        }
        assert(name.take(k) =~= name.drop_last());
    } else {
        assert(name.drop_last()[k] == '_');
        assert(name.drop_last().contains('_'));
        lemma_name_prefix(name.drop_last(), k);
        assert(name.drop_last().take(k) =~= name.take(k));
    }
}

/// The book id a download-cache folder is named by, if any.
pub fn cache_dir_book_id(name: &str) -> (r: Option<String>)
    ensures
        match r {
            Some(s) => cache_book_id(name@) == Some(s@),
            None => cache_book_id(name@) is None,
        },
{
    let v = chars_of(name);
    let mut k: usize = 0;
    while k < v.len() && v[k] != '_'
        invariant
            k <= v@.len(),
            forall|j: int| 0 <= j < k ==> v@[j] != '_',
        decreases v@.len() - k,
    {
        k = k + 1;
    }
    proof {
        lemma_name_prefix(v@, k as int);
    }
    let mut id: Vec<char> = Vec::new();
    for i in 0..k
        invariant
            k <= v@.len(),
            id@ == v@.take(i as int),
    {
        id.push(v[i]);
        assert(v@.take(i as int).push(v@[i as int]) =~= v@.take(i + 1));
    }
    if id.len() > 0 && all_ascii_digits(id.as_slice()) {
        Some(string_of(id.as_slice()))
    } else {
        None
    }
}

/// Whether a folder of the library root is the working cache of a download
/// rather than a result: it sits directly in the root (`parent_is_root`), its
/// name starts with a book id, and one of the cache markers is present
/// (`has_marker`, see `cache_marker_files`).
pub open spec fn internal_cache_dir(parent_is_root: bool, name: Option<Seq<char>>, has_marker: bool) -> bool {
    parent_is_root && match name {
        Some(n) => cache_book_id(n) is Some && has_marker,
        None => false,
    }
}

/// Whether a folder is the working cache of a download.
pub fn is_internal_book_cache_dir(parent_is_root: bool, name: Option<&str>, has_marker: bool) -> (b: bool)
    ensures
        b == internal_cache_dir(parent_is_root, match name { Some(n) => Some(n@), None => None }, has_marker),
{
    if !parent_is_root {
        return false;
    }
    match name {
        Some(n) => match cache_dir_book_id(n) {
            Some(_) => has_marker,
            None => false,
        },
        None => false,
    }
}

/// The cover file names `cover.<ext>` for the extensions `exts`.
pub open spec fn cover_names(exts: Seq<Seq<char>>) -> Seq<Seq<char>> {
    exts.map_values(|e: Seq<char>| "cover."@ + e)
}

/// The files whose presence marks a cache folder of book `book_id`: the
/// status files, the chapter-status file of that book, and a cover with any
/// of the image extensions `cover_exts`.
pub open spec fn marker_files(book_id: Seq<char>, cover_exts: Seq<Seq<char>>) -> Seq<Seq<char>> {
    seq!["status.json"@, "downloaded_chapters.jsonl"@, "chapter_status_"@ + book_id + ".json"@]
        + cover_names(cover_exts)
}

/// The files to look for in a folder named after `book_id`; the folder is
/// also a cache when it holds an `images` directory.
pub fn cache_marker_files(book_id: &str, cover_exts: &[String]) -> (r: Vec<String>)
    ensures
        strings_view(r@) == marker_files(book_id@, strings_view(cover_exts@)),
{
    let mut r: Vec<String> = Vec::new();
    r.push(String::from_str("status.json"));
    r.push(String::from_str("downloaded_chapters.jsonl"));
    let mut c = chars_of("chapter_status_");
    c.extend_from_slice(chars_of(book_id).as_slice());
    c.extend_from_slice(chars_of(".json").as_slice());
    r.push(string_of(c.as_slice()));
    let ghost head = seq!["status.json"@, "downloaded_chapters.jsonl"@, "chapter_status_"@ + book_id@ + ".json"@];
    assert(r@.len() == 3);
    assert(r@[0]@ == "status.json"@);
    assert(r@[1]@ == "downloaded_chapters.jsonl"@);
    assert(r@[2]@ == head[2]);
    assert(strings_view(r@) =~= head);
    for i in 0..cover_exts.len()
        invariant
            strings_view(r@) == head + cover_names(strings_view(cover_exts@.take(i as int))),
    {
        let mut n = chars_of("cover.");
        n.extend_from_slice(chars_of(cover_exts[i].as_str()).as_slice());
        let ghost before = r@;
        let item = string_of(n.as_slice());
        assert(item@ == "cover."@ + cover_exts@[i as int]@);
        r.push(item);
        assert(r@ == before.push(item));
        assert(strings_view(cover_exts@.take(i + 1)) =~= strings_view(cover_exts@.take(i as int)).push(cover_exts@[i as int]@));
        assert(cover_names(strings_view(cover_exts@.take(i + 1))) =~= cover_names(strings_view(cover_exts@.take(i as int))).push(
            "cover."@ + cover_exts@[i as int]@,
        ));
        assert(strings_view(r@) =~= strings_view(before).push("cover."@ + cover_exts@[i as int]@));
    }
    assert(cover_exts@.take(cover_exts@.len() as int) =~= cover_exts@);
    r
}

/// An ASCII hexadecimal digit.
pub open spec fn is_hex(c: char) -> bool {
    ('0' <= c <= '9') || ('a' <= c <= 'f') || ('A' <= c <= 'F')
}

/// The cache key of a cached cover file: its file stem, trimmed, when that
/// is forty hexadecimal digits.
pub open spec fn cover_key_spec(stem: Option<Seq<char>>) -> Option<Seq<char>> {
    match stem {
        Some(s) => {
            let t = trim_seq(s);
            if t.len() == 40 && forall|i: int| 0 <= i < t.len() ==> is_hex(#[trigger] t[i]) { Some(t) } else { None }
        },
        None => None,
    }
}

/// The file stem of a path (`Path::file_stem`), as text.
pub uninterp spec fn file_stem_of(path: Seq<char>) -> Option<Seq<char>>;

/// The final component of a path (`Path::file_name`), as text.
pub uninterp spec fn file_name_of(path: Seq<char>) -> Option<Seq<char>>;

/// The view of an optional string.
pub open spec fn opt_str(o: Option<String>) -> Option<Seq<char>> {
    match o {
        Some(s) => Some(s@),
        None => None,
    }
}

/// `std::path::Path::file_stem` of `path`, when it is valid text. The result
/// is a function of the path alone.
#[verifier::external_body]
fn path_file_stem(path: &str) -> (r: Option<String>)
    ensures
        opt_str(r) == file_stem_of(path@),
{
    std::path::Path::new(path).file_stem().and_then(|s| s.to_str()).map(|s| s.to_string())
}

/// `std::path::Path::file_name` of `path`, when it is valid text. The result
/// is a function of the path alone.
#[verifier::external_body]
pub(crate) fn path_file_name(path: &str) -> (r: Option<String>)
    ensures
        opt_str(r) == file_name_of(path@),
{
    std::path::Path::new(path).file_name().and_then(|s| s.to_str()).map(|s| s.to_string())
}

/// The cache key of a cached cover file.
pub fn parse_cover_key(path: &str) -> (r: Option<String>)
    ensures
        opt_str(r) == cover_key_spec(file_stem_of(path@)),
{
    let stem = match path_file_stem(path) {
        Some(s) => s,
        None => return None,
    };
    let t = trim_chars(chars_of(stem.as_str()).as_slice());
    if t.len() != 40 {
        return None;
    }
    for i in 0..t.len()
        invariant
            t@ == trim_seq(stem@),
            t@.len() == 40,
            opt_str(Some(stem)) == file_stem_of(path@),
            forall|j: int| 0 <= j < i ==> is_hex(#[trigger] t@[j]),
    {
        let c = t[i];
        if !(('0' <= c && c <= '9') || ('a' <= c && c <= 'f') || ('A' <= c && c <= 'F')) {
            return None;
        }
    }
    Some(string_of(t.as_slice()))
}

/// Whether `key` names a cached cover: forty hexadecimal digits.
pub open spec fn valid_cover_key(key: Seq<char>) -> bool {
    key.len() == 40 && forall|i: int| 0 <= i < key.len() ==> is_hex(#[trigger] key[i])
}

/// The cache files tried for the cover with key `key`, in order, when the
/// key is valid: `<key>.jpeg`, then `<key>.jpg`.
pub fn cached_cover_files(key: &str) -> (r: Option<(String, String)>)
    ensures
        r is Some <==> valid_cover_key(key@),
        match r {
            Some((jpeg, jpg)) => jpeg@ == key@ + ".jpeg"@ && jpg@ == key@ + ".jpg"@,
            None => true,
        },
{
    let k = chars_of(key);
    if k.len() != 40 {
        return None;
    }
    for i in 0..k.len()
        invariant
            k@ == key@,
            k@.len() == 40,
            forall|j: int| 0 <= j < i ==> is_hex(#[trigger] k@[j]),
    {
        let c = k[i];
        if !(('0' <= c && c <= '9') || ('a' <= c && c <= 'f') || ('A' <= c && c <= 'F')) {
            assert(!is_hex(key@[i as int]));
            return None;
        }
    }
    let mut a = chars_of(key);
    a.extend_from_slice(chars_of(".jpeg").as_slice());
    let mut b = chars_of(key);
    b.extend_from_slice(chars_of(".jpg").as_slice());
    Some((string_of(a.as_slice()), string_of(b.as_slice())))
}

/// The cover address a book preview offers: the cached cover when there is
/// one, else the route that fetches the book's cover on demand.
pub open spec fn preview_cover_link_spec(key: Option<String>, book_id: Seq<char>) -> Seq<char> {
    match key {
        Some(k) => "/api/preview-cover/"@ + k@,
        None => "/api/preview-cover-by-book/"@ + book_id,
    }
}

/// The cover address a book preview offers.
pub fn preview_cover_link(key: &Option<String>, book_id: &str) -> (s: String)
    ensures
        s@ == preview_cover_link_spec(*key, book_id@),
{
    let mut v = match key {
        Some(_) => chars_of("/api/preview-cover/"),
        None => chars_of("/api/preview-cover-by-book/"),
    };
    match key {
        Some(k) => v.extend_from_slice(chars_of(k.as_str()).as_slice()),
        None => v.extend_from_slice(chars_of(book_id).as_slice()),
    }
    string_of(v.as_slice())
}

/// A cover as the image cache stored it: its path, content type and
/// extension.
#[derive(Debug, Clone)]
pub struct CachedImage {
    pub path: String,
    pub mime: String,
    pub ext: String,
}

/// Whether a cached image is a JPEG: by content type or extension, in any case.
pub open spec fn is_jpeg_spec(mime: Seq<char>, ext: Seq<char>) -> bool {
    lower_seq(mime) == lower_seq("image/jpeg"@) || lower_seq(ext) == lower_seq(".jpg"@)
        || lower_seq(ext) == lower_seq(".jpeg"@)
}

/// The key a cover download yields: a JPEG whose file carries a valid key.
pub open spec fn cached_key(r: Option<(Seq<char>, Seq<char>, Seq<char>)>) -> Option<Seq<char>> {
    match r {
        Some((path, mime, ext)) => if is_jpeg_spec(mime, ext) { cover_key_spec(file_stem_of(path)) } else { None },
        None => None,
    }
}

/// The view of a cached image.
pub open spec fn cached_view(c: Option<CachedImage>) -> Option<(Seq<char>, Seq<char>, Seq<char>)> {
    match c {
        Some(i) => Some((i.path@, i.mime@, i.ext@)),
        None => None,
    }
}

/// The first key among the outcomes of the cover downloads tried so far, in
/// the order they were tried.
pub open spec fn first_cached_key(results: Seq<Option<(Seq<char>, Seq<char>, Seq<char>)>>) -> Option<Seq<char>>
    decreases results.len(),
{
    if results.len() == 0 {
        None
    } else {
        match cached_key(results[0]) {
            Some(k) => Some(k),
            None => first_cached_key(results.drop_first()),
        }
    }
}

/// Whether `lhs` equals `rhs` in any ASCII case.
fn ascii_ci_eq(lhs: &str, rhs: &str) -> (b: bool)
    ensures
        b == (lower_seq(lhs@) == lower_seq(rhs@)),
{
    crate::text::eq_ignore_ascii_case(lhs, rhs)
}

/// The preview cover key from the cover downloads tried so far: the first
/// one that gave a JPEG with a valid key.
pub fn resolve_local_preview_cover_key(results: &[Option<CachedImage>]) -> (r: Option<String>)
    ensures
        opt_str(r) == first_cached_key(results@.map_values(|c: Option<CachedImage>| cached_view(c))),
{
    let ghost rv = results@.map_values(|c: Option<CachedImage>| cached_view(c));
    assert(rv.skip(0) =~= rv);
    for i in 0..results.len()
        invariant
            rv == results@.map_values(|c: Option<CachedImage>| cached_view(c)),
            first_cached_key(rv) == first_cached_key(rv.skip(i as int)),
    {
        assert(rv.skip(i as int).drop_first() =~= rv.skip(i + 1));
        assert(rv.skip(i as int)[0] == cached_view(results@[i as int]));
        match &results[i] {
            Some(img) => {
                let jpeg = ascii_ci_eq(img.mime.as_str(), "image/jpeg") || ascii_ci_eq(img.ext.as_str(), ".jpg")
                    || ascii_ci_eq(img.ext.as_str(), ".jpeg");
                if jpeg {
                    if let Some(k) = parse_cover_key(img.path.as_str()) {
                        return Some(k);
                    }
                }
            },
            None => {},
        }
    }
    assert(rv.skip(rv.len() as int) =~= Seq::<Option<(Seq<char>, Seq<char>, Seq<char>)>>::empty());
    None
}

/// Whether a library request starts a new scan of its folder: unless it
/// asks not to (`start` false), it does; and a folder never scanned is
/// scanned whatever it asks.
pub open spec fn should_start_scan_spec(start: Option<bool>, has_snapshot: bool) -> bool {
    match start {
        Some(false) => !has_snapshot,
        _ => true,
    }
}

/// Whether a library request starts a new scan of its folder.
pub fn should_start_scan(start: Option<bool>, has_snapshot: bool) -> (b: bool)
    ensures
        b == should_start_scan_spec(start, has_snapshot),
{
    let wants = match start {
        Some(v) => v,
        None => true,
    };
    wants || !has_snapshot
}

/// The settings a preview cover is downloaded with: those given, but with
/// images always converted to JPEG, a failed conversion retried, HEIC
/// images converted, and no original HEIC kept.
pub fn force_preview_cover_settings(cfg: &mut crate::config::Config)
    ensures
        final(cfg)@ == (crate::config::ConfigView {
            force_convert_images_to_jpeg: true,
            jpeg_retry_convert: true,
            convert_heic_to_jpeg: true,
            keep_heic_original: false,
            ..old(cfg)@
        }),
{
    cfg.force_convert_images_to_jpeg = true;
    cfg.jpeg_retry_convert = true;
    cfg.convert_heic_to_jpeg = true;
    cfg.keep_heic_original = false;
}

/// What the preview does next about its cover.
#[derive(Debug, Clone, PartialEq, Eq)]
pub enum CoverStep {
    /// A download gave a JPEG with this key: stop.
    Found(String),
    /// Download this address next.
    Try(String),
    /// Every address was tried without a usable cover.
    Exhausted,
}

/// The next step of the preview cover download, given the addresses to try
/// in order and the outcomes of those tried so far (one per address, in
/// order): stop at the first outcome that gave a key; else try the next
/// address; else give up.
pub fn cover_step(urls: &[String], results: &[Option<CachedImage>]) -> (r: CoverStep)
    ensures
        ({
            let first = first_cached_key(results@.map_values(|c: Option<CachedImage>| cached_view(c)));
            match r {
                CoverStep::Found(k) => first == Some(k@),
                CoverStep::Try(u) => first is None && results@.len() < urls@.len() && u@ == urls@[results@.len() as int]@,
                CoverStep::Exhausted => first is None && results@.len() >= urls@.len(),
            }
        }),
{
    match resolve_local_preview_cover_key(results) {
        Some(k) => CoverStep::Found(k),
        None => {
            if results.len() < urls.len() {
                CoverStep::Try(string_of(chars_of(urls[results.len()].as_str()).as_slice()))
            } else {
                CoverStep::Exhausted
            }
        },
    }
}

/// The cover addresses tried for a preview, in order: the detail cover,
/// then the cover, each trimmed, keeping only `http://` and `https://` ones.
pub open spec fn cover_urls_spec(detail_cover_url: Option<Seq<char>>, cover_url: Option<Seq<char>>) -> Seq<Seq<char>> {
    keep_http(detail_cover_url) + keep_http(cover_url)
}

/// An address kept when it is a trimmed `http://` or `https://` address.
pub open spec fn keep_http(u: Option<Seq<char>>) -> Seq<Seq<char>> {
    match u {
        Some(s) => {
            let t = trim_seq(s);
            if crate::text::starts_with(t, "http://"@) || crate::text::starts_with(t, "https://"@) {
                seq![t]
            } else {
                Seq::empty()
            }
        },
        None => Seq::empty(),
    }
}

/// The trimmed address when it is an http(s) address.
fn http_candidate(u: &Option<String>) -> (r: Option<String>)
    ensures
        match r {
            Some(s) => keep_http(opt_str(*u)) == seq![s@],
            None => keep_http(opt_str(*u)) == Seq::<Seq<char>>::empty(),
        },
{
    match u {
        Some(s) => {
            let t = trim_chars(chars_of(s.as_str()).as_slice());
            let http = chars_of("http://");
            let https = chars_of("https://");
            if crate::text::starts_with_chars(t.as_slice(), http.as_slice())
                || crate::text::starts_with_chars(t.as_slice(), https.as_slice()) {
                Some(string_of(t.as_slice()))
            } else {
                None
            }
        },
        None => None,
    }
}

/// The cover addresses tried for a preview.
pub fn preview_cover_urls(detail_cover_url: &Option<String>, cover_url: &Option<String>) -> (r: Vec<String>)
    ensures
        r@.map_values(|s: String| s@) == cover_urls_spec(opt_str(*detail_cover_url), opt_str(*cover_url)),
{
    let mut r: Vec<String> = Vec::new();
    let a = http_candidate(detail_cover_url);
    let b = http_candidate(cover_url);
    match a {
        Some(s) => r.push(s),
        None => {},
    }
    match b {
        Some(s) => r.push(s),
        None => {},
    }
    assert(r@.map_values(|s: String| s@) =~= cover_urls_spec(opt_str(*detail_cover_url), opt_str(*cover_url)));
    r
}

/// The cover addresses to try from the book's web page when the catalogue's
/// failed: none when the page gave none; otherwise the cover is the detail
/// cover or else the plain cover, and the detail cover is the page image.
pub open spec fn web_fallback_spec(
    cover_url: Option<Seq<char>>,
    detail_cover_url: Option<Seq<char>>,
    html_img_cover_url: Option<Seq<char>>,
) -> Option<(Option<Seq<char>>, Option<Seq<char>>)> {
    if cover_url is None && detail_cover_url is None && html_img_cover_url is None {
        None
    } else {
        Some((if detail_cover_url is Some { detail_cover_url } else { cover_url }, html_img_cover_url))
    }
}

/// The (cover, detail cover) addresses of the second attempt, from what the
/// book's web page gave.
pub fn resolve_local_preview_cover_key_with_web_fallback(
    cover_url: Option<String>,
    detail_cover_url: Option<String>,
    html_img_cover_url: Option<String>,
) -> (r: Option<(Option<String>, Option<String>)>)
    ensures
        match r {
            Some((c, d)) => web_fallback_spec(opt_str(cover_url), opt_str(detail_cover_url), opt_str(html_img_cover_url))
                == Some((opt_str(c), opt_str(d))),
            None => web_fallback_spec(opt_str(cover_url), opt_str(detail_cover_url), opt_str(html_img_cover_url)) is None,
        },
{
    if cover_url.is_none() && detail_cover_url.is_none() && html_img_cover_url.is_none() {
        return None;
    }
    let cover = match detail_cover_url {
        Some(d) => Some(d),
        None => cover_url,
    };
    Some((cover, html_img_cover_url))
}


/// Stripping leading `/` keeps a suffix that does not start with `/`.
proof fn lemma_trim_start_slash(s: Seq<char>)
    ensures
        exists|k: int| 0 <= k <= s.len() && trim_start_slash(s) == s.skip(k),
        trim_start_slash(s).len() > 0 ==> trim_start_slash(s)[0] != '/',
    decreases s.len(),
{
    if s.len() > 0 && s[0] == '/' {
        lemma_trim_start_slash(s.drop_first());
        let k = choose|k: int| 0 <= k <= s.drop_first().len() && trim_start_slash(s.drop_first()) == s.drop_first().skip(k);
        assert(s.drop_first().skip(k) =~= s.skip(k + 1));
    } else {
        assert(s.skip(0) =~= s);
    }
}

/// Stripping trailing `/` keeps a prefix that does not end with `/`.
proof fn lemma_trim_end_slash(s: Seq<char>)
    ensures
        exists|k: int| 0 <= k <= s.len() && trim_end_slash(s) == s.take(k),
        trim_end_slash(s).len() > 0 ==> trim_end_slash(s).last() != '/',
    decreases s.len(),
{
    if s.len() > 0 && s.last() == '/' {
        lemma_trim_end_slash(s.drop_last());
        let k = choose|k: int| 0 <= k <= s.drop_last().len() && trim_end_slash(s.drop_last()) == s.drop_last().take(k);
        assert(s.drop_last().take(k) =~= s.take(k));
    } else {
        assert(s.take(s.len() as int) =~= s);
    }
}

/// Normalizing a library path twice is normalizing it once.
pub proof fn lemma_normalize_rel_idempotent(s: Seq<char>)
    ensures
        normalized_rel(normalized_rel(s)) == normalized_rel(s),
{
    let f = forward_slashes(s);
    let a = trim_start_slash(f);
    let u = trim_end_slash(a);
    lemma_trim_start_slash(f);
    lemma_trim_end_slash(a);
    let ka = choose|k: int| 0 <= k <= f.len() && a == f.skip(k);
    let ku = choose|k: int| 0 <= k <= a.len() && u == a.take(k);
    assert forall|i: int| 0 <= i < u.len() implies u[i] != '\\' by {
        assert(u[i] == a[i]);
        assert(a[i] == f[i + ka]);
    }
    assert(forward_slashes(u) =~= u);
    if u.len() > 0 {
        assert(u[0] == a[0]);
    }
    assert(trim_start_slash(u) == u);
    assert(trim_end_slash(u) == u);
}

} // verus!
