//! Update checks of downloaded books as the interfaces present them: the
//! rows the web interface reports, the labels of the console and terminal
//! lists, and what a number typed at the update menus picks.

use crate::library::{file_name_of, opt_str, path_file_name};
use crate::text::{
    chars_of, dec_string, lower_seq, parse_unsigned, parse_unsigned_spec, string_of, to_lower_chars, trim_chars,
    trim_seq, u64_to_dec, chars_eq_str,
};
use vstd::prelude::*;

verus! {

/// A downloaded book as the update scan found it.
#[derive(Debug, Clone)]
pub struct NovelUpdateRow {
    pub book_id: String,
    pub book_name: String,
    /// The book's folder, as a path.
    pub folder: String,
    pub local_total: usize,
    pub local_failed: usize,
    pub remote_total: usize,
    pub new_count: usize,
    pub has_update: bool,
    pub is_ignored: bool,
}

/// A book as the web interface reports it: the folder by its final name.
#[derive(Debug, Clone)]
pub struct UpdateScanRow {
    pub book_id: String,
    pub book_name: String,
    pub folder: String,
    pub local_total: usize,
    pub local_failed: usize,
    pub remote_total: usize,
    pub new_count: usize,
    pub has_update: bool,
    pub is_ignored: bool,
}

/// The name shown for a folder: its final path component, or empty.
pub open spec fn folder_label(folder: Seq<char>) -> Seq<char> {
    match file_name_of(folder) {
        Some(n) => n,
        None => Seq::empty(),
    }
}

/// The reported row of a scanned book.
pub fn row_from_update(it: NovelUpdateRow) -> (r: UpdateScanRow)
    ensures
        r.book_id == it.book_id,
        r.book_name == it.book_name,
        r.folder@ == folder_label(it.folder@),
        r.local_total == it.local_total,
        r.local_failed == it.local_failed,
        r.remote_total == it.remote_total,
        r.new_count == it.new_count,
        r.has_update == it.has_update,
        r.is_ignored == it.is_ignored,
{
    let folder = match path_file_name(it.folder.as_str()) {
        Some(n) => n,
        None => String::new(),
    };
    proof {
        if file_name_of(it.folder@) is None {
            assert(folder@ =~= Seq::<char>::empty());
        }
    }
    UpdateScanRow {
        book_id: it.book_id,
        book_name: it.book_name,
        folder,
        local_total: it.local_total,
        local_failed: it.local_failed,
        remote_total: it.remote_total,
        new_count: it.new_count,
        has_update: it.has_update,
        is_ignored: it.is_ignored,
    }
}

/// A line of the console update list.
#[derive(Debug, Clone)]
pub struct UpdateEntry {
    pub book_id: String,
    pub label: String,
}

/// The marker of a book whose updates are ignored.
pub open spec fn ignore_marker(is_ignored: bool) -> Seq<char> {
    if is_ignored { "[已忽略] "@ } else { Seq::empty() }
}

/// The console label of a book: `[已忽略] 《name》(id) — 新章节：n`.
pub open spec fn console_label(is_ignored: bool, name: Seq<char>, id: Seq<char>, new_count: nat) -> Seq<char> {
    ignore_marker(is_ignored) + "《"@ + name + "》("@ + id + ") — 新章节："@ + dec_string(new_count)
}

/// The terminal label of a book, naming new and failed chapters.
pub open spec fn terminal_label(is_ignored: bool, name: Seq<char>, id: Seq<char>, new_count: nat, failed: nat) -> Seq<char> {
    let head = ignore_marker(is_ignored) + "《"@ + name + "》("@ + id + ") — "@;
    if new_count > 0 && failed > 0 {
        head + "新章节: "@ + dec_string(new_count) + " | 失败章节: "@ + dec_string(failed)
    } else if new_count > 0 {
        head + "新章节: "@ + dec_string(new_count)
    } else if failed > 0 {
        head + "失败章节: "@ + dec_string(failed)
    } else {
        head + "新章节: 0"@
    }
}

/// Appends the characters of `s` to `v`.
fn append(v: &mut Vec<char>, s: &str)
    ensures
        final(v)@ == old(v)@ + s@,
{
    let c = chars_of(s);
    v.extend_from_slice(c.as_slice());
}

/// Appends the decimal digits of `n` to `v`.
fn append_num(v: &mut Vec<char>, n: usize)
    ensures
        final(v)@ == old(v)@ + dec_string(n as nat),
{
    let d = u64_to_dec(n as u64);
    v.extend_from_slice(d.as_slice());
}

/// The head of a label, up to the dash.
fn label_head(is_ignored: bool, name: &str, id: &str, sep: &str) -> (v: Vec<char>)
    ensures
        v@ == ignore_marker(is_ignored) + "《"@ + name@ + "》("@ + id@ + sep@,
{
    let mut v: Vec<char> = Vec::new();
    if is_ignored {
        append(&mut v, "[已忽略] ");
    }
    assert(v@ =~= ignore_marker(is_ignored));
    append(&mut v, "《");
    append(&mut v, name);
    append(&mut v, "》(");
    append(&mut v, id);
    append(&mut v, sep);
    v
}

/// The console list entry of a scanned book.
pub fn console_entry(it: &NovelUpdateRow) -> (e: UpdateEntry)
    ensures
        e.book_id@ == it.book_id@,
        e.label@ == console_label(it.is_ignored, it.book_name@, it.book_id@, it.new_count as nat),
{
    let mut v = label_head(it.is_ignored, it.book_name.as_str(), it.book_id.as_str(), ") — 新章节：");
    append_num(&mut v, it.new_count);
    UpdateEntry { book_id: string_of(chars_of(it.book_id.as_str()).as_slice()), label: string_of(v.as_slice()) }
}

/// The label of a scanned book in the terminal list.
pub fn terminal_entry_label(it: &NovelUpdateRow) -> (s: String)
    ensures
        s@ == terminal_label(it.is_ignored, it.book_name@, it.book_id@, it.new_count as nat, it.local_failed as nat),
{
    let mut v = label_head(it.is_ignored, it.book_name.as_str(), it.book_id.as_str(), ") — ");
    if it.new_count > 0 && it.local_failed > 0 {
        append(&mut v, "新章节: ");
        append_num(&mut v, it.new_count);
        append(&mut v, " | 失败章节: ");
        append_num(&mut v, it.local_failed);
    } else if it.new_count > 0 {
        append(&mut v, "新章节: ");
        append_num(&mut v, it.new_count);
    } else if it.local_failed > 0 {
        append(&mut v, "失败章节: ");
        append_num(&mut v, it.local_failed);
    } else {
        append(&mut v, "新章节: 0");
    }
    string_of(v.as_slice())
}

/// The console entries of the books with and without updates, in scan order.
pub fn scan_updates(updates: &[NovelUpdateRow], no_updates: &[NovelUpdateRow]) -> (r: (Vec<UpdateEntry>, Vec<UpdateEntry>))
    ensures
        r.0@.len() == updates@.len(),
        r.1@.len() == no_updates@.len(),
        forall|i: int| 0 <= i < updates@.len() ==> (#[trigger] r.0@[i]).book_id@ == updates@[i].book_id@
            && r.0@[i].label@ == console_label(updates@[i].is_ignored, updates@[i].book_name@, updates@[i].book_id@, updates@[i].new_count as nat),
        forall|i: int| 0 <= i < no_updates@.len() ==> (#[trigger] r.1@[i]).book_id@ == no_updates@[i].book_id@
            && r.1@[i].label@ == console_label(no_updates@[i].is_ignored, no_updates@[i].book_name@, no_updates@[i].book_id@, no_updates@[i].new_count as nat),
{
    (entries_of(updates), entries_of(no_updates))
}

/// The console entries of `rows`, in order.
fn entries_of(rows: &[NovelUpdateRow]) -> (r: Vec<UpdateEntry>)
    ensures
        r@.len() == rows@.len(),
        forall|i: int| 0 <= i < rows@.len() ==> (#[trigger] r@[i]).book_id@ == rows@[i].book_id@
            && r@[i].label@ == console_label(rows@[i].is_ignored, rows@[i].book_name@, rows@[i].book_id@, rows@[i].new_count as nat),
{
    let mut r: Vec<UpdateEntry> = Vec::new();
    for i in 0..rows.len()
        invariant
            r@.len() == i,
            forall|j: int| 0 <= j < i ==> (#[trigger] r@[j]).book_id@ == rows@[j].book_id@
                && r@[j].label@ == console_label(rows@[j].is_ignored, rows@[j].book_name@, rows@[j].book_id@, rows@[j].new_count as nat),
    {
        r.push(console_entry(&rows[i]));
    }
    r
}

/// What was typed at the console update menu, which lists `n_updates` books
/// and, when `n_no_updates > 0`, one more line for the books without updates.
#[derive(Debug, Clone, Copy, PartialEq, Eq, Structural)]
pub enum UpdateChoice {
    /// `q`: leave the menu.
    Quit,
    /// Not a number.
    NotNumber,
    /// The book on this line, counted from 0.
    Pick(usize),
    /// The line of the books without updates.
    NoUpdates,
    /// Out of range; numbers up to the given one are valid.
    OutOfRange(usize),
}

/// The meaning of `input` at the update menu.
pub open spec fn update_choice_spec(input: Seq<char>, n_updates: nat, n_no_updates: nat) -> UpdateChoice {
    let s = lower_seq(trim_seq(input));
    if s == "q"@ {
        UpdateChoice::Quit
    } else {
        match parse_unsigned_spec(s, usize::MAX as nat) {
            None => UpdateChoice::NotNumber,
            Some(n) => if 1 <= n <= n_updates {
                UpdateChoice::Pick((n - 1) as usize)
            } else if n_no_updates > 0 && n == n_updates + 1 {
                UpdateChoice::NoUpdates
            } else {
                UpdateChoice::OutOfRange((if n_no_updates > 0 { n_updates + 1 } else { n_updates }) as usize)
            },
        }
    }
}

/// Reads the update menu.
pub fn update_menu_choice(input: &str, n_updates: usize, n_no_updates: usize) -> (r: UpdateChoice)
    requires
        n_updates < usize::MAX,
    ensures
        r == update_choice_spec(input@, n_updates as nat, n_no_updates as nat),
{
    let s = to_lower_chars(trim_chars(chars_of(input).as_slice()).as_slice());
    if chars_eq_str(s.as_slice(), "q") {
        return UpdateChoice::Quit;
    }
    match parse_unsigned(s.as_slice(), usize::MAX as u64) {
        None => UpdateChoice::NotNumber,
        Some(n) => {
            let n = n as usize;
            if n >= 1 && n <= n_updates {
                UpdateChoice::Pick(n - 1)
            } else if n_no_updates > 0 && n == n_updates + 1 {
                UpdateChoice::NoUpdates
            } else {
                UpdateChoice::OutOfRange(if n_no_updates > 0 { n_updates + 1 } else { n_updates })
            }
        },
    }
}

/// What was typed at a plain numbered list with a `q` line.
#[derive(Debug, Clone, Copy, PartialEq, Eq, Structural)]
pub enum ListChoice {
    /// `q`: back.
    Back,
    /// Not a number.
    NotNumber,
    /// The item on this line, counted from 0.
    Pick(usize),
    /// Not a listed number.
    OutOfRange,
}

/// The meaning of `input` at a list of `len` items.
pub open spec fn list_choice_spec(input: Seq<char>, len: nat) -> ListChoice {
    let s = lower_seq(trim_seq(input));
    if s == "q"@ {
        ListChoice::Back
    } else {
        match parse_unsigned_spec(s, usize::MAX as nat) {
            None => ListChoice::NotNumber,
            Some(n) => if 1 <= n <= len { ListChoice::Pick((n - 1) as usize) } else { ListChoice::OutOfRange },
        }
    }
}

/// Reads the choice at a numbered list (the list of books without updates).
pub fn select_from_list(input: &str, len: usize) -> (r: ListChoice)
    ensures
        r == list_choice_spec(input@, len as nat),
{
    let s = to_lower_chars(trim_chars(chars_of(input).as_slice()).as_slice());
    if chars_eq_str(s.as_slice(), "q") {
        return ListChoice::Back;
    }
    match parse_unsigned(s.as_slice(), usize::MAX as u64) {
        None => ListChoice::NotNumber,
        Some(n) => {
            if n >= 1 && n <= len as u64 {
                ListChoice::Pick((n - 1) as usize)
            } else {
                ListChoice::OutOfRange
            }
        },
    }
}

} // verus!
