//! What the terminal screens draw, apart from drawing it: where lists put
//! their scrollbar, how far a wrapped text can scroll, which log lines and
//! messages are shown, and the text of each pane.

use crate::detail::{or_else, with_parts, BookDetail, SearchItem};
use crate::jobs::{ProgressSnapshot, SavePhase};
use crate::nav::{keep_last, sat_add, sat_sub, truncate, truncated, Rect};
use crate::notes::{preview_notes, preview_notes_spec, wrapped_line_count, wrapped_line_count_spec};
use crate::text::{chars_of, dec_string, join_seq, join_strings, lower_seq, string_of, strings_view, trim_seq, trim_str, u64_to_dec};
use crate::updates::UpdateEntry;
use crate::web::DownloadHistoryRecord;
use vstd::prelude::*;

verus! {

/// `v`, but at least 1.
pub open spec fn at_least_one(v: u16) -> u16 {
    if v >= 1 { v } else { 1 }
}

/// A list area split into the list and, when the items do not fit, a
/// scrollbar column on its right edge.
#[derive(Debug, Clone, Copy, PartialEq, Eq, Structural)]
pub struct ListSplit {
    pub list: Rect,
    pub bar: Option<Rect>,
}

/// `inner` with its last column given to a scrollbar (the list keeps at
/// least one column).
pub open spec fn with_bar(inner: Rect) -> ListSplit {
    let w = at_least_one(sat_sub(inner.width, 1));
    ListSplit {
        list: Rect { x: inner.x, y: inner.y, width: w, height: inner.height },
        bar: Some(Rect { x: sat_add(inner.x, w), y: inner.y, width: 1, height: inner.height }),
    }
}

/// `inner` whole, without a scrollbar.
pub open spec fn without_bar(inner: Rect) -> ListSplit {
    ListSplit { list: inner, bar: None }
}

/// Gives the last column of `inner` to a scrollbar.
fn split_bar(inner: Rect) -> (r: ListSplit)
    ensures
        r == with_bar(inner),
{
    let d = inner.width.saturating_sub(1);
    let w = if d >= 1 { d } else { 1 };
    ListSplit {
        list: Rect { x: inner.x, y: inner.y, width: w, height: inner.height },
        bar: Some(Rect { x: inner.x.saturating_add(w), y: inner.y, width: 1, height: inner.height }),
    }
}

/// The menu, search results, configuration categories and entries, and the
/// update list get a scrollbar when there are items, more of them than
/// rows, and the area has a column.
pub open spec fn list_split_spec(inner: Rect, len: usize) -> ListSplit {
    if len > 0 && inner.height > 0 && len > inner.height && inner.width > 0 {
        with_bar(inner)
    } else {
        without_bar(inner)
    }
}

/// Where a list of `len` items and its scrollbar go inside `inner`.
pub fn list_split(inner: Rect, len: usize) -> (r: ListSplit)
    ensures
        r == list_split_spec(inner, len),
{
    if len > 0 && inner.height > 0 && len > inner.height as usize && inner.width > 0 {
        split_bar(inner)
    } else {
        ListSplit { list: inner, bar: None }
    }
}

/// The history list gets a scrollbar when there are more records than rows
/// and the area is wider than one column.
pub open spec fn history_split_spec(inner: Rect, len: usize) -> ListSplit {
    if len > inner.height && inner.width > 1 {
        with_bar(inner)
    } else {
        without_bar(inner)
    }
}

/// Where the history list and its scrollbar go inside `inner`.
pub fn history_list_split(inner: Rect, len: usize) -> (r: ListSplit)
    ensures
        r == history_split_spec(inner, len),
{
    if len > inner.height as usize && inner.width > 1 {
        split_bar(inner)
    } else {
        ListSplit { list: inner, bar: None }
    }
}

/// The scrollbar's position: the selected item (the first when none is),
/// but not past the last.
pub open spec fn bar_position_spec(selected: Option<usize>, len: usize) -> usize {
    let s = match selected {
        Some(i) => i,
        None => 0,
    };
    let last: usize = if len == 0 { 0 } else { (len - 1) as usize };
    if s <= last { s } else { last }
}

/// Where the scrollbar of a list of `len` items stands.
pub fn scrollbar_position(selected: Option<usize>, len: usize) -> (r: usize)
    ensures
        r == bar_position_spec(selected, len),
{
    let s = match selected {
        Some(i) => i,
        None => 0,
    };
    let last = len.saturating_sub(1);
    if s <= last { s } else { last }
}

/// A pane of wrapped text: where the text and its scrollbar go, how many
/// rows the text takes there, and how far it can scroll.
#[derive(Debug, Clone, Copy, PartialEq, Eq, Structural)]
pub struct TextScroll {
    pub text: Rect,
    pub bar: Option<Rect>,
    pub total_lines: usize,
    pub max_scroll: u16,
}

/// How far `total` rows scroll in `height` rows: the rows that do not fit,
/// at most the largest `u16`.
pub open spec fn max_scroll_spec(total: usize, height: u16) -> u16 {
    let over: int = if total > height { total - height } else { 0 };
    if over > u16::MAX { u16::MAX } else { over as u16 }
}

/// A text pane given the rows the text takes at the pane's width
/// (`full_lines`) and at one column less (`narrow_lines`): when it does not
/// fit and the pane is wider than one column, the last column goes to a
/// scrollbar and the narrower wrapping counts.
pub open spec fn text_scroll_spec(area: Rect, full_lines: usize, narrow_lines: usize) -> TextScroll {
    if full_lines > area.height && area.width > 1 {
        let s = with_bar(area);
        TextScroll { text: s.list, bar: s.bar, total_lines: narrow_lines, max_scroll: max_scroll_spec(narrow_lines, area.height) }
    } else {
        TextScroll { text: area, bar: None, total_lines: full_lines, max_scroll: max_scroll_spec(full_lines, area.height) }
    }
}

/// How far `total` rows can scroll in `height` rows.
pub fn max_scroll(total: usize, height: u16) -> (r: u16)
    ensures
        r == max_scroll_spec(total, height),
{
    let over = total.saturating_sub(height as usize);
    if over > 65535 { 65535 } else { over as u16 }
}

/// Lays out a text pane from the rows its text takes.
pub fn text_scroll(area: Rect, full_lines: usize, narrow_lines: usize) -> (r: TextScroll)
    ensures
        r == text_scroll_spec(area, full_lines, narrow_lines),
{
    if full_lines > area.height as usize && area.width > 1 {
        let s = split_bar(area);
        TextScroll { text: s.list, bar: s.bar, total_lines: narrow_lines, max_scroll: max_scroll(narrow_lines, area.height) }
    } else {
        TextScroll { text: area, bar: None, total_lines: full_lines, max_scroll: max_scroll(full_lines, area.height) }
    }
}

/// The text pane for `text` in `area`: the text is wrapped at the pane's
/// width and, when a scrollbar is needed, at one column less.
pub open spec fn text_pane_spec(text: Seq<char>, area: Rect) -> TextScroll {
    text_scroll_spec(
        area,
        wrapped_line_count_spec(text, area.width) as usize,
        wrapped_line_count_spec(text, at_least_one(sat_sub(area.width, 1))) as usize,
    )
}

/// Lays out the pane that shows `text` in `area`.
pub fn text_pane(text: &str, area: Rect) -> (r: TextScroll)
    ensures
        r == text_pane_spec(text@, area),
{
    let full = wrapped_line_count(text, area.width);
    let d = area.width.saturating_sub(1);
    let narrow = if full > area.height as usize && area.width > 1 {
        wrapped_line_count(text, if d >= 1 { d } else { 1 })
    } else {
        0
    };
    proof {
        let ghost n = wrapped_line_count_spec(text@, at_least_one(sat_sub(area.width, 1))) as usize;
        assert(full > area.height && area.width > 1 ==> narrow == n);
    }
    text_scroll(area, full, narrow)
}

/// A scroll offset kept within `max`.
pub fn clamp_scroll(scroll: u16, max: u16) -> (r: u16)
    ensures
        r == if scroll <= max { scroll } else { max },
{
    if scroll <= max { scroll } else { max }
}

/// The log lines a log box of `height` rows shows: "日志: 暂无" when there
/// are none, else the latest that fit inside its border (at least one).
pub open spec fn log_view(logs: Seq<String>, height: u16) -> Seq<Seq<char>> {
    if logs.len() == 0 {
        seq!["日志: 暂无"@]
    } else {
        strings_view(keep_last(logs, at_least_one(sat_sub(height, 2)) as nat))
    }
}

/// The log lines shown in a log box of `height` rows.
pub fn log_lines(logs: &[String], height: u16) -> (r: Vec<String>)
    ensures
        strings_view(r@) == log_view(logs@, height),
{
    let mut r: Vec<String> = Vec::new();
    if logs.len() == 0 {
        r.push(String::from_str("日志: 暂无"));
        assert(strings_view(r@) =~= seq!["日志: 暂无"@]);
        return r;
    }
    let d = height.saturating_sub(2);
    let visible = (if d >= 1 { d } else { 1 }) as usize;
    let start = if logs.len() > visible { logs.len() - visible } else { 0 };
    let ghost kept = keep_last(logs@, at_least_one(sat_sub(height, 2)) as nat);
    assert(kept =~= logs@.skip(start as int));
    let mut i = start;
    while i < logs.len()
        invariant
            start <= i <= logs@.len(),
            kept == logs@.skip(start as int),
            r@.len() == i - start,
            forall|j: int| 0 <= j < r@.len() ==> #[trigger] r@[j]@ == logs@[start + j]@,
        decreases logs@.len() - i,
    {
        let line = logs[i].clone();
        r.push(line);
        i = i + 1;
    }
    assert(strings_view(r@) =~= strings_view(kept));
    r
}

/// Appends the characters of `s` to `v`.
fn append(v: &mut Vec<char>, s: &str)
    ensures
        final(v)@ == old(v)@ + s@,
{
    v.extend_from_slice(chars_of(s).as_slice());
}

/// Appends the decimal digits of `n` to `v`.
fn append_number(v: &mut Vec<char>, n: usize)
    ensures
        final(v)@ == old(v)@ + dec_string(n as nat),
{
    let d = u64_to_dec(n as u64);
    v.extend_from_slice(d.as_slice());
}

/// A copy of `s`.
fn copy_string(s: &str) -> (r: String)
    ensures
        r@ == s@,
{
    string_of(chars_of(s).as_slice())
}

/// The lines of the home screen's status pane: the selected book's detail
/// lines and an empty line (when a book is selected), the status, and, when
/// there are messages, an empty line and the last six of them.
pub open spec fn home_status_view(detail: Option<Seq<Seq<char>>>, status: Seq<char>, messages: Seq<String>) -> Seq<Seq<char>> {
    let head = match detail {
        Some(d) => d.push(""@),
        None => Seq::<Seq<char>>::empty(),
    };
    let tail = if messages.len() == 0 {
        Seq::<Seq<char>>::empty()
    } else {
        seq![""@] + strings_view(keep_last(messages, 6))
    };
    head.push(status) + tail
}

/// The views of the lines, when there are lines.
pub open spec fn opt_lines(detail: Option<Vec<String>>) -> Option<Seq<Seq<char>>> {
    match detail {
        Some(d) => Some(strings_view(d@)),
        None => None,
    }
}

/// The lines of the home screen's status pane.
pub fn home_status_lines(detail: Option<Vec<String>>, status: &str, messages: &[String]) -> (r: Vec<String>)
    ensures
        strings_view(r@) == home_status_view(opt_lines(detail), status@, messages@),
{
    let ghost dv = opt_lines(detail);
    let mut r: Vec<String> = match detail {
        Some(d) => {
            let mut d = d;
            d.push(String::from_str(""));
            d
        },
        None => Vec::new(),
    };
    let ghost head = strings_view(r@);
    assert(head =~= match dv {
        Some(d) => d.push(""@),
        None => Seq::<Seq<char>>::empty(),
    });
    r.push(copy_string(status));
    assert(strings_view(r@) =~= head.push(status@));
    if messages.len() == 0 {
        assert(strings_view(r@) =~= head.push(status@) + Seq::<Seq<char>>::empty());
        return r;
    }
    let ghost before = strings_view(r@);
    r.push(String::from_str(""));
    let start = if messages.len() > 6 { messages.len() - 6 } else { 0 };
    let ghost kept = keep_last(messages@, 6);
    assert(kept =~= messages@.skip(start as int));
    let ghost base = r@.len();
    let mut i = start;
    while i < messages.len()
        invariant
            start <= i <= messages@.len(),
            kept == messages@.skip(start as int),
            r@.len() == base + (i - start),
            strings_view(r@.take(base as int)) == before.push(""@),
            forall|j: int| 0 <= j < i - start ==> #[trigger] r@[base + j]@ == messages@[start + j]@,
        decreases messages@.len() - i,
    {
        let m = messages[i].clone();
        let ghost prev = r@;
        r.push(m);
        proof {
            assert(r@.take(base as int) =~= prev.take(base as int));
        }
        i = i + 1;
    }
    let ghost want = before.push(""@) + strings_view(kept);
    assert forall|j: int| 0 <= j < r@.len() implies strings_view(r@)[j] == want[j] by {
        if j < base {
            assert(strings_view(r@.take(base as int))[j] == strings_view(r@)[j]);
        } else {
            assert(r@[base + (j - base)]@ == messages@[start + (j - base)]@);
        }
    }
    assert(strings_view(r@) =~= want);
    assert(before.push(""@) + strings_view(kept) =~= before + (seq![""@] + strings_view(kept)));
    r
}

/// How a search result is listed: title, id and author.
pub open spec fn result_label(item: SearchItem) -> Seq<char> {
    item.title@ + " | "@ + item.book_id@ + " | "@ + item.author@
}

/// The lines of the search result list, or "无搜索结果" when it is empty.
pub open spec fn result_list_view(results: Seq<SearchItem>) -> Seq<Seq<char>> {
    if results.len() == 0 {
        seq!["无搜索结果"@]
    } else {
        Seq::new(results.len(), |i: int| result_label(results[i]))
    }
}

/// The lines of the search result list.
pub fn result_lines(results: &[SearchItem]) -> (r: Vec<String>)
    ensures
        strings_view(r@) == result_list_view(results@),
{
    let mut r: Vec<String> = Vec::new();
    if results.len() == 0 {
        r.push(String::from_str("无搜索结果"));
        assert(strings_view(r@) =~= result_list_view(results@));
        return r;
    }
    for i in 0..results.len()
        invariant
            r@.len() == i,
            forall|j: int| 0 <= j < i ==> #[trigger] r@[j]@ == result_label(results@[j]),
    {
        let it = &results[i];
        let mut v: Vec<char> = Vec::new();
        append(&mut v, it.title.as_str());
        append(&mut v, " | ");
        append(&mut v, it.book_id.as_str());
        append(&mut v, " | ");
        append(&mut v, it.author.as_str());
        r.push(string_of(v.as_slice()));
    }
    assert(strings_view(r@) =~= result_list_view(results@));
    r
}

/// The title of the update list: the books without updates or those with.
pub open spec fn update_title_view(show_no_update: bool) -> Seq<char> {
    if show_no_update { "无更新书籍"@ } else { "有更新书籍"@ }
}

/// The title of the update list.
pub fn update_list_title(show_no_update: bool) -> (r: String)
    ensures
        r@ == update_title_view(show_no_update),
{
    if show_no_update { String::from_str("无更新书籍") } else { String::from_str("有更新书籍") }
}

/// The lines of the update list: the entries' labels, or
/// "没有可展示的项目" when there are none.
pub open spec fn update_items_view(entries: Seq<UpdateEntry>) -> Seq<Seq<char>> {
    if entries.len() == 0 {
        seq!["没有可展示的项目"@]
    } else {
        Seq::new(entries.len(), |i: int| entries[i].label@)
    }
}

/// The lines of the update list.
pub fn update_items(entries: &[UpdateEntry]) -> (r: Vec<String>)
    ensures
        strings_view(r@) == update_items_view(entries@),
{
    let mut r: Vec<String> = Vec::new();
    if entries.len() == 0 {
        r.push(String::from_str("没有可展示的项目"));
        assert(strings_view(r@) =~= update_items_view(entries@));
        return r;
    }
    for i in 0..entries.len()
        invariant
            r@.len() == i,
            forall|j: int| 0 <= j < i ==> #[trigger] r@[j]@ == entries@[j].label@,
    {
        r.push(copy_string(entries[i].label.as_str()));
    }
    assert(strings_view(r@) =~= update_items_view(entries@));
    r
}

/// The hints under the update list: the status, then how many books have
/// updates and how many have none, each only when there are some.
pub open spec fn update_footer_view(status: Seq<char>, n_updates: usize, n_no_updates: usize) -> Seq<Seq<char>> {
    let a = if n_updates > 0 { seq!["有更新: "@ + dec_string(n_updates as nat) + " 本"@] } else { Seq::<Seq<char>>::empty() };
    let b = if n_no_updates > 0 {
        seq!["无更新: "@ + dec_string(n_no_updates as nat) + " 本 (按 n 查看)"@]
    } else {
        Seq::<Seq<char>>::empty()
    };
    seq![status] + a + b
}

/// The hints under the update list.
pub fn update_footer_lines(status: &str, n_updates: usize, n_no_updates: usize) -> (r: Vec<String>)
    ensures
        strings_view(r@) == update_footer_view(status@, n_updates, n_no_updates),
{
    let mut r: Vec<String> = Vec::new();
    r.push(copy_string(status));
    if n_updates > 0 {
        let mut v: Vec<char> = Vec::new();
        append(&mut v, "有更新: ");
        append_number(&mut v, n_updates);
        append(&mut v, " 本");
        r.push(string_of(v.as_slice()));
    }
    let ghost r1 = strings_view(r@);
    assert(r1 =~= seq![status@] + (if n_updates > 0 { seq!["有更新: "@ + dec_string(n_updates as nat) + " 本"@] } else { Seq::<Seq<char>>::empty() }));
    if n_no_updates > 0 {
        let mut v: Vec<char> = Vec::new();
        append(&mut v, "无更新: ");
        append_number(&mut v, n_no_updates);
        append(&mut v, " 本 (按 n 查看)");
        r.push(string_of(v.as_slice()));
    }
    assert(strings_view(r@) =~= update_footer_view(status@, n_updates, n_no_updates));
    r
}

/// How a history record is listed: time, title, id, progress, and whether
/// it succeeded (its status is "success" in any ASCII case).
pub open spec fn history_item_view(it: DownloadHistoryRecord) -> Seq<char> {
    "["@ + it.timestamp@ + "] 《"@ + it.book_name@ + "》("@ + it.book_id@ + ") | "@ + it.progress@ + " | "@
        + (if lower_seq(it.status@) == lower_seq("success"@) { "成功"@ } else { "失败"@ })
}

/// The lines of the history list, or "暂无记录" when it is empty.
pub open spec fn history_list_view(items: Seq<DownloadHistoryRecord>) -> Seq<Seq<char>> {
    if items.len() == 0 {
        seq!["暂无记录"@]
    } else {
        Seq::new(items.len(), |i: int| history_item_view(items[i]))
    }
}

/// The lines of the history list.
pub fn history_items(items: &[DownloadHistoryRecord]) -> (r: Vec<String>)
    ensures
        strings_view(r@) == history_list_view(items@),
{
    let mut r: Vec<String> = Vec::new();
    if items.len() == 0 {
        r.push(String::from_str("暂无记录"));
        assert(strings_view(r@) =~= history_list_view(items@));
        return r;
    }
    for i in 0..items.len()
        invariant
            r@.len() == i,
            forall|j: int| 0 <= j < i ==> #[trigger] r@[j]@ == history_item_view(items@[j]),
    {
        let it = &items[i];
        let ok = crate::text::eq_ignore_ascii_case(it.status.as_str(), "success");
        let mut v: Vec<char> = Vec::new();
        append(&mut v, "[");
        append(&mut v, it.timestamp.as_str());
        append(&mut v, "] 《");
        append(&mut v, it.book_name.as_str());
        append(&mut v, "》(");
        append(&mut v, it.book_id.as_str());
        append(&mut v, ") | ");
        append(&mut v, it.progress.as_str());
        append(&mut v, " | ");
        append(&mut v, if ok { "成功" } else { "失败" });
        r.push(string_of(v.as_slice()));
    }
    assert(strings_view(r@) =~= history_list_view(items@));
    r
}

/// How a list item is emphasised.
#[derive(Debug, Clone, Copy, PartialEq, Eq, Structural)]
pub enum Emphasis {
    Plain,
    /// Coloured light cyan.
    Cyan,
    /// Coloured light cyan and bold.
    CyanBold,
}

/// How the settings screen shows category `idx`: the selected category is
/// cyan, and bold while the category list has the keyboard; the category
/// under the mouse pointer (when it is not the selected one) is cyan, not
/// bold; the others are plain.
pub open spec fn category_emphasis_spec(idx: usize, selected: Option<usize>, hover: Option<usize>, list_focused: bool) -> Emphasis {
    if selected == Some(idx) {
        if list_focused { Emphasis::CyanBold } else { Emphasis::Cyan }
    } else if hover == Some(idx) {
        Emphasis::Cyan
    } else {
        Emphasis::Plain
    }
}

/// How the settings screen shows category `idx`.
pub fn category_emphasis(idx: usize, selected: Option<usize>, hover: Option<usize>, list_focused: bool) -> (e: Emphasis)
    ensures
        e == category_emphasis_spec(idx, selected, hover, list_focused),
{
    let active = match selected {
        Some(s) => s == idx,
        None => false,
    };
    let hovered = match hover {
        Some(h) => h == idx,
        None => false,
    };
    if active {
        if list_focused { Emphasis::CyanBold } else { Emphasis::Cyan }
    } else if hovered {
        Emphasis::Cyan
    } else {
        Emphasis::Plain
    }
}

/// How the selected settings entry is highlighted: cyan, and bold while the
/// entry list has the keyboard.
pub fn entry_emphasis(list_focused: bool) -> (e: Emphasis)
    ensures
        e == if list_focused { Emphasis::CyanBold } else { Emphasis::Cyan },
{
    if list_focused { Emphasis::CyanBold } else { Emphasis::Cyan }
}

/// The lines of the configuration screen's status pane: the status, then
/// the hint for the current state (choosing a yes/no value, editing a
/// value, or browsing).
pub open spec fn config_status_view(status: Seq<char>, editing: bool, editing_bool: bool) -> Seq<Seq<char>> {
    seq![
        status,
        if editing && editing_bool {
            "编辑中: 方向键选择 True/False，Enter 保存，Esc 取消。"@
        } else if editing {
            "编辑中: 回车保存，Esc 取消。"@
        } else {
            "左右/Tab 切换分类，↑↓ 选择，Enter 编辑，鼠标点击或按钮返回。"@
        }
    ]
}

/// The lines of the configuration screen's status pane.
pub fn config_status_lines(status: &str, editing: bool, editing_bool: bool) -> (r: Vec<String>)
    ensures
        strings_view(r@) == config_status_view(status@, editing, editing_bool),
{
    let mut r: Vec<String> = Vec::new();
    r.push(copy_string(status));
    let hint = if editing && editing_bool {
        "编辑中: 方向键选择 True/False，Enter 保存，Esc 取消。"
    } else if editing {
        "编辑中: 回车保存，Esc 取消。"
    } else {
        "左右/Tab 切换分类，↑↓ 选择，Enter 编辑，鼠标点击或按钮返回。"
    };
    r.push(String::from_str(hint));
    assert(strings_view(r@) =~= config_status_view(status@, editing, editing_bool));
    r
}

/// How a configuration entry is listed: its title and shown value; while it
/// is being edited, an editing marker and, unless it is a yes/no value, the
/// text typed so far.
#[derive(Debug)]
pub struct EntryLine {
    pub text: String,
    pub editing: bool,
    pub buffer: Option<String>,
}

/// The text of a configuration entry: "title: value".
pub open spec fn entry_text(title: Seq<char>, value: Seq<char>) -> Seq<char> {
    title + ": "@ + value
}

/// How a configuration entry is listed.
pub fn config_entry_line(title: &str, value: &str, editing_here: bool, is_bool: bool, buffer: &str) -> (r: EntryLine)
    ensures
        r.text@ == entry_text(title@, value@),
        r.editing == editing_here,
        r.buffer is Some <==> (editing_here && !is_bool),
        r.buffer is Some ==> r.buffer->0@ == buffer@,
{
    let mut v: Vec<char> = Vec::new();
    append(&mut v, title);
    append(&mut v, ": ");
    append(&mut v, value);
    EntryLine {
        text: string_of(v.as_slice()),
        editing: editing_here,
        buffer: if editing_here && !is_bool { Some(copy_string(buffer)) } else { None },
    }
}

/// What the about page knows of the latest release.
#[derive(Debug)]
pub struct ReleaseInfo {
    pub current_tag: String,
    pub latest_tag: String,
    pub is_new_version: bool,
    pub is_dismissed: bool,
    pub html_url: Option<String>,
    pub body: Option<String>,
}

/// The project lines at the top of the about page, ending with the version.
pub open spec fn about_head(version: Seq<char>) -> Seq<char> {
    "项目地址: https://github.com/zhongbai2333/Tomato-Novel-Downloader\n"@
        + "Fork From: https://github.com/Dlmily/Tomato-Novel-Downloader-Lite\n"@ + "作者: zhongbai2333\n"@
        + "本项目仅供学习交流使用，请勿用于商业及违法行为。\n"@ + "\n当前版本: v"@ + version + "\n"@
        + "\n===== 程序更新 =====\n"@
}

/// The release page line, when the address is not blank.
pub open spec fn release_url(u: Option<String>) -> Seq<char> {
    match u {
        Some(u) => if trim_seq(u@).len() > 0 { "Release: "@ + u@ + "\n"@ } else { Seq::<char>::empty() },
        None => Seq::<char>::empty(),
    }
}

/// The first sixteen lines (about 1800 bytes) of the release notes, when
/// they are not blank.
pub open spec fn release_notes(b: Option<String>) -> Seq<char> {
    match b {
        Some(b) => if trim_seq(b@).len() > 0 {
            "\n更新日志（节选）:\n"@ + preview_notes_spec(trim_seq(b@), 16, 1800) + "\n"@
        } else {
            Seq::<char>::empty()
        },
        None => Seq::<char>::empty(),
    }
}

/// The update part of the about page for a known release: current and
/// latest tag, whether it is new, whether its reminder is off, its page
/// and the start of its notes.
pub open spec fn release_text(rep: ReleaseInfo) -> Seq<char> {
    "当前: "@ + rep.current_tag@ + "\n"@ + "最新: "@ + rep.latest_tag@ + "\n"@
        + (if rep.is_new_version { "状态: 有新版本\n"@ } else { "状态: 已是最新版本\n"@ })
        + (if rep.is_dismissed { "提示: 已设置忽略该版本提醒（仍可手动检查）\n"@ } else { Seq::<char>::empty() })
        + release_url(rep.html_url) + release_notes(rep.body)
}

/// Appends the release page line.
fn append_release_url(v: &mut Vec<char>, u: &Option<String>)
    ensures
        final(v)@ == old(v)@ + release_url(*u),
{
    match u {
        Some(u) => {
            if trim_str(u.as_str()).len() > 0 {
                append(v, "Release: ");
                append(v, u.as_str());
                append(v, "\n");
                assert(v@ =~= old(v)@ + ("Release: "@ + u@ + "\n"@));
            } else {
                assert(v@ =~= old(v)@ + Seq::<char>::empty());
            }
        },
        None => {
            assert(v@ =~= old(v)@ + Seq::<char>::empty());
        },
    }
}

/// Appends the start of the release notes.
fn append_release_notes(v: &mut Vec<char>, b: &Option<String>)
    ensures
        final(v)@ == old(v)@ + release_notes(*b),
{
    match b {
        Some(b) => {
            let t = trim_str(b.as_str());
            if t.len() > 0 {
                let ts = string_of(t.as_slice());
                let notes = preview_notes(ts.as_str(), 16, 1800);
                append(v, "\n更新日志（节选）:\n");
                append(v, notes.as_str());
                append(v, "\n");
                assert(v@ =~= old(v)@ + ("\n更新日志（节选）:\n"@ + preview_notes_spec(trim_seq(b@), 16, 1800) + "\n"@));
            } else {
                assert(v@ =~= old(v)@ + Seq::<char>::empty());
            }
        },
        None => {
            assert(v@ =~= old(v)@ + Seq::<char>::empty());
        },
    }
}

/// Appends the update part for a known release.
fn append_release(v: &mut Vec<char>, rep: &ReleaseInfo)
    ensures
        final(v)@ == old(v)@ + release_text(*rep),
{
    append(v, "当前: ");
    append(v, rep.current_tag.as_str());
    append(v, "\n");
    append(v, "最新: ");
    append(v, rep.latest_tag.as_str());
    append(v, "\n");
    append(v, if rep.is_new_version { "状态: 有新版本\n" } else { "状态: 已是最新版本\n" });
    if rep.is_dismissed {
        append(v, "提示: 已设置忽略该版本提醒（仍可手动检查）\n");
    }
    append_release_url(v, &rep.html_url);
    append_release_notes(v, &rep.body);
    assert(v@ =~= old(v)@ + release_text(*rep));
}

/// The text of the about page: the project lines and version, then, for a
/// container build, that self update is off; else what is known of the
/// latest release, or that no check was made yet.
pub open spec fn about_view(version: Seq<char>, container_build: bool, report: Option<ReleaseInfo>) -> Seq<char> {
    about_head(version) + if container_build {
        "Docker 构建已禁用程序自更新，请通过重新拉取镜像进行升级。\n"@
    } else {
        match report {
            Some(rep) => release_text(rep),
            None => "未检查更新（点击“检查程序更新”）\n"@,
        }
    }
}

/// The text of the about page.
pub fn about_text(version: &str, container_build: bool, report: &Option<ReleaseInfo>) -> (r: String)
    ensures
        r@ == about_view(version@, container_build, *report),
{
    let mut v: Vec<char> = Vec::new();
    append(&mut v, "项目地址: https://github.com/zhongbai2333/Tomato-Novel-Downloader\n");
    append(&mut v, "Fork From: https://github.com/Dlmily/Tomato-Novel-Downloader-Lite\n");
    append(&mut v, "作者: zhongbai2333\n");
    append(&mut v, "本项目仅供学习交流使用，请勿用于商业及违法行为。\n");
    append(&mut v, "\n当前版本: v");
    append(&mut v, version);
    append(&mut v, "\n");
    append(&mut v, "\n===== 程序更新 =====\n");
    assert(v@ =~= about_head(version@));
    if container_build {
        append(&mut v, "Docker 构建已禁用程序自更新，请通过重新拉取镜像进行升级。\n");
    } else {
        match report {
            None => {
                append(&mut v, "未检查更新（点击“检查程序更新”）\n");
            },
            Some(rep) => {
                append_release(&mut v, rep);
            },
        }
    }
    string_of(v.as_slice())
}

/// The preview screen's frame: the log area (all rows but the seven of the
/// progress area, at least one), the description pane over the logs (when
/// shown), the rest of the log area, and the progress area under it.
#[derive(Debug, Clone, Copy, PartialEq, Eq, Structural)]
pub struct PreviewFrame {
    pub log: Rect,
    pub desc: Option<Rect>,
    pub log_rest: Rect,
    pub progress: Rect,
}

/// The smaller of `a` and `b`.
pub open spec fn min_u16(a: u16, b: u16) -> u16 {
    if a <= b { a } else { b }
}

/// The preview screen's frame in `area`. The five-row description pane is
/// shown while a download is pending and the preview modal is closed, when
/// the log area has more than eight rows.
pub open spec fn preview_frame_spec(area: Rect, modal_open: bool, has_pending: bool) -> PreviewFrame {
    let log_h = at_least_one(sat_sub(area.height, 7));
    let log = Rect { x: area.x, y: area.y, width: area.width, height: log_h };
    let progress = Rect { x: area.x, y: sat_add(area.y, log_h), width: area.width, height: min_u16(7, sat_sub(area.height, log_h)) };
    if !modal_open && has_pending && log_h > 8 {
        PreviewFrame {
            log,
            desc: Some(Rect { x: area.x, y: area.y, width: area.width, height: 5 }),
            log_rest: Rect { x: area.x, y: sat_add(area.y, 5), width: area.width, height: at_least_one(sat_sub(log_h, 5)) },
            progress,
        }
    } else {
        PreviewFrame { log, desc: None, log_rest: log, progress }
    }
}

/// Lays out the preview screen.
pub fn preview_frame(area: Rect, modal_open: bool, has_pending: bool) -> (r: PreviewFrame)
    ensures
        r == preview_frame_spec(area, modal_open, has_pending),
{
    let progress_height: u16 = 7;
    let d = area.height.saturating_sub(progress_height);
    let log_h = if d >= 1 { d } else { 1 };
    let log = Rect { x: area.x, y: area.y, width: area.width, height: log_h };
    let rest_h = area.height.saturating_sub(log_h);
    let progress = Rect {
        x: area.x,
        y: area.y.saturating_add(log_h),
        width: area.width,
        height: if progress_height <= rest_h { progress_height } else { rest_h },
    };
    let desc_h: u16 = 5;
    let min_log_h: u16 = 3;
    if !modal_open && has_pending && log_h > desc_h + min_log_h {
        let desc = Rect { x: area.x, y: area.y, width: area.width, height: desc_h };
        let e = log_h.saturating_sub(desc_h);
        let log_rest = Rect { x: area.x, y: area.y.saturating_add(desc_h), width: area.width, height: if e >= 1 { e } else { 1 } };
        PreviewFrame { log, desc: Some(desc), log_rest, progress }
    } else {
        PreviewFrame { log, desc: None, log_rest: log, progress }
    }
}

/// The inside of a bordered box, keeping at least one row and column.
pub open spec fn padded_inner_spec(r: Rect) -> Rect {
    Rect {
        x: sat_add(r.x, 1),
        y: sat_add(r.y, 1),
        width: at_least_one(sat_sub(r.width, 2)),
        height: at_least_one(sat_sub(r.height, 2)),
    }
}

/// The inside of a bordered box (the progress pane, the preview modal).
pub fn padded_inner(r: Rect) -> (i: Rect)
    ensures
        i == padded_inner_spec(r),
{
    let w = r.width.saturating_sub(2);
    let h = r.height.saturating_sub(2);
    Rect {
        x: r.x.saturating_add(1),
        y: r.y.saturating_add(1),
        width: if w >= 1 { w } else { 1 },
        height: if h >= 1 { h } else { 1 },
    }
}

/// The preview modal: at most 80 columns and 18 rows of `area`, centred
/// across the screen and within the log area's `log_height` rows.
pub open spec fn preview_modal_spec(area: Rect, log_height: u16) -> Rect {
    let w = min_u16(area.width, 80);
    let h = min_u16(area.height, 18);
    Rect {
        x: sat_add(area.x, (sat_sub(area.width, w) / 2) as u16),
        y: sat_add(area.y, (sat_sub(log_height, h) / 2) as u16),
        width: w,
        height: h,
    }
}

/// Where the preview modal is drawn.
pub fn preview_modal_rect(area: Rect, log_height: u16) -> (r: Rect)
    ensures
        r == preview_modal_spec(area, log_height),
{
    let capped = if area.width <= 80 { area.width } else { 80 };
    let floor = if 40 <= area.width { 40 } else { area.width };
    let w = if capped >= floor { capped } else { floor };
    let h: u16 = if area.height <= 18 { area.height } else { 18 };
    Rect {
        x: area.x.saturating_add(area.width.saturating_sub(w) / 2),
        y: area.y.saturating_add(log_height.saturating_sub(h) / 2),
        width: w,
        height: h,
    }
}

/// The colour of a progress gauge.
#[derive(Debug, Clone, Copy, PartialEq, Eq, Structural)]
pub enum GaugeColor {
    LightCyan,
    Green,
    Yellow,
    Magenta,
}

/// One progress gauge: its label, how much is done of how much.
#[derive(Debug)]
pub struct ProgressItem {
    pub label: String,
    pub done: usize,
    pub total: usize,
    pub color: GaugeColor,
}

/// `v`, but at least 1.
pub open spec fn one_or_more(v: usize) -> usize {
    if v >= 1 { v } else { 1 }
}

/// The gauges of a download, as label, done, total (at least 1) and colour:
/// the chapter groups, then the saved chapters (as an audiobook or as
/// text), then, when segment comments are on and there are some, the
/// fetched and the saved comments.
pub open spec fn progress_view(snap: ProgressSnapshot, segment_comments: bool) -> Seq<(Seq<char>, usize, usize, GaugeColor)> {
    let base = seq![
        ("组下载"@, snap.group_done, one_or_more(snap.group_total), GaugeColor::LightCyan),
        (match snap.save_phase {
            SavePhase::Audiobook => "有声书"@,
            SavePhase::TextSave => "正文保存"@,
        }, snap.saved_chapters, one_or_more(snap.chapter_total), GaugeColor::Green)
    ];
    if segment_comments && snap.comment_total > 0 {
        base + seq![
            ("段评抓取"@, snap.comment_fetch, one_or_more(snap.comment_total), GaugeColor::Yellow),
            ("段评保存"@, snap.comment_saved, one_or_more(snap.comment_total), GaugeColor::Magenta)
        ]
    } else {
        base
    }
}

/// A gauge as label, done, total and colour.
pub open spec fn item_view(it: ProgressItem) -> (Seq<char>, usize, usize, GaugeColor) {
    (it.label@, it.done, it.total, it.color)
}

/// The gauges shown for a download.
pub fn progress_items(snap: &ProgressSnapshot, segment_comments: bool) -> (r: Vec<ProgressItem>)
    ensures
        r@.map_values(|it: ProgressItem| item_view(it)) == progress_view(*snap, segment_comments),
{
    let mut r: Vec<ProgressItem> = Vec::new();
    r.push(ProgressItem {
        label: String::from_str("组下载"),
        done: snap.group_done,
        total: if snap.group_total >= 1 { snap.group_total } else { 1 },
        color: GaugeColor::LightCyan,
    });
    let phase = match snap.save_phase {
        SavePhase::Audiobook => "有声书",
        SavePhase::TextSave => "正文保存",
    };
    r.push(ProgressItem {
        label: String::from_str(phase),
        done: snap.saved_chapters,
        total: if snap.chapter_total >= 1 { snap.chapter_total } else { 1 },
        color: GaugeColor::Green,
    });
    if segment_comments && snap.comment_total > 0 {
        r.push(ProgressItem {
            label: String::from_str("段评抓取"),
            done: snap.comment_fetch,
            total: snap.comment_total,
            color: GaugeColor::Yellow,
        });
        r.push(ProgressItem {
            label: String::from_str("段评保存"),
            done: snap.comment_saved,
            total: snap.comment_total,
            color: GaugeColor::Magenta,
        });
    }
    assert(r@.map_values(|it: ProgressItem| item_view(it)) =~= progress_view(*snap, segment_comments));
    r
}

/// The text on a gauge: "label done/total".
pub open spec fn gauge_label_view(label: Seq<char>, done: usize, total: usize) -> Seq<char> {
    label + " "@ + dec_string(done as nat) + "/"@ + dec_string(total as nat)
}

/// The text on a gauge.
pub fn gauge_label(item: &ProgressItem) -> (s: String)
    ensures
        s@ == gauge_label_view(item.label@, item.done, item.total),
{
    let mut v: Vec<char> = Vec::new();
    append(&mut v, item.label.as_str());
    append(&mut v, " ");
    append_number(&mut v, item.done);
    append(&mut v, "/");
    append_number(&mut v, item.total);
    string_of(v.as_slice())
}

/// The stop button's text: shown only while the download can be stopped.
pub fn stop_button_text(can_stop: bool) -> (s: String)
    ensures
        s@ == if can_stop { "[ 停止下载 ] (S/点击)"@ } else { ""@ },
{
    if can_stop { String::from_str("[ 停止下载 ] (S/点击)") } else { String::from_str("") }
}

/// The description shown over the logs: the trimmed description, or
/// "暂无简介" when there is none or it is blank.
pub open spec fn desc_view(description: Option<String>) -> Seq<char> {
    match description {
        Some(d) => if trim_seq(d@).len() > 0 { trim_seq(d@) } else { "暂无简介"@ },
        None => "暂无简介"@,
    }
}

/// The description shown over the logs.
pub fn desc_text(description: &Option<String>) -> (s: String)
    ensures
        s@ == desc_view(*description),
{
    match description {
        Some(d) => {
            let t = trim_str(d.as_str());
            if t.len() > 0 { string_of(t.as_slice()) } else { String::from_str("暂无简介") }
        },
        None => String::from_str("暂无简介"),
    }
}

/// The book of a pending download: its name and author, its chapters and
/// how many of them are already downloaded, and its details.
#[derive(Debug)]
pub struct PreviewBook {
    pub name: Option<String>,
    pub author: Option<String>,
    pub chapter_total: usize,
    pub downloaded: usize,
    pub detail: BookDetail,
}

/// `label` and the value, when there is a value and it is not empty.
pub open spec fn nonempty_part(label: Seq<char>, v: Option<String>) -> Seq<Seq<char>> {
    match v {
        Some(s) => if s@.len() > 0 { seq![label + s@] } else { Seq::<Seq<char>>::empty() },
        None => Seq::<Seq<char>>::empty(),
    }
}

/// `label` and the value cut to 50 characters, when there is a value and
/// it is not empty.
pub open spec fn chapter_part(label: Seq<char>, v: Option<String>) -> Seq<Seq<char>> {
    match v {
        Some(s) => if s@.len() > 0 { seq![label + truncated(s@, 50)] } else { Seq::<Seq<char>>::empty() },
        None => Seq::<Seq<char>>::empty(),
    }
}

/// The modal's title line: the name in 《》 ("预览" without one), then the
/// original name in brackets when there is one.
pub open spec fn preview_title_view(book: Option<PreviewBook>) -> Seq<char> {
    match book {
        None => "《预览》"@,
        Some(b) => "《"@ + (match b.name { Some(n) => n@, None => "预览"@ }) + "》"@
            + (match b.detail.original_book_name {
                Some(o) => if o@.len() > 0 { " ("@ + o@ + ")"@ } else { Seq::<char>::empty() },
                None => Seq::<char>::empty(),
            }),
    }
}

/// The modal's information lines under the title, given how the score and
/// the word count read: chapters (with how many are downloaded), state and
/// author; the description (or "暂无"); score, word count and reads;
/// category and tags; first and last chapter (cut to 50 characters). Each
/// group is one line of parts joined by " | ", and the last three are left
/// out when empty.
pub open spec fn preview_rows_view(book: Option<PreviewBook>, score_text: Seq<char>, words_text: Seq<char>) -> Seq<Seq<char>> {
    match book {
        None => seq!["章节: 0 (已下载 0)"@, "简介: 暂无"@],
        Some(b) => {
            let d = b.detail;
            let row1 = seq!["章节: "@ + dec_string(b.chapter_total as nat) + " (已下载 "@ + dec_string(b.downloaded as nat) + ")"@]
                + (match d.finished { Some(f) => seq!["状态: "@ + (if f { "完结"@ } else { "连载"@ })], None => Seq::<Seq<char>>::empty() })
                + nonempty_part("作者: "@, b.author);
            let desc = match d.description {
                Some(x) => if x@.len() > 0 { "简介: "@ + trim_seq(x@) } else { "简介: 暂无"@ },
                None => "简介: 暂无"@,
            };
            let row2 = (if d.score_bits is Some { seq!["评分: "@ + score_text] } else { Seq::<Seq<char>>::empty() })
                + (if d.word_count is Some { seq!["字数: "@ + words_text] } else { Seq::<Seq<char>>::empty() })
                + (match or_else(d.read_count_text, d.read_count) { Some(r) => seq!["阅读: "@ + r@], None => Seq::<Seq<char>>::empty() });
            let row3 = nonempty_part("类别: "@, d.category)
                + (if d.tags@.len() > 0 { seq!["标签: "@ + join_seq(strings_view(d.tags@), " | "@)] } else { Seq::<Seq<char>>::empty() });
            let row4 = chapter_part("首章: "@, d.first_chapter_title) + chapter_part("末章: "@, d.last_chapter_title);
            with_parts(with_parts(with_parts(seq![join_seq(row1, " | "@), desc], row2), row3), row4)
        },
    }
}

/// The modal's title line and information lines.
#[derive(Debug)]
pub struct PreviewInfo {
    pub title: String,
    pub rows: Vec<String>,
}

/// `label` followed by `value`.
fn label_with(label: &str, value: &str) -> (s: String)
    ensures
        s@ == label@ + value@,
{
    let mut v = chars_of(label);
    append(&mut v, value);
    string_of(v.as_slice())
}

/// Adds `label` and the value to `parts` when the value is there and not
/// empty.
fn push_nonempty(parts: &mut Vec<String>, label: &str, v: &Option<String>)
    ensures
        strings_view(final(parts)@) == strings_view(old(parts)@) + nonempty_part(label@, *v),
{
    match v {
        Some(x) => {
            if chars_of(x.as_str()).len() > 0 {
                parts.push(label_with(label, x.as_str()));
            }
        },
        None => {},
    }
    assert(strings_view(parts@) =~= strings_view(old(parts)@) + nonempty_part(label@, *v));
}

/// Adds `label` and the chapter title cut to 50 characters when it is there
/// and not empty.
fn push_chapter(parts: &mut Vec<String>, label: &str, v: &Option<String>)
    ensures
        strings_view(final(parts)@) == strings_view(old(parts)@) + chapter_part(label@, *v),
{
    match v {
        Some(x) => {
            if chars_of(x.as_str()).len() > 0 {
                let t = truncate(x.as_str(), 50);
                parts.push(label_with(label, t.as_str()));
            }
        },
        None => {},
    }
    assert(strings_view(parts@) =~= strings_view(old(parts)@) + chapter_part(label@, *v));
}

/// Adds `parts` joined by " | " to `lines`, unless there are none.
fn push_joined(lines: &mut Vec<String>, parts: Vec<String>)
    ensures
        strings_view(final(lines)@) == with_parts(strings_view(old(lines)@), strings_view(parts@)),
{
    if parts.len() > 0 {
        let joined = join_strings(parts.as_slice(), " | ");
        lines.push(joined);
        assert(strings_view(lines@) =~= strings_view(old(lines)@).push(joined@));
    } else {
        assert(strings_view(lines@) =~= strings_view(old(lines)@));
    }
}

/// The first information line: chapters, state and author.
fn first_row(b: &PreviewBook) -> (s: String)
    ensures
        s@ == join_seq(
            seq!["章节: "@ + dec_string(b.chapter_total as nat) + " (已下载 "@ + dec_string(b.downloaded as nat) + ")"@]
                + (match b.detail.finished { Some(f) => seq!["状态: "@ + (if f { "完结"@ } else { "连载"@ })], None => Seq::<Seq<char>>::empty() })
                + nonempty_part("作者: "@, b.author),
            " | "@,
        ),
{
    let mut parts: Vec<String> = Vec::new();
    let mut v: Vec<char> = Vec::new();
    append(&mut v, "章节: ");
    append_number(&mut v, b.chapter_total);
    append(&mut v, " (已下载 ");
    append_number(&mut v, b.downloaded);
    append(&mut v, ")");
    parts.push(string_of(v.as_slice()));
    match b.detail.finished {
        Some(f) => {
            parts.push(label_with("状态: ", if f { "完结" } else { "连载" }));
        },
        None => {},
    }
    let ghost p1 = strings_view(parts@);
    push_nonempty(&mut parts, "作者: ", &b.author);
    let ghost want = seq!["章节: "@ + dec_string(b.chapter_total as nat) + " (已下载 "@ + dec_string(b.downloaded as nat) + ")"@]
        + (match b.detail.finished { Some(f) => seq!["状态: "@ + (if f { "完结"@ } else { "连载"@ })], None => Seq::<Seq<char>>::empty() })
        + nonempty_part("作者: "@, b.author);
    assert(p1 =~= seq!["章节: "@ + dec_string(b.chapter_total as nat) + " (已下载 "@ + dec_string(b.downloaded as nat) + ")"@]
        + (match b.detail.finished { Some(f) => seq!["状态: "@ + (if f { "完结"@ } else { "连载"@ })], None => Seq::<Seq<char>>::empty() }));
    assert(strings_view(parts@) =~= want);
    join_strings(parts.as_slice(), " | ")
}

/// The description line of the modal.
fn desc_row(description: &Option<String>) -> (s: String)
    ensures
        s@ == match *description {
            Some(x) => if x@.len() > 0 { "简介: "@ + trim_seq(x@) } else { "简介: 暂无"@ },
            None => "简介: 暂无"@,
        },
{
    match description {
        Some(x) => {
            if chars_of(x.as_str()).len() > 0 {
                let t = trim_str(x.as_str());
                let mut v = chars_of("简介: ");
                v.extend_from_slice(t.as_slice());
                string_of(v.as_slice())
            } else {
                String::from_str("简介: 暂无")
            }
        },
        None => String::from_str("简介: 暂无"),
    }
}

/// The title line and information lines of the preview modal.
pub fn preview_info(book: &Option<PreviewBook>, score_text: &str, words_text: &str) -> (r: PreviewInfo)
    ensures
        r.title@ == preview_title_view(*book),
        strings_view(r.rows@) == preview_rows_view(*book, score_text@, words_text@),
{
    let b = match book {
        None => {
            let mut rows: Vec<String> = Vec::new();
            rows.push(String::from_str("章节: 0 (已下载 0)"));
            rows.push(String::from_str("简介: 暂无"));
            assert(strings_view(rows@) =~= preview_rows_view(*book, score_text@, words_text@));
            return PreviewInfo { title: String::from_str("《预览》"), rows };
        },
        Some(b) => b,
    };
    let d = &b.detail;
    let mut t: Vec<char> = Vec::new();
    append(&mut t, "《");
    match &b.name {
        Some(n) => append(&mut t, n.as_str()),
        None => append(&mut t, "预览"),
    }
    append(&mut t, "》");
    match &d.original_book_name {
        Some(o) => {
            if chars_of(o.as_str()).len() > 0 {
                append(&mut t, " (");
                append(&mut t, o.as_str());
                append(&mut t, ")");
            }
        },
        None => {},
    }
    let title = string_of(t.as_slice());
    assert(title@ =~= preview_title_view(*book));

    let mut rows: Vec<String> = Vec::new();
    rows.push(first_row(b));
    rows.push(desc_row(&d.description));
    let ghost r0 = strings_view(rows@);

    let mut row2: Vec<String> = Vec::new();
    if d.score_bits.is_some() {
        row2.push(label_with("评分: ", score_text));
    }
    if d.word_count.is_some() {
        row2.push(label_with("字数: ", words_text));
    }
    let reads = if d.read_count_text.is_some() { &d.read_count_text } else { &d.read_count };
    match reads {
        Some(x) => row2.push(label_with("阅读: ", x.as_str())),
        None => {},
    }
    proof {
        assert(strings_view(row2@) =~= (if d.score_bits is Some { seq!["评分: "@ + score_text@] } else { Seq::<Seq<char>>::empty() })
            + (if d.word_count is Some { seq!["字数: "@ + words_text@] } else { Seq::<Seq<char>>::empty() })
            + (match or_else(d.read_count_text, d.read_count) { Some(r) => seq!["阅读: "@ + r@], None => Seq::<Seq<char>>::empty() }));
    }
    push_joined(&mut rows, row2);

    let mut row3: Vec<String> = Vec::new();
    push_nonempty(&mut row3, "类别: ", &d.category);
    if d.tags.len() > 0 {
        let joined = join_strings(d.tags.as_slice(), " | ");
        row3.push(label_with("标签: ", joined.as_str()));
    }
    proof {
        assert(strings_view(row3@) =~= nonempty_part("类别: "@, d.category)
            + (if d.tags@.len() > 0 { seq!["标签: "@ + join_seq(strings_view(d.tags@), " | "@)] } else { Seq::<Seq<char>>::empty() }));
    }
    push_joined(&mut rows, row3);

    let mut row4: Vec<String> = Vec::new();
    push_chapter(&mut row4, "首章: ", &d.first_chapter_title);
    push_chapter(&mut row4, "末章: ", &d.last_chapter_title);
    proof {
        assert(strings_view(row4@) =~= chapter_part("首章: "@, d.first_chapter_title) + chapter_part("末章: "@, d.last_chapter_title));
    }
    push_joined(&mut rows, row4);
    proof {
        assert(r0 =~= seq![
            join_seq(seq!["章节: "@ + dec_string(b.chapter_total as nat) + " (已下载 "@ + dec_string(b.downloaded as nat) + ")"@]
                + (match d.finished { Some(f) => seq!["状态: "@ + (if f { "完结"@ } else { "连载"@ })], None => Seq::<Seq<char>>::empty() })
                + nonempty_part("作者: "@, b.author), " | "@),
            match d.description {
                Some(x) => if x@.len() > 0 { "简介: "@ + trim_seq(x@) } else { "简介: 暂无"@ },
                None => "简介: 暂无"@,
            }
        ]);
    }
    PreviewInfo { title, rows }
}

/// The modal's text as one string, the title and each line on a line of
/// its own; its wrapped height decides how far the modal scrolls.
pub fn info_plain_text(info: &PreviewInfo) -> (s: String)
    ensures
        s@ == join_seq(seq![info.title@] + strings_view(info.rows@), "\n"@),
{
    let mut all: Vec<String> = Vec::new();
    all.push(copy_string(info.title.as_str()));
    for i in 0..info.rows.len()
        invariant
            all@.len() == i + 1,
            all@[0]@ == info.title@,
            forall|j: int| 0 <= j < i ==> #[trigger] all@[j + 1]@ == info.rows@[j]@,
    {
        all.push(copy_string(info.rows[i].as_str()));
    }
    let ghost want = seq![info.title@] + strings_view(info.rows@);
    assert forall|j: int| 0 <= j < all@.len() implies strings_view(all@)[j] == want[j] by {
        if j > 0 {
            assert(all@[(j - 1) + 1]@ == info.rows@[j - 1]@);
        }
    }
    assert(strings_view(all@) =~= want);
    join_strings(all.as_slice(), "\n")
}

/// The corner box shown while the device id is being prepared: 28 columns
/// and 5 rows (at most the screen's), one column in from the right edge.
pub open spec fn prewarm_overlay_spec(area: Rect) -> Rect {
    Rect {
        x: sat_add(area.x, sat_sub(area.width, 29)),
        y: area.y,
        width: min_u16(28, area.width),
        height: min_u16(5, area.height),
    }
}

/// Where the preparing box is drawn.
pub fn prewarm_overlay_rect(area: Rect) -> (r: Rect)
    ensures
        r == prewarm_overlay_spec(area),
{
    let width: u16 = 28;
    let height: u16 = 5;
    Rect {
        x: area.x.saturating_add(area.width.saturating_sub(width + 1)),
        y: area.y,
        width: if width <= area.width { width } else { area.width },
        height: if height <= area.height { height } else { area.height },
    }
}

/// A log box follows the latest entries: with any logs it shows at least
/// one and no more than fit inside its border, and they are the most recent
/// ones in order, ending with the newest.
pub proof fn lemma_log_box_shows_latest(logs: Seq<String>, height: u16)
    requires
        logs.len() > 0,
    ensures
        1 <= log_view(logs, height).len() <= at_least_one(sat_sub(height, 2)),
        log_view(logs, height).last() == logs.last()@,
        forall|i: int| 0 <= i < log_view(logs, height).len()
            ==> #[trigger] log_view(logs, height)[i] == logs[logs.len() - log_view(logs, height).len() + i]@,
{
    let k = at_least_one(sat_sub(height, 2)) as nat;
    let kept = keep_last(logs, k);
    assert(kept.len() <= k);
    assert forall|i: int| 0 <= i < kept.len() implies kept[i] == logs[logs.len() - kept.len() + i] by {
        if logs.len() > k {
            assert(kept == logs.skip(logs.len() - k));
        }
    }
}

/// A list's scrollbar takes one column right of the list: the two lie side
/// by side in the same rows, and together they cover the area when it is at
/// least two columns wide.
pub proof fn lemma_bar_beside_list(inner: Rect, len: usize)
    requires
        list_split_spec(inner, len).bar is Some,
    ensures
        ({
            let s = list_split_spec(inner, len);
            let bar = s.bar->0;
            &&& bar.x == sat_add(s.list.x, s.list.width)
            &&& bar.y == s.list.y && bar.height == s.list.height && bar.width == 1
            &&& s.list.x == inner.x && s.list.y == inner.y && s.list.height == inner.height
            &&& inner.width >= 2 ==> s.list.width + 1 == inner.width
            &&& len > inner.height
        }),
{
}

} // verus!
