//! Screen geometry and list navigation of the terminal interface: which cell
//! a click lands in, how selections wrap, how scroll offsets stay in range,
//! and the bounded message and log buffers.

use crate::text::{chars_of, string_of};
use vstd::prelude::*;

verus! {

/// A rectangle of terminal cells.
#[derive(Debug, Clone, Copy, PartialEq, Eq, Structural)]
pub struct Rect {
    pub x: u16,
    pub y: u16,
    pub width: u16,
    pub height: u16,
}

/// The mouse actions the screens react to.
#[derive(Debug, Clone, Copy, PartialEq, Eq, Structural)]
pub enum MouseAction {
    ScrollUp,
    ScrollDown,
    LeftDown,
    Moved,
    Other,
}

/// `a + b`, saturating at the largest `u16`.
pub open spec fn sat_add(a: u16, b: u16) -> u16 {
    if a + b > u16::MAX { u16::MAX } else { (a + b) as u16 }
}

/// `a - b`, saturating at 0.
pub open spec fn sat_sub(a: u16, b: u16) -> u16 {
    if a < b { 0 } else { (a - b) as u16 }
}

/// Whether the cell (`col`, `row`) lies in `area` (its far edges computed
/// with saturation).
pub open spec fn inside(area: Rect, col: u16, row: u16) -> bool {
    col >= area.x && col < sat_add(area.x, area.width) && row >= area.y && row < sat_add(area.y, area.height)
}

/// Whether the cell (`col`, `row`) lies in `area`.
pub fn pos_in(area: Rect, col: u16, row: u16) -> (b: bool)
    ensures
        b == inside(area, col, row),
{
    col >= area.x && col < area.x.saturating_add(area.width) && row >= area.y && row < area.y.saturating_add(
        area.height,
    )
}

/// The inside of a bordered box: one cell in from each edge.
pub open spec fn inner_of(area: Rect) -> Rect {
    Rect {
        x: sat_add(area.x, 1),
        y: sat_add(area.y, 1),
        width: sat_sub(area.width, 2),
        height: sat_sub(area.height, 2),
    }
}

/// The inside of a bordered list.
pub fn list_inner_area(area: Rect) -> (r: Rect)
    ensures
        r == inner_of(area),
{
    Rect {
        x: area.x.saturating_add(1),
        y: area.y.saturating_add(1),
        width: area.width.saturating_sub(2),
        height: area.height.saturating_sub(2),
    }
}

/// The item of a short bordered list (drawn without scrolling) under `row`,
/// counted from the row below the top border; rows on or above the border
/// count as the first item.
pub open spec fn bordered_row(area: Rect, row: u16) -> usize {
    if row < area.y + 1 { 0 } else { (row - area.y - 1) as usize }
}

/// The item of a short bordered list under `row`, for a `row` inside it.
pub fn bordered_row_index(area: Rect, row: u16) -> (r: usize)
    requires
        row >= area.y,
        row < sat_add(area.y, area.height),
    ensures
        r == bordered_row(area, row),
{
    row.saturating_sub(area.y + 1) as usize
}

/// The list item under `mouse_row` in a bordered list scrolled by `offset`:
/// rows count from the top of the inside, and only rows inside the box and
/// items that exist are hit.
pub open spec fn row_hit(list_area: Rect, mouse_row: u16, offset: usize, items_len: usize) -> Option<usize> {
    let inner = inner_of(list_area);
    if items_len == 0 || inner.height == 0 || mouse_row < inner.y {
        None
    } else {
        let rel = (mouse_row - inner.y) as int;
        let idx = if offset + rel > usize::MAX { usize::MAX as int } else { offset + rel };
        if rel >= inner.height || idx >= items_len { None } else { Some(idx as usize) }
    }
}

/// The list item under `mouse_row`.
pub fn list_index_from_mouse_row(list_area: Rect, mouse_row: u16, offset: usize, items_len: usize) -> (r: Option<usize>)
    ensures
        r == row_hit(list_area, mouse_row, offset, items_len),
{
    if items_len == 0 {
        return None;
    }
    let inner = list_inner_area(list_area);
    if inner.height == 0 {
        return None;
    }
    if mouse_row < inner.y {
        return None;
    }
    let rel = (mouse_row - inner.y) as usize;
    if rel >= inner.height as usize {
        return None;
    }
    let idx = offset.saturating_add(rel);
    if idx < items_len {
        Some(idx)
    } else {
        None
    }
}

/// The "back" button of the history detail pane: twelve cells wide (at most
/// the inner width, at least one cell), one row high, in the bottom-right
/// corner of the pane's inside.
pub open spec fn back_button_of(detail_area: Rect) -> Rect {
    let inner = inner_of(detail_area);
    let wmax = if inner.width >= 1 { inner.width } else { 1 };
    Rect {
        x: sat_add(inner.x, sat_sub(inner.width, 12)),
        y: sat_add(inner.y, sat_sub(inner.height, 1)),
        width: if 12 <= wmax { 12 } else { wmax },
        height: 1,
    }
}

/// Where the "back" button of the history detail pane is drawn.
pub fn back_button_rect(detail_area: Rect) -> (r: Rect)
    ensures
        r == back_button_of(detail_area),
{
    let inner = list_inner_area(detail_area);
    let w: u16 = 12;
    let h: u16 = 1;
    let wmax = if inner.width >= 1 { inner.width } else { 1 };
    Rect {
        x: inner.x.saturating_add(inner.width.saturating_sub(w)),
        y: inner.y.saturating_add(inner.height.saturating_sub(h)),
        width: if w <= wmax { w } else { wmax },
        height: h,
    }
}

/// The selection after "next" in a list of `len` items: nothing in an empty
/// list; otherwise the following item, wrapping from the last (or from no
/// selection) to the first.
pub open spec fn next_wrapping(selected: Option<usize>, len: usize) -> Option<usize> {
    if len == 0 {
        None
    } else {
        match selected {
            Some(i) => Some(((i + 1) % (len as int)) as usize),
            None => Some(0),
        }
    }
}

/// The selection after "previous": nothing in an empty list; otherwise the
/// preceding item, wrapping from the first to the last, and the first when
/// nothing was selected.
pub open spec fn prev_wrapping(selected: Option<usize>, len: usize) -> Option<usize> {
    if len == 0 {
        None
    } else {
        match selected {
            Some(i) => if i == 0 { Some((len - 1) as usize) } else { Some((i - 1) as usize) },
            None => Some(0),
        }
    }
}

/// The next selection in a list of `len` items (the categories, entries,
/// history and update lists).
pub fn select_next(selected: Option<usize>, len: usize) -> (r: Option<usize>)
    ensures
        r == next_wrapping(selected, len),
{
    if len == 0 {
        return None;
    }
    match selected {
        Some(i) => {
            let j: usize = if i < usize::MAX { (i + 1) % len } else { ((i % len) + 1) % len };
            proof {
                if i == usize::MAX {
                    assert(((i + 1) % (len as int)) == (((i % len) + 1) % (len as int))) by (nonlinear_arith)
                        requires
                            len > 0;
                }
            }
            Some(j)
        },
        None => Some(0),
    }
}

/// The previous selection in a list of `len` items.
pub fn select_prev(selected: Option<usize>, len: usize) -> (r: Option<usize>)
    ensures
        r == prev_wrapping(selected, len),
{
    if len == 0 {
        return None;
    }
    match selected {
        Some(i) => if i == 0 { Some(len - 1) } else { Some(i - 1) },
        None => Some(0),
    }
}

/// The next search result: the following one, or the first after the last
/// (or after a selection past the end).
pub open spec fn next_result(selected: Option<usize>, len: usize) -> Option<usize> {
    if len == 0 {
        None
    } else {
        match selected {
            Some(i) => if i + 1 < len { Some((i + 1) as usize) } else { Some(0) },
            None => Some(0),
        }
    }
}

/// The previous search result: the one before, or the last from the first
/// (or from no selection).
pub open spec fn prev_result(selected: Option<usize>, len: usize) -> Option<usize> {
    if len == 0 {
        None
    } else {
        match selected {
            Some(i) => if i == 0 { Some((len - 1) as usize) } else { Some((i - 1) as usize) },
            None => Some((len - 1) as usize),
        }
    }
}

/// The next selection among the search results.
pub fn select_next_result(selected: Option<usize>, len: usize) -> (r: Option<usize>)
    ensures
        r == next_result(selected, len),
{
    if len == 0 {
        return None;
    }
    match selected {
        Some(i) => if i < len - 1 { Some(i + 1) } else { Some(0) },
        None => Some(0),
    }
}

/// The previous selection among the search results.
pub fn select_prev_result(selected: Option<usize>, len: usize) -> (r: Option<usize>)
    ensures
        r == prev_result(selected, len),
{
    if len == 0 {
        return None;
    }
    match selected {
        Some(i) => if i == 0 { Some(len - 1) } else { Some(i - 1) },
        None => Some(len - 1),
    }
}

/// The previous entry of the home menu of `len` items: like
/// `prev_wrapping`, but from no selection it goes to the last item; an empty
/// menu keeps its selection.
pub open spec fn prev_menu(selected: Option<usize>, len: usize) -> Option<usize> {
    if len == 0 {
        selected
    } else {
        match selected {
            Some(i) => if i == 0 { Some((len - 1) as usize) } else { Some((i - 1) as usize) },
            None => Some((len - 1) as usize),
        }
    }
}

/// The next entry of the home menu; an empty menu keeps its selection.
pub open spec fn next_menu(selected: Option<usize>, len: usize) -> Option<usize> {
    if len == 0 { selected } else { next_wrapping(selected, len) }
}

/// The next entry of the home menu.
pub fn select_next_menu(selected: Option<usize>, len: usize) -> (r: Option<usize>)
    ensures
        r == next_menu(selected, len),
{
    if len == 0 {
        return selected;
    }
    select_next(selected, len)
}

/// The previous entry of the home menu.
pub fn select_prev_menu(selected: Option<usize>, len: usize) -> (r: Option<usize>)
    ensures
        r == prev_menu(selected, len),
{
    if len == 0 {
        return selected;
    }
    match selected {
        Some(i) => if i == 0 { Some(len - 1) } else { Some(i - 1) },
        None => Some(len - 1),
    }
}

/// Moving through the options of a dialog: up wraps from the first to the
/// last, down wraps from the last to the first; an empty dialog keeps its
/// selection; no selection counts as the first.
pub open spec fn modal_step(selected: Option<usize>, len: usize, up: bool) -> Option<usize> {
    if len == 0 {
        selected
    } else {
        let cur: int = match selected { Some(i) => i as int, None => 0 };
        if up {
            if cur == 0 { Some((len - 1) as usize) } else { Some((cur - 1) as usize) }
        } else {
            Some(((cur + 1) % (len as int)) as usize)
        }
    }
}

/// The dialog selection after an up or down key.
pub fn modal_select(selected: Option<usize>, len: usize, up: bool) -> (r: Option<usize>)
    ensures
        r == modal_step(selected, len, up),
{
    if len == 0 {
        return selected;
    }
    let cur: usize = match selected {
        Some(i) => i,
        None => 0,
    };
    if up {
        if cur == 0 { Some(len - 1) } else { Some(cur - 1) }
    } else {
        let r = select_next(Some(cur), len);
        r
    }
}

/// The entry selection that goes with a category: when the category has
/// entries, the previous entry index clamped into range (the first when
/// none was selected); otherwise none.
pub open spec fn entry_selection(selected: Option<usize>, entries_len: Option<usize>) -> Option<usize> {
    match entries_len {
        Some(n) if n > 0 => {
            let want: int = match selected { Some(i) => i as int, None => 0 };
            if want <= n - 1 { Some(want as usize) } else { Some((n - 1) as usize) }
        },
        _ => None,
    }
}

/// Brings the entry selection in line with the current category, which has
/// `entries_len` entries (`None` when no category is selected).
pub fn ensure_entry_selection(selected: Option<usize>, entries_len: Option<usize>) -> (r: Option<usize>)
    ensures
        r == entry_selection(selected, entries_len),
{
    match entries_len {
        Some(n) => {
            if n == 0 {
                return None;
            }
            let want: usize = match selected {
                Some(i) => i,
                None => 0,
            };
            if want <= n - 1 { Some(want) } else { Some(n - 1) }
        },
        None => None,
    }
}

/// Which pane of the home screen has the keyboard.
#[derive(Debug, Clone, Copy, PartialEq, Eq, Structural)]
pub enum Focus {
    Input,
    Menu,
    Results,
}

/// The pane after Tab: input, then menu, then the results when there are
/// any, then back to the input.
pub open spec fn next_focus(f: Focus, has_results: bool) -> Focus {
    match f {
        Focus::Input => Focus::Menu,
        Focus::Menu => if has_results { Focus::Results } else { Focus::Input },
        Focus::Results => Focus::Input,
    }
}

/// The pane after Tab.
pub fn cycle_focus(f: Focus, has_results: bool) -> (r: Focus)
    ensures
        r == next_focus(f, has_results),
{
    match f {
        Focus::Input => Focus::Menu,
        Focus::Menu => if has_results { Focus::Results } else { Focus::Input },
        Focus::Results => Focus::Input,
    }
}

/// A scroll offset moved up by `lines`, stopping at the top.
pub fn scroll_up(offset: u16, lines: u16) -> (r: u16)
    ensures
        r == sat_sub(offset, lines),
{
    offset.saturating_sub(lines)
}

/// A scroll offset moved down by `lines`, stopping at `max`.
pub fn scroll_down(offset: u16, lines: u16, max: u16) -> (r: u16)
    ensures
        r == if sat_add(offset, lines) <= max { sat_add(offset, lines) } else { max },
{
    let s = offset.saturating_add(lines);
    if s <= max { s } else { max }
}

/// The last `keep` items of `s` (all of them when there are fewer).
pub open spec fn keep_last<T>(s: Seq<T>, keep: nat) -> Seq<T> {
    if s.len() > keep { s.skip(s.len() - keep) } else { s }
}

/// The most status messages kept.
pub const MESSAGE_LIMIT: usize = 8;

/// The most log lines kept.
pub const LOG_LIMIT: usize = 200;

/// Appends `msg` and drops the oldest items beyond `limit`.
fn push_bounded(list: &mut Vec<String>, msg: String, limit: usize)
    requires
        limit > 0,
        old(list)@.len() <= limit,
    ensures
        final(list)@ == keep_last(old(list)@.push(msg), limit as nat),
        final(list)@.len() <= limit,
{
    let ghost pushed = old(list)@.push(msg);
    list.push(msg);
    if list.len() > limit {
        let _oldest = list.remove(0);
        assert(list@ =~= pushed.skip(pushed.len() - limit));
    }
}

/// Adds a status message, keeping the last eight.
pub fn push_message(messages: &mut Vec<String>, msg: String)
    requires
        old(messages)@.len() <= MESSAGE_LIMIT,
    ensures
        final(messages)@ == keep_last(old(messages)@.push(msg), MESSAGE_LIMIT as nat),
        final(messages)@.len() <= MESSAGE_LIMIT,
{
    push_bounded(messages, msg, MESSAGE_LIMIT);
}

/// `s` without its trailing carriage returns and line feeds.
pub open spec fn trim_line_end(s: Seq<char>) -> Seq<char>
    decreases s.len(),
{
    if s.len() > 0 && (s.last() == '\r' || s.last() == '\n') {
        trim_line_end(s.drop_last())
    } else {
        s
    }
}

/// The characters of `s` without trailing carriage returns and line feeds.
pub fn trim_line_end_chars(s: &str) -> (r: String)
    ensures
        r@ == trim_line_end(s@),
{
    let v = chars_of(s);
    let mut n = v.len();
    assert(v@.take(v@.len() as int) =~= v@);
    while n > 0 && (v[n - 1] == '\r' || v[n - 1] == '\n')
        invariant
            n <= v@.len(),
            trim_line_end(v@.take(n as int)) == trim_line_end(v@),
        decreases n,
    {
        assert(v@.take(n as int).drop_last() =~= v@.take(n - 1));
        n = n - 1;
    }
    assert(n > 0 ==> v@.take(n as int).last() == v@[n - 1]);
    assert(trim_line_end(v@.take(n as int)) == v@.take(n as int));
    let mut out: Vec<char> = Vec::new();
    for i in 0..n
        invariant
            n <= v@.len(),
            out@ == v@.take(i as int),
    {
        out.push(v[i]);
        assert(v@.take(i as int).push(v@[i as int]) =~= v@.take(i + 1));
    }
    string_of(out.as_slice())
}

/// Adds a log line without its line ending, keeping the last two hundred.
pub fn push_log(logs: &mut Vec<String>, msg: &str)
    requires
        old(logs)@.len() <= LOG_LIMIT,
    ensures
        final(logs)@.len() > 0,
        final(logs)@.last()@ == trim_line_end(msg@),
        final(logs)@.drop_last() == keep_last(old(logs)@, (LOG_LIMIT - 1) as nat),
{
    let line = trim_line_end_chars(msg);
    let ghost l = line;
    push_bounded(logs, line, LOG_LIMIT);
    proof {
        let o = old(logs)@;
        let p = o.push(l);
        if p.len() > LOG_LIMIT {
            assert(p.skip(p.len() - LOG_LIMIT).drop_last() =~= o.skip(o.len() - (LOG_LIMIT - 1)));
        } else {
            assert(p.drop_last() =~= o);
        }
    }
}

/// The first `limit` characters of `text`, followed by `…` when there were more.
pub open spec fn truncated(text: Seq<char>, limit: nat) -> Seq<char> {
    if text.len() > limit { text.take(limit as int).push('…') } else { text }
}

/// Shortens `text` to `limit` characters, marking the cut with `…`.
pub fn truncate(text: &str, limit: usize) -> (s: String)
    ensures
        s@ == truncated(text@, limit as nat),
{
    let v = chars_of(text);
    let mut out: Vec<char> = Vec::new();
    let mut i: usize = 0;
    while i < v.len()
        invariant
            v@ == text@,
            i <= v@.len(),
            i <= limit,
            out@ == v@.take(i as int),
        decreases v@.len() - i,
    {
        if i >= limit {
            out.push('…');
            assert(v@.len() > limit);
            assert(out@ =~= text@.take(limit as int).push('…'));
            return string_of(out.as_slice());
        }
        out.push(v[i]);
        assert(v@.take(i as int).push(v@[i as int]) =~= v@.take(i + 1));
        i = i + 1;
    }
    assert(v@.take(v@.len() as int) =~= v@);
    string_of(out.as_slice())
}


/// In a list of `len` items, "next" then "previous" (or the other way round)
/// comes back to the selected item.
pub proof fn lemma_next_prev_roundtrip(sel: usize, len: usize)
    requires
        sel < len,
    ensures
        prev_wrapping(next_wrapping(Some(sel), len), len) == Some(sel),
        next_wrapping(prev_wrapping(Some(sel), len), len) == Some(sel),
{
    if sel + 1 < len {
        assert((sel + 1) % (len as int) == sel + 1) by (nonlinear_arith)
            requires
                sel + 1 < len,
                sel >= 0;
    } else {
        assert((sel + 1) % (len as int) == 0) by (nonlinear_arith)
            requires
                sel + 1 == len,
                len > 0;
    }
    if sel == 0 {
        assert(((len - 1) + 1) % (len as int) == 0) by (nonlinear_arith)
            requires
                len > 0;
    } else {
        assert(((sel - 1) + 1) % (len as int) == sel) by (nonlinear_arith)
            requires
                0 < sel < len;
    }
}

/// Clicking row `r` of a bordered list selects the item shown there: the
/// item at the scroll offset plus the row's position inside the border,
/// when that item exists.
pub proof fn lemma_row_hit_in_list(list_area: Rect, row: u16, offset: usize, items_len: usize)
    requires
        row_hit(list_area, row, offset, items_len) is Some,
    ensures
        row_hit(list_area, row, offset, items_len)->0 < items_len,
        inner_of(list_area).y <= row < inner_of(list_area).y + inner_of(list_area).height,
{
}

} // verus!
