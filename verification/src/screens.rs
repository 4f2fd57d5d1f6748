//! The keyboard and mouse handling of the smaller terminal screens as state
//! machines: the update list, the "about" page, the download history, the
//! cover view, the preview page and the book-name choice.

use crate::nav::{
    MouseAction, Rect, back_button_of, bordered_row, inside, next_wrapping, prev_wrapping, row_hit, sat_add, sat_sub,
};
use crate::text::{chars_of, string_of, u64_to_dec, dec_string};
use vstd::prelude::*;

verus! {

// ---------------------------------------------------------------------------
// The update list
// ---------------------------------------------------------------------------

/// What the update list shows and selects.
#[derive(Debug, Clone, Copy, PartialEq, Eq, Structural)]
pub struct UpdateScreen {
    /// Whether the books without updates are shown (else those with updates).
    pub show_no_update: bool,
    pub selected: Option<usize>,
}

/// The keys the update list reacts to.
#[derive(Debug, Clone, Copy, PartialEq, Eq, Structural)]
pub enum ListKey {
    Char(char),
    Esc,
    Up,
    Down,
    Enter,
    Other,
}

/// What the caller does after an event on the update list; the index is
/// into the list shown.
#[derive(Debug, Clone, Copy, PartialEq, Eq, Structural)]
pub enum UpdateAction {
    Nothing,
    /// Back to the home screen ("返回主菜单").
    Exit,
    /// Flip whether updates of this book are ignored, then scan again.
    ToggleIgnore(usize),
    ShowCover(usize),
    /// Preview this book for downloading its update ("更新: " and its label).
    Preview(usize),
}

/// The length of the list shown.
pub open spec fn shown_len(s: UpdateScreen, n_updates: usize, n_no_updates: usize) -> usize {
    if s.show_no_update { n_no_updates } else { n_updates }
}

/// The selected entry of the list shown, if it exists.
pub open spec fn current_entry(s: UpdateScreen, n_updates: usize, n_no_updates: usize) -> Option<usize> {
    match s.selected {
        Some(i) => if i < shown_len(s, n_updates, n_no_updates) { Some(i) } else { None },
        None => None,
    }
}

/// An action on the selected entry, or nothing without one.
pub open spec fn on_current(s: UpdateScreen, n_updates: usize, n_no_updates: usize, make: spec_fn(usize) -> UpdateAction) -> UpdateAction {
    match current_entry(s, n_updates, n_no_updates) {
        Some(i) => make(i),
        None => UpdateAction::Nothing,
    }
}

/// The update list's reaction to a key, with `n_updates` books that have
/// updates and `n_no_updates` that have none.
pub open spec fn update_key_spec(s: UpdateScreen, key: ListKey, n_updates: usize, n_no_updates: usize) -> (UpdateScreen, UpdateAction) {
    let len = shown_len(s, n_updates, n_no_updates);
    let cur = current_entry(s, n_updates, n_no_updates);
    match key {
        ListKey::Char('q') | ListKey::Esc | ListKey::Char('b') => (s, UpdateAction::Exit),
        ListKey::Char('i') => (s, if cur is Some { UpdateAction::ToggleIgnore(cur->0) } else { UpdateAction::Nothing }),
        ListKey::Char('p') => (s, if cur is Some { UpdateAction::ShowCover(cur->0) } else { UpdateAction::Nothing }),
        ListKey::Char('n') => {
            let show = !s.show_no_update;
            let n = if show { n_no_updates } else { n_updates };
            (UpdateScreen { show_no_update: show, selected: if n > 0 { Some(0usize) } else { None } }, UpdateAction::Nothing)
        },
        ListKey::Up => (UpdateScreen { selected: prev_wrapping(s.selected, len), ..s }, UpdateAction::Nothing),
        ListKey::Down => (UpdateScreen { selected: next_wrapping(s.selected, len), ..s }, UpdateAction::Nothing),
        ListKey::Enter => (s, if cur is Some { UpdateAction::Preview(cur->0) } else { UpdateAction::Nothing }),
        _ => (s, UpdateAction::Nothing),
    }
}

/// The selected entry of the list shown.
fn current_of(s: UpdateScreen, n_updates: usize, n_no_updates: usize) -> (r: Option<usize>)
    ensures
        r == current_entry(s, n_updates, n_no_updates),
{
    let len = if s.show_no_update { n_no_updates } else { n_updates };
    match s.selected {
        Some(i) => if i < len { Some(i) } else { None },
        None => None,
    }
}

/// The update list's reaction to a key.
pub fn handle_update_key(s: UpdateScreen, key: ListKey, n_updates: usize, n_no_updates: usize) -> (r: (UpdateScreen, UpdateAction))
    ensures
        r == update_key_spec(s, key, n_updates, n_no_updates),
{
    let len = if s.show_no_update { n_no_updates } else { n_updates };
    let cur = current_of(s, n_updates, n_no_updates);
    match key {
        ListKey::Char('q') | ListKey::Esc | ListKey::Char('b') => (s, UpdateAction::Exit),
        ListKey::Char('i') => (s, match cur { Some(i) => UpdateAction::ToggleIgnore(i), None => UpdateAction::Nothing }),
        ListKey::Char('p') => (s, match cur { Some(i) => UpdateAction::ShowCover(i), None => UpdateAction::Nothing }),
        ListKey::Char('n') => {
            let show = !s.show_no_update;
            let n = if show { n_no_updates } else { n_updates };
            (UpdateScreen { show_no_update: show, selected: if n > 0 { Some(0usize) } else { None } }, UpdateAction::Nothing)
        },
        ListKey::Up => (UpdateScreen { selected: crate::nav::select_prev(s.selected, len), ..s }, UpdateAction::Nothing),
        ListKey::Down => (UpdateScreen { selected: crate::nav::select_next(s.selected, len), ..s }, UpdateAction::Nothing),
        ListKey::Enter => (s, match cur { Some(i) => UpdateAction::Preview(i), None => UpdateAction::Nothing }),
        _ => (s, UpdateAction::Nothing),
    }
}

/// Where the update list was last drawn.
#[derive(Debug, Clone, Copy, PartialEq, Eq, Structural)]
pub struct UpdateLayout {
    /// The list (bordered).
    pub list: Option<Rect>,
    pub list_offset: usize,
    /// The "back" button.
    pub exit_button: Option<Rect>,
}

/// The update list's reaction to the mouse: a click on the "back" button
/// leaves; over the list the wheel moves the selection (selecting the first
/// entry when none is), a click selects and previews an entry, hovering
/// selects it.
pub open spec fn update_mouse_spec(
    s: UpdateScreen,
    l: UpdateLayout,
    action: MouseAction,
    col: u16,
    row: u16,
    n_updates: usize,
    n_no_updates: usize,
) -> (UpdateScreen, UpdateAction) {
    let len = shown_len(s, n_updates, n_no_updates);
    if action == MouseAction::LeftDown && l.exit_button is Some && inside(l.exit_button->0, col, row) {
        (s, UpdateAction::Exit)
    } else if l.list is Some && inside(l.list->0, col, row) {
        let hit = row_hit(l.list->0, row, l.list_offset, len);
        match action {
            MouseAction::ScrollUp | MouseAction::ScrollDown => if len == 0 {
                (s, UpdateAction::Nothing)
            } else if s.selected is None {
                (UpdateScreen { selected: Some(0usize), ..s }, UpdateAction::Nothing)
            } else if action == MouseAction::ScrollUp {
                (UpdateScreen { selected: prev_wrapping(s.selected, len), ..s }, UpdateAction::Nothing)
            } else {
                (UpdateScreen { selected: next_wrapping(s.selected, len), ..s }, UpdateAction::Nothing)
            },
            MouseAction::LeftDown => match hit {
                Some(i) => (UpdateScreen { selected: Some(i), ..s }, UpdateAction::Preview(i)),
                None => (s, UpdateAction::Nothing),
            },
            MouseAction::Moved => match hit {
                Some(i) => (UpdateScreen { selected: Some(i), ..s }, UpdateAction::Nothing),
                None => (s, UpdateAction::Nothing),
            },
            MouseAction::Other => (s, UpdateAction::Nothing),
        }
    } else {
        (s, UpdateAction::Nothing)
    }
}

/// The update list's reaction to the mouse at (`col`, `row`).
pub fn handle_update_mouse(
    s: UpdateScreen,
    l: UpdateLayout,
    action: MouseAction,
    col: u16,
    row: u16,
    n_updates: usize,
    n_no_updates: usize,
) -> (r: (UpdateScreen, UpdateAction))
    ensures
        r == update_mouse_spec(s, l, action, col, row, n_updates, n_no_updates),
{
    let len = if s.show_no_update { n_no_updates } else { n_updates };
    if action == MouseAction::LeftDown {
        if let Some(b) = l.exit_button {
            if crate::nav::pos_in(b, col, row) {
                return (s, UpdateAction::Exit);
            }
        }
    }
    let area = match l.list {
        Some(a) => a,
        None => return (s, UpdateAction::Nothing),
    };
    if !crate::nav::pos_in(area, col, row) {
        return (s, UpdateAction::Nothing);
    }
    let hit = crate::nav::list_index_from_mouse_row(area, row, l.list_offset, len);
    match action {
        MouseAction::ScrollUp | MouseAction::ScrollDown => {
            if len == 0 {
                (s, UpdateAction::Nothing)
            } else if s.selected.is_none() {
                (UpdateScreen { selected: Some(0usize), ..s }, UpdateAction::Nothing)
            } else if action == MouseAction::ScrollUp {
                (UpdateScreen { selected: crate::nav::select_prev(s.selected, len), ..s }, UpdateAction::Nothing)
            } else {
                (UpdateScreen { selected: crate::nav::select_next(s.selected, len), ..s }, UpdateAction::Nothing)
            }
        },
        MouseAction::LeftDown => match hit {
            Some(i) => (UpdateScreen { selected: Some(i), ..s }, UpdateAction::Preview(i)),
            None => (s, UpdateAction::Nothing),
        },
        MouseAction::Moved => match hit {
            Some(i) => (UpdateScreen { selected: Some(i), ..s }, UpdateAction::Nothing),
            None => (s, UpdateAction::Nothing),
        },
        MouseAction::Other => (s, UpdateAction::Nothing),
    }
}

// ---------------------------------------------------------------------------
// The "about" page
// ---------------------------------------------------------------------------

/// The number of buttons of the "about" page (打开Github仓库, 检查程序更新,
/// 执行自更新, 不再提醒该版本, 返回).
pub const ABOUT_BUTTON_COUNT: usize = 5;

/// What the caller does after an event on the "about" page.
#[derive(Debug, Clone, Copy, PartialEq, Eq, Structural)]
pub enum AboutAction {
    Nothing,
    /// Back to the home screen ("返回主菜单").
    GoHome,
    OpenRepo,
    CheckUpdate,
    /// Quit and run the self-update, confirmed already.
    SelfUpdate,
    DismissUpdate,
}

/// What button `i` does.
pub open spec fn button_action(i: usize) -> AboutAction {
    if i == 0 {
        AboutAction::OpenRepo
    } else if i == 1 {
        AboutAction::CheckUpdate
    } else if i == 2 {
        AboutAction::SelfUpdate
    } else if i == 3 {
        AboutAction::DismissUpdate
    } else if i == 4 {
        AboutAction::GoHome
    } else {
        AboutAction::Nothing
    }
}

/// The "about" page's reaction to a key: the selection wraps, Enter presses
/// the selected button.
pub open spec fn about_key_spec(selected: Option<usize>, key: ListKey) -> (Option<usize>, AboutAction) {
    let cur: int = match selected { Some(i) => i as int, None => 0 };
    match key {
        ListKey::Char('q') | ListKey::Esc => (selected, AboutAction::GoHome),
        ListKey::Enter => (selected, match selected { Some(i) => button_action(i), None => AboutAction::Nothing }),
        ListKey::Up => (Some(if cur == 0 { (ABOUT_BUTTON_COUNT - 1) as usize } else { (cur - 1) as usize }), AboutAction::Nothing),
        ListKey::Down => (Some(((cur + 1) % (ABOUT_BUTTON_COUNT as int)) as usize), AboutAction::Nothing),
        _ => (selected, AboutAction::Nothing),
    }
}

/// The update list's keys: `q`, Esc and `b` leave without changing the
/// list; Enter previews the selected entry when it exists; `n` switches
/// between the books with and without updates, selecting the first entry
/// of a non-empty list, and switching twice shows the first list again.
pub proof fn lemma_update_keys(s: UpdateScreen, n_updates: usize, n_no_updates: usize, i: usize)
    ensures
        update_key_spec(s, ListKey::Char('q'), n_updates, n_no_updates) == (s, UpdateAction::Exit),
        update_key_spec(s, ListKey::Esc, n_updates, n_no_updates) == (s, UpdateAction::Exit),
        update_key_spec(s, ListKey::Char('b'), n_updates, n_no_updates) == (s, UpdateAction::Exit),
        s.selected == Some(i) && i < (if s.show_no_update { n_no_updates } else { n_updates })
            ==> update_key_spec(s, ListKey::Enter, n_updates, n_no_updates) == (s, UpdateAction::Preview(i)),
        s.selected is None ==> update_key_spec(s, ListKey::Enter, n_updates, n_no_updates).1 == UpdateAction::Nothing,
        update_key_spec(s, ListKey::Char('n'), n_updates, n_no_updates).0.show_no_update == !s.show_no_update,
        update_key_spec(update_key_spec(s, ListKey::Char('n'), n_updates, n_no_updates).0, ListKey::Char('n'), n_updates, n_no_updates).0.show_no_update
            == s.show_no_update,
        (if s.show_no_update { n_updates } else { n_no_updates }) > 0
            ==> update_key_spec(s, ListKey::Char('n'), n_updates, n_no_updates).0.selected == Some(0usize),
{
}

/// The "about" page's keys: `q` and Esc go home; Enter presses the
/// selected button (the first opens the repository, then checking for an
/// update, the self update, silencing the reminder, and going home); the
/// arrows move through the five buttons, wrapping, and undo each other.
pub proof fn lemma_about_keys(selected: Option<usize>, i: usize)
    ensures
        about_key_spec(selected, ListKey::Char('q')) == (selected, AboutAction::GoHome),
        about_key_spec(selected, ListKey::Esc) == (selected, AboutAction::GoHome),
        about_key_spec(Some(0), ListKey::Enter).1 == AboutAction::OpenRepo,
        about_key_spec(Some(1), ListKey::Enter).1 == AboutAction::CheckUpdate,
        about_key_spec(Some(2), ListKey::Enter).1 == AboutAction::SelfUpdate,
        about_key_spec(Some(3), ListKey::Enter).1 == AboutAction::DismissUpdate,
        about_key_spec(Some(4), ListKey::Enter).1 == AboutAction::GoHome,
        about_key_spec(Some(0), ListKey::Up).0 == Some(4usize),
        about_key_spec(Some(4), ListKey::Down).0 == Some(0usize),
        i < 5 ==> about_key_spec(about_key_spec(Some(i), ListKey::Down).0, ListKey::Up).0 == Some(i),
        i < 5 ==> about_key_spec(about_key_spec(Some(i), ListKey::Up).0, ListKey::Down).0 == Some(i),
{
    if i < 5 {
        if i == 4 {
            assert((4int + 1) % 5 == 0);
        } else {
            assert((i + 1) % 5 == i + 1) by (nonlinear_arith)
                requires
                    i < 4;
        }
        if i == 0 {
            assert((4int + 1) % 5 == 0);
        } else {
            assert(((i - 1) + 1) % 5 == i) by (nonlinear_arith)
                requires
                    0 < i < 5;
        }
    }
    assert((0int + 1) % 5 == 1);
}

/// What button `i` does.
fn action_of_button(i: usize) -> (a: AboutAction)
    ensures
        a == button_action(i),
{
    if i == 0 {
        AboutAction::OpenRepo
    } else if i == 1 {
        AboutAction::CheckUpdate
    } else if i == 2 {
        AboutAction::SelfUpdate
    } else if i == 3 {
        AboutAction::DismissUpdate
    } else if i == 4 {
        AboutAction::GoHome
    } else {
        AboutAction::Nothing
    }
}

/// The "about" page's reaction to a key.
pub fn handle_about_key(selected: Option<usize>, key: ListKey) -> (r: (Option<usize>, AboutAction))
    requires
        selected != Some(usize::MAX),
    ensures
        r == about_key_spec(selected, key),
{
    let cur: usize = match selected {
        Some(i) => i,
        None => 0,
    };
    match key {
        ListKey::Char('q') | ListKey::Esc => (selected, AboutAction::GoHome),
        ListKey::Enter => (selected, match selected {
            Some(i) => action_of_button(i),
            None => AboutAction::Nothing,
        }),
        ListKey::Up => (Some(if cur == 0 { ABOUT_BUTTON_COUNT - 1 } else { cur - 1 }), AboutAction::Nothing),
        ListKey::Down => (Some((cur + 1) % ABOUT_BUTTON_COUNT), AboutAction::Nothing),
        _ => (selected, AboutAction::Nothing),
    }
}

/// The "about" page's reaction to the mouse over its buttons (a bordered
/// list drawn at `buttons`): hovering selects a button, a click selects and
/// presses it.
pub open spec fn about_mouse_spec(selected: Option<usize>, buttons: Rect, action: MouseAction, col: u16, row: u16) -> (Option<usize>, AboutAction) {
    let idx = bordered_row(buttons, row);
    if !inside(buttons, col, row) || idx >= ABOUT_BUTTON_COUNT {
        (selected, AboutAction::Nothing)
    } else {
        match action {
            MouseAction::Moved => (Some(idx), AboutAction::Nothing),
            MouseAction::LeftDown => (Some(idx), button_action(idx)),
            _ => (selected, AboutAction::Nothing),
        }
    }
}

/// The "about" page's reaction to the mouse at (`col`, `row`).
pub fn handle_about_mouse(selected: Option<usize>, buttons: Rect, action: MouseAction, col: u16, row: u16) -> (r: (Option<usize>, AboutAction))
    requires
        buttons.x + buttons.width <= u16::MAX,
        buttons.y + buttons.height <= u16::MAX,
    ensures
        r == about_mouse_spec(selected, buttons, action, col, row),
{
    if !(col >= buttons.x && col < buttons.x + buttons.width && row >= buttons.y && row < buttons.y + buttons.height) {
        return (selected, AboutAction::Nothing);
    }
    let idx = crate::nav::bordered_row_index(buttons, row);
    if idx >= ABOUT_BUTTON_COUNT {
        return (selected, AboutAction::Nothing);
    }
    match action {
        MouseAction::Moved => (Some(idx), AboutAction::Nothing),
        MouseAction::LeftDown => (Some(idx), action_of_button(idx)),
        _ => (selected, AboutAction::Nothing),
    }
}

/// What "不再提醒该版本" does, given whether an update report exists and
/// whether it reports a newer version.
#[derive(Debug, Clone, Copy, PartialEq, Eq, Structural)]
pub enum DismissOutcome {
    /// "尚未获取更新信息，先点“检查程序更新”"
    NoReport,
    /// "当前已是最新版本，无需设置提醒"
    AlreadyLatest,
    /// Remember the latest release tag as dismissed.
    Dismiss,
}

/// What "不再提醒该版本" does.
pub fn dismiss_outcome(has_report: bool, is_new_version: bool) -> (r: DismissOutcome)
    ensures
        !has_report ==> r == DismissOutcome::NoReport,
        has_report && !is_new_version ==> r == DismissOutcome::AlreadyLatest,
        has_report && is_new_version ==> r == DismissOutcome::Dismiss,
{
    if !has_report {
        DismissOutcome::NoReport
    } else if !is_new_version {
        DismissOutcome::AlreadyLatest
    } else {
        DismissOutcome::Dismiss
    }
}

impl DismissOutcome {
    /// The status line of a refusal (empty for `Dismiss`, whose status names
    /// the tag: see `dismissed_status`).
    pub fn message(&self) -> (s: String)
        ensures
            *self == DismissOutcome::NoReport ==> s@ == "尚未获取更新信息，先点“检查程序更新”"@,
            *self == DismissOutcome::AlreadyLatest ==> s@ == "当前已是最新版本，无需设置提醒"@,
            *self == DismissOutcome::Dismiss ==> s@ == Seq::<char>::empty(),
    {
        match self {
            DismissOutcome::NoReport => String::from_str("尚未获取更新信息，先点“检查程序更新”"),
            DismissOutcome::AlreadyLatest => String::from_str("当前已是最新版本，无需设置提醒"),
            DismissOutcome::Dismiss => String::new(),
        }
    }
}

/// The status after dismissing release `tag`.
pub fn dismissed_status(tag: &str) -> (s: String)
    ensures
        s@ == "已设置不再提醒 "@ + tag@,
{
    let mut v = chars_of("已设置不再提醒 ");
    v.extend_from_slice(chars_of(tag).as_slice());
    string_of(v.as_slice())
}

// ---------------------------------------------------------------------------
// The download history
// ---------------------------------------------------------------------------

/// What the caller does after an event on the history page.
#[derive(Debug, Clone, Copy, PartialEq, Eq, Structural)]
pub enum HistoryAction {
    Nothing,
    /// Back to the home screen ("返回首页").
    GoHome,
    /// Read the history again.
    Refresh,
}

/// The history page's reaction to a key, with `len` records shown.
pub open spec fn history_key_spec(selected: Option<usize>, key: ListKey, len: usize) -> (Option<usize>, HistoryAction) {
    match key {
        ListKey::Char('b') | ListKey::Esc => (selected, HistoryAction::GoHome),
        ListKey::Char('r') => (selected, HistoryAction::Refresh),
        ListKey::Up => (prev_wrapping(selected, len), HistoryAction::Nothing),
        ListKey::Down => (next_wrapping(selected, len), HistoryAction::Nothing),
        _ => (selected, HistoryAction::Nothing),
    }
}

/// On the history page `b` leaves for the home screen exactly as Esc does,
/// keeping the selection, whatever is selected and however long the list.
pub proof fn lemma_history_b_goes_home(selected: Option<usize>, len: usize)
    ensures
        history_key_spec(selected, ListKey::Char('b'), len) == (selected, HistoryAction::GoHome),
        history_key_spec(selected, ListKey::Esc, len) == (selected, HistoryAction::GoHome),
        history_key_spec(selected, ListKey::Char('r'), len) == (selected, HistoryAction::Refresh),
{
}

/// The history page's reaction to a key.
pub fn handle_history_key(selected: Option<usize>, key: ListKey, len: usize) -> (r: (Option<usize>, HistoryAction))
    ensures
        r == history_key_spec(selected, key, len),
{
    match key {
        ListKey::Char('b') | ListKey::Esc => (selected, HistoryAction::GoHome),
        ListKey::Char('r') => (selected, HistoryAction::Refresh),
        ListKey::Up => (crate::nav::select_prev(selected, len), HistoryAction::Nothing),
        ListKey::Down => (crate::nav::select_next(selected, len), HistoryAction::Nothing),
        _ => (selected, HistoryAction::Nothing),
    }
}

/// Where the history page was last drawn.
#[derive(Debug, Clone, Copy, PartialEq, Eq, Structural)]
pub struct HistoryLayout {
    /// The record list (bordered).
    pub list: Rect,
    pub list_offset: usize,
    /// The detail pane, whose "back" button is `back_button_rect` of it.
    pub detail: Rect,
}

/// The history page's reaction to the mouse: the wheel moves the selection,
/// a click on the "back" button leaves, and clicking or hovering over a
/// record selects it.
pub open spec fn history_mouse_spec(selected: Option<usize>, l: HistoryLayout, action: MouseAction, col: u16, row: u16, len: usize) -> (Option<usize>, HistoryAction) {
    match action {
        MouseAction::ScrollUp => (prev_wrapping(selected, len), HistoryAction::Nothing),
        MouseAction::ScrollDown => (next_wrapping(selected, len), HistoryAction::Nothing),
        MouseAction::LeftDown | MouseAction::Moved => if action == MouseAction::LeftDown && inside(back_button_of(l.detail), col, row) {
            (selected, HistoryAction::GoHome)
        } else if inside(l.list, col, row) && row_hit(l.list, row, l.list_offset, len) is Some {
            (row_hit(l.list, row, l.list_offset, len), HistoryAction::Nothing)
        } else {
            (selected, HistoryAction::Nothing)
        },
        MouseAction::Other => (selected, HistoryAction::Nothing),
    }
}

/// The history page's reaction to the mouse at (`col`, `row`).
pub fn handle_history_mouse(selected: Option<usize>, l: HistoryLayout, action: MouseAction, col: u16, row: u16, len: usize) -> (r: (Option<usize>, HistoryAction))
    ensures
        r == history_mouse_spec(selected, l, action, col, row, len),
{
    match action {
        MouseAction::ScrollUp => (crate::nav::select_prev(selected, len), HistoryAction::Nothing),
        MouseAction::ScrollDown => (crate::nav::select_next(selected, len), HistoryAction::Nothing),
        MouseAction::LeftDown | MouseAction::Moved => {
            if action == MouseAction::LeftDown && crate::nav::pos_in(crate::nav::back_button_rect(l.detail), col, row) {
                return (selected, HistoryAction::GoHome);
            }
            if crate::nav::pos_in(l.list, col, row) {
                let hit = crate::nav::list_index_from_mouse_row(l.list, row, l.list_offset, len);
                if hit.is_some() {
                    return (hit, HistoryAction::Nothing);
                }
            }
            (selected, HistoryAction::Nothing)
        },
        MouseAction::Other => (selected, HistoryAction::Nothing),
    }
}

/// The status after reading `len` history records.
pub open spec fn history_status(len: usize) -> Seq<char> {
    if len == 0 { "下载历史为空"@ } else { "已加载下载历史 "@ + dec_string(len as nat) + " 条"@ }
}

/// The selection and status after reading `len` history records: the
/// first record, or nothing when there is none.
pub fn history_loaded(len: usize) -> (r: (Option<usize>, String))
    ensures
        r.0 == (if len == 0 { None } else { Some(0usize) }),
        r.1@ == history_status(len),
{
    if len == 0 {
        (None, String::from_str("下载历史为空"))
    } else {
        let mut v = chars_of("已加载下载历史 ");
        v.extend_from_slice(u64_to_dec(len as u64).as_slice());
        v.extend_from_slice(chars_of(" 条").as_slice());
        (Some(0), string_of(v.as_slice()))
    }
}

// ---------------------------------------------------------------------------
// The cover view
// ---------------------------------------------------------------------------

/// How the cover view ends after an event.
#[derive(Debug, Clone, Copy, PartialEq, Eq, Structural)]
pub enum CoverExit {
    Stay,
    /// Back to the previous view with the status "返回".
    BackWithStatus,
    /// Back to the previous view, status unchanged.
    Back,
}

/// The cover view's reaction: q, Esc and Enter go back and say so; a left
/// click goes back silently.
pub fn cover_event(key: Option<ListKey>, action: MouseAction) -> (r: CoverExit)
    ensures
        key matches Some(k) ==> r == (if k == ListKey::Char('q') || k == ListKey::Esc || k == ListKey::Enter {
            CoverExit::BackWithStatus
        } else {
            CoverExit::Stay
        }),
        key is None ==> r == (if action == MouseAction::LeftDown { CoverExit::Back } else { CoverExit::Stay }),
{
    match key {
        Some(ListKey::Char('q')) | Some(ListKey::Esc) | Some(ListKey::Enter) => CoverExit::BackWithStatus,
        Some(_) => CoverExit::Stay,
        None => if action == MouseAction::LeftDown { CoverExit::Back } else { CoverExit::Stay },
    }
}

// ---------------------------------------------------------------------------
// The preview page
// ---------------------------------------------------------------------------

/// The scroll positions of the preview: the detail modal's, when open, else
/// the description's, each with its largest value.
#[derive(Debug, Clone, Copy, PartialEq, Eq, Structural)]
pub struct PreviewScroll {
    pub modal_open: bool,
    pub modal: u16,
    pub modal_max: u16,
    pub desc: u16,
    pub desc_max: u16,
}

/// Scrolling up by `lines`, stopping at the top.
pub open spec fn scrolled_up(p: PreviewScroll, lines: u16) -> PreviewScroll {
    if p.modal_open { PreviewScroll { modal: sat_sub(p.modal, lines), ..p } } else { PreviewScroll { desc: sat_sub(p.desc, lines), ..p } }
}

/// `min(sat_add(pos, lines), max)`.
pub open spec fn down_to(pos: u16, lines: u16, max: u16) -> u16 {
    if sat_add(pos, lines) <= max { sat_add(pos, lines) } else { max }
}

/// Scrolling down by `lines`, stopping at the largest value.
pub open spec fn scrolled_down(p: PreviewScroll, lines: u16) -> PreviewScroll {
    if p.modal_open {
        PreviewScroll { modal: down_to(p.modal, lines, p.modal_max), ..p }
    } else {
        PreviewScroll { desc: down_to(p.desc, lines, p.desc_max), ..p }
    }
}

/// Scrolls the preview up by `lines`.
pub fn preview_scroll_up(p: PreviewScroll, lines: u16) -> (r: PreviewScroll)
    ensures
        r == scrolled_up(p, lines),
{
    if p.modal_open {
        PreviewScroll { modal: crate::nav::scroll_up(p.modal, lines), ..p }
    } else {
        PreviewScroll { desc: crate::nav::scroll_up(p.desc, lines), ..p }
    }
}

/// Scrolls the preview down by `lines`.
pub fn preview_scroll_down(p: PreviewScroll, lines: u16) -> (r: PreviewScroll)
    ensures
        r == scrolled_down(p, lines),
{
    if p.modal_open {
        PreviewScroll { modal: crate::nav::scroll_down(p.modal, lines, p.modal_max), ..p }
    } else {
        PreviewScroll { desc: crate::nav::scroll_down(p.desc, lines, p.desc_max), ..p }
    }
}

/// Scrolls the preview to the top.
pub fn preview_scroll_to_top(p: PreviewScroll) -> (r: PreviewScroll)
    ensures
        r == (if p.modal_open { PreviewScroll { modal: 0, ..p } } else { PreviewScroll { desc: 0, ..p } }),
{
    if p.modal_open { PreviewScroll { modal: 0, ..p } } else { PreviewScroll { desc: 0, ..p } }
}

/// Scrolls the preview to the bottom.
pub fn preview_scroll_to_bottom(p: PreviewScroll) -> (r: PreviewScroll)
    ensures
        r == (if p.modal_open { PreviewScroll { modal: p.modal_max, ..p } } else { PreviewScroll { desc: p.desc_max, ..p } }),
{
    if p.modal_open { PreviewScroll { modal: p.modal_max, ..p } } else { PreviewScroll { desc: p.desc_max, ..p } }
}

/// Which part of the preview's download box has the keyboard.
#[derive(Debug, Clone, Copy, PartialEq, Eq, Structural)]
pub enum PreviewFocus {
    /// The chapter range input.
    Range,
    /// The confirm/cancel buttons.
    Buttons,
}

/// The state of the preview page.
#[derive(Debug, Clone, Copy, PartialEq, Eq, Structural)]
pub struct PreviewScreen {
    pub focus: PreviewFocus,
    /// The highlighted button (0 confirms, 1 cancels).
    pub button: Option<usize>,
    pub scroll: PreviewScroll,
}

/// The keys the preview page reacts to.
#[derive(Debug, Clone, Copy, PartialEq, Eq, Structural)]
pub enum PreviewKey {
    Char { c: char, ctrl: bool, alt: bool },
    /// Text pasted into the terminal.
    Paste,
    Esc,
    Tab,
    Backspace,
    Enter,
    Up,
    Down,
    Left,
    Right,
    PageUp,
    PageDown,
    Home,
    End,
    Other,
}

/// What happens to the range input.
#[derive(Debug, Clone, Copy, PartialEq, Eq, Structural)]
pub enum RangeOp {
    Keep,
    Push(char),
    /// Append the pasted text.
    PushPasted,
    Pop,
}

/// What the caller does after an event on the preview page.
#[derive(Debug, Clone, Copy, PartialEq, Eq, Structural)]
pub enum PreviewAction {
    Nothing,
    /// Drop the preview and go home ("已取消预览").
    Cancel,
    /// Ask the running download to stop.
    StopDownload,
    /// Start the download with the range typed.
    Confirm,
}

/// The button before the highlighted one (from the first, the second).
pub open spec fn button_back(button: Option<usize>) -> Option<usize> {
    let sel: int = match button { Some(b) => b as int, None => 0 };
    let next: int = if sel == 0 { 1 } else { sel - 1 };
    Some(if next <= 1 { next as usize } else { 1usize })
}

/// The button after the highlighted one (from the second, the first).
pub open spec fn button_forward(button: Option<usize>) -> Option<usize> {
    let sel: int = match button { Some(b) => b as int, None => 0 };
    Some(if sel >= 1 { 0usize } else { 1usize })
}

/// The preview page's reaction to a key.
pub open spec fn preview_key_spec(s: PreviewScreen, key: PreviewKey) -> (PreviewScreen, RangeOp, PreviewAction) {
    let on_buttons = s.focus == PreviewFocus::Buttons;
    match key {
        PreviewKey::Paste => (s, if s.focus == PreviewFocus::Range { RangeOp::PushPasted } else { RangeOp::Keep }, PreviewAction::Nothing),
        PreviewKey::Esc => (s, RangeOp::Keep, PreviewAction::Cancel),
        PreviewKey::Char { c, ctrl, alt } => if c == 's' || c == 'S' {
            (s, RangeOp::Keep, PreviewAction::StopDownload)
        } else if s.focus == PreviewFocus::Range && !ctrl && !alt {
            (s, RangeOp::Push(c), PreviewAction::Nothing)
        } else {
            (s, RangeOp::Keep, PreviewAction::Nothing)
        },
        PreviewKey::Tab => (
            PreviewScreen { focus: if on_buttons { PreviewFocus::Range } else { PreviewFocus::Buttons }, ..s },
            RangeOp::Keep,
            PreviewAction::Nothing,
        ),
        PreviewKey::Backspace => (s, if s.focus == PreviewFocus::Range { RangeOp::Pop } else { RangeOp::Keep }, PreviewAction::Nothing),
        PreviewKey::Enter => (s, RangeOp::Keep, if !on_buttons {
            PreviewAction::Confirm
        } else if (match s.button { Some(b) => b, None => 0 }) == 0 {
            PreviewAction::Confirm
        } else {
            PreviewAction::Cancel
        }),
        PreviewKey::Up => if on_buttons {
            (PreviewScreen { button: button_back(s.button), ..s }, RangeOp::Keep, PreviewAction::Nothing)
        } else {
            (PreviewScreen { scroll: scrolled_up(s.scroll, 1), ..s }, RangeOp::Keep, PreviewAction::Nothing)
        },
        PreviewKey::Down => if on_buttons {
            (PreviewScreen { button: button_forward(s.button), ..s }, RangeOp::Keep, PreviewAction::Nothing)
        } else {
            (PreviewScreen { scroll: scrolled_down(s.scroll, 1), ..s }, RangeOp::Keep, PreviewAction::Nothing)
        },
        PreviewKey::Left => if on_buttons {
            (PreviewScreen { button: button_back(s.button), ..s }, RangeOp::Keep, PreviewAction::Nothing)
        } else {
            (s, RangeOp::Keep, PreviewAction::Nothing)
        },
        PreviewKey::Right => if on_buttons {
            (PreviewScreen { button: button_forward(s.button), ..s }, RangeOp::Keep, PreviewAction::Nothing)
        } else {
            (s, RangeOp::Keep, PreviewAction::Nothing)
        },
        PreviewKey::PageUp => (PreviewScreen { scroll: scrolled_up(s.scroll, 5), ..s }, RangeOp::Keep, PreviewAction::Nothing),
        PreviewKey::PageDown => (PreviewScreen { scroll: scrolled_down(s.scroll, 5), ..s }, RangeOp::Keep, PreviewAction::Nothing),
        PreviewKey::Home => (
            PreviewScreen { scroll: (if s.scroll.modal_open { PreviewScroll { modal: 0, ..s.scroll } } else { PreviewScroll { desc: 0, ..s.scroll } }), ..s },
            RangeOp::Keep,
            PreviewAction::Nothing,
        ),
        PreviewKey::End => (
            PreviewScreen {
                scroll: (if s.scroll.modal_open {
                    PreviewScroll { modal: s.scroll.modal_max, ..s.scroll }
                } else {
                    PreviewScroll { desc: s.scroll.desc_max, ..s.scroll }
                }),
                ..s
            },
            RangeOp::Keep,
            PreviewAction::Nothing,
        ),
        PreviewKey::Other => (s, RangeOp::Keep, PreviewAction::Nothing),
    }
}

/// The button before the highlighted one.
fn step_button_back(button: Option<usize>) -> (r: Option<usize>)
    ensures
        r == button_back(button),
{
    let sel: usize = match button {
        Some(b) => b,
        None => 0,
    };
    let next: usize = if sel == 0 { 1 } else { sel - 1 };
    Some(if next <= 1 { next } else { 1 })
}

/// The button after the highlighted one.
fn step_button_forward(button: Option<usize>) -> (r: Option<usize>)
    ensures
        r == button_forward(button),
{
    let sel: usize = match button {
        Some(b) => b,
        None => 0,
    };
    Some(if sel >= 1 { 0 } else { 1 })
}

/// The preview page's reaction to a key.
pub fn handle_preview_key(s: PreviewScreen, key: PreviewKey) -> (r: (PreviewScreen, RangeOp, PreviewAction))
    ensures
        r == preview_key_spec(s, key),
{
    let on_buttons = s.focus == PreviewFocus::Buttons;
    match key {
        PreviewKey::Paste => (s, if s.focus == PreviewFocus::Range { RangeOp::PushPasted } else { RangeOp::Keep }, PreviewAction::Nothing),
        PreviewKey::Esc => (s, RangeOp::Keep, PreviewAction::Cancel),
        PreviewKey::Char { c, ctrl, alt } => {
            if c == 's' || c == 'S' {
                (s, RangeOp::Keep, PreviewAction::StopDownload)
            } else if s.focus == PreviewFocus::Range && !ctrl && !alt {
                (s, RangeOp::Push(c), PreviewAction::Nothing)
            } else {
                (s, RangeOp::Keep, PreviewAction::Nothing)
            }
        },
        PreviewKey::Tab => (
            PreviewScreen { focus: if on_buttons { PreviewFocus::Range } else { PreviewFocus::Buttons }, ..s },
            RangeOp::Keep,
            PreviewAction::Nothing,
        ),
        PreviewKey::Backspace => (s, if s.focus == PreviewFocus::Range { RangeOp::Pop } else { RangeOp::Keep }, PreviewAction::Nothing),
        PreviewKey::Enter => {
            let sel: usize = match s.button {
                Some(b) => b,
                None => 0,
            };
            let a = if !on_buttons {
                PreviewAction::Confirm
            } else if sel == 0 {
                PreviewAction::Confirm
            } else {
                PreviewAction::Cancel
            };
            (s, RangeOp::Keep, a)
        },
        PreviewKey::Up => {
            if on_buttons {
                (PreviewScreen { button: step_button_back(s.button), ..s }, RangeOp::Keep, PreviewAction::Nothing)
            } else {
                (PreviewScreen { scroll: preview_scroll_up(s.scroll, 1), ..s }, RangeOp::Keep, PreviewAction::Nothing)
            }
        },
        PreviewKey::Down => {
            if on_buttons {
                (PreviewScreen { button: step_button_forward(s.button), ..s }, RangeOp::Keep, PreviewAction::Nothing)
            } else {
                (PreviewScreen { scroll: preview_scroll_down(s.scroll, 1), ..s }, RangeOp::Keep, PreviewAction::Nothing)
            }
        },
        PreviewKey::Left => {
            if on_buttons {
                (PreviewScreen { button: step_button_back(s.button), ..s }, RangeOp::Keep, PreviewAction::Nothing)
            } else {
                (s, RangeOp::Keep, PreviewAction::Nothing)
            }
        },
        PreviewKey::Right => {
            if on_buttons {
                (PreviewScreen { button: step_button_forward(s.button), ..s }, RangeOp::Keep, PreviewAction::Nothing)
            } else {
                (s, RangeOp::Keep, PreviewAction::Nothing)
            }
        },
        PreviewKey::PageUp => (PreviewScreen { scroll: preview_scroll_up(s.scroll, 5), ..s }, RangeOp::Keep, PreviewAction::Nothing),
        PreviewKey::PageDown => (PreviewScreen { scroll: preview_scroll_down(s.scroll, 5), ..s }, RangeOp::Keep, PreviewAction::Nothing),
        PreviewKey::Home => (PreviewScreen { scroll: preview_scroll_to_top(s.scroll), ..s }, RangeOp::Keep, PreviewAction::Nothing),
        PreviewKey::End => (PreviewScreen { scroll: preview_scroll_to_bottom(s.scroll), ..s }, RangeOp::Keep, PreviewAction::Nothing),
        PreviewKey::Other => (s, RangeOp::Keep, PreviewAction::Nothing),
    }
}

/// Where the preview modal was last drawn.
#[derive(Debug, Clone, Copy, PartialEq, Eq, Structural)]
pub struct PreviewModalLayout {
    /// The detail box.
    pub info: Rect,
    /// The range input.
    pub range: Rect,
    /// The confirm/cancel list (bordered).
    pub buttons: Rect,
}

/// Where the preview page was last drawn.
#[derive(Debug, Clone, Copy, PartialEq, Eq, Structural)]
pub struct PreviewLayout {
    /// The "stop" button of a running download.
    pub stop_button: Option<Rect>,
    /// The preview modal, when shown.
    pub modal: Option<PreviewModalLayout>,
    /// The description pane, when shown.
    pub desc: Option<Rect>,
}

/// Whether the point lies in an optional area.
pub open spec fn in_opt(area: Option<Rect>, col: u16, row: u16) -> bool {
    area is Some && inside(area->0, col, row)
}

/// The button under `row` in the confirm/cancel list (the second for any row
/// below the first).
pub open spec fn picked_button(area: Rect, row: u16) -> usize {
    if bordered_row(area, row) <= 1 { bordered_row(area, row) } else { 1 }
}

/// The preview modal's reaction to the mouse: a click on the range input
/// focuses it and a click on a button presses it, while hovering over the
/// buttons highlights one and hovering over the input focuses it.
pub open spec fn modal_mouse(s: PreviewScreen, m: PreviewModalLayout, action: MouseAction, col: u16, row: u16) -> (PreviewScreen, PreviewAction) {
    if action == MouseAction::LeftDown && inside(m.range, col, row) {
        (PreviewScreen { focus: PreviewFocus::Range, ..s }, PreviewAction::Nothing)
    } else if action == MouseAction::LeftDown && inside(m.buttons, col, row) {
        let b = picked_button(m.buttons, row);
        (PreviewScreen { button: Some(b), ..s }, if b == 0 { PreviewAction::Confirm } else { PreviewAction::Cancel })
    } else if action == MouseAction::Moved && inside(m.buttons, col, row) {
        (PreviewScreen { button: Some(picked_button(m.buttons, row)), focus: PreviewFocus::Buttons, ..s }, PreviewAction::Nothing)
    } else if action == MouseAction::Moved && inside(m.range, col, row) {
        (PreviewScreen { focus: PreviewFocus::Range, ..s }, PreviewAction::Nothing)
    } else {
        (s, PreviewAction::Nothing)
    }
}

/// The preview page's reaction to the mouse: a click on "stop" stops the
/// download; the wheel over the modal's detail box or the description
/// scrolls; then the modal reacts.
pub open spec fn preview_mouse_spec(s: PreviewScreen, l: PreviewLayout, action: MouseAction, col: u16, row: u16) -> (PreviewScreen, PreviewAction) {
    if action == MouseAction::LeftDown && in_opt(l.stop_button, col, row) {
        (s, PreviewAction::StopDownload)
    } else if (action == MouseAction::ScrollUp || action == MouseAction::ScrollDown)
        && ((l.modal is Some && inside(l.modal->0.info, col, row)) || in_opt(l.desc, col, row)) {
        let sc = if action == MouseAction::ScrollUp { scrolled_up(s.scroll, 1) } else { scrolled_down(s.scroll, 1) };
        (PreviewScreen { scroll: sc, ..s }, PreviewAction::Nothing)
    } else {
        match l.modal {
            Some(m) => modal_mouse(s, m, action, col, row),
            None => (s, PreviewAction::Nothing),
        }
    }
}

/// Whether the point lies in an optional area.
fn in_area(area: Option<Rect>, col: u16, row: u16) -> (b: bool)
    ensures
        b == in_opt(area, col, row),
{
    match area {
        Some(a) => crate::nav::pos_in(a, col, row),
        None => false,
    }
}

/// The button under `row`, for a `row` inside the list.
fn button_under(area: Rect, row: u16) -> (r: usize)
    requires
        row >= area.y,
        row < sat_add(area.y, area.height),
    ensures
        r == picked_button(area, row),
{
    let idx = crate::nav::bordered_row_index(area, row);
    if idx <= 1 { idx } else { 1 }
}

/// The preview modal's reaction to the mouse.
fn mouse_on_modal(s: PreviewScreen, m: PreviewModalLayout, action: MouseAction, col: u16, row: u16) -> (r: (PreviewScreen, PreviewAction))
    ensures
        r == modal_mouse(s, m, action, col, row),
{
    if action == MouseAction::LeftDown && crate::nav::pos_in(m.range, col, row) {
        return (PreviewScreen { focus: PreviewFocus::Range, ..s }, PreviewAction::Nothing);
    }
    if action == MouseAction::LeftDown && crate::nav::pos_in(m.buttons, col, row) {
        let b = button_under(m.buttons, row);
        return (PreviewScreen { button: Some(b), ..s }, if b == 0 { PreviewAction::Confirm } else { PreviewAction::Cancel });
    }
    if action == MouseAction::Moved && crate::nav::pos_in(m.buttons, col, row) {
        return (PreviewScreen { button: Some(button_under(m.buttons, row)), focus: PreviewFocus::Buttons, ..s }, PreviewAction::Nothing);
    }
    if action == MouseAction::Moved && crate::nav::pos_in(m.range, col, row) {
        return (PreviewScreen { focus: PreviewFocus::Range, ..s }, PreviewAction::Nothing);
    }
    (s, PreviewAction::Nothing)
}

/// The preview page's reaction to the mouse at (`col`, `row`).
pub fn handle_preview_mouse(s: PreviewScreen, l: PreviewLayout, action: MouseAction, col: u16, row: u16) -> (r: (PreviewScreen, PreviewAction))
    ensures
        r == preview_mouse_spec(s, l, action, col, row),
{
    if action == MouseAction::LeftDown && in_area(l.stop_button, col, row) {
        return (s, PreviewAction::StopDownload);
    }
    if action == MouseAction::ScrollUp || action == MouseAction::ScrollDown {
        let on_info = match l.modal {
            Some(m) => crate::nav::pos_in(m.info, col, row),
            None => false,
        };
        if on_info || in_area(l.desc, col, row) {
            let sc = if action == MouseAction::ScrollUp { preview_scroll_up(s.scroll, 1) } else { preview_scroll_down(s.scroll, 1) };
            return (PreviewScreen { scroll: sc, ..s }, PreviewAction::Nothing);
        }
    }
    match l.modal {
        Some(m) => mouse_on_modal(s, m, action, col, row),
        None => (s, PreviewAction::Nothing),
    }
}

// ---------------------------------------------------------------------------
// The book-name choice
// ---------------------------------------------------------------------------

/// The book-name choice after an event.
#[derive(Debug, Clone, Copy, PartialEq, Eq, Structural)]
pub struct NameChoice {
    pub selected: Option<usize>,
    /// The choice is made: the modal closes and this option (or none, when
    /// the selection is past the options) is sent to the waiting download.
    pub chosen: Option<Option<usize>>,
}

/// The book-name choice's reaction to a key, with `n` options: the
/// selection wraps, and Enter sends the selected option.
pub open spec fn name_key_spec(selected: Option<usize>, key: ListKey, n: usize) -> NameChoice {
    let cur: int = match selected { Some(i) => i as int, None => 0 };
    match key {
        ListKey::Up => NameChoice {
            selected: if n > 0 { Some(if cur == 0 { (n - 1) as usize } else { (cur - 1) as usize }) } else { selected },
            chosen: None,
        },
        ListKey::Down => NameChoice {
            selected: if n > 0 { Some(((cur + 1) % (n as int)) as usize) } else { selected },
            chosen: None,
        },
        ListKey::Enter => NameChoice { selected, chosen: Some(if cur < n { Some(cur as usize) } else { None }) },
        _ => NameChoice { selected, chosen: None },
    }
}

/// The book-name choice's reaction to a key.
pub fn handle_name_key(selected: Option<usize>, key: ListKey, n: usize) -> (r: NameChoice)
    requires
        selected != Some(usize::MAX),
    ensures
        r == name_key_spec(selected, key, n),
{
    let cur: usize = match selected {
        Some(i) => i,
        None => 0,
    };
    match key {
        ListKey::Up => NameChoice {
            selected: if n > 0 { Some(if cur == 0 { n - 1 } else { cur - 1 }) } else { selected },
            chosen: None,
        },
        ListKey::Down => NameChoice { selected: if n > 0 { Some((cur + 1) % n) } else { selected }, chosen: None },
        ListKey::Enter => NameChoice { selected, chosen: Some(if cur < n { Some(cur) } else { None }) },
        _ => NameChoice { selected, chosen: None },
    }
}

/// The book-name choice's reaction to the mouse over its option list (a
/// bordered list at `list`): hovering selects an option, a click selects and
/// sends it.
pub open spec fn name_mouse_spec(selected: Option<usize>, list: Rect, action: MouseAction, col: u16, row: u16, n: usize) -> NameChoice {
    let idx = bordered_row(list, row);
    if inside(list, col, row) && idx < n {
        match action {
            MouseAction::LeftDown => NameChoice { selected: Some(idx), chosen: Some(Some(idx)) },
            MouseAction::Moved => NameChoice { selected: Some(idx), chosen: None },
            _ => NameChoice { selected, chosen: None },
        }
    } else {
        NameChoice { selected, chosen: None }
    }
}

/// The book-name choice's reaction to the mouse at (`col`, `row`).
pub fn handle_name_mouse(selected: Option<usize>, list: Rect, action: MouseAction, col: u16, row: u16, n: usize) -> (r: NameChoice)
    ensures
        r == name_mouse_spec(selected, list, action, col, row, n),
{
    if crate::nav::pos_in(list, col, row) {
        let idx = crate::nav::bordered_row_index(list, row);
        if idx < n {
            return match action {
                MouseAction::LeftDown => NameChoice { selected: Some(idx), chosen: Some(Some(idx)) },
                MouseAction::Moved => NameChoice { selected: Some(idx), chosen: None },
                _ => NameChoice { selected, chosen: None },
            };
        }
    }
    NameChoice { selected, chosen: None }
}

// ---------------------------------------------------------------------------
// Results of background work
// ---------------------------------------------------------------------------

/// The home screen after a search found `n` books.
#[derive(Debug)]
pub struct SearchShown {
    pub status: String,
    /// The selected result: the first, when there is one.
    pub selected: Option<usize>,
    pub focus: crate::nav::Focus,
}

/// The status after a search that found `n` books.
pub open spec fn search_status(n: usize) -> Seq<char> {
    if n == 0 {
        "未找到匹配书籍"@
    } else {
        "找到 "@ + dec_string(n as nat) + " 本书，使用上下键选择，Enter 预览/下载。"@
    }
}

/// The home screen after a search found `n` books: nothing found leaves
/// the input focused, else the first result is selected and focused.
pub fn search_shown(n: usize) -> (r: SearchShown)
    ensures
        r.status@ == search_status(n),
        r.selected == (if n == 0 { None } else { Some(0usize) }),
        r.focus == (if n == 0 { crate::nav::Focus::Input } else { crate::nav::Focus::Results }),
{
    if n == 0 {
        SearchShown { status: String::from_str("未找到匹配书籍"), selected: None, focus: crate::nav::Focus::Input }
    } else {
        let mut v = chars_of("找到 ");
        v.extend_from_slice(u64_to_dec(n as u64).as_slice());
        v.extend_from_slice(chars_of(" 本书，使用上下键选择，Enter 预览/下载。").as_slice());
        SearchShown { status: string_of(v.as_slice()), selected: Some(0), focus: crate::nav::Focus::Results }
    }
}

/// The status after scanning the local books.
pub open spec fn scan_status(n_updates: usize, n_no_updates: usize) -> Seq<char> {
    if n_updates == 0 && n_no_updates == 0 {
        "未发现本地小说，先下载一本试试"@
    } else {
        "扫描完成：有更新 "@ + dec_string(n_updates as nat) + " 本，无更新 "@ + dec_string(n_no_updates as nat) + " 本"@
    }
}

/// The update list after a scan found `n_updates` books with updates and
/// `n_no_updates` without: with no books at all there is no list (the
/// caller goes home); otherwise the books with updates are shown when there
/// are any, else the others, with the first selected. The string is the
/// status line either way.
pub fn scan_shown(n_updates: usize, n_no_updates: usize) -> (r: (Option<UpdateScreen>, String))
    ensures
        r.1@ == scan_status(n_updates, n_no_updates),
        (n_updates == 0 && n_no_updates == 0) ==> r.0 is None,
        !(n_updates == 0 && n_no_updates == 0) ==> r.0 == Some(UpdateScreen { show_no_update: n_updates == 0, selected: Some(0usize) }),
{
    if n_updates == 0 && n_no_updates == 0 {
        return (None, String::from_str("未发现本地小说，先下载一本试试"));
    }
    let mut v = chars_of("扫描完成：有更新 ");
    v.extend_from_slice(u64_to_dec(n_updates as u64).as_slice());
    v.extend_from_slice(chars_of(" 本，无更新 ").as_slice());
    v.extend_from_slice(u64_to_dec(n_no_updates as u64).as_slice());
    v.extend_from_slice(chars_of(" 本").as_slice());
    (Some(UpdateScreen { show_no_update: n_updates == 0, selected: Some(0) }), string_of(v.as_slice()))
}

/// The book-name choice asked for with `n` options: with none the download
/// is answered at once with no name (`None`); otherwise the choice opens
/// with the first option selected.
pub fn name_choice_opened(n: usize) -> (r: Option<usize>)
    ensures
        r == (if n == 0 { None } else { Some(0usize) }),
{
    if n == 0 { None } else { Some(0) }
}

// ---------------------------------------------------------------------------
// Downloads started from the preview
// ---------------------------------------------------------------------------

/// The progress shown before a download of `total` chapters, `downloaded`
/// of them already saved, starts: nothing fetched yet, the chapters in
/// groups of 25, and comments counted per chapter when segment comments
/// are on.
pub open spec fn initial_progress_spec(total: usize, downloaded: usize, segment_comments: bool) -> crate::jobs::ProgressSnapshot {
    crate::jobs::ProgressSnapshot {
        group_done: 0,
        group_total: ((total + 24) / 25) as usize,
        saved_chapters: downloaded,
        chapter_total: total,
        save_phase: crate::jobs::SavePhase::TextSave,
        comment_fetch: 0,
        comment_total: if segment_comments { total } else { 0 },
        comment_saved: 0,
    }
}

/// The progress shown before a download starts.
pub fn initial_progress(total: usize, downloaded: usize, segment_comments: bool) -> (p: crate::jobs::ProgressSnapshot)
    ensures
        p == initial_progress_spec(total, downloaded, segment_comments),
{
    let groups = total / 25 + if total % 25 == 0 { 0 } else { 1 };
    crate::jobs::ProgressSnapshot {
        group_done: 0,
        group_total: groups,
        saved_chapters: downloaded,
        chapter_total: total,
        save_phase: crate::jobs::SavePhase::TextSave,
        comment_fetch: 0,
        comment_total: if segment_comments { total } else { 0 },
        comment_saved: 0,
    }
}

/// The status when a preview is ready: "预览: 《title》 共 N 章，已下载 M".
pub fn preview_ready_status(title: &str, total: usize, downloaded: usize) -> (s: String)
    ensures
        s@ == "预览: 《"@ + title@ + "》 共 "@ + dec_string(total as nat) + " 章，已下载 "@ + dec_string(downloaded as nat),
{
    let mut v = chars_of("预览: 《");
    v.extend_from_slice(chars_of(title).as_slice());
    v.extend_from_slice(chars_of("》 共 ").as_slice());
    v.extend_from_slice(u64_to_dec(total as u64).as_slice());
    v.extend_from_slice(chars_of(" 章，已下载 ").as_slice());
    v.extend_from_slice(u64_to_dec(downloaded as u64).as_slice());
    string_of(v.as_slice())
}

/// The status when a download starts: "开始下载: 《title》 (book id)".
pub fn download_started_status(title: &str, book_id: &str) -> (s: String)
    ensures
        s@ == "开始下载: 《"@ + title@ + "》 ("@ + book_id@ + ")"@,
{
    let mut v = chars_of("开始下载: 《");
    v.extend_from_slice(chars_of(title).as_slice());
    v.extend_from_slice(chars_of("》 (").as_slice());
    v.extend_from_slice(chars_of(book_id).as_slice());
    v.extend_from_slice(chars_of(")").as_slice());
    string_of(v.as_slice())
}

/// The status after "stop": a running download is asked to stop
/// ("已请求停止下载…"), otherwise "当前没有正在进行的下载".
pub fn stop_request_status(running: bool) -> (s: String)
    ensures
        running ==> s@ == "已请求停止下载…"@,
        !running ==> s@ == "当前没有正在进行的下载"@,
{
    if running { String::from_str("已请求停止下载…") } else { String::from_str("当前没有正在进行的下载") }
}

/// The status when a download ends: "下载完成: id" or "下载失败: reason".
pub fn download_done_status(book_id: &str, error: Option<&str>) -> (s: String)
    ensures
        error is None ==> s@ == "下载完成: "@ + book_id@,
        error matches Some(e) ==> s@ == "下载失败: "@ + e@,
{
    let mut v = match error {
        None => chars_of("下载完成: "),
        Some(_) => chars_of("下载失败: "),
    };
    match error {
        None => v.extend_from_slice(chars_of(book_id).as_slice()),
        Some(e) => v.extend_from_slice(chars_of(e).as_slice()),
    }
    string_of(v.as_slice())
}

/// Whatever the event, a book name that is sent is one of the options, or
/// none only when Enter is pressed with the selection past the options.
pub proof fn lemma_sent_name_is_an_option(selected: Option<usize>, key: ListKey, list: Rect, action: MouseAction, col: u16, row: u16, n: usize)
    ensures
        name_key_spec(selected, key, n).chosen matches Some(Some(i)) ==> i < n,
        name_mouse_spec(selected, list, action, col, row, n).chosen matches Some(c) ==> (c matches Some(i) && i < n),
{
}

/// Scrolling the preview never leaves the range `0..=max` of the part
/// being scrolled once it is in it, and the other part stays where it was.
pub proof fn lemma_scroll_stays_in_range(p: PreviewScroll, lines: u16)
    requires
        p.modal <= p.modal_max,
        p.desc <= p.desc_max,
    ensures
        scrolled_up(p, lines).modal <= p.modal_max,
        scrolled_up(p, lines).desc <= p.desc_max,
        scrolled_down(p, lines).modal <= p.modal_max,
        scrolled_down(p, lines).desc <= p.desc_max,
        p.modal_open ==> scrolled_down(p, lines).desc == p.desc && scrolled_up(p, lines).desc == p.desc,
        !p.modal_open ==> scrolled_down(p, lines).modal == p.modal && scrolled_up(p, lines).modal == p.modal,
{
}

} // verus!
