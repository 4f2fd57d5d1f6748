//! The keyboard and mouse handling of the terminal home screen as a state
//! machine: the search input, the menu and the search results, and what the
//! caller is asked to do (switch views, start a preview, download).

use crate::nav::{
    Focus, MouseAction, Rect, inside, next_focus, next_menu, next_result, prev_menu, prev_result, row_hit,
};
use vstd::prelude::*;

verus! {

/// The number of items of the home menu (确定, 配置, 更新, 关于, 退出).
pub const MENU_LEN: usize = 5;

/// The keys the home screen reacts to.
#[derive(Debug, Clone, Copy, PartialEq, Eq, Structural)]
pub enum HomeKey {
    Char { c: char, ctrl: bool, alt: bool },
    /// Text pasted into the terminal.
    Paste,
    Esc,
    Tab,
    Backspace,
    Up,
    Down,
    Enter,
    Other,
}

/// The selections of the home screen.
#[derive(Debug, Clone, Copy, PartialEq, Eq, Structural)]
pub struct HomeScreen {
    pub focus: Focus,
    /// The selected menu item.
    pub menu: Option<usize>,
    /// The selected search result.
    pub selected: Option<usize>,
}

impl HomeScreen {
    /// The home screen as first shown: the input focused, the first menu
    /// item selected, no result selected.
    pub fn initial() -> (s: HomeScreen)
        ensures
            s == (HomeScreen { focus: Focus::Input, menu: Some(0usize), selected: None }),
    {
        HomeScreen { focus: Focus::Input, menu: Some(0), selected: None }
    }

    /// The status line the home screen starts with.
    pub fn initial_status() -> (s: String)
        ensures
            s@ == "输入书名/ID/链接，Enter 确认，Tab 切换焦点，q 退出"@,
    {
        String::from_str("输入书名/ID/链接，Enter 确认，Tab 切换焦点，q 退出")
    }
}

/// What happens to the search input.
#[derive(Debug, Clone, Copy, PartialEq, Eq, Structural)]
pub enum InputOp {
    Keep,
    Push(char),
    /// Append the pasted text.
    PushPasted,
    Pop,
}

/// What the caller does besides editing the input.
#[derive(Debug, Clone, Copy, PartialEq, Eq, Structural)]
pub enum HomeAction {
    Nothing,
    Quit,
    OpenConfig,
    OpenUpdate,
    OpenAbout,
    /// Append the clipboard's text to the input.
    PasteClipboard,
    /// Show the cover of this search result.
    ShowCover(usize),
    /// Act on the input (search, download, range answer).
    ProcessInput,
    /// Download the selected search result.
    DownloadSelected,
    /// Run the selected menu item.
    TriggerMenu,
    /// Load the preview of this search result.
    StartPreview(usize),
}

/// The effects of an event on the home screen.
#[derive(Debug, Clone, Copy, PartialEq, Eq, Structural)]
pub struct HomeEffects {
    pub input: InputOp,
    /// Clear the search results.
    pub clear_results: bool,
    /// Drop the download waiting for its preview; the status becomes
    /// "已取消待下载的预览".
    pub cancel_pending: bool,
    pub action: HomeAction,
}

/// No effect.
pub open spec fn quiet() -> HomeEffects {
    HomeEffects { input: InputOp::Keep, clear_results: false, cancel_pending: false, action: HomeAction::Nothing }
}

/// Only an action.
pub open spec fn act(a: HomeAction) -> HomeEffects {
    HomeEffects { action: a, ..quiet() }
}

/// Only an edit of the input.
pub open spec fn edit(op: InputOp) -> HomeEffects {
    HomeEffects { input: op, ..quiet() }
}

/// A letter that switches views from the menu or results, and is typed into
/// the input when it has focus.
pub open spec fn letter_key(s: HomeScreen, c: char, a: HomeAction) -> (HomeScreen, HomeEffects) {
    if s.focus == Focus::Input { (s, edit(InputOp::Push(c))) } else { (s, act(a)) }
}

/// The home screen's reaction to a key, with `n_results` search results
/// and `has_pending` telling whether a download waits for its preview.
pub open spec fn home_key_spec(s: HomeScreen, key: HomeKey, n_results: usize, has_pending: bool) -> (HomeScreen, HomeEffects) {
    match key {
        HomeKey::Paste => if s.focus == Focus::Input { (s, edit(InputOp::PushPasted)) } else { (s, quiet()) },
        HomeKey::Char { c, ctrl, alt } => if c == 'q' {
            letter_key(s, c, HomeAction::Quit)
        } else if c == 'c' {
            letter_key(s, c, HomeAction::OpenConfig)
        } else if c == 'u' {
            letter_key(s, c, HomeAction::OpenUpdate)
        } else if c == 'a' {
            letter_key(s, c, HomeAction::OpenAbout)
        } else if c == 'v' && ctrl {
            (s, act(HomeAction::PasteClipboard))
        } else if c == 'p' {
            if s.focus == Focus::Input {
                (s, edit(InputOp::Push(c)))
            } else if s.focus == Focus::Results && s.selected is Some && s.selected->0 < n_results {
                (s, act(HomeAction::ShowCover(s.selected->0)))
            } else {
                (s, quiet())
            }
        } else if !ctrl && !alt && s.focus == Focus::Input {
            (s, edit(InputOp::Push(c)))
        } else {
            (s, quiet())
        },
        HomeKey::Esc => (
            HomeScreen { focus: Focus::Input, selected: None, ..s },
            HomeEffects { clear_results: true, cancel_pending: has_pending, ..quiet() },
        ),
        HomeKey::Tab => (HomeScreen { focus: next_focus(s.focus, n_results > 0), ..s }, quiet()),
        HomeKey::Backspace => if s.focus == Focus::Input { (s, edit(InputOp::Pop)) } else { (s, quiet()) },
        HomeKey::Up => match s.focus {
            Focus::Results => (HomeScreen { selected: prev_result(s.selected, n_results), ..s }, quiet()),
            Focus::Menu => (HomeScreen { menu: prev_menu(s.menu, MENU_LEN), ..s }, quiet()),
            Focus::Input => (s, quiet()),
        },
        HomeKey::Down => match s.focus {
            Focus::Results => (HomeScreen { selected: next_result(s.selected, n_results), ..s }, quiet()),
            Focus::Menu => (HomeScreen { menu: next_menu(s.menu, MENU_LEN), ..s }, quiet()),
            Focus::Input => (s, quiet()),
        },
        HomeKey::Enter => match s.focus {
            Focus::Input => (s, act(HomeAction::ProcessInput)),
            Focus::Results => if s.selected is Some { (s, act(HomeAction::DownloadSelected)) } else { (s, quiet()) },
            Focus::Menu => (s, act(HomeAction::TriggerMenu)),
        },
        HomeKey::Other => (s, quiet()),
    }
}

/// No effect.
fn nothing() -> (fx: HomeEffects)
    ensures
        fx == quiet(),
{
    HomeEffects { input: InputOp::Keep, clear_results: false, cancel_pending: false, action: HomeAction::Nothing }
}

/// A view-switching letter.
fn letter(s: HomeScreen, c: char, a: HomeAction) -> (r: (HomeScreen, HomeEffects))
    ensures
        r == letter_key(s, c, a),
{
    if s.focus == Focus::Input {
        (s, HomeEffects { input: InputOp::Push(c), ..nothing() })
    } else {
        (s, HomeEffects { action: a, ..nothing() })
    }
}

/// The home screen's reaction to a key.
pub fn handle_home_key(s: HomeScreen, key: HomeKey, n_results: usize, has_pending: bool) -> (r: (HomeScreen, HomeEffects))
    ensures
        r == home_key_spec(s, key, n_results, has_pending),
{
    match key {
        HomeKey::Paste => {
            if s.focus == Focus::Input {
                (s, HomeEffects { input: InputOp::PushPasted, ..nothing() })
            } else {
                (s, nothing())
            }
        },
        HomeKey::Char { c, ctrl, alt } => {
            if c == 'q' {
                letter(s, c, HomeAction::Quit)
            } else if c == 'c' {
                letter(s, c, HomeAction::OpenConfig)
            } else if c == 'u' {
                letter(s, c, HomeAction::OpenUpdate)
            } else if c == 'a' {
                letter(s, c, HomeAction::OpenAbout)
            } else if c == 'v' && ctrl {
                (s, HomeEffects { action: HomeAction::PasteClipboard, ..nothing() })
            } else if c == 'p' {
                if s.focus == Focus::Input {
                    (s, HomeEffects { input: InputOp::Push(c), ..nothing() })
                } else {
                    match (s.focus, s.selected) {
                        (Focus::Results, Some(i)) => {
                            if i < n_results {
                                (s, HomeEffects { action: HomeAction::ShowCover(i), ..nothing() })
                            } else {
                                (s, nothing())
                            }
                        },
                        _ => (s, nothing()),
                    }
                }
            } else if !ctrl && !alt && s.focus == Focus::Input {
                (s, HomeEffects { input: InputOp::Push(c), ..nothing() })
            } else {
                (s, nothing())
            }
        },
        HomeKey::Esc => (
            HomeScreen { focus: Focus::Input, selected: None, ..s },
            HomeEffects { clear_results: true, cancel_pending: has_pending, ..nothing() },
        ),
        HomeKey::Tab => (HomeScreen { focus: crate::nav::cycle_focus(s.focus, n_results > 0), ..s }, nothing()),
        HomeKey::Backspace => {
            if s.focus == Focus::Input {
                (s, HomeEffects { input: InputOp::Pop, ..nothing() })
            } else {
                (s, nothing())
            }
        },
        HomeKey::Up => match s.focus {
            Focus::Results => (HomeScreen { selected: crate::nav::select_prev_result(s.selected, n_results), ..s }, nothing()),
            Focus::Menu => (HomeScreen { menu: crate::nav::select_prev_menu(s.menu, MENU_LEN), ..s }, nothing()),
            Focus::Input => (s, nothing()),
        },
        HomeKey::Down => match s.focus {
            Focus::Results => (HomeScreen { selected: crate::nav::select_next_result(s.selected, n_results), ..s }, nothing()),
            Focus::Menu => (HomeScreen { menu: crate::nav::select_next_menu(s.menu, MENU_LEN), ..s }, nothing()),
            Focus::Input => (s, nothing()),
        },
        HomeKey::Enter => match s.focus {
            Focus::Input => (s, HomeEffects { action: HomeAction::ProcessInput, ..nothing() }),
            Focus::Results => {
                if s.selected.is_some() {
                    (s, HomeEffects { action: HomeAction::DownloadSelected, ..nothing() })
                } else {
                    (s, nothing())
                }
            },
            Focus::Menu => (s, HomeEffects { action: HomeAction::TriggerMenu, ..nothing() }),
        },
        HomeKey::Other => (s, nothing()),
    }
}

/// Where the parts of the home screen were last drawn.
#[derive(Debug, Clone, Copy, PartialEq, Eq, Structural)]
pub struct HomeLayout {
    pub input: Rect,
    /// The menu (bordered).
    pub menu: Rect,
    /// The search results (bordered).
    pub results: Rect,
    /// The scroll offset of the menu.
    pub menu_offset: usize,
    /// The scroll offset of the results.
    pub results_offset: usize,
}

/// The wheel over the menu: the first item when none is selected, else one
/// step up or down, stopping at the ends.
pub open spec fn menu_wheel(menu: Option<usize>, up: bool) -> Option<usize> {
    match menu {
        None => Some(0),
        Some(i) => if up {
            Some(if i == 0 { 0 } else { (i - 1) as usize })
        } else {
            Some(if i + 1 <= MENU_LEN - 1 { (i + 1) as usize } else { (MENU_LEN - 1) as usize })
        },
    }
}

/// The home screen's reaction to the mouse at (`col`, `row`).
pub open spec fn home_mouse_spec(s: HomeScreen, l: HomeLayout, action: MouseAction, col: u16, row: u16, n_results: usize) -> (HomeScreen, HomeEffects) {
    match action {
        MouseAction::ScrollUp | MouseAction::ScrollDown => {
            let up = action == MouseAction::ScrollUp;
            if inside(l.menu, col, row) {
                (HomeScreen { menu: menu_wheel(s.menu, up), focus: Focus::Menu, ..s }, quiet())
            } else if inside(l.results, col, row) && n_results > 0 {
                let sel = match s.selected {
                    None => Some(0usize),
                    Some(_) => if up { prev_result(s.selected, n_results) } else { next_result(s.selected, n_results) },
                };
                (HomeScreen { selected: sel, focus: Focus::Results, ..s }, quiet())
            } else {
                (s, quiet())
            }
        },
        MouseAction::LeftDown => if inside(l.input, col, row) {
            (HomeScreen { focus: Focus::Input, ..s }, quiet())
        } else if inside(l.menu, col, row) {
            match row_hit(l.menu, row, l.menu_offset, MENU_LEN) {
                Some(i) => (HomeScreen { focus: Focus::Menu, menu: Some(i), ..s }, act(HomeAction::TriggerMenu)),
                None => (HomeScreen { focus: Focus::Menu, ..s }, quiet()),
            }
        } else if inside(l.results, col, row) {
            match row_hit(l.results, row, l.results_offset, n_results) {
                Some(i) => (HomeScreen { focus: Focus::Results, selected: Some(i), ..s }, act(HomeAction::StartPreview(i))),
                None => (s, quiet()),
            }
        } else {
            (s, quiet())
        },
        MouseAction::Moved => if inside(l.menu, col, row) {
            match row_hit(l.menu, row, l.menu_offset, MENU_LEN) {
                Some(i) => (HomeScreen { focus: Focus::Menu, menu: Some(i), ..s }, quiet()),
                None => (s, quiet()),
            }
        } else if inside(l.results, col, row) {
            match row_hit(l.results, row, l.results_offset, n_results) {
                Some(i) => (HomeScreen { focus: Focus::Results, selected: Some(i), ..s }, quiet()),
                None => (s, quiet()),
            }
        } else if inside(l.input, col, row) {
            (HomeScreen { focus: Focus::Input, ..s }, quiet())
        } else {
            (s, quiet())
        },
        MouseAction::Other => (s, quiet()),
    }
}

/// The home screen's reaction to the mouse at (`col`, `row`), given where
/// its parts were last drawn and how many search results there are.
pub fn handle_home_mouse(s: HomeScreen, l: HomeLayout, action: MouseAction, col: u16, row: u16, n_results: usize) -> (r: (HomeScreen, HomeEffects))
    requires
        s.menu != Some(usize::MAX),
    ensures
        r == home_mouse_spec(s, l, action, col, row, n_results),
{
    match action {
        MouseAction::ScrollUp | MouseAction::ScrollDown => {
            let up = action == MouseAction::ScrollUp;
            if crate::nav::pos_in(l.menu, col, row) {
                let menu = match s.menu {
                    None => Some(0),
                    Some(i) => {
                        if up {
                            Some(i.saturating_sub(1))
                        } else if i + 1 <= MENU_LEN - 1 {
                            Some(i + 1)
                        } else {
                            Some(MENU_LEN - 1)
                        }
                    },
                };
                return (HomeScreen { menu, focus: Focus::Menu, ..s }, nothing());
            }
            if crate::nav::pos_in(l.results, col, row) && n_results > 0 {
                let sel = match s.selected {
                    None => Some(0usize),
                    Some(_) => {
                        if up {
                            crate::nav::select_prev_result(s.selected, n_results)
                        } else {
                            crate::nav::select_next_result(s.selected, n_results)
                        }
                    },
                };
                return (HomeScreen { selected: sel, focus: Focus::Results, ..s }, nothing());
            }
            (s, nothing())
        },
        MouseAction::LeftDown => {
            if crate::nav::pos_in(l.input, col, row) {
                return (HomeScreen { focus: Focus::Input, ..s }, nothing());
            }
            if crate::nav::pos_in(l.menu, col, row) {
                return match crate::nav::list_index_from_mouse_row(l.menu, row, l.menu_offset, MENU_LEN) {
                    Some(i) => (HomeScreen { focus: Focus::Menu, menu: Some(i), ..s }, HomeEffects { action: HomeAction::TriggerMenu, ..nothing() }),
                    None => (HomeScreen { focus: Focus::Menu, ..s }, nothing()),
                };
            }
            if crate::nav::pos_in(l.results, col, row) {
                return match crate::nav::list_index_from_mouse_row(l.results, row, l.results_offset, n_results) {
                    Some(i) => (
                        HomeScreen { focus: Focus::Results, selected: Some(i), ..s },
                        HomeEffects { action: HomeAction::StartPreview(i), ..nothing() },
                    ),
                    None => (s, nothing()),
                };
            }
            (s, nothing())
        },
        MouseAction::Moved => {
            if crate::nav::pos_in(l.menu, col, row) {
                return match crate::nav::list_index_from_mouse_row(l.menu, row, l.menu_offset, MENU_LEN) {
                    Some(i) => (HomeScreen { focus: Focus::Menu, menu: Some(i), ..s }, nothing()),
                    None => (s, nothing()),
                };
            }
            if crate::nav::pos_in(l.results, col, row) {
                return match crate::nav::list_index_from_mouse_row(l.results, row, l.results_offset, n_results) {
                    Some(i) => (HomeScreen { focus: Focus::Results, selected: Some(i), ..s }, nothing()),
                    None => (s, nothing()),
                };
            }
            if crate::nav::pos_in(l.input, col, row) {
                return (HomeScreen { focus: Focus::Input, ..s }, nothing());
            }
            (s, nothing())
        },
        MouseAction::Other => (s, nothing()),
    }
}

/// The items of the home menu.
#[derive(Debug, Clone, Copy, PartialEq, Eq, Structural)]
pub enum MenuAction {
    /// "确定": act on the input.
    Confirm,
    /// "配置": the settings screen ("进入配置编辑").
    Config,
    /// "更新": scan the local books for updates.
    Update,
    /// "关于": the "about" page ("关于").
    About,
    /// "退出".
    Quit,
}

/// The menu item at position `i`.
pub open spec fn menu_item(i: usize) -> Option<MenuAction> {
    if i == 0 {
        Some(MenuAction::Confirm)
    } else if i == 1 {
        Some(MenuAction::Config)
    } else if i == 2 {
        Some(MenuAction::Update)
    } else if i == 3 {
        Some(MenuAction::About)
    } else if i == 4 {
        Some(MenuAction::Quit)
    } else {
        None
    }
}

/// The position of a menu item.
pub open spec fn menu_position(a: MenuAction) -> usize {
    match a {
        MenuAction::Confirm => 0,
        MenuAction::Config => 1,
        MenuAction::Update => 2,
        MenuAction::About => 3,
        MenuAction::Quit => 4,
    }
}

/// The item run by the menu: the selected one (the first when none is),
/// or "确定" for a selection past the end.
pub fn selected_menu_action(menu: Option<usize>) -> (a: MenuAction)
    ensures
        a == (match menu_item(match menu { Some(i) => i, None => 0 }) { Some(x) => x, None => MenuAction::Confirm }),
{
    let i: usize = match menu {
        Some(i) => i,
        None => 0,
    };
    if i == 0 {
        MenuAction::Confirm
    } else if i == 1 {
        MenuAction::Config
    } else if i == 2 {
        MenuAction::Update
    } else if i == 3 {
        MenuAction::About
    } else if i == 4 {
        MenuAction::Quit
    } else {
        MenuAction::Confirm
    }
}

impl MenuAction {
    /// The menu position of this item, which becomes the selection when it
    /// runs.
    pub fn position(&self) -> (i: usize)
        ensures
            i == menu_position(*self),
            i < MENU_LEN,
            menu_item(i) == Some(*self),
    {
        match self {
            MenuAction::Confirm => 0,
            MenuAction::Config => 1,
            MenuAction::Update => 2,
            MenuAction::About => 3,
            MenuAction::Quit => 4,
        }
    }

    /// The label of this item.
    pub fn label(&self) -> (s: String)
        ensures
            s@ == (match *self {
                MenuAction::Confirm => "确定"@,
                MenuAction::Config => "配置"@,
                MenuAction::Update => "更新"@,
                MenuAction::About => "关于"@,
                MenuAction::Quit => "退出"@,
            }),
    {
        match self {
            MenuAction::Confirm => String::from_str("确定"),
            MenuAction::Config => String::from_str("配置"),
            MenuAction::Update => String::from_str("更新"),
            MenuAction::About => String::from_str("关于"),
            MenuAction::Quit => String::from_str("退出"),
        }
    }
}

/// The frames of the busy indicator.
pub open spec fn spinner_frame(i: nat) -> char {
    if i % 4 == 0 {
        '|'
    } else if i % 4 == 1 {
        '/'
    } else if i % 4 == 2 {
        '-'
    } else {
        '\\'
    }
}

/// The next frame of the busy indicator, if it is running and 140 ms have
/// passed since the last frame.
pub fn spinner_tick(active: bool, elapsed_ms: u64, idx: usize) -> (r: Option<usize>)
    requires
        idx < 4,
    ensures
        r == (if active && elapsed_ms >= 140 { Some(((idx + 1) % 4) as usize) } else { None }),
{
    if !active || elapsed_ms < 140 {
        None
    } else {
        Some((idx + 1) % 4)
    }
}

/// The status line while busy: the task's text, a space, and the frame.
pub fn spinner_status(text: &str, idx: usize) -> (s: String)
    ensures
        s@ == text@ + seq![' ', spinner_frame(idx as nat)],
{
    let mut v = crate::text::chars_of(text);
    v.push(' ');
    let k = idx % 4;
    v.push(if k == 0 { '|' } else if k == 1 { '/' } else if k == 2 { '-' } else { '\\' });
    crate::text::string_of(v.as_slice())
}

/// While the search input has the keyboard, a plain character is typed
/// into it and nothing else happens, whatever the character.
pub proof fn lemma_typing_stays_in_input(s: HomeScreen, c: char, n_results: usize, has_pending: bool)
    requires
        s.focus == Focus::Input,
    ensures
        home_key_spec(s, HomeKey::Char { c, ctrl: false, alt: false }, n_results, has_pending) == (s, edit(InputOp::Push(c))),
{
}

/// The mouse never asks for a download or a cover, and a preview is only
/// started for a result that exists.
pub proof fn lemma_mouse_previews_existing_results(s: HomeScreen, l: HomeLayout, action: MouseAction, col: u16, row: u16, n_results: usize)
    ensures
        ({
            let fx = home_mouse_spec(s, l, action, col, row, n_results).1;
            &&& fx.action != HomeAction::DownloadSelected
            &&& fx.input == InputOp::Keep
            &&& (fx.action matches HomeAction::StartPreview(i) ==> i < n_results)
        }),
{
}

} // verus!
