//! The keyboard handling of the terminal settings screen as a state machine:
//! moving between categories and entries, editing a value, and the
//! confirmation asked before segment comments are switched on.

use crate::nav::{MouseAction, Rect, bordered_row, entry_selection, inside, next_wrapping, prev_wrapping, row_hit};
use crate::tui_config::{ConfigCategory, ConfigField, categories_view, is_switch};
use vstd::prelude::*;

verus! {

/// Which list of the settings screen has the keyboard.
#[derive(Debug, Clone, Copy, PartialEq, Eq, Structural)]
pub enum ConfigFocus {
    Category,
    Entry,
}

/// The keys the settings screen reacts to.
#[derive(Debug, Clone, Copy, PartialEq, Eq, Structural)]
pub enum ConfigKey {
    Esc,
    Enter,
    Left,
    Right,
    Up,
    Down,
    Tab,
    Backspace,
    Char(char),
}

/// An entry of the settings screen: category and entry index.
#[derive(Debug, Clone, Copy, PartialEq, Eq, Structural)]
pub struct EntryPos {
    pub cat: usize,
    pub entry: usize,
}

/// The selections and modes of the settings screen.
#[derive(Debug, Clone, Copy, PartialEq, Eq, Structural)]
pub struct ConfigScreen {
    pub focus: ConfigFocus,
    /// The selected category.
    pub cat: Option<usize>,
    /// The selected entry of that category.
    pub entry: Option<usize>,
    /// The entry being edited.
    pub editing: Option<EntryPos>,
    /// The highlighted choice of the true/false list (0 is true).
    pub bool_choice: Option<usize>,
    /// Whether the "back" button is highlighted.
    pub button_selected: bool,
    /// Whether the segment-comments confirmation is shown.
    pub confirm_open: bool,
    /// The entry the confirmation is about.
    pub confirm_ctx: Option<EntryPos>,
    /// The highlighted choice of the confirmation (0 is "yes").
    pub confirm_choice: Option<usize>,
    /// The category under the mouse pointer.
    pub cat_hover: Option<usize>,
}

impl ConfigScreen {
    /// The settings screen as first shown: the first entry of the first
    /// category selected with the entries focused, nothing edited, and the
    /// confirmation's highlight on "cancel" to avoid switching segment
    /// comments on by accident.
    pub fn initial() -> (s: ConfigScreen)
        ensures
            s == (ConfigScreen {
                focus: ConfigFocus::Entry,
                cat: Some(0usize),
                entry: Some(0usize),
                editing: None,
                bool_choice: Some(0usize),
                button_selected: false,
                confirm_open: false,
                confirm_ctx: None,
                confirm_choice: Some(1usize),
                cat_hover: None,
            }),
    {
        ConfigScreen {
            focus: ConfigFocus::Entry,
            cat: Some(0),
            entry: Some(0),
            editing: None,
            bool_choice: Some(0),
            button_selected: false,
            confirm_open: false,
            confirm_ctx: None,
            confirm_choice: Some(1),
            cat_hover: None,
        }
    }
}

/// What happens to the edit buffer.
#[derive(Debug, Clone, Copy, PartialEq, Eq, Structural)]
pub enum BufferOp {
    Keep,
    Clear,
    Push(char),
    Pop,
    /// Set to "true" or "false".
    SetBool(bool),
}

/// The status line to show.
#[derive(Debug, Clone, Copy, PartialEq, Eq, Structural)]
pub enum ConfigStatus {
    /// "返回主菜单"
    BackToMenu,
    /// "取消修改"
    EditCancelled,
    /// "确认开启段评？"
    ConfirmSegmentComments,
    /// "已取消开启段评"
    SegmentCommentsCancelled,
    /// "已开启段评（注意：可能触发 IP 风控，且下载更慢）"
    SegmentCommentsEnabled,
    /// "当前分类: " and the title of the selected category.
    CurrentCategory,
}

/// The status text of each status.
pub open spec fn config_status_text(s: ConfigStatus) -> Seq<char> {
    match s {
        ConfigStatus::BackToMenu => "返回主菜单"@,
        ConfigStatus::EditCancelled => "取消修改"@,
        ConfigStatus::ConfirmSegmentComments => "确认开启段评？"@,
        ConfigStatus::SegmentCommentsCancelled => "已取消开启段评"@,
        ConfigStatus::SegmentCommentsEnabled => "已开启段评（注意：可能触发 IP 风控，且下载更慢）"@,
        ConfigStatus::CurrentCategory => "当前分类: "@,
    }
}

impl ConfigStatus {
    /// The status text (for `CurrentCategory`, the part before the title).
    pub fn message(&self) -> (s: String)
        ensures
            s@ == config_status_text(*self),
    {
        match self {
            ConfigStatus::BackToMenu => String::from_str("返回主菜单"),
            ConfigStatus::EditCancelled => String::from_str("取消修改"),
            ConfigStatus::ConfirmSegmentComments => String::from_str("确认开启段评？"),
            ConfigStatus::SegmentCommentsCancelled => String::from_str("已取消开启段评"),
            ConfigStatus::SegmentCommentsEnabled => String::from_str("已开启段评（注意：可能触发 IP 风控，且下载更慢）"),
            ConfigStatus::CurrentCategory => String::from_str("当前分类: "),
        }
    }
}

/// What the caller does after a key.
#[derive(Debug, Clone, Copy, PartialEq, Eq, Structural)]
pub struct ConfigEffects {
    pub buffer: BufferOp,
    pub status: Option<ConfigStatus>,
    /// Leave for the home screen.
    pub go_home: bool,
    /// Save the edit buffer into this entry (see `apply_cfg_edit`); unless
    /// `confirmed`, a failure is shown as "保存失败: …" and a success ends the
    /// edit (see `finish_edit`).
    pub apply: Option<EntryPos>,
    /// The save confirms segment comments: its outcome is not shown and the
    /// edit ends either way.
    pub confirmed: bool,
    /// Start editing the selected entry (see `start_cfg_edit`).
    pub start_edit: bool,
}

/// No effect.
pub open spec fn no_effects() -> ConfigEffects {
    ConfigEffects { buffer: BufferOp::Keep, status: None, go_home: false, apply: None, confirmed: false, start_edit: false }
}

/// Only a status line.
pub open spec fn status_only(s: ConfigStatus) -> ConfigEffects {
    ConfigEffects { status: Some(s), ..no_effects() }
}

/// The number of entries of category `cat`, if it exists.
pub open spec fn entries_len(cats: Seq<(Seq<char>, Seq<(Seq<char>, ConfigField)>)>, cat: Option<usize>) -> Option<usize> {
    match cat {
        Some(c) => if c < cats.len() { Some(cats[c as int].1.len() as usize) } else { None },
        None => None,
    }
}

/// The setting of entry (`c`, `e`), if it exists.
pub open spec fn field_at(cats: Seq<(Seq<char>, Seq<(Seq<char>, ConfigField)>)>, c: usize, e: usize) -> Option<ConfigField> {
    if c < cats.len() && e < cats[c as int].1.len() { Some(cats[c as int].1[e as int].1) } else { None }
}

/// Moving to another category: the category selection steps (`forward` or
/// back, wrapping), the entry selection follows it, and the status names the
/// category when one is selected.
pub open spec fn move_category(s: ConfigScreen, cats: Seq<(Seq<char>, Seq<(Seq<char>, ConfigField)>)>, forward: bool) -> (ConfigScreen, ConfigEffects) {
    if cats.len() == 0 {
        (ConfigScreen { cat: None, ..s }, no_effects())
    } else {
        let cat = if forward { next_wrapping(s.cat, cats.len() as usize) } else { prev_wrapping(s.cat, cats.len() as usize) };
        let entry = entry_selection(s.entry, entries_len(cats, cat));
        let st = if entries_len(cats, cat) is Some { status_only(ConfigStatus::CurrentCategory) } else { no_effects() };
        (ConfigScreen { cat, entry, ..s }, st)
    }
}

/// Moving to another entry of the selected category (wrapping); without
/// entries nothing is selected.
pub open spec fn move_entry(s: ConfigScreen, cats: Seq<(Seq<char>, Seq<(Seq<char>, ConfigField)>)>, forward: bool) -> ConfigScreen {
    match entries_len(cats, s.cat) {
        None => ConfigScreen { entry: None, ..s },
        Some(n) => ConfigScreen { entry: if forward { next_wrapping(s.entry, n) } else { prev_wrapping(s.entry, n) }, ..s },
    }
}

/// The other choice of a two-item list, counting no choice as `default`.
pub open spec fn toggled(choice: Option<usize>, default: usize) -> Option<usize> {
    let cur = match choice { Some(c) => c, None => default };
    if cur == 0 { Some(1) } else { Some(0) }
}

/// A key while the segment-comments confirmation is shown.
pub open spec fn confirm_key(s: ConfigScreen, key: ConfigKey) -> (ConfigScreen, ConfigEffects) {
    match key {
        ConfigKey::Esc => (
            ConfigScreen { confirm_open: false, confirm_ctx: None, editing: None, ..s },
            ConfigEffects { buffer: BufferOp::Clear, status: Some(ConfigStatus::SegmentCommentsCancelled), ..no_effects() },
        ),
        ConfigKey::Left | ConfigKey::Right | ConfigKey::Up | ConfigKey::Down | ConfigKey::Tab => (
            ConfigScreen { confirm_choice: toggled(s.confirm_choice, 1), ..s },
            no_effects(),
        ),
        ConfigKey::Enter => confirm_choose(s, match s.confirm_choice { Some(c) => c, None => 1 }),
        _ => (s, no_effects()),
    }
}

/// Choosing `choice` in the confirmation: 0 saves the pending edit and
/// reports segment comments as enabled; anything else cancels.
pub open spec fn confirm_choose(s: ConfigScreen, choice: usize) -> (ConfigScreen, ConfigEffects) {
    if choice == 0 {
        (
            ConfigScreen { confirm_open: false, confirm_ctx: None, editing: None, confirm_choice: Some(0), ..s },
            ConfigEffects {
                buffer: BufferOp::Clear,
                status: Some(ConfigStatus::SegmentCommentsEnabled),
                apply: s.confirm_ctx,
                confirmed: true,
                ..no_effects()
            },
        )
    } else {
        (
            ConfigScreen { confirm_open: false, confirm_ctx: None, editing: None, confirm_choice: Some(choice), ..s },
            ConfigEffects { buffer: BufferOp::Clear, status: Some(ConfigStatus::SegmentCommentsCancelled), ..no_effects() },
        )
    }
}

/// A key while the entry (`c`, `e`) is being edited; `segment_comments_on`
/// is the current state of segment comments.
pub open spec fn editing_key(
    s: ConfigScreen,
    cats: Seq<(Seq<char>, Seq<(Seq<char>, ConfigField)>)>,
    c: usize,
    e: usize,
    key: ConfigKey,
    segment_comments_on: bool,
) -> (ConfigScreen, ConfigEffects) {
    let field = field_at(cats, c, e);
    let editing_bool = field matches Some(f) && is_switch(f);
    match key {
        ConfigKey::Esc => (
            ConfigScreen { editing: None, ..s },
            ConfigEffects { buffer: BufferOp::Clear, status: Some(ConfigStatus::EditCancelled), ..no_effects() },
        ),
        ConfigKey::Enter => if editing_bool {
            let sel = match s.bool_choice { Some(x) => x, None => 0 };
            if field == Some(ConfigField::EnableSegmentComments) && sel == 0 && !segment_comments_on {
                (
                    ConfigScreen { confirm_open: true, confirm_ctx: Some(EntryPos { cat: c, entry: e }), confirm_choice: Some(1), ..s },
                    ConfigEffects {
                        buffer: BufferOp::SetBool(true),
                        status: Some(ConfigStatus::ConfirmSegmentComments),
                        ..no_effects()
                    },
                )
            } else {
                (s, ConfigEffects { buffer: BufferOp::SetBool(sel == 0), apply: Some(EntryPos { cat: c, entry: e }), ..no_effects() })
            }
        } else {
            (s, ConfigEffects { apply: Some(EntryPos { cat: c, entry: e }), ..no_effects() })
        },
        ConfigKey::Left | ConfigKey::Right | ConfigKey::Up | ConfigKey::Down => if editing_bool {
            (ConfigScreen { bool_choice: toggled(s.bool_choice, 0), ..s }, no_effects())
        } else {
            (s, no_effects())
        },
        ConfigKey::Backspace => if editing_bool { (s, no_effects()) } else { (s, ConfigEffects { buffer: BufferOp::Pop, ..no_effects() }) },
        ConfigKey::Char(ch) => if editing_bool { (s, no_effects()) } else { (s, ConfigEffects { buffer: BufferOp::Push(ch), ..no_effects() }) },
        ConfigKey::Tab => (s, no_effects()),
    }
}

/// Leaving for the home screen.
pub open spec fn go_home() -> ConfigEffects {
    ConfigEffects { go_home: true, status: Some(ConfigStatus::BackToMenu), ..no_effects() }
}

/// A key while browsing the categories and entries.
pub open spec fn browse_key(s: ConfigScreen, cats: Seq<(Seq<char>, Seq<(Seq<char>, ConfigField)>)>, key: ConfigKey) -> (ConfigScreen, ConfigEffects) {
    match key {
        ConfigKey::Char('q') | ConfigKey::Esc | ConfigKey::Char('c') => (ConfigScreen { focus: ConfigFocus::Entry, ..s }, go_home()),
        ConfigKey::Tab => (
            ConfigScreen { focus: if s.focus == ConfigFocus::Category { ConfigFocus::Entry } else { ConfigFocus::Category }, ..s },
            no_effects(),
        ),
        ConfigKey::Left => {
            let (s2, fx) = move_category(s, cats, false);
            (ConfigScreen { focus: ConfigFocus::Category, ..s2 }, fx)
        },
        ConfigKey::Right => {
            let (s2, fx) = move_category(s, cats, true);
            (ConfigScreen { focus: ConfigFocus::Category, ..s2 }, fx)
        },
        ConfigKey::Up => if s.focus == ConfigFocus::Category { move_category(s, cats, false) } else { (move_entry(s, cats, false), no_effects()) },
        ConfigKey::Down => if s.focus == ConfigFocus::Category { move_category(s, cats, true) } else { (move_entry(s, cats, true), no_effects()) },
        ConfigKey::Enter => if s.button_selected {
            (s, go_home())
        } else if s.focus == ConfigFocus::Category {
            (ConfigScreen { focus: ConfigFocus::Entry, entry: entry_selection(s.entry, entries_len(cats, s.cat)), ..s }, no_effects())
        } else {
            (s, ConfigEffects { start_edit: true, ..no_effects() })
        },
        ConfigKey::Char('b') => (s, go_home()),
        _ => (s, no_effects()),
    }
}

/// The settings screen's reaction to a key: the confirmation takes keys
/// first, then an edit in progress, then browsing.
pub open spec fn config_key_spec(
    s: ConfigScreen,
    cats: Seq<(Seq<char>, Seq<(Seq<char>, ConfigField)>)>,
    key: ConfigKey,
    segment_comments_on: bool,
) -> (ConfigScreen, ConfigEffects) {
    if s.confirm_open {
        confirm_key(s, key)
    } else {
        match s.editing {
            Some(EntryPos { cat: c, entry: e }) => editing_key(s, cats, c, e, key, segment_comments_on),
            None => browse_key(s, cats, key),
        }
    }
}

/// No effect.
fn none() -> (fx: ConfigEffects)
    ensures
        fx == no_effects(),
{
    ConfigEffects { buffer: BufferOp::Keep, status: None, go_home: false, apply: None, confirmed: false, start_edit: false }
}

/// The number of entries of category `cat`.
fn entries_len_of(cats: &[ConfigCategory], cat: Option<usize>) -> (r: Option<usize>)
    ensures
        r == entries_len(categories_view(cats@), cat),
{
    match cat {
        Some(c) => if c < cats.len() { Some(cats[c].entries.len()) } else { None },
        None => None,
    }
}

/// Steps the category selection.
fn step_category(s: ConfigScreen, cats: &[ConfigCategory], forward: bool) -> (r: (ConfigScreen, ConfigEffects))
    ensures
        r == move_category(s, categories_view(cats@), forward),
{
    if cats.len() == 0 {
        return (ConfigScreen { cat: None, ..s }, none());
    }
    let cat = if forward { crate::nav::select_next(s.cat, cats.len()) } else { crate::nav::select_prev(s.cat, cats.len()) };
    let n = entries_len_of(cats, cat);
    let entry = crate::nav::ensure_entry_selection(s.entry, n);
    let fx = if n.is_some() { ConfigEffects { status: Some(ConfigStatus::CurrentCategory), ..none() } } else { none() };
    (ConfigScreen { cat, entry, ..s }, fx)
}

/// Steps the entry selection.
fn step_entry(s: ConfigScreen, cats: &[ConfigCategory], forward: bool) -> (r: ConfigScreen)
    ensures
        r == move_entry(s, categories_view(cats@), forward),
{
    match entries_len_of(cats, s.cat) {
        None => ConfigScreen { entry: None, ..s },
        Some(n) => ConfigScreen {
            entry: if forward { crate::nav::select_next(s.entry, n) } else { crate::nav::select_prev(s.entry, n) },
            ..s
        },
    }
}

/// The other choice of a two-item list.
fn toggle(choice: Option<usize>, default: usize) -> (r: Option<usize>)
    ensures
        r == toggled(choice, default),
{
    let cur = match choice {
        Some(c) => c,
        None => default,
    };
    if cur == 0 { Some(1) } else { Some(0) }
}

/// The settings screen's reaction to a key.
pub fn handle_config_key(s: ConfigScreen, cats: &[ConfigCategory], key: ConfigKey, segment_comments_on: bool) -> (r: (ConfigScreen, ConfigEffects))
    ensures
        r == config_key_spec(s, categories_view(cats@), key, segment_comments_on),
{
    let ghost cv = categories_view(cats@);
    if s.confirm_open {
        return match key {
            ConfigKey::Esc => (
                ConfigScreen { confirm_open: false, confirm_ctx: None, editing: None, ..s },
                ConfigEffects { buffer: BufferOp::Clear, status: Some(ConfigStatus::SegmentCommentsCancelled), ..none() },
            ),
            ConfigKey::Left | ConfigKey::Right | ConfigKey::Up | ConfigKey::Down | ConfigKey::Tab => (
                ConfigScreen { confirm_choice: toggle(s.confirm_choice, 1), ..s },
                none(),
            ),
            ConfigKey::Enter => {
                let choice = match s.confirm_choice {
                    Some(c) => c,
                    None => 1,
                };
                if choice == 0 {
                    (
                        ConfigScreen { confirm_open: false, confirm_ctx: None, editing: None, confirm_choice: Some(0), ..s },
                        ConfigEffects {
                            buffer: BufferOp::Clear,
                            status: Some(ConfigStatus::SegmentCommentsEnabled),
                            apply: s.confirm_ctx,
                            confirmed: true,
                            ..none()
                        },
                    )
                } else {
                    (
                        ConfigScreen { confirm_open: false, confirm_ctx: None, editing: None, confirm_choice: Some(choice), ..s },
                        ConfigEffects { buffer: BufferOp::Clear, status: Some(ConfigStatus::SegmentCommentsCancelled), ..none() },
                    )
                }
            },
            _ => (s, none()),
        };
    }
    match s.editing {
        Some(EntryPos { cat: c, entry: e }) => {
            let field: Option<ConfigField> = if c < cats.len() && e < cats[c].entries.len() {
                Some(cats[c].entries[e].field)
            } else {
                None
            };
            proof {
                if c < cats@.len() {
                    assert(cv[c as int].1 == crate::tui_config::entries_view(cats@[c as int].entries@));
                    if e < cats@[c as int].entries@.len() {
                        assert(cv[c as int].1[e as int].1 == cats@[c as int].entries@[e as int].field);
                    }
                }
            }
            assert(field == field_at(cv, c, e));
            let editing_bool = match field {
                Some(f) => crate::tui_config::cfg_field_is_bool(f),
                None => false,
            };
            match key {
                ConfigKey::Esc => (
                    ConfigScreen { editing: None, ..s },
                    ConfigEffects { buffer: BufferOp::Clear, status: Some(ConfigStatus::EditCancelled), ..none() },
                ),
                ConfigKey::Enter => {
                    if editing_bool {
                        let sel = match s.bool_choice {
                            Some(x) => x,
                            None => 0,
                        };
                        if field == Some(ConfigField::EnableSegmentComments) && sel == 0 && !segment_comments_on {
                            (
                                ConfigScreen { confirm_open: true, confirm_ctx: Some(EntryPos { cat: c, entry: e }), confirm_choice: Some(1), ..s },
                                ConfigEffects {
                                    buffer: BufferOp::SetBool(true),
                                    status: Some(ConfigStatus::ConfirmSegmentComments),
                                    ..none()
                                },
                            )
                        } else {
                            (s, ConfigEffects { buffer: BufferOp::SetBool(sel == 0), apply: Some(EntryPos { cat: c, entry: e }), ..none() })
                        }
                    } else {
                        (s, ConfigEffects { apply: Some(EntryPos { cat: c, entry: e }), ..none() })
                    }
                },
                ConfigKey::Left | ConfigKey::Right | ConfigKey::Up | ConfigKey::Down => {
                    if editing_bool {
                        (ConfigScreen { bool_choice: toggle(s.bool_choice, 0), ..s }, none())
                    } else {
                        (s, none())
                    }
                },
                ConfigKey::Backspace => if editing_bool { (s, none()) } else { (s, ConfigEffects { buffer: BufferOp::Pop, ..none() }) },
                ConfigKey::Char(ch) => if editing_bool { (s, none()) } else { (s, ConfigEffects { buffer: BufferOp::Push(ch), ..none() }) },
                ConfigKey::Tab => (s, none()),
            }
        },
        None => {
            let home = ConfigEffects { go_home: true, status: Some(ConfigStatus::BackToMenu), ..none() };
            match key {
                ConfigKey::Char('q') | ConfigKey::Esc | ConfigKey::Char('c') => (ConfigScreen { focus: ConfigFocus::Entry, ..s }, home),
                ConfigKey::Tab => (
                    ConfigScreen {
                        focus: if s.focus == ConfigFocus::Category { ConfigFocus::Entry } else { ConfigFocus::Category },
                        ..s
                    },
                    none(),
                ),
                ConfigKey::Left => {
                    let (s2, fx) = step_category(s, cats, false);
                    (ConfigScreen { focus: ConfigFocus::Category, ..s2 }, fx)
                },
                ConfigKey::Right => {
                    let (s2, fx) = step_category(s, cats, true);
                    (ConfigScreen { focus: ConfigFocus::Category, ..s2 }, fx)
                },
                ConfigKey::Up => if s.focus == ConfigFocus::Category { step_category(s, cats, false) } else { (step_entry(s, cats, false), none()) },
                ConfigKey::Down => if s.focus == ConfigFocus::Category { step_category(s, cats, true) } else { (step_entry(s, cats, true), none()) },
                ConfigKey::Enter => {
                    if s.button_selected {
                        (s, home)
                    } else if s.focus == ConfigFocus::Category {
                        let n = entries_len_of(cats, s.cat);
                        (ConfigScreen { focus: ConfigFocus::Entry, entry: crate::nav::ensure_entry_selection(s.entry, n), ..s }, none())
                    } else {
                        (s, ConfigEffects { start_edit: true, ..none() })
                    }
                },
                ConfigKey::Char('b') => (s, home),
                _ => (s, none()),
            }
        },
    }
}

/// The state after a successful save: the edit has ended.
pub fn finish_edit(s: ConfigScreen) -> (r: ConfigScreen)
    ensures
        r == (ConfigScreen { editing: None, ..s }),
{
    ConfigScreen { editing: None, ..s }
}


/// What starting an edit sets up.
pub struct EditStart {
    pub screen: ConfigScreen,
    /// The current value as the edit buffer; `None` for the two settings
    /// holding decimal fractions, which the caller fills in.
    pub buffer: Option<String>,
    /// The highlighted preset, for settings chosen from a preset list.
    pub combo_choice: Option<usize>,
    /// The status line: "正在编辑 [category]: entry".
    pub status: String,
}

/// The status line while editing `entry` of `cat`.
pub open spec fn editing_status(cat: Seq<char>, entry: Seq<char>) -> Seq<char> {
    "正在编辑 ["@ + cat + "]: "@ + entry
}

/// Starts editing the selected entry; nothing happens (`None`) unless a
/// category and one of its entries are selected.
pub fn start_cfg_edit(s: ConfigScreen, cats: &[ConfigCategory], config: &crate::config::Config) -> (r: Option<EditStart>)
    ensures
        match (s.cat, s.entry) {
            (Some(c), Some(e)) => if field_at(categories_view(cats@), c, e) is Some {
                let f = field_at(categories_view(cats@), c, e)->0;
                &&& r is Some
                &&& r->0.screen == (ConfigScreen {
                    editing: Some(EntryPos { cat: c, entry: e }),
                    bool_choice: if is_switch(f) {
                        Some(crate::tui_config::switch_choice(crate::tui_config::switch_value(*config, f)))
                    } else {
                        s.bool_choice
                    },
                    ..s
                })
                &&& crate::tui_config::opt_view(r->0.buffer) == crate::tui_config::shown_value(*config, f)
                &&& (crate::tui_config::is_combo(f) <==> r->0.combo_choice is Some)
                &&& r->0.status@ == editing_status(categories_view(cats@)[c as int].0, categories_view(cats@)[c as int].1[e as int].0)
            } else {
                r is None
            },
            _ => r is None,
        },
{
    let ghost cv = categories_view(cats@);
    let (c, e) = match (s.cat, s.entry) {
        (Some(c), Some(e)) => (c, e),
        _ => return None,
    };
    if c >= cats.len() || e >= cats[c].entries.len() {
        proof {
            if c < cats@.len() {
                assert(cv[c as int].1 == crate::tui_config::entries_view(cats@[c as int].entries@));
            }
        }
        return None;
    }
    let category = &cats[c];
    let entry = category.entries[e];
    proof {
        assert(cv[c as int].1 == crate::tui_config::entries_view(cats@[c as int].entries@));
        assert(cv[c as int].1[e as int] == crate::tui_config::entry_view(entry));
        assert(cv[c as int].0 == category.title@);
    }
    let f = entry.field;
    let buffer = crate::tui_config::current_cfg_value(config, f);
    let bool_choice = if crate::tui_config::cfg_field_is_bool(f) {
        Some(crate::tui_config::bool_choice_index(crate::tui_config::cfg_field_current_bool(config, f)))
    } else {
        s.bool_choice
    };
    let combo_choice = match crate::tui_config::cfg_combo_presets(f) {
        Some(presets) => {
            let value = match &buffer {
                Some(b) => crate::text::string_of(crate::text::chars_of(b.as_str()).as_slice()),
                None => String::new(),
            };
            Some(crate::tui_config::preset_position(presets.as_slice(), value.as_str()))
        },
        None => None,
    };
    let mut st = crate::text::chars_of("正在编辑 [");
    st.extend_from_slice(crate::text::chars_of(category.title).as_slice());
    st.extend_from_slice(crate::text::chars_of("]: ").as_slice());
    st.extend_from_slice(crate::text::chars_of(entry.title).as_slice());
    Some(EditStart {
        screen: ConfigScreen { editing: Some(EntryPos { cat: c, entry: e }), bool_choice, ..s },
        buffer,
        combo_choice,
        status: crate::text::string_of(st.as_slice()),
    })
}


/// Where the parts of the settings screen were last drawn.
#[derive(Debug, Clone, Copy, PartialEq, Eq, Structural)]
pub struct ConfigLayout {
    /// The category list (bordered).
    pub categories: Rect,
    /// The entry list (bordered).
    pub entries: Rect,
    /// The "back" button.
    pub button: Option<Rect>,
    /// The true/false list of a switch being edited (bordered).
    pub bool_area: Option<Rect>,
    /// The yes/no list of the segment-comments confirmation (bordered).
    pub confirm_options: Option<Rect>,
    /// The scroll offset of the category list.
    pub cat_offset: usize,
    /// The scroll offset of the entry list.
    pub entry_offset: usize,
}

/// A rectangle whose far edges are representable.
pub open spec fn fits(r: Rect) -> bool {
    r.x + r.width <= u16::MAX && r.y + r.height <= u16::MAX
}

/// Whether the entry being edited is a switch.
pub open spec fn edited_switch(s: ConfigScreen, cats: Seq<(Seq<char>, Seq<(Seq<char>, ConfigField)>)>) -> bool {
    match s.editing {
        Some(p) => field_at(cats, p.cat, p.entry) matches Some(f) && is_switch(f),
        None => false,
    }
}

/// Whether the pointer is on the true/false list of a switch being edited.
pub open spec fn on_bool_list(s: ConfigScreen, cats: Seq<(Seq<char>, Seq<(Seq<char>, ConfigField)>)>, l: ConfigLayout, col: u16, row: u16) -> bool {
    edited_switch(s, cats) && l.bool_area is Some && inside(l.bool_area->0, col, row)
}

/// One step of the wheel in a list of `len` items (`len > 0`): up stops at
/// the first item, down at the last.
pub open spec fn wheel_step(cur: usize, len: usize, up: bool) -> usize {
    if up {
        if cur == 0 { 0 } else { (cur - 1) as usize }
    } else {
        if cur + 1 <= len - 1 { (cur + 1) as usize } else { (len - 1) as usize }
    }
}

/// The mouse while the segment-comments confirmation is shown: a click on
/// a choice chooses it, hovering highlights it.
pub open spec fn confirm_mouse(s: ConfigScreen, l: ConfigLayout, action: MouseAction, col: u16, row: u16) -> (ConfigScreen, ConfigEffects) {
    if l.confirm_options is Some && inside(l.confirm_options->0, col, row) && bordered_row(l.confirm_options->0, row) < 2 {
        let idx = bordered_row(l.confirm_options->0, row);
        match action {
            MouseAction::LeftDown => confirm_choose(s, idx),
            MouseAction::Moved => (ConfigScreen { confirm_choice: Some(idx), ..s }, no_effects()),
            _ => (s, no_effects()),
        }
    } else {
        (s, no_effects())
    }
}

/// The wheel: on the true/false list of a switch being edited it flips the
/// choice; over the categories or the entries it moves that selection.
pub open spec fn wheel_mouse(
    s: ConfigScreen,
    cats: Seq<(Seq<char>, Seq<(Seq<char>, ConfigField)>)>,
    l: ConfigLayout,
    col: u16,
    row: u16,
    up: bool,
) -> (ConfigScreen, ConfigEffects) {
    if on_bool_list(s, cats, l, col, row) {
        let next = toggled(s.bool_choice, 0);
        (ConfigScreen { bool_choice: next, ..s }, ConfigEffects { buffer: BufferOp::SetBool(next == Some(0usize)), ..no_effects() })
    } else if inside(l.categories, col, row) && cats.len() > 0 {
        let cur = match s.cat { Some(c) => c, None => 0 };
        let next = wheel_step(cur, cats.len() as usize, up);
        (
            ConfigScreen { cat: Some(next), entry: entry_selection(s.entry, entries_len(cats, Some(next))), focus: ConfigFocus::Category, ..s },
            no_effects(),
        )
    } else if inside(l.entries, col, row) && entries_len(cats, s.cat) is Some && entries_len(cats, s.cat)->0 > 0 {
        let cur = match s.entry { Some(e) => e, None => 0 };
        (ConfigScreen { entry: Some(wheel_step(cur, entries_len(cats, s.cat)->0, up)), focus: ConfigFocus::Entry, ..s }, no_effects())
    } else {
        (s, no_effects())
    }
}

/// A left click. While editing, only the true/false list of a switch
/// reacts: the clicked choice is saved, except that switching segment
/// comments on asks for confirmation first. Otherwise a click selects a
/// category, presses the "back" button, or selects an entry and starts
/// editing it.
pub open spec fn click_mouse(
    s: ConfigScreen,
    cats: Seq<(Seq<char>, Seq<(Seq<char>, ConfigField)>)>,
    l: ConfigLayout,
    col: u16,
    row: u16,
    segment_comments_on: bool,
) -> (ConfigScreen, ConfigEffects) {
    match s.editing {
        Some(p) => if on_bool_list(s, cats, l, col, row) && bordered_row(l.bool_area->0, row) < 2 {
            let idx = bordered_row(l.bool_area->0, row);
            let s1 = ConfigScreen { bool_choice: Some(idx), ..s };
            if field_at(cats, p.cat, p.entry) == Some(ConfigField::EnableSegmentComments) && idx == 0 && !segment_comments_on {
                (
                    ConfigScreen { confirm_open: true, confirm_ctx: Some(p), confirm_choice: Some(1), ..s1 },
                    ConfigEffects { buffer: BufferOp::SetBool(true), status: Some(ConfigStatus::ConfirmSegmentComments), ..no_effects() },
                )
            } else {
                (s1, ConfigEffects { buffer: BufferOp::SetBool(idx == 0), apply: Some(p), ..no_effects() })
            }
        } else {
            (s, no_effects())
        },
        None => if inside(l.categories, col, row) {
            match row_hit(l.categories, row, l.cat_offset, cats.len() as usize) {
                Some(idx) => (
                    ConfigScreen {
                        cat: Some(idx),
                        entry: entry_selection(s.entry, entries_len(cats, Some(idx))),
                        focus: ConfigFocus::Category,
                        cat_hover: Some(idx),
                        ..s
                    },
                    no_effects(),
                ),
                None => (s, no_effects()),
            }
        } else if l.button is Some && inside(l.button->0, col, row) {
            (ConfigScreen { button_selected: true, ..s }, go_home())
        } else if inside(l.entries, col, row) && entries_len(cats, s.cat) is Some
            && row_hit(l.entries, row, l.entry_offset, entries_len(cats, s.cat)->0) is Some {
            (
                ConfigScreen { entry: row_hit(l.entries, row, l.entry_offset, entries_len(cats, s.cat)->0), focus: ConfigFocus::Entry, ..s },
                ConfigEffects { start_edit: true, ..no_effects() },
            )
        } else {
            (s, no_effects())
        },
    }
}

/// Moving the pointer: over the categories it only changes which one is
/// hovered; elsewhere the hover ends, and the pointer highlights a choice
/// of the true/false list while editing, or the "back" button or an entry
/// while browsing.
pub open spec fn move_mouse(
    s: ConfigScreen,
    cats: Seq<(Seq<char>, Seq<(Seq<char>, ConfigField)>)>,
    l: ConfigLayout,
    col: u16,
    row: u16,
) -> (ConfigScreen, ConfigEffects) {
    if inside(l.categories, col, row) {
        if cats.len() > 0 {
            (ConfigScreen { cat_hover: row_hit(l.categories, row, l.cat_offset, cats.len() as usize), ..s }, no_effects())
        } else {
            (s, no_effects())
        }
    } else {
        let s1 = ConfigScreen { cat_hover: None, ..s };
        if s.editing is Some {
            if on_bool_list(s, cats, l, col, row) && bordered_row(l.bool_area->0, row) < 2 {
                (ConfigScreen { bool_choice: Some(bordered_row(l.bool_area->0, row)), ..s1 }, no_effects())
            } else {
                (s1, no_effects())
            }
        } else if l.button is Some && inside(l.button->0, col, row) {
            (ConfigScreen { button_selected: true, ..s1 }, no_effects())
        } else {
            let s2 = if l.button is Some { ConfigScreen { button_selected: false, ..s1 } } else { s1 };
            if inside(l.entries, col, row) && entries_len(cats, s.cat) is Some
                && row_hit(l.entries, row, l.entry_offset, entries_len(cats, s.cat)->0) is Some {
                (
                    ConfigScreen { entry: row_hit(l.entries, row, l.entry_offset, entries_len(cats, s.cat)->0), focus: ConfigFocus::Entry, ..s2 },
                    no_effects(),
                )
            } else {
                (s2, no_effects())
            }
        }
    }
}

/// The settings screen's reaction to the mouse: the confirmation takes it
/// first.
pub open spec fn config_mouse_spec(
    s: ConfigScreen,
    cats: Seq<(Seq<char>, Seq<(Seq<char>, ConfigField)>)>,
    l: ConfigLayout,
    action: MouseAction,
    col: u16,
    row: u16,
    segment_comments_on: bool,
) -> (ConfigScreen, ConfigEffects) {
    if s.confirm_open {
        confirm_mouse(s, l, action, col, row)
    } else {
        match action {
            MouseAction::ScrollUp => wheel_mouse(s, cats, l, col, row, true),
            MouseAction::ScrollDown => wheel_mouse(s, cats, l, col, row, false),
            MouseAction::LeftDown => click_mouse(s, cats, l, col, row, segment_comments_on),
            MouseAction::Moved => move_mouse(s, cats, l, col, row),
            MouseAction::Other => (s, no_effects()),
        }
    }
}

/// The setting of entry (`c`, `e`), if it exists.
fn field_of(cats: &[ConfigCategory], c: usize, e: usize) -> (r: Option<ConfigField>)
    ensures
        r == field_at(categories_view(cats@), c, e),
{
    let ghost cv = categories_view(cats@);
    proof {
        if c < cats@.len() {
            assert(cv[c as int].1 == crate::tui_config::entries_view(cats@[c as int].entries@));
        }
    }
    if c < cats.len() && e < cats[c].entries.len() {
        Some(cats[c].entries[e].field)
    } else {
        None
    }
}

/// Whether the pointer is on the true/false list of a switch being edited.
fn pointer_on_bool_list(s: ConfigScreen, cats: &[ConfigCategory], l: ConfigLayout, col: u16, row: u16) -> (b: bool)
    ensures
        b == on_bool_list(s, categories_view(cats@), l, col, row),
{
    let switch = match s.editing {
        Some(p) => match field_of(cats, p.cat, p.entry) {
            Some(f) => crate::tui_config::cfg_field_is_bool(f),
            None => false,
        },
        None => false,
    };
    match l.bool_area {
        Some(a) => switch && crate::nav::pos_in(a, col, row),
        None => false,
    }
}

/// One step of the wheel in a list of `len > 0` items.
fn step_wheel(cur: usize, len: usize, up: bool) -> (r: usize)
    requires
        len > 0,
        cur < usize::MAX,
    ensures
        r == wheel_step(cur, len, up),
{
    if up {
        cur.saturating_sub(1)
    } else if cur + 1 <= len - 1 {
        cur + 1
    } else {
        len - 1
    }
}

/// The mouse while the confirmation is shown.
fn mouse_on_confirm(s: ConfigScreen, l: ConfigLayout, action: MouseAction, col: u16, row: u16) -> (r: (ConfigScreen, ConfigEffects))
    requires
        l.confirm_options matches Some(a) ==> fits(a),
    ensures
        r == confirm_mouse(s, l, action, col, row),
{
    if let Some(a) = l.confirm_options {
        if col >= a.x && col < a.x + a.width && row >= a.y && row < a.y + a.height {
            let idx = crate::nav::bordered_row_index(a, row);
            if idx < 2 {
                return match action {
                    MouseAction::LeftDown => {
                        if idx == 0 {
                            (
                                ConfigScreen { confirm_open: false, confirm_ctx: None, editing: None, confirm_choice: Some(0), ..s },
                                ConfigEffects {
                                    buffer: BufferOp::Clear,
                                    status: Some(ConfigStatus::SegmentCommentsEnabled),
                                    apply: s.confirm_ctx,
                                    confirmed: true,
                                    ..none()
                                },
                            )
                        } else {
                            (
                                ConfigScreen { confirm_open: false, confirm_ctx: None, editing: None, confirm_choice: Some(idx), ..s },
                                ConfigEffects { buffer: BufferOp::Clear, status: Some(ConfigStatus::SegmentCommentsCancelled), ..none() },
                            )
                        }
                    },
                    MouseAction::Moved => (ConfigScreen { confirm_choice: Some(idx), ..s }, none()),
                    _ => (s, none()),
                };
            }
        }
    }
    (s, none())
}

/// The wheel.
fn mouse_wheel(s: ConfigScreen, cats: &[ConfigCategory], l: ConfigLayout, col: u16, row: u16, up: bool) -> (r: (ConfigScreen, ConfigEffects))
    requires
        s.cat != Some(usize::MAX),
        s.entry != Some(usize::MAX),
    ensures
        r == wheel_mouse(s, categories_view(cats@), l, col, row, up),
{
    if pointer_on_bool_list(s, cats, l, col, row) {
        let next = toggle(s.bool_choice, 0);
        return (ConfigScreen { bool_choice: next, ..s }, ConfigEffects { buffer: BufferOp::SetBool(next == Some(0usize)), ..none() });
    }
    if crate::nav::pos_in(l.categories, col, row) && cats.len() > 0 {
        let cur = match s.cat {
            Some(c) => c,
            None => 0,
        };
        let next = step_wheel(cur, cats.len(), up);
        let n = entries_len_of(cats, Some(next));
        return (
            ConfigScreen { cat: Some(next), entry: crate::nav::ensure_entry_selection(s.entry, n), focus: ConfigFocus::Category, ..s },
            none(),
        );
    }
    if crate::nav::pos_in(l.entries, col, row) {
        if let Some(n) = entries_len_of(cats, s.cat) {
            if n > 0 {
                let cur = match s.entry {
                    Some(e) => e,
                    None => 0,
                };
                return (ConfigScreen { entry: Some(step_wheel(cur, n, up)), focus: ConfigFocus::Entry, ..s }, none());
            }
        }
    }
    (s, none())
}

/// A left click.
fn mouse_click(s: ConfigScreen, cats: &[ConfigCategory], l: ConfigLayout, col: u16, row: u16, segment_comments_on: bool) -> (r: (ConfigScreen, ConfigEffects))
    ensures
        r == click_mouse(s, categories_view(cats@), l, col, row, segment_comments_on),
{
    if let Some(p) = s.editing {
        if pointer_on_bool_list(s, cats, l, col, row) {
            let a = l.bool_area.unwrap();
            let idx = crate::nav::bordered_row_index(a, row);
            if idx < 2 {
                let s1 = ConfigScreen { bool_choice: Some(idx), ..s };
                if field_of(cats, p.cat, p.entry) == Some(ConfigField::EnableSegmentComments) && idx == 0 && !segment_comments_on {
                    return (
                        ConfigScreen { confirm_open: true, confirm_ctx: Some(p), confirm_choice: Some(1), ..s1 },
                        ConfigEffects { buffer: BufferOp::SetBool(true), status: Some(ConfigStatus::ConfirmSegmentComments), ..none() },
                    );
                }
                return (s1, ConfigEffects { buffer: BufferOp::SetBool(idx == 0), apply: Some(p), ..none() });
            }
        }
        return (s, none());
    }
    if crate::nav::pos_in(l.categories, col, row) {
        return match crate::nav::list_index_from_mouse_row(l.categories, row, l.cat_offset, cats.len()) {
            Some(idx) => {
                let n = entries_len_of(cats, Some(idx));
                (
                    ConfigScreen {
                        cat: Some(idx),
                        entry: crate::nav::ensure_entry_selection(s.entry, n),
                        focus: ConfigFocus::Category,
                        cat_hover: Some(idx),
                        ..s
                    },
                    none(),
                )
            },
            None => (s, none()),
        };
    }
    if let Some(b) = l.button {
        if crate::nav::pos_in(b, col, row) {
            return (ConfigScreen { button_selected: true, ..s }, ConfigEffects { go_home: true, status: Some(ConfigStatus::BackToMenu), ..none() });
        }
    }
    if crate::nav::pos_in(l.entries, col, row) {
        if let Some(n) = entries_len_of(cats, s.cat) {
            let hit = crate::nav::list_index_from_mouse_row(l.entries, row, l.entry_offset, n);
            if hit.is_some() {
                return (ConfigScreen { entry: hit, focus: ConfigFocus::Entry, ..s }, ConfigEffects { start_edit: true, ..none() });
            }
        }
    }
    (s, none())
}

/// Moving the pointer.
fn mouse_move(s: ConfigScreen, cats: &[ConfigCategory], l: ConfigLayout, col: u16, row: u16) -> (r: (ConfigScreen, ConfigEffects))
    ensures
        r == move_mouse(s, categories_view(cats@), l, col, row),
{
    if crate::nav::pos_in(l.categories, col, row) {
        if cats.len() > 0 {
            return (
                ConfigScreen { cat_hover: crate::nav::list_index_from_mouse_row(l.categories, row, l.cat_offset, cats.len()), ..s },
                none(),
            );
        }
        return (s, none());
    }
    let s1 = ConfigScreen { cat_hover: None, ..s };
    if s.editing.is_some() {
        if pointer_on_bool_list(s, cats, l, col, row) {
            let idx = crate::nav::bordered_row_index(l.bool_area.unwrap(), row);
            if idx < 2 {
                return (ConfigScreen { bool_choice: Some(idx), ..s1 }, none());
            }
        }
        return (s1, none());
    }
    let mut s2 = s1;
    if let Some(b) = l.button {
        if crate::nav::pos_in(b, col, row) {
            return (ConfigScreen { button_selected: true, ..s1 }, none());
        }
        s2 = ConfigScreen { button_selected: false, ..s1 };
    }
    if crate::nav::pos_in(l.entries, col, row) {
        if let Some(n) = entries_len_of(cats, s.cat) {
            let hit = crate::nav::list_index_from_mouse_row(l.entries, row, l.entry_offset, n);
            if hit.is_some() {
                return (ConfigScreen { entry: hit, focus: ConfigFocus::Entry, ..s2 }, none());
            }
        }
    }
    (s2, none())
}

/// The settings screen's reaction to the mouse at (`col`, `row`), given
/// where its parts were last drawn and whether segment comments are on.
pub fn handle_config_mouse(
    s: ConfigScreen,
    cats: &[ConfigCategory],
    l: ConfigLayout,
    action: MouseAction,
    col: u16,
    row: u16,
    segment_comments_on: bool,
) -> (r: (ConfigScreen, ConfigEffects))
    requires
        l.confirm_options matches Some(a) ==> fits(a),
        s.cat != Some(usize::MAX),
        s.entry != Some(usize::MAX),
    ensures
        r == config_mouse_spec(s, categories_view(cats@), l, action, col, row, segment_comments_on),
{
    if s.confirm_open {
        return mouse_on_confirm(s, l, action, col, row);
    }
    match action {
        MouseAction::ScrollUp => mouse_wheel(s, cats, l, col, row, true),
        MouseAction::ScrollDown => mouse_wheel(s, cats, l, col, row, false),
        MouseAction::LeftDown => mouse_click(s, cats, l, col, row, segment_comments_on),
        MouseAction::Moved => mouse_move(s, cats, l, col, row),
        MouseAction::Other => (s, none()),
    }
}

/// Moving the pointer never changes the selected category and never asks
/// the caller for anything; over the category list it changes nothing but
/// which category is hovered.
pub proof fn lemma_hover_keeps_selection(
    s: ConfigScreen,
    cats: Seq<(Seq<char>, Seq<(Seq<char>, ConfigField)>)>,
    l: ConfigLayout,
    col: u16,
    row: u16,
    segment_comments_on: bool,
)
    ensures
        ({
            let (s2, fx) = config_mouse_spec(s, cats, l, MouseAction::Moved, col, row, segment_comments_on);
            &&& s2.cat == s.cat
            &&& fx == no_effects()
            &&& (!s.confirm_open && inside(l.categories, col, row)) ==> s2 == (ConfigScreen { cat_hover: s2.cat_hover, ..s })
        }),
{
}

/// Segment comments are never switched on straight from the editor, by key
/// or by mouse: while they are off, an edit of that switch is saved at once
/// only when it turns them off; turning them on goes through the
/// confirmation, whose "yes" is the only way to save it.
pub proof fn lemma_segment_comments_need_confirmation(
    s: ConfigScreen,
    cats: Seq<(Seq<char>, Seq<(Seq<char>, ConfigField)>)>,
    key: ConfigKey,
    l: ConfigLayout,
    action: MouseAction,
    col: u16,
    row: u16,
)
    requires
        !s.confirm_open,
        s.editing is Some,
        field_at(cats, s.editing->0.cat, s.editing->0.entry) == Some(ConfigField::EnableSegmentComments),
    ensures
        config_key_spec(s, cats, key, false).1.apply is Some ==> config_key_spec(s, cats, key, false).1.buffer == BufferOp::SetBool(false),
        config_mouse_spec(s, cats, l, action, col, row, false).1.apply is Some
            ==> config_mouse_spec(s, cats, l, action, col, row, false).1.buffer == BufferOp::SetBool(false),
{
}

} // verus!
