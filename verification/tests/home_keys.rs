use tomato_ui::home_screen::{
    handle_home_key, handle_home_mouse, selected_menu_action, spinner_status, spinner_tick, HomeAction, HomeKey,
    HomeLayout, HomeScreen, InputOp, MenuAction, MENU_LEN,
};
use tomato_ui::nav::{Focus, MouseAction, Rect};

fn screen(focus: Focus) -> HomeScreen {
    HomeScreen { focus, menu: None, selected: None }
}

fn plain(c: char) -> HomeKey {
    HomeKey::Char { c, ctrl: false, alt: false }
}

#[test]
fn letters_type_or_switch_views() {
    let (_, fx) = handle_home_key(screen(Focus::Input), plain('q'), 0, false);
    assert_eq!(fx.input, InputOp::Push('q'));
    assert_eq!(fx.action, HomeAction::Nothing);
    let (_, fx) = handle_home_key(screen(Focus::Menu), plain('q'), 0, false);
    assert_eq!(fx.action, HomeAction::Quit);
    let (_, fx) = handle_home_key(screen(Focus::Results), plain('c'), 0, false);
    assert_eq!(fx.action, HomeAction::OpenConfig);
    let (_, fx) = handle_home_key(screen(Focus::Menu), plain('u'), 0, false);
    assert_eq!(fx.action, HomeAction::OpenUpdate);
    let (_, fx) = handle_home_key(screen(Focus::Menu), plain('a'), 0, false);
    assert_eq!(fx.action, HomeAction::OpenAbout);
    let (_, fx) = handle_home_key(screen(Focus::Menu), plain('x'), 0, false);
    assert_eq!(fx.input, InputOp::Keep);
    let (_, fx) = handle_home_key(screen(Focus::Input), HomeKey::Char { c: 'x', ctrl: true, alt: false }, 0, false);
    assert_eq!(fx.input, InputOp::Keep);
    let (_, fx) = handle_home_key(screen(Focus::Input), HomeKey::Char { c: 'v', ctrl: true, alt: false }, 0, false);
    assert_eq!(fx.action, HomeAction::PasteClipboard);
    let (_, fx) = handle_home_key(screen(Focus::Input), HomeKey::Paste, 0, false);
    assert_eq!(fx.input, InputOp::PushPasted);
    let (_, fx) = handle_home_key(screen(Focus::Menu), HomeKey::Paste, 0, false);
    assert_eq!(fx.input, InputOp::Keep);
    let (_, fx) = handle_home_key(screen(Focus::Input), HomeKey::Backspace, 0, false);
    assert_eq!(fx.input, InputOp::Pop);
}

#[test]
fn covers_lists_and_enter() {
    let mut s = screen(Focus::Results);
    s.selected = Some(1);
    let (_, fx) = handle_home_key(s, plain('p'), 3, false);
    assert_eq!(fx.action, HomeAction::ShowCover(1));
    let (_, fx) = handle_home_key(s, plain('p'), 1, false);
    assert_eq!(fx.action, HomeAction::Nothing);
    let (s1, _) = handle_home_key(s, HomeKey::Down, 2, false);
    assert_eq!(s1.selected, Some(0));
    let (s2, _) = handle_home_key(s1, HomeKey::Up, 2, false);
    assert_eq!(s2.selected, Some(1));
    let (_, fx) = handle_home_key(s, HomeKey::Enter, 2, false);
    assert_eq!(fx.action, HomeAction::DownloadSelected);
    let (_, fx) = handle_home_key(screen(Focus::Results), HomeKey::Enter, 2, false);
    assert_eq!(fx.action, HomeAction::Nothing);
    let (_, fx) = handle_home_key(screen(Focus::Input), HomeKey::Enter, 0, false);
    assert_eq!(fx.action, HomeAction::ProcessInput);
    let (m, _) = handle_home_key(screen(Focus::Menu), HomeKey::Up, 0, false);
    assert_eq!(m.menu, Some(MENU_LEN - 1));
    let (m2, _) = handle_home_key(m, HomeKey::Down, 0, false);
    assert_eq!(m2.menu, Some(0));
    let (_, fx) = handle_home_key(m2, HomeKey::Enter, 0, false);
    assert_eq!(fx.action, HomeAction::TriggerMenu);
    let (t, _) = handle_home_key(screen(Focus::Menu), HomeKey::Tab, 0, false);
    assert_eq!(t.focus, Focus::Input);
    let (t, _) = handle_home_key(screen(Focus::Menu), HomeKey::Tab, 4, false);
    assert_eq!(t.focus, Focus::Results);
    let (e, fx) = handle_home_key(s, HomeKey::Esc, 3, true);
    assert_eq!(e.focus, Focus::Input);
    assert_eq!(e.selected, None);
    assert!(fx.clear_results);
    assert!(fx.cancel_pending);
    let (_, fx) = handle_home_key(s, HomeKey::Esc, 3, false);
    assert!(!fx.cancel_pending);
}

fn layout() -> HomeLayout {
    HomeLayout {
        input: Rect { x: 0, y: 0, width: 80, height: 3 },
        menu: Rect { x: 0, y: 3, width: 20, height: 7 },
        results: Rect { x: 20, y: 3, width: 60, height: 10 },
        menu_offset: 0,
        results_offset: 0,
    }
}

#[test]
fn home_mouse() {
    let l = layout();
    let s = screen(Focus::Input);
    let (s1, _) = handle_home_mouse(s, l, MouseAction::ScrollDown, 5, 5, 0);
    assert_eq!(s1.menu, Some(0));
    assert_eq!(s1.focus, Focus::Menu);
    let (s2, _) = handle_home_mouse(s1, l, MouseAction::ScrollDown, 5, 5, 0);
    assert_eq!(s2.menu, Some(1));
    let mut last = s1;
    last.menu = Some(MENU_LEN - 1);
    let (s3, _) = handle_home_mouse(last, l, MouseAction::ScrollDown, 5, 5, 0);
    assert_eq!(s3.menu, Some(MENU_LEN - 1));
    let (s4, fx) = handle_home_mouse(s, l, MouseAction::LeftDown, 5, 6, 0);
    assert_eq!(s4.menu, Some(2));
    assert_eq!(fx.action, HomeAction::TriggerMenu);
    let (s5, fx) = handle_home_mouse(s, l, MouseAction::LeftDown, 30, 5, 3);
    assert_eq!(s5.selected, Some(1));
    assert_eq!(fx.action, HomeAction::StartPreview(1));
    let (_, fx) = handle_home_mouse(s, l, MouseAction::LeftDown, 30, 9, 3);
    assert_eq!(fx.action, HomeAction::Nothing);
    let (s6, _) = handle_home_mouse(s, l, MouseAction::ScrollUp, 30, 5, 3);
    assert_eq!(s6.selected, Some(0));
    let (s7, _) = handle_home_mouse(s6, l, MouseAction::ScrollUp, 30, 5, 3);
    assert_eq!(s7.selected, Some(2));
    let (s8, fx) = handle_home_mouse(s5, l, MouseAction::Moved, 5, 1, 3);
    assert_eq!(s8.focus, Focus::Input);
    assert_eq!(fx.action, HomeAction::Nothing);
    let (s9, _) = handle_home_mouse(s, l, MouseAction::Moved, 30, 4, 3);
    assert_eq!(s9.selected, Some(0));
    assert_eq!(s9.focus, Focus::Results);
}

#[test]
fn menu_items_and_spinner() {
    assert_eq!(selected_menu_action(None), MenuAction::Confirm);
    assert_eq!(selected_menu_action(Some(1)), MenuAction::Config);
    assert_eq!(selected_menu_action(Some(4)), MenuAction::Quit);
    assert_eq!(selected_menu_action(Some(9)), MenuAction::Confirm);
    assert_eq!(MenuAction::About.position(), 3);
    assert_eq!(MenuAction::Update.label(), "更新");
    assert_eq!(spinner_tick(true, 200, 3), Some(0));
    assert_eq!(spinner_tick(true, 100, 1), None);
    assert_eq!(spinner_tick(false, 500, 1), None);
    assert_eq!(spinner_status("搜索中…", 0), "搜索中… |");
    assert_eq!(spinner_status("搜索中…", 3), "搜索中… \\");
}

#[test]
fn initial_home_screen() {
    let s = HomeScreen::initial();
    assert_eq!(s, HomeScreen { focus: Focus::Input, menu: Some(0), selected: None });
    assert_eq!(HomeScreen::initial_status(), "输入书名/ID/链接，Enter 确认，Tab 切换焦点，q 退出");
}
