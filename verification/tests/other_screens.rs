use tomato_ui::nav::{Focus, MouseAction, Rect};
use tomato_ui::screens::{
    cover_event, dismiss_outcome, dismissed_status, handle_about_key, handle_about_mouse, handle_history_key,
    handle_history_mouse, handle_name_key, handle_name_mouse, handle_preview_key, handle_preview_mouse,
    handle_update_key, handle_update_mouse, history_loaded, preview_scroll_down, preview_scroll_to_bottom,
    preview_scroll_to_top, preview_scroll_up, name_choice_opened, scan_shown, search_shown, initial_progress,
    preview_ready_status, download_started_status, stop_request_status, download_done_status, AboutAction, CoverExit, DismissOutcome, HistoryAction, HistoryLayout,
    ListKey, PreviewAction, PreviewFocus, PreviewKey, PreviewLayout, PreviewModalLayout, PreviewScreen,
    PreviewScroll, RangeOp, UpdateAction, UpdateLayout, UpdateScreen,
};

#[test]
fn update_list_keys() {
    let s = UpdateScreen { show_no_update: false, selected: Some(1) };
    assert_eq!(handle_update_key(s, ListKey::Esc, 3, 0).1, UpdateAction::Exit);
    assert_eq!(handle_update_key(s, ListKey::Char('b'), 3, 0).1, UpdateAction::Exit);
    assert_eq!(handle_update_key(s, ListKey::Char('i'), 3, 0).1, UpdateAction::ToggleIgnore(1));
    assert_eq!(handle_update_key(s, ListKey::Char('p'), 3, 0).1, UpdateAction::ShowCover(1));
    assert_eq!(handle_update_key(s, ListKey::Enter, 3, 0).1, UpdateAction::Preview(1));
    assert_eq!(handle_update_key(s, ListKey::Enter, 1, 0).1, UpdateAction::Nothing);
    let (n, _) = handle_update_key(s, ListKey::Char('n'), 3, 0);
    assert_eq!(n, UpdateScreen { show_no_update: true, selected: None });
    let (n2, _) = handle_update_key(n, ListKey::Char('n'), 3, 0);
    assert_eq!(n2, UpdateScreen { show_no_update: false, selected: Some(0) });
    assert_eq!(handle_update_key(s, ListKey::Down, 2, 0).0.selected, Some(0));
    assert_eq!(handle_update_key(s, ListKey::Up, 2, 0).0.selected, Some(0));
    assert_eq!(handle_update_key(UpdateScreen { show_no_update: false, selected: Some(0) }, ListKey::Up, 2, 0).0.selected, Some(1));
    assert_eq!(handle_update_key(s, ListKey::Up, 0, 0).0.selected, None);
}

#[test]
fn update_list_mouse() {
    let l = UpdateLayout {
        list: Some(Rect { x: 0, y: 3, width: 40, height: 10 }),
        list_offset: 0,
        exit_button: Some(Rect { x: 50, y: 0, width: 8, height: 1 }),
    };
    let s = UpdateScreen { show_no_update: false, selected: None };
    assert_eq!(handle_update_mouse(s, l, MouseAction::LeftDown, 52, 0, 3, 0).1, UpdateAction::Exit);
    assert_eq!(handle_update_mouse(s, l, MouseAction::Moved, 52, 0, 3, 0).1, UpdateAction::Nothing);
    let (s1, _) = handle_update_mouse(s, l, MouseAction::ScrollDown, 5, 5, 3, 0);
    assert_eq!(s1.selected, Some(0));
    let (s2, _) = handle_update_mouse(s1, l, MouseAction::ScrollUp, 5, 5, 3, 0);
    assert_eq!(s2.selected, Some(2));
    let (s3, a) = handle_update_mouse(s, l, MouseAction::LeftDown, 5, 5, 3, 0);
    assert_eq!(s3.selected, Some(1));
    assert_eq!(a, UpdateAction::Preview(1));
    let (_, a) = handle_update_mouse(s, l, MouseAction::LeftDown, 5, 9, 3, 0);
    assert_eq!(a, UpdateAction::Nothing);
    let (s4, a) = handle_update_mouse(s, l, MouseAction::Moved, 5, 4, 3, 0);
    assert_eq!(s4.selected, Some(0));
    assert_eq!(a, UpdateAction::Nothing);
    let (s5, _) = handle_update_mouse(s, l, MouseAction::ScrollDown, 5, 5, 0, 0);
    assert_eq!(s5.selected, None);
}

#[test]
fn about_page() {
    assert_eq!(handle_about_key(Some(2), ListKey::Esc), (Some(2), AboutAction::GoHome));
    assert_eq!(handle_about_key(Some(0), ListKey::Enter).1, AboutAction::OpenRepo);
    assert_eq!(handle_about_key(Some(1), ListKey::Enter).1, AboutAction::CheckUpdate);
    assert_eq!(handle_about_key(Some(2), ListKey::Enter).1, AboutAction::SelfUpdate);
    assert_eq!(handle_about_key(Some(3), ListKey::Enter).1, AboutAction::DismissUpdate);
    assert_eq!(handle_about_key(Some(4), ListKey::Enter).1, AboutAction::GoHome);
    assert_eq!(handle_about_key(None, ListKey::Enter).1, AboutAction::Nothing);
    assert_eq!(handle_about_key(None, ListKey::Up).0, Some(4));
    assert_eq!(handle_about_key(Some(4), ListKey::Down).0, Some(0));
    let area = Rect { x: 0, y: 3, width: 30, height: 7 };
    assert_eq!(handle_about_mouse(None, area, MouseAction::Moved, 2, 6), (Some(2), AboutAction::Nothing));
    assert_eq!(handle_about_mouse(None, area, MouseAction::LeftDown, 2, 5), (Some(1), AboutAction::CheckUpdate));
    assert_eq!(handle_about_mouse(Some(1), area, MouseAction::LeftDown, 40, 5), (Some(1), AboutAction::Nothing));
    assert_eq!(dismiss_outcome(false, true), DismissOutcome::NoReport);
    assert_eq!(dismiss_outcome(true, false), DismissOutcome::AlreadyLatest);
    assert_eq!(dismiss_outcome(true, true), DismissOutcome::Dismiss);
    assert_eq!(DismissOutcome::NoReport.message(), "尚未获取更新信息，先点“检查程序更新”");
    assert_eq!(DismissOutcome::AlreadyLatest.message(), "当前已是最新版本，无需设置提醒");
    assert_eq!(dismissed_status("v1.2.3"), "已设置不再提醒 v1.2.3");
}

#[test]
fn history_page() {
    assert_eq!(handle_history_key(Some(0), ListKey::Esc, 3).1, HistoryAction::GoHome);
    assert_eq!(handle_history_key(Some(0), ListKey::Char('r'), 3).1, HistoryAction::Refresh);
    assert_eq!(handle_history_key(Some(0), ListKey::Up, 3).0, Some(2));
    assert_eq!(handle_history_key(Some(2), ListKey::Down, 3).0, Some(0));
    let l = HistoryLayout {
        list: Rect { x: 0, y: 0, width: 30, height: 20 },
        list_offset: 0,
        detail: Rect { x: 30, y: 0, width: 50, height: 20 },
    };
    // The back button sits in the bottom-right corner of the detail pane.
    assert_eq!(handle_history_mouse(Some(0), l, MouseAction::LeftDown, 70, 18, 3).1, HistoryAction::GoHome);
    assert_eq!(handle_history_mouse(Some(0), l, MouseAction::Moved, 70, 18, 3).1, HistoryAction::Nothing);
    assert_eq!(handle_history_mouse(Some(0), l, MouseAction::LeftDown, 3, 3, 3).0, Some(2));
    assert_eq!(handle_history_mouse(Some(0), l, MouseAction::Moved, 3, 9, 3).0, Some(0));
    assert_eq!(handle_history_mouse(Some(1), l, MouseAction::ScrollDown, 3, 9, 3).0, Some(2));
    assert_eq!(history_loaded(0), (None, "下载历史为空".to_string()));
    assert_eq!(history_loaded(12), (Some(0), "已加载下载历史 12 条".to_string()));
}

#[test]
fn cover_view() {
    assert_eq!(cover_event(Some(ListKey::Enter), MouseAction::Other), CoverExit::BackWithStatus);
    assert_eq!(cover_event(Some(ListKey::Char('x')), MouseAction::Other), CoverExit::Stay);
    assert_eq!(cover_event(None, MouseAction::LeftDown), CoverExit::Back);
    assert_eq!(cover_event(None, MouseAction::Moved), CoverExit::Stay);
}

fn preview(focus: PreviewFocus) -> PreviewScreen {
    PreviewScreen {
        focus,
        button: Some(0),
        scroll: PreviewScroll { modal_open: false, modal: 0, modal_max: 0, desc: 2, desc_max: 6 },
    }
}

#[test]
fn preview_scrolling() {
    let p = PreviewScroll { modal_open: false, modal: 0, modal_max: 0, desc: 2, desc_max: 6 };
    assert_eq!(preview_scroll_up(p, 5).desc, 0);
    assert_eq!(preview_scroll_down(p, 3).desc, 5);
    assert_eq!(preview_scroll_down(p, 5).desc, 6);
    assert_eq!(preview_scroll_to_top(p).desc, 0);
    assert_eq!(preview_scroll_to_bottom(p).desc, 6);
    let m = PreviewScroll { modal_open: true, modal: 1, modal_max: 3, desc: 2, desc_max: 6 };
    assert_eq!(preview_scroll_down(m, 10), PreviewScroll { modal: 3, ..m });
    assert_eq!(preview_scroll_up(m, 1), PreviewScroll { modal: 0, ..m });
}

#[test]
fn preview_keys() {
    let r = preview(PreviewFocus::Range);
    assert_eq!(handle_preview_key(r, PreviewKey::Char { c: '1', ctrl: false, alt: false }).1, RangeOp::Push('1'));
    assert_eq!(handle_preview_key(r, PreviewKey::Char { c: 's', ctrl: false, alt: false }).2, PreviewAction::StopDownload);
    assert_eq!(handle_preview_key(r, PreviewKey::Backspace).1, RangeOp::Pop);
    assert_eq!(handle_preview_key(r, PreviewKey::Paste).1, RangeOp::PushPasted);
    assert_eq!(handle_preview_key(r, PreviewKey::Enter).2, PreviewAction::Confirm);
    assert_eq!(handle_preview_key(r, PreviewKey::Esc).2, PreviewAction::Cancel);
    assert_eq!(handle_preview_key(r, PreviewKey::Up).0.scroll.desc, 1);
    assert_eq!(handle_preview_key(r, PreviewKey::PageDown).0.scroll.desc, 6);
    assert_eq!(handle_preview_key(r, PreviewKey::Tab).0.focus, PreviewFocus::Buttons);
    let b = preview(PreviewFocus::Buttons);
    assert_eq!(handle_preview_key(b, PreviewKey::Char { c: '1', ctrl: false, alt: false }).1, RangeOp::Keep);
    let (b1, _, _) = handle_preview_key(b, PreviewKey::Down);
    assert_eq!(b1.button, Some(1));
    assert_eq!(b1.scroll, b.scroll);
    assert_eq!(handle_preview_key(b1, PreviewKey::Enter).2, PreviewAction::Cancel);
    assert_eq!(handle_preview_key(b1, PreviewKey::Right).0.button, Some(0));
    assert_eq!(handle_preview_key(b, PreviewKey::Left).0.button, Some(1));
    assert_eq!(handle_preview_key(b, PreviewKey::Up).0.button, Some(1));
    assert_eq!(handle_preview_key(b, PreviewKey::Enter).2, PreviewAction::Confirm);
}

#[test]
fn preview_mouse() {
    let l = PreviewLayout {
        stop_button: Some(Rect { x: 70, y: 0, width: 8, height: 1 }),
        modal: Some(PreviewModalLayout {
            info: Rect { x: 10, y: 2, width: 60, height: 10 },
            range: Rect { x: 10, y: 12, width: 60, height: 3 },
            buttons: Rect { x: 10, y: 15, width: 60, height: 4 },
        }),
        desc: None,
    };
    let s = preview(PreviewFocus::Buttons);
    assert_eq!(handle_preview_mouse(s, l, MouseAction::LeftDown, 71, 0).1, PreviewAction::StopDownload);
    assert_eq!(handle_preview_mouse(s, l, MouseAction::ScrollDown, 20, 5).0.scroll.desc, 3);
    assert_eq!(handle_preview_mouse(s, l, MouseAction::LeftDown, 20, 13).0.focus, PreviewFocus::Range);
    assert_eq!(handle_preview_mouse(s, l, MouseAction::LeftDown, 20, 16), (PreviewScreen { button: Some(0), ..s }, PreviewAction::Confirm));
    assert_eq!(handle_preview_mouse(s, l, MouseAction::LeftDown, 20, 18), (PreviewScreen { button: Some(1), ..s }, PreviewAction::Cancel));
    let r = preview(PreviewFocus::Range);
    let (h, a) = handle_preview_mouse(r, l, MouseAction::Moved, 20, 17);
    assert_eq!(h.focus, PreviewFocus::Buttons);
    assert_eq!(h.button, Some(1));
    assert_eq!(a, PreviewAction::Nothing);
    let none = PreviewLayout { stop_button: None, modal: None, desc: Some(Rect { x: 0, y: 0, width: 10, height: 10 }) };
    assert_eq!(handle_preview_mouse(s, none, MouseAction::ScrollUp, 2, 2).0.scroll.desc, 1);
    assert_eq!(handle_preview_mouse(s, none, MouseAction::LeftDown, 2, 2).1, PreviewAction::Nothing);
}

#[test]
fn book_name_choice() {
    let c = handle_name_key(None, ListKey::Up, 3);
    assert_eq!(c.selected, Some(2));
    assert_eq!(c.chosen, None);
    assert_eq!(handle_name_key(Some(2), ListKey::Down, 3).selected, Some(0));
    assert_eq!(handle_name_key(None, ListKey::Down, 0).selected, None);
    assert_eq!(handle_name_key(Some(1), ListKey::Enter, 3).chosen, Some(Some(1)));
    assert_eq!(handle_name_key(Some(5), ListKey::Enter, 3).chosen, Some(None));
    let list = Rect { x: 5, y: 5, width: 30, height: 5 };
    let m = handle_name_mouse(None, list, MouseAction::LeftDown, 6, 7, 3);
    assert_eq!(m.selected, Some(1));
    assert_eq!(m.chosen, Some(Some(1)));
    let h = handle_name_mouse(None, list, MouseAction::Moved, 6, 8, 3);
    assert_eq!(h.selected, Some(2));
    assert_eq!(h.chosen, None);
    assert_eq!(handle_name_mouse(None, list, MouseAction::LeftDown, 6, 9, 3).chosen, None);
}

#[test]
fn background_results() {
    let none = search_shown(0);
    assert_eq!(none.status, "未找到匹配书籍");
    assert_eq!(none.selected, None);
    assert_eq!(none.focus, Focus::Input);
    let some = search_shown(7);
    assert_eq!(some.status, "找到 7 本书，使用上下键选择，Enter 预览/下载。");
    assert_eq!(some.selected, Some(0));
    assert_eq!(some.focus, Focus::Results);
    assert_eq!(scan_shown(0, 0), (None, "未发现本地小说，先下载一本试试".to_string()));
    assert_eq!(
        scan_shown(0, 4),
        (Some(UpdateScreen { show_no_update: true, selected: Some(0) }), "扫描完成：有更新 0 本，无更新 4 本".to_string())
    );
    assert_eq!(scan_shown(2, 1).0, Some(UpdateScreen { show_no_update: false, selected: Some(0) }));
    assert_eq!(name_choice_opened(0), None);
    assert_eq!(name_choice_opened(2), Some(0));
}

#[test]
fn download_progress_and_statuses() {
    let p = initial_progress(51, 10, true);
    assert_eq!(p.group_total, 3);
    assert_eq!(p.group_done, 0);
    assert_eq!(p.saved_chapters, 10);
    assert_eq!(p.chapter_total, 51);
    assert_eq!(p.comment_total, 51);
    assert_eq!(initial_progress(50, 0, false).group_total, 2);
    assert_eq!(initial_progress(50, 0, false).comment_total, 0);
    assert_eq!(initial_progress(0, 0, false).group_total, 0);
    assert_eq!(preview_ready_status("书", 120, 7), "预览: 《书》 共 120 章，已下载 7");
    assert_eq!(download_started_status("书", "123"), "开始下载: 《书》 (123)");
    assert_eq!(stop_request_status(true), "已请求停止下载…");
    assert_eq!(stop_request_status(false), "当前没有正在进行的下载");
    assert_eq!(download_done_status("9", None), "下载完成: 9");
    assert_eq!(download_done_status("9", Some("网络错误")), "下载失败: 网络错误");
}
