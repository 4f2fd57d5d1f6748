use tomato_ui::cli_flow::{
    apply_range, count_download_state, initial_download_mode, parse_main_input, prompt_range, retry_failed,
    save_dir_choice, search_and_pick, select_download_mode, short_description, ChapterRef, ChapterState,
    DownloadMode, MainInput, RangeAnswer, SearchPick,
};
use tomato_ui::clock::{now_ms, now_secs, system_time_ms};
use tomato_ui::home::{level_color, process_input, push_cover_candidates, split_log_line, HomeInput, LevelColor};
use tomato_ui::nav::{
    back_button_rect, cycle_focus, ensure_entry_selection, list_index_from_mouse_row, list_inner_area, modal_select,
    pos_in, push_log, push_message, scroll_down, scroll_up, select_next, select_next_menu, select_next_result,
    select_prev, select_prev_menu, select_prev_result, truncate, Focus, Rect,
};
use tomato_ui::notes::{lines_of, preview_notes, wrapped_line_count};
use tomato_ui::range::{parse_range_input, ChapterRange, RangeError};
use tomato_ui::updates::{
    console_entry, row_from_update, scan_updates, select_from_list, terminal_entry_label, update_menu_choice,
    ListChoice, NovelUpdateRow, UpdateChoice,
};
use tomato_ui::TuiExit;

fn chapters(n: usize) -> Vec<ChapterRef> {
    (1..=n).map(|i| ChapterRef { id: format!("c{i}"), title: format!("第{i}章") }).collect()
}

#[test]
fn typed_chapter_ranges() {
    assert_eq!(parse_range_input("  ", 10), Ok(None));
    assert_eq!(parse_range_input("2-5", 10), Ok(Some(ChapterRange { start: 2, end: 5 })));
    assert_eq!(parse_range_input(" -4 ", 10), Ok(Some(ChapterRange { start: 1, end: 4 })));
    assert_eq!(parse_range_input("3-", 10), Ok(Some(ChapterRange { start: 3, end: 10 })));
    assert_eq!(parse_range_input("3-99", 10), Ok(Some(ChapterRange { start: 3, end: 10 })));
    assert_eq!(parse_range_input("5", 10), Ok(Some(ChapterRange { start: 5, end: 10 })));
    assert_eq!(parse_range_input("1-2-3", 10), Err(RangeError::Format));
    assert_eq!(parse_range_input("a-3", 10), Err(RangeError::StartNotNumber));
    assert_eq!(parse_range_input("1-b", 10), Err(RangeError::EndNotNumber));
    assert_eq!(parse_range_input("0-3", 10), Err(RangeError::ZeroChapter));
    assert_eq!(parse_range_input("5-3", 10), Err(RangeError::StartAfterEnd));
    assert_eq!(parse_range_input("11-12", 10), Err(RangeError::StartBeyondTotal));
    assert_eq!(RangeError::Format.message(), "格式应为 start-end，例如 1-10");
}

#[test]
fn console_range_prompt() {
    assert_eq!(prompt_range("", 10), RangeAnswer::All);
    assert_eq!(prompt_range("5-8", 10), RangeAnswer::FormatError);
    assert_eq!(prompt_range("x~3", 10), RangeAnswer::ParseError);
    assert_eq!(prompt_range(" 8 ~ 3 ", 10), RangeAnswer::Range(ChapterRange { start: 3, end: 8 }));
    assert_eq!(prompt_range("0~500", 10), RangeAnswer::Range(ChapterRange { start: 1, end: 10 }));
    assert_eq!(prompt_range("2~3~4", 10), RangeAnswer::ParseError);
}

#[test]
fn chapters_selected_by_a_range() {
    let ch = chapters(5);
    assert_eq!(apply_range(&ch, None).len(), 5);
    let picked = apply_range(&ch, Some(ChapterRange { start: 2, end: 4 }));
    let ids: Vec<&str> = picked.iter().map(|c| c.id.as_str()).collect();
    assert_eq!(ids, vec!["c2", "c3", "c4"]);
    assert_eq!(apply_range(&ch, Some(ChapterRange { start: 4, end: 99 })).len(), 2);
    assert!(apply_range(&ch, Some(ChapterRange { start: 0, end: 2 })).is_empty());
    assert!(apply_range(&ch, Some(ChapterRange { start: 3, end: 2 })).is_empty());
    assert!(apply_range(&ch, Some(ChapterRange { start: 6, end: 9 })).is_empty());
    if let Ok(Some(r)) = parse_range_input("2-3", ch.len()) {
        assert_eq!(apply_range(&ch, Some(r)).len(), 2);
    } else {
        panic!("range refused");
    }
}

#[test]
fn download_modes_and_counts() {
    assert_eq!(select_download_mode("", true), DownloadMode::Resume);
    assert_eq!(select_download_mode(" 2 ", true), DownloadMode::Full);
    assert_eq!(select_download_mode("3", true), DownloadMode::FailedOnly);
    assert_eq!(select_download_mode("3", false), DownloadMode::Resume);
    assert_eq!(select_download_mode("4", false), DownloadMode::RangeIgnoreHistory);
    assert_eq!(select_download_mode("Q", false), DownloadMode::Cancel);
    assert_eq!(select_download_mode("zz", false), DownloadMode::Resume);
    assert_eq!(initial_download_mode(0, 0), Some(DownloadMode::RangeOrAll));
    assert_eq!(initial_download_mode(1, 0), None);
    let states = [ChapterState::Downloaded, ChapterState::Failed, ChapterState::Missing, ChapterState::Downloaded];
    assert_eq!(count_download_state(&states), (2, 1));
    assert!(retry_failed(""));
    assert!(!retry_failed(" N "));
    assert_eq!(short_description("短"), "短");
    let long: String = "字".repeat(51);
    assert_eq!(short_description(&long), format!("{}...", "字".repeat(50)));
}

#[test]
fn main_prompt_and_search() {
    assert_eq!(parse_main_input("   "), MainInput::Empty);
    assert_eq!(parse_main_input("Q"), MainInput::Quit);
    assert_eq!(parse_main_input("s"), MainInput::Settings);
    assert_eq!(parse_main_input("U"), MainInput::Updates);
    assert_eq!(parse_main_input(" 12345 "), MainInput::BookId("12345".to_string()));
    assert_eq!(parse_main_input("https://a.com/page/77"), MainInput::BookId("77".to_string()));
    assert_eq!(parse_main_input("三体"), MainInput::Search("三体".to_string()));
    assert_eq!(save_dir_choice("  "), None);
    assert_eq!(save_dir_choice(" /data/books/\\ "), Some("/data/books".to_string()));
    let ids = vec!["a".to_string(), "b".to_string()];
    assert_eq!(search_and_pick("2", &ids), SearchPick::Pick("b".to_string()));
    assert_eq!(search_and_pick("q", &ids), SearchPick::Cancel);
    assert_eq!(search_and_pick("0", &ids), SearchPick::Cancel);
    assert_eq!(search_and_pick("3", &ids), SearchPick::Invalid);
    assert_eq!(search_and_pick("x", &ids), SearchPick::Invalid);
}

#[test]
fn update_lists() {
    let row = NovelUpdateRow {
        book_id: "9".to_string(),
        book_name: "书".to_string(),
        folder: "/books/9_书/".to_string(),
        local_total: 10,
        local_failed: 2,
        remote_total: 13,
        new_count: 3,
        has_update: true,
        is_ignored: true,
    };
    assert_eq!(console_entry(&row).label, "[已忽略] 《书》(9) — 新章节：3");
    assert_eq!(terminal_entry_label(&row), "[已忽略] 《书》(9) — 新章节: 3 | 失败章节: 2");
    let out = row_from_update(row.clone());
    assert_eq!(out.folder, "9_书");
    assert_eq!(out.new_count, 3);
    let (u, n) = scan_updates(&[row.clone()], &[]);
    assert_eq!((u.len(), n.len()), (1, 0));
    assert_eq!(update_menu_choice("q", 2, 1), UpdateChoice::Quit);
    assert_eq!(update_menu_choice("2", 2, 1), UpdateChoice::Pick(1));
    assert_eq!(update_menu_choice("3", 2, 1), UpdateChoice::NoUpdates);
    assert_eq!(update_menu_choice("3", 2, 0), UpdateChoice::OutOfRange(2));
    assert_eq!(update_menu_choice("x", 2, 0), UpdateChoice::NotNumber);
    assert_eq!(select_from_list("Q", 3), ListChoice::Back);
    assert_eq!(select_from_list("1", 3), ListChoice::Pick(0));
    assert_eq!(select_from_list("4", 3), ListChoice::OutOfRange);
}

#[test]
fn geometry() {
    let area = Rect { x: 2, y: 3, width: 10, height: 5 };
    assert!(pos_in(area, 2, 3));
    assert!(!pos_in(area, 12, 3));
    assert_eq!(list_inner_area(area), Rect { x: 3, y: 4, width: 8, height: 3 });
    assert_eq!(list_index_from_mouse_row(area, 5, 4, 10), Some(5));
    assert_eq!(list_index_from_mouse_row(area, 3, 0, 10), None);
    assert_eq!(list_index_from_mouse_row(area, 7, 0, 10), None);
    assert_eq!(list_index_from_mouse_row(area, 6, 0, 2), None);
    assert_eq!(back_button_rect(Rect { x: 0, y: 0, width: 40, height: 10 }), Rect { x: 27, y: 8, width: 12, height: 1 });
    assert_eq!(back_button_rect(Rect { x: 0, y: 0, width: 2, height: 2 }), Rect { x: 1, y: 1, width: 1, height: 1 });
}

#[test]
fn selections_wrap() {
    assert_eq!(select_next(None, 0), None);
    assert_eq!(select_next(Some(2), 3), Some(0));
    assert_eq!(select_prev(Some(0), 3), Some(2));
    assert_eq!(select_prev(select_next(Some(1), 3), 3), Some(1));
    assert_eq!(select_next_result(Some(7), 3), Some(0));
    assert_eq!(select_prev_result(None, 3), Some(2));
    assert_eq!(select_prev_menu(None, 5), Some(4));
    assert_eq!(select_next_menu(Some(4), 5), Some(0));
    assert_eq!(modal_select(Some(0), 4, true), Some(3));
    assert_eq!(modal_select(None, 4, false), Some(1));
    assert_eq!(ensure_entry_selection(Some(9), Some(3)), Some(2));
    assert_eq!(ensure_entry_selection(None, Some(3)), Some(0));
    assert_eq!(ensure_entry_selection(Some(1), Some(0)), None);
    assert_eq!(cycle_focus(Focus::Menu, false), Focus::Input);
    assert_eq!(cycle_focus(Focus::Menu, true), Focus::Results);
    assert_eq!(scroll_up(3, 5), 0);
    assert_eq!(scroll_down(3, 5, 6), 6);
}

#[test]
fn bounded_buffers() {
    let mut msgs: Vec<String> = Vec::new();
    for i in 0..10 {
        push_message(&mut msgs, format!("m{i}"));
    }
    assert_eq!(msgs.len(), 8);
    assert_eq!(msgs[0], "m2");
    assert_eq!(msgs[7], "m9");
    let mut logs: Vec<String> = Vec::new();
    for i in 0..205 {
        push_log(&mut logs, &format!("l{i}\r\n"));
    }
    assert_eq!(logs.len(), 200);
    assert_eq!(logs[199], "l204");
    assert_eq!(logs[0], "l5");
    assert_eq!(truncate("abcdef", 3), "abc…");
    assert_eq!(truncate("abc", 3), "abc");
    assert_eq!(truncate("中文字", 0), "…");
}

#[test]
fn release_notes_and_wrapping() {
    let lines = lines_of("a\r\nb\n\nc\r");
    let texts: Vec<String> = lines.iter().map(|l| l.iter().collect()).collect();
    assert_eq!(texts, vec!["a", "b", "", "c\r"]);
    assert!(lines_of("").is_empty());
    assert_eq!(lines_of("x\n").len(), 1);
    assert_eq!(preview_notes("one  \n\n two\nthree", 10, 100), "one\n two\nthree");
    assert_eq!(preview_notes("1\n2\n3", 2, 100), "1\n2…");
    assert_eq!(preview_notes("abcdef", 5, 4), "abcd…");
    assert_eq!(preview_notes("中文", 5, 4), "中…");
    assert_eq!(wrapped_line_count("", 10), 1);
    assert_eq!(wrapped_line_count("aaa bbb ccc", 3), 3);
    assert_eq!(wrapped_line_count("ab\ncd", 0), 4);
    assert_eq!(wrapped_line_count("ab\ncd", 5), 2);
}

#[test]
fn home_input_and_covers() {
    assert_eq!(process_input(" OOO ", None), HomeInput::SwitchToOldCli);
    assert_eq!(process_input("", None), HomeInput::Empty);
    assert_eq!(process_input("2-3", Some(10)), HomeInput::PendingRange(Ok(Some(ChapterRange { start: 2, end: 3 }))));
    assert_eq!(process_input("x", Some(10)), HomeInput::PendingRange(Err(RangeError::StartNotNumber)));
    assert_eq!(process_input("123", None), HomeInput::Preview("123".to_string()));
    assert_eq!(process_input("书名", None), HomeInput::Search("书名".to_string()));
    let mut list = vec!["/b/cover.jpg".to_string()];
    push_cover_candidates(&mut list, "/b", "T", "T");
    assert_eq!(list, vec!["/b/cover.jpg", "/b/T.jpg", "/b/T.png", "/b/cover.png"]);
}

#[test]
fn log_lines() {
    let p = split_log_line("12:00:01  info  ui  started   the  app");
    assert_eq!(p.timestamp, "12:00:01");
    assert_eq!(p.level, "INFO");
    assert_eq!(p.target, "ui");
    assert_eq!(p.message, "started the app");
    let q = split_log_line("only");
    assert_eq!((q.level.as_str(), q.message.as_str()), ("", ""));
    assert_eq!(level_color("ERROR"), LevelColor::Red);
    assert_eq!(level_color("TRACE"), LevelColor::Gray);
    assert_eq!(level_color("info"), LevelColor::White);
}

#[test]
fn clock_readings() {
    let t = std::time::UNIX_EPOCH + std::time::Duration::from_millis(1234);
    assert_eq!(system_time_ms(t), Some(1234));
    assert!(now_ms() / 1000 >= now_secs() - 1);
    assert_ne!(TuiExit::Quit, TuiExit::SelfUpdate { auto_yes: true });
}
