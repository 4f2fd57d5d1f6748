use tomato_ui::detail::{BookDetail, SearchItem};
use tomato_ui::jobs::{ProgressSnapshot, SavePhase};
use tomato_ui::nav::Rect;
use tomato_ui::panels::{
    category_emphasis, entry_emphasis, Emphasis,
    about_text, config_entry_line, config_status_lines, desc_text, gauge_label, history_items, history_list_split,
    home_status_lines, info_plain_text, list_split, log_lines, max_scroll, padded_inner, prewarm_overlay_rect,
    preview_frame, preview_info, preview_modal_rect, progress_items, result_lines, scrollbar_position,
    stop_button_text, text_pane, text_scroll, update_footer_lines, update_items, update_list_title, GaugeColor,
    PreviewBook, ReleaseInfo,
};
use tomato_ui::updates::UpdateEntry;
use tomato_ui::web::DownloadHistoryRecord;

fn rect(x: u16, y: u16, width: u16, height: u16) -> Rect {
    Rect { x, y, width, height }
}

fn strings(v: &[&str]) -> Vec<String> {
    v.iter().map(|s| s.to_string()).collect()
}

fn empty_detail() -> BookDetail {
    BookDetail {
        description: None,
        tags: Vec::new(),
        chapter_count: None,
        finished: None,
        cover_url: None,
        detail_cover_url: None,
        word_count: None,
        score_bits: None,
        read_count: None,
        read_count_text: None,
        book_short_name: None,
        original_book_name: None,
        first_chapter_title: None,
        last_chapter_title: None,
        category: None,
        cover_primary_color: None,
    }
}

#[test]
fn list_gets_a_scrollbar_only_when_items_overflow() {
    let inner = rect(2, 3, 20, 4);
    let s = list_split(inner, 5);
    assert_eq!(s.list, rect(2, 3, 19, 4));
    assert_eq!(s.bar, Some(rect(21, 3, 1, 4)));
    assert_eq!(list_split(inner, 4).bar, None);
    assert_eq!(list_split(inner, 4).list, inner);
    assert_eq!(list_split(inner, 0).bar, None);
    let narrow = list_split(rect(0, 0, 1, 2), 9);
    assert_eq!(narrow.list, rect(0, 0, 1, 2));
    assert_eq!(narrow.bar, Some(rect(1, 0, 1, 2)));
    assert_eq!(list_split(rect(0, 0, 0, 2), 9).bar, None);
}

#[test]
fn history_list_needs_two_columns_for_a_scrollbar() {
    assert_eq!(history_list_split(rect(0, 0, 1, 2), 9).bar, None);
    let s = history_list_split(rect(0, 0, 10, 2), 3);
    assert_eq!(s.list, rect(0, 0, 9, 2));
    assert_eq!(s.bar, Some(rect(9, 0, 1, 2)));
    assert_eq!(history_list_split(rect(0, 0, 10, 2), 2).bar, None);
}

#[test]
fn scrollbar_position_stays_on_the_list() {
    assert_eq!(scrollbar_position(Some(10), 5), 4);
    assert_eq!(scrollbar_position(Some(2), 5), 2);
    assert_eq!(scrollbar_position(None, 5), 0);
    assert_eq!(scrollbar_position(None, 0), 0);
}

#[test]
fn text_scroll_ranges() {
    assert_eq!(max_scroll(10, 4), 6);
    assert_eq!(max_scroll(3, 4), 0);
    assert_eq!(max_scroll(100_000, 0), 65535);
    let t = text_scroll(rect(1, 1, 10, 3), 5, 6);
    assert_eq!(t.text, rect(1, 1, 9, 3));
    assert_eq!(t.bar, Some(rect(10, 1, 1, 3)));
    assert_eq!(t.total_lines, 6);
    assert_eq!(t.max_scroll, 3);
    let f = text_scroll(rect(1, 1, 10, 3), 3, 9);
    assert_eq!(f.text, rect(1, 1, 10, 3));
    assert_eq!(f.bar, None);
    assert_eq!(f.total_lines, 3);
    assert_eq!(f.max_scroll, 0);
}

#[test]
fn text_pane_wraps_at_the_pane_width() {
    let text = "one two three four five six";
    let area = rect(0, 0, 9, 2);
    let full = textwrap::wrap(text, 9).len();
    let narrow = textwrap::wrap(text, 8).len();
    assert!(full > 2);
    let t = text_pane(text, area);
    assert_eq!(t.total_lines, narrow);
    assert_eq!(t.text, rect(0, 0, 8, 2));
    assert_eq!(t.max_scroll as usize, narrow - 2);
    let short = text_pane("hi", area);
    assert_eq!(short.total_lines, 1);
    assert_eq!(short.bar, None);
}

#[test]
fn log_box_shows_the_latest_lines() {
    assert_eq!(log_lines(&[], 10), strings(&["日志: 暂无"]));
    let logs = strings(&["a", "b", "c", "d", "e"]);
    assert_eq!(log_lines(&logs, 4), strings(&["d", "e"]));
    assert_eq!(log_lines(&logs, 0), strings(&["e"]));
    assert_eq!(log_lines(&logs, 40), logs);
}

#[test]
fn home_status_pane() {
    let msgs: Vec<String> = (1..=8).map(|i| format!("m{i}")).collect();
    let lines = home_status_lines(Some(strings(&["选中"])), "就绪", &msgs);
    assert_eq!(lines, strings(&["选中", "", "就绪", "", "m3", "m4", "m5", "m6", "m7", "m8"]));
    assert_eq!(home_status_lines(None, "就绪", &[]), strings(&["就绪"]));
}

#[test]
fn result_list_lines() {
    assert_eq!(result_lines(&[]), strings(&["无搜索结果"]));
    let item = SearchItem { title: "书".to_string(), author: "甲".to_string(), book_id: "42".to_string(), detail: None };
    assert_eq!(result_lines(&[item]), strings(&["书 | 42 | 甲"]));
}

#[test]
fn update_panes() {
    assert_eq!(update_list_title(true), "无更新书籍");
    assert_eq!(update_list_title(false), "有更新书籍");
    assert_eq!(update_items(&[]), strings(&["没有可展示的项目"]));
    let e = UpdateEntry { book_id: "1".to_string(), label: "《书》 新增 3 章".to_string() };
    assert_eq!(update_items(&[e]), strings(&["《书》 新增 3 章"]));
    assert_eq!(update_footer_lines("s", 2, 0), strings(&["s", "有更新: 2 本"]));
    assert_eq!(update_footer_lines("s", 0, 5), strings(&["s", "无更新: 5 本 (按 n 查看)"]));
    assert_eq!(update_footer_lines("s", 0, 0), strings(&["s"]));
}

#[test]
fn history_list_lines() {
    assert_eq!(history_items(&[]), strings(&["暂无记录"]));
    let ok = DownloadHistoryRecord {
        timestamp: "2024-01-01".to_string(),
        book_name: "书".to_string(),
        author: String::new(),
        book_id: "7".to_string(),
        progress: "10/10".to_string(),
        status: "SUCCESS".to_string(),
    };
    let mut bad = ok.clone();
    bad.status = "failed".to_string();
    assert_eq!(
        history_items(&[ok, bad]),
        strings(&["[2024-01-01] 《书》(7) | 10/10 | 成功", "[2024-01-01] 《书》(7) | 10/10 | 失败"])
    );
}

#[test]
fn config_panes() {
    assert_eq!(
        config_status_lines("已保存", true, true),
        strings(&["已保存", "编辑中: 方向键选择 True/False，Enter 保存，Esc 取消。"])
    );
    assert_eq!(config_status_lines("", true, false)[1], "编辑中: 回车保存，Esc 取消。");
    assert_eq!(config_status_lines("", false, false)[1], "左右/Tab 切换分类，↑↓ 选择，Enter 编辑，鼠标点击或按钮返回。");
    let e = config_entry_line("最大线程", "4", true, false, "8");
    assert_eq!(e.text, "最大线程: 4");
    assert!(e.editing);
    assert_eq!(e.buffer.as_deref(), Some("8"));
    let b = config_entry_line("开关", "true", true, true, "x");
    assert_eq!(b.buffer, None);
    let idle = config_entry_line("开关", "true", false, false, "x");
    assert!(!idle.editing);
    assert_eq!(idle.buffer, None);
}

#[test]
fn about_page_text() {
    let head = "项目地址: https://github.com/zhongbai2333/Tomato-Novel-Downloader\nFork From: https://github.com/Dlmily/Tomato-Novel-Downloader-Lite\n作者: zhongbai2333\n本项目仅供学习交流使用，请勿用于商业及违法行为。\n\n当前版本: v1.2.3\n\n===== 程序更新 =====\n";
    assert_eq!(about_text("1.2.3", false, &None), format!("{head}未检查更新（点击“检查程序更新”）\n"));
    assert_eq!(
        about_text("1.2.3", true, &None),
        format!("{head}Docker 构建已禁用程序自更新，请通过重新拉取镜像进行升级。\n")
    );
    let rep = ReleaseInfo {
        current_tag: "v1.2.3".to_string(),
        latest_tag: "v1.3.0".to_string(),
        is_new_version: true,
        is_dismissed: true,
        html_url: Some("https://example.org/r".to_string()),
        body: Some("  修复问题\n".to_string()),
    };
    assert_eq!(
        about_text("1.2.3", false, &Some(rep)),
        format!(
            "{head}当前: v1.2.3\n最新: v1.3.0\n状态: 有新版本\n提示: 已设置忽略该版本提醒（仍可手动检查）\nRelease: https://example.org/r\n\n更新日志（节选）:\n修复问题\n"
        )
    );
    let plain = ReleaseInfo {
        current_tag: "v1".to_string(),
        latest_tag: "v1".to_string(),
        is_new_version: false,
        is_dismissed: false,
        html_url: Some("  ".to_string()),
        body: None,
    };
    assert_eq!(about_text("1", false, &Some(plain)).split("=====\n").nth(1), Some("当前: v1\n最新: v1\n状态: 已是最新版本\n"));
}

#[test]
fn preview_frame_layout() {
    let f = preview_frame(rect(0, 0, 80, 30), false, true);
    assert_eq!(f.log, rect(0, 0, 80, 23));
    assert_eq!(f.desc, Some(rect(0, 0, 80, 5)));
    assert_eq!(f.log_rest, rect(0, 5, 80, 18));
    assert_eq!(f.progress, rect(0, 23, 80, 7));
    let modal = preview_frame(rect(0, 0, 80, 30), true, true);
    assert_eq!(modal.desc, None);
    assert_eq!(modal.log_rest, modal.log);
    let small = preview_frame(rect(0, 0, 80, 10), false, true);
    assert_eq!(small.log, rect(0, 0, 80, 3));
    assert_eq!(small.desc, None);
    assert_eq!(small.progress, rect(0, 3, 80, 7));
    let tiny = preview_frame(rect(0, 0, 80, 4), false, false);
    assert_eq!(tiny.log, rect(0, 0, 80, 1));
    assert_eq!(tiny.progress, rect(0, 1, 80, 3));
}

#[test]
fn preview_modal_and_boxes() {
    assert_eq!(preview_modal_rect(rect(0, 0, 120, 40), 33), rect(20, 7, 80, 18));
    assert_eq!(preview_modal_rect(rect(0, 0, 30, 10), 3), rect(0, 0, 30, 10));
    assert_eq!(padded_inner(rect(5, 5, 10, 4)), rect(6, 6, 8, 2));
    assert_eq!(padded_inner(rect(5, 5, 1, 1)), rect(6, 6, 1, 1));
    assert_eq!(prewarm_overlay_rect(rect(0, 0, 100, 40)), rect(71, 0, 28, 5));
    assert_eq!(prewarm_overlay_rect(rect(0, 0, 20, 3)), rect(0, 0, 20, 3));
}

#[test]
fn progress_gauges() {
    let snap = ProgressSnapshot {
        group_done: 1,
        group_total: 0,
        saved_chapters: 3,
        chapter_total: 9,
        save_phase: SavePhase::Audiobook,
        comment_fetch: 2,
        comment_total: 4,
        comment_saved: 1,
    };
    let items = progress_items(&snap, true);
    assert_eq!(items.len(), 4);
    assert_eq!(gauge_label(&items[0]), "组下载 1/1");
    assert_eq!(gauge_label(&items[1]), "有声书 3/9");
    assert_eq!(items[1].color, GaugeColor::Green);
    assert_eq!(gauge_label(&items[2]), "段评抓取 2/4");
    assert_eq!(gauge_label(&items[3]), "段评保存 1/4");
    let text = ProgressSnapshot { save_phase: SavePhase::TextSave, ..snap };
    let two = progress_items(&text, false);
    assert_eq!(two.len(), 2);
    assert_eq!(two[1].label, "正文保存");
    assert_eq!(stop_button_text(true), "[ 停止下载 ] (S/点击)");
    assert_eq!(stop_button_text(false), "");
}

#[test]
fn preview_description_and_info() {
    assert_eq!(desc_text(&Some("  简介内容 ".to_string())), "简介内容");
    assert_eq!(desc_text(&Some("   ".to_string())), "暂无简介");
    assert_eq!(desc_text(&None), "暂无简介");

    let none = preview_info(&None, "", "");
    assert_eq!(none.title, "《预览》");
    assert_eq!(none.rows, strings(&["章节: 0 (已下载 0)", "简介: 暂无"]));

    let mut d = empty_detail();
    d.original_book_name = Some("原名".to_string());
    d.finished = Some(false);
    d.description = Some(" 故事 ".to_string());
    d.score_bits = Some(9.1f32.to_bits());
    d.word_count = Some(120000);
    d.read_count = Some("10万".to_string());
    d.category = Some("玄幻".to_string());
    d.tags = strings(&["热血", "系统"]);
    d.first_chapter_title = Some("第一章".to_string());
    let book = PreviewBook {
        name: Some("书名".to_string()),
        author: Some("作者".to_string()),
        chapter_total: 100,
        downloaded: 40,
        detail: d,
    };
    let info = preview_info(&Some(book), "9.1", "12.0 万字");
    assert_eq!(info.title, "《书名》 (原名)");
    assert_eq!(
        info.rows,
        strings(&[
            "章节: 100 (已下载 40) | 状态: 连载 | 作者: 作者",
            "简介: 故事",
            "评分: 9.1 | 字数: 12.0 万字 | 阅读: 10万",
            "类别: 玄幻 | 标签: 热血 | 系统",
            "首章: 第一章",
        ])
    );
    assert_eq!(
        info_plain_text(&info),
        "《书名》 (原名)\n章节: 100 (已下载 40) | 状态: 连载 | 作者: 作者\n简介: 故事\n评分: 9.1 | 字数: 12.0 万字 | 阅读: 10万\n类别: 玄幻 | 标签: 热血 | 系统\n首章: 第一章"
    );

    let bare = PreviewBook { name: None, author: Some(String::new()), chapter_total: 3, downloaded: 0, detail: empty_detail() };
    let b = preview_info(&Some(bare), "", "");
    assert_eq!(b.title, "《预览》");
    assert_eq!(b.rows, strings(&["章节: 3 (已下载 0)", "简介: 暂无"]));
}

#[test]
fn settings_list_emphasis() {
    assert_eq!(category_emphasis(1, Some(1), None, true), Emphasis::CyanBold);
    assert_eq!(category_emphasis(1, Some(1), Some(1), false), Emphasis::Cyan);
    assert_eq!(category_emphasis(2, Some(1), Some(2), true), Emphasis::Cyan);
    assert_eq!(category_emphasis(3, Some(1), Some(2), true), Emphasis::Plain);
    assert_eq!(category_emphasis(0, None, None, true), Emphasis::Plain);
    assert_eq!(entry_emphasis(true), Emphasis::CyanBold);
    assert_eq!(entry_emphasis(false), Emphasis::Cyan);
}
