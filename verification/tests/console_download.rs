use tomato_ui::cli_flow::{
    chapter_counts_line, mode_plan, resume_line, stage_line, summary_lines, BookSummary, DownloadMode, ModePlan,
};

fn plan(cancel: bool, clear_history: bool, ask_range: bool, failed_only: bool) -> ModePlan {
    ModePlan { cancel, clear_history, ask_range, failed_only }
}

#[test]
fn each_mode_has_its_steps() {
    assert_eq!(mode_plan(DownloadMode::Cancel), plan(true, false, false, false));
    assert_eq!(mode_plan(DownloadMode::Full), plan(false, true, false, false));
    assert_eq!(mode_plan(DownloadMode::RangeIgnoreHistory), plan(false, true, true, false));
    assert_eq!(mode_plan(DownloadMode::RangeOrAll), plan(false, false, true, false));
    assert_eq!(mode_plan(DownloadMode::FailedOnly), plan(false, false, false, true));
    assert_eq!(mode_plan(DownloadMode::Resume), plan(false, false, false, false));
}

#[test]
fn book_summary_before_download() {
    let full = BookSummary {
        book_id: "123".to_string(),
        name: Some("书名".to_string()),
        author: Some("作者".to_string()),
        finished: Some(true),
        chapter_count: Some(88),
        tags: vec!["玄幻".to_string(), "热血".to_string()],
        description: Some("字".repeat(60)),
    };
    let lines = summary_lines(&full);
    assert_eq!(
        lines,
        vec![
            "\n书名: 书名".to_string(),
            "作者: 作者".to_string(),
            "是否完结: 完结".to_string(),
            "章节数: 88".to_string(),
            "标签: 玄幻|热血".to_string(),
            format!("简介: {}...", "字".repeat(50)),
        ]
    );
    let bare = BookSummary {
        book_id: "123".to_string(),
        name: None,
        author: None,
        finished: Some(false),
        chapter_count: None,
        tags: Vec::new(),
        description: None,
    };
    assert_eq!(summary_lines(&bare), vec!["\n书名: 123".to_string(), "是否完结: 连载".to_string()]);
}

#[test]
fn download_report_lines() {
    assert_eq!(chapter_counts_line(100, 2, 50), "共发现 100 章，下载失败 2 章，已下载 50 章");
    assert_eq!(resume_line(30, 100), "继续下载剩余章节: 30 章 (已完成 70)");
    assert_eq!(resume_line(5, 3), "继续下载剩余章节: 5 章 (已完成 0)");
    assert_eq!(stage_line(9, 1, 0), "\n下载完成（阶段）成功: 9 章 | 失败: 1 章 | 取消: 0 章");
}
