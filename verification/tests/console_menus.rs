use tomato_ui::console::{answer_is_yes, filter_keyword, history_command, history_line, HistoryCommand};
use tomato_ui::web::DownloadHistoryRecord;

fn record(author: &str) -> DownloadHistoryRecord {
    DownloadHistoryRecord {
        timestamp: "2024-01-02 03:04".to_string(),
        book_name: "书".to_string(),
        author: author.to_string(),
        book_id: "42".to_string(),
        progress: "10/20".to_string(),
        status: "完成".to_string(),
    }
}

#[test]
fn history_menu_commands() {
    assert_eq!(history_command(""), HistoryCommand::Refresh);
    assert_eq!(history_command("  Q "), HistoryCommand::Quit);
    assert_eq!(history_command("f"), HistoryCommand::AskFilter);
    assert_eq!(history_command("C"), HistoryCommand::ClearFilter);
    assert_eq!(history_command("x"), HistoryCommand::Refresh);
    assert_eq!(filter_keyword("   "), None);
    assert_eq!(filter_keyword("  斗罗 "), Some("斗罗".to_string()));
}

#[test]
fn history_menu_lines() {
    assert_eq!(history_line(0, &record(" 张三 ")), " 1. [2024-01-02 03:04] 《书》(42) | 作者: 张三 | 10/20 | 状态: 完成");
    assert_eq!(history_line(11, &record("  ")), "12. [2024-01-02 03:04] 《书》(42) | 作者: 未知 | 10/20 | 状态: 完成");
}

#[test]
fn yes_no_answers() {
    assert!(answer_is_yes(" Y "));
    assert!(answer_is_yes("yEs"));
    assert!(!answer_is_yes("n"));
    assert!(!answer_is_yes(""));
    assert!(!answer_is_yes("yess"));
}
