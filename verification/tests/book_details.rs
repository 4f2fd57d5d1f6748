use tomato_ui::detail::{merge_detail, selection_detail_lines, upsert_result_detail, BookDetail, SearchItem};

fn empty_detail() -> BookDetail {
    BookDetail {
        description: None,
        tags: Vec::new(),
        chapter_count: None,
        finished: None,
        cover_url: None,
        detail_cover_url: None,
        word_count: None,
        score_bits: None,
        read_count: None,
        read_count_text: None,
        book_short_name: None,
        original_book_name: None,
        first_chapter_title: None,
        last_chapter_title: None,
        category: None,
        cover_primary_color: None,
    }
}

fn item(id: &str, detail: Option<BookDetail>) -> SearchItem {
    SearchItem { title: "书名".to_string(), author: "作者甲".to_string(), book_id: id.to_string(), detail }
}

#[test]
fn has_data_and_merge() {
    assert!(!empty_detail().has_data());
    let mut d = empty_detail();
    d.score_bits = Some(8.5f32.to_bits());
    assert!(d.has_data());
    let mut fresh = empty_detail();
    fresh.description = Some("新简介".to_string());
    let mut old = empty_detail();
    old.description = Some("旧简介".to_string());
    old.tags = vec!["玄幻".to_string()];
    old.chapter_count = Some(12);
    let m = merge_detail(fresh, old);
    assert_eq!(m.description, Some("新简介".to_string()));
    assert_eq!(m.tags, vec!["玄幻".to_string()]);
    assert_eq!(m.chapter_count, Some(12));
    let mut tagged = empty_detail();
    tagged.tags = vec!["都市".to_string()];
    assert_eq!(merge_detail(tagged, m).tags, vec!["都市".to_string()]);
}

#[test]
fn upsert_into_results() {
    let mut results = vec![item("1", None), item("2", None), item("2", None)];
    let mut d = empty_detail();
    d.word_count = Some(100);
    upsert_result_detail(&mut results, "2", d);
    assert!(results[0].detail.is_none());
    assert_eq!(results[1].detail.as_ref().unwrap().word_count, Some(100));
    assert!(results[2].detail.is_none());
    let mut d2 = empty_detail();
    d2.finished = Some(true);
    upsert_result_detail(&mut results, "2", d2);
    let merged = results[1].detail.as_ref().unwrap();
    assert_eq!(merged.word_count, Some(100));
    assert_eq!(merged.finished, Some(true));
    let before: Vec<String> = results.iter().map(|r| r.book_id.clone()).collect();
    upsert_result_detail(&mut results, "9", empty_detail());
    let after: Vec<String> = results.iter().map(|r| r.book_id.clone()).collect();
    assert_eq!(before, after);
}

#[test]
fn detail_lines_for_selection() {
    let lines = selection_detail_lines(&item("7", None), "", "");
    assert_eq!(lines, vec!["选中: 《书名》 | 作者: 作者甲 | ID: 7", "简介: 未加载"]);
    let lines = selection_detail_lines(&item("7", Some(empty_detail())), "", "");
    assert_eq!(lines, vec!["选中: 《书名》 | 作者: 作者甲 | ID: 7", "简介: 暂无"]);
    let mut d = empty_detail();
    d.word_count = Some(123456);
    d.score_bits = Some(9.1f32.to_bits());
    d.read_count = Some("100".to_string());
    d.read_count_text = Some("1万".to_string());
    d.category = Some("玄幻".to_string());
    d.original_book_name = Some("旧名".to_string());
    d.first_chapter_title = Some("第一章".to_string());
    d.chapter_count = Some(300);
    d.finished = Some(false);
    d.tags = vec!["a".to_string(), "b".to_string()];
    d.description = Some("x".repeat(230));
    let lines = selection_detail_lines(&item("7", Some(d)), "12.3 万字", "9.1");
    let expected_desc = format!("简介: {}…", "x".repeat(220));
    assert_eq!(
        lines,
        vec![
            "选中: 《书名》 | 作者: 作者甲 | ID: 7".to_string(),
            "字数: 12.3 万字".to_string(),
            "评分: 9.1 | 阅读: 1万 | 分类: 玄幻".to_string(),
            "原名: 旧名".to_string(),
            "首章: 第一章".to_string(),
            "章节: 300 | 状态: 连载".to_string(),
            "标签: a | b".to_string(),
            expected_desc,
        ]
    );
}
