use tomato_ui::config::Config;
use tomato_ui::config_screen::{
    finish_edit, handle_config_key, handle_config_mouse, start_cfg_edit, BufferOp, ConfigFocus, ConfigKey, ConfigLayout,
    ConfigScreen, ConfigStatus, EntryPos,
};
use tomato_ui::nav::{MouseAction, Rect};
use tomato_ui::tui_config::{
    apply_cfg_edit, audiobook_voice_presets, bool_choice_index, book_name_field_presets, book_name_field_to_chinese,
    build_config_categories, cfg_combo_presets, cfg_field_current_bool, cfg_field_is_bool, cfg_field_is_combo,
    chinese_to_book_name_field, current_cfg_value, parse_bool, parse_string_list, preset_position, saved_status,
    CfgEdit, CfgInputError, CfgRejection, ConfigField,
};

fn sample_config() -> Config {
    Config {
        save_path: "/books".to_string(),
        novel_format: "epub".to_string(),
        bulk_files: false,
        graceful_exit: true,
        auto_clear_dump: true,
        auto_open_downloaded_files: false,
        allow_overwrite_files: false,
        preferred_book_name_field: "book_name".to_string(),
        old_cli: false,
        enable_segment_comments: false,
        use_official_api: true,
        api_endpoints: vec!["http://a".to_string(), "http://b".to_string()],
        max_workers: 4,
        request_timeout: 15,
        max_retries: 3,
        min_wait_time: 100,
        max_wait_time: 500,
        force_exit_timeout: 5,
        enable_audiobook: false,
        audiobook_voice: "zh-CN-XiaoxiaoNeural".to_string(),
        audiobook_rate: "+0%".to_string(),
        audiobook_volume: "+0%".to_string(),
        audiobook_pitch: "".to_string(),
        audiobook_format: "mp3".to_string(),
        audiobook_concurrency: 2,
        audiobook_tts_provider: "edge".to_string(),
        audiobook_tts_api_url: "".to_string(),
        audiobook_tts_api_token: "".to_string(),
        audiobook_tts_model: "".to_string(),
        segment_comments_top_n: 10,
        segment_comments_workers: 4,
        download_comment_images: true,
        download_comment_avatars: false,
        media_download_workers: 4,
        blocked_media_domains: vec![],
        force_convert_images_to_jpeg: false,
        jpeg_retry_convert: true,
        jpeg_quality: 85,
        convert_heic_to_jpeg: true,
        keep_heic_original: false,
        media_limit_per_chapter: 0,
        media_max_dimension_px: 0,
        media_total_limit_mb: 0,
    }
}

#[test]
fn categories_and_entries() {
    let cats = build_config_categories();
    let titles: Vec<&str> = cats.iter().map(|c| c.title).collect();
    assert_eq!(titles, vec!["基础与格式", "网络与调度", "API", "段评", "媒体下载", "有声书"]);
    let counts: Vec<usize> = cats.iter().map(|c| c.entries.len()).collect();
    assert_eq!(counts, vec![9, 6, 2, 3, 11, 11]);
    assert_eq!(cats[0].entries[2].title, "首行缩进(em)");
    assert_eq!(cats[0].entries[2].field, ConfigField::FirstLineIndentEm);
    assert_eq!(cats[5].entries[10].field, ConfigField::AudiobookConcurrency);
}

#[test]
fn presets() {
    let voices = audiobook_voice_presets();
    assert_eq!(voices.len(), 12);
    assert_eq!(voices[0].name, "zh-CN-XiaoxiaoNeural");
    assert_eq!(voices[11].label, "zh-TW-HsiaoChenNeural (女)");
    let names = book_name_field_presets();
    assert_eq!(names.len(), 4);
    assert_eq!(names[3].name, "ask_after_download");
    assert!(cfg_field_is_combo(ConfigField::AudiobookVoice));
    assert!(!cfg_field_is_combo(ConfigField::SavePath));
    assert_eq!(cfg_combo_presets(ConfigField::PreferredBookNameField).map(|v| v.len()), Some(4));
    assert!(cfg_combo_presets(ConfigField::MaxWorkers).is_none());
    assert_eq!(preset_position(&voices, "ZH-CN-YUNXINEURAL"), 3);
    assert_eq!(preset_position(&voices, "unknown"), 0);
}

#[test]
fn switch_words_and_lists() {
    assert_eq!(parse_bool("On"), Some(true));
    assert_eq!(parse_bool("OFF"), Some(false));
    assert_eq!(parse_bool("n"), Some(false));
    assert_eq!(parse_bool("maybe"), None);
    assert_eq!(parse_string_list("a; b,,\n c "), vec!["a".to_string(), "b".to_string(), "c".to_string()]);
    assert!(parse_string_list(" ; , ").is_empty());
    let items = parse_string_list(" a, b;;c\n d ,");
    assert_eq!(items, vec!["a".to_string(), "b".to_string(), "c".to_string(), "d".to_string()]);
    assert_eq!(parse_string_list(&items.join(",")), items);
}

#[test]
fn book_name_labels() {
    assert_eq!(book_name_field_to_chinese("original_book_name"), "原始书名");
    assert_eq!(book_name_field_to_chinese("whatever"), "默认书名");
    assert_eq!(chinese_to_book_name_field("短书名"), Some("book_short_name".to_string()));
    assert_eq!(chinese_to_book_name_field("书名"), None);
    for f in ["book_name", "original_book_name", "book_short_name", "ask_after_download"] {
        assert_eq!(chinese_to_book_name_field(book_name_field_to_chinese(f)), Some(f.to_string()));
    }
}

#[test]
fn shown_values() {
    let cfg = sample_config();
    assert_eq!(current_cfg_value(&cfg, ConfigField::PreferredBookNameField), Some("默认书名".to_string()));
    assert_eq!(current_cfg_value(&cfg, ConfigField::JpegQuality), Some("85".to_string()));
    assert_eq!(current_cfg_value(&cfg, ConfigField::MinConnectTimeout), None);
    assert!(cfg_field_is_bool(ConfigField::KeepHeicOriginal));
    assert!(!cfg_field_is_bool(ConfigField::MaxWorkers));
    assert_eq!(cfg_field_current_bool(&cfg, ConfigField::JpegRetryConvert), Some(true));
    assert_eq!(cfg_field_current_bool(&cfg, ConfigField::SavePath), None);
    assert_eq!(bool_choice_index(Some(false)), 1);
    assert_eq!(bool_choice_index(None), 0);
}

#[test]
fn screen_edits() {
    let mut cfg = sample_config();
    assert_eq!(apply_cfg_edit(&mut cfg, ConfigField::MaxWorkers, " 0 "), Ok(CfgEdit::Rejected(CfgRejection::MaxWorkers)));
    assert_eq!(apply_cfg_edit(&mut cfg, ConfigField::MaxWorkers, "x"), Err(CfgInputError::PositiveInt));
    assert_eq!(apply_cfg_edit(&mut cfg, ConfigField::MaxWorkers, " 12 "), Ok(CfgEdit::Saved));
    assert_eq!(cfg.max_workers, 12);
    assert_eq!(apply_cfg_edit(&mut cfg, ConfigField::RequestTimeout, "-1"), Err(CfgInputError::Seconds));
    assert_eq!(apply_cfg_edit(&mut cfg, ConfigField::MinWait, "600"), Ok(CfgEdit::Rejected(CfgRejection::MinWaitAboveMax)));
    assert_eq!(apply_cfg_edit(&mut cfg, ConfigField::MaxWait, "1"), Ok(CfgEdit::Rejected(CfgRejection::MaxWaitBelowMin)));
    assert_eq!(apply_cfg_edit(&mut cfg, ConfigField::MinWait, "abc"), Err(CfgInputError::Millis));
    assert_eq!(apply_cfg_edit(&mut cfg, ConfigField::JpegQuality, "256"), Err(CfgInputError::Percent));
    assert_eq!(apply_cfg_edit(&mut cfg, ConfigField::JpegQuality, "101"), Ok(CfgEdit::Rejected(CfgRejection::JpegQuality)));
    assert_eq!(apply_cfg_edit(&mut cfg, ConfigField::MaxRetries, "q"), Err(CfgInputError::Integer));
    assert_eq!(apply_cfg_edit(&mut cfg, ConfigField::OldCli, "yes"), Ok(CfgEdit::Saved));
    assert!(cfg.old_cli);
    assert_eq!(apply_cfg_edit(&mut cfg, ConfigField::OldCli, "sure"), Err(CfgInputError::TrueFalse));
    assert_eq!(apply_cfg_edit(&mut cfg, ConfigField::NovelFormat, "doc"), Ok(CfgEdit::Rejected(CfgRejection::NovelFormat)));
    assert_eq!(apply_cfg_edit(&mut cfg, ConfigField::AudiobookFormat, "ogg"), Ok(CfgEdit::Rejected(CfgRejection::AudiobookFormat)));
    assert_eq!(apply_cfg_edit(&mut cfg, ConfigField::PreferredBookNameField, "原始书名"), Ok(CfgEdit::Saved));
    assert_eq!(cfg.preferred_book_name_field, "original_book_name");
    assert_eq!(apply_cfg_edit(&mut cfg, ConfigField::PreferredBookNameField, " Book_Short_Name "), Ok(CfgEdit::Saved));
    assert_eq!(cfg.preferred_book_name_field, "book_short_name");
    assert_eq!(apply_cfg_edit(&mut cfg, ConfigField::PreferredBookNameField, "x"), Ok(CfgEdit::Rejected(CfgRejection::BookNameField)));
    assert_eq!(apply_cfg_edit(&mut cfg, ConfigField::ApiEndpoints, "u1;u2"), Ok(CfgEdit::Saved));
    assert_eq!(cfg.api_endpoints, vec!["u1".to_string(), "u2".to_string()]);
    assert_eq!(apply_cfg_edit(&mut cfg, ConfigField::FirstLineIndentEm, "2"), Ok(CfgEdit::FloatValue));
    assert_eq!(apply_cfg_edit(&mut cfg, ConfigField::SavePath, "  /x  "), Ok(CfgEdit::Saved));
    assert_eq!(cfg.save_path, "/x");
    assert_eq!(CfgRejection::JpegQuality.message(), "JPEG 质量需在 0-100 之间");
    assert_eq!(CfgInputError::Percent.message(), "请输入 0-100 之间的整数");
}

#[test]
fn segment_comments_follow_the_format() {
    let mut cfg = sample_config();
    cfg.novel_format = "txt".to_string();
    assert_eq!(
        apply_cfg_edit(&mut cfg, ConfigField::EnableSegmentComments, "true"),
        Ok(CfgEdit::Rejected(CfgRejection::SegmentCommentsNeedEpub))
    );
    assert!(!cfg.enable_segment_comments);
    cfg.novel_format = "EPUB".to_string();
    assert_eq!(apply_cfg_edit(&mut cfg, ConfigField::EnableSegmentComments, "true"), Ok(CfgEdit::Saved));
    assert!(cfg.enable_segment_comments);
    assert_eq!(apply_cfg_edit(&mut cfg, ConfigField::NovelFormat, "Txt"), Ok(CfgEdit::SavedSegmentCommentsOff));
    assert_eq!(cfg.novel_format, "txt");
    assert!(!cfg.enable_segment_comments);
    assert_eq!(saved_status("小说格式(txt/epub)", true), "已保存: 小说格式(txt/epub)（已关闭段评以兼容 txt）");
    assert_eq!(saved_status("保存路径", false), "已保存: 保存路径");
}

#[test]
fn saving_a_shown_number_changes_nothing() {
    let mut cfg = sample_config();
    let before = cfg.clone();
    let shown = current_cfg_value(&cfg, ConfigField::MaxWait).unwrap();
    assert_eq!(apply_cfg_edit(&mut cfg, ConfigField::MaxWait, &shown), Ok(CfgEdit::Saved));
    assert_eq!(cfg.max_wait_time, before.max_wait_time);
    let shown = current_cfg_value(&cfg, ConfigField::BulkFiles).unwrap();
    assert_eq!(apply_cfg_edit(&mut cfg, ConfigField::BulkFiles, &shown), Ok(CfgEdit::Saved));
    assert_eq!(cfg.bulk_files, before.bulk_files);
}

fn idle_screen() -> ConfigScreen {
    ConfigScreen {
        focus: ConfigFocus::Category,
        cat: Some(0),
        entry: Some(0),
        editing: None,
        bool_choice: Some(0),
        button_selected: false,
        confirm_open: false,
        confirm_ctx: None,
        confirm_choice: None,
        cat_hover: None,
    }
}

#[test]
fn browsing_keys() {
    let cats = build_config_categories();
    let s = idle_screen();
    let (s1, fx) = handle_config_key(s, &cats, ConfigKey::Left, false);
    assert_eq!(s1.cat, Some(5));
    assert_eq!(s1.entry, Some(0));
    assert_eq!(fx.status, Some(ConfigStatus::CurrentCategory));
    let (s2, _) = handle_config_key(s1, &cats, ConfigKey::Right, false);
    assert_eq!(s2.cat, Some(0));
    let (s3, _) = handle_config_key(s2, &cats, ConfigKey::Tab, false);
    assert_eq!(s3.focus, ConfigFocus::Entry);
    let (s4, _) = handle_config_key(s3, &cats, ConfigKey::Up, false);
    assert_eq!(s4.entry, Some(8));
    let (_, fx) = handle_config_key(s4, &cats, ConfigKey::Enter, false);
    assert!(fx.start_edit);
    let (_, fx) = handle_config_key(s4, &cats, ConfigKey::Char('b'), false);
    assert!(fx.go_home);
    assert_eq!(fx.status, Some(ConfigStatus::BackToMenu));
    assert_eq!(ConfigStatus::BackToMenu.message(), "返回主菜单");
}

#[test]
fn editing_and_confirmation_keys() {
    let cats = build_config_categories();
    let cfg = sample_config();
    let mut s = idle_screen();
    s.focus = ConfigFocus::Entry;
    s.cat = Some(3);
    s.entry = Some(0);
    let start = start_cfg_edit(s, &cats, &cfg).unwrap();
    assert_eq!(start.screen.editing, Some(EntryPos { cat: 3, entry: 0 }));
    assert_eq!(start.buffer, Some("false".to_string()));
    assert_eq!(start.screen.bool_choice, Some(1));
    assert_eq!(start.status, "正在编辑 [段评]: 启用段评");
    let (s1, _) = handle_config_key(start.screen, &cats, ConfigKey::Up, false);
    assert_eq!(s1.bool_choice, Some(0));
    let (s2, fx) = handle_config_key(s1, &cats, ConfigKey::Enter, false);
    assert!(s2.confirm_open);
    assert_eq!(fx.buffer, BufferOp::SetBool(true));
    assert_eq!(fx.status, Some(ConfigStatus::ConfirmSegmentComments));
    let (s3, _) = handle_config_key(s2, &cats, ConfigKey::Tab, false);
    assert_eq!(s3.confirm_choice, Some(0));
    let (s4, fx) = handle_config_key(s3, &cats, ConfigKey::Enter, false);
    assert!(!s4.confirm_open);
    assert_eq!(s4.editing, None);
    assert_eq!(fx.apply, Some(EntryPos { cat: 3, entry: 0 }));
    assert!(fx.confirmed);
    assert_eq!(fx.status, Some(ConfigStatus::SegmentCommentsEnabled));
    let mut t = idle_screen();
    t.editing = Some(EntryPos { cat: 0, entry: 0 });
    let (_, fx) = handle_config_key(t, &cats, ConfigKey::Char('x'), false);
    assert_eq!(fx.buffer, BufferOp::Push('x'));
    let (_, fx) = handle_config_key(t, &cats, ConfigKey::Backspace, false);
    assert_eq!(fx.buffer, BufferOp::Pop);
    let (t2, fx) = handle_config_key(t, &cats, ConfigKey::Esc, false);
    assert_eq!(t2.editing, None);
    assert_eq!(fx.status, Some(ConfigStatus::EditCancelled));
    assert_eq!(finish_edit(t).editing, None);
    let mut none = idle_screen();
    none.entry = None;
    assert!(start_cfg_edit(none, &cats, &cfg).is_none());
}

fn sample_layout() -> ConfigLayout {
    ConfigLayout {
        categories: Rect { x: 0, y: 2, width: 20, height: 10 },
        entries: Rect { x: 20, y: 2, width: 40, height: 12 },
        button: Some(Rect { x: 0, y: 20, width: 10, height: 1 }),
        bool_area: Some(Rect { x: 30, y: 5, width: 10, height: 4 }),
        confirm_options: Some(Rect { x: 30, y: 10, width: 10, height: 4 }),
        cat_offset: 0,
        entry_offset: 0,
    }
}

#[test]
fn mouse_on_lists_and_button() {
    let cats = build_config_categories();
    let l = sample_layout();
    let s = idle_screen();
    // Wheel down over the categories: next category, entry kept in range.
    let (s1, fx) = handle_config_mouse(s, &cats, l, MouseAction::ScrollDown, 5, 5, false);
    assert_eq!(s1.cat, Some(1));
    assert_eq!(s1.focus, ConfigFocus::Category);
    assert_eq!(fx.apply, None);
    // Wheel up at the first category stays there.
    let (s2, _) = handle_config_mouse(s, &cats, l, MouseAction::ScrollUp, 5, 5, false);
    assert_eq!(s2.cat, Some(0));
    // Wheel down over the entries stops at the last entry.
    let mut last = idle_screen();
    last.entry = Some(8);
    let (s3, _) = handle_config_mouse(last, &cats, l, MouseAction::ScrollDown, 25, 5, false);
    assert_eq!(s3.entry, Some(8));
    assert_eq!(s3.focus, ConfigFocus::Entry);
    // A click on the third category row (inside starts at row 3).
    let (s4, _) = handle_config_mouse(s, &cats, l, MouseAction::LeftDown, 5, 5, false);
    assert_eq!(s4.cat, Some(2));
    assert_eq!(s4.cat_hover, Some(2));
    // Hovering over the categories only changes the hover.
    let (s5, fx) = handle_config_mouse(s, &cats, l, MouseAction::Moved, 5, 4, false);
    assert_eq!(s5.cat, Some(0));
    assert_eq!(s5.cat_hover, Some(1));
    assert!(!fx.go_home);
    // The back button.
    let (s6, fx) = handle_config_mouse(s, &cats, l, MouseAction::LeftDown, 3, 20, false);
    assert!(s6.button_selected);
    assert!(fx.go_home);
    assert_eq!(fx.status, Some(ConfigStatus::BackToMenu));
    // A click on an entry starts editing it.
    let (s7, fx) = handle_config_mouse(s, &cats, l, MouseAction::LeftDown, 25, 4, false);
    assert_eq!(s7.entry, Some(1));
    assert!(fx.start_edit);
    // Moving away from the categories and the button clears both highlights.
    let mut hovered = s6;
    hovered.cat_hover = Some(3);
    let (s8, _) = handle_config_mouse(hovered, &cats, l, MouseAction::Moved, 70, 30, false);
    assert_eq!(s8.cat_hover, None);
    assert!(!s8.button_selected);
}

#[test]
fn mouse_on_switch_and_confirmation() {
    let cats = build_config_categories();
    let l = sample_layout();
    let mut s = idle_screen();
    s.cat = Some(3);
    s.editing = Some(EntryPos { cat: 3, entry: 0 });
    s.bool_choice = Some(1);
    // The wheel over the true/false list flips the choice.
    let (s1, fx) = handle_config_mouse(s, &cats, l, MouseAction::ScrollUp, 31, 6, false);
    assert_eq!(s1.bool_choice, Some(0));
    assert_eq!(fx.buffer, BufferOp::SetBool(true));
    // Clicking "true" on segment comments asks first.
    let (s2, fx) = handle_config_mouse(s, &cats, l, MouseAction::LeftDown, 31, 6, false);
    assert!(s2.confirm_open);
    assert_eq!(s2.confirm_ctx, Some(EntryPos { cat: 3, entry: 0 }));
    assert_eq!(fx.status, Some(ConfigStatus::ConfirmSegmentComments));
    assert_eq!(fx.apply, None);
    // Once on, "true" is saved at once; "false" always is.
    let (_, fx) = handle_config_mouse(s, &cats, l, MouseAction::LeftDown, 31, 6, true);
    assert_eq!(fx.apply, Some(EntryPos { cat: 3, entry: 0 }));
    let (s3, fx) = handle_config_mouse(s, &cats, l, MouseAction::LeftDown, 31, 7, false);
    assert_eq!(s3.bool_choice, Some(1));
    assert_eq!(fx.buffer, BufferOp::SetBool(false));
    assert_eq!(fx.apply, Some(EntryPos { cat: 3, entry: 0 }));
    // Below the two choices nothing happens.
    let (s4, fx) = handle_config_mouse(s, &cats, l, MouseAction::LeftDown, 31, 8, false);
    assert_eq!(s4, s);
    assert_eq!(fx.apply, None);
    // While editing, clicks elsewhere are ignored.
    let (s5, _) = handle_config_mouse(s, &cats, l, MouseAction::LeftDown, 5, 5, false);
    assert_eq!(s5, s);
    // In the confirmation, hovering highlights and clicking chooses.
    let (c1, _) = handle_config_mouse(s2, &cats, l, MouseAction::Moved, 31, 11, false);
    assert_eq!(c1.confirm_choice, Some(0));
    let (c2, fx) = handle_config_mouse(s2, &cats, l, MouseAction::LeftDown, 31, 11, false);
    assert!(!c2.confirm_open);
    assert_eq!(c2.editing, None);
    assert!(fx.confirmed);
    assert_eq!(fx.apply, Some(EntryPos { cat: 3, entry: 0 }));
    let (c3, fx) = handle_config_mouse(s2, &cats, l, MouseAction::LeftDown, 31, 12, false);
    assert!(!c3.confirm_open);
    assert_eq!(fx.apply, None);
    assert_eq!(fx.status, Some(ConfigStatus::SegmentCommentsCancelled));
}

#[test]
fn initial_settings_screen() {
    let s = ConfigScreen::initial();
    assert_eq!(s.focus, ConfigFocus::Entry);
    assert_eq!((s.cat, s.entry), (Some(0), Some(0)));
    assert_eq!(s.confirm_choice, Some(1));
    assert!(!s.confirm_open);
    assert_eq!(s.editing, None);
}
