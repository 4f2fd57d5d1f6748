use tomato_ui::cli_config::{
    apply_config_edit, config_value_display, option_at, option_label, parse_cli_bool, parse_menu_choice,
    save_path_to_create, set_bool, set_int, set_list, set_string, CliEdit, CliEditError, CliNote, ConfigField,
    ConfigValueType, MenuChoice, OPTION_COUNT,
};
use tomato_ui::config::{apply_web_patch, normalize_config, validate_config, Config, ConfigError, WebConfigPatch};

fn sample_config() -> Config {
    Config {
        save_path: "/books".to_string(),
        novel_format: "epub".to_string(),
        bulk_files: false,
        graceful_exit: true,
        auto_clear_dump: true,
        auto_open_downloaded_files: false,
        allow_overwrite_files: false,
        preferred_book_name_field: "book_name".to_string(),
        old_cli: false,
        enable_segment_comments: false,
        use_official_api: true,
        api_endpoints: vec!["http://a".to_string(), "http://b".to_string()],
        max_workers: 4,
        request_timeout: 15,
        max_retries: 3,
        min_wait_time: 100,
        max_wait_time: 500,
        force_exit_timeout: 5,
        enable_audiobook: false,
        audiobook_voice: "zh-CN-XiaoxiaoNeural".to_string(),
        audiobook_rate: "+0%".to_string(),
        audiobook_volume: "+0%".to_string(),
        audiobook_pitch: "".to_string(),
        audiobook_format: "mp3".to_string(),
        audiobook_concurrency: 2,
        audiobook_tts_provider: "edge".to_string(),
        audiobook_tts_api_url: "".to_string(),
        audiobook_tts_api_token: "".to_string(),
        audiobook_tts_model: "".to_string(),
        segment_comments_top_n: 10,
        segment_comments_workers: 4,
        download_comment_images: true,
        download_comment_avatars: false,
        media_download_workers: 4,
        blocked_media_domains: vec![],
        force_convert_images_to_jpeg: false,
        jpeg_retry_convert: true,
        jpeg_quality: 85,
        convert_heic_to_jpeg: true,
        keep_heic_original: false,
        media_limit_per_chapter: 0,
        media_max_dimension_px: 0,
        media_total_limit_mb: 0,
    }
}

#[test]
fn menu_has_thirty_eight_lines_in_order() {
    assert_eq!(OPTION_COUNT, 38);
    let first = option_at(0);
    assert_eq!(first.name, "保存路径");
    assert_eq!(first.field, ConfigField::SavePath);
    assert_eq!(first.ty, ConfigValueType::String);
    let float = option_at(17);
    assert_eq!(float.field, ConfigField::MinConnectTimeout);
    assert_eq!(float.ty, ConfigValueType::Float);
    let last = option_at(37);
    assert_eq!(last.name, "是否使用老版本命令行界面(需重启)");
    assert_eq!(last.ty, ConfigValueType::Bool);
}

#[test]
fn segment_comment_label_marks_txt_format() {
    let mut cfg = sample_config();
    let opt = option_at(21);
    assert_eq!(option_label(&opt, &cfg), "是否下载段评");
    cfg.novel_format = "TXT".to_string();
    assert_eq!(option_label(&opt, &cfg), "是否下载段评（TXT 不支持）");
}

#[test]
fn values_are_displayed_as_text() {
    let cfg = sample_config();
    assert_eq!(config_value_display(&cfg, ConfigField::MaxWorkers), Some("4".to_string()));
    assert_eq!(config_value_display(&cfg, ConfigField::GracefulExit), Some("true".to_string()));
    assert_eq!(config_value_display(&cfg, ConfigField::ApiEndpoints), Some("http://a,http://b".to_string()));
    assert_eq!(config_value_display(&cfg, ConfigField::BlockedMediaDomains), Some("".to_string()));
    assert_eq!(config_value_display(&cfg, ConfigField::MinConnectTimeout), None);
}

#[test]
fn console_bool_words() {
    assert!(parse_cli_bool("YES"));
    assert!(parse_cli_bool("y"));
    assert!(parse_cli_bool("1"));
    assert!(!parse_cli_bool("on"));
    assert!(!parse_cli_bool("no"));
}

#[test]
fn enabling_segment_comments_switches_txt_to_epub() {
    let mut cfg = sample_config();
    cfg.novel_format = "txt".to_string();
    let r = set_bool(&mut cfg, ConfigField::EnableSegmentComments, true);
    assert_eq!(r, Ok(Some(CliNote::SwitchedToEpub)));
    assert_eq!(cfg.novel_format, "epub");
    assert!(cfg.enable_segment_comments);
    assert_eq!(CliNote::SwitchedToEpub.message(), "已自动将保存格式切换为 EPUB 以启用段评功能。");
}

#[test]
fn bool_setter_refuses_other_fields() {
    let mut cfg = sample_config();
    assert_eq!(set_bool(&mut cfg, ConfigField::MaxWorkers, true), Err(CliEditError::NotBool));
    assert_eq!(CliEditError::NotBool.message(), "该字段不是 bool");
}

#[test]
fn integer_rules() {
    let mut cfg = sample_config();
    assert_eq!(set_int(&mut cfg, ConfigField::MaxWorkers, 0), Err(CliEditError::MaxWorkers));
    assert_eq!(cfg.max_workers, 4);
    assert_eq!(set_int(&mut cfg, ConfigField::MaxWorkers, 16), Ok(()));
    assert_eq!(cfg.max_workers, 16);
    assert_eq!(set_int(&mut cfg, ConfigField::MinWaitTime, 600), Err(CliEditError::MinWaitAboveMax));
    assert_eq!(set_int(&mut cfg, ConfigField::MaxWaitTime, 50), Err(CliEditError::MaxWaitBelowMin));
    assert_eq!(set_int(&mut cfg, ConfigField::MaxRetries, -1), Err(CliEditError::MaxRetries));
    assert_eq!(set_int(&mut cfg, ConfigField::JpegQuality, 101), Err(CliEditError::JpegQuality));
    assert_eq!(set_int(&mut cfg, ConfigField::JpegQuality, 100), Ok(()));
    assert_eq!(cfg.jpeg_quality, 100);
    assert_eq!(set_int(&mut cfg, ConfigField::SavePath, 1), Err(CliEditError::NotInt));
    assert_eq!(CliEditError::MinWaitAboveMax.message(), "最小等待时间不能超过最大等待时间");
}

#[test]
fn text_rules() {
    let mut cfg = sample_config();
    assert_eq!(set_string(&mut cfg, ConfigField::SavePath, "   "), Err(CliEditError::EmptySavePath));
    assert_eq!(set_string(&mut cfg, ConfigField::SavePath, "  /tmp/out  "), Ok(None));
    assert_eq!(cfg.save_path, "/tmp/out");
    assert_eq!(set_string(&mut cfg, ConfigField::NovelFormat, "pdf"), Err(CliEditError::NovelFormat));
    cfg.enable_segment_comments = true;
    assert_eq!(set_string(&mut cfg, ConfigField::NovelFormat, " TXT "), Ok(Some(CliNote::SegmentCommentsOff)));
    assert_eq!(cfg.novel_format, "txt");
    assert!(!cfg.enable_segment_comments);
    assert_eq!(set_string(&mut cfg, ConfigField::AudiobookFormat, "WAV"), Ok(None));
    assert_eq!(cfg.audiobook_format, "wav");
    assert_eq!(set_string(&mut cfg, ConfigField::AudiobookPitch, " +2Hz "), Ok(None));
    assert_eq!(cfg.audiobook_pitch, " +2Hz ");
    assert_eq!(set_string(&mut cfg, ConfigField::MaxWorkers, "1"), Err(CliEditError::NotString));
}

#[test]
fn list_setter() {
    let mut cfg = sample_config();
    assert_eq!(set_list(&mut cfg, ConfigField::BlockedMediaDomains, vec!["x.com".to_string()]), Ok(()));
    assert_eq!(cfg.blocked_media_domains, vec!["x.com".to_string()]);
    assert_eq!(set_list(&mut cfg, ConfigField::SavePath, vec![]), Err(CliEditError::NotList));
}

#[test]
fn typed_values_by_option() {
    let mut cfg = sample_config();
    let workers = option_at(12);
    assert_eq!(apply_config_edit(&mut cfg, workers, "abc"), Err(CliEditError::IntParse));
    assert_eq!(apply_config_edit(&mut cfg, workers, "+8"), Ok(CliEdit::Applied));
    assert_eq!(cfg.max_workers, 8);
    let list = option_at(20);
    assert_eq!(apply_config_edit(&mut cfg, list, " a , ,b\nc "), Ok(CliEdit::Applied));
    assert_eq!(cfg.api_endpoints, vec!["a".to_string(), "b".to_string(), "c".to_string()]);
    let float = option_at(36);
    let before = cfg.clone();
    assert_eq!(apply_config_edit(&mut cfg, float, "1.5"), Ok(CliEdit::FloatValue));
    assert_eq!(cfg.max_workers, before.max_workers);
    let seg = option_at(21);
    cfg.novel_format = "txt".to_string();
    assert_eq!(apply_config_edit(&mut cfg, seg, "y"), Ok(CliEdit::AppliedWithNote(CliNote::SwitchedToEpub)));
}

#[test]
fn save_path_directory_is_created_first() {
    assert_eq!(save_path_to_create(option_at(0), "  /data/x "), Some("/data/x".to_string()));
    assert_eq!(save_path_to_create(option_at(0), "   "), None);
    assert_eq!(save_path_to_create(option_at(1), "/data"), None);
}

#[test]
fn menu_choices() {
    assert_eq!(parse_menu_choice(" 0 ", 38), MenuChoice::Back);
    assert_eq!(parse_menu_choice("x", 38), MenuChoice::NotNumber);
    assert_eq!(parse_menu_choice("39", 38), MenuChoice::OutOfRange);
    assert_eq!(parse_menu_choice("00", 38), MenuChoice::OutOfRange);
    assert_eq!(parse_menu_choice("1", 38), MenuChoice::Pick(0));
    assert_eq!(parse_menu_choice("38", 38), MenuChoice::Pick(37));
}

#[test]
fn normalize_trims_and_lowercases_formats() {
    let mut cfg = sample_config();
    cfg.novel_format = "  EPUB ".to_string();
    cfg.audiobook_format = "Mp3".to_string();
    cfg.audiobook_tts_provider = " Edge".to_string();
    cfg.preferred_book_name_field = " Book_Name ".to_string();
    cfg.audiobook_voice = " Voice ".to_string();
    normalize_config(&mut cfg);
    assert_eq!(cfg.novel_format, "epub");
    assert_eq!(cfg.audiobook_format, "mp3");
    assert_eq!(cfg.audiobook_tts_provider, "edge");
    assert_eq!(cfg.preferred_book_name_field, "book_name");
    assert_eq!(cfg.audiobook_voice, " Voice ");
    let once = cfg.clone();
    normalize_config(&mut cfg);
    assert_eq!(cfg.novel_format, once.novel_format);
    assert_eq!(cfg.preferred_book_name_field, once.preferred_book_name_field);
}

#[test]
fn validation_reports_first_broken_rule() {
    let cfg = sample_config();
    assert_eq!(validate_config(&cfg, true, true), Ok(()));
    let mut c = sample_config();
    c.novel_format = "pdf".to_string();
    assert_eq!(validate_config(&c, true, true), Err(ConfigError::NovelFormat));
    let mut c = sample_config();
    c.novel_format = "txt".to_string();
    c.enable_segment_comments = true;
    assert_eq!(validate_config(&c, true, true), Err(ConfigError::SegmentCommentsNeedEpub));
    let mut c = sample_config();
    c.audiobook_format = "ogg".to_string();
    assert_eq!(validate_config(&c, true, true), Err(ConfigError::AudiobookFormat));
    let mut c = sample_config();
    c.max_workers = 0;
    c.request_timeout = 0;
    assert_eq!(validate_config(&c, true, true), Err(ConfigError::MaxWorkers));
    assert_eq!(validate_config(&sample_config(), false, true), Err(ConfigError::MinConnectTimeout));
    let mut c = sample_config();
    c.min_wait_time = 900;
    assert_eq!(validate_config(&c, true, true), Err(ConfigError::WaitOrder));
    let mut c = sample_config();
    c.jpeg_quality = 101;
    assert_eq!(validate_config(&c, true, true), Err(ConfigError::JpegQuality));
    assert_eq!(validate_config(&sample_config(), true, false), Err(ConfigError::FirstLineIndent));
    let mut c = sample_config();
    c.preferred_book_name_field = "".to_string();
    assert_eq!(validate_config(&c, true, true), Ok(()));
    c.preferred_book_name_field = "title".to_string();
    assert_eq!(validate_config(&c, true, true), Err(ConfigError::PreferredBookNameField));
    assert_eq!(ConfigError::WaitOrder.message(), "min_wait_time cannot exceed max_wait_time");
}

#[test]
fn web_page_patches() {
    let mut cfg = sample_config();
    let patch = WebConfigPatch {
        novel_format: Some(" EPUB ".to_string()),
        bulk_files: Some(true),
        enable_audiobook: None,
        audiobook_format: Some("Wav".to_string()),
    };
    assert!(apply_web_patch(&mut cfg, patch));
    assert_eq!(cfg.novel_format, "epub");
    assert!(cfg.bulk_files);
    assert_eq!(cfg.audiobook_format, "wav");

    let before = sample_config();
    let mut cfg = sample_config();
    let bad = WebConfigPatch { novel_format: Some("pdf".to_string()), bulk_files: Some(!before.bulk_files), enable_audiobook: None, audiobook_format: None };
    assert!(!apply_web_patch(&mut cfg, bad));
    assert_eq!(cfg.novel_format, before.novel_format);
    assert_eq!(cfg.bulk_files, before.bulk_files);

    // A refused audiobook format keeps the changes made before it.
    let mut cfg = sample_config();
    let late = WebConfigPatch {
        novel_format: Some("txt".to_string()),
        bulk_files: Some(!before.bulk_files),
        enable_audiobook: Some(true),
        audiobook_format: Some("ogg".to_string()),
    };
    assert!(!apply_web_patch(&mut cfg, late));
    assert_eq!(cfg.novel_format, "txt");
    assert_eq!(cfg.bulk_files, !before.bulk_files);
    assert!(cfg.enable_audiobook);
    assert_eq!(cfg.audiobook_format, before.audiobook_format);
}

#[test]
fn preview_covers_are_fetched_as_jpeg() {
    let mut cfg = sample_config();
    cfg.force_convert_images_to_jpeg = false;
    cfg.jpeg_retry_convert = false;
    cfg.convert_heic_to_jpeg = false;
    cfg.keep_heic_original = true;
    tomato_ui::library::force_preview_cover_settings(&mut cfg);
    assert!(cfg.force_convert_images_to_jpeg && cfg.jpeg_retry_convert && cfg.convert_heic_to_jpeg);
    assert!(!cfg.keep_heic_original);
    assert_eq!(cfg.save_path, "/books");
    assert_eq!(cfg.novel_format, "epub");
}
