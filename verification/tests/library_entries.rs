use tomato_ui::library::{
    cache_marker_files, cached_cover_files, filter_by_name, cover_cleanup, preview_cover_link, is_cover_image_ext, is_cover_like, CoverCleanup, FolderEntry, is_internal_book_cache_dir, row_from_entry, slash_path, EntryKind, LibraryScanRow,
};

#[test]
fn listing_rows() {
    let dir = row_from_entry("books/a".to_string(), "a".to_string(), EntryKind::Dir, false, "", 99, Some(5)).unwrap();
    assert_eq!(dir.kind, "dir");
    assert_eq!(dir.size, 0);
    assert_eq!(dir.ext, "");
    assert_eq!(dir.modified_ms, Some(5));
    assert!(row_from_entry("x".to_string(), "x".to_string(), EntryKind::Dir, true, "", 0, None).is_none());
    let file = row_from_entry("b/c.EPUB".to_string(), "c.EPUB".to_string(), EntryKind::File, false, "EPUB", 1234, None).unwrap();
    assert_eq!(file.kind, "file");
    assert_eq!(file.ext, "epub");
    assert_eq!(file.size, 1234);
    assert_eq!(file.file_count, None);
    assert!(row_from_entry("d.pdf".to_string(), "d.pdf".to_string(), EntryKind::File, false, "pdf", 1, None).is_none());
    assert!(row_from_entry("e".to_string(), "e".to_string(), EntryKind::Other, false, "txt", 1, None).is_none());
    assert_eq!(slash_path("a\\b\\c.txt"), "a/b/c.txt");
}

#[test]
fn cover_files() {
    assert!(is_cover_like(false, Some("我的书"), Some("JPG"), "我的书"));
    assert!(is_cover_like(false, Some("Cover"), Some("webp"), "x"));
    assert!(!is_cover_like(false, Some("other"), Some("png"), "x"));
    assert!(!is_cover_like(false, Some("cover"), Some("txt"), "x"));
    assert!(!is_cover_like(true, Some("cover"), Some("png"), "x"));
    assert!(!is_cover_like(false, None, Some("png"), "x"));
    assert!(is_cover_image_ext("JPEG"));
    assert!(is_cover_image_ext("png"));
    assert!(!is_cover_image_ext("gif"));
}

/// The listing row of a root entry, hidden when it is a download cache.
fn root_row(name: &str, kind: EntryKind, has_marker: bool, ext: &str) -> Option<String> {
    let internal = kind == EntryKind::Dir && is_internal_book_cache_dir(true, Some(name), has_marker);
    row_from_entry(name.to_string(), name.to_string(), kind, internal, ext, 0, None).map(|r| r.name)
}

#[test]
fn root_listing_hides_book_caches_but_keeps_outputs() {
    let markers = cache_marker_files("7047850786264449550", &["jpg".to_string()]);
    assert!(markers.contains(&"status.json".to_string()));
    assert_eq!(root_row("7047850786264449550", EntryKind::Dir, true, ""), None);
    assert_eq!(root_row("7047850786264449550_旧书名", EntryKind::Dir, true, ""), None);
    assert_eq!(root_row("测试书_audio", EntryKind::Dir, false, ""), Some("测试书_audio".to_string()));
    assert_eq!(root_row("测试书.txt", EntryKind::File, false, "txt"), Some("测试书.txt".to_string()));
    // Inside a book folder nothing is a cache, and audio files are listed.
    assert!(!is_internal_book_cache_dir(false, Some("7047850786264449550"), true));
    let inner = row_from_entry("测试书_audio/001.mp3".to_string(), "001.mp3".to_string(), EntryKind::File, false, "mp3", 5, None);
    assert_eq!(inner.map(|r| r.name), Some("001.mp3".to_string()));
}

fn entry(is_dir: bool, stem: &str, ext: &str) -> FolderEntry {
    FolderEntry { is_dir, stem: Some(stem.to_string()), ext: Some(ext.to_string()) }
}

#[test]
fn heic_images_are_not_covers() {
    assert!(!is_cover_like(false, Some("cover"), Some("HEIC"), "x"));
    assert!(!is_cover_like(false, Some("书"), Some("heif"), "书"));
    assert!(is_cover_like(false, Some("cover"), Some("gif"), "x"));
}

#[test]
fn preview_folder_cleanup() {
    let covers = vec![entry(false, "书", "jpg"), entry(false, "COVER", "png")];
    assert_eq!(cover_cleanup(false, &covers, "书"), CoverCleanup::RemoveFiles);
    assert_eq!(cover_cleanup(true, &covers, "书"), CoverCleanup::Keep);
    assert_eq!(cover_cleanup(false, &[], "书"), CoverCleanup::RemoveFolder);
    let mixed = vec![entry(false, "书", "jpg"), entry(false, "第一章", "txt")];
    assert_eq!(cover_cleanup(false, &mixed, "书"), CoverCleanup::Keep);
    let with_dir = vec![entry(true, "cover", "png")];
    assert_eq!(cover_cleanup(false, &with_dir, "书"), CoverCleanup::Keep);
    let heic = vec![entry(false, "cover", "heic")];
    assert_eq!(cover_cleanup(false, &heic, "书"), CoverCleanup::Keep);
    let no_ext = vec![FolderEntry { is_dir: false, stem: Some("cover".to_string()), ext: None }];
    assert_eq!(cover_cleanup(false, &no_ext, "书"), CoverCleanup::Keep);
}

#[test]
fn cached_cover_names_and_links() {
    let key = "0123456789abcdefABCDEF0123456789abcdef01";
    assert_eq!(cached_cover_files(key), Some((format!("{key}.jpeg"), format!("{key}.jpg"))));
    assert_eq!(cached_cover_files("0123"), None);
    assert_eq!(cached_cover_files("g123456789abcdef0123456789abcdef01234567"), None);
    assert_eq!(preview_cover_link(&Some(key.to_string()), "7"), format!("/api/preview-cover/{key}"));
    assert_eq!(preview_cover_link(&None, "7"), "/api/preview-cover-by-book/7");
}

fn named_row(name: &str) -> LibraryScanRow {
    LibraryScanRow {
        kind: "file".to_string(),
        name: name.to_string(),
        rel_path: name.to_string(),
        ext: "txt".to_string(),
        size: 1,
        file_count: None,
        modified_ms: None,
    }
}

#[test]
fn library_keyword_filter_ignores_case() {
    let rows = vec![named_row("测试Book.txt"), named_row("other.epub"), named_row("BOOKS_audio"), named_row("ÄBC.txt")];
    let kept: Vec<String> = filter_by_name(rows.clone(), "book").into_iter().map(|r| r.name).collect();
    assert_eq!(kept, vec!["测试Book.txt".to_string(), "BOOKS_audio".to_string()]);
    let umlaut: Vec<String> = filter_by_name(rows.clone(), "äb").into_iter().map(|r| r.name).collect();
    assert_eq!(umlaut, vec!["ÄBC.txt".to_string()]);
    assert_eq!(filter_by_name(rows.clone(), "").len(), 4);
    assert!(filter_by_name(rows, "zzz").is_empty());
}
