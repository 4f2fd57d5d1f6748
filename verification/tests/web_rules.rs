use sha2::{Digest, Sha256};
use tomato_ui::auth::{
    constant_time_eq, cookie_value, is_public_path, login_outcome, session_cookie_header, AuthState, LoginOutcome,
    SESSION_TTL_SECS,
};
use tomato_ui::book_id::parse_book_id;
use tomato_ui::jobs::{BookNameOption, JobEdit, JobState, JobStore, ProgressSnapshot, SavePhase};
use tomato_ui::library::{
    cache_dir_book_id, cache_marker_files, empty_snapshot, is_allowed_ext, is_internal_book_cache_dir, mime_for_ext,
    normalize_rel, parse_cover_key, preview_cover_urls, resolve_local_preview_cover_key,
    resolve_local_preview_cover_key_with_web_fallback, cover_step, should_start_scan, CachedImage, CoverStep,
};
use tomato_ui::range::ChapterRange;
use tomato_ui::web::{
    bind_addr_parts, bracketed_bind_addr, job_chapter_range, job_end, make_content_disposition,
    needs_book_name_choice, selected_details, validate_create_job, DownloadHistoryRecord, JobEnd, JobRequestError,
};

fn lock(password: &str) -> AuthState {
    let mut h = Sha256::new();
    h.update(password.as_bytes());
    AuthState { password_sha256: h.finalize().to_vec(), session_secret: vec![7u8; 32] }
}

#[test]
fn signature_is_hex_sha256_of_secret_and_payload() {
    let a = lock("pw");
    let mut h = Sha256::new();
    h.update([7u8; 32]);
    h.update(b"100.abc");
    let expected = hex::encode(h.finalize());
    assert_eq!(a.sign_payload("100.abc"), expected);
    assert_eq!(a.session_ttl_secs(), 604800);
    assert_eq!(SESSION_TTL_SECS, 7 * 24 * 60 * 60);
}

#[test]
fn issued_token_is_accepted_until_it_expires() {
    let a = lock("pw");
    let t = a.issue_session_token_at(1000, "nonce");
    let exp = 1000 + SESSION_TTL_SECS;
    assert!(t.starts_with(&format!("{exp}.nonce.")));
    assert!(a.verify_session_token_at(&t, 1000));
    assert!(a.verify_session_token_at(&t, exp));
    assert!(!a.verify_session_token_at(&t, exp + 1));
    assert!(!a.verify_session_token_at("1.2", 0));
    assert!(!a.verify_session_token_at(&format!("{t}.x"), 0));
    let forged = t.replacen("nonce", "nonc3", 1);
    assert!(!a.verify_session_token_at(&forged, 1000));
    let fresh = a.issue_session_token();
    assert!(a.verify_session_token(&fresh));
}

#[test]
fn tokens_of_another_secret_are_refused() {
    let a = lock("pw");
    let b = AuthState { password_sha256: a.password_sha256.clone(), session_secret: vec![8u8; 32] };
    let t = a.issue_session_token_at(5, "n");
    assert!(!b.verify_session_token_at(&t, 5));
}

#[test]
fn changed_signature_is_refused_and_locks_differ() {
    let a = AuthState::from_password("pw");
    let t = a.issue_session_token_at(10, "abc");
    let (payload, sig) = t.rsplit_once('.').unwrap();
    let mut other = sig.to_string();
    let flipped = if other.ends_with('0') { '1' } else { '0' };
    other.pop();
    other.push(flipped);
    assert!(a.verify_session_token_at(&t, 10));
    assert!(!a.verify_session_token_at(&format!("{payload}.{other}"), 10));
    assert!(!a.verify_session_token_at(&format!("{payload}."), 10));
    let b = AuthState::from_password("pw");
    assert_eq!(a.password_sha256, b.password_sha256);
    assert_ne!(a.session_secret, b.session_secret);
    assert!(!b.verify_session_token_at(&t, 10));
}

#[test]
fn password_and_login() {
    let a = AuthState::from_password("secret");
    assert_eq!(a.session_secret.len(), 32);
    assert!(a.verify_password("secret"));
    assert!(!a.verify_password("Secret"));
    assert_eq!(login_outcome(None, "x"), LoginOutcome::Unlocked);
    assert_eq!(login_outcome(Some(&a), "  secret "), LoginOutcome::Accepted);
    assert_eq!(login_outcome(Some(&a), "   "), LoginOutcome::Rejected);
    assert_eq!(login_outcome(Some(&a), "nope"), LoginOutcome::Rejected);
}

#[test]
fn requests_and_cookies() {
    let a = lock("pw");
    let t = a.issue_session_token_at(10, "n");
    assert!(a.authorize_request_at("/", "", None, 10));
    assert!(a.authorize_request_at("/assets/app.js", "", None, 10));
    assert!(!a.authorize_request_at("/api/jobs", "", None, 10));
    assert!(a.authorize_request_at("/api/jobs", "pw", None, 10));
    let cookie = format!("a=1; tomato_session={t}");
    assert!(a.authorize_request_at("/api/jobs", "", Some(&cookie), 10));
    assert!(a.authorize_request("/api/login", "", None));
    assert!(is_public_path("/api/login"));
    assert!(!is_public_path("/api/loginx"));
    assert_eq!(cookie_value("x=1;  y=2 ; z=3", "y"), Some("2".to_string()));
    assert_eq!(cookie_value("x=1; y = 2", "y"), None);
    assert_eq!(cookie_value("x=1", "y"), None);
    assert_eq!(session_cookie_header("tomato_session", "tok", 60), "tomato_session=tok; Path=/; HttpOnly; SameSite=Lax; Max-Age=60");
    assert!(constant_time_eq(b"abc", b"abc"));
    assert!(!constant_time_eq(b"abc", b"abd"));
    assert!(!constant_time_eq(b"abc", b"ab"));
}

#[test]
fn book_ids_from_links_and_text() {
    assert_eq!(parse_book_id(" 7047850786264449550 "), Some("7047850786264449550".to_string()));
    assert_eq!(parse_book_id("https://fanqienovel.com/page/12345?x=1"), Some("12345".to_string()));
    assert_eq!(parse_book_id("see https://x.com/reader?bookId=987 now"), Some("987".to_string()));
    assert_eq!(parse_book_id("book_id=42"), Some("42".to_string()));
    assert_eq!(parse_book_id("三体"), None);
    assert_eq!(parse_book_id("7318247498772674083"), Some("7318247498772674083".to_string()));
}

fn snap(n: usize) -> ProgressSnapshot {
    ProgressSnapshot {
        group_done: n,
        group_total: 10,
        saved_chapters: n,
        chapter_total: 10,
        save_phase: SavePhase::TextSave,
        comment_fetch: 0,
        comment_total: 0,
        comment_saved: 0,
    }
}

#[test]
fn job_lifecycle() {
    let mut store = JobStore::new();
    let h1 = store.create_at("111".to_string(), 5);
    let h2 = store.create_at("222".to_string(), 6);
    assert_eq!((h1.id, h2.id), (1, 2));
    let list = store.list();
    assert_eq!(list.len(), 2);
    assert_eq!(list[0].id, 2);
    assert_eq!(list[1].state, JobState::Queued);
    store.set_running_at(1, 7);
    store.set_meta_at(1, Some("书".to_string()), None, 8);
    store.set_progress_at(1, snap(3), 9);
    store.update(1, JobEdit::Done, 10);
    let j = store.list().into_iter().find(|j| j.id == 1).unwrap();
    assert_eq!(j.state, JobState::Done);
    assert_eq!(j.title, Some("书".to_string()));
    assert_eq!(j.progress, Some(snap(3)));
    assert_eq!(j.updated_ms, 10);
    store.set_failed_at(2, "boom".to_string(), 11);
    let j = store.list().into_iter().find(|j| j.id == 2).unwrap();
    assert_eq!(j.state, JobState::Failed);
    assert_eq!(j.message, Some("boom".to_string()));
    assert!(store.remove(2).found);
    assert!(!store.remove(2).found);
    assert_eq!(store.list().len(), 1);
}

#[test]
fn cancel_and_title_choice() {
    let mut store = JobStore::new();
    let h = store.create_at("1".to_string(), 1);
    store.set_book_name_options_at(
        h.id,
        vec![
            BookNameOption { label: "A".to_string(), value: "a".to_string() },
            BookNameOption { label: "B".to_string(), value: "b".to_string() },
        ],
        2,
    );
    let listed = store.list();
    assert_eq!(listed[0].book_name_options.as_ref().map(|v| v.len()), Some(2));
    assert!(store.submit_book_name_choice_at(h.id, 3));
    assert!(!store.submit_book_name_choice_at(h.id, 4));
    assert!(store.list()[0].book_name_options.is_none());
    let r = store.request_cancel_at(h.id, 5);
    assert!(r.found);
    assert!(r.raise_cancel);
    assert_eq!(store.list()[0].state, JobState::Canceled);
    let h2 = store.create("2".to_string());
    let gone = store.request_cancel_and_remove(h2.id);
    assert!(gone.found);
    assert!(gone.raise_cancel);
    assert!(!gone.release_waiter);
    assert!(!store.request_cancel_and_remove(h2.id).raise_cancel);
    assert!(!store.request_cancel(99).found);
    let h3 = store.create("3".to_string());
    let removed = store.remove(h3.id);
    assert!(removed.found);
    assert!(!removed.raise_cancel);
}

#[test]
fn library_listing_rules() {
    assert!(is_allowed_ext("epub"));
    assert!(!is_allowed_ext("EPUB"));
    assert!(!is_allowed_ext("json"));
    assert_eq!(mime_for_ext("txt"), "text/plain; charset=utf-8");
    assert_eq!(mime_for_ext("bin"), "application/octet-stream");
    assert_eq!(normalize_rel("\\a\\b/"), "a/b");
    assert_eq!(normalize_rel("//x//"), "x");
    assert_eq!(normalize_rel(&normalize_rel("/q/r/")), "q/r");
    let s = empty_snapshot("p".to_string());
    assert_eq!(s.path, "p");
    assert!(!s.running && s.items.is_empty() && s.error.is_none());
}

#[test]
fn cache_folders() {
    assert_eq!(cache_dir_book_id("7047850786264449550"), Some("7047850786264449550".to_string()));
    assert_eq!(cache_dir_book_id("7047850786264449550_旧书名"), Some("7047850786264449550".to_string()));
    assert_eq!(cache_dir_book_id("测试书_audio"), None);
    assert_eq!(cache_dir_book_id("_123"), None);
    assert!(is_internal_book_cache_dir(true, Some("123_x"), true));
    assert!(!is_internal_book_cache_dir(false, Some("123_x"), true));
    assert!(!is_internal_book_cache_dir(true, Some("abc"), true));
    assert!(!is_internal_book_cache_dir(true, Some("123"), false));
    let files = cache_marker_files("42", &["jpg".to_string(), "png".to_string()]);
    assert_eq!(files, vec!["status.json", "downloaded_chapters.jsonl", "chapter_status_42.json", "cover.jpg", "cover.png"]);
}

#[test]
fn cover_keys() {
    let key = "0123456789abcdef0123456789ABCDEF01234567";
    assert_eq!(parse_cover_key(&format!("/tmp/c/{key}.jpeg")), Some(key.to_string()));
    assert_eq!(parse_cover_key("/tmp/c/short.jpg"), None);
    assert_eq!(parse_cover_key(&format!("/tmp/c/{}.jpg", "g".repeat(40))), None);
    let png = CachedImage { path: format!("/c/{key}.png"), mime: "image/png".to_string(), ext: ".png".to_string() };
    let jpg = CachedImage { path: format!("/c/{key}.jpg"), mime: "image/jpeg".to_string(), ext: ".jpg".to_string() };
    assert_eq!(resolve_local_preview_cover_key(&[None, Some(png.clone())]), None);
    assert_eq!(resolve_local_preview_cover_key(&[Some(png), None, Some(jpg)]), Some(key.to_string()));
    let urls = preview_cover_urls(&Some(" https://d/1.jpg ".to_string()), &Some("ftp://x".to_string()));
    assert_eq!(urls, vec!["https://d/1.jpg".to_string()]);
    assert_eq!(resolve_local_preview_cover_key_with_web_fallback(None, None, None), None);
    assert_eq!(
        resolve_local_preview_cover_key_with_web_fallback(Some("c".to_string()), None, Some("h".to_string())),
        Some((Some("c".to_string()), Some("h".to_string())))
    );
    assert_eq!(
        resolve_local_preview_cover_key_with_web_fallback(Some("c".to_string()), Some("d".to_string()), None),
        Some((Some("d".to_string()), None))
    );
}

#[test]
fn download_requests() {
    assert_eq!(validate_create_job("12345", None, None), Ok("12345".to_string()));
    assert_eq!(validate_create_job("12345", Some(1), Some(3)), Ok("12345".to_string()));
    assert_eq!(validate_create_job("12345", Some(0), Some(3)), Err(JobRequestError::BadRange));
    assert_eq!(validate_create_job("12345", Some(4), Some(3)), Err(JobRequestError::BadRange));
    assert_eq!(validate_create_job("12345", Some(1), None), Err(JobRequestError::HalfRange));
    assert_eq!(validate_create_job("no id", None, None), Err(JobRequestError::BadBookId));
    assert_eq!(job_chapter_range(Some(2), Some(5), 10), Some(ChapterRange { start: 2, end: 5 }));
    assert_eq!(job_chapter_range(Some(2), Some(11), 10), None);
    assert_eq!(job_chapter_range(None, Some(3), 10), None);
    assert!(needs_book_name_choice(2));
    assert!(!needs_book_name_choice(1));
    assert_eq!(job_end(true, true), JobEnd::Done);
    assert_eq!(job_end(false, true), JobEnd::Canceled);
    assert_eq!(job_end(false, false), JobEnd::Failed);
}

#[test]
fn content_disposition_encodes_utf8() {
    assert_eq!(
        make_content_disposition("a b.txt"),
        "attachment; filename=\"a_b.txt\"; filename*=UTF-8''a%20b.txt"
    );
    assert_eq!(
        make_content_disposition("书.epub"),
        "attachment; filename=\"_.epub\"; filename*=UTF-8''%E4%B9%A6.epub"
    );
}

#[test]
fn bind_addresses() {
    assert_eq!(bind_addr_parts(" 0.0.0.0:1 ; [::]:2,, "), vec!["0.0.0.0:1".to_string(), "[::]:2".to_string()]);
    assert_eq!(bind_addr_parts("0.0.0.0:18423,[::]:18423"), vec!["0.0.0.0:18423".to_string(), "[::]:18423".to_string()]);
    assert_eq!(bind_addr_parts("127.0.0.1:18423"), vec!["127.0.0.1:18423".to_string()]);
    assert!(bind_addr_parts(" ; , ").is_empty());
    assert_eq!(bracketed_bind_addr("::1:18423"), Some("[::1]:18423".to_string()));
    assert_eq!(bracketed_bind_addr("127.0.0.1:80"), None);
    assert_eq!(bracketed_bind_addr("[::1]:80"), None);
    assert_eq!(bracketed_bind_addr("::1:8x"), None);
}

#[test]
fn history_details() {
    let rec = DownloadHistoryRecord {
        timestamp: "2024-01-01".to_string(),
        book_name: "书".to_string(),
        author: "".to_string(),
        book_id: "1".to_string(),
        progress: "3/10".to_string(),
        status: "ok".to_string(),
    };
    let lines = selected_details(&[rec], Some(0));
    assert_eq!(lines.len(), 6);
    assert_eq!(lines[2], "作者: 未知");
    assert_eq!(lines[4], "进度: 3/10");
    assert_eq!(selected_details(&[], Some(0)), vec!["暂无可展示详情".to_string()]);
    assert_eq!(selected_details(&[], None), vec!["暂无可展示详情".to_string()]);
}

#[test]
fn library_scan_starts_unless_a_poll_finds_a_listing() {
    assert!(should_start_scan(None, true));
    assert!(should_start_scan(Some(true), true));
    assert!(!should_start_scan(Some(false), true));
    assert!(should_start_scan(Some(false), false));
    assert!(should_start_scan(None, false));
}

#[test]
fn preview_cover_download_stops_at_the_first_key() {
    let key = "0123456789abcdef0123456789ABCDEF01234567";
    let urls = vec!["https://a/1.jpg".to_string(), "https://b/2.jpg".to_string()];
    assert_eq!(cover_step(&urls, &[]), CoverStep::Try("https://a/1.jpg".to_string()));
    let png = CachedImage { path: format!("/c/{key}.png"), mime: "image/png".to_string(), ext: ".png".to_string() };
    let jpg = CachedImage { path: format!("/c/{key}.jpg"), mime: "image/jpeg".to_string(), ext: ".jpg".to_string() };
    assert_eq!(cover_step(&urls, &[Some(png.clone())]), CoverStep::Try("https://b/2.jpg".to_string()));
    assert_eq!(cover_step(&urls, &[Some(jpg)]), CoverStep::Found(key.to_string()));
    assert_eq!(cover_step(&urls, &[None, Some(png)]), CoverStep::Exhausted);
    assert_eq!(cover_step(&[], &[]), CoverStep::Exhausted);
}
