//! The downloader's settings as the interfaces read and edit them, and the
//! checks a submitted configuration must pass.
//!
//! The two floating-point settings (minimum connect timeout and first-line
//! indent) are not held here; the checks on them reach `validate_config` as
//! booleans computed by the caller.

use crate::text::{
    chars_eq_str, chars_of, lower_seq, string_of, strings_view, to_lower_chars, trim_chars, trim_seq,
};
use vstd::prelude::*;

verus! {

/// The editable settings.
#[derive(Debug, Clone)]
pub struct Config {
    pub save_path: String,
    pub novel_format: String,
    pub bulk_files: bool,
    pub graceful_exit: bool,
    pub auto_clear_dump: bool,
    pub auto_open_downloaded_files: bool,
    pub allow_overwrite_files: bool,
    pub preferred_book_name_field: String,
    pub old_cli: bool,
    pub enable_segment_comments: bool,
    pub use_official_api: bool,
    pub api_endpoints: Vec<String>,
    pub max_workers: usize,
    pub request_timeout: u64,
    pub max_retries: u32,
    pub min_wait_time: u64,
    pub max_wait_time: u64,
    pub force_exit_timeout: u64,
    pub enable_audiobook: bool,
    pub audiobook_voice: String,
    pub audiobook_rate: String,
    pub audiobook_volume: String,
    pub audiobook_pitch: String,
    pub audiobook_format: String,
    pub audiobook_concurrency: usize,
    pub audiobook_tts_provider: String,
    pub audiobook_tts_api_url: String,
    pub audiobook_tts_api_token: String,
    pub audiobook_tts_model: String,
    pub segment_comments_top_n: usize,
    pub segment_comments_workers: usize,
    pub download_comment_images: bool,
    pub download_comment_avatars: bool,
    pub media_download_workers: usize,
    pub blocked_media_domains: Vec<String>,
    pub force_convert_images_to_jpeg: bool,
    pub jpeg_retry_convert: bool,
    pub jpeg_quality: u8,
    pub convert_heic_to_jpeg: bool,
    pub keep_heic_original: bool,
    pub media_limit_per_chapter: usize,
    pub media_max_dimension_px: u32,
    pub media_total_limit_mb: u32,
}

/// The settings as mathematical values.
pub struct ConfigView {
    pub save_path: Seq<char>,
    pub novel_format: Seq<char>,
    pub bulk_files: bool,
    pub graceful_exit: bool,
    pub auto_clear_dump: bool,
    pub auto_open_downloaded_files: bool,
    pub allow_overwrite_files: bool,
    pub preferred_book_name_field: Seq<char>,
    pub old_cli: bool,
    pub enable_segment_comments: bool,
    pub use_official_api: bool,
    pub api_endpoints: Seq<Seq<char>>,
    pub max_workers: nat,
    pub request_timeout: nat,
    pub max_retries: nat,
    pub min_wait_time: nat,
    pub max_wait_time: nat,
    pub force_exit_timeout: nat,
    pub enable_audiobook: bool,
    pub audiobook_voice: Seq<char>,
    pub audiobook_rate: Seq<char>,
    pub audiobook_volume: Seq<char>,
    pub audiobook_pitch: Seq<char>,
    pub audiobook_format: Seq<char>,
    pub audiobook_concurrency: nat,
    pub audiobook_tts_provider: Seq<char>,
    pub audiobook_tts_api_url: Seq<char>,
    pub audiobook_tts_api_token: Seq<char>,
    pub audiobook_tts_model: Seq<char>,
    pub segment_comments_top_n: nat,
    pub segment_comments_workers: nat,
    pub download_comment_images: bool,
    pub download_comment_avatars: bool,
    pub media_download_workers: nat,
    pub blocked_media_domains: Seq<Seq<char>>,
    pub force_convert_images_to_jpeg: bool,
    pub jpeg_retry_convert: bool,
    pub jpeg_quality: nat,
    pub convert_heic_to_jpeg: bool,
    pub keep_heic_original: bool,
    pub media_limit_per_chapter: nat,
    pub media_max_dimension_px: nat,
    pub media_total_limit_mb: nat,
}

impl View for Config {
    type V = ConfigView;

    open spec fn view(&self) -> ConfigView {
        ConfigView {
            save_path: self.save_path@,
            novel_format: self.novel_format@,
            bulk_files: self.bulk_files,
            graceful_exit: self.graceful_exit,
            auto_clear_dump: self.auto_clear_dump,
            auto_open_downloaded_files: self.auto_open_downloaded_files,
            allow_overwrite_files: self.allow_overwrite_files,
            preferred_book_name_field: self.preferred_book_name_field@,
            old_cli: self.old_cli,
            enable_segment_comments: self.enable_segment_comments,
            use_official_api: self.use_official_api,
            api_endpoints: strings_view(self.api_endpoints@),
            max_workers: self.max_workers as nat,
            request_timeout: self.request_timeout as nat,
            max_retries: self.max_retries as nat,
            min_wait_time: self.min_wait_time as nat,
            max_wait_time: self.max_wait_time as nat,
            force_exit_timeout: self.force_exit_timeout as nat,
            enable_audiobook: self.enable_audiobook,
            audiobook_voice: self.audiobook_voice@,
            audiobook_rate: self.audiobook_rate@,
            audiobook_volume: self.audiobook_volume@,
            audiobook_pitch: self.audiobook_pitch@,
            audiobook_format: self.audiobook_format@,
            audiobook_concurrency: self.audiobook_concurrency as nat,
            audiobook_tts_provider: self.audiobook_tts_provider@,
            audiobook_tts_api_url: self.audiobook_tts_api_url@,
            audiobook_tts_api_token: self.audiobook_tts_api_token@,
            audiobook_tts_model: self.audiobook_tts_model@,
            segment_comments_top_n: self.segment_comments_top_n as nat,
            segment_comments_workers: self.segment_comments_workers as nat,
            download_comment_images: self.download_comment_images,
            download_comment_avatars: self.download_comment_avatars,
            media_download_workers: self.media_download_workers as nat,
            blocked_media_domains: strings_view(self.blocked_media_domains@),
            force_convert_images_to_jpeg: self.force_convert_images_to_jpeg,
            jpeg_retry_convert: self.jpeg_retry_convert,
            jpeg_quality: self.jpeg_quality as nat,
            convert_heic_to_jpeg: self.convert_heic_to_jpeg,
            keep_heic_original: self.keep_heic_original,
            media_limit_per_chapter: self.media_limit_per_chapter as nat,
            media_max_dimension_px: self.media_max_dimension_px as nat,
            media_total_limit_mb: self.media_total_limit_mb as nat,
        }
    }
}

/// A text setting trimmed and lowercased.
pub open spec fn canonical(s: Seq<char>) -> Seq<char> {
    lower_seq(trim_seq(s))
}

/// The settings after the four enumerated text settings are brought to
/// canonical form.
pub open spec fn normalized(c: ConfigView) -> ConfigView {
    ConfigView {
        novel_format: canonical(c.novel_format),
        audiobook_format: canonical(c.audiobook_format),
        audiobook_tts_provider: canonical(c.audiobook_tts_provider),
        preferred_book_name_field: canonical(c.preferred_book_name_field),
        ..c
    }
}

/// `s` trimmed and lowercased.
pub fn canonical_string(s: &str) -> (r: String)
    ensures
        r@ == canonical(s@),
{
    let t = trim_chars(chars_of(s).as_slice());
    let l = to_lower_chars(t.as_slice());
    string_of(l.as_slice())
}

/// Trims and lowercases the novel format, the audiobook format, the TTS
/// provider and the preferred book-name field.
pub fn normalize_config(cfg: &mut Config)
    ensures
        final(cfg)@ == normalized(old(cfg)@),
{
    cfg.novel_format = canonical_string(cfg.novel_format.as_str());
    cfg.audiobook_format = canonical_string(cfg.audiobook_format.as_str());
    cfg.audiobook_tts_provider = canonical_string(cfg.audiobook_tts_provider.as_str());
    cfg.preferred_book_name_field = canonical_string(cfg.preferred_book_name_field.as_str());
}

/// A change to the four settings the web page edits directly.
#[derive(Debug)]
pub struct WebConfigPatch {
    pub novel_format: Option<String>,
    pub bulk_files: Option<bool>,
    pub enable_audiobook: Option<bool>,
    pub audiobook_format: Option<String>,
}

/// Whether the patch's novel format (if any) is TXT or EPUB once trimmed
/// and lowercased.
pub open spec fn patch_format_ok(p: WebConfigPatch) -> bool {
    match p.novel_format {
        Some(v) => canonical(v@) == "txt"@ || canonical(v@) == "epub"@,
        None => true,
    }
}

/// Whether the patch's audiobook format (if any) is MP3 or WAV once trimmed
/// and lowercased.
pub open spec fn patch_audio_ok(p: WebConfigPatch) -> bool {
    match p.audiobook_format {
        Some(v) => canonical(v@) == "mp3"@ || canonical(v@) == "wav"@,
        None => true,
    }
}

/// Whether `s` is one of two words.
fn is_one_of(s: &str, a: &str, b: &str) -> (r: bool)
    ensures
        r == (s@ == a@ || s@ == b@),
{
    let v = chars_of(s);
    chars_eq_str(v.as_slice(), a) || chars_eq_str(v.as_slice(), b)
}

/// Whether `b` is `a` with at most the four settings the web page edits
/// changed.
#[verifier::opaque]
pub open spec fn web_fields_only(a: Config, b: Config) -> bool {
    b == (Config {
        novel_format: b.novel_format,
        bulk_files: b.bulk_files,
        enable_audiobook: b.enable_audiobook,
        audiobook_format: b.audiobook_format,
        ..a
    })
}

/// Changing only those settings twice changes only those settings.
proof fn lemma_web_fields_trans(a: Config, b: Config, c: Config)
    requires
        web_fields_only(a, b),
        web_fields_only(b, c),
    ensures
        web_fields_only(a, c),
{
    reveal(web_fields_only);
}

/// Sets the novel format to `v` trimmed and lowercased, if that is TXT or
/// EPUB.
fn set_novel_format(cfg: &mut Config, v: &String) -> (r: bool)
    ensures
        r == (canonical(v@) == "txt"@ || canonical(v@) == "epub"@),
        web_fields_only(*old(cfg), *final(cfg)),
        r ==> final(cfg).novel_format@ == canonical(v@),
        final(cfg).bulk_files == old(cfg).bulk_files,
        final(cfg).enable_audiobook == old(cfg).enable_audiobook,
        final(cfg).audiobook_format == old(cfg).audiobook_format,
        !r ==> *final(cfg) == *old(cfg),
{
    reveal(web_fields_only);
    let c = canonical_string(v.as_str());
    if !is_one_of(c.as_str(), "txt", "epub") {
        return false;
    }
    cfg.novel_format = c;
    true
}

/// Sets the audiobook format to `v` trimmed and lowercased, if that is MP3
/// or WAV.
fn set_audio_format(cfg: &mut Config, v: &String) -> (r: bool)
    ensures
        r == (canonical(v@) == "mp3"@ || canonical(v@) == "wav"@),
        web_fields_only(*old(cfg), *final(cfg)),
        final(cfg).audiobook_format@ == (if r { canonical(v@) } else { old(cfg).audiobook_format@ }),
        final(cfg).novel_format == old(cfg).novel_format,
        final(cfg).bulk_files == old(cfg).bulk_files,
        final(cfg).enable_audiobook == old(cfg).enable_audiobook,
{
    reveal(web_fields_only);
    let c = canonical_string(v.as_str());
    if !is_one_of(c.as_str(), "mp3", "wav") {
        return false;
    }
    cfg.audiobook_format = c;
    true
}

/// Sets the two switches that are given.
fn set_switches(cfg: &mut Config, bulk: Option<bool>, audiobook: Option<bool>)
    ensures
        web_fields_only(*old(cfg), *final(cfg)),
        final(cfg).bulk_files == (match bulk { Some(b) => b, None => old(cfg).bulk_files }),
        final(cfg).enable_audiobook == (match audiobook { Some(b) => b, None => old(cfg).enable_audiobook }),
        final(cfg).novel_format == old(cfg).novel_format,
        final(cfg).audiobook_format == old(cfg).audiobook_format,
{
    reveal(web_fields_only);
    if let Some(b) = bulk {
        cfg.bulk_files = b;
    }
    if let Some(b) = audiobook {
        cfg.enable_audiobook = b;
    }
}

/// Applies a change from the web page, in order: the novel format (a
/// refused one stops everything), the two switches, then the audiobook
/// format (a refused one stops there, the earlier changes kept). Accepted
/// formats are stored trimmed and lowercased; no other setting changes. The
/// result tells whether everything was accepted.
pub fn apply_web_patch(cfg: &mut Config, patch: WebConfigPatch) -> (ok: bool)
    ensures
        ok == (patch_format_ok(patch) && patch_audio_ok(patch)),
        web_fields_only(*old(cfg), *final(cfg)),
        !patch_format_ok(patch) ==> *final(cfg) == *old(cfg),
        patch_format_ok(patch) ==> {
            &&& final(cfg).novel_format@ == (match patch.novel_format { Some(v) => canonical(v@), None => old(cfg).novel_format@ })
            &&& final(cfg).bulk_files == (match patch.bulk_files { Some(b) => b, None => old(cfg).bulk_files })
            &&& final(cfg).enable_audiobook == (match patch.enable_audiobook { Some(b) => b, None => old(cfg).enable_audiobook })
            &&& final(cfg).audiobook_format@ == (match patch.audiobook_format {
                Some(v) => if patch_audio_ok(patch) { canonical(v@) } else { old(cfg).audiobook_format@ },
                None => old(cfg).audiobook_format@,
            })
        },
{
    let ghost c0 = *cfg;
    proof {
        reveal(web_fields_only);
    }
    if let Some(v) = &patch.novel_format {
        if !set_novel_format(cfg, v) {
            return false;
        }
    }
    let ghost c1 = *cfg;
    set_switches(cfg, patch.bulk_files, patch.enable_audiobook);
    let ghost c2 = *cfg;
    proof {
        lemma_web_fields_trans(c0, c1, c2);
    }
    if let Some(v) = &patch.audiobook_format {
        let ok = set_audio_format(cfg, v);
        proof {
            lemma_web_fields_trans(c0, c2, *cfg);
        }
        if !ok {
            return false;
        }
    }
    true
}

/// Why a submitted configuration was refused, in the order of the checks.
#[derive(Debug, Clone, Copy, PartialEq, Eq, Structural)]
pub enum ConfigError {
    NovelFormat,
    SegmentCommentsNeedEpub,
    AudiobookFormat,
    MaxWorkers,
    RequestTimeout,
    MinConnectTimeout,
    WaitOrder,
    AudiobookConcurrency,
    SegmentCommentsTopN,
    SegmentCommentsWorkers,
    MediaDownloadWorkers,
    JpegQuality,
    FirstLineIndent,
    PreferredBookNameField,
}

/// The message of each refusal.
pub open spec fn config_error_text(e: ConfigError) -> Seq<char> {
    match e {
        ConfigError::NovelFormat => "novel_format must be txt or epub"@,
        ConfigError::SegmentCommentsNeedEpub => "segment comments require epub"@,
        ConfigError::AudiobookFormat => "audiobook_format must be mp3 or wav"@,
        ConfigError::MaxWorkers => "max_workers must be > 0"@,
        ConfigError::RequestTimeout => "request_timeout must be > 0"@,
        ConfigError::MinConnectTimeout => "min_connect_timeout must be > 0"@,
        ConfigError::WaitOrder => "min_wait_time cannot exceed max_wait_time"@,
        ConfigError::AudiobookConcurrency => "audiobook_concurrency must be > 0"@,
        ConfigError::SegmentCommentsTopN => "segment_comments_top_n must be > 0"@,
        ConfigError::SegmentCommentsWorkers => "segment_comments_workers must be > 0"@,
        ConfigError::MediaDownloadWorkers => "media_download_workers must be > 0"@,
        ConfigError::JpegQuality => "jpeg_quality must be 0-100"@,
        ConfigError::FirstLineIndent => "first_line_indent_em must be >= 0"@,
        ConfigError::PreferredBookNameField =>
            "preferred_book_name_field must be book_name/original_book_name/book_short_name/ask_after_download"@,
    }
}

impl ConfigError {
    /// The message shown to the client.
    pub fn message(&self) -> (s: String)
        ensures
            s@ == config_error_text(*self),
    {
        match self {
            ConfigError::NovelFormat => String::from_str("novel_format must be txt or epub"),
            ConfigError::SegmentCommentsNeedEpub => String::from_str("segment comments require epub"),
            ConfigError::AudiobookFormat => String::from_str("audiobook_format must be mp3 or wav"),
            ConfigError::MaxWorkers => String::from_str("max_workers must be > 0"),
            ConfigError::RequestTimeout => String::from_str("request_timeout must be > 0"),
            ConfigError::MinConnectTimeout => String::from_str("min_connect_timeout must be > 0"),
            ConfigError::WaitOrder => String::from_str("min_wait_time cannot exceed max_wait_time"),
            ConfigError::AudiobookConcurrency => String::from_str("audiobook_concurrency must be > 0"),
            ConfigError::SegmentCommentsTopN => String::from_str("segment_comments_top_n must be > 0"),
            ConfigError::SegmentCommentsWorkers => String::from_str("segment_comments_workers must be > 0"),
            ConfigError::MediaDownloadWorkers => String::from_str("media_download_workers must be > 0"),
            ConfigError::JpegQuality => String::from_str("jpeg_quality must be 0-100"),
            ConfigError::FirstLineIndent => String::from_str("first_line_indent_em must be >= 0"),
            ConfigError::PreferredBookNameField => String::from_str(
                "preferred_book_name_field must be book_name/original_book_name/book_short_name/ask_after_download",
            ),
        }
    }
}

/// The accepted values of the preferred book-name field (empty means the
/// default).
pub open spec fn book_name_field_ok(s: Seq<char>) -> bool {
    s == ""@ || s == "book_name"@ || s == "original_book_name"@ || s == "book_short_name"@
        || s == "ask_after_download"@
}

/// The first check a configuration fails, if any. `min_connect_timeout_ok`
/// says that the minimum connect timeout is above zero, `indent_ok` that the
/// first-line indent is not below zero.
pub open spec fn validation(c: ConfigView, min_connect_timeout_ok: bool, indent_ok: bool) -> Result<(), ConfigError> {
    if c.novel_format != "txt"@ && c.novel_format != "epub"@ {
        Err(ConfigError::NovelFormat)
    } else if c.enable_segment_comments && c.novel_format != "epub"@ {
        Err(ConfigError::SegmentCommentsNeedEpub)
    } else if c.audiobook_format != "mp3"@ && c.audiobook_format != "wav"@ {
        Err(ConfigError::AudiobookFormat)
    } else if c.max_workers == 0 {
        Err(ConfigError::MaxWorkers)
    } else if c.request_timeout == 0 {
        Err(ConfigError::RequestTimeout)
    } else if !min_connect_timeout_ok {
        Err(ConfigError::MinConnectTimeout)
    } else if c.min_wait_time > c.max_wait_time {
        Err(ConfigError::WaitOrder)
    } else if c.audiobook_concurrency == 0 {
        Err(ConfigError::AudiobookConcurrency)
    } else if c.segment_comments_top_n == 0 {
        Err(ConfigError::SegmentCommentsTopN)
    } else if c.segment_comments_workers == 0 {
        Err(ConfigError::SegmentCommentsWorkers)
    } else if c.media_download_workers == 0 {
        Err(ConfigError::MediaDownloadWorkers)
    } else if c.jpeg_quality > 100 {
        Err(ConfigError::JpegQuality)
    } else if !indent_ok {
        Err(ConfigError::FirstLineIndent)
    } else if !book_name_field_ok(c.preferred_book_name_field) {
        Err(ConfigError::PreferredBookNameField)
    } else {
        Ok(())
    }
}

/// Checks a submitted configuration; the error is the first rule it breaks.
pub fn validate_config(cfg: &Config, min_connect_timeout_ok: bool, indent_ok: bool) -> (r: Result<(), ConfigError>)
    ensures
        r == validation(cfg@, min_connect_timeout_ok, indent_ok),
{
    let nf = chars_of(cfg.novel_format.as_str());
    let is_txt = chars_eq_str(nf.as_slice(), "txt");
    let is_epub = chars_eq_str(nf.as_slice(), "epub");
    if !is_txt && !is_epub {
        return Err(ConfigError::NovelFormat);
    }
    if cfg.enable_segment_comments && !is_epub {
        return Err(ConfigError::SegmentCommentsNeedEpub);
    }
    let af = chars_of(cfg.audiobook_format.as_str());
    if !chars_eq_str(af.as_slice(), "mp3") && !chars_eq_str(af.as_slice(), "wav") {
        return Err(ConfigError::AudiobookFormat);
    }
    if cfg.max_workers == 0 {
        return Err(ConfigError::MaxWorkers);
    }
    if cfg.request_timeout == 0 {
        return Err(ConfigError::RequestTimeout);
    }
    if !min_connect_timeout_ok {
        return Err(ConfigError::MinConnectTimeout);
    }
    if cfg.min_wait_time > cfg.max_wait_time {
        return Err(ConfigError::WaitOrder);
    }
    if cfg.audiobook_concurrency == 0 {
        return Err(ConfigError::AudiobookConcurrency);
    }
    if cfg.segment_comments_top_n == 0 {
        return Err(ConfigError::SegmentCommentsTopN);
    }
    if cfg.segment_comments_workers == 0 {
        return Err(ConfigError::SegmentCommentsWorkers);
    }
    if cfg.media_download_workers == 0 {
        return Err(ConfigError::MediaDownloadWorkers);
    }
    if cfg.jpeg_quality > 100 {
        return Err(ConfigError::JpegQuality);
    }
    if !indent_ok {
        return Err(ConfigError::FirstLineIndent);
    }
    let bf = chars_of(cfg.preferred_book_name_field.as_str());
    let ok = bf.len() == 0 || chars_eq_str(bf.as_slice(), "book_name")
        || chars_eq_str(bf.as_slice(), "original_book_name")
        || chars_eq_str(bf.as_slice(), "book_short_name")
        || chars_eq_str(bf.as_slice(), "ask_after_download");
    if !ok {
        proof {
            reveal_strlit("");
        }
        return Err(ConfigError::PreferredBookNameField);
    }
    proof {
        reveal_strlit("");
        if bf.len() == 0 {
            assert(bf@ =~= ""@);
        }
    }
    Ok(())
}


/// Normalizing settings twice is normalizing them once.
pub proof fn lemma_normalize_idempotent(c: ConfigView)
    ensures
        normalized(normalized(c)) == normalized(c),
{
    crate::text::lemma_trim_lower(c.novel_format);
    crate::text::lemma_trim_lower(c.audiobook_format);
    crate::text::lemma_trim_lower(c.audiobook_tts_provider);
    crate::text::lemma_trim_lower(c.preferred_book_name_field);
    crate::text::lemma_lower_idempotent(trim_seq(c.novel_format));
    crate::text::lemma_lower_idempotent(trim_seq(c.audiobook_format));
    crate::text::lemma_lower_idempotent(trim_seq(c.audiobook_tts_provider));
    crate::text::lemma_lower_idempotent(trim_seq(c.preferred_book_name_field));
}

} // verus!
