//! Settings editing in the line-oriented console interface: the menu of
//! options, how each value is shown, and the rules an edit must pass.

use crate::config::{canonical, canonical_string, Config, ConfigView};
use crate::text::{
    bool_text, bool_to_string, chars_eq_str, chars_of, dec_string, eq_ignore_ascii_case, join_seq,
    join_strings, list_spec, str_eq, lower_seq, parse_i64, parse_i64_spec, parse_list, parse_unsigned,
    parse_unsigned_spec, string_of, strings_view, to_lower_chars, trim_chars, trim_seq, u64_to_string,
};
use vstd::prelude::*;

verus! {

/// How an option's new value is read.
#[derive(Debug, Clone, Copy, PartialEq, Eq, Structural)]
pub enum ConfigValueType {
    Bool,
    Int,
    Float,
    String,
    List,
}

/// The settings the console menu offers.
#[derive(Debug, Clone, Copy, PartialEq, Eq, Structural)]
pub enum ConfigField {
    SavePath,
    NovelFormat,
    BulkFiles,
    GracefulExit,
    AutoClearDump,
    EnableAudiobook,
    AudiobookVoice,
    AudiobookRate,
    AudiobookVolume,
    AudiobookPitch,
    AudiobookConcurrency,
    AudiobookFormat,
    MaxWorkers,
    RequestTimeout,
    MaxRetries,
    MinWaitTime,
    MaxWaitTime,
    MinConnectTimeout,
    ForceExitTimeout,
    UseOfficialApi,
    ApiEndpoints,
    EnableSegmentComments,
    SegmentCommentsTopN,
    SegmentCommentsWorkers,
    DownloadCommentImages,
    DownloadCommentAvatars,
    MediaDownloadWorkers,
    BlockedMediaDomains,
    ForceConvertImagesToJpeg,
    JpegRetryConvert,
    JpegQuality,
    ConvertHeicToJpeg,
    KeepHeicOriginal,
    MediaLimitPerChapter,
    MediaMaxDimensionPx,
    MediaTotalLimitMb,
    FirstLineIndentEm,
    OldCli,
}

/// One line of the settings menu.
#[derive(Debug, Clone, Copy)]
pub struct ConfigOption {
    pub name: &'static str,
    pub field: ConfigField,
    pub ty: ConfigValueType,
}

/// The number of lines of the settings menu.
pub const OPTION_COUNT: usize = 38;

/// The settings menu, line by line: label, setting and value type.
pub open spec fn option_spec(i: int) -> (Seq<char>, ConfigField, ConfigValueType) {
    if i == 0 { ("保存路径"@, ConfigField::SavePath, ConfigValueType::String) }
    else if i == 1 { ("小说保存格式(txt/epub)"@, ConfigField::NovelFormat, ConfigValueType::String) }
    else if i == 2 { ("是否以散装形式保存小说"@, ConfigField::BulkFiles, ConfigValueType::Bool) }
    else if i == 3 { ("优雅退出模式"@, ConfigField::GracefulExit, ConfigValueType::Bool) }
    else if i == 4 { ("是否自动清理缓存文件"@, ConfigField::AutoClearDump, ConfigValueType::Bool) }
    else if i == 5 { ("是否生成有声小说"@, ConfigField::EnableAudiobook, ConfigValueType::Bool) }
    else if i == 6 { ("有声小说发音人"@, ConfigField::AudiobookVoice, ConfigValueType::String) }
    else if i == 7 { ("有声小说语速(如+0%)"@, ConfigField::AudiobookRate, ConfigValueType::String) }
    else if i == 8 { ("有声小说音量(如+0%)"@, ConfigField::AudiobookVolume, ConfigValueType::String) }
    else if i == 9 { ("有声小说音调(如+2Hz/-1st, 可留空)"@, ConfigField::AudiobookPitch, ConfigValueType::String) }
    else if i == 10 { ("有声小说并发数"@, ConfigField::AudiobookConcurrency, ConfigValueType::Int) }
    else if i == 11 { ("有声小说格式(mp3/wav)"@, ConfigField::AudiobookFormat, ConfigValueType::String) }
    else if i == 12 { ("最大线程数"@, ConfigField::MaxWorkers, ConfigValueType::Int) }
    else if i == 13 { ("请求超时(秒)"@, ConfigField::RequestTimeout, ConfigValueType::Int) }
    else if i == 14 { ("最大重试次数"@, ConfigField::MaxRetries, ConfigValueType::Int) }
    else if i == 15 { ("最小等待时间(ms)"@, ConfigField::MinWaitTime, ConfigValueType::Int) }
    else if i == 16 { ("最大等待时间(ms)"@, ConfigField::MaxWaitTime, ConfigValueType::Int) }
    else if i == 17 { ("最小连接超时时间"@, ConfigField::MinConnectTimeout, ConfigValueType::Float) }
    else if i == 18 { ("强制退出等待时间(秒)"@, ConfigField::ForceExitTimeout, ConfigValueType::Int) }
    else if i == 19 { ("是否使用官方API"@, ConfigField::UseOfficialApi, ConfigValueType::Bool) }
    else if i == 20 { ("自定义API列表(逗号分隔)"@, ConfigField::ApiEndpoints, ConfigValueType::List) }
    else if i == 21 { ("是否下载段评"@, ConfigField::EnableSegmentComments, ConfigValueType::Bool) }
    else if i == 22 { ("段评每段最多条数"@, ConfigField::SegmentCommentsTopN, ConfigValueType::Int) }
    else if i == 23 { ("段评并发线程数"@, ConfigField::SegmentCommentsWorkers, ConfigValueType::Int) }
    else if i == 24 { ("是否下载评论区图片"@, ConfigField::DownloadCommentImages, ConfigValueType::Bool) }
    else if i == 25 { ("是否下载评论区头像"@, ConfigField::DownloadCommentAvatars, ConfigValueType::Bool) }
    else if i == 26 { ("评论图片下载线程数"@, ConfigField::MediaDownloadWorkers, ConfigValueType::Int) }
    else if i == 27 { ("图片域名黑名单(逗号分隔)"@, ConfigField::BlockedMediaDomains, ConfigValueType::List) }
    else if i == 28 { ("强制所有图片转JPEG"@, ConfigField::ForceConvertImagesToJpeg, ConfigValueType::Bool) }
    else if i == 29 { ("非JPEG尝试转JPEG"@, ConfigField::JpegRetryConvert, ConfigValueType::Bool) }
    else if i == 30 { ("JPEG质量(0-100)"@, ConfigField::JpegQuality, ConfigValueType::Int) }
    else if i == 31 { ("HEIC转JPEG"@, ConfigField::ConvertHeicToJpeg, ConfigValueType::Bool) }
    else if i == 32 { ("保留原始HEIC文件"@, ConfigField::KeepHeicOriginal, ConfigValueType::Bool) }
    else if i == 33 { ("每章媒体数量上限(0为不限制)"@, ConfigField::MediaLimitPerChapter, ConfigValueType::Int) }
    else if i == 34 { ("图片最长边像素上限(>0生效)"@, ConfigField::MediaMaxDimensionPx, ConfigValueType::Int) }
    else if i == 35 { ("会话媒体总下载上限(MB,0不限制)"@, ConfigField::MediaTotalLimitMb, ConfigValueType::Int) }
    else if i == 36 { ("EPUB首行缩进(em)"@, ConfigField::FirstLineIndentEm, ConfigValueType::Float) }
    else { ("是否使用老版本命令行界面(需重启)"@, ConfigField::OldCli, ConfigValueType::Bool) }
}

/// The option on line `i` (counted from 0) of the settings menu.
pub fn option_at(i: usize) -> (o: ConfigOption)
    requires
        i < OPTION_COUNT,
    ensures
        o.name@ == option_spec(i as int).0,
        o.field == option_spec(i as int).1,
        o.ty == option_spec(i as int).2,
{
    let (name, field, ty) = match i {
        0 => ("保存路径", ConfigField::SavePath, ConfigValueType::String),
        1 => ("小说保存格式(txt/epub)", ConfigField::NovelFormat, ConfigValueType::String),
        2 => ("是否以散装形式保存小说", ConfigField::BulkFiles, ConfigValueType::Bool),
        3 => ("优雅退出模式", ConfigField::GracefulExit, ConfigValueType::Bool),
        4 => ("是否自动清理缓存文件", ConfigField::AutoClearDump, ConfigValueType::Bool),
        5 => ("是否生成有声小说", ConfigField::EnableAudiobook, ConfigValueType::Bool),
        6 => ("有声小说发音人", ConfigField::AudiobookVoice, ConfigValueType::String),
        7 => ("有声小说语速(如+0%)", ConfigField::AudiobookRate, ConfigValueType::String),
        8 => ("有声小说音量(如+0%)", ConfigField::AudiobookVolume, ConfigValueType::String),
        9 => ("有声小说音调(如+2Hz/-1st, 可留空)", ConfigField::AudiobookPitch, ConfigValueType::String),
        10 => ("有声小说并发数", ConfigField::AudiobookConcurrency, ConfigValueType::Int),
        11 => ("有声小说格式(mp3/wav)", ConfigField::AudiobookFormat, ConfigValueType::String),
        12 => ("最大线程数", ConfigField::MaxWorkers, ConfigValueType::Int),
        13 => ("请求超时(秒)", ConfigField::RequestTimeout, ConfigValueType::Int),
        14 => ("最大重试次数", ConfigField::MaxRetries, ConfigValueType::Int),
        15 => ("最小等待时间(ms)", ConfigField::MinWaitTime, ConfigValueType::Int),
        16 => ("最大等待时间(ms)", ConfigField::MaxWaitTime, ConfigValueType::Int),
        17 => ("最小连接超时时间", ConfigField::MinConnectTimeout, ConfigValueType::Float),
        18 => ("强制退出等待时间(秒)", ConfigField::ForceExitTimeout, ConfigValueType::Int),
        19 => ("是否使用官方API", ConfigField::UseOfficialApi, ConfigValueType::Bool),
        20 => ("自定义API列表(逗号分隔)", ConfigField::ApiEndpoints, ConfigValueType::List),
        21 => ("是否下载段评", ConfigField::EnableSegmentComments, ConfigValueType::Bool),
        22 => ("段评每段最多条数", ConfigField::SegmentCommentsTopN, ConfigValueType::Int),
        23 => ("段评并发线程数", ConfigField::SegmentCommentsWorkers, ConfigValueType::Int),
        24 => ("是否下载评论区图片", ConfigField::DownloadCommentImages, ConfigValueType::Bool),
        25 => ("是否下载评论区头像", ConfigField::DownloadCommentAvatars, ConfigValueType::Bool),
        26 => ("评论图片下载线程数", ConfigField::MediaDownloadWorkers, ConfigValueType::Int),
        27 => ("图片域名黑名单(逗号分隔)", ConfigField::BlockedMediaDomains, ConfigValueType::List),
        28 => ("强制所有图片转JPEG", ConfigField::ForceConvertImagesToJpeg, ConfigValueType::Bool),
        29 => ("非JPEG尝试转JPEG", ConfigField::JpegRetryConvert, ConfigValueType::Bool),
        30 => ("JPEG质量(0-100)", ConfigField::JpegQuality, ConfigValueType::Int),
        31 => ("HEIC转JPEG", ConfigField::ConvertHeicToJpeg, ConfigValueType::Bool),
        32 => ("保留原始HEIC文件", ConfigField::KeepHeicOriginal, ConfigValueType::Bool),
        33 => ("每章媒体数量上限(0为不限制)", ConfigField::MediaLimitPerChapter, ConfigValueType::Int),
        34 => ("图片最长边像素上限(>0生效)", ConfigField::MediaMaxDimensionPx, ConfigValueType::Int),
        35 => ("会话媒体总下载上限(MB,0不限制)", ConfigField::MediaTotalLimitMb, ConfigValueType::Int),
        36 => ("EPUB首行缩进(em)", ConfigField::FirstLineIndentEm, ConfigValueType::Float),
        _ => ("是否使用老版本命令行界面(需重启)", ConfigField::OldCli, ConfigValueType::Bool),
    };
    ConfigOption { name, field, ty }
}

/// The menu label of a setting: its name, marked when segment comments
/// cannot apply because the novel format is TXT.
pub open spec fn option_label_spec(name: Seq<char>, field: ConfigField, novel_format: Seq<char>) -> Seq<char> {
    if field == ConfigField::EnableSegmentComments && lower_seq(novel_format) == lower_seq("txt"@) {
        name + "（TXT 不支持）"@
    } else {
        name
    }
}

/// The label of `opt` in the menu for the settings `config`.
pub fn option_label(opt: &ConfigOption, config: &Config) -> (s: String)
    ensures
        s@ == option_label_spec(opt.name@, opt.field, config.novel_format@),
{
    let mut v = chars_of(opt.name);
    if opt.field == ConfigField::EnableSegmentComments && eq_ignore_ascii_case(config.novel_format.as_str(), "txt") {
        let mark = chars_of("（TXT 不支持）");
        v.extend_from_slice(mark.as_slice());
    }
    string_of(v.as_slice())
}

/// How a setting's current value is shown; `None` for the two
/// floating-point settings, which this library does not hold.
pub open spec fn display_spec(c: ConfigView, f: ConfigField) -> Option<Seq<char>> {
    match f {
        ConfigField::SavePath => Some(c.save_path),
        ConfigField::NovelFormat => Some(c.novel_format),
        ConfigField::BulkFiles => Some(bool_text(c.bulk_files)),
        ConfigField::GracefulExit => Some(bool_text(c.graceful_exit)),
        ConfigField::AutoClearDump => Some(bool_text(c.auto_clear_dump)),
        ConfigField::EnableAudiobook => Some(bool_text(c.enable_audiobook)),
        ConfigField::AudiobookVoice => Some(c.audiobook_voice),
        ConfigField::AudiobookRate => Some(c.audiobook_rate),
        ConfigField::AudiobookVolume => Some(c.audiobook_volume),
        ConfigField::AudiobookPitch => Some(c.audiobook_pitch),
        ConfigField::AudiobookConcurrency => Some(dec_string(c.audiobook_concurrency)),
        ConfigField::AudiobookFormat => Some(c.audiobook_format),
        ConfigField::MaxWorkers => Some(dec_string(c.max_workers)),
        ConfigField::RequestTimeout => Some(dec_string(c.request_timeout)),
        ConfigField::MaxRetries => Some(dec_string(c.max_retries)),
        ConfigField::MinWaitTime => Some(dec_string(c.min_wait_time)),
        ConfigField::MaxWaitTime => Some(dec_string(c.max_wait_time)),
        ConfigField::MinConnectTimeout => None,
        ConfigField::ForceExitTimeout => Some(dec_string(c.force_exit_timeout)),
        ConfigField::UseOfficialApi => Some(bool_text(c.use_official_api)),
        ConfigField::ApiEndpoints => Some(join_seq(c.api_endpoints, ","@)),
        ConfigField::EnableSegmentComments => Some(bool_text(c.enable_segment_comments)),
        ConfigField::SegmentCommentsTopN => Some(dec_string(c.segment_comments_top_n)),
        ConfigField::SegmentCommentsWorkers => Some(dec_string(c.segment_comments_workers)),
        ConfigField::DownloadCommentImages => Some(bool_text(c.download_comment_images)),
        ConfigField::DownloadCommentAvatars => Some(bool_text(c.download_comment_avatars)),
        ConfigField::MediaDownloadWorkers => Some(dec_string(c.media_download_workers)),
        ConfigField::BlockedMediaDomains => Some(join_seq(c.blocked_media_domains, ","@)),
        ConfigField::ForceConvertImagesToJpeg => Some(bool_text(c.force_convert_images_to_jpeg)),
        ConfigField::JpegRetryConvert => Some(bool_text(c.jpeg_retry_convert)),
        ConfigField::JpegQuality => Some(dec_string(c.jpeg_quality)),
        ConfigField::ConvertHeicToJpeg => Some(bool_text(c.convert_heic_to_jpeg)),
        ConfigField::KeepHeicOriginal => Some(bool_text(c.keep_heic_original)),
        ConfigField::MediaLimitPerChapter => Some(dec_string(c.media_limit_per_chapter)),
        ConfigField::MediaMaxDimensionPx => Some(dec_string(c.media_max_dimension_px)),
        ConfigField::MediaTotalLimitMb => Some(dec_string(c.media_total_limit_mb)),
        ConfigField::FirstLineIndentEm => None,
        ConfigField::OldCli => Some(bool_text(c.old_cli)),
    }
}

/// The view of an optional string.
pub open spec fn opt_string_view(o: Option<String>) -> Option<Seq<char>> {
    match o {
        Some(s) => Some(s@),
        None => None,
    }
}

/// The shown value of `field`.
pub fn config_value_display(config: &Config, field: ConfigField) -> (r: Option<String>)
    ensures
        opt_string_view(r) == display_spec(config@, field),
{
    match field {
        ConfigField::SavePath => Some(string_of(chars_of(config.save_path.as_str()).as_slice())),
        ConfigField::NovelFormat => Some(string_of(chars_of(config.novel_format.as_str()).as_slice())),
        ConfigField::BulkFiles => Some(bool_to_string(config.bulk_files)),
        ConfigField::GracefulExit => Some(bool_to_string(config.graceful_exit)),
        ConfigField::AutoClearDump => Some(bool_to_string(config.auto_clear_dump)),
        ConfigField::EnableAudiobook => Some(bool_to_string(config.enable_audiobook)),
        ConfigField::AudiobookVoice => Some(string_of(chars_of(config.audiobook_voice.as_str()).as_slice())),
        ConfigField::AudiobookRate => Some(string_of(chars_of(config.audiobook_rate.as_str()).as_slice())),
        ConfigField::AudiobookVolume => Some(string_of(chars_of(config.audiobook_volume.as_str()).as_slice())),
        ConfigField::AudiobookPitch => Some(string_of(chars_of(config.audiobook_pitch.as_str()).as_slice())),
        ConfigField::AudiobookConcurrency => Some(u64_to_string(config.audiobook_concurrency as u64)),
        ConfigField::AudiobookFormat => Some(string_of(chars_of(config.audiobook_format.as_str()).as_slice())),
        ConfigField::MaxWorkers => Some(u64_to_string(config.max_workers as u64)),
        ConfigField::RequestTimeout => Some(u64_to_string(config.request_timeout)),
        ConfigField::MaxRetries => Some(u64_to_string(config.max_retries as u64)),
        ConfigField::MinWaitTime => Some(u64_to_string(config.min_wait_time)),
        ConfigField::MaxWaitTime => Some(u64_to_string(config.max_wait_time)),
        ConfigField::MinConnectTimeout => None,
        ConfigField::ForceExitTimeout => Some(u64_to_string(config.force_exit_timeout)),
        ConfigField::UseOfficialApi => Some(bool_to_string(config.use_official_api)),
        ConfigField::ApiEndpoints => Some(join_strings(config.api_endpoints.as_slice(), ",")),
        ConfigField::EnableSegmentComments => Some(bool_to_string(config.enable_segment_comments)),
        ConfigField::SegmentCommentsTopN => Some(u64_to_string(config.segment_comments_top_n as u64)),
        ConfigField::SegmentCommentsWorkers => Some(u64_to_string(config.segment_comments_workers as u64)),
        ConfigField::DownloadCommentImages => Some(bool_to_string(config.download_comment_images)),
        ConfigField::DownloadCommentAvatars => Some(bool_to_string(config.download_comment_avatars)),
        ConfigField::MediaDownloadWorkers => Some(u64_to_string(config.media_download_workers as u64)),
        ConfigField::BlockedMediaDomains => Some(join_strings(config.blocked_media_domains.as_slice(), ",")),
        ConfigField::ForceConvertImagesToJpeg => Some(bool_to_string(config.force_convert_images_to_jpeg)),
        ConfigField::JpegRetryConvert => Some(bool_to_string(config.jpeg_retry_convert)),
        ConfigField::JpegQuality => Some(u64_to_string(config.jpeg_quality as u64)),
        ConfigField::ConvertHeicToJpeg => Some(bool_to_string(config.convert_heic_to_jpeg)),
        ConfigField::KeepHeicOriginal => Some(bool_to_string(config.keep_heic_original)),
        ConfigField::MediaLimitPerChapter => Some(u64_to_string(config.media_limit_per_chapter as u64)),
        ConfigField::MediaMaxDimensionPx => Some(u64_to_string(config.media_max_dimension_px as u64)),
        ConfigField::MediaTotalLimitMb => Some(u64_to_string(config.media_total_limit_mb as u64)),
        ConfigField::FirstLineIndentEm => None,
        ConfigField::OldCli => Some(bool_to_string(config.old_cli)),
    }
}


/// A remark printed after an edit that changed a second setting too.
#[derive(Debug, Clone, Copy, PartialEq, Eq, Structural)]
pub enum CliNote {
    /// Enabling segment comments switched the format from TXT to EPUB.
    SwitchedToEpub,
    /// Choosing TXT switched segment comments off.
    SegmentCommentsOff,
}

/// The text of each remark.
pub open spec fn cli_note_text(n: CliNote) -> Seq<char> {
    match n {
        CliNote::SwitchedToEpub => "已自动将保存格式切换为 EPUB 以启用段评功能。"@,
        CliNote::SegmentCommentsOff => "已自动关闭段评以兼容 TXT 格式。"@,
    }
}

impl CliNote {
    /// The text printed for the remark.
    pub fn message(&self) -> (s: String)
        ensures
            s@ == cli_note_text(*self),
    {
        match self {
            CliNote::SwitchedToEpub => String::from_str("已自动将保存格式切换为 EPUB 以启用段评功能。"),
            CliNote::SegmentCommentsOff => String::from_str("已自动关闭段评以兼容 TXT 格式。"),
        }
    }
}

/// Why an edit was refused.
#[derive(Debug, Clone, Copy, PartialEq, Eq, Structural)]
pub enum CliEditError {
    IntParse,
    NotBool,
    NotInt,
    NotString,
    NotList,
    MaxWorkers,
    RequestTimeout,
    MaxRetries,
    MinWaitNegative,
    MinWaitAboveMax,
    MaxWaitNegative,
    MaxWaitBelowMin,
    ForceExitTimeout,
    AudiobookConcurrency,
    SegmentCommentsTopN,
    SegmentCommentsWorkers,
    MediaDownloadWorkers,
    JpegQuality,
    MediaLimitPerChapter,
    MediaMaxDimensionPx,
    MediaTotalLimitMb,
    EmptySavePath,
    NovelFormat,
    AudiobookFormat,
}

/// The message of each refusal.
pub open spec fn cli_error_text(e: CliEditError) -> Seq<char> {
    match e {
        CliEditError::IntParse => "类型转换失败：需要整数"@,
        CliEditError::NotBool => "该字段不是 bool"@,
        CliEditError::NotInt => "该字段不是 int"@,
        CliEditError::NotString => "该字段不是 string"@,
        CliEditError::NotList => "该字段不是 list"@,
        CliEditError::MaxWorkers => "最大线程数必须大于 0"@,
        CliEditError::RequestTimeout => "请求超时必须大于 0"@,
        CliEditError::MaxRetries => "最大重试次数不能为负"@,
        CliEditError::MinWaitNegative => "最小等待时间不能为负"@,
        CliEditError::MinWaitAboveMax => "最小等待时间不能超过最大等待时间"@,
        CliEditError::MaxWaitNegative => "最大等待时间不能为负"@,
        CliEditError::MaxWaitBelowMin => "最大等待时间不能小于最小等待时间"@,
        CliEditError::ForceExitTimeout => "强制退出等待时间不能为负"@,
        CliEditError::AudiobookConcurrency => "有声小说并发数必须大于 0"@,
        CliEditError::SegmentCommentsTopN => "段评条数上限必须大于 0"@,
        CliEditError::SegmentCommentsWorkers => "段评线程数必须大于 0"@,
        CliEditError::MediaDownloadWorkers => "媒体线程数必须大于 0"@,
        CliEditError::JpegQuality => "JPEG质量需在 0-100 之间"@,
        CliEditError::MediaLimitPerChapter => "每章媒体数量上限不能为负"@,
        CliEditError::MediaMaxDimensionPx => "图片最长边像素上限不能为负"@,
        CliEditError::MediaTotalLimitMb => "媒体总下载上限不能为负"@,
        CliEditError::EmptySavePath => "保存路径不能为空"@,
        CliEditError::NovelFormat => "保存格式仅支持 txt/epub"@,
        CliEditError::AudiobookFormat => "有声小说格式仅支持 mp3/wav"@,
    }
}

impl CliEditError {
    /// The message shown for the refusal.
    pub fn message(&self) -> (s: String)
        ensures
            s@ == cli_error_text(*self),
    {
        match self {
            CliEditError::IntParse => String::from_str("类型转换失败：需要整数"),
            CliEditError::NotBool => String::from_str("该字段不是 bool"),
            CliEditError::NotInt => String::from_str("该字段不是 int"),
            CliEditError::NotString => String::from_str("该字段不是 string"),
            CliEditError::NotList => String::from_str("该字段不是 list"),
            CliEditError::MaxWorkers => String::from_str("最大线程数必须大于 0"),
            CliEditError::RequestTimeout => String::from_str("请求超时必须大于 0"),
            CliEditError::MaxRetries => String::from_str("最大重试次数不能为负"),
            CliEditError::MinWaitNegative => String::from_str("最小等待时间不能为负"),
            CliEditError::MinWaitAboveMax => String::from_str("最小等待时间不能超过最大等待时间"),
            CliEditError::MaxWaitNegative => String::from_str("最大等待时间不能为负"),
            CliEditError::MaxWaitBelowMin => String::from_str("最大等待时间不能小于最小等待时间"),
            CliEditError::ForceExitTimeout => String::from_str("强制退出等待时间不能为负"),
            CliEditError::AudiobookConcurrency => String::from_str("有声小说并发数必须大于 0"),
            CliEditError::SegmentCommentsTopN => String::from_str("段评条数上限必须大于 0"),
            CliEditError::SegmentCommentsWorkers => String::from_str("段评线程数必须大于 0"),
            CliEditError::MediaDownloadWorkers => String::from_str("媒体线程数必须大于 0"),
            CliEditError::JpegQuality => String::from_str("JPEG质量需在 0-100 之间"),
            CliEditError::MediaLimitPerChapter => String::from_str("每章媒体数量上限不能为负"),
            CliEditError::MediaMaxDimensionPx => String::from_str("图片最长边像素上限不能为负"),
            CliEditError::MediaTotalLimitMb => String::from_str("媒体总下载上限不能为负"),
            CliEditError::EmptySavePath => String::from_str("保存路径不能为空"),
            CliEditError::NovelFormat => String::from_str("保存格式仅支持 txt/epub"),
            CliEditError::AudiobookFormat => String::from_str("有声小说格式仅支持 mp3/wav"),
        }
    }
}

/// What an accepted edit asks of the caller next.
#[derive(Debug, Clone, Copy, PartialEq, Eq, Structural)]
pub enum CliEdit {
    /// The setting was changed.
    Applied,
    /// The setting was changed, with a remark to print.
    AppliedWithNote(CliNote),
    /// The setting holds a decimal fraction, which the caller reads and sets.
    FloatValue,
}

/// Whether `f` is a boolean setting.
pub open spec fn is_bool_field(f: ConfigField) -> bool {
    f == ConfigField::BulkFiles
        || f == ConfigField::GracefulExit
        || f == ConfigField::AutoClearDump
        || f == ConfigField::EnableAudiobook
        || f == ConfigField::UseOfficialApi
        || f == ConfigField::DownloadCommentImages
        || f == ConfigField::DownloadCommentAvatars
        || f == ConfigField::ForceConvertImagesToJpeg
        || f == ConfigField::JpegRetryConvert
        || f == ConfigField::ConvertHeicToJpeg
        || f == ConfigField::KeepHeicOriginal
        || f == ConfigField::OldCli
        || f == ConfigField::EnableSegmentComments
}

/// Whether `novel_format` reads "txt" in any ASCII case.
pub open spec fn is_txt(novel_format: Seq<char>) -> bool {
    lower_seq(novel_format) == lower_seq("txt"@)
}

/// Setting the boolean setting `f` of `old` to `v` gives `new` and `r`:
/// the setting takes `v` and nothing else changes, except that enabling
/// segment comments while the format is TXT also switches the format to
/// EPUB; a setting that is not boolean is refused.
#[verifier::inline]
pub open spec fn bool_edit(old: Config, new: Config, f: ConfigField, v: bool, r: Result<Option<CliNote>, CliEditError>) -> bool {
    &&& f == ConfigField::BulkFiles ==> new == (Config { bulk_files: v, ..old }) && r == Ok::<Option<CliNote>, CliEditError>(None)
    &&& f == ConfigField::GracefulExit ==> new == (Config { graceful_exit: v, ..old }) && r == Ok::<Option<CliNote>, CliEditError>(None)
    &&& f == ConfigField::AutoClearDump ==> new == (Config { auto_clear_dump: v, ..old }) && r == Ok::<Option<CliNote>, CliEditError>(None)
    &&& f == ConfigField::EnableAudiobook ==> new == (Config { enable_audiobook: v, ..old }) && r == Ok::<Option<CliNote>, CliEditError>(None)
    &&& f == ConfigField::UseOfficialApi ==> new == (Config { use_official_api: v, ..old }) && r == Ok::<Option<CliNote>, CliEditError>(None)
    &&& f == ConfigField::DownloadCommentImages ==> new == (Config { download_comment_images: v, ..old }) && r == Ok::<Option<CliNote>, CliEditError>(None)
    &&& f == ConfigField::DownloadCommentAvatars ==> new == (Config { download_comment_avatars: v, ..old }) && r == Ok::<Option<CliNote>, CliEditError>(None)
    &&& f == ConfigField::ForceConvertImagesToJpeg ==> new == (Config { force_convert_images_to_jpeg: v, ..old }) && r == Ok::<Option<CliNote>, CliEditError>(None)
    &&& f == ConfigField::JpegRetryConvert ==> new == (Config { jpeg_retry_convert: v, ..old }) && r == Ok::<Option<CliNote>, CliEditError>(None)
    &&& f == ConfigField::ConvertHeicToJpeg ==> new == (Config { convert_heic_to_jpeg: v, ..old }) && r == Ok::<Option<CliNote>, CliEditError>(None)
    &&& f == ConfigField::KeepHeicOriginal ==> new == (Config { keep_heic_original: v, ..old }) && r == Ok::<Option<CliNote>, CliEditError>(None)
    &&& f == ConfigField::OldCli ==> new == (Config { old_cli: v, ..old }) && r == Ok::<Option<CliNote>, CliEditError>(None)
    &&& f == ConfigField::EnableSegmentComments ==> if v && is_txt(old.novel_format@) {
        &&& new == (Config { novel_format: new.novel_format, enable_segment_comments: true, ..old })
        &&& new.novel_format@ == "epub"@
        &&& r == Ok::<Option<CliNote>, CliEditError>(Some(CliNote::SwitchedToEpub))
    } else {
        new == (Config { enable_segment_comments: v, ..old }) && r == Ok::<Option<CliNote>, CliEditError>(None)
    }
    &&& !is_bool_field(f) ==> new == old && r == Err::<Option<CliNote>, CliEditError>(CliEditError::NotBool)
}

/// Sets a boolean setting; enabling segment comments while the format is
/// TXT switches the format to EPUB.
pub fn set_bool(config: &mut Config, field: ConfigField, v: bool) -> (r: Result<Option<CliNote>, CliEditError>)
    ensures
        bool_edit(*old(config), *final(config), field, v, r),
{
    match field {
        ConfigField::BulkFiles => {
            config.bulk_files = v;
            return Ok(None);
        },
        ConfigField::GracefulExit => {
            config.graceful_exit = v;
            return Ok(None);
        },
        ConfigField::AutoClearDump => {
            config.auto_clear_dump = v;
            return Ok(None);
        },
        ConfigField::EnableAudiobook => {
            config.enable_audiobook = v;
            return Ok(None);
        },
        ConfigField::UseOfficialApi => {
            config.use_official_api = v;
            return Ok(None);
        },
        ConfigField::EnableSegmentComments => {
            if v && eq_ignore_ascii_case(config.novel_format.as_str(), "txt") {
                config.novel_format = String::from_str("epub");
                config.enable_segment_comments = true;
                return Ok(Some(CliNote::SwitchedToEpub));
            }
            config.enable_segment_comments = v;
            return Ok(None);
        },
        ConfigField::DownloadCommentImages => {
            config.download_comment_images = v;
            return Ok(None);
        },
        ConfigField::DownloadCommentAvatars => {
            config.download_comment_avatars = v;
            return Ok(None);
        },
        ConfigField::ForceConvertImagesToJpeg => {
            config.force_convert_images_to_jpeg = v;
            return Ok(None);
        },
        ConfigField::JpegRetryConvert => {
            config.jpeg_retry_convert = v;
            return Ok(None);
        },
        ConfigField::ConvertHeicToJpeg => {
            config.convert_heic_to_jpeg = v;
            return Ok(None);
        },
        ConfigField::KeepHeicOriginal => {
            config.keep_heic_original = v;
            return Ok(None);
        },
        ConfigField::OldCli => {
            config.old_cli = v;
            return Ok(None);
        },
        _ => return Err(CliEditError::NotBool),
    }
}

/// Whether `f` is an integer setting.
pub open spec fn is_int_field(f: ConfigField) -> bool {
    f == ConfigField::MaxWorkers
        || f == ConfigField::RequestTimeout
        || f == ConfigField::MaxRetries
        || f == ConfigField::ForceExitTimeout
        || f == ConfigField::AudiobookConcurrency
        || f == ConfigField::SegmentCommentsTopN
        || f == ConfigField::SegmentCommentsWorkers
        || f == ConfigField::MediaDownloadWorkers
        || f == ConfigField::JpegQuality
        || f == ConfigField::MediaLimitPerChapter
        || f == ConfigField::MediaMaxDimensionPx
        || f == ConfigField::MediaTotalLimitMb
        || f == ConfigField::MinWaitTime || f == ConfigField::MaxWaitTime
}

/// `new` is `old` and `r` is the refusal `e`.
pub open spec fn refused<T>(old: Config, new: Config, r: Result<T, CliEditError>, e: CliEditError) -> bool {
    new == old && r == Err::<T, CliEditError>(e)
}

/// Setting the integer setting `f` of `old` to `v` gives `new` and `r`: each
/// setting has its range, and an accepted value is converted to the
/// setting's integer type; the minimum wait may not exceed the maximum, nor
/// the maximum fall below the minimum.
#[verifier::inline]
pub open spec fn int_edit(old: Config, new: Config, f: ConfigField, v: int, r: Result<(), CliEditError>) -> bool {
    &&& f == ConfigField::MaxWorkers ==> if v <= 0 { refused(old, new, r, CliEditError::MaxWorkers) }
        else { new == (Config { max_workers: v as usize, ..old }) && r == Ok::<(), CliEditError>(()) }
    &&& f == ConfigField::RequestTimeout ==> if v <= 0 { refused(old, new, r, CliEditError::RequestTimeout) }
        else { new == (Config { request_timeout: v as u64, ..old }) && r == Ok::<(), CliEditError>(()) }
    &&& f == ConfigField::MaxRetries ==> if v < 0 { refused(old, new, r, CliEditError::MaxRetries) }
        else { new == (Config { max_retries: v as u32, ..old }) && r == Ok::<(), CliEditError>(()) }
    &&& f == ConfigField::ForceExitTimeout ==> if v < 0 { refused(old, new, r, CliEditError::ForceExitTimeout) }
        else { new == (Config { force_exit_timeout: v as u64, ..old }) && r == Ok::<(), CliEditError>(()) }
    &&& f == ConfigField::AudiobookConcurrency ==> if v <= 0 { refused(old, new, r, CliEditError::AudiobookConcurrency) }
        else { new == (Config { audiobook_concurrency: v as usize, ..old }) && r == Ok::<(), CliEditError>(()) }
    &&& f == ConfigField::SegmentCommentsTopN ==> if v <= 0 { refused(old, new, r, CliEditError::SegmentCommentsTopN) }
        else { new == (Config { segment_comments_top_n: v as usize, ..old }) && r == Ok::<(), CliEditError>(()) }
    &&& f == ConfigField::SegmentCommentsWorkers ==> if v <= 0 { refused(old, new, r, CliEditError::SegmentCommentsWorkers) }
        else { new == (Config { segment_comments_workers: v as usize, ..old }) && r == Ok::<(), CliEditError>(()) }
    &&& f == ConfigField::MediaDownloadWorkers ==> if v <= 0 { refused(old, new, r, CliEditError::MediaDownloadWorkers) }
        else { new == (Config { media_download_workers: v as usize, ..old }) && r == Ok::<(), CliEditError>(()) }
    &&& f == ConfigField::JpegQuality ==> if v < 0 || v > 100 { refused(old, new, r, CliEditError::JpegQuality) }
        else { new == (Config { jpeg_quality: v as u8, ..old }) && r == Ok::<(), CliEditError>(()) }
    &&& f == ConfigField::MediaLimitPerChapter ==> if v < 0 { refused(old, new, r, CliEditError::MediaLimitPerChapter) }
        else { new == (Config { media_limit_per_chapter: v as usize, ..old }) && r == Ok::<(), CliEditError>(()) }
    &&& f == ConfigField::MediaMaxDimensionPx ==> if v < 0 { refused(old, new, r, CliEditError::MediaMaxDimensionPx) }
        else { new == (Config { media_max_dimension_px: v as u32, ..old }) && r == Ok::<(), CliEditError>(()) }
    &&& f == ConfigField::MediaTotalLimitMb ==> if v < 0 { refused(old, new, r, CliEditError::MediaTotalLimitMb) }
        else { new == (Config { media_total_limit_mb: v as u32, ..old }) && r == Ok::<(), CliEditError>(()) }
    &&& f == ConfigField::MinWaitTime ==> if v < 0 { refused(old, new, r, CliEditError::MinWaitNegative) }
        else if v > old.max_wait_time { refused(old, new, r, CliEditError::MinWaitAboveMax) }
        else { new == (Config { min_wait_time: v as u64, ..old }) && r == Ok::<(), CliEditError>(()) }
    &&& f == ConfigField::MaxWaitTime ==> if v < 0 { refused(old, new, r, CliEditError::MaxWaitNegative) }
        else if v < old.min_wait_time { refused(old, new, r, CliEditError::MaxWaitBelowMin) }
        else { new == (Config { max_wait_time: v as u64, ..old }) && r == Ok::<(), CliEditError>(()) }
    &&& !is_int_field(f) ==> refused(old, new, r, CliEditError::NotInt)
}

/// Sets an integer setting after its range checks. Values too large for a
/// setting's integer type wrap as the conversion does.
pub fn set_int(config: &mut Config, field: ConfigField, v: i64) -> (r: Result<(), CliEditError>)
    ensures
        int_edit(*old(config), *final(config), field, v as int, r),
{
    match field {
        ConfigField::MaxWorkers => {
            if v <= 0 {
                return Err(CliEditError::MaxWorkers);
            }
            config.max_workers = v as usize;
            return Ok(());
        },
        ConfigField::RequestTimeout => {
            if v <= 0 {
                return Err(CliEditError::RequestTimeout);
            }
            config.request_timeout = v as u64;
            return Ok(());
        },
        ConfigField::MaxRetries => {
            if v < 0 {
                return Err(CliEditError::MaxRetries);
            }
            config.max_retries = v as u32;
            return Ok(());
        },
        ConfigField::ForceExitTimeout => {
            if v < 0 {
                return Err(CliEditError::ForceExitTimeout);
            }
            config.force_exit_timeout = v as u64;
            return Ok(());
        },
        ConfigField::AudiobookConcurrency => {
            if v <= 0 {
                return Err(CliEditError::AudiobookConcurrency);
            }
            config.audiobook_concurrency = v as usize;
            return Ok(());
        },
        ConfigField::SegmentCommentsTopN => {
            if v <= 0 {
                return Err(CliEditError::SegmentCommentsTopN);
            }
            config.segment_comments_top_n = v as usize;
            return Ok(());
        },
        ConfigField::SegmentCommentsWorkers => {
            if v <= 0 {
                return Err(CliEditError::SegmentCommentsWorkers);
            }
            config.segment_comments_workers = v as usize;
            return Ok(());
        },
        ConfigField::MediaDownloadWorkers => {
            if v <= 0 {
                return Err(CliEditError::MediaDownloadWorkers);
            }
            config.media_download_workers = v as usize;
            return Ok(());
        },
        ConfigField::JpegQuality => {
            if v < 0 || v > 100 {
                return Err(CliEditError::JpegQuality);
            }
            config.jpeg_quality = v as u8;
            return Ok(());
        },
        ConfigField::MediaLimitPerChapter => {
            if v < 0 {
                return Err(CliEditError::MediaLimitPerChapter);
            }
            config.media_limit_per_chapter = v as usize;
            return Ok(());
        },
        ConfigField::MediaMaxDimensionPx => {
            if v < 0 {
                return Err(CliEditError::MediaMaxDimensionPx);
            }
            config.media_max_dimension_px = v as u32;
            return Ok(());
        },
        ConfigField::MediaTotalLimitMb => {
            if v < 0 {
                return Err(CliEditError::MediaTotalLimitMb);
            }
            config.media_total_limit_mb = v as u32;
            return Ok(());
        },
        ConfigField::MinWaitTime => {
            if v < 0 {
                return Err(CliEditError::MinWaitNegative);
            }
            let w = v as u64;
            if w > config.max_wait_time {
                return Err(CliEditError::MinWaitAboveMax);
            }
            config.min_wait_time = w;
            return Ok(());
        },
        ConfigField::MaxWaitTime => {
            if v < 0 {
                return Err(CliEditError::MaxWaitNegative);
            }
            let w = v as u64;
            if w < config.min_wait_time {
                return Err(CliEditError::MaxWaitBelowMin);
            }
            config.max_wait_time = w;
            return Ok(());
        },
        _ => return Err(CliEditError::NotInt),
    }
}

/// Whether `f` is a text setting.
pub open spec fn is_text_field(f: ConfigField) -> bool {
    f == ConfigField::SavePath
        || f == ConfigField::NovelFormat
        || f == ConfigField::AudiobookVoice
        || f == ConfigField::AudiobookRate
        || f == ConfigField::AudiobookVolume
        || f == ConfigField::AudiobookPitch
        || f == ConfigField::AudiobookFormat
}

/// Whether the text `v`, trimmed and lowercased, is `lit`.
#[verifier::opaque]
pub open spec fn canonical_is(v: Seq<char>, lit: Seq<char>) -> bool {
    lower_seq(trim_seq(v)) == lit
}

/// `new` is `old` with the text setting `f` replaced by a string reading
/// `s`, and nothing else changed.
#[verifier::opaque]
pub open spec fn text_changed(old: Config, new: Config, f: ConfigField, s: Seq<char>) -> bool {
    match f {
        ConfigField::SavePath => new == (Config { save_path: new.save_path, ..old }) && new.save_path@ == s,
        ConfigField::NovelFormat => new == (Config { novel_format: new.novel_format, ..old }) && new.novel_format@ == s,
        ConfigField::AudiobookVoice => new == (Config { audiobook_voice: new.audiobook_voice, ..old }) && new.audiobook_voice@ == s,
        ConfigField::AudiobookRate => new == (Config { audiobook_rate: new.audiobook_rate, ..old }) && new.audiobook_rate@ == s,
        ConfigField::AudiobookVolume => new == (Config { audiobook_volume: new.audiobook_volume, ..old }) && new.audiobook_volume@ == s,
        ConfigField::AudiobookPitch => new == (Config { audiobook_pitch: new.audiobook_pitch, ..old }) && new.audiobook_pitch@ == s,
        ConfigField::AudiobookFormat => new == (Config { audiobook_format: new.audiobook_format, ..old }) && new.audiobook_format@ == s,
        _ => new == old,
    }
}

/// Setting the text setting `f` of `old` to `v` gives `new` and `r`: the save
/// path is trimmed and must not be blank; the two formats are trimmed,
/// lowercased and must be one of their values, and choosing TXT switches
/// segment comments off; the audiobook voice, rate, volume and pitch take
/// `v` as it is.
#[verifier::inline]
pub open spec fn text_edit(old: Config, new: Config, f: ConfigField, v: Seq<char>, r: Result<Option<CliNote>, CliEditError>) -> bool {
    &&& f == ConfigField::SavePath ==> if trim_seq(v).len() == 0 {
        refused(old, new, r, CliEditError::EmptySavePath)
    } else {
        text_changed(old, new, f, trim_seq(v)) && r == Ok::<Option<CliNote>, CliEditError>(None)
    }
    &&& f == ConfigField::NovelFormat ==> if !canonical_is(v, "txt"@) && !canonical_is(v, "epub"@) {
        refused(old, new, r, CliEditError::NovelFormat)
    } else if canonical_is(v, "txt"@) && old.enable_segment_comments {
        &&& text_changed(Config { enable_segment_comments: false, ..old }, new, f, canonical(v))
        &&& r == Ok::<Option<CliNote>, CliEditError>(Some(CliNote::SegmentCommentsOff))
    } else {
        text_changed(old, new, f, canonical(v)) && r == Ok::<Option<CliNote>, CliEditError>(None)
    }
    &&& (f == ConfigField::AudiobookVoice || f == ConfigField::AudiobookRate || f == ConfigField::AudiobookVolume
        || f == ConfigField::AudiobookPitch) ==> text_changed(old, new, f, v) && r == Ok::<Option<CliNote>, CliEditError>(None)
    &&& f == ConfigField::AudiobookFormat ==> if !canonical_is(v, "mp3"@) && !canonical_is(v, "wav"@) {
        refused(old, new, r, CliEditError::AudiobookFormat)
    } else {
        text_changed(old, new, f, canonical(v)) && r == Ok::<Option<CliNote>, CliEditError>(None)
    }
    &&& !is_text_field(f) ==> refused(old, new, r, CliEditError::NotString)
}

/// Sets the save path to `v`, trimmed; a blank path is refused.
fn set_save_path(config: &mut Config, v: &str) -> (r: Result<Option<CliNote>, CliEditError>)
    ensures
        text_edit(*old(config), *final(config), ConfigField::SavePath, v@, r),
{
    let p = trim_chars(chars_of(v).as_slice());
    if p.len() == 0 {
        return Err(CliEditError::EmptySavePath);
    }
    config.save_path = string_of(p.as_slice());
    proof {
        reveal(text_changed);
    }
    Ok(None)
}

/// Sets the novel format to `v`, trimmed and lowercased, which must be TXT or
/// EPUB; choosing TXT switches segment comments off.
fn set_novel_format(config: &mut Config, v: &str) -> (r: Result<Option<CliNote>, CliEditError>)
    ensures
        text_edit(*old(config), *final(config), ConfigField::NovelFormat, v@, r),
{
    let lower = canonical_string(v);
    proof {
        reveal(canonical_is);
    }
    let txt = str_eq(lower.as_str(), "txt");
    if !txt && !str_eq(lower.as_str(), "epub") {
        return Err(CliEditError::NovelFormat);
    }
    if txt && config.enable_segment_comments {
        config.enable_segment_comments = false;
        config.novel_format = lower;
        proof {
            reveal(text_changed);
        }
        return Ok(Some(CliNote::SegmentCommentsOff));
    }
    config.novel_format = lower;
    proof {
        reveal(text_changed);
    }
    Ok(None)
}

/// Sets the audiobook format to `v`, trimmed and lowercased, which must be
/// MP3 or WAV.
fn set_audiobook_format(config: &mut Config, v: &str) -> (r: Result<Option<CliNote>, CliEditError>)
    ensures
        text_edit(*old(config), *final(config), ConfigField::AudiobookFormat, v@, r),
{
    let lower = canonical_string(v);
    proof {
        reveal(canonical_is);
    }
    if !str_eq(lower.as_str(), "mp3") && !str_eq(lower.as_str(), "wav") {
        return Err(CliEditError::AudiobookFormat);
    }
    config.audiobook_format = lower;
    proof {
        reveal(text_changed);
    }
    Ok(None)
}

/// Sets one of the audiobook voice, rate, volume and pitch to `v` as typed.
fn set_voice_setting(config: &mut Config, field: ConfigField, v: &str) -> (r: Result<Option<CliNote>, CliEditError>)
    requires
        field == ConfigField::AudiobookVoice || field == ConfigField::AudiobookRate
            || field == ConfigField::AudiobookVolume || field == ConfigField::AudiobookPitch,
    ensures
        text_edit(*old(config), *final(config), field, v@, r),
{
    let s = string_of(chars_of(v).as_slice());
    match field {
        ConfigField::AudiobookVoice => config.audiobook_voice = s,
        ConfigField::AudiobookRate => config.audiobook_rate = s,
        ConfigField::AudiobookVolume => config.audiobook_volume = s,
        _ => config.audiobook_pitch = s,
    }
    proof {
        reveal(text_changed);
    }
    Ok(None)
}

/// Sets a text setting. The save path is trimmed and must not be blank (the
/// caller creates the directory first, see `save_path_to_create`); the two
/// formats are trimmed, lowercased and checked, and choosing TXT switches
/// segment comments off.
pub fn set_string(config: &mut Config, field: ConfigField, v: &str) -> (r: Result<Option<CliNote>, CliEditError>)
    ensures
        text_edit(*old(config), *final(config), field, v@, r),
{
    match field {
        ConfigField::SavePath => set_save_path(config, v),
        ConfigField::NovelFormat => set_novel_format(config, v),
        ConfigField::AudiobookVoice | ConfigField::AudiobookRate | ConfigField::AudiobookVolume
        | ConfigField::AudiobookPitch => set_voice_setting(config, field, v),
        ConfigField::AudiobookFormat => set_audiobook_format(config, v),
        _ => Err(CliEditError::NotString),
    }
}

/// Setting the list setting `f` of `old` to the items `l` gives `new` and `r`.
#[verifier::inline]
pub open spec fn list_edit(old: Config, new: Config, f: ConfigField, l: Seq<Seq<char>>, r: Result<(), CliEditError>) -> bool {
    &&& f == ConfigField::ApiEndpoints ==> {
        &&& new == (Config { api_endpoints: new.api_endpoints, ..old })
        &&& strings_view(new.api_endpoints@) == l
        &&& r == Ok::<(), CliEditError>(())
    }
    &&& f == ConfigField::BlockedMediaDomains ==> {
        &&& new == (Config { blocked_media_domains: new.blocked_media_domains, ..old })
        &&& strings_view(new.blocked_media_domains@) == l
        &&& r == Ok::<(), CliEditError>(())
    }
    &&& f != ConfigField::ApiEndpoints && f != ConfigField::BlockedMediaDomains ==> refused(old, new, r, CliEditError::NotList)
}

/// Replaces a list setting.
pub fn set_list(config: &mut Config, field: ConfigField, v: Vec<String>) -> (r: Result<(), CliEditError>)
    ensures
        list_edit(*old(config), *final(config), field, strings_view(v@), r),
{
    match field {
        ConfigField::ApiEndpoints => {
            config.api_endpoints = v;
            return Ok(());
        },
        ConfigField::BlockedMediaDomains => {
            config.blocked_media_domains = v;
            return Ok(());
        },
        _ => return Err(CliEditError::NotList),
    }
}

/// The words the console accepts as "yes" for a boolean setting; anything
/// else means "no".
pub open spec fn cli_true(text: Seq<char>) -> bool {
    let l = lower_seq(text);
    l == "true"@ || l == "1"@ || l == "yes"@ || l == "y"@
}

/// The console reads true, 1, yes and y (in any ASCII case) as turning a
/// setting on, and false, 0, no, n and off as turning it off.
pub proof fn lemma_cli_switch_words(text: Seq<char>)
    ensures
        (lower_seq(text) == "true"@ || lower_seq(text) == "1"@ || lower_seq(text) == "yes"@ || lower_seq(text) == "y"@)
            ==> cli_true(text),
        (lower_seq(text) == "false"@ || lower_seq(text) == "0"@ || lower_seq(text) == "no"@ || lower_seq(text) == "n"@
            || lower_seq(text) == "off"@) ==> !cli_true(text),
{
    reveal_strlit("true");
    reveal_strlit("1");
    reveal_strlit("yes");
    reveal_strlit("y");
    reveal_strlit("false");
    reveal_strlit("0");
    reveal_strlit("no");
    reveal_strlit("n");
    reveal_strlit("off");
    let l = lower_seq(text);
    if l == "false"@ || l == "0"@ || l == "no"@ || l == "n"@ || l == "off"@ {
        assert(l != "true"@ && l != "1"@ && l != "yes"@ && l != "y"@) by {
            if l == "false"@ {
                assert(l[0] == 'f');
            } else if l == "0"@ {
                assert(l[0] == '0');
            } else if l == "no"@ {
                assert(l[0] == 'n');
            } else if l == "n"@ {
                assert(l[0] == 'n');
            } else {
                assert(l[0] == 'o');
            }
        }
    }
}

/// Reads a boolean setting's new value.
pub fn parse_cli_bool(text: &str) -> (b: bool)
    ensures
        b == cli_true(text@),
{
    let l = to_lower_chars(chars_of(text).as_slice());
    chars_eq_str(l.as_slice(), "true") || chars_eq_str(l.as_slice(), "1")
        || chars_eq_str(l.as_slice(), "yes") || chars_eq_str(l.as_slice(), "y")
}

/// A remark as an edit outcome.
pub open spec fn noted(n: Option<CliNote>) -> CliEdit {
    match n {
        Some(x) => CliEdit::AppliedWithNote(x),
        None => CliEdit::Applied,
    }
}

/// An edit outcome as the remark it carries.
pub open spec fn note_of(r: Result<CliEdit, CliEditError>) -> Result<Option<CliNote>, CliEditError> {
    match r {
        Ok(CliEdit::AppliedWithNote(n)) => Ok(Some(n)),
        Ok(_) => Ok(None),
        Err(e) => Err(e),
    }
}

/// An edit outcome without its remark.
pub open spec fn unit_of(r: Result<CliEdit, CliEditError>) -> Result<(), CliEditError> {
    match r {
        Ok(_) => Ok(()),
        Err(e) => Err(e),
    }
}

/// Typing `text` as the new value of the option (`f`, `ty`) turns `old` into
/// `new`, with outcome `r`.
pub open spec fn edit_ok(old: Config, new: Config, f: ConfigField, ty: ConfigValueType, text: Seq<char>, r: Result<CliEdit, CliEditError>) -> bool {
    &&& ty == ConfigValueType::Bool ==> r != Ok::<CliEdit, CliEditError>(CliEdit::FloatValue)
        && bool_edit(old, new, f, cli_true(text), note_of(r))
    &&& ty == ConfigValueType::Int ==> match parse_i64_spec(text) {
        None => refused(old, new, r, CliEditError::IntParse),
        Some(v) => (r is Err || r == Ok::<CliEdit, CliEditError>(CliEdit::Applied)) && int_edit(old, new, f, v, unit_of(r)),
    }
    &&& ty == ConfigValueType::Float ==> new == old && r == Ok::<CliEdit, CliEditError>(CliEdit::FloatValue)
    &&& ty == ConfigValueType::String ==> r != Ok::<CliEdit, CliEditError>(CliEdit::FloatValue)
        && text_edit(old, new, f, text, note_of(r))
    &&& ty == ConfigValueType::List ==> (r is Err || r == Ok::<CliEdit, CliEditError>(CliEdit::Applied))
        && list_edit(old, new, f, list_spec(text, seq![',', '\n']), unit_of(r))
}

/// Applies the text typed for `opt` to the settings.
pub fn apply_config_edit(config: &mut Config, opt: ConfigOption, text: &str) -> (r: Result<CliEdit, CliEditError>)
    ensures
        edit_ok(*old(config), *final(config), opt.field, opt.ty, text@, r),
{
    match opt.ty {
        ConfigValueType::Bool => {
            let v = parse_cli_bool(text);
            match set_bool(config, opt.field, v) {
                Ok(Some(n)) => Ok(CliEdit::AppliedWithNote(n)),
                Ok(None) => Ok(CliEdit::Applied),
                Err(e) => Err(e),
            }
        },
        ConfigValueType::Int => {
            let t = chars_of(text);
            match parse_i64(t.as_slice()) {
                None => Err(CliEditError::IntParse),
                Some(v) => match set_int(config, opt.field, v) {
                    Ok(()) => Ok(CliEdit::Applied),
                    Err(e) => Err(e),
                },
            }
        },
        ConfigValueType::Float => Ok(CliEdit::FloatValue),
        ConfigValueType::String => match set_string(config, opt.field, text) {
            Ok(Some(n)) => Ok(CliEdit::AppliedWithNote(n)),
            Ok(None) => Ok(CliEdit::Applied),
            Err(e) => Err(e),
        },
        ConfigValueType::List => {
            let parts = parse_list(text, &[',', '\n']);
            assert((&[',', '\n'])@ =~= seq![',', '\n']);
            match set_list(config, opt.field, parts) {
                Ok(()) => Ok(CliEdit::Applied),
                Err(e) => Err(e),
            }
        },
    }
}

/// The directory to create before the save path is changed to `text`: the
/// trimmed text, when the option is the save path and the text is not blank.
pub open spec fn dir_to_create_spec(opt_field: ConfigField, ty: ConfigValueType, text: Seq<char>) -> Option<Seq<char>> {
    if opt_field == ConfigField::SavePath && ty == ConfigValueType::String && trim_seq(text).len() > 0 {
        Some(trim_seq(text))
    } else {
        None
    }
}

/// The directory that must exist before `apply_config_edit` changes the save
/// path to `text`.
pub fn save_path_to_create(opt: ConfigOption, text: &str) -> (r: Option<String>)
    ensures
        opt_string_view(r) == dir_to_create_spec(opt.field, opt.ty, text@),
{
    if opt.field == ConfigField::SavePath && opt.ty == ConfigValueType::String {
        let p = trim_chars(chars_of(text).as_slice());
        if p.len() > 0 {
            return Some(string_of(p.as_slice()));
        }
    }
    None
}

/// What the user chose in the settings menu.
#[derive(Debug, Clone, Copy, PartialEq, Eq, Structural)]
pub enum MenuChoice {
    /// `0`: back to the main menu.
    Back,
    /// Not a number ("请输入数字编号").
    NotNumber,
    /// A number outside the menu ("编号超出范围").
    OutOfRange,
    /// The option on this line, counted from 0.
    Pick(usize),
}

/// The meaning of `input` in a menu of `count` lines numbered from 1.
pub open spec fn menu_choice_spec(input: Seq<char>, count: nat) -> MenuChoice {
    let t = trim_seq(input);
    if t == "0"@ {
        MenuChoice::Back
    } else {
        match parse_unsigned_spec(t, usize::MAX as nat) {
            None => MenuChoice::NotNumber,
            Some(n) => if n == 0 || n > count { MenuChoice::OutOfRange } else { MenuChoice::Pick((n - 1) as usize) },
        }
    }
}

/// Reads a menu choice.
pub fn parse_menu_choice(input: &str, count: usize) -> (r: MenuChoice)
    ensures
        r == menu_choice_spec(input@, count as nat),
{
    let t = trim_chars(chars_of(input).as_slice());
    if chars_eq_str(t.as_slice(), "0") {
        return MenuChoice::Back;
    }
    match parse_unsigned(t.as_slice(), usize::MAX as u64) {
        None => MenuChoice::NotNumber,
        Some(n) => {
            if n == 0 || n > count as u64 {
                MenuChoice::OutOfRange
            } else {
                MenuChoice::Pick((n - 1) as usize)
            }
        },
    }
}


/// The novel format reads TXT or EPUB (in any case).
pub open spec fn format_known(c: Config) -> bool {
    is_txt(c.novel_format@) || lower_seq(c.novel_format@) == lower_seq("epub"@)
}

/// Segment comments are on only while the format reads EPUB (in any case).
pub open spec fn segment_comments_consistent(c: Config) -> bool {
    c.enable_segment_comments ==> lower_seq(c.novel_format@) == lower_seq("epub"@)
}

/// Every edit of the console settings menu keeps the format TXT or EPUB and
/// keeps segment comments on only with EPUB.
pub proof fn lemma_config_edit_keeps_segment_rule(
    old: Config,
    new: Config,
    f: ConfigField,
    ty: ConfigValueType,
    text: Seq<char>,
    r: Result<CliEdit, CliEditError>,
)
    requires
        format_known(old),
        segment_comments_consistent(old),
        edit_ok(old, new, f, ty, text, r),
    ensures
        format_known(new),
        segment_comments_consistent(new),
{
    reveal(text_changed);
    reveal(canonical_is);
    reveal_strlit("epub");
    reveal_strlit("txt");
    let c = canonical(text);
    if ty == ConfigValueType::String && f == ConfigField::NovelFormat {
        assert(lower_seq(lower_seq(trim_seq(text))) =~= lower_seq(trim_seq(text)));
    }
    if ty == ConfigValueType::Bool && f == ConfigField::EnableSegmentComments {
        assert(lower_seq("epub"@) =~= "epub"@);
    }
}


/// A refused console edit leaves the settings as they were.
pub proof fn lemma_refused_edit_changes_nothing(
    old: Config,
    new: Config,
    f: ConfigField,
    ty: ConfigValueType,
    text: Seq<char>,
    r: Result<CliEdit, CliEditError>,
)
    requires
        edit_ok(old, new, f, ty, text, r),
        r is Err,
    ensures
        new == old,
{
    reveal(text_changed);
}

/// Typing the number shown in front of a menu line picks that line.
pub proof fn lemma_menu_number_picks_line(k: nat, count: nat)
    requires
        k < count,
        count <= usize::MAX,
    ensures
        menu_choice_spec(dec_string(k + 1), count) == MenuChoice::Pick(k as usize),
{
    crate::text::lemma_parse_dec_string(k + 1, usize::MAX as nat);
    crate::text::lemma_dec_string(k + 1);
    let d = dec_string(k + 1);
    assert(!crate::text::is_ws(d[0]));
    assert(!crate::text::is_ws(d.last())) by {
        assert(crate::text::is_digit(d[d.len() - 1]));
    }
    crate::text::lemma_trim_noop(d);
    reveal_strlit("0");
    if d == "0"@ {
        assert(d.len() == 1 && d[0] == '0');
        assert(d.drop_last() =~= Seq::<char>::empty());
        assert(crate::text::dec_value(d.drop_last()) == 0);
        assert(crate::text::dec_value(d) == 0);
    }
}

} // verus!
