//! Settings editing in the full-screen terminal interface: the categories
//! and entries shown, the preset lists, how each value is shown, and the
//! rules an edit must pass.

use crate::config::{canonical, canonical_string, Config};
use crate::text::{
    bool_text, bool_to_string, chars_eq_str, chars_of, dec_string, eq_ignore_ascii_case, join_seq,
    join_strings, lemma_trim_idempotent, list_spec, lower_seq, parse_list, parse_unsigned, parse_unsigned_spec, str_eq,
    string_of, strings_view, to_lower_chars, trim_chars, trim_seq, u64_to_string,
};
use vstd::prelude::*;

verus! {

/// The settings the terminal interface offers.
#[derive(Debug, Clone, Copy, PartialEq, Eq, Structural)]
pub enum ConfigField {
    SavePath,
    NovelFormat,
    BulkFiles,
    AutoClearDump,
    AutoOpenDownloadedFiles,
    AllowOverwriteFiles,
    PreferredBookNameField,
    OldCli,
    FirstLineIndentEm,
    EnableSegmentComments,
    UseOfficialApi,
    ApiEndpoints,
    MaxWorkers,
    RequestTimeout,
    MaxRetries,
    MinConnectTimeout,
    MinWait,
    MaxWait,
    EnableAudiobook,
    AudiobookVoice,
    AudiobookRate,
    AudiobookVolume,
    AudiobookPitch,
    AudiobookFormat,
    AudiobookConcurrency,
    AudiobookTtsProvider,
    AudiobookTtsApiUrl,
    AudiobookTtsApiToken,
    AudiobookTtsModel,
    SegmentCommentsTopN,
    SegmentCommentsWorkers,
    DownloadCommentImages,
    DownloadCommentAvatars,
    MediaDownloadWorkers,
    BlockedMediaDomains,
    ForceConvertImagesToJpeg,
    JpegRetryConvert,
    JpegQuality,
    ConvertHeicToJpeg,
    KeepHeicOriginal,
    MediaLimitPerChapter,
    MediaMaxDimensionPx,
}

/// One editable entry: its title and the setting it edits.
#[derive(Debug, Clone, Copy)]
pub struct ConfigEntry {
    pub title: &'static str,
    pub field: ConfigField,
}

/// A titled group of entries.
#[derive(Debug, Clone)]
pub struct ConfigCategory {
    pub title: &'static str,
    pub entries: Vec<ConfigEntry>,
}

/// An entry as a title and a setting.
pub open spec fn entry_view(e: ConfigEntry) -> (Seq<char>, ConfigField) {
    (e.title@, e.field)
}

/// The entries of a category as titles and settings.
pub open spec fn entries_view(v: Seq<ConfigEntry>) -> Seq<(Seq<char>, ConfigField)> {
    v.map_values(|e: ConfigEntry| entry_view(e))
}

/// The categories as titles and entries.
pub open spec fn categories_view(v: Seq<ConfigCategory>) -> Seq<(Seq<char>, Seq<(Seq<char>, ConfigField)>)> {
    v.map_values(|c: ConfigCategory| (c.title@, entries_view(c.entries@)))
}

/// The entries of the category "基础与格式".
pub open spec fn category_entries_0() -> Seq<(Seq<char>, ConfigField)> {
    seq![
        ("保存路径"@, ConfigField::SavePath),
        ("小说格式(txt/epub)"@, ConfigField::NovelFormat),
        ("首行缩进(em)"@, ConfigField::FirstLineIndentEm),
        ("散装文件保存"@, ConfigField::BulkFiles),
        ("自动清理缓存"@, ConfigField::AutoClearDump),
        ("下载完成后自动打开"@, ConfigField::AutoOpenDownloadedFiles),
        ("允许覆盖已存在文件"@, ConfigField::AllowOverwriteFiles),
        ("优先书名字段"@, ConfigField::PreferredBookNameField),
        ("旧版 CLI UI"@, ConfigField::OldCli),
    ]
}

/// The entries of the category "网络与调度".
pub open spec fn category_entries_1() -> Seq<(Seq<char>, ConfigField)> {
    seq![
        ("最大线程数"@, ConfigField::MaxWorkers),
        ("请求超时(s)"@, ConfigField::RequestTimeout),
        ("最大重试次数"@, ConfigField::MaxRetries),
        ("最小连接超时(s)"@, ConfigField::MinConnectTimeout),
        ("最小等待时间(ms)"@, ConfigField::MinWait),
        ("最大等待时间(ms)"@, ConfigField::MaxWait),
    ]
}

/// The entries of the category "API".
pub open spec fn category_entries_2() -> Seq<(Seq<char>, ConfigField)> {
    seq![
        ("使用官方API"@, ConfigField::UseOfficialApi),
        ("API 列表(逗号分隔)"@, ConfigField::ApiEndpoints),
    ]
}

/// The entries of the category "段评".
pub open spec fn category_entries_3() -> Seq<(Seq<char>, ConfigField)> {
    seq![
        ("启用段评"@, ConfigField::EnableSegmentComments),
        ("每段评论数上限"@, ConfigField::SegmentCommentsTopN),
        ("段评并发线程数"@, ConfigField::SegmentCommentsWorkers),
    ]
}

/// The entries of the category "媒体下载".
pub open spec fn category_entries_4() -> Seq<(Seq<char>, ConfigField)> {
    seq![
        ("下载评论图片"@, ConfigField::DownloadCommentImages),
        ("下载评论头像"@, ConfigField::DownloadCommentAvatars),
        ("媒体下载线程数"@, ConfigField::MediaDownloadWorkers),
        ("阻止的图片域名"@, ConfigField::BlockedMediaDomains),
        ("强制转成 JPEG"@, ConfigField::ForceConvertImagesToJpeg),
        ("失败重试再转 JPEG"@, ConfigField::JpegRetryConvert),
        ("JPEG 质量(0-100)"@, ConfigField::JpegQuality),
        ("HEIC 转 JPEG"@, ConfigField::ConvertHeicToJpeg),
        ("保留 HEIC 原图"@, ConfigField::KeepHeicOriginal),
        ("单章节媒体上限"@, ConfigField::MediaLimitPerChapter),
        ("媒体最大尺寸(px)"@, ConfigField::MediaMaxDimensionPx),
    ]
}

/// The entries of the category "有声书".
pub open spec fn category_entries_5() -> Seq<(Seq<char>, ConfigField)> {
    seq![
        ("启用有声书"@, ConfigField::EnableAudiobook),
        ("发音人"@, ConfigField::AudiobookVoice),
        ("TTS 服务类型(edge/third_party)"@, ConfigField::AudiobookTtsProvider),
        ("第三方 TTS API 地址"@, ConfigField::AudiobookTtsApiUrl),
        ("第三方 TTS Token"@, ConfigField::AudiobookTtsApiToken),
        ("第三方 TTS 模型"@, ConfigField::AudiobookTtsModel),
        ("语速调整"@, ConfigField::AudiobookRate),
        ("音量调整"@, ConfigField::AudiobookVolume),
        ("音调调整"@, ConfigField::AudiobookPitch),
        ("输出格式(mp3/wav)"@, ConfigField::AudiobookFormat),
        ("并发生成章节数"@, ConfigField::AudiobookConcurrency),
    ]
}

/// The settings screen: six categories, in order.
pub open spec fn categories_table() -> Seq<(Seq<char>, Seq<(Seq<char>, ConfigField)>)> {
    seq![
        ("基础与格式"@, category_entries_0()),
        ("网络与调度"@, category_entries_1()),
        ("API"@, category_entries_2()),
        ("段评"@, category_entries_3()),
        ("媒体下载"@, category_entries_4()),
        ("有声书"@, category_entries_5()),
    ]
}

/// The entries of the category "基础与格式".
fn entries_0() -> (v: Vec<ConfigEntry>)
    ensures
        entries_view(v@) == category_entries_0(),
{
    let mut v: Vec<ConfigEntry> = Vec::new();
    v.push(ConfigEntry { title: "保存路径", field: ConfigField::SavePath });
    v.push(ConfigEntry { title: "小说格式(txt/epub)", field: ConfigField::NovelFormat });
    v.push(ConfigEntry { title: "首行缩进(em)", field: ConfigField::FirstLineIndentEm });
    v.push(ConfigEntry { title: "散装文件保存", field: ConfigField::BulkFiles });
    v.push(ConfigEntry { title: "自动清理缓存", field: ConfigField::AutoClearDump });
    v.push(ConfigEntry { title: "下载完成后自动打开", field: ConfigField::AutoOpenDownloadedFiles });
    v.push(ConfigEntry { title: "允许覆盖已存在文件", field: ConfigField::AllowOverwriteFiles });
    v.push(ConfigEntry { title: "优先书名字段", field: ConfigField::PreferredBookNameField });
    v.push(ConfigEntry { title: "旧版 CLI UI", field: ConfigField::OldCli });
    assert(entries_view(v@) =~= category_entries_0());
    v
}

/// The entries of the category "网络与调度".
fn entries_1() -> (v: Vec<ConfigEntry>)
    ensures
        entries_view(v@) == category_entries_1(),
{
    let mut v: Vec<ConfigEntry> = Vec::new();
    v.push(ConfigEntry { title: "最大线程数", field: ConfigField::MaxWorkers });
    v.push(ConfigEntry { title: "请求超时(s)", field: ConfigField::RequestTimeout });
    v.push(ConfigEntry { title: "最大重试次数", field: ConfigField::MaxRetries });
    v.push(ConfigEntry { title: "最小连接超时(s)", field: ConfigField::MinConnectTimeout });
    v.push(ConfigEntry { title: "最小等待时间(ms)", field: ConfigField::MinWait });
    v.push(ConfigEntry { title: "最大等待时间(ms)", field: ConfigField::MaxWait });
    assert(entries_view(v@) =~= category_entries_1());
    v
}

/// The entries of the category "API".
fn entries_2() -> (v: Vec<ConfigEntry>)
    ensures
        entries_view(v@) == category_entries_2(),
{
    let mut v: Vec<ConfigEntry> = Vec::new();
    v.push(ConfigEntry { title: "使用官方API", field: ConfigField::UseOfficialApi });
    v.push(ConfigEntry { title: "API 列表(逗号分隔)", field: ConfigField::ApiEndpoints });
    assert(entries_view(v@) =~= category_entries_2());
    v
}

/// The entries of the category "段评".
fn entries_3() -> (v: Vec<ConfigEntry>)
    ensures
        entries_view(v@) == category_entries_3(),
{
    let mut v: Vec<ConfigEntry> = Vec::new();
    v.push(ConfigEntry { title: "启用段评", field: ConfigField::EnableSegmentComments });
    v.push(ConfigEntry { title: "每段评论数上限", field: ConfigField::SegmentCommentsTopN });
    v.push(ConfigEntry { title: "段评并发线程数", field: ConfigField::SegmentCommentsWorkers });
    assert(entries_view(v@) =~= category_entries_3());
    v
}

/// The entries of the category "媒体下载".
fn entries_4() -> (v: Vec<ConfigEntry>)
    ensures
        entries_view(v@) == category_entries_4(),
{
    let mut v: Vec<ConfigEntry> = Vec::new();
    v.push(ConfigEntry { title: "下载评论图片", field: ConfigField::DownloadCommentImages });
    v.push(ConfigEntry { title: "下载评论头像", field: ConfigField::DownloadCommentAvatars });
    v.push(ConfigEntry { title: "媒体下载线程数", field: ConfigField::MediaDownloadWorkers });
    v.push(ConfigEntry { title: "阻止的图片域名", field: ConfigField::BlockedMediaDomains });
    v.push(ConfigEntry { title: "强制转成 JPEG", field: ConfigField::ForceConvertImagesToJpeg });
    v.push(ConfigEntry { title: "失败重试再转 JPEG", field: ConfigField::JpegRetryConvert });
    v.push(ConfigEntry { title: "JPEG 质量(0-100)", field: ConfigField::JpegQuality });
    v.push(ConfigEntry { title: "HEIC 转 JPEG", field: ConfigField::ConvertHeicToJpeg });
    v.push(ConfigEntry { title: "保留 HEIC 原图", field: ConfigField::KeepHeicOriginal });
    v.push(ConfigEntry { title: "单章节媒体上限", field: ConfigField::MediaLimitPerChapter });
    v.push(ConfigEntry { title: "媒体最大尺寸(px)", field: ConfigField::MediaMaxDimensionPx });
    assert(entries_view(v@) =~= category_entries_4());
    v
}

/// The entries of the category "有声书".
fn entries_5() -> (v: Vec<ConfigEntry>)
    ensures
        entries_view(v@) == category_entries_5(),
{
    let mut v: Vec<ConfigEntry> = Vec::new();
    v.push(ConfigEntry { title: "启用有声书", field: ConfigField::EnableAudiobook });
    v.push(ConfigEntry { title: "发音人", field: ConfigField::AudiobookVoice });
    v.push(ConfigEntry { title: "TTS 服务类型(edge/third_party)", field: ConfigField::AudiobookTtsProvider });
    v.push(ConfigEntry { title: "第三方 TTS API 地址", field: ConfigField::AudiobookTtsApiUrl });
    v.push(ConfigEntry { title: "第三方 TTS Token", field: ConfigField::AudiobookTtsApiToken });
    v.push(ConfigEntry { title: "第三方 TTS 模型", field: ConfigField::AudiobookTtsModel });
    v.push(ConfigEntry { title: "语速调整", field: ConfigField::AudiobookRate });
    v.push(ConfigEntry { title: "音量调整", field: ConfigField::AudiobookVolume });
    v.push(ConfigEntry { title: "音调调整", field: ConfigField::AudiobookPitch });
    v.push(ConfigEntry { title: "输出格式(mp3/wav)", field: ConfigField::AudiobookFormat });
    v.push(ConfigEntry { title: "并发生成章节数", field: ConfigField::AudiobookConcurrency });
    assert(entries_view(v@) =~= category_entries_5());
    v
}

/// The categories and entries of the settings screen.
pub fn build_config_categories() -> (v: Vec<ConfigCategory>)
    ensures
        categories_view(v@) == categories_table(),
{
    let mut v: Vec<ConfigCategory> = Vec::new();
    v.push(ConfigCategory { title: "基础与格式", entries: entries_0() });
    v.push(ConfigCategory { title: "网络与调度", entries: entries_1() });
    v.push(ConfigCategory { title: "API", entries: entries_2() });
    v.push(ConfigCategory { title: "段评", entries: entries_3() });
    v.push(ConfigCategory { title: "媒体下载", entries: entries_4() });
    v.push(ConfigCategory { title: "有声书", entries: entries_5() });
    assert(categories_view(v@) =~= categories_table());
    v
}

/// A choice of a preset list: the stored value and its label.
#[derive(Debug, Clone, Copy)]
pub struct VoicePreset {
    pub name: &'static str,
    pub label: &'static str,
}

/// Presets as stored values and labels.
pub open spec fn presets_view(v: Seq<VoicePreset>) -> Seq<(Seq<char>, Seq<char>)> {
    v.map_values(|p: VoicePreset| (p.name@, p.label@))
}

/// The offered audiobook voices.
pub open spec fn voice_presets_table() -> Seq<(Seq<char>, Seq<char>)> {
    seq![
        ("zh-CN-XiaoxiaoNeural"@, "zh-CN-XiaoxiaoNeural (女)"@),
        ("zh-CN-XiaoyiNeural"@, "zh-CN-XiaoyiNeural (女)"@),
        ("zh-CN-YunjianNeural"@, "zh-CN-YunjianNeural (男)"@),
        ("zh-CN-YunxiNeural"@, "zh-CN-YunxiNeural (男)"@),
        ("zh-CN-YunxiaNeural"@, "zh-CN-YunxiaNeural (男)"@),
        ("zh-CN-YunyangNeural"@, "zh-CN-YunyangNeural (男)"@),
        ("zh-CN-liaoning-XiaobeiNeural"@, "zh-CN-liaoning-XiaobeiNeural (女)"@),
        ("zh-CN-shaanxi-XiaoniNeural"@, "zh-CN-shaanxi-XiaoniNeural (女)"@),
        ("zh-HK-HiuGaaiNeural"@, "zh-HK-HiuGaaiNeural (女)"@),
        ("zh-HK-HiuMaanNeural"@, "zh-HK-HiuMaanNeural (女)"@),
        ("zh-HK-WanLungNeural"@, "zh-HK-WanLungNeural (男)"@),
        ("zh-TW-HsiaoChenNeural"@, "zh-TW-HsiaoChenNeural (女)"@),
    ]
}

/// The offered choices of the preferred book-name field.
pub open spec fn book_name_presets_table() -> Seq<(Seq<char>, Seq<char>)> {
    seq![
        ("book_name"@, "默认书名"@),
        ("original_book_name"@, "原始书名"@),
        ("book_short_name"@, "短书名"@),
        ("ask_after_download"@, "下载完后选择"@),
    ]
}

/// The offered audiobook voices.
pub fn audiobook_voice_presets() -> (v: Vec<VoicePreset>)
    ensures
        presets_view(v@) == voice_presets_table(),
{
    let mut v: Vec<VoicePreset> = Vec::new();
    v.push(VoicePreset { name: "zh-CN-XiaoxiaoNeural", label: "zh-CN-XiaoxiaoNeural (女)" });
    v.push(VoicePreset { name: "zh-CN-XiaoyiNeural", label: "zh-CN-XiaoyiNeural (女)" });
    v.push(VoicePreset { name: "zh-CN-YunjianNeural", label: "zh-CN-YunjianNeural (男)" });
    v.push(VoicePreset { name: "zh-CN-YunxiNeural", label: "zh-CN-YunxiNeural (男)" });
    v.push(VoicePreset { name: "zh-CN-YunxiaNeural", label: "zh-CN-YunxiaNeural (男)" });
    v.push(VoicePreset { name: "zh-CN-YunyangNeural", label: "zh-CN-YunyangNeural (男)" });
    v.push(VoicePreset { name: "zh-CN-liaoning-XiaobeiNeural", label: "zh-CN-liaoning-XiaobeiNeural (女)" });
    v.push(VoicePreset { name: "zh-CN-shaanxi-XiaoniNeural", label: "zh-CN-shaanxi-XiaoniNeural (女)" });
    v.push(VoicePreset { name: "zh-HK-HiuGaaiNeural", label: "zh-HK-HiuGaaiNeural (女)" });
    v.push(VoicePreset { name: "zh-HK-HiuMaanNeural", label: "zh-HK-HiuMaanNeural (女)" });
    v.push(VoicePreset { name: "zh-HK-WanLungNeural", label: "zh-HK-WanLungNeural (男)" });
    v.push(VoicePreset { name: "zh-TW-HsiaoChenNeural", label: "zh-TW-HsiaoChenNeural (女)" });
    assert(presets_view(v@) =~= voice_presets_table());
    v
}

/// The offered choices of the preferred book-name field.
pub fn book_name_field_presets() -> (v: Vec<VoicePreset>)
    ensures
        presets_view(v@) == book_name_presets_table(),
{
    let mut v: Vec<VoicePreset> = Vec::new();
    v.push(VoicePreset { name: "book_name", label: "默认书名" });
    v.push(VoicePreset { name: "original_book_name", label: "原始书名" });
    v.push(VoicePreset { name: "book_short_name", label: "短书名" });
    v.push(VoicePreset { name: "ask_after_download", label: "下载完后选择" });
    assert(presets_view(v@) =~= book_name_presets_table());
    v
}

/// Whether the setting is edited by choosing from a preset list.
pub open spec fn is_combo(field: ConfigField) -> bool {
    field == ConfigField::AudiobookVoice || field == ConfigField::PreferredBookNameField
}

/// Whether the setting is edited by choosing from a preset list.
pub fn cfg_field_is_combo(field: ConfigField) -> (b: bool)
    ensures
        b == is_combo(field),
{
    field == ConfigField::AudiobookVoice || field == ConfigField::PreferredBookNameField
}

/// The preset list of a setting, if it has one.
pub fn cfg_combo_presets(field: ConfigField) -> (r: Option<Vec<VoicePreset>>)
    ensures
        field == ConfigField::AudiobookVoice ==> r is Some && presets_view(r->0@) == voice_presets_table(),
        field == ConfigField::PreferredBookNameField ==> r is Some && presets_view(r->0@) == book_name_presets_table(),
        !is_combo(field) ==> r is None,
{
    match field {
        ConfigField::AudiobookVoice => Some(audiobook_voice_presets()),
        ConfigField::PreferredBookNameField => Some(book_name_field_presets()),
        _ => None,
    }
}

/// Whether the setting is a switch.
pub open spec fn is_switch(field: ConfigField) -> bool {
    field == ConfigField::BulkFiles
        || field == ConfigField::AutoClearDump
        || field == ConfigField::AutoOpenDownloadedFiles
        || field == ConfigField::AllowOverwriteFiles
        || field == ConfigField::OldCli
        || field == ConfigField::EnableSegmentComments
        || field == ConfigField::UseOfficialApi
        || field == ConfigField::EnableAudiobook
        || field == ConfigField::DownloadCommentImages
        || field == ConfigField::DownloadCommentAvatars
        || field == ConfigField::ForceConvertImagesToJpeg
        || field == ConfigField::JpegRetryConvert
        || field == ConfigField::ConvertHeicToJpeg
        || field == ConfigField::KeepHeicOriginal
}

/// Whether the setting is a switch.
pub fn cfg_field_is_bool(field: ConfigField) -> (b: bool)
    ensures
        b == is_switch(field),
{
    match field {
        ConfigField::BulkFiles => true,
        ConfigField::AutoClearDump => true,
        ConfigField::AutoOpenDownloadedFiles => true,
        ConfigField::AllowOverwriteFiles => true,
        ConfigField::OldCli => true,
        ConfigField::EnableSegmentComments => true,
        ConfigField::UseOfficialApi => true,
        ConfigField::EnableAudiobook => true,
        ConfigField::DownloadCommentImages => true,
        ConfigField::DownloadCommentAvatars => true,
        ConfigField::ForceConvertImagesToJpeg => true,
        ConfigField::JpegRetryConvert => true,
        ConfigField::ConvertHeicToJpeg => true,
        ConfigField::KeepHeicOriginal => true,
        _ => false,
    }
}

/// The current state of a switch setting; `None` for other settings.
pub open spec fn switch_value(c: Config, field: ConfigField) -> Option<bool> {
    if field == ConfigField::BulkFiles { Some(c.bulk_files) } else
    if field == ConfigField::AutoClearDump { Some(c.auto_clear_dump) } else
    if field == ConfigField::AutoOpenDownloadedFiles { Some(c.auto_open_downloaded_files) } else
    if field == ConfigField::AllowOverwriteFiles { Some(c.allow_overwrite_files) } else
    if field == ConfigField::OldCli { Some(c.old_cli) } else
    if field == ConfigField::EnableSegmentComments { Some(c.enable_segment_comments) } else
    if field == ConfigField::UseOfficialApi { Some(c.use_official_api) } else
    if field == ConfigField::EnableAudiobook { Some(c.enable_audiobook) } else
    if field == ConfigField::DownloadCommentImages { Some(c.download_comment_images) } else
    if field == ConfigField::DownloadCommentAvatars { Some(c.download_comment_avatars) } else
    if field == ConfigField::ForceConvertImagesToJpeg { Some(c.force_convert_images_to_jpeg) } else
    if field == ConfigField::JpegRetryConvert { Some(c.jpeg_retry_convert) } else
    if field == ConfigField::ConvertHeicToJpeg { Some(c.convert_heic_to_jpeg) } else
    if field == ConfigField::KeepHeicOriginal { Some(c.keep_heic_original) } else
    { None }
}

/// The current state of a switch setting.
pub fn cfg_field_current_bool(config: &Config, field: ConfigField) -> (r: Option<bool>)
    ensures
        r == switch_value(*config, field),
{
    let val = match field {
        ConfigField::BulkFiles => config.bulk_files,
        ConfigField::AutoClearDump => config.auto_clear_dump,
        ConfigField::AutoOpenDownloadedFiles => config.auto_open_downloaded_files,
        ConfigField::AllowOverwriteFiles => config.allow_overwrite_files,
        ConfigField::OldCli => config.old_cli,
        ConfigField::EnableSegmentComments => config.enable_segment_comments,
        ConfigField::UseOfficialApi => config.use_official_api,
        ConfigField::EnableAudiobook => config.enable_audiobook,
        ConfigField::DownloadCommentImages => config.download_comment_images,
        ConfigField::DownloadCommentAvatars => config.download_comment_avatars,
        ConfigField::ForceConvertImagesToJpeg => config.force_convert_images_to_jpeg,
        ConfigField::JpegRetryConvert => config.jpeg_retry_convert,
        ConfigField::ConvertHeicToJpeg => config.convert_heic_to_jpeg,
        ConfigField::KeepHeicOriginal => config.keep_heic_original,
        _ => return None,
    };
    Some(val)
}


/// Reads a switch value: true/1/yes/y/on or false/0/no/n/off, in any ASCII case.
pub open spec fn parse_bool_spec(s: Seq<char>) -> Option<bool> {
    let l = lower_seq(s);
    if l == "true"@ || l == "1"@ || l == "yes"@ || l == "y"@ || l == "on"@ {
        Some(true)
    } else if l == "false"@ || l == "0"@ || l == "no"@ || l == "n"@ || l == "off"@ {
        Some(false)
    } else {
        None
    }
}

/// Switch values read as the words say, in any ASCII case: true, 1, yes, y
/// and on turn a switch on; false, 0, no, n and off turn it off.
pub proof fn lemma_switch_words(s: Seq<char>)
    ensures
        (lower_seq(s) == "true"@ || lower_seq(s) == "1"@ || lower_seq(s) == "yes"@ || lower_seq(s) == "y"@
            || lower_seq(s) == "on"@) ==> parse_bool_spec(s) == Some(true),
        (lower_seq(s) == "false"@ || lower_seq(s) == "0"@ || lower_seq(s) == "no"@ || lower_seq(s) == "n"@
            || lower_seq(s) == "off"@) ==> parse_bool_spec(s) == Some(false),
{
    reveal_strlit("true");
    reveal_strlit("1");
    reveal_strlit("yes");
    reveal_strlit("y");
    reveal_strlit("on");
    reveal_strlit("false");
    reveal_strlit("0");
    reveal_strlit("no");
    reveal_strlit("n");
    reveal_strlit("off");
    let l = lower_seq(s);
    if l == "false"@ || l == "0"@ || l == "no"@ || l == "n"@ || l == "off"@ {
        assert(l != "true"@ && l != "1"@ && l != "yes"@ && l != "y"@ && l != "on"@) by {
            if l == "false"@ {
                assert(l.len() == 5);
                assert(l[0] == 'f');
            } else if l == "0"@ {
                assert(l[0] == '0');
            } else if l == "no"@ {
                assert(l[0] == 'n' && l.len() == 2);
            } else if l == "n"@ {
                assert(l[0] == 'n' && l.len() == 1);
            } else {
                assert(l[0] == 'o' && l.len() == 3);
            }
        }
    }
}

/// Reads a switch value.
pub fn parse_bool(input: &str) -> (r: Option<bool>)
    ensures
        r == parse_bool_spec(input@),
{
    let l = to_lower_chars(chars_of(input).as_slice());
    let s = l.as_slice();
    if chars_eq_str(s, "true") || chars_eq_str(s, "1") || chars_eq_str(s, "yes") || chars_eq_str(s, "y")
        || chars_eq_str(s, "on") {
        Some(true)
    } else if chars_eq_str(s, "false") || chars_eq_str(s, "0") || chars_eq_str(s, "no") || chars_eq_str(s, "n")
        || chars_eq_str(s, "off") {
        Some(false)
    } else {
        None
    }
}

/// Reads a list typed as text: items separated by commas, semicolons or
/// line breaks, each trimmed, empty ones dropped.
pub fn parse_string_list(input: &str) -> (r: Vec<String>)
    ensures
        strings_view(r@) == list_spec(input@, seq![',', ';', '\n']),
{
    let r = parse_list(input, &[',', ';', '\n']);
    assert((&[',', ';', '\n'])@ =~= seq![',', ';', '\n']);
    r
}

/// A list setting reads back as itself: the items read from typed text are
/// non-empty, their own trim, free of commas, semicolons and line breaks,
/// and joining them with commas and reading the result again gives the same
/// items in the same order.
pub proof fn lemma_string_list_roundtrip(input: Seq<char>)
    ensures
        crate::text::clean_items(list_spec(input, seq![',', ';', '\n']), seq![',', ';', '\n']),
        list_spec(join_seq(list_spec(input, seq![',', ';', '\n']), ","@), seq![',', ';', '\n'])
            == list_spec(input, seq![',', ';', '\n']),
{
    let seps = seq![',', ';', '\n'];
    crate::text::lemma_list_items_clean(input, seps);
    reveal_strlit(",");
    assert(","@ =~= seq![',']);
    assert(seps.contains(',')) by {
        assert(seps[0] == ',');
    }
    crate::text::lemma_list_join_roundtrip(list_spec(input, seps), seps, ',');
}

/// The label of a stored book-name field; unknown values read as the default.
pub open spec fn book_name_label(field: Seq<char>) -> Seq<char> {
    if field == "book_name"@ { "默认书名"@ }
    else if field == "original_book_name"@ { "原始书名"@ }
    else if field == "book_short_name"@ { "短书名"@ }
    else if field == "ask_after_download"@ { "下载完后选择"@ }
    else { "默认书名"@ }
}

/// The label of a stored book-name field.
pub fn book_name_field_to_chinese(field: &str) -> (r: &'static str)
    ensures
        r@ == book_name_label(field@),
{
    if str_eq(field, "book_name") { "默认书名" }
    else if str_eq(field, "original_book_name") { "原始书名" }
    else if str_eq(field, "book_short_name") { "短书名" }
    else if str_eq(field, "ask_after_download") { "下载完后选择" }
    else { "默认书名" }
}

/// The stored book-name field of a label.
pub open spec fn book_name_of_label(label: Seq<char>) -> Option<Seq<char>> {
    if label == "默认书名"@ { Some("book_name"@) }
    else if label == "原始书名"@ { Some("original_book_name"@) }
    else if label == "短书名"@ { Some("book_short_name"@) }
    else if label == "下载完后选择"@ { Some("ask_after_download"@) }
    else { None }
}

/// The book-name field labels and fields are inverse: each of the four
/// stored fields reads back from its label, a label that reads as a field
/// is that field's label, and only the four labels read as a field.
pub proof fn lemma_book_name_labels_inverse(field: Seq<char>, label: Seq<char>)
    ensures
        (field == "book_name"@ || field == "original_book_name"@ || field == "book_short_name"@
            || field == "ask_after_download"@) ==> book_name_of_label(book_name_label(field)) == Some(field),
        book_name_of_label(label) matches Some(f) ==> book_name_label(f) == label,
        book_name_of_label(label) is Some <==> (label == "默认书名"@ || label == "原始书名"@ || label == "短书名"@
            || label == "下载完后选择"@),
{
    reveal_strlit("book_name");
    reveal_strlit("original_book_name");
    reveal_strlit("book_short_name");
    reveal_strlit("ask_after_download");
    reveal_strlit("默认书名");
    reveal_strlit("原始书名");
    reveal_strlit("短书名");
    reveal_strlit("下载完后选择");
    assert("book_name"@.len() == 9 && "original_book_name"@.len() == 18 && "book_short_name"@.len() == 15);
    assert("original_book_name"@[0] != "ask_after_download"@[0]);
    assert("默认书名"@.len() == 4 && "短书名"@.len() == 3 && "下载完后选择"@.len() == 6);
    assert("默认书名"@[0] != "原始书名"@[0]);
}

/// The view of an optional string.
pub open spec fn opt_view(o: Option<String>) -> Option<Seq<char>> {
    match o {
        Some(s) => Some(s@),
        None => None,
    }
}

/// The stored book-name field of a label.
pub fn chinese_to_book_name_field(chinese: &str) -> (r: Option<String>)
    ensures
        opt_view(r) == book_name_of_label(chinese@),
{
    if str_eq(chinese, "默认书名") { Some(String::from_str("book_name")) }
    else if str_eq(chinese, "原始书名") { Some(String::from_str("original_book_name")) }
    else if str_eq(chinese, "短书名") { Some(String::from_str("book_short_name")) }
    else if str_eq(chinese, "下载完后选择") { Some(String::from_str("ask_after_download")) }
    else { None }
}

/// How a setting's current value is shown; `None` for the two
/// floating-point settings, which this library does not hold.
pub open spec fn shown_value(c: Config, f: ConfigField) -> Option<Seq<char>> {
    match f {
        ConfigField::SavePath => Some(c.save_path@),
        ConfigField::AudiobookVoice => Some(c.audiobook_voice@),
        ConfigField::AudiobookRate => Some(c.audiobook_rate@),
        ConfigField::AudiobookVolume => Some(c.audiobook_volume@),
        ConfigField::AudiobookPitch => Some(c.audiobook_pitch@),
        ConfigField::AudiobookTtsProvider => Some(c.audiobook_tts_provider@),
        ConfigField::AudiobookTtsApiUrl => Some(c.audiobook_tts_api_url@),
        ConfigField::AudiobookTtsApiToken => Some(c.audiobook_tts_api_token@),
        ConfigField::AudiobookTtsModel => Some(c.audiobook_tts_model@),
        ConfigField::NovelFormat => Some(c.novel_format@),
        ConfigField::PreferredBookNameField => Some(book_name_label(c.preferred_book_name_field@)),
        ConfigField::AudiobookFormat => Some(c.audiobook_format@),
        ConfigField::BulkFiles => Some(bool_text(c.bulk_files)),
        ConfigField::AutoClearDump => Some(bool_text(c.auto_clear_dump)),
        ConfigField::AutoOpenDownloadedFiles => Some(bool_text(c.auto_open_downloaded_files)),
        ConfigField::AllowOverwriteFiles => Some(bool_text(c.allow_overwrite_files)),
        ConfigField::OldCli => Some(bool_text(c.old_cli)),
        ConfigField::EnableSegmentComments => Some(bool_text(c.enable_segment_comments)),
        ConfigField::UseOfficialApi => Some(bool_text(c.use_official_api)),
        ConfigField::EnableAudiobook => Some(bool_text(c.enable_audiobook)),
        ConfigField::DownloadCommentImages => Some(bool_text(c.download_comment_images)),
        ConfigField::DownloadCommentAvatars => Some(bool_text(c.download_comment_avatars)),
        ConfigField::ForceConvertImagesToJpeg => Some(bool_text(c.force_convert_images_to_jpeg)),
        ConfigField::JpegRetryConvert => Some(bool_text(c.jpeg_retry_convert)),
        ConfigField::ConvertHeicToJpeg => Some(bool_text(c.convert_heic_to_jpeg)),
        ConfigField::KeepHeicOriginal => Some(bool_text(c.keep_heic_original)),
        ConfigField::ApiEndpoints => Some(join_seq(strings_view(c.api_endpoints@), ","@)),
        ConfigField::BlockedMediaDomains => Some(join_seq(strings_view(c.blocked_media_domains@), ","@)),
        ConfigField::MaxWorkers => Some(dec_string(c.max_workers as nat)),
        ConfigField::AudiobookConcurrency => Some(dec_string(c.audiobook_concurrency as nat)),
        ConfigField::SegmentCommentsTopN => Some(dec_string(c.segment_comments_top_n as nat)),
        ConfigField::SegmentCommentsWorkers => Some(dec_string(c.segment_comments_workers as nat)),
        ConfigField::MediaDownloadWorkers => Some(dec_string(c.media_download_workers as nat)),
        ConfigField::RequestTimeout => Some(dec_string(c.request_timeout as nat)),
        ConfigField::MaxRetries => Some(dec_string(c.max_retries as nat)),
        ConfigField::MediaLimitPerChapter => Some(dec_string(c.media_limit_per_chapter as nat)),
        ConfigField::MediaMaxDimensionPx => Some(dec_string(c.media_max_dimension_px as nat)),
        ConfigField::MinWait => Some(dec_string(c.min_wait_time as nat)),
        ConfigField::MaxWait => Some(dec_string(c.max_wait_time as nat)),
        ConfigField::JpegQuality => Some(dec_string(c.jpeg_quality as nat)),
        ConfigField::FirstLineIndentEm | ConfigField::MinConnectTimeout => None,
    }
}

/// The shown value of `field`.
pub fn current_cfg_value(config: &Config, field: ConfigField) -> (r: Option<String>)
    ensures
        opt_view(r) == shown_value(*config, field),
{
    match field {
        ConfigField::SavePath => Some(string_of(chars_of(config.save_path.as_str()).as_slice())),
        ConfigField::AudiobookVoice => Some(string_of(chars_of(config.audiobook_voice.as_str()).as_slice())),
        ConfigField::AudiobookRate => Some(string_of(chars_of(config.audiobook_rate.as_str()).as_slice())),
        ConfigField::AudiobookVolume => Some(string_of(chars_of(config.audiobook_volume.as_str()).as_slice())),
        ConfigField::AudiobookPitch => Some(string_of(chars_of(config.audiobook_pitch.as_str()).as_slice())),
        ConfigField::AudiobookTtsProvider => Some(string_of(chars_of(config.audiobook_tts_provider.as_str()).as_slice())),
        ConfigField::AudiobookTtsApiUrl => Some(string_of(chars_of(config.audiobook_tts_api_url.as_str()).as_slice())),
        ConfigField::AudiobookTtsApiToken => Some(string_of(chars_of(config.audiobook_tts_api_token.as_str()).as_slice())),
        ConfigField::AudiobookTtsModel => Some(string_of(chars_of(config.audiobook_tts_model.as_str()).as_slice())),
        ConfigField::NovelFormat => Some(string_of(chars_of(config.novel_format.as_str()).as_slice())),
        ConfigField::PreferredBookNameField => Some(string_of(chars_of(book_name_field_to_chinese(config.preferred_book_name_field.as_str())).as_slice())),
        ConfigField::AudiobookFormat => Some(string_of(chars_of(config.audiobook_format.as_str()).as_slice())),
        ConfigField::BulkFiles => Some(bool_to_string(config.bulk_files)),
        ConfigField::AutoClearDump => Some(bool_to_string(config.auto_clear_dump)),
        ConfigField::AutoOpenDownloadedFiles => Some(bool_to_string(config.auto_open_downloaded_files)),
        ConfigField::AllowOverwriteFiles => Some(bool_to_string(config.allow_overwrite_files)),
        ConfigField::OldCli => Some(bool_to_string(config.old_cli)),
        ConfigField::EnableSegmentComments => Some(bool_to_string(config.enable_segment_comments)),
        ConfigField::UseOfficialApi => Some(bool_to_string(config.use_official_api)),
        ConfigField::EnableAudiobook => Some(bool_to_string(config.enable_audiobook)),
        ConfigField::DownloadCommentImages => Some(bool_to_string(config.download_comment_images)),
        ConfigField::DownloadCommentAvatars => Some(bool_to_string(config.download_comment_avatars)),
        ConfigField::ForceConvertImagesToJpeg => Some(bool_to_string(config.force_convert_images_to_jpeg)),
        ConfigField::JpegRetryConvert => Some(bool_to_string(config.jpeg_retry_convert)),
        ConfigField::ConvertHeicToJpeg => Some(bool_to_string(config.convert_heic_to_jpeg)),
        ConfigField::KeepHeicOriginal => Some(bool_to_string(config.keep_heic_original)),
        ConfigField::ApiEndpoints => Some(join_strings(config.api_endpoints.as_slice(), ",")),
        ConfigField::BlockedMediaDomains => Some(join_strings(config.blocked_media_domains.as_slice(), ",")),
        ConfigField::MaxWorkers => Some(u64_to_string(config.max_workers as u64)),
        ConfigField::AudiobookConcurrency => Some(u64_to_string(config.audiobook_concurrency as u64)),
        ConfigField::SegmentCommentsTopN => Some(u64_to_string(config.segment_comments_top_n as u64)),
        ConfigField::SegmentCommentsWorkers => Some(u64_to_string(config.segment_comments_workers as u64)),
        ConfigField::MediaDownloadWorkers => Some(u64_to_string(config.media_download_workers as u64)),
        ConfigField::RequestTimeout => Some(u64_to_string(config.request_timeout as u64)),
        ConfigField::MaxRetries => Some(u64_to_string(config.max_retries as u64)),
        ConfigField::MediaLimitPerChapter => Some(u64_to_string(config.media_limit_per_chapter as u64)),
        ConfigField::MediaMaxDimensionPx => Some(u64_to_string(config.media_max_dimension_px as u64)),
        ConfigField::MinWait => Some(u64_to_string(config.min_wait_time as u64)),
        ConfigField::MaxWait => Some(u64_to_string(config.max_wait_time as u64)),
        ConfigField::JpegQuality => Some(u64_to_string(config.jpeg_quality as u64)),
        ConfigField::FirstLineIndentEm | ConfigField::MinConnectTimeout => None,
    }
}

/// The first preset whose stored value equals `value` in any ASCII case.
pub open spec fn preset_match(presets: Seq<(Seq<char>, Seq<char>)>, value: Seq<char>, i: int) -> bool {
    0 <= i < presets.len() && lower_seq(presets[i].0) == lower_seq(value)
        && forall|j: int| 0 <= j < i ==> lower_seq(#[trigger] presets[j].0) != lower_seq(value)
}

/// The position of the preset matching `value`, or the first preset when none
/// does; this is the choice highlighted when a preset setting is edited.
pub fn preset_position(presets: &[VoicePreset], value: &str) -> (i: usize)
    ensures
        preset_match(presets_view(presets@), value@, i as int)
            || (i == 0 && forall|j: int| 0 <= j < presets@.len() ==> lower_seq(#[trigger] presets_view(presets@)[j].0) != lower_seq(value@)),
{
    let ghost pv = presets_view(presets@);
    for k in 0..presets.len()
        invariant
            pv == presets_view(presets@),
            forall|j: int| 0 <= j < k ==> lower_seq(#[trigger] pv[j].0) != lower_seq(value@),
    {
        if eq_ignore_ascii_case(presets[k].name, value) {
            return k;
        }
    }
    0
}

/// Which choice of the true/false list is highlighted for a switch's current
/// state: the first ("true") unless the switch is off.
pub open spec fn switch_choice(current: Option<bool>) -> usize {
    if current == Some(false) { 1 } else { 0 }
}

/// The highlighted choice for a switch's current state.
pub fn bool_choice_index(current: Option<bool>) -> (i: usize)
    ensures
        i == switch_choice(current),
{
    match current {
        Some(false) => 1,
        _ => 0,
    }
}

/// Why a typed value was not saved, shown as the status line.
#[derive(Debug, Clone, Copy, PartialEq, Eq, Structural)]
pub enum CfgRejection {
    NovelFormat,
    BookNameField,
    SegmentCommentsNeedEpub,
    MaxWorkers,
    RequestTimeout,
    MinWaitAboveMax,
    MaxWaitBelowMin,
    AudiobookFormat,
    AudiobookConcurrency,
    SegmentCommentsTopN,
    SegmentCommentsWorkers,
    MediaDownloadWorkers,
    JpegQuality,
}

/// The status line of each rejection.
pub open spec fn rejection_text(r: CfgRejection) -> Seq<char> {
    match r {
        CfgRejection::NovelFormat => "仅支持 txt 或 epub"@,
        CfgRejection::BookNameField => "请选择：默认书名、原始书名、短书名 或 下载完后选择"@,
        CfgRejection::SegmentCommentsNeedEpub => "段评仅支持 epub，请先将格式改为 epub"@,
        CfgRejection::MaxWorkers => "最大线程数需大于 0"@,
        CfgRejection::RequestTimeout => "超时时间需大于 0"@,
        CfgRejection::MinWaitAboveMax => "最小等待时间不能超过最大等待时间"@,
        CfgRejection::MaxWaitBelowMin => "最大等待时间需要不小于最小等待时间"@,
        CfgRejection::AudiobookFormat => "格式仅支持 mp3 或 wav"@,
        CfgRejection::AudiobookConcurrency => "并发章节数需大于 0"@,
        CfgRejection::SegmentCommentsTopN => "评论数上限需大于 0"@,
        CfgRejection::SegmentCommentsWorkers => "段评线程数需大于 0"@,
        CfgRejection::MediaDownloadWorkers => "媒体线程数需大于 0"@,
        CfgRejection::JpegQuality => "JPEG 质量需在 0-100 之间"@,
    }
}

impl CfgRejection {
    /// The status line shown.
    pub fn message(&self) -> (s: String)
        ensures
            s@ == rejection_text(*self),
    {
        match self {
            CfgRejection::NovelFormat => String::from_str("仅支持 txt 或 epub"),
            CfgRejection::BookNameField => String::from_str("请选择：默认书名、原始书名、短书名 或 下载完后选择"),
            CfgRejection::SegmentCommentsNeedEpub => String::from_str("段评仅支持 epub，请先将格式改为 epub"),
            CfgRejection::MaxWorkers => String::from_str("最大线程数需大于 0"),
            CfgRejection::RequestTimeout => String::from_str("超时时间需大于 0"),
            CfgRejection::MinWaitAboveMax => String::from_str("最小等待时间不能超过最大等待时间"),
            CfgRejection::MaxWaitBelowMin => String::from_str("最大等待时间需要不小于最小等待时间"),
            CfgRejection::AudiobookFormat => String::from_str("格式仅支持 mp3 或 wav"),
            CfgRejection::AudiobookConcurrency => String::from_str("并发章节数需大于 0"),
            CfgRejection::SegmentCommentsTopN => String::from_str("评论数上限需大于 0"),
            CfgRejection::SegmentCommentsWorkers => String::from_str("段评线程数需大于 0"),
            CfgRejection::MediaDownloadWorkers => String::from_str("媒体线程数需大于 0"),
            CfgRejection::JpegQuality => String::from_str("JPEG 质量需在 0-100 之间"),
        }
    }
}

/// A typed value that is not of the setting's kind.
#[derive(Debug, Clone, Copy, PartialEq, Eq, Structural)]
pub enum CfgInputError {
    TrueFalse,
    PositiveInt,
    Seconds,
    Integer,
    Millis,
    Percent,
}

/// The message of each input error.
pub open spec fn input_error_text(e: CfgInputError) -> Seq<char> {
    match e {
        CfgInputError::TrueFalse => "请输入 true/false"@,
        CfgInputError::PositiveInt => "请输入正整数"@,
        CfgInputError::Seconds => "请输入秒数"@,
        CfgInputError::Integer => "请输入整数"@,
        CfgInputError::Millis => "请输入整数毫秒"@,
        CfgInputError::Percent => "请输入 0-100 之间的整数"@,
    }
}

impl CfgInputError {
    /// The message shown.
    pub fn message(&self) -> (s: String)
        ensures
            s@ == input_error_text(*self),
    {
        match self {
            CfgInputError::TrueFalse => String::from_str("请输入 true/false"),
            CfgInputError::PositiveInt => String::from_str("请输入正整数"),
            CfgInputError::Seconds => String::from_str("请输入秒数"),
            CfgInputError::Integer => String::from_str("请输入整数"),
            CfgInputError::Millis => String::from_str("请输入整数毫秒"),
            CfgInputError::Percent => String::from_str("请输入 0-100 之间的整数"),
        }
    }
}

/// What became of a typed value.
#[derive(Debug, Clone, Copy, PartialEq, Eq, Structural)]
pub enum CfgEdit {
    /// Saved.
    Saved,
    /// Saved; choosing TXT also switched segment comments off.
    SavedSegmentCommentsOff,
    /// Not saved, with the reason.
    Rejected(CfgRejection),
    /// A decimal fraction, which the caller reads and sets.
    FloatValue,
}

/// The outcome `Ok(e)`.
pub open spec fn done(e: CfgEdit) -> Result<CfgEdit, CfgInputError> {
    Ok(e)
}

/// Nothing changed and the outcome is `r`.
pub open spec fn unchanged(old: Config, new: Config, r: Result<CfgEdit, CfgInputError>, e: Result<CfgEdit, CfgInputError>) -> bool {
    new == old && r == e
}

/// `new` is `old` with the text setting `f` replaced by a string reading
/// `s`, and nothing else changed.
#[verifier::opaque]
pub open spec fn text_changed(old: Config, new: Config, f: ConfigField, s: Seq<char>) -> bool {
    match f {
        ConfigField::SavePath => new == (Config { save_path: new.save_path, ..old }) && new.save_path@ == s,
        ConfigField::AudiobookVoice => new == (Config { audiobook_voice: new.audiobook_voice, ..old }) && new.audiobook_voice@ == s,
        ConfigField::AudiobookRate => new == (Config { audiobook_rate: new.audiobook_rate, ..old }) && new.audiobook_rate@ == s,
        ConfigField::AudiobookVolume => new == (Config { audiobook_volume: new.audiobook_volume, ..old }) && new.audiobook_volume@ == s,
        ConfigField::AudiobookPitch => new == (Config { audiobook_pitch: new.audiobook_pitch, ..old }) && new.audiobook_pitch@ == s,
        ConfigField::AudiobookTtsProvider => new == (Config { audiobook_tts_provider: new.audiobook_tts_provider, ..old }) && new.audiobook_tts_provider@ == s,
        ConfigField::AudiobookTtsApiUrl => new == (Config { audiobook_tts_api_url: new.audiobook_tts_api_url, ..old }) && new.audiobook_tts_api_url@ == s,
        ConfigField::AudiobookTtsApiToken => new == (Config { audiobook_tts_api_token: new.audiobook_tts_api_token, ..old }) && new.audiobook_tts_api_token@ == s,
        ConfigField::AudiobookTtsModel => new == (Config { audiobook_tts_model: new.audiobook_tts_model, ..old }) && new.audiobook_tts_model@ == s,
        ConfigField::NovelFormat => new == (Config { novel_format: new.novel_format, ..old }) && new.novel_format@ == s,
        ConfigField::PreferredBookNameField => new == (Config { preferred_book_name_field: new.preferred_book_name_field, ..old }) && new.preferred_book_name_field@ == s,
        ConfigField::AudiobookFormat => new == (Config { audiobook_format: new.audiobook_format, ..old }) && new.audiobook_format@ == s,
        _ => new == old,
    }
}

/// The stored book-name field chosen by the text `t`: a label, or one of the
/// stored values in any ASCII case.
pub open spec fn book_name_choice(t: Seq<char>) -> Option<Seq<char>> {
    match book_name_of_label(t) {
        Some(e) => Some(e),
        None => {
            let l = lower_seq(t);
            if l == "book_name"@ || l == "original_book_name"@ || l == "book_short_name"@ || l == "ask_after_download"@ {
                Some(l)
            } else {
                None
            }
        },
    }
}

/// Whether `t`, lowercased, is `lit`.
#[verifier::opaque]
pub open spec fn lower_is(t: Seq<char>, lit: Seq<char>) -> bool {
    lower_seq(t) == lit
}

/// Whether `f` is a plain text setting, saved as typed (trimmed).
pub open spec fn is_plain_text(f: ConfigField) -> bool {
    f == ConfigField::SavePath
        || f == ConfigField::AudiobookVoice
        || f == ConfigField::AudiobookRate
        || f == ConfigField::AudiobookVolume
        || f == ConfigField::AudiobookPitch
        || f == ConfigField::AudiobookTtsProvider
        || f == ConfigField::AudiobookTtsApiUrl
        || f == ConfigField::AudiobookTtsApiToken
        || f == ConfigField::AudiobookTtsModel
}

/// Saving the edit buffer `raw` into setting `f` of `old` gives `new` and `r`.
/// The buffer is trimmed first (`t`).
#[verifier::inline]
pub open spec fn tui_edit(old: Config, new: Config, f: ConfigField, raw: Seq<char>, r: Result<CfgEdit, CfgInputError>) -> bool {
    let t = trim_seq(raw);
    let saved = Ok::<CfgEdit, CfgInputError>(CfgEdit::Saved);
    &&& is_plain_text(f) ==> text_changed(old, new, f, t) && r == saved
    &&& f == ConfigField::NovelFormat ==> if !lower_is(t, "txt"@) && !lower_is(t, "epub"@) {
        unchanged(old, new, r, done(CfgEdit::Rejected(CfgRejection::NovelFormat)))
    } else if lower_is(t, "txt"@) && old.enable_segment_comments {
        text_changed(Config { enable_segment_comments: false, ..old }, new, f, lower_seq(t)) && r == done(CfgEdit::SavedSegmentCommentsOff)
    } else {
        text_changed(old, new, f, lower_seq(t)) && r == saved
    }
    &&& f == ConfigField::PreferredBookNameField ==> match book_name_choice(t) {
        None => unchanged(old, new, r, done(CfgEdit::Rejected(CfgRejection::BookNameField))),
        Some(v) => text_changed(old, new, f, v) && r == saved,
    }
    &&& f == ConfigField::AudiobookFormat ==> if !lower_is(t, "mp3"@) && !lower_is(t, "wav"@) {
        unchanged(old, new, r, done(CfgEdit::Rejected(CfgRejection::AudiobookFormat)))
    } else {
        text_changed(old, new, f, lower_seq(t)) && r == saved
    }
    &&& f == ConfigField::BulkFiles ==> match parse_bool_spec(t) {
        None => unchanged(old, new, r, Err(CfgInputError::TrueFalse)),
        Some(b) => new == (Config { bulk_files: b, ..old }) && r == saved,
    }
    &&& f == ConfigField::AutoClearDump ==> match parse_bool_spec(t) {
        None => unchanged(old, new, r, Err(CfgInputError::TrueFalse)),
        Some(b) => new == (Config { auto_clear_dump: b, ..old }) && r == saved,
    }
    &&& f == ConfigField::AutoOpenDownloadedFiles ==> match parse_bool_spec(t) {
        None => unchanged(old, new, r, Err(CfgInputError::TrueFalse)),
        Some(b) => new == (Config { auto_open_downloaded_files: b, ..old }) && r == saved,
    }
    &&& f == ConfigField::AllowOverwriteFiles ==> match parse_bool_spec(t) {
        None => unchanged(old, new, r, Err(CfgInputError::TrueFalse)),
        Some(b) => new == (Config { allow_overwrite_files: b, ..old }) && r == saved,
    }
    &&& f == ConfigField::OldCli ==> match parse_bool_spec(t) {
        None => unchanged(old, new, r, Err(CfgInputError::TrueFalse)),
        Some(b) => new == (Config { old_cli: b, ..old }) && r == saved,
    }
    &&& f == ConfigField::EnableSegmentComments ==> match parse_bool_spec(t) {
        None => unchanged(old, new, r, Err(CfgInputError::TrueFalse)),
        Some(b) => if b && lower_seq(old.novel_format@) != lower_seq("epub"@) {
            unchanged(old, new, r, done(CfgEdit::Rejected(CfgRejection::SegmentCommentsNeedEpub)))
        } else {
            new == (Config { enable_segment_comments: b, ..old }) && r == saved
        },
    }
    &&& f == ConfigField::UseOfficialApi ==> match parse_bool_spec(t) {
        None => unchanged(old, new, r, Err(CfgInputError::TrueFalse)),
        Some(b) => new == (Config { use_official_api: b, ..old }) && r == saved,
    }
    &&& f == ConfigField::EnableAudiobook ==> match parse_bool_spec(t) {
        None => unchanged(old, new, r, Err(CfgInputError::TrueFalse)),
        Some(b) => new == (Config { enable_audiobook: b, ..old }) && r == saved,
    }
    &&& f == ConfigField::DownloadCommentImages ==> match parse_bool_spec(t) {
        None => unchanged(old, new, r, Err(CfgInputError::TrueFalse)),
        Some(b) => new == (Config { download_comment_images: b, ..old }) && r == saved,
    }
    &&& f == ConfigField::DownloadCommentAvatars ==> match parse_bool_spec(t) {
        None => unchanged(old, new, r, Err(CfgInputError::TrueFalse)),
        Some(b) => new == (Config { download_comment_avatars: b, ..old }) && r == saved,
    }
    &&& f == ConfigField::ForceConvertImagesToJpeg ==> match parse_bool_spec(t) {
        None => unchanged(old, new, r, Err(CfgInputError::TrueFalse)),
        Some(b) => new == (Config { force_convert_images_to_jpeg: b, ..old }) && r == saved,
    }
    &&& f == ConfigField::JpegRetryConvert ==> match parse_bool_spec(t) {
        None => unchanged(old, new, r, Err(CfgInputError::TrueFalse)),
        Some(b) => new == (Config { jpeg_retry_convert: b, ..old }) && r == saved,
    }
    &&& f == ConfigField::ConvertHeicToJpeg ==> match parse_bool_spec(t) {
        None => unchanged(old, new, r, Err(CfgInputError::TrueFalse)),
        Some(b) => new == (Config { convert_heic_to_jpeg: b, ..old }) && r == saved,
    }
    &&& f == ConfigField::KeepHeicOriginal ==> match parse_bool_spec(t) {
        None => unchanged(old, new, r, Err(CfgInputError::TrueFalse)),
        Some(b) => new == (Config { keep_heic_original: b, ..old }) && r == saved,
    }
    &&& f == ConfigField::ApiEndpoints ==> {
        &&& new == (Config { api_endpoints: new.api_endpoints, ..old })
        &&& strings_view(new.api_endpoints@) == list_spec(t, seq![',', ';', '\n'])
        &&& r == saved
    }
    &&& f == ConfigField::BlockedMediaDomains ==> {
        &&& new == (Config { blocked_media_domains: new.blocked_media_domains, ..old })
        &&& strings_view(new.blocked_media_domains@) == list_spec(t, seq![',', ';', '\n'])
        &&& r == saved
    }
    &&& f == ConfigField::MaxWorkers ==> match parse_unsigned_spec(t, usize::MAX as nat) {
        None => unchanged(old, new, r, Err(CfgInputError::PositiveInt)),
        Some(n) => if n == 0 { unchanged(old, new, r, done(CfgEdit::Rejected(CfgRejection::MaxWorkers))) } else { new == (Config { max_workers: n as usize, ..old }) && r == saved },
    }
    &&& f == ConfigField::AudiobookConcurrency ==> match parse_unsigned_spec(t, usize::MAX as nat) {
        None => unchanged(old, new, r, Err(CfgInputError::PositiveInt)),
        Some(n) => if n == 0 { unchanged(old, new, r, done(CfgEdit::Rejected(CfgRejection::AudiobookConcurrency))) } else { new == (Config { audiobook_concurrency: n as usize, ..old }) && r == saved },
    }
    &&& f == ConfigField::SegmentCommentsTopN ==> match parse_unsigned_spec(t, usize::MAX as nat) {
        None => unchanged(old, new, r, Err(CfgInputError::Integer)),
        Some(n) => if n == 0 { unchanged(old, new, r, done(CfgEdit::Rejected(CfgRejection::SegmentCommentsTopN))) } else { new == (Config { segment_comments_top_n: n as usize, ..old }) && r == saved },
    }
    &&& f == ConfigField::SegmentCommentsWorkers ==> match parse_unsigned_spec(t, usize::MAX as nat) {
        None => unchanged(old, new, r, Err(CfgInputError::PositiveInt)),
        Some(n) => if n == 0 { unchanged(old, new, r, done(CfgEdit::Rejected(CfgRejection::SegmentCommentsWorkers))) } else { new == (Config { segment_comments_workers: n as usize, ..old }) && r == saved },
    }
    &&& f == ConfigField::MediaDownloadWorkers ==> match parse_unsigned_spec(t, usize::MAX as nat) {
        None => unchanged(old, new, r, Err(CfgInputError::PositiveInt)),
        Some(n) => if n == 0 { unchanged(old, new, r, done(CfgEdit::Rejected(CfgRejection::MediaDownloadWorkers))) } else { new == (Config { media_download_workers: n as usize, ..old }) && r == saved },
    }
    &&& f == ConfigField::RequestTimeout ==> match parse_unsigned_spec(t, u64::MAX as nat) {
        None => unchanged(old, new, r, Err(CfgInputError::Seconds)),
        Some(n) => if n == 0 { unchanged(old, new, r, done(CfgEdit::Rejected(CfgRejection::RequestTimeout))) } else { new == (Config { request_timeout: n as u64, ..old }) && r == saved },
    }
    &&& f == ConfigField::MaxRetries ==> match parse_unsigned_spec(t, u32::MAX as nat) {
        None => unchanged(old, new, r, Err(CfgInputError::Integer)),
        Some(n) => { new == (Config { max_retries: n as u32, ..old }) && r == saved },
    }
    &&& f == ConfigField::MediaLimitPerChapter ==> match parse_unsigned_spec(t, usize::MAX as nat) {
        None => unchanged(old, new, r, Err(CfgInputError::Integer)),
        Some(n) => { new == (Config { media_limit_per_chapter: n as usize, ..old }) && r == saved },
    }
    &&& f == ConfigField::MediaMaxDimensionPx ==> match parse_unsigned_spec(t, u32::MAX as nat) {
        None => unchanged(old, new, r, Err(CfgInputError::Integer)),
        Some(n) => { new == (Config { media_max_dimension_px: n as u32, ..old }) && r == saved },
    }
    &&& f == ConfigField::MinWait ==> match parse_unsigned_spec(t, u64::MAX as nat) {
        None => unchanged(old, new, r, Err(CfgInputError::Millis)),
        Some(n) => if n > old.max_wait_time { unchanged(old, new, r, done(CfgEdit::Rejected(CfgRejection::MinWaitAboveMax))) }
            else { new == (Config { min_wait_time: n as u64, ..old }) && r == saved },
    }
    &&& f == ConfigField::MaxWait ==> match parse_unsigned_spec(t, u64::MAX as nat) {
        None => unchanged(old, new, r, Err(CfgInputError::Millis)),
        Some(n) => if n < old.min_wait_time { unchanged(old, new, r, done(CfgEdit::Rejected(CfgRejection::MaxWaitBelowMin))) }
            else { new == (Config { max_wait_time: n as u64, ..old }) && r == saved },
    }
    &&& f == ConfigField::JpegQuality ==> match parse_unsigned_spec(t, u8::MAX as nat) {
        None => unchanged(old, new, r, Err(CfgInputError::Percent)),
        Some(n) => if n > 100 { unchanged(old, new, r, done(CfgEdit::Rejected(CfgRejection::JpegQuality))) }
            else { new == (Config { jpeg_quality: n as u8, ..old }) && r == saved },
    }
    &&& (f == ConfigField::FirstLineIndentEm || f == ConfigField::MinConnectTimeout) ==> unchanged(old, new, r, done(CfgEdit::FloatValue))
}


/// Saves the save path, trimmed.
fn save_path_text(config: &mut Config, field: ConfigField, raw: &str) -> (r: Result<CfgEdit, CfgInputError>)
    requires
        field == ConfigField::SavePath,
    ensures
        tui_edit(*old(config), *final(config), field, raw@, r),
{
    let s = string_of(trim_chars(chars_of(raw).as_slice()).as_slice());
    config.save_path = s;
    proof {
        reveal(text_changed);
    }
    Ok(CfgEdit::Saved)
}

/// Saves one of the voice, rate, volume and pitch, trimmed.
fn save_voice_text(config: &mut Config, field: ConfigField, raw: &str) -> (r: Result<CfgEdit, CfgInputError>)
    requires
        field == ConfigField::AudiobookVoice || field == ConfigField::AudiobookRate || field == ConfigField::AudiobookVolume || field == ConfigField::AudiobookPitch,
    ensures
        tui_edit(*old(config), *final(config), field, raw@, r),
{
    let s = string_of(trim_chars(chars_of(raw).as_slice()).as_slice());
    match field {
        ConfigField::AudiobookVoice => config.audiobook_voice = s,
        ConfigField::AudiobookRate => config.audiobook_rate = s,
        ConfigField::AudiobookVolume => config.audiobook_volume = s,
        _ => config.audiobook_pitch = s,
    }
    proof {
        reveal(text_changed);
    }
    Ok(CfgEdit::Saved)
}

/// Saves one of the third-party TTS settings, trimmed.
fn save_tts_text(config: &mut Config, field: ConfigField, raw: &str) -> (r: Result<CfgEdit, CfgInputError>)
    requires
        field == ConfigField::AudiobookTtsProvider || field == ConfigField::AudiobookTtsApiUrl || field == ConfigField::AudiobookTtsApiToken || field == ConfigField::AudiobookTtsModel,
    ensures
        tui_edit(*old(config), *final(config), field, raw@, r),
{
    let s = string_of(trim_chars(chars_of(raw).as_slice()).as_slice());
    match field {
        ConfigField::AudiobookTtsProvider => config.audiobook_tts_provider = s,
        ConfigField::AudiobookTtsApiUrl => config.audiobook_tts_api_url = s,
        ConfigField::AudiobookTtsApiToken => config.audiobook_tts_api_token = s,
        _ => config.audiobook_tts_model = s,
    }
    proof {
        reveal(text_changed);
    }
    Ok(CfgEdit::Saved)
}


/// The trimmed, lowercased buffer.
fn lowered(raw: &str) -> (r: String)
    ensures
        r@ == lower_seq(trim_seq(raw@)),
{
    canonical_string(raw)
}

/// Saves the novel format, which must be TXT or EPUB in any case; choosing
/// TXT switches segment comments off.
fn save_novel_format(config: &mut Config, raw: &str) -> (r: Result<CfgEdit, CfgInputError>)
    ensures
        tui_edit(*old(config), *final(config), ConfigField::NovelFormat, raw@, r),
{
    let lower = lowered(raw);
    proof {
        reveal(lower_is);
    }
    let txt = str_eq(lower.as_str(), "txt");
    if !txt && !str_eq(lower.as_str(), "epub") {
        return Ok(CfgEdit::Rejected(CfgRejection::NovelFormat));
    }
    config.novel_format = lower;
    proof {
        reveal(text_changed);
    }
    if txt && config.enable_segment_comments {
        config.enable_segment_comments = false;
        return Ok(CfgEdit::SavedSegmentCommentsOff);
    }
    Ok(CfgEdit::Saved)
}

/// Saves the preferred book-name field, given as a label or a stored value.
fn save_book_name_field(config: &mut Config, raw: &str) -> (r: Result<CfgEdit, CfgInputError>)
    ensures
        tui_edit(*old(config), *final(config), ConfigField::PreferredBookNameField, raw@, r),
{
    let t = string_of(trim_chars(chars_of(raw).as_slice()).as_slice());
    let value = match chinese_to_book_name_field(t.as_str()) {
        Some(english) => english,
        None => {
            let lower = lowered(t.as_str());
            proof {
                lemma_trim_idempotent(raw@);
            }
            if str_eq(lower.as_str(), "book_name") || str_eq(lower.as_str(), "original_book_name")
                || str_eq(lower.as_str(), "book_short_name") || str_eq(lower.as_str(), "ask_after_download") {
                lower
            } else {
                return Ok(CfgEdit::Rejected(CfgRejection::BookNameField));
            }
        },
    };
    config.preferred_book_name_field = value;
    proof {
        reveal(text_changed);
    }
    Ok(CfgEdit::Saved)
}

/// Saves the audiobook format, which must be MP3 or WAV in any case.
fn save_audiobook_format(config: &mut Config, raw: &str) -> (r: Result<CfgEdit, CfgInputError>)
    ensures
        tui_edit(*old(config), *final(config), ConfigField::AudiobookFormat, raw@, r),
{
    let lower = lowered(raw);
    proof {
        reveal(lower_is);
    }
    if !str_eq(lower.as_str(), "mp3") && !str_eq(lower.as_str(), "wav") {
        return Ok(CfgEdit::Rejected(CfgRejection::AudiobookFormat));
    }
    config.audiobook_format = lower;
    proof {
        reveal(text_changed);
    }
    Ok(CfgEdit::Saved)
}

/// `new` is `old` with the plain switch `field` set to `v`.
pub open spec fn switch_set(old: Config, new: Config, field: ConfigField, v: bool) -> bool {
    &&& field == ConfigField::BulkFiles ==> new == (Config { bulk_files: v, ..old })
    &&& field == ConfigField::AutoClearDump ==> new == (Config { auto_clear_dump: v, ..old })
    &&& field == ConfigField::AutoOpenDownloadedFiles ==> new == (Config { auto_open_downloaded_files: v, ..old })
    &&& field == ConfigField::AllowOverwriteFiles ==> new == (Config { allow_overwrite_files: v, ..old })
    &&& field == ConfigField::OldCli ==> new == (Config { old_cli: v, ..old })
    &&& field == ConfigField::UseOfficialApi ==> new == (Config { use_official_api: v, ..old })
    &&& field == ConfigField::EnableAudiobook ==> new == (Config { enable_audiobook: v, ..old })
    &&& field == ConfigField::DownloadCommentImages ==> new == (Config { download_comment_images: v, ..old })
    &&& field == ConfigField::DownloadCommentAvatars ==> new == (Config { download_comment_avatars: v, ..old })
    &&& field == ConfigField::ForceConvertImagesToJpeg ==> new == (Config { force_convert_images_to_jpeg: v, ..old })
    &&& field == ConfigField::JpegRetryConvert ==> new == (Config { jpeg_retry_convert: v, ..old })
    &&& field == ConfigField::ConvertHeicToJpeg ==> new == (Config { convert_heic_to_jpeg: v, ..old })
    &&& field == ConfigField::KeepHeicOriginal ==> new == (Config { keep_heic_original: v, ..old })
}

/// Sets a plain switch.
fn set_switch(config: &mut Config, field: ConfigField, v: bool)
    requires
        is_switch(field),
        field != ConfigField::EnableSegmentComments,
    ensures
        switch_set(*old(config), *final(config), field, v),
{
    match field {
        ConfigField::BulkFiles => {
            config.bulk_files = v;
            return;
        },
        ConfigField::AutoClearDump => {
            config.auto_clear_dump = v;
            return;
        },
        ConfigField::AutoOpenDownloadedFiles => {
            config.auto_open_downloaded_files = v;
            return;
        },
        ConfigField::AllowOverwriteFiles => {
            config.allow_overwrite_files = v;
            return;
        },
        ConfigField::OldCli => {
            config.old_cli = v;
            return;
        },
        ConfigField::UseOfficialApi => {
            config.use_official_api = v;
            return;
        },
        ConfigField::EnableAudiobook => {
            config.enable_audiobook = v;
            return;
        },
        ConfigField::DownloadCommentImages => {
            config.download_comment_images = v;
            return;
        },
        ConfigField::DownloadCommentAvatars => {
            config.download_comment_avatars = v;
            return;
        },
        ConfigField::ForceConvertImagesToJpeg => {
            config.force_convert_images_to_jpeg = v;
            return;
        },
        ConfigField::JpegRetryConvert => {
            config.jpeg_retry_convert = v;
            return;
        },
        ConfigField::ConvertHeicToJpeg => {
            config.convert_heic_to_jpeg = v;
            return;
        },
        _ => {
            config.keep_heic_original = v;
            return;
        },
    }
}

/// Saves a plain switch.
fn save_switch(config: &mut Config, field: ConfigField, raw: &str) -> (r: Result<CfgEdit, CfgInputError>)
    requires
        is_switch(field),
        field != ConfigField::EnableSegmentComments,
    ensures
        tui_edit(*old(config), *final(config), field, raw@, r),
{
    let t = string_of(trim_chars(chars_of(raw).as_slice()).as_slice());
    let v = match parse_bool(t.as_str()) {
        Some(b) => b,
        None => return Err(CfgInputError::TrueFalse),
    };
    set_switch(config, field, v);
    Ok(CfgEdit::Saved)
}

/// Saves the segment-comments switch; it can be switched on only while the
/// format is EPUB.
fn save_segment_comments(config: &mut Config, raw: &str) -> (r: Result<CfgEdit, CfgInputError>)
    ensures
        tui_edit(*old(config), *final(config), ConfigField::EnableSegmentComments, raw@, r),
{
    let t = string_of(trim_chars(chars_of(raw).as_slice()).as_slice());
    let v = match parse_bool(t.as_str()) {
        Some(b) => b,
        None => return Err(CfgInputError::TrueFalse),
    };
    if v && !eq_ignore_ascii_case(config.novel_format.as_str(), "epub") {
        return Ok(CfgEdit::Rejected(CfgRejection::SegmentCommentsNeedEpub));
    }
    config.enable_segment_comments = v;
    Ok(CfgEdit::Saved)
}

/// Saves a list setting.
fn save_list(config: &mut Config, field: ConfigField, raw: &str) -> (r: Result<CfgEdit, CfgInputError>)
    requires
        field == ConfigField::ApiEndpoints || field == ConfigField::BlockedMediaDomains,
    ensures
        tui_edit(*old(config), *final(config), field, raw@, r),
{
    let t = string_of(trim_chars(chars_of(raw).as_slice()).as_slice());
    let list = parse_string_list(t.as_str());
    if field == ConfigField::ApiEndpoints {
        config.api_endpoints = list;
    } else {
        config.blocked_media_domains = list;
    }
    Ok(CfgEdit::Saved)
}

/// Whether `f` is a whole-number setting checked only against zero.
pub open spec fn is_count(f: ConfigField) -> bool {
    f == ConfigField::MaxWorkers
        || f == ConfigField::AudiobookConcurrency
        || f == ConfigField::SegmentCommentsTopN
        || f == ConfigField::SegmentCommentsWorkers
        || f == ConfigField::MediaDownloadWorkers
        || f == ConfigField::RequestTimeout
        || f == ConfigField::MaxRetries
        || f == ConfigField::MediaLimitPerChapter
        || f == ConfigField::MediaMaxDimensionPx
}

/// Saves a whole-number setting.
fn save_count(config: &mut Config, field: ConfigField, raw: &str) -> (r: Result<CfgEdit, CfgInputError>)
    requires
        is_count(field),
    ensures
        tui_edit(*old(config), *final(config), field, raw@, r),
{
    let t = trim_chars(chars_of(raw).as_slice());
    match field {
        ConfigField::MaxWorkers => {
            let n = match parse_unsigned(t.as_slice(), usize::MAX as u64) {
                Some(n) => n,
                None => return Err(CfgInputError::PositiveInt),
            };
            if n == 0 {
                return Ok(CfgEdit::Rejected(CfgRejection::MaxWorkers));
            }
            config.max_workers = n as usize;
        },
        ConfigField::AudiobookConcurrency => {
            let n = match parse_unsigned(t.as_slice(), usize::MAX as u64) {
                Some(n) => n,
                None => return Err(CfgInputError::PositiveInt),
            };
            if n == 0 {
                return Ok(CfgEdit::Rejected(CfgRejection::AudiobookConcurrency));
            }
            config.audiobook_concurrency = n as usize;
        },
        ConfigField::SegmentCommentsTopN => {
            let n = match parse_unsigned(t.as_slice(), usize::MAX as u64) {
                Some(n) => n,
                None => return Err(CfgInputError::Integer),
            };
            if n == 0 {
                return Ok(CfgEdit::Rejected(CfgRejection::SegmentCommentsTopN));
            }
            config.segment_comments_top_n = n as usize;
        },
        ConfigField::SegmentCommentsWorkers => {
            let n = match parse_unsigned(t.as_slice(), usize::MAX as u64) {
                Some(n) => n,
                None => return Err(CfgInputError::PositiveInt),
            };
            if n == 0 {
                return Ok(CfgEdit::Rejected(CfgRejection::SegmentCommentsWorkers));
            }
            config.segment_comments_workers = n as usize;
        },
        ConfigField::MediaDownloadWorkers => {
            let n = match parse_unsigned(t.as_slice(), usize::MAX as u64) {
                Some(n) => n,
                None => return Err(CfgInputError::PositiveInt),
            };
            if n == 0 {
                return Ok(CfgEdit::Rejected(CfgRejection::MediaDownloadWorkers));
            }
            config.media_download_workers = n as usize;
        },
        ConfigField::RequestTimeout => {
            let n = match parse_unsigned(t.as_slice(), u64::MAX as u64) {
                Some(n) => n,
                None => return Err(CfgInputError::Seconds),
            };
            if n == 0 {
                return Ok(CfgEdit::Rejected(CfgRejection::RequestTimeout));
            }
            config.request_timeout = n as u64;
        },
        ConfigField::MaxRetries => {
            let n = match parse_unsigned(t.as_slice(), u32::MAX as u64) {
                Some(n) => n,
                None => return Err(CfgInputError::Integer),
            };
            config.max_retries = n as u32;
        },
        ConfigField::MediaLimitPerChapter => {
            let n = match parse_unsigned(t.as_slice(), usize::MAX as u64) {
                Some(n) => n,
                None => return Err(CfgInputError::Integer),
            };
            config.media_limit_per_chapter = n as usize;
        },
        ConfigField::MediaMaxDimensionPx => {
            let n = match parse_unsigned(t.as_slice(), u32::MAX as u64) {
                Some(n) => n,
                None => return Err(CfgInputError::Integer),
            };
            config.media_max_dimension_px = n as u32;
        },
        _ => {},
    }
    Ok(CfgEdit::Saved)
}

/// Saves the minimum wait, which may not exceed the maximum.
fn save_min_wait(config: &mut Config, raw: &str) -> (r: Result<CfgEdit, CfgInputError>)
    ensures
        tui_edit(*old(config), *final(config), ConfigField::MinWait, raw@, r),
{
    let t = trim_chars(chars_of(raw).as_slice());
    let n = match parse_unsigned(t.as_slice(), u64::MAX) {
        Some(n) => n,
        None => return Err(CfgInputError::Millis),
    };
    if n > config.max_wait_time {
        return Ok(CfgEdit::Rejected(CfgRejection::MinWaitAboveMax));
    }
    config.min_wait_time = n;
    Ok(CfgEdit::Saved)
}

/// Saves the maximum wait, which may not fall below the minimum.
fn save_max_wait(config: &mut Config, raw: &str) -> (r: Result<CfgEdit, CfgInputError>)
    ensures
        tui_edit(*old(config), *final(config), ConfigField::MaxWait, raw@, r),
{
    let t = trim_chars(chars_of(raw).as_slice());
    let n = match parse_unsigned(t.as_slice(), u64::MAX) {
        Some(n) => n,
        None => return Err(CfgInputError::Millis),
    };
    if n < config.min_wait_time {
        return Ok(CfgEdit::Rejected(CfgRejection::MaxWaitBelowMin));
    }
    config.max_wait_time = n;
    Ok(CfgEdit::Saved)
}

/// Saves the JPEG quality, a byte value of at most 100.
fn save_jpeg_quality(config: &mut Config, raw: &str) -> (r: Result<CfgEdit, CfgInputError>)
    ensures
        tui_edit(*old(config), *final(config), ConfigField::JpegQuality, raw@, r),
{
    let t = trim_chars(chars_of(raw).as_slice());
    let n = match parse_unsigned(t.as_slice(), 255) {
        Some(n) => n,
        None => return Err(CfgInputError::Percent),
    };
    if n > 100 {
        return Ok(CfgEdit::Rejected(CfgRejection::JpegQuality));
    }
    config.jpeg_quality = n as u8;
    Ok(CfgEdit::Saved)
}

/// Saves the edit buffer `raw` into the setting `field`.
pub fn apply_cfg_edit(config: &mut Config, field: ConfigField, raw: &str) -> (r: Result<CfgEdit, CfgInputError>)
    ensures
        tui_edit(*old(config), *final(config), field, raw@, r),
{
    match field {
        ConfigField::SavePath => save_path_text(config, field, raw),
        ConfigField::AudiobookVoice | ConfigField::AudiobookRate | ConfigField::AudiobookVolume
        | ConfigField::AudiobookPitch => save_voice_text(config, field, raw),
        ConfigField::AudiobookTtsProvider | ConfigField::AudiobookTtsApiUrl | ConfigField::AudiobookTtsApiToken
        | ConfigField::AudiobookTtsModel => save_tts_text(config, field, raw),
        ConfigField::NovelFormat => save_novel_format(config, raw),
        ConfigField::PreferredBookNameField => save_book_name_field(config, raw),
        ConfigField::AudiobookFormat => save_audiobook_format(config, raw),
        ConfigField::EnableSegmentComments => save_segment_comments(config, raw),
        ConfigField::BulkFiles | ConfigField::AutoClearDump | ConfigField::AutoOpenDownloadedFiles | ConfigField::AllowOverwriteFiles | ConfigField::OldCli | ConfigField::UseOfficialApi | ConfigField::EnableAudiobook | ConfigField::DownloadCommentImages | ConfigField::DownloadCommentAvatars | ConfigField::ForceConvertImagesToJpeg | ConfigField::JpegRetryConvert | ConfigField::ConvertHeicToJpeg | ConfigField::KeepHeicOriginal => save_switch(config, field, raw),
        ConfigField::ApiEndpoints | ConfigField::BlockedMediaDomains => save_list(config, field, raw),
        ConfigField::MaxWorkers | ConfigField::AudiobookConcurrency | ConfigField::SegmentCommentsTopN | ConfigField::SegmentCommentsWorkers | ConfigField::MediaDownloadWorkers | ConfigField::RequestTimeout | ConfigField::MaxRetries | ConfigField::MediaLimitPerChapter | ConfigField::MediaMaxDimensionPx => save_count(config, field, raw),
        ConfigField::MinWait => save_min_wait(config, raw),
        ConfigField::MaxWait => save_max_wait(config, raw),
        ConfigField::JpegQuality => save_jpeg_quality(config, raw),
        ConfigField::FirstLineIndentEm | ConfigField::MinConnectTimeout => Ok(CfgEdit::FloatValue),
    }
}

/// The status line after a save.
pub open spec fn saved_status_text(title: Seq<char>, segment_comments_off: bool) -> Seq<char> {
    if segment_comments_off {
        "已保存: "@ + title + "（已关闭段评以兼容 txt）"@
    } else {
        "已保存: "@ + title
    }
}

/// The status line after saving the entry titled `title`.
pub fn saved_status(title: &str, segment_comments_off: bool) -> (s: String)
    ensures
        s@ == saved_status_text(title@, segment_comments_off),
{
    let mut v = chars_of("已保存: ");
    v.extend_from_slice(chars_of(title).as_slice());
    if segment_comments_off {
        v.extend_from_slice(chars_of("（已关闭段评以兼容 txt）").as_slice());
    }
    string_of(v.as_slice())
}


/// Segment comments are on only while the format reads EPUB (in any case).
pub open spec fn segment_comments_consistent(c: Config) -> bool {
    c.enable_segment_comments ==> lower_seq(c.novel_format@) == lower_seq("epub"@)
}

/// Saving any entry of the settings screen keeps segment comments
/// consistent with the format: they stay on only with EPUB.
#[verifier::rlimit(50)]
pub proof fn lemma_cfg_edit_keeps_segment_rule(
    old: Config,
    new: Config,
    f: ConfigField,
    raw: Seq<char>,
    r: Result<CfgEdit, CfgInputError>,
)
    requires
        segment_comments_consistent(old),
        tui_edit(old, new, f, raw, r),
    ensures
        segment_comments_consistent(new),
{
    let t = trim_seq(raw);
    if f == ConfigField::NovelFormat {
        reveal(text_changed);
        reveal(lower_is);
        reveal_strlit("epub");
        if lower_is(t, "epub"@) {
            assert(lower_seq(lower_seq(t)) =~= lower_seq(t));
        }
    } else if is_plain_text(f) || f == ConfigField::PreferredBookNameField || f == ConfigField::AudiobookFormat {
        reveal(text_changed);
    }
}


/// The digits of a number, trimmed, read back as the number.
proof fn lemma_number_reads_back(n: nat, max: nat)
    requires
        n <= max,
    ensures
        parse_unsigned_spec(trim_seq(dec_string(n)), max) == Some(n),
{
    crate::text::lemma_dec_string(n);
    let d = dec_string(n);
    assert(crate::text::is_digit(d[0]));
    assert(crate::text::is_digit(d[d.len() - 1]));
    crate::text::lemma_trim_noop(d);
    crate::text::lemma_parse_dec_string(n, max);
}

/// The text of a switch value, trimmed, read back as the value.
proof fn lemma_switch_reads_back(b: bool)
    ensures
        parse_bool_spec(trim_seq(bool_text(b))) == Some(b),
{
    reveal_strlit("true");
    reveal_strlit("false");
    reveal_strlit("1");
    reveal_strlit("yes");
    reveal_strlit("y");
    reveal_strlit("on");
    let t = bool_text(b);
    assert(t.len() > 0 && !crate::text::is_ws(t[0]) && !crate::text::is_ws(t.last()));
    crate::text::lemma_trim_noop(t);
    assert(trim_seq(t) == t);
    assert(lower_seq(t) =~= t);
    if b {
        assert(lower_seq(trim_seq(t)) == "true"@);
    } else {
        assert(lower_seq(trim_seq(t)) == "false"@);
        assert(lower_seq(trim_seq(t)) != "true"@);
        assert(lower_seq(trim_seq(t)) != "1"@);
        assert(lower_seq(trim_seq(t)) != "yes"@);
        assert(lower_seq(trim_seq(t)) != "y"@);
        assert(lower_seq(trim_seq(t)) != "on"@);
    }
}

/// Saving the value a switch or number setting shows changes nothing.
#[verifier::rlimit(50)]
pub proof fn lemma_saving_shown_value_changes_nothing(
    c: Config,
    new: Config,
    f: ConfigField,
    v: Seq<char>,
    r: Result<CfgEdit, CfgInputError>,
)
    requires
        is_switch(f) || is_count(f) || f == ConfigField::MinWait || f == ConfigField::MaxWait
            || f == ConfigField::JpegQuality,
        shown_value(c, f) == Some(v),
        tui_edit(c, new, f, v, r),
    ensures
        new == c,
{
    if is_switch(f) {
        lemma_switch_reads_back(switch_value(c, f)->0);
    } else if f == ConfigField::MaxWorkers {
        lemma_number_reads_back(c.max_workers as nat, usize::MAX as nat);
    } else if f == ConfigField::AudiobookConcurrency {
        lemma_number_reads_back(c.audiobook_concurrency as nat, usize::MAX as nat);
    } else if f == ConfigField::SegmentCommentsTopN {
        lemma_number_reads_back(c.segment_comments_top_n as nat, usize::MAX as nat);
    } else if f == ConfigField::SegmentCommentsWorkers {
        lemma_number_reads_back(c.segment_comments_workers as nat, usize::MAX as nat);
    } else if f == ConfigField::MediaDownloadWorkers {
        lemma_number_reads_back(c.media_download_workers as nat, usize::MAX as nat);
    } else if f == ConfigField::RequestTimeout {
        lemma_number_reads_back(c.request_timeout as nat, u64::MAX as nat);
    } else if f == ConfigField::MaxRetries {
        lemma_number_reads_back(c.max_retries as nat, u32::MAX as nat);
    } else if f == ConfigField::MediaLimitPerChapter {
        lemma_number_reads_back(c.media_limit_per_chapter as nat, usize::MAX as nat);
    } else if f == ConfigField::MediaMaxDimensionPx {
        lemma_number_reads_back(c.media_max_dimension_px as nat, u32::MAX as nat);
    } else if f == ConfigField::MinWait {
        lemma_number_reads_back(c.min_wait_time as nat, u64::MAX as nat);
    } else if f == ConfigField::MaxWait {
        lemma_number_reads_back(c.max_wait_time as nat, u64::MAX as nat);
    } else {
        lemma_number_reads_back(c.jpeg_quality as nat, u8::MAX as nat);
    }
}

} // verus!
