//! Request and response bodies of the web API, with their defaults and the
//! decoding of packed download statuses.
use vstd::prelude::*;

verus! {

// ---------------------------------------------------------------------------
// Requests
// ---------------------------------------------------------------------------

/// Request: videos.
#[derive(Clone, Debug, Default)]
pub struct VideosRequest {
    pub collection: Option<i32>,
    pub favorite: Option<i32>,
    pub submission: Option<i32>,
    pub watch_later: Option<i32>,
    pub bangumi: Option<i32>,
    pub query: Option<String>,
    pub page: Option<u64>,
    pub page_size: Option<u64>,
    pub show_failed_only: Option<bool>,
    pub min_height: Option<u32>,
    pub max_height: Option<u32>,
    pub resolution: Option<u32>,
    pub force: Option<bool>,
    /// "id", "name", "pubtime", "is_charge_video", "file_size"
    pub sort_by: Option<String>,
    /// "asc", "desc"
    pub sort_order: Option<String>,
}

/// Request: submission videos.
#[derive(Clone, Debug)]
pub struct SubmissionVideosRequest {
    pub page: Option<i32>,
    pub page_size: Option<i32>,
    /// 搜索关键词
    pub keyword: Option<String>,
}

/// 添加新视频源的请求结构体
#[derive(Clone, Debug)]
pub struct AddVideoSourceRequest {
    /// 视频源类型: "collection", "favorite", "submission", "watch_later", "bangumi"
    pub source_type: String,
    /// 视频源ID: 收藏夹ID、合集ID、UP主ID等
    pub source_id: String,
    /// UP主ID: 仅当source_type为"collection"时需要
    pub up_id: Option<String>,
    /// 视频源名称
    pub name: String,
    /// 保存路径
    pub path: String,
    /// 合集类型: "season"(视频合集) 或 "series"(视频列表)，仅当source_type为"collection"时有效
    pub collection_type: Option<String>,
    /// 是否启用合集聚合（仅当source_type为"collection"时有效）
    pub collection_aggregate_enabled: Option<bool>,
    /// 视频源级流过滤配置；缺失或 null 表示继承全局配置
    /// (The filter as its JSON text.)
    pub filter_option: Option<String>,
    /// 番剧特有字段
    pub media_id: Option<String>,
    pub ep_id: Option<String>,
    /// 是否下载全部季度，仅当source_type为"bangumi"时有效
    pub download_all_seasons: Option<bool>,
    /// 选中的季度ID列表，仅当source_type为"bangumi"且download_all_seasons为false时有效
    pub selected_seasons: Option<Vec<String>>,
    /// 选中的视频ID列表，仅当source_type为"submission"时有效，用于选择性下载历史投稿
    pub selected_videos: Option<Vec<String>>,
    /// 封面URL，仅当source_type为"collection"时有效
    pub cover: Option<String>,
    /// 合并到现有番剧源的ID，仅当source_type为"bangumi"时有效
    pub merge_to_source_id: Option<i32>,
    /// 关键词过滤器列表（支持正则表达式）
    pub keyword_filters: Option<Vec<String>>,
    /// 关键词过滤模式: "blacklist"（黑名单-排除匹配）或 "whitelist"（白名单-只下载匹配）
    pub keyword_filter_mode: Option<String>,
    /// 是否仅下载音频（输出为m4a文件）
    pub audio_only: Option<bool>,
    /// 是否下载弹幕文件（ASS）
    pub download_danmaku: Option<bool>,
    /// 是否下载字幕文件（SRT）
    pub download_subtitle: Option<bool>,
    /// 是否下载 B 站 AI 字幕
    pub download_ai_subtitle: Option<bool>,
    /// AI 字幕语言，默认 zh-CN；未命中时回退 zh-CN
    pub ai_subtitle_language: Option<String>,
    /// 是否启用AI重命名
    pub ai_rename: Option<bool>,
    /// AI重命名视频提示词（覆盖全局配置）
    pub ai_rename_video_prompt: Option<String>,
    /// AI重命名音频提示词（覆盖全局配置）
    pub ai_rename_audio_prompt: Option<String>,
    /// AI重命名高级选项：对多P视频启用AI重命名
    pub ai_rename_enable_multi_page: Option<bool>,
    /// AI重命名高级选项：对合集视频启用AI重命名
    pub ai_rename_enable_collection: Option<bool>,
    /// AI重命名高级选项：对番剧启用AI重命名
    pub ai_rename_enable_bangumi: Option<bool>,
    /// AI重命名高级选项：是否重命名上级目录
    pub ai_rename_rename_parent_dir: Option<bool>,
    /// 仅音频时是否只保留m4a（不下载封面/nfo/弹幕/字幕）
    pub audio_only_m4a_only: Option<bool>,
    /// 是否启用平铺目录模式（不为每个视频创建子文件夹）
    pub flat_folder: Option<bool>,
    /// 是否在下载后按播放器章节切分为独立视频
    pub split_chapters_after_download: Option<bool>,
    /// 是否下载充电专享视频
    pub download_charge_videos: Option<bool>,
    /// 是否使用动态API获取UP主投稿（仅submission有效）
    pub use_dynamic_api: Option<bool>,
}

/// 删除视频源的请求结构体
#[derive(Clone, Debug)]
pub struct DeleteVideoSourceRequest {
    pub delete_local_files: bool,
}

/// 更新视频源启用状态的请求结构体
#[derive(Clone, Debug)]
pub struct UpdateVideoSourceEnabledRequest {
    pub enabled: bool,
}

/// 更新视频源扫描已删除视频设置的请求结构体
#[derive(Clone, Debug)]
pub struct UpdateVideoSourceScanDeletedRequest {
    pub scan_deleted_videos: Option<bool>,
    pub scan_deleted_videos_once: Option<bool>,
}

/// 更新视频源下载选项的请求结构体
#[derive(Clone, Debug)]
pub struct UpdateVideoSourceDownloadOptionsRequest {
    /// 是否仅下载音频（输出为m4a文件）
    pub audio_only: Option<bool>,
    /// 仅音频时是否只保留m4a（不下载封面/nfo/弹幕/字幕）
    pub audio_only_m4a_only: Option<bool>,
    /// 是否启用平铺目录模式（不为每个视频创建子文件夹）
    pub flat_folder: Option<bool>,
    /// 是否在下载后按播放器章节切分为独立视频
    pub split_chapters_after_download: Option<bool>,
    /// 是否下载充电专享视频
    pub download_charge_videos: Option<bool>,
    /// 是否下载弹幕文件（ASS）
    pub download_danmaku: Option<bool>,
    /// 是否下载字幕文件（SRT）
    pub download_subtitle: Option<bool>,
    /// 是否下载 B 站 AI 字幕
    pub download_ai_subtitle: Option<bool>,
    /// AI 字幕语言，默认 zh-CN；未命中时回退 zh-CN
    pub ai_subtitle_language: Option<String>,
    /// 是否启用AI重命名
    pub ai_rename: Option<bool>,
    /// AI重命名视频提示词（覆盖全局配置）
    pub ai_rename_video_prompt: Option<String>,
    /// AI重命名音频提示词（覆盖全局配置）
    pub ai_rename_audio_prompt: Option<String>,
    /// 是否对多P视频启用AI重命名
    pub ai_rename_enable_multi_page: Option<bool>,
    /// 是否对合集视频启用AI重命名
    pub ai_rename_enable_collection: Option<bool>,
    /// 是否对番剧启用AI重命名
    pub ai_rename_enable_bangumi: Option<bool>,
    /// AI重命名时是否重命名上级目录
    pub ai_rename_rename_parent_dir: Option<bool>,
    /// 是否使用动态API获取UP主投稿（仅submission有效）
    pub use_dynamic_api: Option<bool>,
    /// 是否启用合集聚合（仅collection有效）
    pub collection_aggregate_enabled: Option<bool>,
    /// 视频源级流过滤配置：字段缺失保持不变，null 表示继承全局，对象表示使用自定义配置
    /// (The filter as its JSON text.)
    pub filter_option: Option<Option<String>>,
}

/// 更新投稿源选中视频列表的请求结构体
#[derive(Clone, Debug)]
pub struct UpdateSubmissionSelectedVideosRequest {
    /// 选中的视频BVID列表，用于选择性下载历史投稿
    pub selected_videos: Vec<String>,
}

/// 重设视频源路径的请求结构体
#[derive(Clone, Debug)]
pub struct ResetVideoSourcePathRequest {
    /// 新的基础路径
    pub new_path: String,
    /// 是否应用四步重命名原则移动文件
    pub apply_rename_rules: bool,
    /// 是否删除空的原始文件夹
    pub clean_empty_folders: bool,
}

/// 文件命名预览请求结构体
#[derive(Clone, Debug)]
pub struct FilenamePreviewRequest {
    /// 视频命名模板
    pub video_name: Option<String>,
    /// 单P分页命名模板
    pub page_name: Option<String>,
    /// 多P分页命名模板
    pub multi_page_name: Option<String>,
    /// 番剧分页命名模板
    pub bangumi_name: Option<String>,
    /// 文件夹结构模板
    pub folder_structure: Option<String>,
    /// 番剧文件夹命名模板
    pub bangumi_folder_name: Option<String>,
    /// 合集目录模式
    pub collection_folder_mode: Option<String>,
    /// 合集统一命名模板
    pub collection_unified_name: Option<String>,
    /// 时间格式
    pub time_format: Option<String>,
    /// 多P视频是否使用 Season 目录结构
    pub multi_page_use_season_structure: Option<bool>,
    /// 合集是否使用 Season 目录结构
    pub collection_use_season_structure: Option<bool>,
    /// 番剧是否使用统一 Season 目录结构
    pub bangumi_use_season_structure: Option<bool>,
}

/// Request: search.
#[derive(Clone, Debug)]
pub struct SearchRequest {
    /// 搜索关键词
    pub keyword: String,
    /// 搜索类型：video, bili_user, media_bangumi
    pub search_type: String,
    /// 页码，默认1
    pub page: u32,
    /// 每页数量，默认20
    pub page_size: u32,
}

/// 状态更新结构
#[derive(Clone, Debug)]
pub struct StatusUpdate {
    /// 状态位索引 (0-4)
    pub status_index: usize,
    /// 状态值 (0, 1, 2, 3)
    pub status_value: u32,
}

/// 推送配置更新请求
#[derive(Clone, Debug)]
pub struct UpdateNotificationConfigRequest {
    pub active_channel: Option<String>,
    pub serverchan_key: Option<String>,
    pub serverchan3_uid: Option<String>,
    pub serverchan3_sendkey: Option<String>,
    pub wecom_webhook_url: Option<String>,
    pub wecom_msgtype: Option<String>,
    pub wecom_mention_all: Option<bool>,
    pub wecom_mentioned_list: Option<Vec<String>>,
    pub webhook_url: Option<String>,
    pub webhook_bearer_token: Option<String>,
    pub webhook_custom_headers: Option<String>,
    pub webhook_format: Option<String>,
    pub webhook_custom_body: Option<String>,
    pub webhook_synology_chat_template: Option<String>,
    pub enable_scan_notifications: Option<bool>,
    pub notification_min_videos: Option<usize>,
    pub notification_timeout: Option<u64>,
    pub notification_retry_count: Option<u8>,
}

/// 测试推送请求（可选消息内容）
#[derive(Clone, Debug)]
pub struct TestNotificationRequest {
    pub custom_message: Option<String>,
    /// 以下字段为临时测试覆盖参数（仅本次测试生效，不会写入配置）
    pub active_channel: Option<String>,
    pub serverchan_key: Option<String>,
    pub serverchan3_uid: Option<String>,
    pub serverchan3_sendkey: Option<String>,
    pub wecom_webhook_url: Option<String>,
    pub wecom_msgtype: Option<String>,
    pub wecom_mention_all: Option<bool>,
    pub wecom_mentioned_list: Option<Vec<String>>,
    pub webhook_url: Option<String>,
    pub webhook_bearer_token: Option<String>,
    pub webhook_custom_headers: Option<String>,
    pub webhook_format: Option<String>,
    pub webhook_custom_body: Option<String>,
    pub webhook_synology_chat_template: Option<String>,
}

/// 分页状态更新结构
#[derive(Clone, Debug)]
pub struct PageStatusUpdate {
    pub page_id: i32,
    pub updates: Vec<StatusUpdate>,
}

/// 更新视频状态请求
#[derive(Clone, Debug)]
pub struct UpdateVideoStatusRequest {
    pub video_updates: Vec<StatusUpdate>,
    pub page_updates: Vec<PageStatusUpdate>,
}

/// 选择性重置任务请求
#[derive(Clone, Debug)]
pub struct ResetSpecificTasksRequest {
    /// 要重置的任务索引列表 (0-4)
    pub task_indexes: Vec<usize>,
    /// 要重置的 VideoStatus 索引列表 (0-4)
    pub video_task_indexes: Vec<usize>,
    /// 要重置的 PageStatus 索引列表 (0-4)
    pub page_task_indexes: Vec<usize>,
    pub collection: Option<i32>,
    pub favorite: Option<i32>,
    pub submission: Option<i32>,
    pub watch_later: Option<i32>,
    pub bangumi: Option<i32>,
    /// 与 /api/videos 的过滤参数保持一致，便于“按当前筛选批量重置”
    pub query: Option<String>,
    pub show_failed_only: Option<bool>,
    pub min_height: Option<u32>,
    pub max_height: Option<u32>,
    pub resolution: Option<u32>,
    /// 默认仅重置失败任务；force=true 时重置所有非 0 状态（包括已完成）
    pub force: Option<bool>,
}

/// 配置历史查询请求
#[derive(Clone, Debug)]
pub struct ConfigHistoryRequest {
    pub key: Option<String>,
    pub limit: Option<u64>,
}

/// 设置API Token请求
#[derive(Clone, Debug)]
pub struct SetupAuthTokenRequest {
    pub auth_token: String,
}

/// 更新凭证请求
#[derive(Clone, Debug)]
pub struct UpdateCredentialRequest {
    pub sessdata: String,
    pub bili_jct: String,
    pub buvid3: String,
    pub dedeuserid: String,
    pub ac_time_value: Option<String>,
    pub buvid4: Option<String>,
    pub dedeuserid_ckmd5: Option<String>,
}

/// Request: credential refresh test.
#[derive(Clone, Debug, Default)]
pub struct CredentialRefreshTestRequest {
    pub force: bool,
}

/// 生成二维码请求
#[derive(Clone, Debug)]
pub struct QRGenerateRequest {}

/// 轮询二维码状态请求
#[derive(Clone, Debug)]
pub struct QRPollRequest {
    pub session_id: String,
}

/// 更新关键词过滤器的请求结构体（支持双列表模式）
#[derive(Clone, Debug)]
pub struct UpdateKeywordFiltersRequest {
    /// 黑名单关键词列表（支持正则表达式）
    /// 匹配黑名单的视频将被排除（即使通过了白名单）
    pub blacklist_keywords: Option<Vec<String>>,
    /// 白名单关键词列表（支持正则表达式）
    /// 如果设置了白名单，视频必须匹配其中之一才会被下载
    pub whitelist_keywords: Option<Vec<String>>,
    /// 是否区分大小写（默认为 true）
    pub case_sensitive: Option<bool>,
    /// 最短时长（秒），视频时长小于该值时将被过滤
    pub min_duration_seconds: Option<i32>,
    /// 最长时长（秒），视频时长大于该值时将被过滤
    pub max_duration_seconds: Option<i32>,
    /// 投稿起始日期（YYYY-MM-DD，含当天）
    pub published_after: Option<String>,
    /// 投稿截止日期（YYYY-MM-DD，含当天）
    pub published_before: Option<String>,
    /// 【已废弃】关键词列表（支持正则表达式）- 向后兼容
    pub keyword_filters: Option<Vec<String>>,
    /// 【已废弃】关键词过滤模式 - 向后兼容
    pub keyword_filter_mode: Option<String>,
}

/// 验证正则表达式的请求结构体
#[derive(Clone, Debug)]
pub struct ValidateRegexRequest {
    /// 要验证的正则表达式
    pub pattern: String,
}

/// Request: config migration.
#[derive(Clone, Debug)]
pub struct ConfigMigrationRequest {
    pub dry_run: Option<bool>,
}

/// Request: update one configuration item (the new value as its JSON text).
#[derive(Clone, Debug)]
pub struct UpdateConfigItemRequest {
    pub value: String,
}

/// Request: update several configuration items (each name with its new value
/// as JSON text).
#[derive(Clone, Debug)]
pub struct BatchUpdateConfigRequest {
    pub items: Vec<(String, String)>,
}

/// Default of `ResetVideoSourcePathRequest::apply_rename_rules`: apply them.
pub fn default_apply_rename_rules() -> (r: bool)
    ensures
        r,
{
    true
}

/// Default of `ResetVideoSourcePathRequest::clean_empty_folders`: clean them.
pub fn default_clean_empty_folders() -> (r: bool)
    ensures
        r,
{
    true
}

/// Default page of a search: the first.
pub fn default_page() -> (r: u32)
    ensures
        r == 1,
{
    1
}

/// Default page size of a search.
pub fn default_page_size() -> (r: u32)
    ensures
        r == 20,
{
    20
}

/// Default case sensitivity of keyword filters: unset.
pub fn default_case_sensitive() -> (r: Option<bool>)
    ensures
        r is None,
{
    None
}

// ---------------------------------------------------------------------------
// Responses
// ---------------------------------------------------------------------------

/// Response: video sources.
#[derive(Clone, Debug, Default)]
pub struct VideoSourcesResponse {
    pub collection: Vec<VideoSource>,
    pub favorite: Vec<VideoSource>,
    pub submission: Vec<VideoSource>,
    pub watch_later: Vec<VideoSource>,
    pub bangumi: Vec<VideoSource>,
}

/// Response: videos.
#[derive(Clone, Debug)]
pub struct VideosResponse {
    pub videos: Vec<VideoInfo>,
    pub total_count: u64,
    pub file_size_stats_pending: bool,
}

/// Response: video.
#[derive(Clone, Debug)]
pub struct VideoResponse {
    pub video: VideoInfo,
    pub pages: Vec<PageInfo>,
    pub source: Option<VideoSourceTag>,
}

/// Video source tag.
#[derive(Clone, Debug)]
pub struct VideoSourceTag {
    pub source_id: i32,
    pub source_type: String,
    pub source_type_label: String,
    pub source_name: String,
    pub split_chapters_after_download: bool,
    pub audio_only: bool,
    pub audio_only_m4a_only: bool,
    pub flat_folder: bool,
}

/// Response: video bvid.
#[derive(Clone, Debug)]
pub struct VideoBvidResponse {
    pub bvid: String,
    pub title: String,
    pub bilibili_url: String,
}

/// Response: reset video.
#[derive(Clone, Debug)]
pub struct ResetVideoResponse {
    pub resetted: bool,
    pub video: VideoInfo,
    pub pages: Vec<PageInfo>,
}

/// Response: update video status.
#[derive(Clone, Debug)]
pub struct UpdateVideoStatusResponse {
    pub success: bool,
    pub video: VideoInfo,
    pub pages: Vec<PageInfo>,
}

/// Response: refresh danmaku.
#[derive(Clone, Debug)]
pub struct RefreshDanmakuResponse {
    pub success: bool,
    pub refreshed_pages: usize,
    pub message: String,
}

/// Response: reset all videos.
#[derive(Clone, Debug)]
pub struct ResetAllVideosResponse {
    pub resetted: bool,
    pub resetted_videos_count: usize,
    pub resetted_pages_count: usize,
}

/// Response: retry charge videos.
#[derive(Clone, Debug)]
pub struct RetryChargeVideosResponse {
    pub success: bool,
    pub source_id: i32,
    pub source_type: String,
    pub resetted: bool,
    pub resetted_videos_count: usize,
    pub resetted_pages_count: usize,
    pub message: String,
}

/// Response: add video source.
#[derive(Clone, Debug)]
pub struct AddVideoSourceResponse {
    pub success: bool,
    pub source_id: i32,
    pub source_type: String,
    pub message: String,
}

/// Response: submission videos.
#[derive(Clone, Debug)]
pub struct SubmissionVideosResponse {
    pub videos: Vec<SubmissionVideoInfo>,
    pub total: i64,
    pub page: i32,
    pub page_size: i32,
}

/// Submission video info.
#[derive(Clone, Debug)]
pub struct SubmissionVideoInfo {
    pub bvid: String,
    pub title: String,
    pub cover: String,
    pub pubtime: String,
    pub duration: i32,
    pub view: i32,
    pub danmaku: i32,
    pub description: String,
}

/// Response: delete video source.
#[derive(Clone, Debug)]
pub struct DeleteVideoSourceResponse {
    pub success: bool,
    pub source_id: i32,
    pub source_type: String,
    pub message: String,
}

/// Response: delete video.
#[derive(Clone, Debug)]
pub struct DeleteVideoResponse {
    pub success: bool,
    pub video_id: i32,
    pub message: String,
}

/// Response: update video source enabled.
#[derive(Clone, Debug)]
pub struct UpdateVideoSourceEnabledResponse {
    pub success: bool,
    pub source_id: i32,
    pub source_type: String,
    pub enabled: bool,
    pub message: String,
}

/// Response: update video source scan deleted.
#[derive(Clone, Debug)]
pub struct UpdateVideoSourceScanDeletedResponse {
    pub success: bool,
    pub source_id: i32,
    pub source_type: String,
    pub scan_deleted_videos: bool,
    pub scan_deleted_videos_once: bool,
    pub message: String,
}

/// Response: update video source download options.
#[derive(Clone, Debug)]
pub struct UpdateVideoSourceDownloadOptionsResponse {
    pub success: bool,
    pub source_id: i32,
    pub source_type: String,
    pub collection_aggregate_enabled: bool,
    pub collection_aggregate_season_number: Option<i32>,
    pub audio_only: bool,
    pub audio_only_m4a_only: bool,
    pub flat_folder: bool,
    pub split_chapters_after_download: bool,
    pub download_charge_videos: bool,
    pub download_danmaku: bool,
    pub download_subtitle: bool,
    pub download_ai_subtitle: bool,
    pub ai_subtitle_language: String,
    pub ai_rename: bool,
    pub ai_rename_video_prompt: String,
    pub ai_rename_audio_prompt: String,
    pub ai_rename_enable_multi_page: bool,
    pub ai_rename_enable_collection: bool,
    pub ai_rename_enable_bangumi: bool,
    pub ai_rename_rename_parent_dir: bool,
    pub use_dynamic_api: bool,
    /// (The filter as its JSON text.)
    pub filter_option: Option<String>,
    pub message: String,
}

/// Response: update submission selected videos.
#[derive(Clone, Debug)]
pub struct UpdateSubmissionSelectedVideosResponse {
    pub success: bool,
    pub source_id: i32,
    pub selected_count: usize,
    pub message: String,
}

/// Response: reset video source path.
#[derive(Clone, Debug)]
pub struct ResetVideoSourcePathResponse {
    pub success: bool,
    pub source_id: i32,
    pub source_type: String,
    pub old_path: String,
    pub new_path: String,
    pub moved_files_count: usize,
    pub updated_videos_count: usize,
    pub cleaned_folders_count: usize,
    pub message: String,
}

/// 番剧源简化信息（用于合并选择）
#[derive(Clone, Debug)]
pub struct BangumiSourceOption {
    pub id: i32,
    pub name: String,
    pub path: String,
    pub season_id: Option<String>,
    pub media_id: Option<String>,
    pub download_all_seasons: bool,
    pub selected_seasons_count: usize,
}

/// 番剧源列表响应
#[derive(Clone, Debug)]
pub struct BangumiSourceListResponse {
    pub success: bool,
    pub bangumi_sources: Vec<BangumiSourceOption>,
    pub total_count: usize,
}

/// Video source.
#[derive(Clone, Debug)]
pub struct VideoSource {
    pub id: i32,
    pub name: String,
    pub enabled: bool,
    pub path: String,
    pub latest_row_at: Option<String>,
    pub scan_deleted_videos: bool,
    pub scan_deleted_videos_once: bool,
    /// 类型特有的ID字段
    /// 收藏夹ID
    pub f_id: Option<i64>,
    /// 合集ID
    pub s_id: Option<i64>,
    /// UP主ID (用于合集)
    pub m_id: Option<i64>,
    /// 合集类型: season/series
    pub collection_type: Option<String>,
    /// 合集源：是否启用合集聚合
    pub collection_aggregate_enabled: bool,
    /// 合集源：缓存的绝对季号
    pub collection_aggregate_season_number: Option<i32>,
    /// UP主ID (用于投稿)
    pub upper_id: Option<i64>,
    /// 番剧season_id
    pub season_id: Option<String>,
    /// 番剧media_id
    pub media_id: Option<String>,
    pub selected_seasons: Option<Vec<String>>,
    /// 新的双列表模式关键词过滤
    /// 黑名单关键词列表
    pub blacklist_keywords: Option<Vec<String>>,
    /// 白名单关键词列表
    pub whitelist_keywords: Option<Vec<String>>,
    /// 是否区分大小写
    pub case_sensitive: bool,
    /// 最短时长（秒）
    pub min_duration_seconds: Option<i32>,
    /// 最长时长（秒）
    pub max_duration_seconds: Option<i32>,
    /// 投稿起始日期（YYYY-MM-DD，含当天）
    pub published_after: Option<String>,
    /// 投稿截止日期（YYYY-MM-DD，含当天）
    pub published_before: Option<String>,
    /// 向后兼容的旧字段
    /// 【已废弃】关键词过滤器列表
    pub keyword_filters: Option<Vec<String>>,
    /// 【已废弃】关键词过滤模式
    pub keyword_filter_mode: Option<String>,
    /// 音频和下载选项
    /// 是否仅下载音频（输出m4a）
    pub audio_only: bool,
    /// 仅音频时只保留m4a（不下载封面/nfo/弹幕/字幕）
    pub audio_only_m4a_only: bool,
    /// 是否启用平铺目录模式
    pub flat_folder: bool,
    /// 是否在下载后按播放器章节切分为独立视频
    pub split_chapters_after_download: bool,
    /// 是否下载充电专享视频
    pub download_charge_videos: bool,
    /// 是否下载弹幕文件
    pub download_danmaku: bool,
    /// 是否下载字幕文件
    pub download_subtitle: bool,
    /// 是否下载 B 站 AI 字幕
    pub download_ai_subtitle: bool,
    /// AI 字幕语言，默认 zh-CN
    pub ai_subtitle_language: String,
    /// 是否启用AI重命名
    pub ai_rename: bool,
    /// AI重命名视频提示词
    pub ai_rename_video_prompt: String,
    /// AI重命名音频提示词
    pub ai_rename_audio_prompt: String,
    /// 对多P视频启用AI重命名
    pub ai_rename_enable_multi_page: bool,
    /// 对合集视频启用AI重命名
    pub ai_rename_enable_collection: bool,
    /// 对番剧启用AI重命名
    pub ai_rename_enable_bangumi: bool,
    /// AI重命名时重命名上级目录
    pub ai_rename_rename_parent_dir: bool,
    /// 视频源级流过滤配置，None 表示继承全局
    /// (The filter as its JSON text.)
    pub filter_option: Option<String>,
    /// 投稿源：是否使用动态API
    pub use_dynamic_api: Option<bool>,
}

/// Page info.
#[derive(Clone, Debug)]
pub struct PageInfo {
    pub id: i32,
    pub pid: i32,
    pub name: String,
    pub download_status: [u32; 5],
    pub path: Option<String>,
    pub danmaku_last_synced_at: Option<String>,
    pub danmaku_sync_generation: u32,
    pub danmaku_cid_snapshot: Option<i64>,
    pub danmaku_last_write_count: u32,
}

/// Video info.
#[derive(Clone, Debug)]
pub struct VideoInfo {
    pub id: i32,
    pub bvid: String,
    pub name: String,
    pub upper_name: String,
    pub path: String,
    pub category: i32,
    pub download_status: [u32; 5],
    pub cover: String,
    pub valid: bool,
    pub is_charge_video: bool,
    /// 番剧真实标题，用于番剧类型视频的显示
    pub bangumi_title: Option<String>,
}

/// 文件命名预览响应结构体
#[derive(Clone, Debug)]
pub struct FilenamePreviewResponse {
    pub items: Vec<FilenamePreviewItem>,
    pub warnings: Vec<String>,
}

/// Filename preview item.
#[derive(Clone, Debug)]
pub struct FilenamePreviewItem {
    pub key: String,
    pub title: String,
    pub description: String,
    pub active: bool,
    pub files: Vec<FilenamePreviewFile>,
}

/// Filename preview file.
#[derive(Clone, Debug)]
pub struct FilenamePreviewFile {
    pub label: String,
    pub path: String,
}

/// B站凭证信息结构体
#[derive(Clone, Debug)]
pub struct CredentialInfo {
    pub sessdata: String,
    pub bili_jct: String,
    pub buvid3: String,
    pub dedeuserid: String,
    pub ac_time_value: String,
    pub buvid4: Option<String>,
    pub dedeuserid_ckmd5: Option<String>,
}

/// 更新配置的响应结构体
#[derive(Clone, Debug)]
pub struct UpdateConfigResponse {
    pub success: bool,
    pub message: String,
    /// 重命名的文件数量
    pub updated_files: Option<u32>,
    /// 重置的视频NFO任务数量
    pub resetted_nfo_videos_count: Option<usize>,
    /// 重置的页面NFO任务数量
    pub resetted_nfo_pages_count: Option<usize>,
}

/// 配置重载响应
#[derive(Clone, Debug)]
pub struct ConfigReloadResponse {
    pub success: bool,
    pub message: String,
    pub reloaded_at: String,
}

/// 配置变更历史响应
#[derive(Clone, Debug)]
pub struct ConfigHistoryResponse {
    pub changes: Vec<ConfigChangeInfo>,
    pub total: usize,
}

/// Config change info.
#[derive(Clone, Debug)]
pub struct ConfigChangeInfo {
    pub id: i32,
    pub key_name: String,
    pub old_value: Option<String>,
    pub new_value: String,
    pub changed_at: String,
}

/// 配置验证响应
#[derive(Clone, Debug)]
pub struct ConfigValidationResponse {
    pub valid: bool,
    pub errors: Vec<String>,
    pub warnings: Vec<String>,
}

/// 热重载状态响应
#[derive(Clone, Debug)]
pub struct HotReloadStatusResponse {
    pub enabled: bool,
    pub last_reload: Option<String>,
    pub pending_changes: usize,
}

/// Bangumi season info.
#[derive(Clone, Debug)]
pub struct BangumiSeasonInfo {
    pub season_id: String,
    pub season_title: String,
    /// 完整的番剧标题
    pub full_title: Option<String>,
    pub media_id: Option<String>,
    pub cover: Option<String>,
    /// 集数
    pub episode_count: Option<i32>,
    /// 简介
    pub description: Option<String>,
}

/// Response: bangumi seasons.
#[derive(Clone, Debug)]
pub struct BangumiSeasonsResponse {
    pub success: bool,
    pub data: Vec<BangumiSeasonInfo>,
}

/// Search result.
#[derive(Clone, Debug)]
pub struct SearchResult {
    /// video, bili_user, media_bangumi等
    pub result_type: String,
    /// 标题
    pub title: String,
    /// 作者/UP主
    pub author: String,
    /// 视频BV号
    pub bvid: Option<String>,
    /// 视频AV号
    pub aid: Option<i64>,
    /// UP主ID
    pub mid: Option<i64>,
    /// 番剧season_id
    pub season_id: Option<String>,
    /// 番剧media_id
    pub media_id: Option<String>,
    /// 封面图
    pub cover: String,
    /// 描述
    pub description: String,
    /// 视频时长
    pub duration: Option<String>,
    /// 发布时间
    pub pubdate: Option<i64>,
    /// 播放量
    pub play: Option<i64>,
    /// 弹幕数
    pub danmaku: Option<i64>,
    /// 粉丝数（UP主搜索结果）
    pub follower: Option<i64>,
}

/// Response: search.
#[derive(Clone, Debug)]
pub struct SearchResponse {
    pub success: bool,
    pub results: Vec<SearchResult>,
    pub total: u32,
    pub num_pages: u32,
    pub page: u32,
    pub page_size: u32,
}

/// User favorite folder.
#[derive(Clone, Debug)]
pub struct UserFavoriteFolder {
    /// 收藏夹完整ID（推荐使用）
    pub id: i64,
    /// 收藏夹短ID（可能截断，不推荐直接使用）
    pub fid: i64,
    /// 收藏夹标题
    pub title: String,
    /// 收藏夹内视频数量
    pub media_count: i32,
}

/// User collection.
#[derive(Clone, Debug)]
pub struct UserCollection {
    /// 合集类型：season（合集）或 series（系列）
    pub collection_type: String,
    /// 合集/系列ID
    pub sid: String,
    /// 合集/系列名称
    pub name: String,
    /// 封面图片URL
    pub cover: String,
    /// 描述
    pub description: String,
    /// 视频总数
    pub total: i64,
    /// 发布时间
    pub ptime: Option<i64>,
    /// UP主ID
    pub mid: i64,
}

/// User collection info.
#[derive(Clone, Debug)]
pub struct UserCollectionInfo {
    /// 合集/系列ID
    pub sid: String,
    /// 合集/系列名称
    pub name: String,
    /// 封面图片URL
    pub cover: String,
    /// 描述
    pub description: String,
    /// 视频总数
    pub total: i32,
    /// 合集类型：season（合集）或 series（系列）
    pub collection_type: String,
    /// UP主名称
    pub up_name: String,
    /// UP主ID
    pub up_mid: i64,
}

/// Response: user collections.
#[derive(Clone, Debug)]
pub struct UserCollectionsResponse {
    pub success: bool,
    pub collections: Vec<UserCollection>,
    pub total: u32,
    pub page: u32,
    pub page_size: u32,
}

/// User following.
#[derive(Clone, Debug)]
pub struct UserFollowing {
    pub mid: i64,
    pub name: String,
    pub face: String,
    pub sign: String,
    pub official_verify: Option<OfficialVerify>,
    /// 粉丝数
    pub follower: Option<i64>,
}

/// Official verify.
#[derive(Clone, Debug)]
pub struct OfficialVerify {
    pub type_: i32,
    pub desc: String,
}

/// 初始设置检查响应
#[derive(Clone, Debug)]
pub struct InitialSetupCheckResponse {
    pub needs_setup: bool,
    pub has_auth_token: bool,
    pub has_credential: bool,
}

/// 设置API Token响应
#[derive(Clone, Debug)]
pub struct SetupAuthTokenResponse {
    pub success: bool,
    pub message: String,
}

/// 更新凭证响应
#[derive(Clone, Debug)]
pub struct UpdateCredentialResponse {
    pub success: bool,
    pub message: String,
}

/// Credential field status.
#[derive(Clone, Debug)]
pub struct CredentialFieldStatus {
    pub has_credential: bool,
    pub sessdata_len: usize,
    pub bili_jct_len: usize,
    pub buvid3_len: usize,
    pub dedeuserid_len: usize,
    pub ac_time_value_len: usize,
    pub has_buvid4: bool,
    pub has_dedeuserid_ckmd5: bool,
}

/// Response: credential refresh test.
#[derive(Clone, Debug)]
pub struct CredentialRefreshTestResponse {
    pub success: bool,
    pub message: String,
    pub stage: String,
    pub error_type: Option<String>,
    pub should_retry: bool,
    pub diagnosis: String,
    pub details: Option<String>,
    pub credential_fields: CredentialFieldStatus,
}

/// 生成二维码响应
#[derive(Clone, Debug)]
pub struct QRGenerateResponse {
    pub session_id: String,
    pub qr_url: String,
    /// 过期时间（秒）
    pub expires_in: u64,
}

/// 轮询二维码状态响应
#[derive(Clone, Debug)]
pub struct QRPollResponse {
    /// "pending", "scanned", "confirmed", "expired"
    pub status: String,
    pub message: String,
    pub user_info: Option<QRUserInfo>,
}

/// 扫码登录成功后的用户信息
#[derive(Clone, Debug)]
pub struct QRUserInfo {
    pub user_id: String,
    pub username: String,
    pub avatar_url: String,
}

/// 任务控制响应
#[derive(Clone, Debug)]
pub struct TaskControlResponse {
    pub success: bool,
    pub message: String,
    pub is_paused: bool,
}

/// 任务控制状态响应
#[derive(Clone, Debug)]
pub struct TaskControlStatusResponse {
    pub is_paused: bool,
    pub is_scanning: bool,
    pub message: String,
}

/// Beta 镜像更新检查响应
#[derive(Clone, Debug)]
pub struct BetaImageUpdateStatusResponse {
    pub update_available: bool,
    pub release_channel: Option<String>,
    pub checked_tag: Option<String>,
    pub local_built_at: Option<String>,
    pub remote_pushed_at: Option<String>,
    pub checked_at: Option<String>,
    pub error: Option<String>,
}

/// 视频播放信息响应
#[derive(Clone, Debug)]
pub struct VideoPlayInfoResponse {
    pub success: bool,
    pub message: Option<String>,
    pub video_streams: Vec<VideoStreamInfo>,
    pub audio_streams: Vec<AudioStreamInfo>,
    pub subtitle_streams: Vec<SubtitleStreamInfo>,
    pub video_title: String,
    pub video_duration: Option<u32>,
    pub video_quality_description: String,
    pub video_bvid: Option<String>,
    pub bilibili_url: Option<String>,
}

/// 视频流信息
#[derive(Clone, Debug)]
pub struct VideoStreamInfo {
    pub url: String,
    pub backup_urls: Vec<String>,
    pub quality: u32,
    pub quality_description: String,
    pub codecs: String,
    pub container: Option<String>,
    pub width: Option<u32>,
    pub height: Option<u32>,
}

/// 音频流信息
#[derive(Clone, Debug)]
pub struct AudioStreamInfo {
    pub url: String,
    pub backup_urls: Vec<String>,
    pub quality: u32,
    pub quality_description: String,
}

/// 字幕信息
#[derive(Clone, Debug)]
pub struct SubtitleStreamInfo {
    pub language: String,
    pub language_doc: String,
    pub url: String,
}

/// 验证收藏夹响应
#[derive(Clone, Debug)]
pub struct ValidateFavoriteResponse {
    pub valid: bool,
    pub fid: i64,
    pub title: String,
    pub message: String,
}

/// 仪表盘响应
#[derive(Clone, Debug)]
pub struct DashBoardResponse {
    pub enabled_favorites: u64,
    pub enabled_collections: u64,
    pub enabled_submissions: u64,
    pub enabled_bangumi: u64,
    pub enable_watch_later: bool,
    pub total_favorites: u64,
    pub total_collections: u64,
    pub total_submissions: u64,
    pub total_bangumi: u64,
    pub total_watch_later: u64,
    pub videos_by_day: Vec<DayCountPair>,
    /// 当前监听状态
    pub monitoring_status: MonitoringStatus,
}

/// 监听状态信息
#[derive(Clone, Debug)]
pub struct MonitoringStatus {
    pub total_sources: u64,
    pub active_sources: u64,
    pub inactive_sources: u64,
    pub last_scan_time: Option<String>,
    pub next_scan_time: Option<String>,
    pub is_scanning: bool,
}

/// 每日视频计数
#[derive(Clone, Debug)]
pub struct DayCountPair {
    pub day: String,
    pub cnt: i64,
}

/// 推送配置响应
#[derive(Clone, Debug)]
pub struct NotificationConfigResponse {
    pub active_channel: String,
    pub serverchan_key: Option<String>,
    pub serverchan3_uid: Option<String>,
    pub serverchan3_sendkey: Option<String>,
    pub wecom_webhook_url: Option<String>,
    pub wecom_msgtype: String,
    pub wecom_mention_all: bool,
    pub wecom_mentioned_list: Option<Vec<String>>,
    pub webhook_url: Option<String>,
    pub webhook_bearer_token: Option<String>,
    pub webhook_custom_headers: Option<String>,
    pub webhook_format: String,
    pub webhook_custom_body: Option<String>,
    pub webhook_synology_chat_template: Option<String>,
    pub enable_scan_notifications: bool,
    pub notification_min_videos: usize,
    pub notification_timeout: u64,
    pub notification_retry_count: u8,
}

/// 测试推送响应
#[derive(Clone, Debug)]
pub struct TestNotificationResponse {
    pub success: bool,
    pub message: String,
}

/// 推送状态响应
#[derive(Clone, Debug)]
pub struct NotificationStatusResponse {
    pub configured: bool,
    pub enabled: bool,
    pub last_notification_time: Option<String>,
}

/// 风控验证配置响应
#[derive(Clone, Debug)]
pub struct RiskControlConfigResponse {
    pub enabled: bool,
    pub mode: String,
    pub timeout: u64,
    /// 自动验证配置
    pub auto_solve: Option<AutoSolveConfigResponse>,
}

/// 自动验证配置响应
#[derive(Clone, Debug)]
pub struct AutoSolveConfigResponse {
    pub service: String,
    pub api_key: String,
    pub max_retries: u32,
    pub solve_timeout: u64,
}

/// AI重命名配置响应
#[derive(Clone, Debug)]
pub struct AiRenameConfigResponse {
    pub enabled: bool,
    pub provider: String,
    pub base_url: String,
    pub api_key: Option<String>,
    pub deepseek_web_token: Option<String>,
    pub model: String,
    pub timeout_seconds: u64,
    pub video_prompt_hint: String,
    pub audio_prompt_hint: String,
    pub rename_parent_dir: bool,
}

/// 测试风控验证响应
#[derive(Clone, Debug)]
pub struct TestRiskControlResponse {
    pub success: bool,
    pub message: String,
    pub verification_url: Option<String>,
    pub instructions: Option<String>,
}

/// 更新关键词过滤器响应（支持双列表模式）
#[derive(Clone, Debug)]
pub struct UpdateKeywordFiltersResponse {
    pub success: bool,
    pub source_id: i32,
    pub source_type: String,
    /// 黑名单关键词数量
    pub blacklist_count: usize,
    /// 白名单关键词数量
    pub whitelist_count: usize,
    pub message: String,
}

/// 获取关键词过滤器响应（支持双列表模式）
#[derive(Clone, Debug)]
pub struct GetKeywordFiltersResponse {
    pub success: bool,
    pub source_id: i32,
    pub source_type: String,
    /// 黑名单关键词列表
    pub blacklist_keywords: Vec<String>,
    /// 白名单关键词列表
    pub whitelist_keywords: Vec<String>,
    /// 是否区分大小写
    pub case_sensitive: bool,
    /// 最短时长（秒）
    pub min_duration_seconds: Option<i32>,
    /// 最长时长（秒）
    pub max_duration_seconds: Option<i32>,
    /// 投稿起始日期（YYYY-MM-DD，含当天）
    pub published_after: Option<String>,
    /// 投稿截止日期（YYYY-MM-DD，含当天）
    pub published_before: Option<String>,
    /// 向后兼容的旧字段
    /// 【已废弃】关键词过滤器列表
    pub keyword_filters: Vec<String>,
    /// 【已废弃】关键词过滤模式
    pub keyword_filter_mode: Option<String>,
}

/// 验证正则表达式响应
#[derive(Clone, Debug)]
pub struct ValidateRegexResponse {
    pub valid: bool,
    pub pattern: String,
    pub error: Option<String>,
}

/// 清除AI缓存响应
#[derive(Clone, Debug)]
pub struct ClearAiCacheResponse {
    pub success: bool,
    pub message: String,
}

/// 最新入库项响应
#[derive(Clone, Debug)]
pub struct LatestIngestItemResponse {
    pub video_id: i32,
    pub video_name: String,
    pub upper_name: String,
    pub path: String,
    /// 入库/完成时间（北京时间，标准格式）
    pub ingested_at: String,
    /// 平均下载速度（Bytes/s），仅统计媒体流下载阶段
    pub download_speed_bps: Option<u64>,
    /// 状态：success, failed, deleted, pending
    pub status: String,
    /// 番剧系列名称（从share_copy的《》中提取）
    pub series_name: Option<String>,
}

/// 最新入库列表响应
#[derive(Clone, Debug)]
pub struct LatestIngestResponse {
    pub items: Vec<LatestIngestItemResponse>,
}

/// AI批量重命名请求
#[derive(Clone, Debug, Default)]
pub struct BatchRenameRequest {
    /// 视频重命名提示词（可选，为空则使用视频源配置或全局配置）
    pub video_prompt: String,
    /// 音频重命名提示词（可选，为空则使用视频源配置或全局配置）
    pub audio_prompt: String,
    /// 对多P视频启用AI重命名（可选，为None则使用全局配置）
    pub enable_multi_page: Option<bool>,
    /// 对合集视频启用AI重命名（可选，为None则使用全局配置）
    pub enable_collection: Option<bool>,
    /// 对番剧启用AI重命名（可选，为None则使用全局配置）
    pub enable_bangumi: Option<bool>,
    /// AI重命名时是否重命名上级目录（可选，为None则使用全局配置）
    pub rename_parent_dir: Option<bool>,
}

/// AI批量重命名响应
#[derive(Clone, Debug)]
pub struct BatchRenameResponse {
    pub success: bool,
    pub renamed_count: usize,
    pub skipped_count: usize,
    pub failed_count: usize,
    pub message: String,
}

/// Response: config migration status.
#[derive(Clone, Debug)]
pub struct ConfigMigrationStatusResponse {
    pub current_version: i32,
    pub latest_version: i32,
    pub pending: bool,
    pub legacy_detected: bool,
    pub last_migrated_at: Option<String>,
}

/// Response: config migration report.
#[derive(Clone, Debug)]
pub struct ConfigMigrationReportResponse {
    pub current_version: i32,
    pub target_version: i32,
    pub applied: bool,
    pub dry_run: bool,
    pub legacy_detected: bool,
    pub mapped_keys: Vec<String>,
    pub unmapped_keys: Vec<String>,
    pub notes: Vec<String>,
}

/// Response: one configuration item (its value as JSON text).
#[derive(Clone, Debug)]
pub struct ConfigItemResponse {
    pub key: String,
    pub value: String,
    pub updated_at: String,
}

// ---------------------------------------------------------------------------
// Download statuses
// ---------------------------------------------------------------------------

/// The statuses of the five sub-tasks of a packed status word: sub-task `i`
/// has the 3-bit field of bits `3i` to `3i + 2`.
pub open spec fn status_fields(raw: u32) -> Seq<u32> {
    seq![raw & 7, (raw >> 3u32) & 7, (raw >> 6u32) & 7, (raw >> 9u32) & 7, (raw >> 12u32) & 7]
}

/// The statuses of the five sub-tasks of a packed status word.
pub fn unpack_status(raw: u32) -> (r: [u32; 5])
    ensures
        r@ == status_fields(raw),
{
    let r = [raw & 7, (raw >> 3u32) & 7, (raw >> 6u32) & 7, (raw >> 9u32) & 7, (raw >> 12u32) & 7];
    assert(r@ =~= status_fields(raw));
    r
}

impl PageInfo {
    /// A page row of the API, its packed download status unpacked.
    pub fn from_row(
        id: i32,
        pid: i32,
        name: String,
        download_status: u32,
        path: Option<String>,
        danmaku_last_synced_at: Option<String>,
        danmaku_sync_generation: u32,
        danmaku_cid_snapshot: Option<i64>,
        danmaku_last_write_count: u32,
    ) -> (r: PageInfo)
        ensures
            r.id == id,
            r.pid == pid,
            r.name == name,
            r.download_status@ == status_fields(download_status),
            r.path == path,
            r.danmaku_last_synced_at == danmaku_last_synced_at,
            r.danmaku_sync_generation == danmaku_sync_generation,
            r.danmaku_cid_snapshot == danmaku_cid_snapshot,
            r.danmaku_last_write_count == danmaku_last_write_count,
    {
        PageInfo {
            id,
            pid,
            name,
            download_status: unpack_status(download_status),
            path,
            danmaku_last_synced_at,
            danmaku_sync_generation,
            danmaku_cid_snapshot,
            danmaku_last_write_count,
        }
    }

    /// A page row without path or danmaku state.
    pub fn from_status(id: i32, pid: i32, name: String, download_status: u32) -> (r: PageInfo)
        ensures
            r.id == id,
            r.pid == pid,
            r.name == name,
            r.download_status@ == status_fields(download_status),
            r.path is None,
            r.danmaku_last_synced_at is None,
            r.danmaku_sync_generation == 0,
            r.danmaku_cid_snapshot is None,
            r.danmaku_last_write_count == 0,
    {
        PageInfo::from_row(id, pid, name, download_status, None, None, 0, None, 0)
    }
}

impl VideoInfo {
    /// A video row of the API, its packed download status unpacked and no
    /// bangumi title yet.
    pub fn from_row(
        id: i32,
        bvid: String,
        name: String,
        upper_name: String,
        path: String,
        category: i32,
        download_status: u32,
        cover: String,
        valid: bool,
        is_charge_video: bool,
    ) -> (r: VideoInfo)
        ensures
            r.id == id,
            r.bvid == bvid,
            r.name == name,
            r.upper_name == upper_name,
            r.path == path,
            r.category == category,
            r.download_status@ == status_fields(download_status),
            r.cover == cover,
            r.valid == valid,
            r.is_charge_video == is_charge_video,
            r.bangumi_title is None,
    {
        VideoInfo {
            id,
            bvid,
            name,
            upper_name,
            path,
            category,
            download_status: unpack_status(download_status),
            cover,
            valid,
            is_charge_video,
            bangumi_title: None,
        }
    }
}

} // verus!
