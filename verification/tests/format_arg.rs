use bili_sync::format_arg::{
    bangumi_page_format_args, collection_unified_page_format_args, extract_season_number,
    extract_series_title_with_context, extract_version_info, format_stored_beijing_time,
    page_format_args, video_format_args, FormatArgs, FormatValue, NamingConfig,
};
use bili_sync::models::{DateTime, PageModel, VideoModel};

fn video() -> VideoModel {
    let t = DateTime::new(2022, 1, 1, 0, 0, 0);
    VideoModel {
        id: 1,
        collection_id: None,
        source_type: Some(1),
        upper_id: 123456,
        upper_name: "官方频道".to_string(),
        upper_face: "".to_string(),
        name: "中配".to_string(),
        path: "".to_string(),
        category: 1,
        bvid: "BV1234567890".to_string(),
        intro: "".to_string(),
        cover: "".to_string(),
        pubtime: t,
        favtime: t,
        staff_info: None,
        tags: None,
        single_page: Some(true),
        season_id: Some("12345".to_string()),
        ep_id: None,
        season_number: None,
        episode_number: None,
        share_copy: None,
        show_season_type: None,
        actors: None,
    }
}

fn page() -> PageModel {
    PageModel {
        id: 7,
        video_id: 1,
        cid: 99,
        pid: 2,
        name: "第2话 重逢".to_string(),
        width: Some(1920),
        height: Some(1080),
        duration: 1500,
        path: None,
        image: None,
    }
}

fn text_of(args: &FormatArgs, key: &str) -> Option<String> {
    match args.get(key) {
        Some(FormatValue::Text(s)) => Some(s.clone()),
        _ => None,
    }
}

fn int_of(args: &FormatArgs, key: &str) -> Option<i64> {
    match args.get(key) {
        Some(FormatValue::Int(i)) => Some(*i),
        _ => None,
    }
}

#[test]
fn test_extract_season_number() {
    assert_eq!(extract_season_number("_灵笼 第一季_第001话"), 1);
    assert_eq!(extract_season_number("_灵笼 第二季_第1话 末世桃源"), 2);
    assert_eq!(extract_season_number("_灵笼 第三季_第001话"), 3);

    assert_eq!(extract_season_number("_某番剧 第1季_第001话"), 1);
    assert_eq!(extract_season_number("_某番剧 第2季_第001话"), 2);

    assert_eq!(extract_season_number("_某番剧 Season 1_第001话"), 1);
    assert_eq!(extract_season_number("_某番剧 Season 2_第001话"), 2);

    assert_eq!(extract_season_number("_某番剧_第001话"), 1);
    assert_eq!(extract_season_number("_名侦探柯南 绯色的不在证明_全片"), 1);
}

#[test]
fn test_extract_series_title_with_context() {
    let video_model = video();

    let result = extract_series_title_with_context(&video_model, Some("灵笼 第一季"));
    assert_eq!(result, Some("灵笼 第一季".to_string()));

    let result = extract_series_title_with_context(&video_model, None);
    assert_eq!(result, None);

    let result = extract_series_title_with_context(&video_model, Some(""));
    assert_eq!(result, Some("".to_string()));
}

#[test]
fn test_extract_version_info() {
    assert_eq!(extract_version_info("中文"), "中文");
    assert_eq!(extract_version_info("_中配"), "中配");
    assert_eq!(extract_version_info("原版"), "原版");
    assert_eq!(extract_version_info("日配"), "日配");

    assert_eq!(extract_version_info("_灵笼 第一季_第001话"), "");
    assert_eq!(extract_version_info("名侦探柯南 第1集"), "");
    assert_eq!(extract_version_info("某番剧 第1话"), "");

    assert_eq!(extract_version_info("很长的番剧标题名称"), "");
}

#[test]
fn season_number_reads_two_digit_chinese_and_lower_case_marker() {
    assert_eq!(extract_season_number("某番剧 第十二季"), 12);
    assert_eq!(extract_season_number("某番剧 第二十季"), 20);
    assert_eq!(extract_season_number("某番剧 season 3"), 3);
    assert_eq!(extract_season_number("某番剧 Season 99"), 1);
    assert_eq!(extract_season_number("某番剧 第0季"), 1);
}

#[test]
fn series_title_collapses_spaces_before_brackets() {
    let v = video();
    assert_eq!(
        extract_series_title_with_context(&v, Some("  某番剧   第二季  （中配） ")),
        Some("某番剧 第二季（中配）".to_string())
    );
    assert_eq!(
        extract_series_title_with_context(&v, Some("Title (JP)")),
        Some("Title(JP)".to_string())
    );
}

#[test]
fn stored_time_keeps_its_wall_clock_in_beijing() {
    let t = DateTime::new(2024, 3, 5, 1, 2, 3);
    assert_eq!(
        format_stored_beijing_time(&t, "%Y-%m-%d %H:%M:%S"),
        Some("2024-03-05 01:02:03".to_string())
    );
    assert_eq!(format_stored_beijing_time(&t, "%Y%m%d"), Some("20240305".to_string()));
    let bad = DateTime::new(2024, 13, 5, 1, 2, 3);
    assert_eq!(format_stored_beijing_time(&bad, "%Y"), None);
}

#[test]
fn video_arguments_decode_html_in_uploader_name() {
    let mut v = video();
    v.upper_name = "A&amp;B".to_string();
    v.name = "标题".to_string();
    let config = NamingConfig { time_format: "%Y-%m-%d".to_string(), bangumi_use_season_structure: false };
    let args = video_format_args(&v, &config).expect("valid times");
    assert_eq!(text_of(&args, "upper_name"), Some("A&B".to_string()));
    assert_eq!(text_of(&args, "title"), Some("标题".to_string()));
    assert_eq!(text_of(&args, "bvid"), Some("BV1234567890".to_string()));
    assert_eq!(int_of(&args, "upper_mid"), Some(123456));
    assert_eq!(text_of(&args, "pubtime"), Some("2022-01-01".to_string()));
}

#[test]
fn page_arguments_carry_page_number_and_name() {
    let mut v = video();
    v.single_page = Some(false);
    v.category = 3;
    v.source_type = None;
    let config = NamingConfig { time_format: "%Y".to_string(), bangumi_use_season_structure: false };
    let args = page_format_args(&v, &page(), &config).expect("valid times");
    assert_eq!(int_of(&args, "pid"), Some(2));
    assert_eq!(text_of(&args, "ptitle"), Some("第2话 重逢".to_string()));
}

#[test]
fn bangumi_and_collection_arguments_are_built() {
    let v = video();
    let config = NamingConfig { time_format: "%Y".to_string(), bangumi_use_season_structure: true };
    assert!(bangumi_page_format_args(&v, &page(), Some("灵笼 第二季"), &config).is_some());
    let args = collection_unified_page_format_args(&v, &page(), 3, 0, &config).expect("valid times");
    assert_eq!(int_of(&args, "episode"), Some(3));
    assert_eq!(text_of(&args, "episode_pad"), Some("03".to_string()));
    assert_eq!(int_of(&args, "season"), Some(1));
    assert_eq!(text_of(&args, "season_pad"), Some("01".to_string()));
    assert!(matches!(args.get("is_multi_page"), Some(FormatValue::Bool(false))));
}

#[test]
fn insert_replaces_an_argument_in_place() {
    let mut args = FormatArgs::new();
    args.push_text("a", "1".to_string());
    args.push_int("b", 2);
    args.insert("a", FormatValue::Int(5));
    assert_eq!(int_of(&args, "a"), Some(5));
    assert_eq!(int_of(&args, "b"), Some(2));
    assert_eq!(args.entries.len(), 2);
    args.insert("c", FormatValue::Bool(true));
    assert_eq!(args.entries.len(), 3);
    assert!(matches!(args.get("c"), Some(FormatValue::Bool(true))));
    assert!(args.get("missing").is_none());
}
