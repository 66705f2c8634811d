use bili_sync::api::{
    default_apply_rename_rules, default_case_sensitive, default_clean_empty_folders, default_page,
    default_page_size, unpack_status, PageInfo, VideoInfo, VideosRequest,
};

#[test]
fn request_defaults() {
    assert!(default_apply_rename_rules());
    assert!(default_clean_empty_folders());
    assert_eq!(default_page(), 1);
    assert_eq!(default_page_size(), 20);
    assert_eq!(default_case_sensitive(), None);
    let r = VideosRequest::default();
    assert!(r.page.is_none() && r.query.is_none());
}

#[test]
fn status_words_unpack_into_three_bit_fields() {
    assert_eq!(unpack_status(0), [0, 0, 0, 0, 0]);
    let raw: u32 = 1 | (2 << 3) | (7 << 6) | (0 << 9) | (4 << 12);
    assert_eq!(unpack_status(raw), [1, 2, 7, 0, 4]);
    assert_eq!(unpack_status(u32::MAX), [7, 7, 7, 7, 7]);
}

#[test]
fn rows_become_api_records() {
    let p = PageInfo::from_status(3, 1, "P1".to_string(), 9);
    assert_eq!(p.download_status, [1, 1, 0, 0, 0]);
    assert!(p.path.is_none() && p.danmaku_sync_generation == 0);
    let v = VideoInfo::from_row(
        1,
        "BV1".to_string(),
        "n".to_string(),
        "u".to_string(),
        "/p".to_string(),
        2,
        7,
        "c".to_string(),
        true,
        false,
    );
    assert_eq!(v.download_status, [7, 0, 0, 0, 0]);
    assert!(v.bangumi_title.is_none());
}
