use bili_sync::cleanup::{
    companion_file_names, dedup_base_paths, is_local_image_path, is_root_metadata_file,
    is_season_dir_name, parent_cleanup_begins, parent_cleanup_step, season_picture_files,
    season_root_metadata_files, should_clean_season_root, ParentCleanupStep,
};
use bili_sync::task::{
    config_run_after_recovery, config_run_start, count_processed, danmaku_refresh_target,
    is_dangerous_path_for_deletion_task, DanmakuRefreshTarget,
    is_media_file_task, is_scanning, normalize_file_path_task, resume_scanning, AddTaskQueue,
    AddVideoSourceTask, ConfigRunStart, ConfigTaskQueue, DeleteTaskQueue, DeleteVideoSourceTask,
    DeleteVideoTask, QueuedTask, RefreshDanmakuTask, RefreshDanmakuTaskQueue, ReloadConfigTask,
    TakenTask, TaskController, TaskQueues, UpdateConfigTask, VideoDeleteTaskQueue,
};

fn source_task(id: &str, source_id: i32) -> DeleteVideoSourceTask {
    DeleteVideoSourceTask {
        source_type: "submission".to_string(),
        source_id,
        delete_local_files: true,
        task_id: id.to_string(),
    }
}

fn video_task(id: &str, video_id: i32) -> DeleteVideoTask {
    DeleteVideoTask { video_id, task_id: id.to_string() }
}

#[test]
fn trigger_scan_now_preserves_resume_flag_before_wait_loop() {
    let mut controller = TaskController::new();
    controller.trigger_scan_now();

    assert!(controller.take_just_resumed(), "立即刷新后应保留待消费的刷新标记");
}

#[test]
fn delete_source_processing_guard_resets_state_on_drop() {
    let mut queue = DeleteTaskQueue::new();
    queue.set_current_task(Some(source_task("test", 1)));

    queue.processing_guard();
    assert!(queue.is_processing(), "保护存在时应显示处理中");
    queue.release_processing_guard();

    assert!(!queue.is_processing(), "保护释放后应清除处理中状态");
    assert!(!queue.current_task_matches("submission", 1), "保护释放后应清除当前任务");
}

#[test]
fn video_delete_processing_guard_resets_state_on_drop() {
    let mut queue = VideoDeleteTaskQueue::new();

    queue.processing_guard();
    assert!(queue.is_processing(), "保护存在时应显示处理中");
    queue.release_processing_guard();

    assert!(!queue.is_processing(), "保护释放后应清除处理中状态");
}

#[test]
fn queue_is_first_in_first_out() {
    let mut q = VideoDeleteTaskQueue::new();
    q.enqueue_task(video_task("a", 1), &Vec::new());
    q.enqueue_task(video_task("b", 2), &Vec::new());
    q.enqueue_task(video_task("c", 3), &Vec::new());
    assert_eq!(q.queue_length(), 3);
    assert_eq!(q.dequeue_task().map(|t| t.task_id), Some("a".to_string()));
    assert_eq!(q.dequeue_task().map(|t| t.task_id), Some("b".to_string()));
    assert_eq!(q.queue_length(), 1);
    assert_eq!(q.dequeue_task().map(|t| t.video_id), Some(3));
    assert!(q.dequeue_task().is_none());
}

#[test]
fn cancel_removes_only_the_first_match() {
    let mut q = VideoDeleteTaskQueue::new();
    q.enqueue_task(video_task("a", 1), &Vec::new());
    q.enqueue_task(video_task("x", 2), &Vec::new());
    q.enqueue_task(video_task("x", 3), &Vec::new());
    let removed = q.cancel_task("x");
    assert_eq!(removed.map(|t| t.video_id), Some(2));
    let ids: Vec<i32> = q.list_tasks().iter().map(|t| t.video_id).collect();
    assert_eq!(ids, vec![1, 3]);
    assert!(q.cancel_task("missing").is_none());
    assert_eq!(q.queue_length(), 2);
    assert_eq!(q.get_pending_video_ids(), vec![1, 3]);
}

#[test]
fn processing_run_starts_only_when_idle_with_tasks() {
    let mut q = RefreshDanmakuTaskQueue::new();
    assert!(!q.begin_processing());
    q.enqueue_task(RefreshDanmakuTask { video_id: Some(1), page_id: None, task_id: "d".to_string() }, &Vec::new());
    assert!(q.begin_processing());
    assert!(q.is_processing());
    assert!(!q.begin_processing());
    q.release_processing_guard();
    assert!(!q.is_processing());
}

#[test]
fn delete_queue_tracks_current_task() {
    let mut q = DeleteTaskQueue::new();
    q.enqueue_task(source_task("s1", 5), &Vec::new());
    assert!(q.begin_processing());
    let t = q.dequeue_task().unwrap();
    q.set_current_task(Some(t.duplicate()));
    assert!(q.current_task_matches("submission", 5));
    assert!(!q.current_task_matches("favorite", 5));
    assert!(!q.current_task_matches("submission", 6));
    q.release_processing_guard();
    assert!(!q.current_task_matches("submission", 5));
}

#[test]
fn config_queue_cancels_updates_before_reloads() {
    let mut q = ConfigTaskQueue::new();
    q.enqueue_update_task(UpdateConfigTask { task_id: "u".to_string(), settings: "{}".to_string() });
    q.enqueue_reload_task(ReloadConfigTask { task_id: "u".to_string() });
    q.enqueue_reload_task(ReloadConfigTask { task_id: "r".to_string() });
    let (u, r) = q.cancel_task("u");
    assert!(u.is_some() && r.is_none());
    let (u, r) = q.cancel_task("u");
    assert!(u.is_none() && r.is_some());
    assert_eq!(q.update_queue_length(), 0);
    assert_eq!(q.reload_queue_length(), 1);
    assert_eq!(q.list_reload_tasks()[0].task_id, "r");
    assert!(q.list_update_tasks().is_empty());
    assert!(q.begin_processing());
    assert!(!q.begin_processing());
}

#[test]
fn config_run_decisions() {
    assert_eq!(config_run_start(0, 0, 0, 0), ConfigRunStart::Skip);
    assert_eq!(config_run_start(0, 0, 2, 0), ConfigRunStart::Recover);
    assert_eq!(config_run_start(1, 0, 9, 9), ConfigRunStart::Run);
    assert!(config_run_after_recovery(Some(2), 1, 0));
    assert!(!config_run_after_recovery(Some(0), 1, 0));
    assert!(!config_run_after_recovery(Some(2), 0, 0));
    assert!(!config_run_after_recovery(None, 3, 3));
    assert_eq!(count_processed(4, true), 5);
    assert_eq!(count_processed(4, false), 4);
}

#[test]
fn cancel_pending_task_searches_queues_in_order() {
    let mut qs = TaskQueues::new();
    qs.video_delete.enqueue_task(video_task("t", 1), &Vec::new());
    qs.danmaku.enqueue_task(RefreshDanmakuTask { video_id: None, page_id: Some(2), task_id: "t".to_string() }, &Vec::new());
    qs.restore(TakenTask::AddVideoSource(AddVideoSourceTask {
        source_type: "favorite".to_string(),
        name: "收藏".to_string(),
        source_id: "1".to_string(),
        path: "/d".to_string(),
        up_id: None,
        collection_type: None,
        collection_aggregate_enabled: None,
        filter_option: None,
        download_charge_videos: None,
        media_id: None,
        ep_id: None,
        download_all_seasons: None,
        selected_seasons: Some(vec!["1".to_string()]),
        task_id: "add".to_string(),
    }));
    assert!(matches!(qs.cancel_pending_task("t"), Some(TakenTask::DeleteVideo(_))));
    assert!(matches!(qs.cancel_pending_task("t"), Some(TakenTask::RefreshDanmaku(_))));
    assert!(qs.cancel_pending_task("t").is_none());
    assert!(matches!(qs.cancel_pending_task("add"), Some(TakenTask::AddVideoSource(_))));
    let add: AddTaskQueue = AddTaskQueue::new();
    assert_eq!(add.queue_length(), 0);
}

#[test]
fn controller_pause_resume_and_scanning() {
    let mut c = TaskController::new();
    assert!(!c.is_paused());
    c.set_scanning(true);
    assert!(is_scanning(&c));
    c.pause();
    assert!(c.is_paused());
    assert!(!c.is_scanning());
    assert!(!c.take_just_resumed());
    resume_scanning(&mut c);
    assert!(!c.is_paused());
    assert!(c.take_just_resumed());
    assert!(!c.take_just_resumed());
}

#[test]
fn media_files_by_extension() {
    assert!(is_media_file_task("/data/a/b.MP4"));
    assert!(is_media_file_task("video.mkv"));
    assert!(is_media_file_task("dir/clip.strm"));
    assert!(!is_media_file_task("dir/clip.nfo"));
    assert!(!is_media_file_task(".mp4"));
    assert!(!is_media_file_task("dir/noext"));
    assert!(is_media_file_task("dir/x.tar.ts"));
    assert!(is_media_file_task("x.mp4/."));
    assert!(is_media_file_task("x.mp4/./"));
    assert!(!is_media_file_task("x.mp4/.."));
    assert!(!is_media_file_task("/."));
    assert!(!is_media_file_task("dir/b."));
}

#[test]
fn path_normalization_and_danger() {
    assert_eq!(normalize_file_path_task("C:\\videos\\a"), "C:/videos/a");
    assert!(is_dangerous_path_for_deletion_task("", false));
    assert!(is_dangerous_path_for_deletion_task("/", false));
    assert!(is_dangerous_path_for_deletion_task("\\\\", false));
    assert!(is_dangerous_path_for_deletion_task("///", false));
    assert!(!is_dangerous_path_for_deletion_task("/data/videos/", false));
    assert!(!is_dangerous_path_for_deletion_task("C:", false));
    assert!(is_dangerous_path_for_deletion_task("C:", true));
    assert!(is_dangerous_path_for_deletion_task("d:\\", true));
    assert!(is_dangerous_path_for_deletion_task("", true));
    assert!(!is_dangerous_path_for_deletion_task("C:/videos", true));
    assert!(!is_dangerous_path_for_deletion_task("1:", true));
}

#[test]
fn companion_files_of_a_video() {
    let names = companion_file_names("ep01");
    assert_eq!(names.len(), 17);
    assert_eq!(names[0], "ep01.nfo");
    assert_eq!(names[1], "ep01-fanart.jpg");
    assert_eq!(names[4], "ep01-fanart.webp");
    assert_eq!(names[5], "ep01-thumb.jpg");
    assert_eq!(names[12], "ep01-poster.webp");
    assert_eq!(names[13], "ep01.zh-CN.default.ass");
    assert_eq!(names[16], "ep01.xml");
}

#[test]
fn cleanup_rules() {
    assert!(is_local_image_path("/data/cover.jpg"));
    assert!(!is_local_image_path("https://i0.hdslb.com/x.jpg"));
    assert!(!is_local_image_path("http://x"));
    assert!(is_season_dir_name("Season 01"));
    assert!(!is_season_dir_name("Specials"));
    assert!(should_clean_season_root(true, true, true, false));
    assert!(should_clean_season_root(false, false, false, true));
    assert!(!should_clean_season_root(true, false, false, false));
    assert_eq!(
        season_root_metadata_files("合集"),
        vec!["tvshow.nfo", "folder.jpg", "poster.jpg", "合集-thumb.jpg", "合集-fanart.jpg", "合集-poster.jpg"]
    );
    let pics = season_picture_files("Season 01");
    assert_eq!(pics[0], "Season01-fanart.jpg");
    assert_eq!(pics.len(), 12);
    assert!(is_root_metadata_file("TVShow.NFO"));
    assert!(is_root_metadata_file("abc-Poster.webp"));
    assert!(!is_root_metadata_file("abc-poster.gif"));
    assert!(!is_root_metadata_file("episode.nfo"));
}

#[test]
fn base_paths_without_repeats() {
    let paths = vec![
        "/data/a".to_string(),
        "/data/a/".to_string(),
        "\\data\\a".to_string(),
        "".to_string(),
        "/".to_string(),
        "/data/b".to_string(),
    ];
    assert_eq!(dedup_base_paths(&paths), vec!["/data/a".to_string(), "/data/b".to_string()]);
}

#[test]
fn duplicate_detection_against_stored_tasks() {
    let mut q = DeleteTaskQueue::new();
    let stored = vec![source_task("s", 7)];
    assert!(q.has_pending_delete_task("submission", 7, &stored));
    assert!(!q.has_pending_delete_task("submission", 8, &stored));
    q.set_current_task(Some(source_task("c", 8)));
    assert!(q.has_pending_delete_task("submission", 8, &stored));
    assert!(!q.has_pending_delete_task("favorite", 8, &stored));

    let vq = VideoDeleteTaskQueue::new();
    let stored_videos = vec![video_task("a", 1), video_task("b", 2)];
    assert!(vq.has_pending_delete_task(2, &stored_videos));
    assert!(!vq.has_pending_delete_task(3, &stored_videos));

    let dq = RefreshDanmakuTaskQueue::new();
    let stored_refresh = vec![RefreshDanmakuTask { video_id: Some(1), page_id: None, task_id: "x".to_string() }];
    let same = RefreshDanmakuTask { video_id: Some(1), page_id: None, task_id: "y".to_string() };
    let other = RefreshDanmakuTask { video_id: Some(1), page_id: Some(2), task_id: "z".to_string() };
    assert!(dq.has_pending_task(&same, &stored_refresh));
    assert!(!dq.has_pending_task(&other, &stored_refresh));
}

#[test]
fn default_controller_and_pause_scanning() {
    let mut c = TaskController::default();
    assert!(!c.is_paused() && !c.is_scanning());
    c.trigger_scan_now();
    bili_sync::task::pause_scanning(&mut c);
    assert!(c.is_paused());
    assert!(!c.take_just_resumed());
}

#[test]
fn source_deletion_enqueued_once() {
    let mut q = DeleteTaskQueue::new();
    let mut stored: Vec<DeleteVideoSourceTask> = Vec::new();
    assert!(q.enqueue_task(source_task("a", 1), &stored));
    stored.push(source_task("a", 1));
    assert!(!q.enqueue_task(source_task("b", 1), &stored));
    assert_eq!(q.queue_length(), 1);
    q.set_current_task(Some(source_task("c", 2)));
    assert!(!q.enqueue_task(source_task("d", 2), &stored));
    assert!(q.enqueue_task(source_task("e", 3), &stored));
    assert_eq!(q.queue_length(), 2);
}

#[test]
fn video_deletion_and_refresh_enqueued_once() {
    let mut vq = VideoDeleteTaskQueue::new();
    let mut stored: Vec<DeleteVideoTask> = Vec::new();
    assert!(vq.enqueue_task(video_task("a", 5), &stored));
    stored.push(video_task("a", 5));
    assert!(!vq.enqueue_task(video_task("b", 5), &stored));
    assert_eq!(vq.get_pending_video_ids(), vec![5]);

    let mut dq = RefreshDanmakuTaskQueue::new();
    let mut stored_refresh: Vec<RefreshDanmakuTask> = Vec::new();
    let t = |id: &str, v: Option<i32>, p: Option<i32>| RefreshDanmakuTask { video_id: v, page_id: p, task_id: id.to_string() };
    assert!(dq.enqueue_task(t("a", Some(1), None), &stored_refresh));
    stored_refresh.push(t("a", Some(1), None));
    assert!(!dq.enqueue_task(t("b", Some(1), None), &stored_refresh));
    assert!(dq.enqueue_task(t("c", None, Some(1)), &stored_refresh));
    assert_eq!(dq.queue_length(), 2);
}

#[test]
fn config_tasks_updates_before_reloads() {
    let mut q = ConfigTaskQueue::new();
    q.enqueue_reload_task(ReloadConfigTask { task_id: "r1".to_string() });
    q.enqueue_update_task(UpdateConfigTask { task_id: "u1".to_string(), settings: "{}".to_string() });
    q.enqueue_update_task(UpdateConfigTask { task_id: "u2".to_string(), settings: "{}".to_string() });
    let mut order = Vec::new();
    while let Some(t) = q.next_task() {
        match t {
            TakenTask::UpdateConfig(u) => order.push(u.task_id),
            TakenTask::ReloadConfig(r) => order.push(r.task_id),
            _ => panic!("not a configuration task"),
        }
    }
    assert_eq!(order, vec!["u1", "u2", "r1"]);
    assert!(q.next_task().is_none());
}

#[test]
fn danmaku_refresh_targets() {
    let t = |v: Option<i32>, p: Option<i32>| RefreshDanmakuTask { video_id: v, page_id: p, task_id: "t".to_string() };
    assert_eq!(danmaku_refresh_target(&t(Some(3), None)), DanmakuRefreshTarget::Video(3));
    assert_eq!(danmaku_refresh_target(&t(None, Some(4))), DanmakuRefreshTarget::Page(4));
    assert_eq!(danmaku_refresh_target(&t(Some(3), Some(4))), DanmakuRefreshTarget::Invalid);
    assert_eq!(danmaku_refresh_target(&t(None, None)), DanmakuRefreshTarget::Invalid);
}

#[test]
fn parent_cleanup_walk_decisions() {
    assert!(parent_cleanup_begins("/data/a/b/c.mp4", "/data/a"));
    assert!(!parent_cleanup_begins("/data/a/", "\\data\\a"));
    assert!(!parent_cleanup_begins("/data/a/b", "///"));
    assert_eq!(parent_cleanup_step("/data/a/b", "/data/a/", true, true), ParentCleanupStep::Remove);
    assert_eq!(parent_cleanup_step("/data/a", "/data/a/", true, true), ParentCleanupStep::Stop);
    assert_eq!(parent_cleanup_step("/data/a/b", "/data/a", false, false), ParentCleanupStep::Stop);
    assert_eq!(parent_cleanup_step("/data/a/b", "/data/a", true, false), ParentCleanupStep::Stop);
}
