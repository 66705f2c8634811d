use bili_sync::models::{DateTime, PageModel, StaffEntry, VideoModel};
use bili_sync::nfo::{
    Episode, Movie, NFOConfig, NFOTimeType, NfoError, Season, SeasonInfo, TVShow, Upper, NFO,
};
use bili_sync::nfo_text::{
    calculate_total_seasons_from_title, extract_bangumi_title_from_full_name,
    extract_subtitle_from_share_copy, number_to_chinese, parse_actors_string, sanitize_xml_str,
    subtitle_from_capture, total_seasons_from_numeral, EmptyUpperStrategy,
};

fn epoch() -> DateTime {
    DateTime::new(1970, 1, 1, 0, 0, 0)
}

fn base_video() -> VideoModel {
    VideoModel {
        id: 0,
        collection_id: None,
        source_type: None,
        upper_id: 0,
        upper_name: String::new(),
        upper_face: String::new(),
        name: String::new(),
        path: String::new(),
        category: 0,
        bvid: String::new(),
        intro: String::new(),
        cover: String::new(),
        pubtime: epoch(),
        favtime: epoch(),
        staff_info: None,
        tags: None,
        single_page: None,
        season_id: None,
        ep_id: None,
        season_number: None,
        episode_number: None,
        share_copy: None,
        show_season_type: None,
        actors: None,
    }
}

fn base_page() -> PageModel {
    PageModel {
        id: 0,
        video_id: 0,
        cid: 0,
        pid: 0,
        name: String::new(),
        width: None,
        height: None,
        duration: 0,
        path: None,
        image: None,
    }
}

fn tags(list: &[&str]) -> Option<Vec<String>> {
    Some(list.iter().map(|s| s.to_string()).collect())
}

fn render(nfo: NFO) -> String {
    nfo.generate_nfo(&NFOConfig::default(), true).unwrap()
}

fn movie_of(v: &VideoModel) -> Movie {
    Movie::from_video(v, NFOTimeType::FavTime)
}

fn tvshow_of(v: &VideoModel) -> TVShow {
    TVShow::from_video(v, NFOTimeType::FavTime)
}

fn season_of(v: &VideoModel) -> Season {
    Season::from_video(v, NFOTimeType::FavTime)
}

#[test]
fn test_generate_nfo() {
    let mut video = base_video();
    video.intro = "intro".to_string();
    video.name = "name".to_string();
    video.upper_id = 1;
    video.upper_name = "upper_name".to_string();
    video.cover = "https://example.com/cover.jpg".to_string();
    video.favtime = DateTime::new(2022, 2, 2, 2, 2, 2);
    video.pubtime = DateTime::new(2033, 3, 3, 3, 3, 3);
    video.bvid = "BV1nWcSeeEkV".to_string();
    video.tags = tags(&["tag1", "tag2"]);

    let generated_movie = render(NFO::Movie(movie_of(&video)));
    assert!(generated_movie.contains("<title>name</title>"));
    assert!(generated_movie.contains("<originaltitle>name</originaltitle>"));
    assert!(generated_movie.contains(r#"<uniqueid type="bilibili" default="true">BV1nWcSeeEkV</uniqueid>"#));
    assert!(generated_movie.contains("<country>中国</country>"));
    assert!(generated_movie.contains("<studio>哔哩哔哩</studio>"));
    assert!(generated_movie.contains("<name>upper_name</name>"));
    assert!(generated_movie.contains("<role>UP主</role>"));
    assert!(generated_movie.contains("<thumb>https://example.com/cover.jpg</thumb>"));
    assert!(!generated_movie.contains("原始视频："));
    assert!(!generated_movie.contains("https://www.bilibili.com/video/"));

    let generated_tvshow = render(NFO::TVShow(tvshow_of(&video)));
    assert!(generated_tvshow.contains("<title>name</title>"));
    assert!(generated_tvshow.contains("<originaltitle>name</originaltitle>"));
    assert!(generated_tvshow.contains(r#"<uniqueid type="bilibili" default="true">BV1nWcSeeEkV</uniqueid>"#));
    assert!(generated_tvshow.contains("<status>Continuing</status>"));
    assert!(generated_tvshow.contains("<totalseasons>1</totalseasons>"));
    assert!(generated_tvshow.contains("<country>中国</country>"));
    assert!(generated_tvshow.contains("<studio>哔哩哔哩</studio>"));
    assert!(generated_tvshow.contains("<name>upper_name</name>"));
    assert!(generated_tvshow.contains("<role>UP主</role>"));
    assert!(generated_tvshow.contains("<thumb>https://example.com/cover.jpg</thumb>"));
    assert!(!generated_tvshow.contains("原始视频："));
    assert!(!generated_tvshow.contains("https://www.bilibili.com/video/"));

    assert_eq!(
        render(NFO::Upper(Upper::from_video(&video))),
        r#"<?xml version="1.0" encoding="utf-8" standalone="yes"?>
<person>
    <plot/>
    <outline/>
    <lockdata>false</lockdata>
    <dateadded>2033-03-03 03:03:03</dateadded>
    <title>upper_name</title>
    <sorttitle>upper_name</sorttitle>
    <uniqueid type="bilibili_uid" default="true">1</uniqueid>
</person>"#,
    );

    assert!(generated_movie.contains("<lockdata>true</lockdata>"));
    assert!(generated_tvshow.contains("<lockdata>true</lockdata>"));

    let mut page = base_page();
    page.name = "name".to_string();
    page.pid = 3;

    let generated_episode = render(NFO::Episode(Episode::from_page(&page)));
    assert!(generated_episode.contains("<title>name</title>"));
    assert!(generated_episode.contains("<originaltitle>name</originaltitle>"));
    assert!(generated_episode.contains("<season>1</season>"));
    assert!(generated_episode.contains("<episode>3</episode>"));
    assert!(generated_episode.contains(r#"<uniqueid type="bilibili" default="true">3</uniqueid>"#));
    assert!(generated_episode.contains("<lockdata>true</lockdata>"));

    let generated_season = render(NFO::Season(season_of(&video)));
    assert!(generated_season.contains("<lockdata>true</lockdata>"));
}

fn bare_movie(t: DateTime) -> Movie {
    Movie {
        name: "movie".to_string(),
        original_title: "movie".to_string(),
        intro: String::new(),
        bvid: "BV1DateMovie".to_string(),
        upper_id: 1,
        upper_name: "upper".to_string(),
        aired: t,
        premiered: t,
        tags: None,
        user_rating: None,
        mpaa: None,
        country: None,
        studio: None,
        director: None,
        credits: None,
        duration: None,
        view_count: None,
        like_count: None,
        category: 0,
        tagline: None,
        sorttitle: None,
        uniqueid_override: None,
        actors_info: None,
        staff_info: None,
        cover_url: String::new(),
        fanart_url: None,
        upper_face_url: None,
    }
}

#[test]
fn test_nfo_keeps_aired_date_and_adds_full_dateadded_time() {
    let full_time = DateTime::new(2022, 4, 7, 12, 34, 56);

    let movie_nfo = render(NFO::Movie(bare_movie(full_time)));
    assert!(movie_nfo.contains("<premiered>2022-04-07</premiered>"));
    assert!(movie_nfo.contains("<aired>2022-04-07</aired>"));
    assert!(movie_nfo.contains("<dateadded>2022-04-07 12:34:56</dateadded>"));
    assert!(!movie_nfo.contains("<aired>2022-04-07 12:34:56</aired>"));

    let tvshow_nfo = render(NFO::TVShow(TVShow {
        name: "tvshow".to_string(),
        original_title: "tvshow".to_string(),
        intro: String::new(),
        bvid: "BV1DateTVShow".to_string(),
        upper_id: 1,
        upper_name: "upper".to_string(),
        aired: full_time,
        premiered: full_time,
        tags: None,
        user_rating: None,
        mpaa: None,
        country: None,
        studio: None,
        status: None,
        total_seasons: None,
        total_episodes: None,
        duration: None,
        view_count: None,
        like_count: None,
        category: 0,
        tagline: None,
        sorttitle: None,
        actors_info: None,
        staff_info: None,
        cover_url: String::new(),
        fanart_url: None,
        upper_face_url: None,
        season_id: None,
        media_id: None,
        plot_link_override: None,
        uniqueid_override: None,
    }));
    assert!(tvshow_nfo.contains("<premiered>2022-04-07</premiered>"));
    assert!(tvshow_nfo.contains("<aired>2022-04-07</aired>"));
    assert!(tvshow_nfo.contains("<dateadded>2022-04-07 12:34:56</dateadded>"));
    assert!(!tvshow_nfo.contains("<aired>2022-04-07 12:34:56</aired>"));

    let episode_nfo = render(NFO::Episode(Episode {
        name: "episode".to_string(),
        original_title: "episode".to_string(),
        pid: "1".to_string(),
        plot: None,
        season: 1,
        episode_number: 1,
        aired: Some(full_time),
        duration: None,
        user_rating: None,
        director: None,
        credits: None,
        bvid: "BV1DateEpisode".to_string(),
        category: 0,
        mpaa: None,
        country: None,
        studio: None,
        genres: None,
        upper_id: 1,
        upper_name: "upper".to_string(),
        actors_info: None,
        staff_info: None,
        thumb_url: None,
        fanart_url: None,
        upper_face_url: None,
    }));
    assert!(episode_nfo.contains("<aired>2022-04-07</aired>"));
    assert!(episode_nfo.contains("<dateadded>2022-04-07 12:34:56</dateadded>"));
    assert!(!episode_nfo.contains("<aired>2022-04-07 12:34:56</aired>"));

    let season_nfo = render(NFO::Season(Season {
        name: "season".to_string(),
        original_title: "season".to_string(),
        intro: String::new(),
        season_number: 1,
        bvid: "BV1DateSeason".to_string(),
        upper_id: 1,
        upper_name: "upper".to_string(),
        aired: full_time,
        premiered: full_time,
        tags: None,
        user_rating: None,
        mpaa: None,
        country: None,
        studio: None,
        status: None,
        total_episodes: None,
        duration: None,
        view_count: None,
        like_count: None,
        category: 0,
        source_type: None,
        tagline: None,
        set: None,
        sorttitle: None,
        actors_info: None,
        staff_info: None,
        cover_url: String::new(),
        fanart_url: None,
        upper_face_url: None,
        season_id: None,
        media_id: None,
        plot_link_override: None,
        uniqueid_override: None,
        suppress_season_label_in_title: false,
    }));
    assert!(season_nfo.contains("<premiered>2022-04-07</premiered>"));
    assert!(season_nfo.contains("<aired>2022-04-07</aired>"));
    assert!(season_nfo.contains("<dateadded>2022-04-07 12:34:56</dateadded>"));
    assert!(!season_nfo.contains("<aired>2022-04-07 12:34:56</aired>"));
}

#[test]
fn test_nfo_strips_invalid_xml_control_chars() {
    let mut video = base_video();
    video.intro = "简介里有非法字符\u{000b}这里".to_string();
    video.name = "标题\u{000b}异常".to_string();
    video.upper_id = 1;
    video.upper_name = "upper\u{000b}name".to_string();
    video.cover = "https://example.com/cover.jpg".to_string();
    video.favtime = DateTime::new(2022, 2, 2, 2, 2, 2);
    video.pubtime = DateTime::new(2033, 3, 3, 3, 3, 3);
    video.bvid = "BV1InvalidXml".to_string();

    let generated_tvshow = render(NFO::TVShow(tvshow_of(&video)));
    assert!(!generated_tvshow.contains('\u{000b}'));
    assert!(generated_tvshow.contains("<title>标题异常</title>"));
    assert!(generated_tvshow.contains("简介里有非法字符这里"));
    assert!(generated_tvshow.contains("<name>uppername</name>"));

    let mut page = base_page();
    page.name = "分页\u{000b}标题".to_string();
    page.pid = 1;
    let generated_episode =
        render(NFO::Episode(Episode::from_video_and_page(&video, &page, NFOTimeType::FavTime, true)));
    assert!(!generated_episode.contains('\u{000b}'));
    assert!(generated_episode.contains("<title>标题异常 - 分页标题</title>"));
    assert!(generated_episode.contains("简介里有非法字符这里"));
}

#[test]
fn test_bangumi_episode_nfo_omits_season_plot() {
    let mut video = base_video();
    video.intro = "整季简介不应重复到每集".to_string();
    video.name = "测试番剧".to_string();
    video.category = 1;
    video.source_type = Some(1);
    video.season_number = Some(1);
    video.episode_number = Some(2);
    video.favtime = DateTime::new(2026, 7, 21, 12, 0, 0);
    video.pubtime = DateTime::new(2026, 7, 21, 12, 0, 0);
    video.bvid = "BV1BangumiPlot".to_string();
    let mut page = base_page();
    page.name = "第2话".to_string();
    page.pid = 2;
    page.duration = 1200;

    let generated_episode =
        render(NFO::Episode(Episode::from_video_and_page(&video, &page, NFOTimeType::FavTime, true)));

    assert!(generated_episode.contains("<plot/>"));
    assert!(!generated_episode.contains("整季简介不应重复到每集"));
    assert!(generated_episode.contains("<lockdata>true</lockdata>"));
}

#[test]
fn test_season_nfo_does_not_embed_original_video_link() {
    let mut video = base_video();
    video.intro = "测试简介正文".to_string();
    video.name = "测试合集视频".to_string();
    video.upper_id = 1;
    video.upper_name = "测试UP".to_string();
    video.category = 3;
    video.season_number = Some(1);
    video.favtime = DateTime::new(2026, 4, 20, 10, 0, 0);
    video.pubtime = DateTime::new(2026, 4, 20, 10, 0, 0);
    video.bvid = "BV1SeasonNoLink".to_string();

    let season =
        Season::from_video_with_collection(&video, Some("测试合集"), None, 1, Some(2), NFOTimeType::FavTime);
    let season_nfo = render(NFO::Season(season));

    assert!(season_nfo.contains("测试简介正文"));
    assert!(!season_nfo.contains("原始视频："));
    assert!(!season_nfo.contains("https://www.bilibili.com/video/"));
    assert!(!season_nfo.contains("<a href="));
    assert!(!season_nfo.contains("<br/>"));
}

#[test]
fn test_episode_nfo_includes_upper_actor_fallback() {
    let mut video = base_video();
    video.intro = "测试视频简介".to_string();
    video.name = "测试多P视频".to_string();
    video.upper_id = 5328643;
    video.upper_name = "まん酱".to_string();
    video.upper_face = "https://i1.hdslb.com/bfs/face/test-face.jpg".to_string();
    video.pubtime = DateTime::new(2026, 4, 20, 10, 0, 0);
    video.bvid = "BV1EpisodeActor".to_string();

    let mut page = base_page();
    page.name = "P01.欣赏版".to_string();
    page.pid = 1;
    page.duration = 240;

    let generated_episode =
        render(NFO::Episode(Episode::from_video_and_page(&video, &page, NFOTimeType::FavTime, true)));

    assert!(generated_episode.contains("<actor>"));
    assert!(generated_episode.contains("<name>まん酱</name>"));
    assert!(generated_episode.contains("<role>UP主</role>"));
    assert!(generated_episode.contains("<thumb>https://i1.hdslb.com/bfs/face/test-face.jpg</thumb>"));
    assert!(generated_episode.contains("<profile>https://space.bilibili.com/5328643</profile>"));
    assert!(generated_episode.contains("<order>1</order>"));
}

fn official_video() -> VideoModel {
    let mut video = base_video();
    video.intro = "测试视频介绍".to_string();
    video.name = "官方内容".to_string();
    video.favtime = DateTime::new(2023, 6, 15, 14, 30, 0);
    video.pubtime = DateTime::new(2023, 6, 15, 14, 30, 0);
    video.bvid = "BV1234567890".to_string();
    video.tags = tags(&["官方", "番剧"]);
    video
}

#[test]
fn test_empty_upper_name() {
    let video = official_video();

    let movie_nfo = render(NFO::Movie(movie_of(&video)));
    assert!(!movie_nfo.contains("<name></name>"));
    assert!(!movie_nfo.contains("<actor>"));

    let tvshow_nfo = render(NFO::TVShow(tvshow_of(&video)));
    assert!(!tvshow_nfo.contains("<name></name>"));
    assert!(!tvshow_nfo.contains("<actor>"));
}

#[test]
fn test_bangumi_title_optimization() {
    let mut video = base_video();
    video.intro = "数百年前，欲望催生了几乎灭绝人类的玛娜生态。".to_string();
    video.name = "《灵笼 第二季》第1话 末世桃源".to_string();
    video.category = 1;
    video.favtime = DateTime::new(2025, 5, 23, 14, 30, 0);
    video.pubtime = DateTime::new(2025, 5, 23, 14, 30, 0);
    video.bvid = "BV1bSJez1Et8".to_string();
    video.tags = tags(&["动画", "科幻"]);

    let movie_nfo = render(NFO::Movie(movie_of(&video)));

    assert!(movie_nfo.contains("<title>灵笼 第二季</title>"));
    assert!(movie_nfo.contains("<originaltitle>《灵笼 第二季》第1话 末世桃源</originaltitle>"));
    assert!(!movie_nfo.contains("<actor>"));
}

fn season_info(title: &str) -> SeasonInfo {
    SeasonInfo {
        title: title.to_string(),
        alias: None,
        evaluate: None,
        rating: None,
        areas: vec![],
        actors: None,
        styles: vec![],
        total_episodes: None,
        status: None,
        cover: None,
        horizontal_cover_1610: None,
        horizontal_cover_169: None,
        media_id: None,
        season_id: "1".to_string(),
        publish_time: None,
        total_views: None,
        total_favorites: None,
    }
}

#[test]
fn test_bangumi_tvshow_nfo_series_title_without_season() {
    let mut video = base_video();
    video.intro = "测试番剧".to_string();
    video.name = "测试番剧".to_string();
    video.category = 1;
    video.favtime = DateTime::new(2025, 1, 1, 0, 0, 0);
    video.pubtime = DateTime::new(2025, 1, 1, 0, 0, 0);
    video.bvid = "BV1bSJez1Et8".to_string();

    let mut info = season_info("仙王的日常生活 第五季");
    info.cover = Some("https://example.com/season5.jpg".to_string());

    let tvshow = TVShow::from_season_info(&video, &info, NFOTimeType::FavTime);
    let tvshow_nfo = render(NFO::TVShow(tvshow));

    assert!(tvshow_nfo.contains("<title>仙王的日常生活</title>"));
    assert!(tvshow_nfo.contains("<originaltitle>仙王的日常生活</originaltitle>"));
    assert!(tvshow_nfo.contains("<sorttitle>仙王的日常生活</sorttitle>"));
    assert!(!tvshow_nfo.contains("第五季"));
}

#[test]
fn test_nfo_kodi_compatibility() {
    let mut video = base_video();
    video.intro = "测试视频介绍".to_string();
    video.name = "测试视频".to_string();
    video.upper_id = 123456;
    video.upper_name = "测试UP主".to_string();
    video.favtime = DateTime::new(2023, 6, 15, 14, 30, 0);
    video.pubtime = DateTime::new(2023, 6, 15, 14, 30, 0);
    video.bvid = "BV1234567890".to_string();
    video.tags = tags(&["科技", "教程", "编程"]);

    let movie_nfo = render(NFO::Movie(movie_of(&video)));
    assert!(movie_nfo.contains("<?xml version=\"1.0\" encoding=\"utf-8\" standalone=\"yes\"?>"));
    assert!(movie_nfo.contains("<movie>"));
    assert!(movie_nfo.contains("</movie>"));
    assert!(movie_nfo.contains("<title>"));
    assert!(movie_nfo.contains("<originaltitle>"));
    assert!(movie_nfo.contains("<plot>"));
    assert!(movie_nfo.contains("<uniqueid"));
    assert!(movie_nfo.contains("type=\"bilibili\""));
    assert!(movie_nfo.contains("<year>"));
    assert!(movie_nfo.contains("<premiered>"));
    assert!(movie_nfo.contains("<aired>"));
    assert!(movie_nfo.contains("<studio>"));
    assert!(movie_nfo.contains("<country>"));

    let tvshow_nfo = render(NFO::TVShow(tvshow_of(&video)));
    assert!(tvshow_nfo.contains("<tvshow>"));
    assert!(tvshow_nfo.contains("</tvshow>"));
    assert!(tvshow_nfo.contains("<status>"));
    assert!(tvshow_nfo.contains("<totalseasons>"));
}

#[test]
fn test_empty_upper_strategy_configurations() {
    let video = official_video();

    let config = NFOConfig { empty_upper_strategy: EmptyUpperStrategy::Skip, ..NFOConfig::default() };
    let movie = movie_of(&video);
    let actor_info = NFO::get_actor_info(movie.upper_id, &movie.upper_name, &config);
    assert_eq!(actor_info, None);

    let config = NFOConfig {
        empty_upper_strategy: EmptyUpperStrategy::Placeholder,
        empty_upper_placeholder: "官方内容".to_string(),
        ..NFOConfig::default()
    };
    let actor_info = NFO::get_actor_info(movie.upper_id, &movie.upper_name, &config);
    assert_eq!(actor_info, Some(("官方内容".to_string(), "UP主".to_string())));

    let config = NFOConfig {
        empty_upper_strategy: EmptyUpperStrategy::Default,
        empty_upper_default_name: "哔哩哔哩".to_string(),
        ..NFOConfig::default()
    };
    let actor_info = NFO::get_actor_info(movie.upper_id, &movie.upper_name, &config);
    assert_eq!(actor_info, Some(("哔哩哔哩".to_string(), "UP主".to_string())));

    let actor_info = NFO::get_actor_info(123456, "测试UP主", &config);
    assert_eq!(actor_info, Some(("测试UP主".to_string(), "UP主".to_string())));

    let actor_info = NFO::get_actor_info(0, "测试UP主", &config);
    assert_eq!(actor_info, Some(("测试UP主".to_string(), "UP主".to_string())));
}

#[test]
fn test_genre_tags_can_be_disabled() {
    let mut video = base_video();
    video.intro = "测试关闭genre标签".to_string();
    video.name = "《名侦探柯南 水平线上的阴谋》".to_string();
    video.category = 1;
    video.show_season_type = Some(2);
    video.favtime = DateTime::new(2020, 5, 22, 0, 0, 0);
    video.pubtime = DateTime::new(2020, 5, 22, 0, 0, 0);
    video.bvid = "BV1Hz411q7vB".to_string();
    video.tags = tags(&["推理", "悬疑"]);

    let config = NFOConfig { include_genre: false, ..NFOConfig::default() };
    let movie_nfo = NFO::Movie(movie_of(&video)).generate_nfo(&config, true).unwrap();

    assert!(!movie_nfo.contains("<genre>"));
}

#[test]
fn test_enhanced_nfo_features() {
    let mut video = base_video();
    video.intro = "数百年前，欲望催生了几乎灭绝人类的玛娜生态。".to_string();
    video.name = "《名侦探柯南 计时引爆摩天楼》柯南剧场版开山之作".to_string();
    video.category = 1;
    video.show_season_type = Some(2);
    video.share_copy = Some("《名侦探柯南 计时引爆摩天楼》柯南剧场版开山之作".to_string());
    video.bvid = "BV1bSJez1Et8".to_string();
    video.tags = tags(&["推理", "智斗", "漫画改"]);

    let movie = movie_of(&video);
    assert_eq!(movie.tagline, Some("柯南剧场版开山之作".to_string()));
    assert!(movie.sorttitle.is_some());

    let movie_nfo = render(NFO::Movie(movie_of(&video)));
    assert!(movie_nfo.contains("<tagline>柯南剧场版开山之作</tagline>"));
    assert!(movie_nfo.contains("<sorttitle>名侦探柯南 计时引爆摩天楼</sorttitle>"));
    assert!(!movie_nfo.contains("<set>"));
    assert!(movie_nfo.contains("<title>名侦探柯南 计时引爆摩天楼</title>"));
    assert!(movie_nfo.contains("<originaltitle>《名侦探柯南 计时引爆摩天楼》柯南剧场版开山之作</originaltitle>"));
}

#[test]
fn test_subtitle_extraction() {
    let test_cases = vec![
        ("《名侦探柯南 计时引爆摩天楼》柯南剧场版开山之作", Some("柯南剧场版开山之作")),
        ("《灵笼 第二季》第1话 末世桃源", None),
        ("《进击的巨人》最终季", Some("最终季")),
        ("《名侦探柯南 水平线上的阴谋》日配 ", None),
        ("《某某番剧》中配", None),
        ("普通视频标题", None),
    ];

    for (input, expected) in test_cases {
        let result = extract_subtitle_from_share_copy(input);
        assert_eq!(result.as_deref(), expected, "Failed for input: {}", input);
    }
}

#[test]
fn test_language_tag_filtering() {
    let mut video = base_video();
    video.intro = "故事以15年前的北大西洋上一件海难作序幕...".to_string();
    video.name = "《名侦探柯南 水平线上的阴谋》日配 ".to_string();
    video.category = 1;
    video.show_season_type = Some(2);
    video.share_copy = Some("《名侦探柯南 水平线上的阴谋》日配 ".to_string());
    video.bvid = "BV1Hz411q7vB".to_string();
    video.tags = tags(&["推理", "悬疑"]);

    let movie = movie_of(&video);
    assert_eq!(movie.tagline, None);

    let movie_nfo = render(NFO::Movie(movie_of(&video)));
    assert!(!movie_nfo.contains("<tagline>日配</tagline>"));
    assert!(!movie_nfo.contains("<tagline>中配</tagline>"));
    assert!(movie_nfo.contains("<genre>动画</genre>"));
    assert!(movie_nfo.contains("<genre>剧场版</genre>"));
    assert!(movie_nfo.contains("<title>名侦探柯南 水平线上的阴谋</title>"));
}

#[test]
fn test_actor_info_parsing() {
    let actors_str =
        "江户川柯南：高山南\n毛利兰：山崎和佳奈\n毛利小五郎：神谷明\n工藤新一：山口胜平\n目暮警部：茶风林";

    let actors = parse_actors_string(actors_str);

    assert_eq!(actors.len(), 5);
    assert_eq!(actors[0], ("江户川柯南".to_string(), "高山南".to_string()));
    assert_eq!(actors[1], ("毛利兰".to_string(), "山崎和佳奈".to_string()));
    assert_eq!(actors[2], ("毛利小五郎".to_string(), "神谷明".to_string()));
    assert_eq!(actors[3], ("工藤新一".to_string(), "山口胜平".to_string()));
    assert_eq!(actors[4], ("目暮警部".to_string(), "茶风林".to_string()));

    let actors_en = parse_actors_string("Character1:Actor1\nCharacter2:Actor2");
    assert_eq!(actors_en.len(), 2);
    assert_eq!(actors_en[0], ("Character1".to_string(), "Actor1".to_string()));

    let actors_simple = parse_actors_string("演员名1\n演员名2");
    assert_eq!(actors_simple.len(), 2);
    assert_eq!(actors_simple[0], ("演员".to_string(), "演员名1".to_string()));
}

#[test]
fn test_nfo_with_real_actors() {
    let mut video = base_video();
    video.intro = "故事以15年前的北大西洋上一件海难作序幕...".to_string();
    video.name = "《名侦探柯南 计时引爆摩天楼》".to_string();
    video.category = 1;
    video.show_season_type = Some(2);
    video.share_copy = Some("《名侦探柯南 计时引爆摩天楼》柯南剧场版开山之作".to_string());
    video.actors = Some("江户川柯南：高山南\n毛利兰：山崎和佳奈\n毛利小五郎：神谷明".to_string());
    video.bvid = "BV1Hz411q7vB".to_string();
    video.tags = tags(&["推理", "悬疑"]);

    let movie_nfo = render(NFO::Movie(movie_of(&video)));

    assert!(movie_nfo.contains("<actor>"));
    assert!(movie_nfo.contains("<name>高山南</name>"));
    assert!(movie_nfo.contains("<role>江户川柯南</role>"));
    assert!(movie_nfo.contains("<name>山崎和佳奈</name>"));
    assert!(movie_nfo.contains("<role>毛利兰</role>"));
    assert!(movie_nfo.contains("<order>1</order>"));
    assert!(movie_nfo.contains("<order>2</order>"));
    assert!(!movie_nfo.contains("<role>创作者</role>"));
}

#[test]
fn test_runtime_calculation() {
    let mut video = base_video();
    video.intro = "测试时长计算".to_string();
    video.name = "测试视频".to_string();
    video.upper_id = 123456;
    video.upper_name = "测试UP主".to_string();
    video.cover = "https://example.com/cover.jpg".to_string();
    video.bvid = "BV1234567890".to_string();
    video.tags = tags(&["测试", "时长"]);

    let mut first = base_page();
    first.id = 1;
    first.video_id = 1;
    first.cid = 123;
    first.pid = 1;
    first.name = "第一页".to_string();
    first.duration = 180;
    let mut second = base_page();
    second.id = 2;
    second.video_id = 1;
    second.cid = 124;
    second.pid = 2;
    second.name = "第二页".to_string();
    second.duration = 300;
    let pages = vec![first, second];

    let movie_with_duration = Movie::from_video_with_pages(&video, &pages, NFOTimeType::FavTime);
    assert_eq!(movie_with_duration.duration, Some(8));

    let movie_nfo = render(NFO::Movie(movie_with_duration));
    assert!(movie_nfo.contains("<runtime>8</runtime>"));
    assert!(movie_nfo.contains("<thumb>https://example.com/cover.jpg</thumb>"));

    let tvshow_with_duration = TVShow::from_video_with_pages(&video, &pages, NFOTimeType::FavTime);
    assert_eq!(tvshow_with_duration.duration, Some(8));
    assert_eq!(tvshow_with_duration.total_episodes, None);

    let tvshow_nfo = render(NFO::TVShow(tvshow_with_duration));
    assert!(tvshow_nfo.contains("<runtime>8</runtime>"));
    assert!(tvshow_nfo.contains("<thumb>https://example.com/cover.jpg</thumb>"));
    assert!(!tvshow_nfo.contains("<totalepisodes>"));

    let empty_pages: Vec<PageModel> = vec![];
    let movie_no_duration = Movie::from_video_with_pages(&video, &empty_pages, NFOTimeType::FavTime);
    assert_eq!(movie_no_duration.duration, None);
}

fn lingcage_season_video(name: &str) -> VideoModel {
    let mut video = base_video();
    video.intro = "数百年前，欲望催生了几乎灭绝人类的玛娜生态。".to_string();
    video.name = name.to_string();
    video.category = 1;
    video.source_type = Some(1);
    video.season_number = Some(2);
    video.tags = tags(&["动画", "科幻"]);
    video
}

#[test]
fn test_season_nfo_generation() {
    let mut video = lingcage_season_video("《灵笼 第二季》");
    video.bvid = "BV1bSJez1Et8".to_string();

    let season_nfo = render(NFO::Season(season_of(&video)));

    assert!(season_nfo.contains("<?xml version=\"1.0\" encoding=\"utf-8\" standalone=\"yes\"?>"));
    assert!(season_nfo.contains("<season>"));
    assert!(season_nfo.contains("</season>"));
    assert!(season_nfo.contains("<title>第二季</title>"));
    assert!(season_nfo.contains("<originaltitle>《灵笼 第二季》</originaltitle>"));
    assert!(season_nfo.contains("<seasonnumber>2</seasonnumber>"));
    assert!(season_nfo.contains(r#"<uniqueid type="bilibili" default="true">BV1bSJez1Et8</uniqueid>"#));
    assert!(season_nfo.contains("<country>中国</country>"));
    assert!(season_nfo.contains("<studio>哔哩哔哩</studio>"));
    assert!(season_nfo.contains("<status>Continuing</status>"));
    assert!(season_nfo.contains("<genre>动画</genre>"));
    assert!(season_nfo.contains("<genre>科幻</genre>"));
    assert!(!season_nfo.contains("<actor>"));
}

#[test]
fn test_dynamic_total_seasons_calculation() {
    let test_cases = vec![
        ("灵笼 第一季", 1),
        ("灵笼第二季", 2),
        ("进击的巨人第三季", 3),
        ("某科学的超电磁炮第2季", 2),
        ("鬼灭之刃第四季", 4),
        ("普通番剧标题", 1),
    ];

    for (input, expected) in test_cases {
        let result = calculate_total_seasons_from_title(input);
        assert_eq!(result, expected, "Failed for input: {}", input);
    }

    let mut video = base_video();
    video.intro = "测试番剧".to_string();
    video.name = "灵笼第二季".to_string();
    video.category = 1;
    video.bvid = "BV1TestSeason".to_string();
    video.tags = tags(&["科幻", "动画"]);

    let tvshow_nfo = render(NFO::TVShow(tvshow_of(&video)));
    assert!(tvshow_nfo.contains("<totalseasons>2</totalseasons>"));
}

#[test]
fn test_season_title_fix() {
    let mut video = lingcage_season_video("灵笼第二季");
    video.bvid = "BV1SeasonTitleFix".to_string();

    let season_nfo = render(NFO::Season(season_of(&video)));

    assert!(season_nfo.contains("<title>第二季</title>"));
    assert!(season_nfo.contains("<originaltitle>灵笼第二季</originaltitle>"));
    assert!(season_nfo.contains("<seasonnumber>2</seasonnumber>"));
    assert!(!season_nfo.contains("<set>"));
}

#[test]
fn test_emby_standard_season_nfo() {
    let mut video = lingcage_season_video("灵笼第二季");
    video.bvid = "BV1EmbyStandard".to_string();

    let season_nfo = render(NFO::Season(season_of(&video)));

    assert!(season_nfo.contains("<title>第二季</title>"));
    assert!(season_nfo.contains("<originaltitle>灵笼第二季</originaltitle>"));
    assert!(season_nfo.contains("<seasonnumber>2</seasonnumber>"));
    assert!(!season_nfo.contains("<set>"));
    assert!(season_nfo.contains("【第二季】"));
}

#[test]
fn test_ugc_multi_page_season_title_uses_chinese_and_video_title() {
    let mut video = base_video();
    video.intro = "测试简介".to_string();
    video.name = "BV标题占位".to_string();
    video.upper_id = 445754101;
    video.upper_name = "流木咲夜".to_string();
    video.category = 1;
    video.source_type = None;
    video.season_number = Some(10);
    video.bvid = "BV1KJ411r7xC".to_string();

    let season_title = "【流木/合集】《新樱花大战》全剧情流程合集（樱/act/剧情/机战/萝卜/死神/恋爱/gal/情怀/经典/神作/治愈/末日/世嘉/久保带人）";
    let mut season = Season::from_video_with_collection(
        &video,
        Some(season_title),
        None,
        10,
        Some(12),
        NFOTimeType::FavTime,
    );
    season.suppress_season_label_in_title = true;
    let season_nfo = render(NFO::Season(season));

    assert!(season_nfo.contains(&format!("<title>{}</title>", season_title)));
}

#[test]
fn test_ugc_collection_season_nfo_strips_collection_prefix() {
    let mut video = base_video();
    video.intro = "测试简介".to_string();
    video.name = "BV标题占位".to_string();
    video.upper_id = 123456;
    video.upper_name = "浅影阿_".to_string();
    video.category = 3;
    video.season_number = Some(1);
    video.bvid = "BV1PrefixTest01".to_string();

    let mut season = Season::from_video_with_collection(
        &video,
        Some("合集·童年动漫主题曲翻唱合集"),
        None,
        1,
        Some(8),
        NFOTimeType::FavTime,
    );
    season.suppress_season_label_in_title = true;
    let season_nfo = render(NFO::Season(season));

    assert!(season_nfo.contains("<title>童年动漫主题曲翻唱合集</title>"));
    assert!(season_nfo.contains("<originaltitle>童年动漫主题曲翻唱合集</originaltitle>"));
    assert!(season_nfo.contains("<sorttitle>童年动漫主题曲翻唱合集 第01季</sorttitle>"));
    assert!(!season_nfo.contains("合集·童年动漫主题曲翻唱合集"));
    assert!(!season_nfo.contains("<set>"));
}

#[test]
fn test_nfo_actor_info_with_upper_name_and_role() {
    let mut video = base_video();
    video.intro = "测试视频介绍".to_string();
    video.name = "测试视频".to_string();
    video.upper_id = 123456789;
    video.upper_name = "知名UP主".to_string();
    video.cover = "https://example.com/cover.jpg".to_string();
    video.bvid = "BV1TestUID123".to_string();
    video.tags = tags(&["科技", "教程"]);

    let movie_nfo = render(NFO::Movie(movie_of(&video)));

    assert!(movie_nfo.contains("<actor>"));
    assert!(movie_nfo.contains("<name>知名UP主</name>"));
    assert!(movie_nfo.contains("<role>UP主</role>"));
    assert!(movie_nfo.contains("<order>1</order>"));

    let mut video_no_uid = video.clone();
    video_no_uid.upper_id = 0;
    video_no_uid.upper_name = "另一个UP主".to_string();

    let movie_nfo_no_uid = render(NFO::Movie(movie_of(&video_no_uid)));

    assert!(movie_nfo_no_uid.contains("<name>另一个UP主</name>"));
    assert!(movie_nfo_no_uid.contains("<role>UP主</role>"));
}

// ---------------------------------------------------------------------------
// Further cases
// ---------------------------------------------------------------------------

#[test]
fn invalid_bv_id_is_refused() {
    let mut m = bare_movie(epoch());
    m.bvid = "BV123".to_string();
    assert!(matches!(NFO::Movie(m).generate_nfo(&NFOConfig::default(), true), Err(NfoError::InvalidData)));
    let mut m = bare_movie(epoch());
    m.name = "   ".to_string();
    assert!(matches!(NFO::Movie(m).generate_nfo(&NFOConfig::default(), true), Err(NfoError::InvalidData)));
}

#[test]
fn impossible_date_is_refused() {
    let m = bare_movie(DateTime::new(2023, 2, 30, 0, 0, 0));
    assert!(matches!(NFO::Movie(m).generate_nfo(&NFOConfig::default(), true), Err(NfoError::DateFormat)));
}

#[test]
fn staff_members_become_ordered_actors() {
    let mut video = official_video();
    video.staff_info = Some(vec![
        StaffEntry {
            mid: Some(42),
            name: Some("主创".to_string()),
            title: Some("UP主".to_string()),
            face: Some("https://f/1.jpg".to_string()),
        },
        StaffEntry { mid: None, name: Some("".to_string()), title: None, face: None },
        StaffEntry { mid: Some(0), name: Some("剪辑".to_string()), title: None, face: Some(String::new()) },
    ]);
    let nfo = render(NFO::Movie(movie_of(&video)));
    assert!(nfo.contains("<name>主创</name>"));
    assert!(nfo.contains("<profile>https://space.bilibili.com/42</profile>"));
    assert!(nfo.contains("<thumb>https://f/1.jpg</thumb>"));
    assert!(nfo.contains("<name>剪辑</name>"));
    assert!(nfo.contains("<role>参与者</role>"));
    assert!(nfo.contains("<order>2</order>"));
    assert!(!nfo.contains("<order>3</order>"));
}

#[test]
fn bilibili_counts_written_when_enabled() {
    let mut m = bare_movie(epoch());
    m.view_count = Some(1234);
    m.like_count = Some(-5);
    let config = NFOConfig { include_bilibili_info: true, ..NFOConfig::default() };
    let nfo = NFO::Movie(m).generate_nfo(&config, true).unwrap();
    assert!(nfo.contains("<tag>播放量: 1234</tag>"));
    assert!(nfo.contains("<tag>点赞数: -5</tag>"));
    let mut m = bare_movie(epoch());
    m.view_count = Some(1234);
    let nfo = render(NFO::Movie(m));
    assert!(!nfo.contains("播放量"));
}

#[test]
fn text_is_escaped_and_plot_is_cdata() {
    let mut m = bare_movie(epoch());
    m.name = "A & B <C>".to_string();
    m.intro = "x < y".to_string();
    let nfo = render(NFO::Movie(m));
    assert!(nfo.contains("<title>A &amp; B &lt;C&gt;</title>"));
    assert!(nfo.contains("<plot><![CDATA[x < y]]></plot>"));
}

#[test]
fn episode_unique_id_joins_bv_and_page() {
    let mut video = official_video();
    video.bvid = "BV1xx411c7XY".to_string();
    let mut page = base_page();
    page.pid = 4;
    page.name = "P4".to_string();
    let nfo = render(NFO::Episode(Episode::from_video_and_page(&video, &page, NFOTimeType::PubTime, false)));
    assert!(nfo.contains(r#"<uniqueid type="bilibili" default="true">BV1xx411c7XY-p4</uniqueid>"#));
    assert!(nfo.contains("<title>官方内容 - P4</title>"));
    assert!(nfo.contains("<mpaa>PG</mpaa>"));
}

#[test]
fn pages_of_one_video_get_different_ids() {
    let mut video = official_video();
    video.bvid = "BV1xx411c7XY".to_string();
    let mut p1 = base_page();
    p1.pid = 1;
    let mut p2 = base_page();
    p2.pid = 2;
    let a = render(NFO::Episode(Episode::from_video_and_page(&video, &p1, NFOTimeType::FavTime, false)));
    let b = render(NFO::Episode(Episode::from_video_and_page(&video, &p2, NFOTimeType::FavTime, false)));
    assert!(a.contains(">BV1xx411c7XY-p1</uniqueid>"));
    assert!(b.contains(">BV1xx411c7XY-p2</uniqueid>"));
}

#[test]
fn blank_cast_lines_and_sides_are_skipped() {
    let cast = parse_actors_string("\n  \n角色：\n：演员\n甲：乙\r\n");
    assert_eq!(cast, vec![("甲".to_string(), "乙".to_string())]);
}

#[test]
fn episode_original_title_drops_dub_marks() {
    let mut page = base_page();
    page.name = " 第1话-中配 ".to_string();
    let nfo = render(NFO::Episode(Episode::from_page(&page)));
    assert!(nfo.contains("<originaltitle>第1话</originaltitle>"));
}

#[test]
fn season_title_uses_chinese_numeral_for_sets() {
    let mut video = official_video();
    video.category = 3;
    let mut s = Season::from_video_with_collection(&video, Some("合集"), None, 12, None, NFOTimeType::FavTime);
    s.suppress_season_label_in_title = false;
    let nfo = render(NFO::Season(s));
    assert!(nfo.contains("<title>第十二季 合集</title>"));
    assert!(nfo.contains("<sorttitle>合集 第12季</sorttitle>"));
}

#[test]
fn chinese_numbers() {
    assert_eq!(number_to_chinese(1), "一");
    assert_eq!(number_to_chinese(10), "十");
    assert_eq!(number_to_chinese(12), "十二");
    assert_eq!(number_to_chinese(20), "二十");
    assert_eq!(number_to_chinese(105), "一百零五");
    assert_eq!(number_to_chinese(1010), "一千零一十");
    assert_eq!(number_to_chinese(0), "一");
}

#[test]
fn sanitizing_removes_only_forbidden_characters() {
    assert_eq!(sanitize_xml_str("a\u{0}b\u{b}c\td\ne"), "abc\td\ne");
    assert_eq!(sanitize_xml_str(&sanitize_xml_str("x\u{1}y")), "xy");
    assert_eq!(sanitize_xml_str("中文\u{fffe}"), "中文");
}

#[test]
fn bangumi_titles_from_full_names() {
    assert_eq!(extract_bangumi_title_from_full_name("《灵笼 第二季》第1话 末世桃源"), Some("灵笼 第二季".to_string()));
    assert_eq!(extract_bangumi_title_from_full_name("某番剧 第3话"), Some("某番剧".to_string()));
    assert_eq!(extract_bangumi_title_from_full_name("灵笼第二季"), Some("灵笼".to_string()));
    assert_eq!(extract_bangumi_title_from_full_name("普通标题"), None);
}

#[test]
fn chinese_season_labels_read_back() {
    for n in 1..=99 {
        let text = number_to_chinese(n);
        let chars: Vec<char> = text.chars().collect();
        assert_eq!(bili_sync::bangumi_name::chinese_numeral_to_number(&chars), Some(n as u32), "{}", text);
    }
}

#[test]
fn season_count_and_subtitle_from_captures() {
    assert_eq!(total_seasons_from_numeral(&None), 1);
    assert_eq!(total_seasons_from_numeral(&Some("三".to_string())), 3);
    assert_eq!(total_seasons_from_numeral(&Some("12".to_string())), 12);
    assert_eq!(total_seasons_from_numeral(&Some("十二".to_string())), 1);
    assert_eq!(subtitle_from_capture(&None), None);
    assert_eq!(subtitle_from_capture(&Some("  剧场版特别篇 ".to_string())), Some("剧场版特别篇".to_string()));
    assert_eq!(subtitle_from_capture(&Some("第1话".to_string())), None);
    assert_eq!(subtitle_from_capture(&Some("国语".to_string())), None);
    assert_eq!(subtitle_from_capture(&Some("ab".to_string())), None);
}

#[test]
fn calendar_edge_dates_are_written() {
    for d in [
        DateTime::new(2024, 2, 29, 23, 59, 59),
        DateTime::new(2000, 2, 29, 0, 0, 0),
        DateTime::new(-4, 2, 29, 12, 0, 0),
        DateTime::new(262142, 12, 31, 0, 0, 0),
        DateTime::new(-262143, 1, 1, 0, 0, 0),
    ] {
        let text = NFO::Movie(bare_movie(d)).generate_nfo(&NFOConfig::default(), true);
        assert!(text.is_ok(), "{:?}", d);
    }
    let m = bare_movie(DateTime::new(1900, 2, 29, 0, 0, 0));
    assert!(matches!(NFO::Movie(m).generate_nfo(&NFOConfig::default(), true), Err(NfoError::DateFormat)));
}
