//! NFO metadata documents (movie, tvshow, person, episode, season) for media
//! libraries, built as XML event sequences and written by quick-xml.
use vstd::prelude::*;
use vstd::utf8::{decode_utf8, encode_utf8, valid_utf8};
use crate::models::{staff_views, DateTime, PageModel, StaffEntry, VideoModel};
use crate::nfo_text::{
    bangumi_title_of, extract_bangumi_title_from_full_name, is_bangumi_category, is_bangumi_video,
    actors_of_lines, parse_actors_string, parse_staff_info, parsed_actors, staff_members,
    staff_texts, upper_actor, upper_actor_of, EmptyUpperStrategy,
};
use crate::bangumi_name::{
    extract_series_name_and_season, normalize_series_name, normalized_series_name,
    series_name_and_season,
};
use crate::nfo_text::{
    calculate_total_seasons_from_title, total_seasons_of,
    extract_subtitle_from_share_copy, subtitle_of,
    is_xml_char, nfo_data_valid, validate_nfo_data, sanitize_xml_str, xml_chars_only,
    chinese_number_text, extract_season_title_from_full_name, number_to_chinese, season_title_of,
};
use crate::text::{replace, starts_with, trim, words, int_text, int_to_string, nat_digits, nat_text, string_of};
use crate::time_text::{format_naive, naive_time_text, valid_date_time};
use crate::xml::{
    render_events, xml_indented, INDENT_CHAR, INDENT_SIZE, attr_text_el, cdata_el, empty_el, opt_text_el, text_el, XmlEv, XmlEvents,
};

verus! {

// ---------------------------------------------------------------------------
// Configuration
// ---------------------------------------------------------------------------

/// Which stored time a document dates a video by.
#[derive(Clone, Copy, Debug, PartialEq, Eq, Structural)]
pub enum NFOTimeType {
    /// The time the video was added to favourites.
    FavTime,
    /// The time the video was published.
    PubTime,
}

/// Settings of metadata documents.
#[derive(Clone, Debug)]
pub struct NFOConfig {
    /// Write `<genre>` elements.
    pub include_genre: bool,
    /// Write `<actor>` elements.
    pub include_actor_info: bool,
    /// Write play and like counts as `<tag>` elements.
    pub include_bilibili_info: bool,
    /// Country written when a document names none.
    pub default_country: String,
    /// Studio written when a document names none.
    pub default_studio: String,
    /// Airing status written when a show names none.
    pub default_tvshow_status: String,
    /// What an uploader without a name becomes as an actor.
    pub empty_upper_strategy: EmptyUpperStrategy,
    /// Actor name for the placeholder strategy.
    pub empty_upper_placeholder: String,
    /// Actor name for the default-name strategy.
    pub empty_upper_default_name: String,
    /// Which stored time dates a video.
    pub time_type: NFOTimeType,
}

impl Default for NFOConfig {
    fn default() -> (r: Self)
        ensures
            r.include_genre,
            r.include_actor_info,
            !r.include_bilibili_info,
            r.default_country@ == "中国"@,
            r.default_studio@ == "哔哩哔哩"@,
            r.default_tvshow_status@ == "Continuing"@,
            r.empty_upper_strategy == EmptyUpperStrategy::Skip,
            r.empty_upper_placeholder@ == "官方内容"@,
            r.empty_upper_default_name@ == "哔哩哔哩"@,
            r.time_type == NFOTimeType::FavTime,
    {
        NFOConfig {
            include_genre: true,
            include_actor_info: true,
            include_bilibili_info: false,
            default_country: "中国".to_owned(),
            default_studio: "哔哩哔哩".to_owned(),
            default_tvshow_status: "Continuing".to_owned(),
            empty_upper_strategy: EmptyUpperStrategy::Skip,
            empty_upper_placeholder: "官方内容".to_owned(),
            empty_upper_default_name: "哔哩哔哩".to_owned(),
            time_type: NFOTimeType::FavTime,
        }
    }
}

// ---------------------------------------------------------------------------
// Shared sections
// ---------------------------------------------------------------------------

/// The text of an optional string.
pub open spec fn opt_view(o: Option<String>) -> Option<Seq<char>> {
    match o {
        Some(s) => Some(s@),
        None => None,
    }
}

/// The decimal text of an optional integer.
pub open spec fn opt_int(o: Option<i64>) -> Option<Seq<char>> {
    match o {
        Some(v) => Some(int_text(v as int)),
        None => None,
    }
}

/// The text of an optional string, or `default`.
pub open spec fn text_or(o: Option<String>, default: Seq<char>) -> Seq<char> {
    match o {
        Some(s) => s@,
        None => default,
    }
}

/// The texts of a list of strings.
pub open spec fn texts(v: Seq<String>) -> Seq<Seq<char>> {
    v.map_values(|s: String| s@)
}

/// Attributes of the main identifier: `type="<kind>" default="true"`.
pub open spec fn default_id_attrs(kind: Seq<char>) -> Seq<(Seq<char>, Seq<char>)> {
    seq![("type"@, kind), ("default"@, "true"@)]
}

/// Attributes of an additional identifier: `type="<kind>"`.
pub open spec fn extra_id_attrs(kind: Seq<char>) -> Seq<(Seq<char>, Seq<char>)> {
    seq![("type"@, kind)]
}

/// One `<genre>` element, when genres are written.
pub open spec fn genre_el(genre: Seq<char>, enabled: bool) -> Seq<XmlEv> {
    if enabled {
        text_el("genre"@, genre)
    } else {
        seq![]
    }
}

/// `<genre>` elements of a list, in order.
pub open spec fn genre_list(genres: Seq<Seq<char>>) -> Seq<XmlEv>
    decreases genres.len(),
{
    if genres.len() == 0 {
        seq![]
    } else {
        genre_list(genres.drop_last()) + text_el("genre"@, genres.last())
    }
}

/// `<genre>` elements of an optional tag list, when genres are written.
pub open spec fn genres_section(tags: Option<Vec<String>>, enabled: bool) -> Seq<XmlEv> {
    match tags {
        Some(t) => if enabled {
            genre_list(texts(t@))
        } else {
            seq![]
        },
        None => seq![],
    }
}

/// `<thumb>` of an actor's picture, when there is a non-empty one.
pub open spec fn actor_thumb(face: Option<Seq<char>>) -> Seq<XmlEv> {
    match face {
        Some(t) => if t.len() > 0 {
            text_el("thumb"@, t)
        } else {
            seq![]
        },
        None => seq![],
    }
}

/// Space page address of a user id.
pub open spec fn space_link(mid: int) -> Seq<char> {
    "https://space.bilibili.com/"@ + int_text(mid)
}

/// `<profile>` link of a positive user id.
pub open spec fn actor_profile(mid: int) -> Seq<XmlEv> {
    if mid > 0 {
        text_el("profile"@, space_link(mid))
    } else {
        seq![]
    }
}

/// `<actor>` of a (character, actor) pair at 1-based position `order`.
pub open spec fn cast_actor_el(p: (Seq<char>, Seq<char>), order: nat) -> Seq<XmlEv> {
    seq![XmlEv::Start("actor"@, seq![])] + text_el("name"@, p.1) + text_el("role"@, p.0) + text_el(
        "order"@,
        nat_digits(order),
    ) + seq![XmlEv::End("actor"@)]
}

/// `<actor>` elements of a cast list, numbered from one.
pub open spec fn cast_list(cast: Seq<(Seq<char>, Seq<char>)>) -> Seq<XmlEv>
    decreases cast.len(),
{
    if cast.len() == 0 {
        seq![]
    } else {
        cast_list(cast.drop_last()) + cast_actor_el(cast.last(), cast.len())
    }
}

/// `<actor>` of a staff member (mid, name, title, face) at 1-based position `order`.
pub open spec fn staff_actor_el(m: (int, Seq<char>, Seq<char>, Option<Seq<char>>), order: nat) -> Seq<
    XmlEv,
> {
    seq![XmlEv::Start("actor"@, seq![])] + text_el("name"@, m.1) + text_el("role"@, m.2)
        + actor_thumb(m.3) + actor_profile(m.0) + text_el("order"@, nat_digits(order)) + seq![
        XmlEv::End("actor"@),
    ]
}

/// `<actor>` elements of a staff list, numbered from one.
pub open spec fn staff_list(staff: Seq<(int, Seq<char>, Seq<char>, Option<Seq<char>>)>) -> Seq<XmlEv>
    decreases staff.len(),
{
    if staff.len() == 0 {
        seq![]
    } else {
        staff_list(staff.drop_last()) + staff_actor_el(staff.last(), staff.len())
    }
}

/// `<actor>` of the uploader.
pub open spec fn upper_actor_el(
    name: Seq<char>,
    role: Seq<char>,
    face: Option<Seq<char>>,
    upper_id: int,
) -> Seq<XmlEv> {
    seq![XmlEv::Start("actor"@, seq![])] + text_el("name"@, name) + text_el("role"@, role)
        + actor_thumb(face) + actor_profile(upper_id) + text_el("order"@, "1"@) + seq![
        XmlEv::End("actor"@),
    ]
}

/// The people of a document: the cast list when there is one, else the staff
/// list, else the uploader (as the configuration treats a blank name); nothing
/// when actors are not written.
pub open spec fn actors_section(
    actors_info: Option<String>,
    staff_info: Option<Vec<StaffEntry>>,
    upper_id: i64,
    upper_name: Seq<char>,
    upper_face: Option<String>,
    c: NFOConfig,
) -> Seq<XmlEv> {
    if !c.include_actor_info {
        seq![]
    } else {
        match actors_info {
            Some(a) => cast_list(parsed_actors(a@)),
            None => match staff_info {
                Some(s) => staff_list(staff_members(staff_views(s@))),
                None => match upper_actor_of(
                    upper_name,
                    c.empty_upper_strategy,
                    c.empty_upper_placeholder@,
                    c.empty_upper_default_name@,
                ) {
                    Some(p) => upper_actor_el(p.0, p.1, opt_view(upper_face), upper_id as int),
                    None => seq![],
                },
            },
        }
    }
}

/// Play and like counts as `<tag>` elements, when they are written.
pub open spec fn counts_section(view_count: Option<i64>, like_count: Option<i64>, enabled: bool) -> Seq<
    XmlEv,
> {
    if enabled {
        opt_text_el(
            "tag"@,
            match view_count {
                Some(v) => Some("播放量: "@ + int_text(v as int)),
                None => None,
            },
        ) + opt_text_el(
            "tag"@,
            match like_count {
                Some(v) => Some("点赞数: "@ + int_text(v as int)),
                None => None,
            },
        )
    } else {
        seq![]
    }
}

/// Cover and, with a cover, a non-empty background picture.
pub open spec fn cover_section(cover_url: Seq<char>, fanart_url: Option<Seq<char>>) -> Seq<XmlEv> {
    if cover_url.len() > 0 {
        text_el("thumb"@, cover_url) + match fanart_url {
            Some(f) => if f.len() > 0 {
                text_el("fanart"@, f)
            } else {
                seq![]
            },
            None => seq![],
        }
    } else {
        seq![]
    }
}

/// Text that chrono gives a stored date-time in the format `fmt`.
pub open spec fn date_text(dt: DateTime, fmt: Seq<char>) -> Option<Seq<char>> {
    naive_time_text(dt.year, dt.month, dt.day, dt.hour, dt.minute, dt.second, fmt)
}

/// The year, date and full date-time texts of a date-time.
pub open spec fn date_texts(aired: DateTime, premiered: DateTime) -> Option<
    (Seq<char>, Seq<char>, Seq<char>, Seq<char>),
> {
    match (
        date_text(aired, "%Y"@),
        date_text(premiered, "%Y-%m-%d"@),
        date_text(aired, "%Y-%m-%d"@),
        date_text(aired, "%Y-%m-%d %H:%M:%S"@),
    ) {
        (Some(y), Some(p), Some(a), Some(d)) => Some((y, p, a, d)),
        _ => None,
    }
}

/// `<year>`, `<premiered>`, `<aired>` and `<dateadded>`.
pub open spec fn dates_section(d: (Seq<char>, Seq<char>, Seq<char>, Seq<char>)) -> Seq<XmlEv> {
    text_el("year"@, d.0) + text_el("premiered"@, d.1) + text_el("aired"@, d.2) + text_el(
        "dateadded"@,
        d.3,
    )
}

// ---------------------------------------------------------------------------
// Writing the shared sections
// ---------------------------------------------------------------------------

impl XmlEvents {
    /// Writes `<name>text</name>` with the text of a character list.
    fn chars_element(&mut self, name: &str, text: &[char])
        ensures
            final(self)@ == old(self)@ + text_el(name@, text@),
    {
        let s = string_of(text);
        self.text_element(name, s.as_str());
    }

    /// Writes `<name>n</name>` with the decimal text of `n`.
    fn int_element(&mut self, name: &str, n: i64)
        ensures
            final(self)@ == old(self)@ + text_el(name@, int_text(n as int)),
    {
        let s = int_to_string(n);
        self.text_element(name, s.as_str());
    }

    /// Writes `<name>n</name>` when there is an integer.
    fn opt_int_element(&mut self, name: &str, n: Option<i64>)
        ensures
            final(self)@ == old(self)@ + opt_text_el(name@, opt_int(n)),
    {
        match n {
            Some(v) => self.int_element(name, v),
            None => {
                assert(old(self)@ + seq![] =~= old(self)@);
            },
        }
    }

    /// Writes `<name>text</name>` with the text, or with `default` when there is none.
    fn text_or_element(&mut self, name: &str, text: &Option<String>, default: &String)
        ensures
            final(self)@ == old(self)@ + text_el(name@, text_or(*text, default@)),
    {
        match text {
            Some(t) => self.text_element(name, t.as_str()),
            None => self.text_element(name, default.as_str()),
        }
    }

    /// Writes one `<genre>` element when genres are written.
    fn genre(&mut self, genre: &str, enabled: bool)
        ensures
            final(self)@ == old(self)@ + genre_el(genre@, enabled),
    {
        if enabled {
            self.text_element("genre", genre);
        } else {
            assert(old(self)@ + seq![] =~= old(self)@);
        }
    }

    /// Writes the `<genre>` elements of an optional tag list when genres are written.
    fn genres(&mut self, tags: &Option<Vec<String>>, enabled: bool)
        ensures
            final(self)@ == old(self)@ + genres_section(*tags, enabled),
    {
        match tags {
            Some(t) => {
                if enabled {
                    let ghost e0 = self@;
                    let ghost g = texts(t@);
                    let mut i: usize = 0;
                    assert(g.take(0) =~= Seq::<Seq<char>>::empty());
                    assert(e0 + genre_list(g.take(0)) =~= e0);
                    while i < t.len()
                        invariant
                            i <= t@.len(),
                            g == texts(t@),
                            self@ == e0 + genre_list(g.take(i as int)),
                        decreases t@.len() - i,
                    {
                        proof {
                            assert(g.take(i + 1).drop_last() =~= g.take(i as int));
                            assert(g.take(i + 1).last() == t@[i as int]@);
                        }
                        let ghost before = self@;
                        self.text_element("genre", t[i].as_str());
                        assert(self@ =~= e0 + genre_list(g.take(i + 1)));
                        i = i + 1;
                    }
                    assert(g.take(t@.len() as int) =~= g);
                } else {
                    assert(old(self)@ + seq![] =~= old(self)@);
                }
            },
            None => {
                assert(old(self)@ + seq![] =~= old(self)@);
            },
        }
    }

    /// Writes `<thumb>` of an actor's picture when there is a non-empty one.
    fn actor_thumb(&mut self, face: &Option<String>)
        ensures
            final(self)@ == old(self)@ + actor_thumb(opt_view(*face)),
    {
        match face {
            Some(t) => {
                if !t.as_str().is_empty() {
                    self.text_element("thumb", t.as_str());
                } else {
                    assert(old(self)@ + seq![] =~= old(self)@);
                }
            },
            None => {
                assert(old(self)@ + seq![] =~= old(self)@);
            },
        }
    }

    /// Writes the `<profile>` link of a positive user id.
    fn actor_profile(&mut self, mid: i64)
        ensures
            final(self)@ == old(self)@ + actor_profile(mid as int),
    {
        if mid > 0 {
            let mut link: Vec<char> = Vec::new();
            crate::text::push_str(&mut link, "https://space.bilibili.com/");
            let digits = crate::text::int_to_chars(mid);
            crate::text::push_all(&mut link, digits.as_slice());
            assert(link@ =~= space_link(mid as int));
            self.chars_element("profile", link.as_slice());
        } else {
            assert(old(self)@ + seq![] =~= old(self)@);
        }
    }

    /// Writes the cast list, numbered from one.
    fn cast(&mut self, cast: &Vec<(String, String)>)
        ensures
            final(self)@ == old(self)@ + cast_list(crate::nfo_text::pair_texts(cast@)),
    {
        let ghost e0 = self@;
        let ghost g = crate::nfo_text::pair_texts(cast@);
        let mut i: usize = 0;
        assert(g.take(0) =~= Seq::<(Seq<char>, Seq<char>)>::empty());
        assert(e0 + cast_list(g.take(0)) =~= e0);
        while i < cast.len()
            invariant
                i <= cast@.len(),
                g == crate::nfo_text::pair_texts(cast@),
                self@ == e0 + cast_list(g.take(i as int)),
            decreases cast@.len() - i,
        {
            proof {
                assert(g.take(i + 1).drop_last() =~= g.take(i as int));
                assert(g.take(i + 1).last() == (cast@[i as int].0@, cast@[i as int].1@));
            }
            let order = nat_text((i + 1) as u64);
            self.start("actor");
            self.text_element("name", cast[i].1.as_str());
            self.text_element("role", cast[i].0.as_str());
            self.chars_element("order", order.as_slice());
            self.end("actor");
            assert(self@ =~= e0 + cast_list(g.take(i + 1)));
            i = i + 1;
        }
        assert(g.take(cast@.len() as int) =~= g);
    }

    /// Writes the staff list, numbered from one.
    fn staff(&mut self, staff: &Vec<(i64, String, String, Option<String>)>)
        ensures
            final(self)@ == old(self)@ + staff_list(staff_texts(staff@)),
    {
        let ghost e0 = self@;
        let ghost g = staff_texts(staff@);
        let mut i: usize = 0;
        assert(g.take(0) =~= Seq::<(int, Seq<char>, Seq<char>, Option<Seq<char>>)>::empty());
        assert(e0 + staff_list(g.take(0)) =~= e0);
        while i < staff.len()
            invariant
                i <= staff@.len(),
                g == staff_texts(staff@),
                self@ == e0 + staff_list(g.take(i as int)),
            decreases staff@.len() - i,
        {
            proof {
                assert(g.take(i + 1).drop_last() =~= g.take(i as int));
            }
            let m = &staff[i];
            let order = nat_text((i + 1) as u64);
            self.start("actor");
            self.text_element("name", m.1.as_str());
            self.text_element("role", m.2.as_str());
            self.actor_thumb(&m.3);
            self.actor_profile(m.0);
            self.chars_element("order", order.as_slice());
            self.end("actor");
            assert(g.take(i + 1).last() == (
                m.0 as int,
                m.1@,
                m.2@,
                opt_view(m.3),
            ));
            assert(self@ =~= e0 + staff_list(g.take(i + 1)));
            i = i + 1;
        }
        assert(g.take(staff@.len() as int) =~= g);
    }

    /// Writes the people of a document (see `actors_section`).
    fn actors(
        &mut self,
        actors_info: &Option<String>,
        staff_info: &Option<Vec<StaffEntry>>,
        upper_id: i64,
        upper_name: &str,
        upper_face: &Option<String>,
        c: &NFOConfig,
    )
        ensures
            final(self)@ == old(self)@ + actors_section(
                *actors_info,
                *staff_info,
                upper_id,
                upper_name@,
                *upper_face,
                *c,
            ),
    {
        if !c.include_actor_info {
            assert(old(self)@ + seq![] =~= old(self)@);
            return ;
        }
        match actors_info {
            Some(a) => {
                let cast = parse_actors_string(a.as_str());
                self.cast(&cast);
            },
            None => match staff_info {
                Some(s) => {
                    let members = parse_staff_info(s);
                    self.staff(&members);
                },
                None => {
                    match upper_actor(
                        upper_name,
                        c.empty_upper_strategy,
                        &c.empty_upper_placeholder,
                        &c.empty_upper_default_name,
                    ) {
                        Some(p) => {
                            let ghost e0 = self@;
                            self.start("actor");
                            self.text_element("name", p.0.as_str());
                            self.text_element("role", p.1.as_str());
                            self.actor_thumb(upper_face);
                            self.actor_profile(upper_id);
                            self.text_element("order", "1");
                            self.end("actor");
                            assert(self@ =~= e0 + upper_actor_el(
                                p.0@,
                                p.1@,
                                opt_view(*upper_face),
                                upper_id as int,
                            ));
                        },
                        None => {
                            assert(old(self)@ + seq![] =~= old(self)@);
                        },
                    }
                },
            },
        }
    }

    /// Writes play and like counts as `<tag>` elements when they are written.
    fn counts(&mut self, view_count: Option<i64>, like_count: Option<i64>, enabled: bool)
        ensures
            final(self)@ == old(self)@ + counts_section(view_count, like_count, enabled),
    {
        let ghost e0 = self@;
        if enabled {
            let views: Option<String> = match view_count {
                Some(v) => {
                    let mut t: Vec<char> = Vec::new();
                    crate::text::push_str(&mut t, "播放量: ");
                    let d = crate::text::int_to_chars(v);
                    crate::text::push_all(&mut t, d.as_slice());
                    Some(string_of(t.as_slice()))
                },
                None => None,
            };
            let likes: Option<String> = match like_count {
                Some(v) => {
                    let mut t: Vec<char> = Vec::new();
                    crate::text::push_str(&mut t, "点赞数: ");
                    let d = crate::text::int_to_chars(v);
                    crate::text::push_all(&mut t, d.as_slice());
                    Some(string_of(t.as_slice()))
                },
                None => None,
            };
            self.opt_text_element("tag", &views);
            self.opt_text_element("tag", &likes);
            assert(self@ =~= e0 + counts_section(view_count, like_count, enabled));
        } else {
            assert(e0 + seq![] =~= e0);
        }
    }

    /// Writes the cover and, with a cover, a non-empty background picture.
    fn cover(&mut self, cover_url: &str, fanart_url: &Option<String>)
        ensures
            final(self)@ == old(self)@ + cover_section(cover_url@, opt_view(*fanart_url)),
    {
        let ghost e0 = self@;
        if !cover_url.is_empty() {
            self.text_element("thumb", cover_url);
            match fanart_url {
                Some(f) => {
                    if !f.as_str().is_empty() {
                        self.text_element("fanart", f.as_str());
                    }
                },
                None => {},
            }
            assert(self@ =~= e0 + cover_section(cover_url@, opt_view(*fanart_url)));
        } else {
            assert(e0 + seq![] =~= e0);
        }
    }
}

// ---------------------------------------------------------------------------
// Documents
// ---------------------------------------------------------------------------

/// A film (a single-part video).
#[derive(Clone, Debug)]
pub struct Movie {
    pub name: String,
    pub original_title: String,
    pub intro: String,
    pub bvid: String,
    pub upper_id: i64,
    pub upper_name: String,
    pub aired: DateTime,
    pub premiered: DateTime,
    pub tags: Option<Vec<String>>,
    /// The rating as written (the decimal text of the score).
    pub user_rating: Option<String>,
    pub mpaa: Option<String>,
    pub country: Option<String>,
    pub studio: Option<String>,
    pub director: Option<String>,
    pub credits: Option<String>,
    /// Running time in minutes.
    pub duration: Option<i32>,
    pub view_count: Option<i64>,
    pub like_count: Option<i64>,
    pub category: i32,
    pub tagline: Option<String>,
    pub sorttitle: Option<String>,
    pub uniqueid_override: Option<String>,
    /// Cast list, one "character：actor" per line.
    pub actors_info: Option<String>,
    pub staff_info: Option<Vec<StaffEntry>>,
    pub cover_url: String,
    pub fanart_url: Option<String>,
    pub upper_face_url: Option<String>,
}

/// A show (a series of episodes).
#[derive(Clone, Debug)]
pub struct TVShow {
    pub name: String,
    pub original_title: String,
    pub intro: String,
    pub bvid: String,
    pub upper_id: i64,
    pub upper_name: String,
    pub aired: DateTime,
    pub premiered: DateTime,
    pub tags: Option<Vec<String>>,
    /// The rating as written (the decimal text of the score).
    pub user_rating: Option<String>,
    pub mpaa: Option<String>,
    pub country: Option<String>,
    pub studio: Option<String>,
    /// Airing status ("Continuing", "Ended").
    pub status: Option<String>,
    pub total_seasons: Option<i32>,
    pub total_episodes: Option<i32>,
    /// Running time in minutes.
    pub duration: Option<i32>,
    pub view_count: Option<i64>,
    pub like_count: Option<i64>,
    pub category: i32,
    pub tagline: Option<String>,
    pub sorttitle: Option<String>,
    pub actors_info: Option<String>,
    pub staff_info: Option<Vec<StaffEntry>>,
    pub cover_url: String,
    pub fanart_url: Option<String>,
    pub upper_face_url: Option<String>,
    pub season_id: Option<String>,
    pub media_id: Option<i64>,
    pub plot_link_override: Option<String>,
    pub uniqueid_override: Option<String>,
}

/// An uploader (a person).
#[derive(Clone, Debug)]
pub struct Upper {
    pub upper_id: String,
    pub upper_name: String,
    pub pubtime: DateTime,
}

/// One episode of a show.
#[derive(Clone, Debug)]
pub struct Episode {
    pub name: String,
    pub original_title: String,
    pub pid: String,
    pub plot: Option<String>,
    pub season: i32,
    pub episode_number: i32,
    pub aired: Option<DateTime>,
    /// Running time in minutes.
    pub duration: Option<i32>,
    /// The rating as written (the decimal text of the score).
    pub user_rating: Option<String>,
    pub director: Option<String>,
    pub credits: Option<String>,
    pub bvid: String,
    pub category: i32,
    pub mpaa: Option<String>,
    pub country: Option<String>,
    pub studio: Option<String>,
    pub genres: Option<Vec<String>>,
    pub upper_id: i64,
    pub upper_name: String,
    pub actors_info: Option<String>,
    pub staff_info: Option<Vec<StaffEntry>>,
    pub thumb_url: Option<String>,
    pub fanart_url: Option<String>,
    pub upper_face_url: Option<String>,
}

/// One season of a show.
#[derive(Clone, Debug)]
pub struct Season {
    pub name: String,
    pub original_title: String,
    pub intro: String,
    pub season_number: i32,
    pub bvid: String,
    pub upper_id: i64,
    pub upper_name: String,
    pub aired: DateTime,
    pub premiered: DateTime,
    pub tags: Option<Vec<String>>,
    /// The rating as written (the decimal text of the score).
    pub user_rating: Option<String>,
    pub mpaa: Option<String>,
    pub country: Option<String>,
    pub studio: Option<String>,
    pub status: Option<String>,
    pub total_episodes: Option<i32>,
    /// Average episode running time in minutes.
    pub duration: Option<i32>,
    pub view_count: Option<i64>,
    pub like_count: Option<i64>,
    pub category: i32,
    pub source_type: Option<i32>,
    pub tagline: Option<String>,
    /// Name of the series the season belongs to.
    pub set: Option<String>,
    pub sorttitle: Option<String>,
    pub actors_info: Option<String>,
    pub staff_info: Option<Vec<StaffEntry>>,
    pub cover_url: String,
    pub fanart_url: Option<String>,
    pub upper_face_url: Option<String>,
    pub season_id: Option<String>,
    pub media_id: Option<i64>,
    pub plot_link_override: Option<String>,
    pub uniqueid_override: Option<String>,
    /// Write the set name alone as the title, without the "第X季" label.
    pub suppress_season_label_in_title: bool,
}

/// A metadata document.
#[derive(Clone, Debug)]
pub enum NFO {
    Movie(Movie),
    TVShow(TVShow),
    Upper(Upper),
    Episode(Episode),
    Season(Season),
}

/// The decimal text of an optional 32-bit integer.
pub open spec fn opt_i32(o: Option<i32>) -> Option<Seq<char>> {
    match o {
        Some(v) => Some(int_text(v as int)),
        None => None,
    }
}

fn opt_wide(o: Option<i32>) -> (r: Option<i64>)
    ensures
        opt_int(r) == opt_i32(o),
{
    match o {
        Some(v) => Some(v as i64),
        None => None,
    }
}

// ---------------------------------------------------------------------------
// Movie
// ---------------------------------------------------------------------------

/// (title, original title) of a film: for a bangumi video whose name holds a
/// bangumi title, that title and the full name.
pub open spec fn movie_titles(m: Movie) -> (Seq<char>, Seq<char>) {
    if is_bangumi_category(m.category) {
        match bangumi_title_of(m.name@) {
            Some(t) => (t, m.name@),
            None => (m.name@, m.original_title@),
        }
    } else {
        (m.name@, m.original_title@)
    }
}

/// The default genres of a bangumi film.
pub open spec fn movie_bangumi_genres(category: i32, enabled: bool) -> Seq<XmlEv> {
    if is_bangumi_category(category) {
        genre_el("动画"@, enabled) + genre_el("剧场版"@, enabled)
    } else {
        seq![]
    }
}

/// The events of a film's document, with the date texts `d`.
pub open spec fn movie_events(m: Movie, c: NFOConfig, d: (Seq<char>, Seq<char>, Seq<char>, Seq<char>)) -> Seq<
    XmlEv,
> {
    let (title, original) = movie_titles(m);
    (Seq::<XmlEv>::empty().push(XmlEv::Start("movie"@, seq![])) + text_el("title"@, title) + text_el(
        "originaltitle"@,
        original,
    ) + opt_text_el("tagline"@, opt_view(m.tagline)) + text_el(
        "sorttitle"@,
        text_or(m.sorttitle, title),
    ) + opt_text_el("userrating"@, opt_view(m.user_rating)) + cdata_el("plot"@, m.intro@) + empty_el(
        "outline"@,
    ) + text_el("lockdata"@, "true"@) + opt_text_el("mpaa"@, opt_view(m.mpaa)) + attr_text_el(
        "uniqueid"@,
        default_id_attrs("bilibili"@),
        text_or(m.uniqueid_override, m.bvid@),
    ) + genres_section(m.tags, c.include_genre) + movie_bangumi_genres(m.category, c.include_genre)
        + text_el("country"@, text_or(m.country, c.default_country@)) + opt_text_el(
        "credits"@,
        opt_view(m.credits),
    ) + opt_text_el("director"@, opt_view(m.director)) + dates_section(d) + text_el(
        "studio"@,
        text_or(m.studio, c.default_studio@),
    ) + actors_section(m.actors_info, m.staff_info, m.upper_id, m.upper_name@, m.upper_face_url, c)
        + opt_text_el("runtime"@, opt_i32(m.duration)) + counts_section(
        m.view_count,
        m.like_count,
        c.include_bilibili_info,
    ) + cover_section(m.cover_url@, opt_view(m.fanart_url))).push(XmlEv::End("movie"@))
}

impl XmlEvents {
    /// Writes the main `<uniqueid>` element.
    fn main_id(&mut self, kind: &str, value: &str)
        ensures
            final(self)@ == old(self)@ + attr_text_el("uniqueid"@, default_id_attrs(kind@), value@),
    {
        let attrs = vec![("type".to_owned(), kind.to_owned()), ("default".to_owned(), "true".to_owned())];
        assert(crate::xml::attr_pairs(attrs@) =~= default_id_attrs(kind@));
        self.attr_text_element("uniqueid", attrs, value);
    }

    /// Writes an additional `<uniqueid>` element.
    fn extra_id(&mut self, kind: &str, value: &str)
        ensures
            final(self)@ == old(self)@ + attr_text_el("uniqueid"@, extra_id_attrs(kind@), value@),
    {
        let attrs = vec![("type".to_owned(), kind.to_owned())];
        assert(crate::xml::attr_pairs(attrs@) =~= extra_id_attrs(kind@));
        self.attr_text_element("uniqueid", attrs, value);
    }

    /// Writes the four date elements.
    fn dates(&mut self, d: &(String, String, String, String))
        ensures
            final(self)@ == old(self)@ + dates_section((d.0@, d.1@, d.2@, d.3@)),
    {
        let ghost e0 = self@;
        self.text_element("year", d.0.as_str());
        self.text_element("premiered", d.1.as_str());
        self.text_element("aired", d.2.as_str());
        self.text_element("dateadded", d.3.as_str());
        assert(self@ =~= e0 + dates_section((d.0@, d.1@, d.2@, d.3@)));
    }
}

/// The year, date and full date-time texts of a date-time.
fn format_dates(aired: &DateTime, premiered: &DateTime) -> (r: Option<(String, String, String, String)>)
    ensures
        valid_date_time(*aired) && valid_date_time(*premiered) ==> r is Some,
        match r {
            Some(t) => date_texts(*aired, *premiered) == Some((t.0@, t.1@, t.2@, t.3@)),
            None => date_texts(*aired, *premiered) is None,
        },
{
    let y = format_naive(aired, "%Y");
    let p = format_naive(premiered, "%Y-%m-%d");
    let a = format_naive(aired, "%Y-%m-%d");
    let d = format_naive(aired, "%Y-%m-%d %H:%M:%S");
    match (y, p, a, d) {
        (Some(y), Some(p), Some(a), Some(d)) => Some((y, p, a, d)),
        _ => None,
    }
}

fn movie_events_of(m: &Movie, c: &NFOConfig, d: &(String, String, String, String)) -> (r: XmlEvents)
    ensures
        r@ == movie_events(*m, *c, (d.0@, d.1@, d.2@, d.3@)),
{
    let is_bangumi = is_bangumi_video(m.category);
    let (title, original): (String, String) = if is_bangumi {
        match extract_bangumi_title_from_full_name(m.name.as_str()) {
            Some(t) => (t, m.name.clone()),
            None => (m.name.clone(), m.original_title.clone()),
        }
    } else {
        (m.name.clone(), m.original_title.clone())
    };
    assert((title@, original@) == movie_titles(*m));
    let mut e = XmlEvents::new();
    e.start("movie");
    e.text_element("title", title.as_str());
    e.text_element("originaltitle", original.as_str());
    e.opt_text_element("tagline", &m.tagline);
    e.text_or_element("sorttitle", &m.sorttitle, &title);
    e.opt_text_element("userrating", &m.user_rating);
    e.cdata_element("plot", m.intro.as_str());
    e.empty_element("outline");
    e.text_element("lockdata", "true");
    e.opt_text_element("mpaa", &m.mpaa);
    match &m.uniqueid_override {
        Some(u) => e.main_id("bilibili", u.as_str()),
        None => e.main_id("bilibili", m.bvid.as_str()),
    }
    e.genres(&m.tags, c.include_genre);
    if is_bangumi {
        let ghost e0 = e@;
        e.genre("动画", c.include_genre);
        e.genre("剧场版", c.include_genre);
        assert(e@ =~= e0 + movie_bangumi_genres(m.category, c.include_genre));
    } else {
        assert(e@ + seq![] =~= e@);
    }
    e.text_or_element("country", &m.country, &c.default_country);
    e.opt_text_element("credits", &m.credits);
    e.opt_text_element("director", &m.director);
    e.dates(d);
    e.text_or_element("studio", &m.studio, &c.default_studio);
    e.actors(&m.actors_info, &m.staff_info, m.upper_id, m.upper_name.as_str(), &m.upper_face_url, c);
    e.opt_int_element("runtime", opt_wide(m.duration));
    e.counts(m.view_count, m.like_count, c.include_bilibili_info);
    e.cover(m.cover_url.as_str(), &m.fanart_url);
    e.end("movie");
    e
}

// ---------------------------------------------------------------------------
// TVShow
// ---------------------------------------------------------------------------

/// The series name of a bangumi title, without its season.
pub open spec fn series_of(title: Seq<char>) -> Seq<char> {
    normalized_series_name(series_name_and_season(title).0)
}

/// (title, original title, series name) of a show.  For a bangumi video with
/// the season structure the title and original title are the series name
/// without its season (of the bangumi title when the name holds one).
pub open spec fn tvshow_titles(t: TVShow, season_structure: bool) -> (Seq<char>, Seq<char>, Option<
    Seq<char>,
>) {
    if is_bangumi_category(t.category) {
        match bangumi_title_of(t.name@) {
            Some(b) => if season_structure {
                (series_of(b), series_of(b), Some(series_of(b)))
            } else {
                (b, t.name@, None)
            },
            None => if season_structure {
                (series_of(t.name@), series_of(t.name@), Some(series_of(t.name@)))
            } else {
                (t.name@, t.original_title@, None)
            },
        }
    } else {
        (t.name@, t.original_title@, None)
    }
}

/// The sort title of a show: for a bangumi video with the season structure
/// its series name (its title); else the given sort title, else the title.
pub open spec fn tvshow_sorttitle(t: TVShow, season_structure: bool) -> Seq<char> {
    let title = tvshow_titles(t, season_structure).0;
    if season_structure && is_bangumi_category(t.category) {
        title
    } else {
        text_or(t.sorttitle, title)
    }
}

/// The events of a show's document, with the date texts `d`.
pub open spec fn tvshow_events(
    t: TVShow,
    c: NFOConfig,
    season_structure: bool,
    d: (Seq<char>, Seq<char>, Seq<char>, Seq<char>),
) -> Seq<XmlEv> {
    let (title, original, _) = tvshow_titles(t, season_structure);
    (Seq::<XmlEv>::empty().push(XmlEv::Start("tvshow"@, seq![])) + text_el("title"@, title)
        + text_el("originaltitle"@, original) + opt_text_el("tagline"@, opt_view(t.tagline))
        + text_el("sorttitle"@, tvshow_sorttitle(t, season_structure)) + cdata_el("plot"@, t.intro@)
        + empty_el("outline"@) + text_el("lockdata"@, "true"@) + opt_text_el(
        "userrating"@,
        opt_view(t.user_rating),
    ) + opt_text_el("mpaa"@, opt_view(t.mpaa)) + attr_text_el(
        "uniqueid"@,
        default_id_attrs("bilibili"@),
        text_or(t.uniqueid_override, t.bvid@),
    ) + extra_id_section("bilibili_season"@, opt_view(t.season_id)) + extra_id_section(
        "bilibili_media"@,
        opt_int(t.media_id),
    ) + genres_section(t.tags, c.include_genre) + text_el(
        "country"@,
        text_or(t.country, c.default_country@),
    ) + text_el("status"@, text_or(t.status, c.default_tvshow_status@)) + opt_text_el(
        "totalseasons"@,
        opt_i32(t.total_seasons),
    ) + opt_text_el("totalepisodes"@, opt_i32(t.total_episodes)) + dates_section(d) + text_el(
        "studio"@,
        text_or(t.studio, c.default_studio@),
    ) + actors_section(t.actors_info, t.staff_info, t.upper_id, t.upper_name@, t.upper_face_url, c)
        + opt_text_el("runtime"@, opt_i32(t.duration)) + counts_section(
        t.view_count,
        t.like_count,
        c.include_bilibili_info,
    ) + cover_section(t.cover_url@, opt_view(t.fanart_url))).push(XmlEv::End("tvshow"@))
}

/// An additional `<uniqueid>` of the given kind, when there is a value.
pub open spec fn extra_id_section(kind: Seq<char>, value: Option<Seq<char>>) -> Seq<XmlEv> {
    match value {
        Some(v) => attr_text_el("uniqueid"@, extra_id_attrs(kind), v),
        None => seq![],
    }
}

impl XmlEvents {
    /// Writes an additional `<uniqueid>` when there is a value.
    fn opt_extra_id(&mut self, kind: &str, value: &Option<String>)
        ensures
            final(self)@ == old(self)@ + extra_id_section(kind@, opt_view(*value)),
    {
        match value {
            Some(v) => self.extra_id(kind, v.as_str()),
            None => {
                assert(old(self)@ + seq![] =~= old(self)@);
            },
        }
    }

    /// Writes an additional `<uniqueid>` with the decimal text of a number, when there is one.
    fn opt_extra_int_id(&mut self, kind: &str, value: Option<i64>)
        ensures
            final(self)@ == old(self)@ + extra_id_section(kind@, opt_int(value)),
    {
        match value {
            Some(v) => {
                let t = int_to_string(v);
                self.extra_id(kind, t.as_str());
            },
            None => {
                assert(old(self)@ + seq![] =~= old(self)@);
            },
        }
    }
}

fn series_name(title: &str) -> (r: String)
    ensures
        r@ == series_of(title@),
{
    let (name, _) = extract_series_name_and_season(title);
    normalize_series_name(name.as_str())
}

fn tvshow_titles_of(t: &TVShow, season_structure: bool) -> (r: (String, String, Option<String>))
    ensures
        (r.0@, r.1@, opt_view(r.2)) == tvshow_titles(*t, season_structure),
{
    if is_bangumi_video(t.category) {
        match extract_bangumi_title_from_full_name(t.name.as_str()) {
            Some(b) => {
                if season_structure {
                    let s = series_name(b.as_str());
                    (s.clone(), s.clone(), Some(s))
                } else {
                    (b, t.name.clone(), None)
                }
            },
            None => {
                if season_structure {
                    let s = series_name(t.name.as_str());
                    (s.clone(), s.clone(), Some(s))
                } else {
                    (t.name.clone(), t.original_title.clone(), None)
                }
            },
        }
    } else {
        (t.name.clone(), t.original_title.clone(), None)
    }
}

fn tvshow_events_of(t: &TVShow, c: &NFOConfig, season_structure: bool, d: &(String, String, String, String)) -> (r:
    XmlEvents)
    ensures
        r@ == tvshow_events(*t, *c, season_structure, (d.0@, d.1@, d.2@, d.3@)),
{
    let is_bangumi = is_bangumi_video(t.category);
    let (title, original, series) = tvshow_titles_of(t, season_structure);
    let grouped = season_structure && is_bangumi;
    let sort: String = match &t.sorttitle {
        Some(st) => {
            if grouped {
                match &series {
                    Some(n) => n.clone(),
                    None => series_name(st.as_str()),
                }
            } else {
                st.clone()
            }
        },
        None => {
            if grouped {
                match &series {
                    Some(n) => n.clone(),
                    None => title.clone(),
                }
            } else {
                title.clone()
            }
        },
    };
    assert(sort@ == tvshow_sorttitle(*t, season_structure));
    let mut e = XmlEvents::new();
    e.start("tvshow");
    e.text_element("title", title.as_str());
    e.text_element("originaltitle", original.as_str());
    e.opt_text_element("tagline", &t.tagline);
    e.text_element("sorttitle", sort.as_str());
    e.cdata_element("plot", t.intro.as_str());
    e.empty_element("outline");
    e.text_element("lockdata", "true");
    e.opt_text_element("userrating", &t.user_rating);
    e.opt_text_element("mpaa", &t.mpaa);
    match &t.uniqueid_override {
        Some(u) => e.main_id("bilibili", u.as_str()),
        None => e.main_id("bilibili", t.bvid.as_str()),
    }
    e.opt_extra_id("bilibili_season", &t.season_id);
    e.opt_extra_int_id("bilibili_media", t.media_id);
    e.genres(&t.tags, c.include_genre);
    e.text_or_element("country", &t.country, &c.default_country);
    e.text_or_element("status", &t.status, &c.default_tvshow_status);
    e.opt_int_element("totalseasons", opt_wide(t.total_seasons));
    e.opt_int_element("totalepisodes", opt_wide(t.total_episodes));
    e.dates(d);
    e.text_or_element("studio", &t.studio, &c.default_studio);
    e.actors(&t.actors_info, &t.staff_info, t.upper_id, t.upper_name.as_str(), &t.upper_face_url, c);
    e.opt_int_element("runtime", opt_wide(t.duration));
    e.counts(t.view_count, t.like_count, c.include_bilibili_info);
    e.cover(t.cover_url.as_str(), &t.fanart_url);
    e.end("tvshow");
    e
}

// ---------------------------------------------------------------------------
// Upper
// ---------------------------------------------------------------------------

/// The events of an uploader's document, with the full date-time text `added`.
pub open spec fn upper_events(u: Upper, added: Seq<char>) -> Seq<XmlEv> {
    (Seq::<XmlEv>::empty().push(XmlEv::Start("person"@, seq![])) + empty_el("plot"@) + empty_el(
        "outline"@,
    ) + text_el("lockdata"@, "false"@) + text_el("dateadded"@, added) + text_el(
        "title"@,
        u.upper_name@,
    ) + text_el("sorttitle"@, u.upper_name@) + attr_text_el(
        "uniqueid"@,
        default_id_attrs("bilibili_uid"@),
        u.upper_id@,
    )).push(XmlEv::End("person"@))
}

fn upper_events_of(u: &Upper, added: &String) -> (r: XmlEvents)
    ensures
        r@ == upper_events(*u, added@),
{
    let mut e = XmlEvents::new();
    e.start("person");
    e.empty_element("plot");
    e.empty_element("outline");
    e.text_element("lockdata", "false");
    e.text_element("dateadded", added.as_str());
    e.text_element("title", u.upper_name.as_str());
    e.text_element("sorttitle", u.upper_name.as_str());
    e.main_id("bilibili_uid", u.upper_id.as_str());
    e.end("person");
    e
}

// ---------------------------------------------------------------------------
// Episode
// ---------------------------------------------------------------------------

/// An episode's original title without the dubbing marks "-中配", "-日配",
/// "-国语" and "-粤语", trimmed.
pub open spec fn cleaned_original_title(t: Seq<char>) -> Seq<char> {
    trim(
        replace(
            replace(replace(replace(t, "-中配"@, seq![]), "-日配"@, seq![]), "-国语"@, seq![]),
            "-粤语"@,
            seq![],
        ),
    )
}

/// The identifier of an episode: "BVID-pPID" for a real BV id and a page
/// number other than "0", the BV id without a page number, else the page number.
pub open spec fn episode_unique_id(e: Episode) -> Seq<char> {
    if starts_with(e.bvid@, "BV"@) && crate::text::utf8_len(e.bvid@) > 10 && e.bvid@ != "BV0000000000"@ {
        if e.pid@.len() > 0 && e.pid@ != "0"@ {
            e.bvid@ + "-p"@ + e.pid@
        } else {
            e.bvid@
        }
    } else {
        e.pid@
    }
}

/// `<aired>` and `<dateadded>` of an episode with an air date.
pub open spec fn episode_dates(d: Option<(Seq<char>, Seq<char>)>) -> Seq<XmlEv> {
    match d {
        Some(p) => text_el("aired"@, p.0) + text_el("dateadded"@, p.1),
        None => seq![],
    }
}

/// The events of an episode's document, with the air date texts `d`.
pub open spec fn episode_events(e: Episode, c: NFOConfig, d: Option<(Seq<char>, Seq<char>)>) -> Seq<
    XmlEv,
> {
    (Seq::<XmlEv>::empty().push(XmlEv::Start("episodedetails"@, seq![])) + text_el(
        "title"@,
        e.name@,
    ) + text_el("originaltitle"@, cleaned_original_title(e.original_title@)) + match e.plot {
        Some(p) => cdata_el("plot"@, p@),
        None => empty_el("plot"@),
    } + empty_el("outline"@) + text_el("lockdata"@, "true"@) + text_el(
        "season"@,
        int_text(e.season as int),
    ) + text_el("episode"@, int_text(e.episode_number as int)) + attr_text_el(
        "uniqueid"@,
        default_id_attrs("bilibili"@),
        episode_unique_id(e),
    ) + genres_section(e.genres, c.include_genre) + (if is_bangumi_category(e.category) {
        genre_el("动画"@, c.include_genre)
    } else {
        seq![]
    }) + text_el("country"@, text_or(e.country, c.default_country@)) + text_el(
        "mpaa"@,
        text_or(e.mpaa, "PG"@),
    ) + text_el("studio"@, text_or(e.studio, c.default_studio@)) + episode_dates(d) + opt_text_el(
        "runtime"@,
        opt_i32(e.duration),
    ) + opt_text_el("userrating"@, opt_view(e.user_rating)) + opt_text_el(
        "director"@,
        opt_view(e.director),
    ) + opt_text_el("credits"@, opt_view(e.credits)) + actors_section(
        e.actors_info,
        e.staff_info,
        e.upper_id,
        e.upper_name@,
        e.upper_face_url,
        c,
    ) + opt_text_el("thumb"@, opt_view(e.thumb_url)) + opt_text_el(
        "fanart"@,
        opt_view(e.fanart_url),
    )).push(XmlEv::End("episodedetails"@))
}

fn cleaned_title(t: &str) -> (r: String)
    ensures
        r@ == cleaned_original_title(t@),
{
    proof {
        reveal_strlit("-中配");
        reveal_strlit("-日配");
        reveal_strlit("-国语");
        reveal_strlit("-粤语");
    }
    let c = crate::text::chars_of(t);
    let empty: Vec<char> = Vec::new();
    let a = crate::text::replace_str(c.as_slice(), "-中配", "");
    let b = crate::text::replace_str(a.as_slice(), "-日配", "");
    let d = crate::text::replace_str(b.as_slice(), "-国语", "");
    let f = crate::text::replace_str(d.as_slice(), "-粤语", "");
    proof {
        reveal_strlit("");
        assert(""@ =~= Seq::<char>::empty());
    }
    let g = crate::text::trim_chars(f.as_slice());
    string_of(g.as_slice())
}

fn unique_id_of(e: &Episode) -> (r: String)
    ensures
        r@ == episode_unique_id(*e),
{
    let b = crate::text::chars_of(e.bvid.as_str());
    let bv = vec!['B', 'V'];
    proof {
        reveal_strlit("BV");
        assert(bv@ =~= "BV"@);
    }
    let genuine = crate::text::starts_with_chars(b.as_slice(), bv.as_slice())
        && !crate::text::utf8_len_at_most(b.as_slice(), 10) && !crate::text::str_eq(e.bvid.as_str(), "BV0000000000");
    if genuine {
        if !e.pid.as_str().is_empty() && !crate::text::str_eq(e.pid.as_str(), "0") {
            let mut v: Vec<char> = Vec::new();
            crate::text::push_str(&mut v, e.bvid.as_str());
            crate::text::push_str(&mut v, "-p");
            crate::text::push_str(&mut v, e.pid.as_str());
            string_of(v.as_slice())
        } else {
            e.bvid.clone()
        }
    } else {
        e.pid.clone()
    }
}

fn episode_events_of(e: &Episode, c: &NFOConfig, d: &Option<(String, String)>) -> (r: XmlEvents)
    ensures
        r@ == episode_events(
            *e,
            *c,
            match d {
                Some(p) => Some((p.0@, p.1@)),
                None => None,
            },
        ),
{
    let mut x = XmlEvents::new();
    x.start("episodedetails");
    x.text_element("title", e.name.as_str());
    let original = cleaned_title(e.original_title.as_str());
    x.text_element("originaltitle", original.as_str());
    match &e.plot {
        Some(p) => x.cdata_element("plot", p.as_str()),
        None => x.empty_element("plot"),
    }
    x.empty_element("outline");
    x.text_element("lockdata", "true");
    x.int_element("season", e.season as i64);
    x.int_element("episode", e.episode_number as i64);
    let uid = unique_id_of(e);
    x.main_id("bilibili", uid.as_str());
    x.genres(&e.genres, c.include_genre);
    if is_bangumi_video(e.category) {
        x.genre("动画", c.include_genre);
    } else {
        assert(x@ + seq![] =~= x@);
    }
    x.text_or_element("country", &e.country, &c.default_country);
    let pg = "PG".to_owned();
    x.text_or_element("mpaa", &e.mpaa, &pg);
    x.text_or_element("studio", &e.studio, &c.default_studio);
    match d {
        Some(p) => {
            let ghost x0 = x@;
            x.text_element("aired", p.0.as_str());
            x.text_element("dateadded", p.1.as_str());
            assert(x@ =~= x0 + episode_dates(Some((p.0@, p.1@))));
        },
        None => {
            assert(x@ + seq![] =~= x@);
        },
    }
    x.opt_int_element("runtime", opt_wide(e.duration));
    x.opt_text_element("userrating", &e.user_rating);
    x.opt_text_element("director", &e.director);
    x.opt_text_element("credits", &e.credits);
    x.actors(&e.actors_info, &e.staff_info, e.upper_id, e.upper_name.as_str(), &e.upper_face_url, c);
    x.opt_text_element("thumb", &e.thumb_url);
    x.opt_text_element("fanart", &e.fanart_url);
    x.end("episodedetails");
    x
}

// ---------------------------------------------------------------------------
// Season
// ---------------------------------------------------------------------------

/// `n`, at least one.
pub open spec fn at_least_one(n: i32) -> i32 {
    if n >= 1 {
        n
    } else {
        1
    }
}

/// (title, original title) of a season: for a real bangumi the season part of
/// the name; for a season of a series with a set name, "第X季 set" (the set name
/// alone when the label is suppressed) and the set name.
pub open spec fn season_titles(s: Season) -> (Seq<char>, Seq<char>) {
    if s.source_type == Some(1i32) {
        match season_title_of(s.name@) {
            Some(t) => (t, s.name@),
            None => (s.name@, s.original_title@),
        }
    } else {
        match s.set {
            Some(n) => if s.suppress_season_label_in_title {
                (n@, n@)
            } else {
                (
                    "第"@ + chinese_number_text(at_least_one(s.season_number)) + "季 "@ + n@,
                    n@,
                )
            },
            None => (s.name@, s.original_title@),
        }
    }
}

/// The plot of a season: for a bangumi video with a season in its name,
/// "【第X季】" before the introduction.
pub open spec fn season_plot(s: Season) -> Seq<char> {
    if is_bangumi_category(s.category) {
        match season_title_of(s.name@) {
            Some(t) => "【"@ + t + "】"@ + s.intro@,
            None => s.intro@,
        }
    } else {
        s.intro@
    }
}

/// The events of a season's document, with the date texts `d`.
pub open spec fn season_events(s: Season, c: NFOConfig, d: (Seq<char>, Seq<char>, Seq<char>, Seq<char>)) -> Seq<
    XmlEv,
> {
    let (title, original) = season_titles(s);
    (Seq::<XmlEv>::empty().push(XmlEv::Start("season"@, seq![])) + text_el("title"@, title) + text_el(
        "originaltitle"@,
        original,
    ) + text_el("seasonnumber"@, int_text(s.season_number as int)) + opt_text_el(
        "tagline"@,
        opt_view(s.tagline),
    ) + text_el("sorttitle"@, text_or(s.sorttitle, title)) + cdata_el("plot"@, season_plot(s))
        + empty_el("outline"@) + text_el("lockdata"@, "true"@) + opt_text_el(
        "userrating"@,
        opt_view(s.user_rating),
    ) + opt_text_el("mpaa"@, opt_view(s.mpaa)) + attr_text_el(
        "uniqueid"@,
        default_id_attrs("bilibili"@),
        text_or(s.uniqueid_override, s.bvid@),
    ) + extra_id_section("bilibili_season"@, opt_view(s.season_id)) + extra_id_section(
        "bilibili_media"@,
        opt_int(s.media_id),
    ) + genres_section(s.tags, c.include_genre) + text_el(
        "country"@,
        text_or(s.country, c.default_country@),
    ) + text_el("status"@, text_or(s.status, c.default_tvshow_status@)) + opt_text_el(
        "totalepisodes"@,
        opt_i32(s.total_episodes),
    ) + dates_section(d) + text_el("studio"@, text_or(s.studio, c.default_studio@))
        + actors_section(s.actors_info, s.staff_info, s.upper_id, s.upper_name@, s.upper_face_url, c)
        + opt_text_el("runtime"@, opt_i32(s.duration)) + counts_section(
        s.view_count,
        s.like_count,
        c.include_bilibili_info,
    ) + cover_section(s.cover_url@, opt_view(s.fanart_url))).push(XmlEv::End("season"@))
}

fn season_titles_of(s: &Season) -> (r: (String, String))
    ensures
        (r.0@, r.1@) == season_titles(*s),
{
    if s.source_type == Some(1i32) {
        match extract_season_title_from_full_name(s.name.as_str()) {
            Some(t) => (t, s.name.clone()),
            None => (s.name.clone(), s.original_title.clone()),
        }
    } else {
        match &s.set {
            Some(n) => {
                if s.suppress_season_label_in_title {
                    (n.clone(), n.clone())
                } else {
                    let n1 = if s.season_number >= 1 {
                        s.season_number
                    } else {
                        1
                    };
                    let label = number_to_chinese(n1);
                    let mut v: Vec<char> = Vec::new();
                    crate::text::push_str(&mut v, "第");
                    crate::text::push_str(&mut v, label.as_str());
                    crate::text::push_str(&mut v, "季 ");
                    crate::text::push_str(&mut v, n.as_str());
                    (string_of(v.as_slice()), n.clone())
                }
            },
            None => (s.name.clone(), s.original_title.clone()),
        }
    }
}

fn season_plot_of(s: &Season) -> (r: String)
    ensures
        r@ == season_plot(*s),
{
    if is_bangumi_video(s.category) {
        match extract_season_title_from_full_name(s.name.as_str()) {
            Some(t) => {
                let mut v: Vec<char> = Vec::new();
                crate::text::push_str(&mut v, "【");
                crate::text::push_str(&mut v, t.as_str());
                crate::text::push_str(&mut v, "】");
                crate::text::push_str(&mut v, s.intro.as_str());
                string_of(v.as_slice())
            },
            None => s.intro.clone(),
        }
    } else {
        s.intro.clone()
    }
}

fn season_events_of(s: &Season, c: &NFOConfig, d: &(String, String, String, String)) -> (r: XmlEvents)
    ensures
        r@ == season_events(*s, *c, (d.0@, d.1@, d.2@, d.3@)),
{
    let (title, original) = season_titles_of(s);
    let mut e = XmlEvents::new();
    e.start("season");
    e.text_element("title", title.as_str());
    e.text_element("originaltitle", original.as_str());
    e.int_element("seasonnumber", s.season_number as i64);
    e.opt_text_element("tagline", &s.tagline);
    e.text_or_element("sorttitle", &s.sorttitle, &title);
    let plot = season_plot_of(s);
    e.cdata_element("plot", plot.as_str());
    e.empty_element("outline");
    e.text_element("lockdata", "true");
    e.opt_text_element("userrating", &s.user_rating);
    e.opt_text_element("mpaa", &s.mpaa);
    match &s.uniqueid_override {
        Some(u) => e.main_id("bilibili", u.as_str()),
        None => e.main_id("bilibili", s.bvid.as_str()),
    }
    e.opt_extra_id("bilibili_season", &s.season_id);
    e.opt_extra_int_id("bilibili_media", s.media_id);
    e.genres(&s.tags, c.include_genre);
    e.text_or_element("country", &s.country, &c.default_country);
    e.text_or_element("status", &s.status, &c.default_tvshow_status);
    e.opt_int_element("totalepisodes", opt_wide(s.total_episodes));
    e.dates(d);
    e.text_or_element("studio", &s.studio, &c.default_studio);
    e.actors(&s.actors_info, &s.staff_info, s.upper_id, s.upper_name.as_str(), &s.upper_face_url, c);
    e.opt_int_element("runtime", opt_wide(s.duration));
    e.counts(s.view_count, s.like_count, c.include_bilibili_info);
    e.cover(s.cover_url.as_str(), &s.fanart_url);
    e.end("season");
    e
}

// ---------------------------------------------------------------------------
// Whole documents
// ---------------------------------------------------------------------------

/// Why a document could not be written.
#[derive(Clone, Copy, Debug, PartialEq, Eq, Structural)]
pub enum NfoError {
    /// The name is blank or the BV id is not a BV id of at least ten bytes.
    InvalidData,
    /// A date-time cannot be formatted (it is not a valid calendar date-time).
    DateFormat,
    /// The XML writer failed.
    Write,
    /// The written bytes are not UTF-8.
    Encoding,
}

/// `<aired>` and `<dateadded>` texts of an episode's optional air date;
/// `None` when the date cannot be formatted.
pub open spec fn episode_date_texts(aired: Option<DateTime>) -> Option<Option<(Seq<char>, Seq<char>)>> {
    match aired {
        Some(a) => match (date_text(a, "%Y-%m-%d"@), date_text(a, "%Y-%m-%d %H:%M:%S"@)) {
            (Some(x), Some(y)) => Some(Some((x, y))),
            _ => None,
        },
        None => Some(None),
    }
}

/// The events of a document, or why it cannot be written.  Films, shows and
/// seasons need a usable name and BV id.
pub open spec fn nfo_events(n: NFO, c: NFOConfig, season_structure: bool) -> Result<Seq<XmlEv>, NfoError> {
    match n {
        NFO::Movie(m) => if !nfo_data_valid(m.name@, m.bvid@) {
            Err(NfoError::InvalidData)
        } else {
            match date_texts(m.aired, m.premiered) {
                Some(d) => Ok(movie_events(m, c, d)),
                None => Err(NfoError::DateFormat),
            }
        },
        NFO::TVShow(t) => if !nfo_data_valid(t.name@, t.bvid@) {
            Err(NfoError::InvalidData)
        } else {
            match date_texts(t.aired, t.premiered) {
                Some(d) => Ok(tvshow_events(t, c, season_structure, d)),
                None => Err(NfoError::DateFormat),
            }
        },
        NFO::Upper(u) => match date_text(u.pubtime, "%Y-%m-%d %H:%M:%S"@) {
            Some(a) => Ok(upper_events(u, a)),
            None => Err(NfoError::DateFormat),
        },
        NFO::Episode(e) => match episode_date_texts(e.aired) {
            Some(d) => Ok(episode_events(e, c, d)),
            None => Err(NfoError::DateFormat),
        },
        NFO::Season(s) => if !nfo_data_valid(s.name@, s.bvid@) {
            Err(NfoError::InvalidData)
        } else {
            match date_texts(s.aired, s.premiered) {
                Some(d) => Ok(season_events(s, c, d)),
                None => Err(NfoError::DateFormat),
            }
        },
    }
}

/// Are the date-times that a document writes real ones?
pub open spec fn nfo_dates_valid(n: NFO) -> bool {
    match n {
        NFO::Movie(m) => valid_date_time(m.aired) && valid_date_time(m.premiered),
        NFO::TVShow(t) => valid_date_time(t.aired) && valid_date_time(t.premiered),
        NFO::Upper(u) => valid_date_time(u.pubtime),
        NFO::Episode(e) => match e.aired {
            Some(a) => valid_date_time(a),
            None => true,
        },
        NFO::Season(s) => valid_date_time(s.aired) && valid_date_time(s.premiered),
    }
}

/// The first line of every document.
pub open spec fn nfo_header() -> Seq<char> {
    "<?xml version=\"1.0\" encoding=\"utf-8\" standalone=\"yes\"?>\n"@
}

/// The bytes of a document with the given events: the header line, then the
/// events written with four-space indentation.
pub open spec fn nfo_bytes(events: Seq<XmlEv>) -> Seq<u8> {
    encode_utf8(nfo_header()) + xml_indented(INDENT_CHAR, INDENT_SIZE as nat, events)
}

/// The text of a document with the given events, without the characters that
/// XML does not allow.
pub open spec fn nfo_text_of(events: Seq<XmlEv>) -> Seq<char> {
    xml_chars_only(decode_utf8(nfo_bytes(events)))
}

/// std: `String::from_utf8`.  It gives a string exactly when the bytes are
/// valid UTF-8, and then the string of the characters they encode.
#[verifier::external_body]
fn string_from_utf8(bytes: Vec<u8>) -> (r: Option<String>)
    ensures
        match r {
            Some(s) => valid_utf8(bytes@) && s@ == decode_utf8(bytes@),
            None => !valid_utf8(bytes@),
        },
{
    String::from_utf8(bytes).ok()
}

/// The encoding of two texts one after the other is the encoding of the first
/// followed by that of the second.
proof fn lemma_encode_utf8_concat(a: Seq<char>, b: Seq<char>)
    ensures
        encode_utf8(a + b) == encode_utf8(a) + encode_utf8(b),
    decreases a.len(),
{
    if a.len() == 0 {
        assert(a + b =~= b);
    } else {
        assert((a + b).drop_first() =~= a.drop_first() + b);
        lemma_encode_utf8_concat(a.drop_first(), b);
        assert(encode_utf8(a) + encode_utf8(b) =~= vstd::utf8::encode_scalar(a[0] as u32) + (encode_utf8(
            a.drop_first(),
        ) + encode_utf8(b)));
    }
}

/// UTF-8 bytes followed by UTF-8 bytes are UTF-8.
proof fn lemma_valid_utf8_concat(x: Seq<u8>, y: Seq<u8>)
    requires
        valid_utf8(x),
        valid_utf8(y),
    ensures
        valid_utf8(x + y),
{
    broadcast use vstd::utf8::decode_utf8_encode_utf8, vstd::utf8::encode_utf8_valid_utf8;

    lemma_encode_utf8_concat(decode_utf8(x), decode_utf8(y));
    assert(x + y == encode_utf8(decode_utf8(x) + decode_utf8(y)));
}

impl NFO {
    /// The events of this document (see `nfo_events`).  Real date-times
    /// never give `DateFormat`.
    pub fn events(&self, config: &NFOConfig, bangumi_use_season_structure: bool) -> (r: Result<
        XmlEvents,
        NfoError,
    >)
        ensures
            nfo_dates_valid(*self) ==> (r matches Err(x) ==> x != NfoError::DateFormat),
            match r {
                Ok(e) => nfo_events(*self, *config, bangumi_use_season_structure) == Ok::<
                    Seq<XmlEv>,
                    NfoError,
                >(e@),
                Err(x) => nfo_events(*self, *config, bangumi_use_season_structure) == Err::<
                    Seq<XmlEv>,
                    NfoError,
                >(x),
            },
    {
        match self {
            NFO::Movie(m) => {
                if !validate_nfo_data(m.name.as_str(), m.bvid.as_str(), m.upper_name.as_str()) {
                    return Err(NfoError::InvalidData);
                }
                match format_dates(&m.aired, &m.premiered) {
                    Some(d) => Ok(movie_events_of(m, config, &d)),
                    None => Err(NfoError::DateFormat),
                }
            },
            NFO::TVShow(t) => {
                if !validate_nfo_data(t.name.as_str(), t.bvid.as_str(), t.upper_name.as_str()) {
                    return Err(NfoError::InvalidData);
                }
                match format_dates(&t.aired, &t.premiered) {
                    Some(d) => Ok(tvshow_events_of(t, config, bangumi_use_season_structure, &d)),
                    None => Err(NfoError::DateFormat),
                }
            },
            NFO::Upper(u) => match format_naive(&u.pubtime, "%Y-%m-%d %H:%M:%S") {
                Some(a) => Ok(upper_events_of(u, &a)),
                None => Err(NfoError::DateFormat),
            },
            NFO::Episode(e) => {
                let d: Option<(String, String)> = match &e.aired {
                    Some(a) => {
                        let x = format_naive(a, "%Y-%m-%d");
                        let y = format_naive(a, "%Y-%m-%d %H:%M:%S");
                        match (x, y) {
                            (Some(x), Some(y)) => Some((x, y)),
                            _ => {
                                return Err(NfoError::DateFormat);
                            },
                        }
                    },
                    None => None,
                };
                Ok(episode_events_of(e, config, &d))
            },
            NFO::Season(s) => {
                if !validate_nfo_data(s.name.as_str(), s.bvid.as_str(), s.upper_name.as_str()) {
                    return Err(NfoError::InvalidData);
                }
                match format_dates(&s.aired, &s.premiered) {
                    Some(d) => Ok(season_events_of(s, config, &d)),
                    None => Err(NfoError::DateFormat),
                }
            },
        }
    }

    /// The XML text of this document: the header line and the document
    /// indented by four spaces, without characters that XML does not allow.
    /// Errors: `InvalidData` and `DateFormat` exactly when `nfo_events` gives
    /// them; otherwise the text.  Real date-times never give `DateFormat`.
    pub fn generate_nfo(self, config: &NFOConfig, bangumi_use_season_structure: bool) -> (r: Result<
        String,
        NfoError,
    >)
        ensures
            nfo_dates_valid(self) ==> (r matches Err(x) ==> x != NfoError::DateFormat),
            match nfo_events(self, *config, bangumi_use_season_structure) {
                Err(x) => r == Err::<String, NfoError>(x),
                Ok(evs) => r matches Ok(t) && valid_utf8(nfo_bytes(evs)) && t@ == nfo_text_of(evs),
            },
    {
        let events = match self.events(config, bangumi_use_season_structure) {
            Ok(e) => e,
            Err(x) => {
                return Err(x);
            },
        };
        let mut rendered = match render_events(&events.events) {
            Some(b) => b,
            None => {
                return Err(NfoError::Write);
            },
        };
        let header = "<?xml version=\"1.0\" encoding=\"utf-8\" standalone=\"yes\"?>\n";
        let mut bytes: Vec<u8> = Vec::new();
        bytes.extend_from_slice(header.as_bytes());
        assert(bytes@ =~= encode_utf8(nfo_header()));
        let ghost header_bytes = bytes@;
        let ghost body_bytes = rendered@;
        bytes.append(&mut rendered);
        assert(bytes@ =~= nfo_bytes(events@));
        proof {
            vstd::utf8::encode_utf8_valid_utf8(nfo_header());
            assert(bytes@ =~= header_bytes + body_bytes);
            lemma_valid_utf8_concat(header_bytes, body_bytes);
        }
        match string_from_utf8(bytes) {
            Some(text) => Ok(sanitize_xml_str(text.as_str())),
            None => Err(NfoError::Encoding),
        }
    }
}

// ---------------------------------------------------------------------------
// Documents of stored records
// ---------------------------------------------------------------------------

/// The texts of an optional list of strings.
pub open spec fn opt_texts(o: Option<Vec<String>>) -> Option<Seq<Seq<char>>> {
    match o {
        Some(v) => Some(texts(v@)),
        None => None,
    }
}

/// The members of an optional staff list as values.
pub open spec fn opt_staff(o: Option<Vec<StaffEntry>>) -> Option<Seq<crate::models::StaffView>> {
    match o {
        Some(v) => Some(staff_views(v@)),
        None => None,
    }
}

/// The title of a video's documents: the share text of a film-type bangumi
/// (show season type 2) when there is one, else the name.
pub open spec fn video_nfo_title(v: VideoModel) -> Seq<char> {
    if v.show_season_type == Some(2i32) {
        match v.share_copy {
            Some(s) => s@,
            None => v.name@,
        }
    } else {
        v.name@
    }
}

/// The stored time that dates a video.
pub open spec fn video_time(v: VideoModel, tt: NFOTimeType) -> DateTime {
    match tt {
        NFOTimeType::FavTime => v.favtime,
        NFOTimeType::PubTime => v.pubtime,
    }
}

/// The tagline of a film-type bangumi: the subtitle of its share text.
pub open spec fn video_tagline(v: VideoModel) -> Option<Seq<char>> {
    if v.show_season_type == Some(2i32) {
        match v.share_copy {
            Some(sc) => subtitle_of(sc@),
            None => None,
        }
    } else {
        None
    }
}

/// The sort title of a video's documents: for a bangumi video its bangumi
/// title, else the first word of the title without "《" and "》" (the title when
/// there is no word); for other videos the title.
pub open spec fn video_sorttitle(v: VideoModel) -> Seq<char> {
    let t = video_nfo_title(v);
    if is_bangumi_category(v.category) {
        match bangumi_title_of(t) {
            Some(b) => b,
            None => {
                let w = words(replace(replace(t, "《"@, seq![]), "》"@, seq![]));
                if w.len() > 0 {
                    w[0]
                } else {
                    t
                }
            },
        }
    } else {
        t
    }
}

/// The uploader's picture, when the record has one.
pub open spec fn video_face(v: VideoModel) -> Option<Seq<char>> {
    if v.upper_face@.len() > 0 {
        Some(v.upper_face@)
    } else {
        None
    }
}

/// `movie` is the film of the stored video `v` (dated by `tt`), but for its running time.
pub open spec fn movie_of_video(m: Movie, v: VideoModel, tt: NFOTimeType) -> bool {
    &&& m.name@ == video_nfo_title(v)
    &&& m.original_title@ == v.name@
    &&& m.intro@ == v.intro@
    &&& m.bvid@ == v.bvid@
    &&& m.upper_id == v.upper_id
    &&& m.upper_name@ == v.upper_name@
    &&& m.aired == video_time(v, tt)
    &&& m.premiered == video_time(v, tt)
    &&& opt_texts(m.tags) == opt_texts(v.tags)
    &&& m.user_rating is None
    &&& m.mpaa is None
    &&& m.country is None
    &&& m.studio is None
    &&& m.director is None
    &&& m.credits is None
    &&& m.view_count is None
    &&& m.like_count is None
    &&& m.category == v.category
    &&& opt_view(m.tagline) == video_tagline(v)
    &&& opt_view(m.sorttitle) == Some(video_sorttitle(v))
    &&& m.uniqueid_override is None
    &&& opt_view(m.actors_info) == opt_view(v.actors)
    &&& opt_staff(m.staff_info) == opt_staff(v.staff_info)
    &&& m.cover_url@ == v.cover@
    &&& m.fanart_url is None
    &&& opt_view(m.upper_face_url) == video_face(v)
}

/// The running time in minutes of a list of pages: the sum of their seconds
/// divided by sixty, as a 32-bit integer; none for no pages.
pub open spec fn pages_minutes(pages: Seq<PageModel>) -> Option<i32> {
    if pages.len() == 0 {
        None
    } else {
        Some((pages_seconds(pages) / 60) as i32)
    }
}

/// The sum of the durations of a list of pages, in seconds.
pub open spec fn pages_seconds(pages: Seq<PageModel>) -> nat
    decreases pages.len(),
{
    if pages.len() == 0 {
        0
    } else {
        pages_seconds(pages.drop_last()) + pages.last().duration as nat
    }
}

fn copy_opt_string(o: &Option<String>) -> (r: Option<String>)
    ensures
        opt_view(r) == opt_view(*o),
{
    match o {
        Some(s) => Some(s.clone()),
        None => None,
    }
}

fn copy_strings(v: &Vec<String>) -> (r: Vec<String>)
    ensures
        texts(r@) == texts(v@),
{
    let mut out: Vec<String> = Vec::new();
    let mut i: usize = 0;
    while i < v.len()
        invariant
            i <= v@.len(),
            texts(out@) == texts(v@.take(i as int)),
        decreases v@.len() - i,
    {
        let ghost before = out@;
        let x = v[i].clone();
        out.push(x);
        assert(texts(out@) =~= texts(before).push(v@[i as int]@));
        assert(texts(v@.take(i + 1)) =~= texts(v@.take(i as int)).push(v@[i as int]@));
        i = i + 1;
    }
    assert(v@.take(v@.len() as int) =~= v@);
    out
}

fn copy_opt_strings(o: &Option<Vec<String>>) -> (r: Option<Vec<String>>)
    ensures
        opt_texts(r) == opt_texts(*o),
{
    match o {
        Some(v) => Some(copy_strings(v)),
        None => None,
    }
}

fn copy_staff(v: &Vec<StaffEntry>) -> (r: Vec<StaffEntry>)
    ensures
        staff_views(r@) == staff_views(v@),
{
    let mut out: Vec<StaffEntry> = Vec::new();
    let mut i: usize = 0;
    while i < v.len()
        invariant
            i <= v@.len(),
            staff_views(out@) == staff_views(v@.take(i as int)),
        decreases v@.len() - i,
    {
        let e = &v[i];
        let c = StaffEntry {
            mid: e.mid,
            name: copy_opt_string(&e.name),
            title: copy_opt_string(&e.title),
            face: copy_opt_string(&e.face),
        };
        assert(c@ == e@);
        let ghost before = out@;
        out.push(c);
        assert(staff_views(out@) =~= staff_views(before).push(v@[i as int]@));
        assert(staff_views(v@.take(i + 1)) =~= staff_views(v@.take(i as int)).push(v@[i as int]@));
        i = i + 1;
    }
    assert(v@.take(v@.len() as int) =~= v@);
    out
}

fn copy_opt_staff(o: &Option<Vec<StaffEntry>>) -> (r: Option<Vec<StaffEntry>>)
    ensures
        opt_staff(r) == opt_staff(*o),
{
    match o {
        Some(v) => Some(copy_staff(v)),
        None => None,
    }
}

fn nfo_title_of(v: &VideoModel) -> (r: String)
    ensures
        r@ == video_nfo_title(*v),
{
    if v.show_season_type == Some(2i32) {
        match &v.share_copy {
            Some(s) => s.clone(),
            None => v.name.clone(),
        }
    } else {
        v.name.clone()
    }
}

fn time_of(v: &VideoModel, tt: NFOTimeType) -> (r: DateTime)
    ensures
        r == video_time(*v, tt),
{
    match tt {
        NFOTimeType::FavTime => v.favtime,
        NFOTimeType::PubTime => v.pubtime,
    }
}

fn tagline_of(v: &VideoModel) -> (r: Option<String>)
    ensures
        opt_view(r) == video_tagline(*v),
{
    if v.show_season_type == Some(2i32) {
        match &v.share_copy {
            Some(sc) => extract_subtitle_from_share_copy(sc.as_str()),
            None => None,
        }
    } else {
        None
    }
}

fn sorttitle_of(v: &VideoModel) -> (r: String)
    ensures
        r@ == video_sorttitle(*v),
{
    let t = nfo_title_of(v);
    if is_bangumi_video(v.category) {
        match extract_bangumi_title_from_full_name(t.as_str()) {
            Some(b) => b,
            None => {
                proof {
                    reveal_strlit("《");
                    reveal_strlit("》");
                    reveal_strlit("");
                    assert(""@ =~= Seq::<char>::empty());
                }
                let c = crate::text::chars_of(t.as_str());
                let a = crate::text::replace_str(c.as_slice(), "《", "");
                let b = crate::text::replace_str(a.as_slice(), "》", "");
                let w = crate::text::words_of(b.as_slice());
                if w.len() > 0 {
                    string_of(w[0].as_slice())
                } else {
                    t
                }
            },
        }
    } else {
        t
    }
}

fn face_of(v: &VideoModel) -> (r: Option<String>)
    ensures
        opt_view(r) == video_face(*v),
{
    if !v.upper_face.as_str().is_empty() {
        Some(v.upper_face.clone())
    } else {
        None
    }
}

fn minutes_of(pages: &Vec<PageModel>) -> (r: Option<i32>)
    requires
        pages_seconds(pages@) <= u64::MAX,
    ensures
        r == pages_minutes(pages@),
{
    if pages.len() == 0 {
        return None;
    }
    let mut total: u64 = 0;
    let mut i: usize = 0;
    while i < pages.len()
        invariant
            i <= pages@.len(),
            pages_seconds(pages@) <= u64::MAX,
            total as nat == pages_seconds(pages@.take(i as int)),
        decreases pages@.len() - i,
    {
        proof {
            assert(pages@.take(i + 1).drop_last() =~= pages@.take(i as int));
            lemma_pages_seconds_prefix(pages@, i + 1);
        }
        total = total + pages[i].duration as u64;
        i = i + 1;
    }
    assert(pages@.take(pages@.len() as int) =~= pages@);
    Some((total / 60) as i32)
}

proof fn lemma_pages_seconds_prefix(pages: Seq<PageModel>, n: int)
    requires
        0 <= n <= pages.len(),
    ensures
        pages_seconds(pages.take(n)) <= pages_seconds(pages),
    decreases pages.len(),
{
    if n < pages.len() {
        assert(pages.drop_last().take(n) =~= pages.take(n));
        lemma_pages_seconds_prefix(pages.drop_last(), n);
    } else {
        assert(pages.take(n) =~= pages);
    }
}

impl Movie {
    /// The film of a stored video, dated by the configured time: titled by its
    /// share text when it is a film-type bangumi, with the tagline, sort title,
    /// cast, staff and uploader picture the record gives.
    pub fn from_video(video: &VideoModel, time_type: NFOTimeType) -> (r: Movie)
        ensures
            movie_of_video(r, *video, time_type),
            r.duration is None,
    {
        let aired = time_of(video, time_type);
        Movie {
            name: nfo_title_of(video),
            original_title: video.name.clone(),
            intro: video.intro.clone(),
            bvid: video.bvid.clone(),
            upper_id: video.upper_id,
            upper_name: video.upper_name.clone(),
            aired,
            premiered: aired,
            tags: copy_opt_strings(&video.tags),
            user_rating: None,
            mpaa: None,
            country: None,
            studio: None,
            director: None,
            credits: None,
            duration: None,
            view_count: None,
            like_count: None,
            category: video.category,
            tagline: tagline_of(video),
            sorttitle: Some(sorttitle_of(video)),
            uniqueid_override: None,
            actors_info: copy_opt_string(&video.actors),
            staff_info: copy_opt_staff(&video.staff_info),
            cover_url: video.cover.clone(),
            fanart_url: None,
            upper_face_url: face_of(video),
        }
    }

    /// The film of a stored video with its running time: the pages' total
    /// seconds divided by sixty (none without pages).
    pub fn from_video_with_pages(video: &VideoModel, pages: &Vec<PageModel>, time_type: NFOTimeType) -> (r: Movie)
        requires
            pages_seconds(pages@) <= u64::MAX,
        ensures
            movie_of_video(r, *video, time_type),
            r.duration == pages_minutes(pages@),
    {
        let mut m = Movie::from_video(video, time_type);
        m.duration = minutes_of(pages);
        m
    }
}

impl Upper {
    /// The person document of a video's uploader, dated by the publish time.
    pub fn from_video(video: &VideoModel) -> (r: Upper)
        ensures
            r.upper_id@ == int_text(video.upper_id as int),
            r.upper_name@ == video.upper_name@,
            r.pubtime == video.pubtime,
    {
        Upper {
            upper_id: int_to_string(video.upper_id),
            upper_name: video.upper_name.clone(),
            pubtime: video.pubtime,
        }
    }
}

/// Season information of a bangumi, as the API reports it.
#[derive(Clone, Debug)]
pub struct SeasonInfo {
    pub title: String,
    pub alias: Option<String>,
    pub evaluate: Option<String>,
    /// The score as written (its decimal text).
    pub rating: Option<String>,
    pub areas: Vec<String>,
    pub actors: Option<String>,
    pub styles: Vec<String>,
    pub total_episodes: Option<i32>,
    pub status: Option<String>,
    pub cover: Option<String>,
    pub horizontal_cover_1610: Option<String>,
    pub horizontal_cover_169: Option<String>,
    pub media_id: Option<i64>,
    pub season_id: String,
    /// The publish time, when the API gives one that can be read.
    pub publish_time: Option<DateTime>,
    pub total_views: Option<i64>,
    pub total_favorites: Option<i64>,
}

/// The total seasons of a video's show: for a bangumi video its positive
/// stored season number, else the season its name gives; 1 otherwise.
pub open spec fn video_total_seasons(v: VideoModel) -> i32 {
    if is_bangumi_category(v.category) {
        match v.season_number {
            Some(n) => if n > 0 {
                n
            } else {
                total_seasons_of(v.name@)
            },
            None => total_seasons_of(v.name@),
        }
    } else {
        1
    }
}

/// `t` is the show of the stored video `v` (dated by `tt`), but for its running time.
pub open spec fn tvshow_of_video(t: TVShow, v: VideoModel, tt: NFOTimeType) -> bool {
    &&& t.name@ == video_nfo_title(v)
    &&& t.original_title@ == v.name@
    &&& t.intro@ == v.intro@
    &&& t.bvid@ == v.bvid@
    &&& t.upper_id == v.upper_id
    &&& t.upper_name@ == v.upper_name@
    &&& t.aired == video_time(v, tt)
    &&& t.premiered == video_time(v, tt)
    &&& opt_texts(t.tags) == opt_texts(v.tags)
    &&& t.user_rating is None
    &&& t.mpaa is None
    &&& t.country is None
    &&& t.studio is None
    &&& opt_view(t.status) == Some("Continuing"@)
    &&& t.total_seasons == Some(video_total_seasons(v))
    &&& t.total_episodes is None
    &&& t.view_count is None
    &&& t.like_count is None
    &&& t.category == v.category
    &&& opt_view(t.tagline) == video_tagline(v)
    &&& opt_view(t.sorttitle) == Some(video_sorttitle(v))
    &&& opt_view(t.actors_info) == opt_view(v.actors)
    &&& opt_staff(t.staff_info) == opt_staff(v.staff_info)
    &&& t.cover_url@ == v.cover@
    &&& t.fanart_url is None
    &&& opt_view(t.upper_face_url) == video_face(v)
    &&& t.season_id is None
    &&& t.media_id is None
    &&& t.plot_link_override is None
    &&& t.uniqueid_override is None
}

/// The date of a season's documents: its publish time when there is one, else
/// the video's configured time.
pub open spec fn season_info_time(v: VideoModel, info: SeasonInfo, tt: NFOTimeType) -> DateTime {
    match info.publish_time {
        Some(p) => p,
        None => video_time(v, tt),
    }
}

/// The genres of a season: its styles when there are any, else the video's tags.
pub open spec fn season_info_genres(v: VideoModel, info: SeasonInfo) -> Option<Seq<Seq<char>>> {
    if info.styles@.len() > 0 {
        Some(texts(info.styles@))
    } else {
        opt_texts(v.tags)
    }
}

/// The cover of a season: its cover, else the 16:9 cover, else the 16:10
/// cover, else the video's cover.
pub open spec fn season_info_cover(v: VideoModel, info: SeasonInfo) -> Seq<char> {
    match info.cover {
        Some(c) => c@,
        None => match info.horizontal_cover_169 {
            Some(c) => c@,
            None => match info.horizontal_cover_1610 {
                Some(c) => c@,
                None => v.cover@,
            },
        },
    }
}

/// The background picture of a season: its non-empty cover.
pub open spec fn season_info_fanart(info: SeasonInfo) -> Option<Seq<char>> {
    match info.cover {
        Some(c) => if c@.len() > 0 {
            Some(c@)
        } else {
            None
        },
        None => None,
    }
}

/// The first area of a season, as its country.
pub open spec fn season_info_country(info: SeasonInfo) -> Option<Seq<char>> {
    if info.areas@.len() > 0 {
        Some(info.areas@[0]@)
    } else {
        None
    }
}

fn season_time_of(v: &VideoModel, info: &SeasonInfo, tt: NFOTimeType) -> (r: DateTime)
    ensures
        r == season_info_time(*v, *info, tt),
{
    match info.publish_time {
        Some(p) => p,
        None => time_of(v, tt),
    }
}

fn season_genres_of(v: &VideoModel, info: &SeasonInfo) -> (r: Option<Vec<String>>)
    ensures
        opt_texts(r) == season_info_genres(*v, *info),
{
    if info.styles.len() > 0 {
        Some(copy_strings(&info.styles))
    } else {
        copy_opt_strings(&v.tags)
    }
}

fn season_cover_of(v: &VideoModel, info: &SeasonInfo) -> (r: String)
    ensures
        r@ == season_info_cover(*v, *info),
{
    match &info.cover {
        Some(c) => c.clone(),
        None => match &info.horizontal_cover_169 {
            Some(c) => c.clone(),
            None => match &info.horizontal_cover_1610 {
                Some(c) => c.clone(),
                None => v.cover.clone(),
            },
        },
    }
}

fn season_fanart_of(info: &SeasonInfo) -> (r: Option<String>)
    ensures
        opt_view(r) == season_info_fanart(*info),
{
    match &info.cover {
        Some(c) => {
            if !c.as_str().is_empty() {
                Some(c.clone())
            } else {
                None
            }
        },
        None => None,
    }
}

fn season_country_of(info: &SeasonInfo) -> (r: Option<String>)
    ensures
        opt_view(r) == season_info_country(*info),
{
    if info.areas.len() > 0 {
        Some(info.areas[0].clone())
    } else {
        None
    }
}

fn total_seasons_for(v: &VideoModel) -> (r: i32)
    ensures
        r == video_total_seasons(*v),
{
    if is_bangumi_video(v.category) {
        match v.season_number {
            Some(n) => {
                if n > 0 {
                    n
                } else {
                    calculate_total_seasons_from_title(v.name.as_str())
                }
            },
            None => calculate_total_seasons_from_title(v.name.as_str()),
        }
    } else {
        1
    }
}

impl TVShow {
    /// The show of a stored video, dated by the configured time, still
    /// continuing, with its estimated total seasons.
    pub fn from_video(video: &VideoModel, time_type: NFOTimeType) -> (r: TVShow)
        ensures
            tvshow_of_video(r, *video, time_type),
            r.duration is None,
    {
        let aired = time_of(video, time_type);
        TVShow {
            name: nfo_title_of(video),
            original_title: video.name.clone(),
            intro: video.intro.clone(),
            bvid: video.bvid.clone(),
            upper_id: video.upper_id,
            upper_name: video.upper_name.clone(),
            aired,
            premiered: aired,
            tags: copy_opt_strings(&video.tags),
            user_rating: None,
            mpaa: None,
            country: None,
            studio: None,
            status: Some("Continuing".to_owned()),
            total_seasons: Some(total_seasons_for(video)),
            total_episodes: None,
            duration: None,
            view_count: None,
            like_count: None,
            category: video.category,
            tagline: tagline_of(video),
            sorttitle: Some(sorttitle_of(video)),
            actors_info: copy_opt_string(&video.actors),
            staff_info: copy_opt_staff(&video.staff_info),
            cover_url: video.cover.clone(),
            fanart_url: None,
            upper_face_url: face_of(video),
            season_id: None,
            media_id: None,
            plot_link_override: None,
            uniqueid_override: None,
        }
    }

    /// The show of a stored video with its running time (the pages' total
    /// seconds divided by sixty) and no total episode count.
    pub fn from_video_with_pages(video: &VideoModel, pages: &Vec<PageModel>, time_type: NFOTimeType) -> (r: TVShow)
        requires
            pages_seconds(pages@) <= u64::MAX,
        ensures
            tvshow_of_video(r, *video, time_type),
            r.duration == pages_minutes(pages@),
    {
        let mut t = TVShow::from_video(video, time_type);
        t.duration = minutes_of(pages);
        t.total_episodes = None;
        t
    }

    /// The show of a collection (or an uploader's submissions): named and
    /// covered by the collection when given, its plot the trimmed uploader
    /// introduction, without tags or tagline, with at least one season and
    /// episode counts of at least one.
    pub fn from_video_with_collection(
        video: &VideoModel,
        collection_name: Option<&str>,
        collection_cover: Option<&str>,
        upper_intro: Option<&str>,
        season_number: i32,
        total_seasons: Option<i32>,
        total_episodes: Option<i32>,
        time_type: NFOTimeType,
    ) -> (r: TVShow)
        ensures
            r.name@ == (match collection_name {
                Some(n) => n@,
                None => video_nfo_title(*video),
            }),
            r.original_title@ == (match collection_name {
                Some(n) => n@,
                None => video.name@,
            }),
            opt_view(r.sorttitle) == (match collection_name {
                Some(n) => Some(n@),
                None => Some(video_sorttitle(*video)),
            }),
            r.cover_url@ == (match collection_cover {
                Some(c) => c@,
                None => video.cover@,
            }),
            opt_view(r.fanart_url) == (match collection_cover {
                Some(c) => Some(c@),
                None => None,
            }),
            r.intro@ == trim(
                match upper_intro {
                    Some(i) => i@,
                    None => seq![],
                },
            ),
            r.tags is None,
            r.tagline is None,
            r.total_seasons == Some(
                at_least_one(
                    match total_seasons {
                        Some(n) => n,
                        None => at_least_one(season_number),
                    },
                ),
            ),
            r.total_episodes == (match total_episodes {
                Some(n) => Some(at_least_one(n)),
                None => None,
            }),
            r.bvid@ == video.bvid@,
            r.upper_id == video.upper_id,
            r.upper_name@ == video.upper_name@,
            r.aired == video_time(*video, time_type),
            r.premiered == video_time(*video, time_type),
            opt_view(r.status) == Some("Continuing"@),
            r.category == video.category,
            opt_view(r.actors_info) == opt_view(video.actors),
            opt_staff(r.staff_info) == opt_staff(video.staff_info),
            opt_view(r.upper_face_url) == video_face(*video),
            r.user_rating is None && r.mpaa is None && r.country is None && r.studio is None,
            r.duration is None && r.view_count is None && r.like_count is None,
            r.season_id is None && r.media_id is None,
            r.plot_link_override is None && r.uniqueid_override is None,
    {
        let mut t = TVShow::from_video(video, time_type);
        let safe_season = if season_number >= 1 {
            season_number
        } else {
            1
        };
        match collection_name {
            Some(n) => {
                t.name = n.to_owned();
                t.original_title = n.to_owned();
                t.sorttitle = Some(n.to_owned());
            },
            None => {},
        }
        match collection_cover {
            Some(c) => {
                t.cover_url = c.to_owned();
                t.fanart_url = Some(c.to_owned());
            },
            None => {},
        }
        let intro = match upper_intro {
            Some(i) => crate::text::trim_str(i),
            None => {
                let e: Vec<char> = Vec::new();
                proof {
                    assert(trim(e@) =~= e@) by {
                        assert(e@.len() == 0);
                        reveal_with_fuel(crate::text::trim_start, 1);
                        reveal_with_fuel(crate::text::trim_end, 1);
                    }
                }
                e
            },
        };
        t.intro = string_of(intro.as_slice());
        t.tags = None;
        t.tagline = None;
        let ts = match total_seasons {
            Some(n) => n,
            None => safe_season,
        };
        t.total_seasons = Some(
            if ts >= 1 {
                ts
            } else {
                1
            },
        );
        t.total_episodes = match total_episodes {
            Some(n) => Some(
                if n >= 1 {
                    n
                } else {
                    1
                },
            ),
            None => None,
        };
        t
    }

    /// The show of a bangumi season as the API reports it.
    pub fn from_season_info(video: &VideoModel, season_info: &SeasonInfo, time_type: NFOTimeType) -> (r: TVShow)
        ensures
            r.name@ == season_info.title@,
            r.original_title@ == text_or(season_info.alias, season_info.title@),
            r.intro@ == text_or(season_info.evaluate, video.intro@),
            r.bvid@ == video.bvid@,
            r.upper_id == video.upper_id,
            r.upper_name@ == video.upper_name@,
            r.aired == season_info_time(*video, *season_info, time_type),
            r.premiered == season_info_time(*video, *season_info, time_type),
            opt_texts(r.tags) == season_info_genres(*video, *season_info),
            opt_view(r.user_rating) == opt_view(season_info.rating),
            r.mpaa is None,
            opt_view(r.country) == season_info_country(*season_info),
            r.studio is None,
            opt_view(r.status) == opt_view(season_info.status),
            r.total_seasons is None,
            r.total_episodes == season_info.total_episodes,
            r.duration is None,
            r.view_count == season_info.total_views,
            r.like_count == season_info.total_favorites,
            r.category == video.category,
            opt_view(r.tagline) == opt_view(season_info.alias),
            opt_view(r.sorttitle) == Some(season_info.title@),
            opt_view(r.actors_info) == opt_view(season_info.actors),
            opt_staff(r.staff_info) == opt_staff(video.staff_info),
            r.cover_url@ == season_info_cover(*video, *season_info),
            opt_view(r.fanart_url) == season_info_fanart(*season_info),
            opt_view(r.upper_face_url) == video_face(*video),
            opt_view(r.season_id) == Some(season_info.season_id@),
            r.media_id == season_info.media_id,
            r.plot_link_override is None,
            r.uniqueid_override is None,
    {
        let aired = season_time_of(video, season_info, time_type);
        TVShow {
            name: season_info.title.clone(),
            original_title: match &season_info.alias {
                Some(a) => a.clone(),
                None => season_info.title.clone(),
            },
            intro: match &season_info.evaluate {
                Some(e) => e.clone(),
                None => video.intro.clone(),
            },
            bvid: video.bvid.clone(),
            upper_id: video.upper_id,
            upper_name: video.upper_name.clone(),
            aired,
            premiered: aired,
            tags: season_genres_of(video, season_info),
            user_rating: copy_opt_string(&season_info.rating),
            mpaa: None,
            country: season_country_of(season_info),
            studio: None,
            status: copy_opt_string(&season_info.status),
            total_seasons: None,
            total_episodes: season_info.total_episodes,
            duration: None,
            view_count: season_info.total_views,
            like_count: season_info.total_favorites,
            category: video.category,
            tagline: copy_opt_string(&season_info.alias),
            sorttitle: Some(season_info.title.clone()),
            actors_info: copy_opt_string(&season_info.actors),
            staff_info: copy_opt_staff(&video.staff_info),
            cover_url: season_cover_of(video, season_info),
            fanart_url: season_fanart_of(season_info),
            upper_face_url: face_of(video),
            season_id: Some(season_info.season_id.clone()),
            media_id: season_info.media_id,
            plot_link_override: None,
            uniqueid_override: None,
        }
    }
}

// ---------------------------------------------------------------------------
// Episodes and seasons of stored records
// ---------------------------------------------------------------------------

/// A page's running time in minutes: its seconds taken as a 32-bit integer
/// (wrapping past the largest) and divided by sixty toward zero.
pub open spec fn page_minutes(seconds: u32) -> i32 {
    if seconds <= 0x7fff_ffff {
        (seconds / 60) as i32
    } else {
        (-((0x1_0000_0000 - seconds) / 60)) as i32
    }
}

fn page_minutes_of(seconds: u32) -> (r: i32)
    ensures
        r == page_minutes(seconds),
{
    if seconds <= 0x7fff_ffff {
        (seconds / 60) as i32
    } else {
        let back: u64 = 0x1_0000_0000u64 - seconds as u64;
        let q: u64 = back / 60;
        assert(q <= 0x7fff_ffff);
        -(q as i32)
    }
}

/// (title, original title) of a page's episode: the page name for a bangumi
/// video; the video name when the page name is blank or the same; else
/// "video - page" and the video name.
pub open spec fn episode_titles(v: VideoModel, p: PageModel) -> (Seq<char>, Seq<char>) {
    let pn = trim(p.name@);
    let vn = trim(v.name@);
    if v.category == 1 {
        (p.name@, p.name@)
    } else if pn.len() == 0 || pn == vn {
        (v.name@, v.name@)
    } else {
        (vn + " - "@ + pn, v.name@)
    }
}

/// The season of a page's episode: with the season structure, for a real
/// bangumi the season its name gives; else the stored season number, or 1.
pub open spec fn episode_season(v: VideoModel, season_structure: bool) -> i32 {
    if v.source_type == Some(1i32) && season_structure {
        series_name_and_season(v.name@).1 as i32
    } else {
        match v.season_number {
            Some(n) => n,
            None => 1,
        }
    }
}

/// With the season structure, an episode of a bangumi whose name ends in
/// "第N季" (N a Chinese digit from 一 to 九, or decimal digits) belongs to
/// season N, whatever season number is stored.
pub proof fn lemma_bangumi_episode_season_from_name(v: VideoModel, base: Seq<char>, numeral: Seq<char>, n: int)
    requires
        v.source_type == Some(1i32),
        v.name@ == base + seq!['第'] + numeral + seq!['季'],
        forall|k: int| 0 <= k < base.len() ==> base[k] != '第',
        base.len() > 0 ==> !crate::text::is_white_space(base[0]),
        ({
            ||| (1 <= n <= 9 && numeral == seq![crate::bangumi_name::chinese_digits_one_to_nine()[n - 1]])
            ||| (numeral.len() > 0 && (forall|k: int| 0 <= k < numeral.len() ==> '0' <= #[trigger] numeral[k] <= '9')
                && crate::text::digits_value(numeral) == n && 1 <= n <= i32::MAX)
        }),
    ensures
        episode_season(v, true) == n,
{
    crate::bangumi_name::lemma_trailing_season_marker(base, numeral, n);
}

impl Episode {
    /// The episode of a page without its video: the first season, numbered by
    /// the page number, with the placeholder BV id.
    pub fn from_page(page: &PageModel) -> (r: Episode)
        ensures
            r.name@ == page.name@,
            r.original_title@ == page.name@,
            r.pid@ == int_text(page.pid as int),
            r.plot is None,
            r.season == 1,
            r.episode_number == page.pid,
            r.aired is None,
            r.duration == Some(page_minutes(page.duration)),
            r.user_rating is None && r.director is None && r.credits is None,
            r.bvid@ == "BV0000000000"@,
            r.category == 0,
            r.mpaa is None && r.country is None && r.studio is None && r.genres is None,
            r.upper_id == 0,
            r.upper_name@ == ""@,
            r.actors_info is None && r.staff_info is None,
            r.thumb_url is None && r.fanart_url is None && r.upper_face_url is None,
    {
        Episode {
            name: page.name.clone(),
            original_title: page.name.clone(),
            pid: int_to_string(page.pid as i64),
            plot: None,
            season: 1,
            episode_number: page.pid,
            aired: None,
            duration: Some(page_minutes_of(page.duration)),
            user_rating: None,
            director: None,
            credits: None,
            bvid: "BV0000000000".to_owned(),
            category: 0,
            mpaa: None,
            country: None,
            studio: None,
            genres: None,
            upper_id: 0,
            upper_name: "".to_owned(),
            actors_info: None,
            staff_info: None,
            thumb_url: None,
            fanart_url: None,
            upper_face_url: None,
        }
    }

    /// The episode of a page of a stored video, dated by the configured time.
    /// A real bangumi episode carries no plot (the video introduction belongs
    /// to the season).
    pub fn from_video_and_page(
        video: &VideoModel,
        page: &PageModel,
        time_type: NFOTimeType,
        bangumi_use_season_structure: bool,
    ) -> (r: Episode)
        ensures
            (r.name@, r.original_title@) == episode_titles(*video, *page),
            r.pid@ == int_text(page.pid as int),
            opt_view(r.plot) == (if video.source_type == Some(1i32) {
                None
            } else {
                Some(video.intro@)
            }),
            r.season == episode_season(*video, bangumi_use_season_structure),
            r.episode_number == (match video.episode_number {
                Some(n) => n,
                None => page.pid,
            }),
            r.aired == Some(video_time(*video, time_type)),
            r.duration == Some(page_minutes(page.duration)),
            r.user_rating is None && r.director is None && r.credits is None,
            r.bvid@ == video.bvid@,
            r.category == video.category,
            r.mpaa is None && r.country is None && r.studio is None,
            opt_texts(r.genres) == opt_texts(video.tags),
            r.upper_id == video.upper_id,
            r.upper_name@ == video.upper_name@,
            opt_view(r.actors_info) == opt_view(video.actors),
            opt_staff(r.staff_info) == opt_staff(video.staff_info),
            r.thumb_url is None && r.fanart_url is None,
            opt_view(r.upper_face_url) == video_face(*video),
    {
        let is_bangumi = video.source_type == Some(1i32);
        let season: i32 = if is_bangumi && bangumi_use_season_structure {
            let (_, n) = extract_series_name_and_season(video.name.as_str());
            n as i32
        } else {
            match video.season_number {
                Some(n) => n,
                None => 1,
            }
        };
        let page_name = crate::text::trim_str(page.name.as_str());
        let video_name = crate::text::trim_str(video.name.as_str());
        let (title, original): (String, String) = if video.category == 1 {
            (page.name.clone(), page.name.clone())
        } else if page_name.len() == 0 || crate::text::chars_eq(
            page_name.as_slice(),
            video_name.as_slice(),
        ) {
            (video.name.clone(), video.name.clone())
        } else {
            let mut v: Vec<char> = Vec::new();
            crate::text::push_all(&mut v, video_name.as_slice());
            crate::text::push_str(&mut v, " - ");
            crate::text::push_all(&mut v, page_name.as_slice());
            (string_of(v.as_slice()), video.name.clone())
        };
        Episode {
            name: title,
            original_title: original,
            pid: int_to_string(page.pid as i64),
            plot: if !is_bangumi {
                Some(video.intro.clone())
            } else {
                None
            },
            season,
            episode_number: match video.episode_number {
                Some(n) => n,
                None => page.pid,
            },
            aired: Some(time_of(video, time_type)),
            duration: Some(page_minutes_of(page.duration)),
            user_rating: None,
            director: None,
            credits: None,
            bvid: video.bvid.clone(),
            category: video.category,
            mpaa: None,
            country: None,
            studio: None,
            genres: copy_opt_strings(&video.tags),
            upper_id: video.upper_id,
            upper_name: video.upper_name.clone(),
            actors_info: copy_opt_string(&video.actors),
            staff_info: copy_opt_staff(&video.staff_info),
            thumb_url: None,
            fanart_url: None,
            upper_face_url: face_of(video),
        }
    }
}

/// `s` is the season of the stored video `v` (dated by `tt`).
pub open spec fn season_of_video(s: Season, v: VideoModel, tt: NFOTimeType) -> bool {
    &&& s.name@ == video_nfo_title(v)
    &&& s.original_title@ == v.name@
    &&& s.intro@ == v.intro@
    &&& s.season_number == (match v.season_number {
        Some(n) => n,
        None => 1,
    })
    &&& s.bvid@ == v.bvid@
    &&& s.upper_id == v.upper_id
    &&& s.upper_name@ == v.upper_name@
    &&& s.aired == video_time(v, tt)
    &&& s.premiered == video_time(v, tt)
    &&& opt_texts(s.tags) == opt_texts(v.tags)
    &&& s.user_rating is None
    &&& s.mpaa is None
    &&& s.country is None
    &&& s.studio is None
    &&& opt_view(s.status) == Some("Continuing"@)
    &&& s.total_episodes is None
    &&& s.duration is None
    &&& s.view_count is None
    &&& s.like_count is None
    &&& s.category == v.category
    &&& s.source_type == v.source_type
    &&& opt_view(s.tagline) == video_tagline(v)
    &&& opt_view(s.set) == (if is_bangumi_category(v.category) {
        bangumi_title_of(video_nfo_title(v))
    } else {
        None
    })
    &&& opt_view(s.sorttitle) == Some(video_sorttitle(v))
    &&& opt_view(s.actors_info) == opt_view(v.actors)
    &&& opt_staff(s.staff_info) == opt_staff(v.staff_info)
    &&& s.cover_url@ == v.cover@
    &&& s.fanart_url is None
    &&& opt_view(s.upper_face_url) == video_face(v)
    &&& s.season_id is None
    &&& s.media_id is None
    &&& s.plot_link_override is None
    &&& s.uniqueid_override is None
    &&& !s.suppress_season_label_in_title
}

/// `s` with every leading copy of `p` removed (`str::trim_start_matches`).
pub open spec fn strip_prefixes(s: Seq<char>, p: Seq<char>) -> Seq<char>
    decreases s.len(),
{
    if p.len() > 0 && starts_with(s, p) && p.len() <= s.len() {
        strip_prefixes(s.skip(p.len() as int), p)
    } else {
        s
    }
}

/// The name of a collection's season: without its "合集·" prefixes, trimmed;
/// the name itself when nothing is left.
pub open spec fn collection_season_name(name: Seq<char>) -> Seq<char> {
    let t = trim(strip_prefixes(name, "合集·"@));
    if t.len() == 0 {
        name
    } else {
        t
    }
}

fn strip_prefixes_of(s: &[char], p: &[char]) -> (r: Vec<char>)
    requires
        p@.len() > 0,
    ensures
        r@ == strip_prefixes(s@, p@),
{
    let mut i: usize = 0;
    assert(s@.skip(0) =~= s@);
    while p.len() <= s.len() - i && crate::text::matches_at(s, p, i)
        invariant
            p@.len() > 0,
            i <= s@.len(),
            strip_prefixes(s@, p@) == strip_prefixes(s@.skip(i as int), p@),
        decreases s@.len() - i,
    {
        proof {
            assert(s@.skip(i as int).skip(p@.len() as int) =~= s@.skip(i + p@.len()));
        }
        i = i + p.len();
    }
    proof {
        if i + p@.len() <= s@.len() {
            assert(!starts_with(s@.skip(i as int), p@));
        }
    }
    crate::text::slice_chars(s, i, s.len())
}

impl Season {
    /// The season of a stored video, dated by the configured time; a bangumi
    /// video's set is its bangumi title.
    pub fn from_video(video: &VideoModel, time_type: NFOTimeType) -> (r: Season)
        ensures
            season_of_video(r, *video, time_type),
    {
        let aired = time_of(video, time_type);
        let title = nfo_title_of(video);
        let set = if is_bangumi_video(video.category) {
            extract_bangumi_title_from_full_name(title.as_str())
        } else {
            None
        };
        Season {
            name: title,
            original_title: video.name.clone(),
            intro: video.intro.clone(),
            season_number: match video.season_number {
                Some(n) => n,
                None => 1,
            },
            bvid: video.bvid.clone(),
            upper_id: video.upper_id,
            upper_name: video.upper_name.clone(),
            aired,
            premiered: aired,
            tags: copy_opt_strings(&video.tags),
            user_rating: None,
            mpaa: None,
            country: None,
            studio: None,
            status: Some("Continuing".to_owned()),
            total_episodes: None,
            duration: None,
            view_count: None,
            like_count: None,
            category: video.category,
            source_type: video.source_type,
            tagline: tagline_of(video),
            set,
            sorttitle: Some(sorttitle_of(video)),
            actors_info: copy_opt_string(&video.actors),
            staff_info: copy_opt_staff(&video.staff_info),
            cover_url: video.cover.clone(),
            fanart_url: None,
            upper_face_url: face_of(video),
            season_id: None,
            media_id: None,
            plot_link_override: None,
            uniqueid_override: None,
            suppress_season_label_in_title: false,
        }
    }

    /// The season of a collection: named by the collection without its
    /// "合集·" prefix, sorted as "name 第NN季", its set the name; covered by the
    /// collection cover when given; season at least one; episode count at least one.
    pub fn from_video_with_collection(
        video: &VideoModel,
        collection_name: Option<&str>,
        collection_cover: Option<&str>,
        season_number: i32,
        season_total_episodes: Option<i32>,
        time_type: NFOTimeType,
    ) -> (r: Season)
        ensures
            r.name@ == (match collection_name {
                Some(n) => collection_season_name(n@),
                None => video_nfo_title(*video),
            }),
            r.original_title@ == (match collection_name {
                Some(n) => collection_season_name(n@),
                None => video.name@,
            }),
            opt_view(r.sorttitle) == (match collection_name {
                Some(n) => Some(
                    collection_season_name(n@) + " 第"@ + crate::text::pad2_text(
                        at_least_one(season_number) as int,
                    ) + "季"@,
                ),
                None => Some(video_sorttitle(*video)),
            }),
            opt_view(r.set) == (match collection_name {
                Some(n) => Some(collection_season_name(n@)),
                None => if is_bangumi_category(video.category) {
                    bangumi_title_of(video_nfo_title(*video))
                } else {
                    None
                },
            }),
            r.cover_url@ == (match collection_cover {
                Some(c) => c@,
                None => video.cover@,
            }),
            opt_view(r.fanart_url) == (match collection_cover {
                Some(c) => Some(c@),
                None => None,
            }),
            r.season_number == at_least_one(season_number),
            r.total_episodes == (match season_total_episodes {
                Some(n) => Some(at_least_one(n)),
                None => None,
            }),
            r.intro@ == video.intro@,
            r.bvid@ == video.bvid@,
            r.upper_id == video.upper_id,
            r.upper_name@ == video.upper_name@,
            r.aired == video_time(*video, time_type),
            r.premiered == video_time(*video, time_type),
            opt_texts(r.tags) == opt_texts(video.tags),
            opt_view(r.status) == Some("Continuing"@),
            r.category == video.category,
            r.source_type == video.source_type,
            opt_view(r.tagline) == video_tagline(*video),
            opt_view(r.actors_info) == opt_view(video.actors),
            opt_staff(r.staff_info) == opt_staff(video.staff_info),
            opt_view(r.upper_face_url) == video_face(*video),
            r.user_rating is None && r.mpaa is None && r.country is None && r.studio is None,
            r.duration is None && r.view_count is None && r.like_count is None,
            r.season_id is None && r.media_id is None,
            r.plot_link_override is None && r.uniqueid_override is None,
            !r.suppress_season_label_in_title,
    {
        let mut s = Season::from_video(video, time_type);
        let safe_season = if season_number >= 1 {
            season_number
        } else {
            1
        };
        match collection_name {
            Some(n) => {
                proof {
                    reveal_strlit("合集·");
                }
                let c = crate::text::chars_of(n);
                let prefix = crate::text::chars_of("合集·");
                let stripped = strip_prefixes_of(c.as_slice(), prefix.as_slice());
                let t = crate::text::trim_chars(stripped.as_slice());
                let normalized = if t.len() == 0 {
                    n.to_owned()
                } else {
                    string_of(t.as_slice())
                };
                let mut sort: Vec<char> = Vec::new();
                crate::text::push_str(&mut sort, normalized.as_str());
                crate::text::push_str(&mut sort, " 第");
                let nn = crate::text::pad2_to_string(safe_season as i64);
                crate::text::push_str(&mut sort, nn.as_str());
                crate::text::push_str(&mut sort, "季");
                s.name = normalized.clone();
                s.original_title = normalized.clone();
                s.sorttitle = Some(string_of(sort.as_slice()));
                s.set = Some(normalized);
            },
            None => {},
        }
        match collection_cover {
            Some(c) => {
                s.cover_url = c.to_owned();
                s.fanart_url = Some(c.to_owned());
            },
            None => {},
        }
        s.season_number = safe_season;
        s.total_episodes = match season_total_episodes {
            Some(n) => Some(
                if n >= 1 {
                    n
                } else {
                    1
                },
            ),
            None => None,
        };
        s
    }

    /// The season of a bangumi season as the API reports it; its set is the
    /// bangumi title of the season title for a bangumi video, else that title.
    pub fn from_season_info(video: &VideoModel, season_info: &SeasonInfo, time_type: NFOTimeType) -> (r: Season)
        ensures
            r.name@ == season_info.title@,
            r.original_title@ == text_or(season_info.alias, season_info.title@),
            r.intro@ == text_or(season_info.evaluate, video.intro@),
            r.season_number == (match video.season_number {
                Some(n) => n,
                None => 1,
            }),
            r.bvid@ == video.bvid@,
            r.upper_id == video.upper_id,
            r.upper_name@ == video.upper_name@,
            r.aired == season_info_time(*video, *season_info, time_type),
            r.premiered == season_info_time(*video, *season_info, time_type),
            opt_texts(r.tags) == season_info_genres(*video, *season_info),
            opt_view(r.user_rating) == opt_view(season_info.rating),
            r.mpaa is None,
            opt_view(r.country) == season_info_country(*season_info),
            r.studio is None,
            opt_view(r.status) == opt_view(season_info.status),
            r.total_episodes == season_info.total_episodes,
            r.duration is None,
            r.view_count == season_info.total_views,
            r.like_count == season_info.total_favorites,
            r.category == video.category,
            r.source_type == video.source_type,
            opt_view(r.tagline) == opt_view(season_info.alias),
            opt_view(r.set) == (if is_bangumi_category(video.category) {
                bangumi_title_of(season_info.title@)
            } else {
                Some(season_info.title@)
            }),
            opt_view(r.sorttitle) == Some(season_info.title@),
            opt_view(r.actors_info) == opt_view(season_info.actors),
            opt_staff(r.staff_info) == opt_staff(video.staff_info),
            r.cover_url@ == season_info_cover(*video, *season_info),
            opt_view(r.fanart_url) == season_info_fanart(*season_info),
            opt_view(r.upper_face_url) == video_face(*video),
            opt_view(r.season_id) == Some(season_info.season_id@),
            r.media_id == season_info.media_id,
            r.plot_link_override is None,
            r.uniqueid_override is None,
            !r.suppress_season_label_in_title,
    {
        let aired = season_time_of(video, season_info, time_type);
        Season {
            name: season_info.title.clone(),
            original_title: match &season_info.alias {
                Some(a) => a.clone(),
                None => season_info.title.clone(),
            },
            intro: match &season_info.evaluate {
                Some(e) => e.clone(),
                None => video.intro.clone(),
            },
            season_number: match video.season_number {
                Some(n) => n,
                None => 1,
            },
            bvid: video.bvid.clone(),
            upper_id: video.upper_id,
            upper_name: video.upper_name.clone(),
            aired,
            premiered: aired,
            tags: season_genres_of(video, season_info),
            user_rating: copy_opt_string(&season_info.rating),
            mpaa: None,
            country: season_country_of(season_info),
            studio: None,
            status: copy_opt_string(&season_info.status),
            total_episodes: season_info.total_episodes,
            duration: None,
            view_count: season_info.total_views,
            like_count: season_info.total_favorites,
            category: video.category,
            source_type: video.source_type,
            tagline: copy_opt_string(&season_info.alias),
            set: if is_bangumi_video(video.category) {
                extract_bangumi_title_from_full_name(season_info.title.as_str())
            } else {
                Some(season_info.title.clone())
            },
            sorttitle: Some(season_info.title.clone()),
            actors_info: copy_opt_string(&season_info.actors),
            staff_info: copy_opt_staff(&video.staff_info),
            cover_url: season_cover_of(video, season_info),
            fanart_url: season_fanart_of(season_info),
            upper_face_url: face_of(video),
            season_id: Some(season_info.season_id.clone()),
            media_id: season_info.media_id,
            plot_link_override: None,
            uniqueid_override: None,
            suppress_season_label_in_title: false,
        }
    }
}

/// Every character of a written document is allowed in XML.
pub proof fn lemma_document_chars_are_xml(events: Seq<XmlEv>)
    ensures
        forall|i: int|
            0 <= i < nfo_text_of(events).len() ==> is_xml_char(#[trigger] nfo_text_of(events)[i]),
{
    crate::nfo_text::lemma_sanitized_chars_are_xml(decode_utf8(nfo_bytes(events)));
}

impl NFO {
    /// Actor entry (name, role "UP主") of an uploader: the trimmed nickname, or
    /// by the configured strategy when it is blank.  The id is not used.
    pub fn get_actor_info(upper_id: i64, upper_name: &str, config: &NFOConfig) -> (r: Option<(String, String)>)
        ensures
            match r {
                Some(p) => upper_actor_of(
                    upper_name@,
                    config.empty_upper_strategy,
                    config.empty_upper_placeholder@,
                    config.empty_upper_default_name@,
                ) == Some((p.0@, p.1@)),
                None => upper_actor_of(
                    upper_name@,
                    config.empty_upper_strategy,
                    config.empty_upper_placeholder@,
                    config.empty_upper_default_name@,
                ) is None,
            },
    {
        upper_actor(
            upper_name,
            config.empty_upper_strategy,
            &config.empty_upper_placeholder,
            &config.empty_upper_default_name,
        )
    }
}

/// Pages of one real BV id get different identifiers: two episodes of the
/// same real BV id with different page numbers (neither empty nor "0") are
/// told apart.
pub proof fn lemma_episode_ids_distinct(a: Episode, b: Episode)
    requires
        a.bvid@ == b.bvid@,
        starts_with(a.bvid@, "BV"@),
        crate::text::utf8_len(a.bvid@) > 10,
        a.bvid@ != "BV0000000000"@,
        a.pid@.len() > 0 && a.pid@ != "0"@,
        b.pid@.len() > 0 && b.pid@ != "0"@,
        a.pid@ != b.pid@,
    ensures
        episode_unique_id(a) != episode_unique_id(b),
{
    let pa = a.bvid@ + "-p"@;
    assert(episode_unique_id(a) == pa + a.pid@);
    assert(episode_unique_id(b) == pa + b.pid@);
    if episode_unique_id(a) == episode_unique_id(b) {
        assert((pa + a.pid@).skip(pa.len() as int) =~= a.pid@);
        assert((pa + b.pid@).skip(pa.len() as int) =~= b.pid@);
    }
}

} // verus!
