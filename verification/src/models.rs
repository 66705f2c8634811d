//! The stored video and page records, as plain values.
use vstd::prelude::*;

verus! {

/// A calendar date and wall-clock time without time zone.
#[derive(Clone, Copy, Debug, PartialEq, Eq, Structural)]
pub struct DateTime {
    pub year: i32,
    pub month: u32,
    pub day: u32,
    pub hour: u32,
    pub minute: u32,
    pub second: u32,
}

impl DateTime {
    /// A date-time from its fields.
    pub fn new(year: i32, month: u32, day: u32, hour: u32, minute: u32, second: u32) -> (r: Self)
        ensures
            r == (DateTime { year, month, day, hour, minute, second }),
    {
        DateTime { year, month, day, hour, minute, second }
    }
}

/// One member of a jointly published video (an entry of the stored `staff_info` list).
#[derive(Clone, Debug)]
pub struct StaffEntry {
    pub mid: Option<i64>,
    pub name: Option<String>,
    pub title: Option<String>,
    pub face: Option<String>,
}

/// A staff member as values: (mid, name, title, face).
pub type StaffView = (Option<i64>, Option<Seq<char>>, Option<Seq<char>>, Option<Seq<char>>);

impl View for StaffEntry {
    type V = StaffView;

    open spec fn view(&self) -> StaffView {
        (
            self.mid,
            match self.name {
                Some(n) => Some(n@),
                None => None,
            },
            match self.title {
                Some(t) => Some(t@),
                None => None,
            },
            match self.face {
                Some(f) => Some(f@),
                None => None,
            },
        )
    }
}

/// The members of a staff list as values.
pub open spec fn staff_views(v: Seq<StaffEntry>) -> Seq<StaffView> {
    v.map_values(|e: StaffEntry| e@)
}

/// The stored record of a video, with the fields that naming and metadata read.
///
/// `tags` holds the stored tag list when it is a list of strings; `staff_info`
/// holds the stored member list (`Some` of an empty list when the stored value
/// is not a list).
#[derive(Clone, Debug)]
pub struct VideoModel {
    pub id: i32,
    pub collection_id: Option<i32>,
    pub source_type: Option<i32>,
    pub upper_id: i64,
    pub upper_name: String,
    pub upper_face: String,
    pub name: String,
    pub path: String,
    pub category: i32,
    pub bvid: String,
    pub intro: String,
    pub cover: String,
    pub pubtime: DateTime,
    pub favtime: DateTime,
    pub staff_info: Option<Vec<StaffEntry>>,
    pub tags: Option<Vec<String>>,
    pub single_page: Option<bool>,
    pub season_id: Option<String>,
    pub ep_id: Option<String>,
    pub season_number: Option<i32>,
    pub episode_number: Option<i32>,
    pub share_copy: Option<String>,
    pub show_season_type: Option<i32>,
    pub actors: Option<String>,
}

/// The stored record of one page (part) of a video.
#[derive(Clone, Debug)]
pub struct PageModel {
    pub id: i32,
    pub video_id: i32,
    pub cid: i64,
    pub pid: i32,
    pub name: String,
    pub width: Option<u32>,
    pub height: Option<u32>,
    pub duration: u32,
    pub path: Option<String>,
    pub image: Option<String>,
}

} // verus!
