//! Template arguments for naming videos and pages.
use vstd::prelude::*;
use crate::bangumi_name::{chinese_numeral, chinese_numeral_to_number, extract_series_name_and_season, series_name_and_season};
use crate::models::{DateTime, PageModel, VideoModel};
use crate::text::{
    chars_eq, chars_of, collapse_spaces, contains, contains_str, find, find_chars, int_text,
    int_to_chars, join, pad2_text, pad2_to_string, parse_i32, parse_i32_chars, push_all,
    replace, replace_str, slice_chars, string_of, trim, trim_chars, trim_str, utf8_len,
    utf8_len_at_most, words,
};
use crate::time_text::{format_at_offset, format_naive, naive_time_text, offset_time_text};

verus! {

/// UTC offset of Beijing time, in seconds.
pub const BEIJING_OFFSET_SECS: i32 = 28800;

// ---------------------------------------------------------------------------
// Title parsing
// ---------------------------------------------------------------------------

/// `t` without one leading underscore.
pub open spec fn strip_underscore(t: Seq<char>) -> Seq<char> {
    if t.len() > 0 && t[0] == '_' {
        t.drop_first()
    } else {
        t
    }
}

/// Season from a "第N季" marker: the text between the first "第" and the next "季",
/// read as a number in 1..=50 or else as a Chinese numeral.
pub open spec fn season_from_marker(t: Seq<char>) -> Option<i32> {
    match find(t, seq!['第']) {
        None => None,
        Some(p) => {
            let after = t.skip(p + 1);
            match find(after, seq!['季']) {
                None => None,
                Some(q) => {
                    let ss = after.take(q);
                    let arabic = parse_i32(ss);
                    if arabic is Some && 0 < arabic->0 <= 50 {
                        arabic
                    } else {
                        match chinese_numeral(ss) {
                            Some(n) => Some(n as i32),
                            None => None,
                        }
                    }
                },
            }
        },
    }
}

/// Number of leading ASCII digits of `s`.
pub open spec fn digit_prefix_len(s: Seq<char>) -> nat
    decreases s.len(),
{
    if s.len() > 0 && '0' <= s[0] <= '9' {
        1 + digit_prefix_len(s.drop_first())
    } else {
        0
    }
}

/// Season from the digits right after the first occurrence of `pat`, when in 1..=50.
pub open spec fn season_after(t: Seq<char>, pat: Seq<char>) -> Option<i32> {
    match find(t, pat) {
        None => None,
        Some(p) => {
            let after = t.skip(p + pat.len());
            match parse_i32(after.take(digit_prefix_len(after) as int)) {
                Some(v) => if 0 < v <= 50 {
                    Some(v)
                } else {
                    None
                },
                None => None,
            }
        },
    }
}

/// Season number of an episode title; 1 when the title names none.
pub open spec fn season_number_of(episode_title: Seq<char>) -> i32 {
    let t = strip_underscore(trim(episode_title));
    match season_from_marker(t) {
        Some(v) => v,
        None => match season_after(t, "Season "@) {
            Some(v) => v,
            None => match season_after(t, "season "@) {
                Some(v) => v,
                None => 1,
            },
        },
    }
}

/// Version tag of a title: the title (without a leading underscore after
/// trimming) when it is at most six UTF-8 bytes and holds none of "第", "话", "集";
/// otherwise empty.
pub open spec fn version_info_of(video_title: Seq<char>) -> Seq<char> {
    let tr = trim(video_title);
    let t = if tr.len() > 0 && tr[0] == '_' {
        tr.drop_first()
    } else {
        video_title
    };
    if utf8_len(t) <= 6 && !contains(t, seq!['第']) && !contains(t, seq!['话']) && !contains(
        t,
        seq!['集'],
    ) {
        t
    } else {
        seq![]
    }
}

/// The series title given by the API, with white space runs collapsed and no
/// space before an opening bracket.
pub open spec fn normalized_api_title(title: Seq<char>) -> Seq<char> {
    replace(replace(join(words(title), seq![' ']), " （"@, "（"@), " ("@, "("@)
}

// ---------------------------------------------------------------------------
// Argument lists
// ---------------------------------------------------------------------------

/// Value of a template argument.
pub enum ArgValue {
    Text(Seq<char>),
    Int(int),
    Bool(bool),
}

/// Value of a template argument.
#[derive(Clone, Debug)]
pub enum FormatValue {
    Text(String),
    Int(i64),
    Bool(bool),
}

impl View for FormatValue {
    type V = ArgValue;

    open spec fn view(&self) -> ArgValue {
        match self {
            FormatValue::Text(s) => ArgValue::Text(s@),
            FormatValue::Int(i) => ArgValue::Int(*i as int),
            FormatValue::Bool(b) => ArgValue::Bool(*b),
        }
    }
}

/// Named template arguments, each name once.
pub struct FormatArgs {
    pub entries: Vec<(String, FormatValue)>,
}

/// The (name, value) pairs of a list of arguments.
pub open spec fn arg_pairs(entries: Seq<(String, FormatValue)>) -> Seq<(Seq<char>, ArgValue)> {
    entries.map_values(|e: (String, FormatValue)| (e.0@, e.1@))
}

impl View for FormatArgs {
    type V = Seq<(Seq<char>, ArgValue)>;

    open spec fn view(&self) -> Seq<(Seq<char>, ArgValue)> {
        arg_pairs(self.entries@)
    }
}

/// Index of the argument named `key`.
pub open spec fn arg_index(args: Seq<(Seq<char>, ArgValue)>, key: Seq<char>) -> Option<int>
    decreases args.len(),
{
    if args.len() == 0 {
        None
    } else if args.last().0 == key {
        Some(args.len() - 1)
    } else {
        arg_index(args.drop_last(), key)
    }
}

/// Value of the argument named `key`, if any.
pub open spec fn arg_value(args: Seq<(Seq<char>, ArgValue)>, key: Seq<char>) -> Option<ArgValue> {
    match arg_index(args, key) {
        Some(i) => Some(args[i].1),
        None => None,
    }
}

/// The arguments with `key` set to `value`: replaced in place when present,
/// added at the end otherwise (`serde_json::Map::insert`).
pub open spec fn arg_insert(args: Seq<(Seq<char>, ArgValue)>, key: Seq<char>, value: ArgValue) -> Seq<
    (Seq<char>, ArgValue),
> {
    match arg_index(args, key) {
        Some(i) => args.update(i, (key, value)),
        None => args.push((key, value)),
    }
}

/// After setting an argument, looking it up gives the value set.
pub proof fn lemma_insert_then_lookup(args: Seq<(Seq<char>, ArgValue)>, key: Seq<char>, value: ArgValue)
    ensures
        arg_value(arg_insert(args, key, value), key) == Some(value),
{
    lemma_arg_index_bound(args, key);
    match arg_index(args, key) {
        Some(i) => {
            lemma_arg_index_update(args, key, i, value);
        },
        None => {
            assert(args.push((key, value)).drop_last() =~= args);
        },
    }
}

/// Setting an argument leaves the other arguments' values as they were.
pub proof fn lemma_insert_keeps_others(
    args: Seq<(Seq<char>, ArgValue)>,
    key: Seq<char>,
    value: ArgValue,
    other: Seq<char>,
)
    requires
        other != key,
    ensures
        arg_value(arg_insert(args, key, value), other) == arg_value(args, other),
{
    lemma_arg_index_bound(args, key);
    lemma_arg_index_bound(args, other);
    match arg_index(args, key) {
        Some(i) => {
            lemma_arg_index_keys(args, args.update(i, (key, value)), other);
        },
        None => {
            assert(args.push((key, value)).drop_last() =~= args);
        },
    }
}

/// Two argument lists with the same names in the same places find a name at
/// the same place.
proof fn lemma_arg_index_keys(a: Seq<(Seq<char>, ArgValue)>, b: Seq<(Seq<char>, ArgValue)>, key: Seq<char>)
    requires
        a.len() == b.len(),
        forall|k: int| 0 <= k < a.len() ==> #[trigger] a[k].0 == b[k].0,
    ensures
        arg_index(a, key) == arg_index(b, key),
    decreases a.len(),
{
    if a.len() > 0 {
        lemma_arg_index_keys(a.drop_last(), b.drop_last(), key);
    }
}

/// The place of a name is kept when the value there is replaced.
proof fn lemma_arg_index_update(args: Seq<(Seq<char>, ArgValue)>, key: Seq<char>, i: int, value: ArgValue)
    requires
        arg_index(args, key) == Some(i),
        0 <= i < args.len(),
        args[i].0 == key,
    ensures
        arg_index(args.update(i, (key, value)), key) == Some(i),
{
    lemma_arg_index_keys(args, args.update(i, (key, value)), key);
}

/// The season of an episode title is always between 1 and 99.
pub proof fn lemma_season_number_in_range(episode_title: Seq<char>)
    ensures
        1 <= season_number_of(episode_title) <= 99,
{
    let t = strip_underscore(trim(episode_title));
    match find(t, seq!['第']) {
        None => {},
        Some(p) => {
            let after = t.skip(p + 1);
            match find(after, seq!['季']) {
                None => {},
                Some(q) => {
                    crate::bangumi_name::lemma_chinese_numeral_range(after.take(q));
                },
            }
        },
    }
}

proof fn lemma_arg_index_bound(args: Seq<(Seq<char>, ArgValue)>, key: Seq<char>)
    ensures
        arg_index(args, key) matches Some(i) ==> 0 <= i < args.len() && args[i].0 == key,
    decreases args.len(),
{
    if args.len() > 0 && args.last().0 != key {
        lemma_arg_index_bound(args.drop_last(), key);
    }
}

impl FormatArgs {
    /// No arguments.
    pub fn new() -> (r: Self)
        ensures
            r@ == Seq::<(Seq<char>, ArgValue)>::empty(),
    {
        let r = FormatArgs { entries: Vec::new() };
        assert(r@ =~= Seq::<(Seq<char>, ArgValue)>::empty());
        r
    }

    /// Adds an argument at the end.
    pub fn push(&mut self, key: &str, value: FormatValue)
        ensures
            final(self)@ == old(self)@.push((key@, value@)),
    {
        let k = key.to_owned();
        self.entries.push((k, value));
        assert(self@ =~= old(self)@.push((key@, value@)));
    }

    /// Adds a text argument at the end.
    pub fn push_text(&mut self, key: &str, value: String)
        ensures
            final(self)@ == old(self)@.push((key@, ArgValue::Text(value@))),
    {
        self.push(key, FormatValue::Text(value));
    }

    /// Adds an integer argument at the end.
    pub fn push_int(&mut self, key: &str, value: i64)
        ensures
            final(self)@ == old(self)@.push((key@, ArgValue::Int(value as int))),
    {
        self.push(key, FormatValue::Int(value));
    }

    /// The value of the argument named `key`, if any.
    pub fn get(&self, key: &str) -> (r: Option<&FormatValue>)
        ensures
            match r {
                Some(v) => arg_value(self@, key@) == Some(v@),
                None => arg_value(self@, key@) is None,
            },
    {
        let ghost v = self@;
        let kc = chars_of(key);
        let mut i = self.entries.len();
        assert(v.take(i as int) =~= v);
        while i > 0
            invariant
                i <= v.len(),
                kc@ == key@,
                v == self@,
                v.len() == self.entries@.len(),
                arg_index(v, key@) == arg_index(v.take(i as int), key@),
            decreases i,
        {
            let ek = chars_of(self.entries[i - 1].0.as_str());
            proof {
                assert(v.take(i as int).drop_last() =~= v.take(i - 1));
                assert(v.take(i as int).last() == v[i - 1]);
                assert(v[i - 1] == (self.entries@[i - 1].0@, self.entries@[i - 1].1@));
            }
            if chars_eq(ek.as_slice(), kc.as_slice()) {
                assert(v.take(i as int).len() == i);
                assert(arg_index(v.take(i as int), key@) == Some(i - 1));
                return Some(&self.entries[i - 1].1);
            }
            i = i - 1;
        }
        assert(v.take(0) =~= Seq::<(Seq<char>, ArgValue)>::empty());
        None
    }

    /// Sets `key` to `value` (`serde_json::Map::insert`).
    pub fn insert(&mut self, key: &str, value: FormatValue)
        ensures
            final(self)@ == arg_insert(old(self)@, key@, value@),
    {
        let ghost v = self@;
        let kc = chars_of(key);
        let mut i = self.entries.len();
        assert(v.take(i as int) =~= v);
        while i > 0
            invariant
                i <= v.len(),
                kc@ == key@,
                v == self@,
                v == old(self)@,
                v.len() == self.entries@.len(),
                arg_index(v, key@) == arg_index(v.take(i as int), key@),
            decreases i,
        {
            let ek = chars_of(self.entries[i - 1].0.as_str());
            proof {
                assert(v.take(i as int).drop_last() =~= v.take(i - 1));
                assert(v.take(i as int).last() == v[i - 1]);
                assert(v[i - 1] == (self.entries@[i - 1].0@, self.entries@[i - 1].1@));
            }
            if chars_eq(ek.as_slice(), kc.as_slice()) {
                assert(ek@ == self.entries@[i - 1].0@);
                assert(ek@ == kc@);
                assert(kc@ == key@);
                assert(v[i - 1].0 == self.entries@[i - 1].0@);
                assert(v[i - 1].0 == key@);
                assert(v.take(i as int).len() == i);
                assert(arg_index(v.take(i as int), key@) == Some(i - 1));
                self.entries.set(i - 1, (key.to_owned(), value));
                proof {
                    assert(self@ =~= v.update(i - 1, (key@, value@)));
                }
                return;
            }
            i = i - 1;
        }
        assert(v.take(0) =~= Seq::<(Seq<char>, ArgValue)>::empty());
        self.push(key, value);
    }
}

// ---------------------------------------------------------------------------
// Parsing functions
// ---------------------------------------------------------------------------

/// Season number of an episode title ("第二季", "第2季", "Season 2"); 1 when none.
pub fn extract_season_number(episode_title: &str) -> (r: i32)
    ensures
        r == season_number_of(episode_title@),
{
    let tr = trim_str(episode_title);
    let t: Vec<char> = if tr.len() > 0 && tr[0] == '_' {
        slice_chars(tr.as_slice(), 1, tr.len())
    } else {
        tr
    };
    proof {
        if trim(episode_title@).len() > 0 && trim(episode_title@)[0] == '_' {
            assert(t@ =~= trim(episode_title@).drop_first());
        }
    }
    let di = vec!['第'];
    let ji = vec!['季'];
    assert(di@ =~= seq!['第']);
    assert(ji@ =~= seq!['季']);
    if let Some(p) = find_chars(t.as_slice(), di.as_slice()) {
        proof {
            lemma_find_bound(t@, seq!['第']);
        }
        let after = slice_chars(t.as_slice(), p + 1, t.len());
        assert(after@ =~= t@.skip(p + 1));
        if let Some(q) = find_chars(after.as_slice(), ji.as_slice()) {
            proof {
                lemma_find_bound(after@, seq!['季']);
            }
            let ss = slice_chars(after.as_slice(), 0, q);
            assert(ss@ =~= after@.take(q as int));
            if let Some(season) = parse_i32_chars(ss.as_slice()) {
                if season > 0 && season <= 50 {
                    return season;
                }
            }
            if let Some(season) = chinese_numeral_to_number(ss.as_slice()) {
                proof {
                    lemma_chinese_numeral_small(ss@);
                }
                return season as i32;
            }
        }
    }
    if let Some(v) = season_after_pattern(t.as_slice(), "Season ") {
        return v;
    }
    if let Some(v) = season_after_pattern(t.as_slice(), "season ") {
        return v;
    }
    1
}

/// The season of an episode title whose first "第…季" marker holds the
/// decimal digits of a number from 1 to 50 is that number (the title neither
/// starting nor ending with white space, nor starting with '_').
pub proof fn lemma_season_marker_digits(prefix: Seq<char>, digits: Seq<char>, suffix: Seq<char>)
    requires
        forall|k: int| 0 <= k < prefix.len() ==> prefix[k] != '第',
        prefix.len() > 0 ==> !crate::text::is_white_space(prefix[0]) && prefix[0] != '_',
        suffix.len() > 0 ==> !crate::text::is_white_space(suffix.last()),
        digits.len() > 0,
        forall|k: int| 0 <= k < digits.len() ==> '0' <= #[trigger] digits[k] <= '9',
        1 <= crate::text::digits_value(digits) <= 50,
    ensures
        season_number_of(prefix + seq!['第'] + digits + seq!['季'] + suffix) == crate::text::digits_value(digits),
{
    let rest = digits + seq!['季'] + suffix;
    let title = prefix + (seq!['第'] + rest);
    assert(title =~= prefix + seq!['第'] + digits + seq!['季'] + suffix);
    if prefix.len() > 0 {
        assert(title[0] == prefix[0]);
    } else {
        assert(title[0] == '第');
    }
    if suffix.len() > 0 {
        assert(title.last() == suffix.last());
    } else {
        assert(title.last() == '季');
    }
    crate::text::lemma_trim_unchanged(title);
    assert(strip_underscore(title) == title);
    crate::text::lemma_find_char_after(prefix, seq!['第'] + rest, '第');
    assert(title.skip(prefix.len() as int + 1) =~= rest);
    assert forall|k: int| 0 <= k < digits.len() implies digits[k] != '季' by {
        assert('0' <= digits[k] <= '9');
    }
    crate::text::lemma_find_char_after(digits, seq!['季'] + suffix, '季');
    assert(rest =~= digits + (seq!['季'] + suffix));
    assert(rest.take(digits.len() as int) =~= digits);
    assert(digits[0] != '+' && digits[0] != '-') by {
        assert('0' <= digits[0] <= '9');
    }
    assert(crate::text::all_digits(digits));
    assert(parse_i32(digits) == Some(crate::text::digits_value(digits) as i32));
}

proof fn lemma_chinese_numeral_small(s: Seq<char>)
    ensures
        chinese_numeral(s) matches Some(n) ==> n <= 99,
{
}

proof fn lemma_find_bound(s: Seq<char>, pat: Seq<char>)
    ensures
        find(s, pat) matches Some(i) ==> 0 <= i && i + pat.len() <= s.len(),
    decreases s.len(),
{
    if s.len() >= pat.len() && !crate::text::starts_with(s, pat) && s.len() > 0 {
        lemma_find_bound(s.drop_first(), pat);
    }
}

proof fn lemma_digit_prefix_len(s: Seq<char>, i: int)
    requires
        0 <= i <= s.len(),
        forall|k: int| 0 <= k < i ==> '0' <= #[trigger] s[k] <= '9',
    ensures
        digit_prefix_len(s) == i + digit_prefix_len(s.skip(i)),
    decreases i,
{
    if i > 0 {
        lemma_digit_prefix_len(s, i - 1);
        assert(s.skip(i - 1).drop_first() =~= s.skip(i));
        assert(s.skip(i - 1)[0] == s[i - 1]);
    } else {
        assert(s.skip(0) =~= s);
    }
}

fn season_after_pattern(t: &[char], pat: &str) -> (r: Option<i32>)
    ensures
        r == season_after(t@, pat@),
{
    let pc = chars_of(pat);
    match find_chars(t, pc.as_slice()) {
        None => None,
        Some(p) => {
            let tl = t.len();
            proof {
                lemma_find_bound(t@, pc@);
                assert(p + pc@.len() <= tl);
            }
            let after = slice_chars(t, p + pc.len(), tl);
            assert(after@ =~= t@.skip(p + pat@.len()));
            let mut k: usize = 0;
            while k < after.len() && '0' <= after[k] && after[k] <= '9'
                invariant
                    k <= after@.len(),
                    forall|m: int| 0 <= m < k ==> '0' <= #[trigger] after@[m] <= '9',
                decreases after@.len() - k,
            {
                k = k + 1;
            }
            proof {
                lemma_digit_prefix_len(after@, k as int);
                assert(digit_prefix_len(after@.skip(k as int)) == 0);
            }
            let digits = slice_chars(after.as_slice(), 0, k);
            assert(digits@ =~= after@.take(k as int));
            match parse_i32_chars(digits.as_slice()) {
                Some(v) => if v > 0 && v <= 50 {
                    Some(v)
                } else {
                    None
                },
                None => None,
            }
        },
    }
}

/// Version tag of a video title (such as "中配"); empty when the title does not look like one.
pub fn extract_version_info(video_title: &str) -> (r: String)
    ensures
        r@ == version_info_of(video_title@),
{
    let tr = trim_str(video_title);
    let t: Vec<char> = if tr.len() > 0 && tr[0] == '_' {
        slice_chars(tr.as_slice(), 1, tr.len())
    } else {
        chars_of(video_title)
    };
    proof {
        if trim(video_title@).len() > 0 && trim(video_title@)[0] == '_' {
            assert(t@ =~= trim(video_title@).drop_first());
        }
    }
    let di = vec!['第'];
    let hua = vec!['话'];
    let ji = vec!['集'];
    assert(di@ =~= seq!['第']);
    assert(hua@ =~= seq!['话']);
    assert(ji@ =~= seq!['集']);
    if utf8_len_at_most(t.as_slice(), 6) && !crate::text::contains_chars(t.as_slice(), di.as_slice())
        && !crate::text::contains_chars(t.as_slice(), hua.as_slice())
        && !crate::text::contains_chars(t.as_slice(), ji.as_slice()) {
        return string_of(t.as_slice());
    }
    String::new()
}

/// Series title of a bangumi video, from the title the API gives; `None` without one.
pub fn extract_series_title_with_context(video_model: &VideoModel, api_title: Option<&str>) -> (r:
    Option<String>)
    ensures
        match api_title {
            Some(t) => r matches Some(s) && s@ == normalized_api_title(t@),
            None => r is None,
        },
{
    match api_title {
        Some(title) => {
            let c = chars_of(title);
            let collapsed = collapse_spaces(c.as_slice());
            proof {
                reveal_strlit(" （");
                reveal_strlit("（");
                reveal_strlit(" (");
                reveal_strlit("(");
            }
            let a = replace_str(collapsed.as_slice(), " （", "（");
            let b = replace_str(a.as_slice(), " (", "(");
            Some(string_of(b.as_slice()))
        },
        None => None,
    }
}

// ---------------------------------------------------------------------------
// Template arguments
// ---------------------------------------------------------------------------

/// The configuration that naming reads.
#[derive(Clone, Debug)]
pub struct NamingConfig {
    /// `strftime`-style format of the time arguments.
    pub time_format: String,
    /// Whether all episodes of a bangumi series go into one season folder.
    pub bangumi_use_season_structure: bool,
}

/// Text of `s` with HTML entities decoded, as html-escape decodes them.
pub uninterp spec fn html_entities_decoded(s: Seq<char>) -> Seq<char>;

/// html-escape: `decode_html_entities(s)`, owned.  The result is named, not
/// stated: it is html-escape's decoding of `s`.
#[verifier::external_body]
fn decode_html_entities(s: &str) -> (r: String)
    ensures
        r@ == html_entities_decoded(s@),
{
    html_escape::decode_html_entities(s).into_owned()
}

/// A stored time written as Beijing time in the format `fmt`: as a time at
/// the Beijing offset, or, where chrono gives no such time, as the bare
/// date-time.
pub open spec fn beijing_text(dt: DateTime, fmt: Seq<char>) -> Option<Seq<char>> {
    match offset_time_text(dt.year, dt.month, dt.day, dt.hour, dt.minute, dt.second, BEIJING_OFFSET_SECS, fmt) {
        Some(t) => Some(t),
        None => naive_time_text(dt.year, dt.month, dt.day, dt.hour, dt.minute, dt.second, fmt),
    }
}

/// A stored time written as Beijing time in the format `fmt`; `None` where chrono rejects it.
pub fn format_stored_beijing_time(value: &DateTime, format: &str) -> (r: Option<String>)
    ensures
        match r {
            Some(t) => beijing_text(*value, format@) == Some(t@),
            None => beijing_text(*value, format@) is None,
        },
{
    match format_at_offset(value, BEIJING_OFFSET_SECS, format) {
        Some(t) => Some(t),
        None => format_naive(value, format),
    }
}

/// The arguments for naming a video.
pub open spec fn video_args(v: VideoModel, pubtime: Seq<char>, favtime: Seq<char>) -> Seq<
    (Seq<char>, ArgValue),
> {
    seq![
        ("bvid"@, ArgValue::Text(v.bvid@)),
        ("title"@, ArgValue::Text(v.name@)),
        ("upper_name"@, ArgValue::Text(html_entities_decoded(v.upper_name@))),
        ("upper_mid"@, ArgValue::Int(v.upper_id as int)),
        ("pubtime"@, ArgValue::Text(pubtime)),
        ("fav_time"@, ArgValue::Text(favtime)),
        ("show_title"@, ArgValue::Text(v.name@)),
    ]
}

/// Arguments for naming a video; `None` where a time cannot be written in the configured format.
pub fn video_format_args(video_model: &VideoModel, config: &NamingConfig) -> (r: Option<FormatArgs>)
    ensures
        match (
            beijing_text(video_model.pubtime, config.time_format@),
            beijing_text(video_model.favtime, config.time_format@),
        ) {
            (Some(p), Some(f)) => r matches Some(a) && a@ == video_args(*video_model, p, f),
            _ => r is None,
        },
{
    let pubtime = format_stored_beijing_time(&video_model.pubtime, config.time_format.as_str())?;
    let favtime = format_stored_beijing_time(&video_model.favtime, config.time_format.as_str())?;
    let decoded_upper_name = decode_html_entities(video_model.upper_name.as_str());
    let mut args = FormatArgs::new();
    args.push_text("bvid", video_model.bvid.clone());
    args.push_text("title", video_model.name.clone());
    args.push_text("upper_name", decoded_upper_name);
    args.push_int("upper_mid", video_model.upper_id);
    args.push_text("pubtime", pubtime);
    args.push_text("fav_time", favtime);
    args.push_text("show_title", video_model.name.clone());
    Some(args)
}

/// `Some(s)` as text, or empty.
pub open spec fn text_or_empty(s: Option<String>) -> Seq<char> {
    match s {
        Some(t) => t@,
        None => seq![],
    }
}

/// Resolution text of a page: "WxH", or "Unknown".
pub open spec fn resolution_text(p: PageModel) -> Seq<char> {
    match (p.width, p.height) {
        (Some(w), Some(h)) => int_text(w as int) + seq!['x'] + int_text(h as int),
        _ => "Unknown"@,
    }
}

/// Content type named by a video category.
pub open spec fn content_type_text(category: i32) -> Seq<char> {
    if category == 1 {
        "动画"@
    } else if category == 177 {
        "纪录片"@
    } else if category == 155 {
        "时尚"@
    } else {
        "番剧"@
    }
}

/// Airing status shown for a bangumi video.
pub open spec fn airing_status_text(v: VideoModel) -> Seq<char> {
    if v.season_id is Some {
        "连载中"@
    } else {
        "已完结"@
    }
}

/// Season number from the episode title, falling back to the stored one when the title gives 1.
pub open spec fn raw_season(v: VideoModel) -> u32 {
    let extracted = season_number_of(v.name@);
    if extracted == 1 {
        (match v.season_number {
            Some(n) => n,
            None => 1i32,
        }) as u32
    } else {
        extracted as u32
    }
}

/// Season number used for a bangumi page.
pub open spec fn bangumi_season(v: VideoModel, api_title: Option<Seq<char>>, use_season_structure: bool) -> u32 {
    if use_season_structure {
        match api_title {
            Some(t) => series_name_and_season(t).1 as u32,
            None => 1,
        }
    } else {
        raw_season(v)
    }
}

/// Version tag of a bangumi page, left empty when the page is named by it.
pub open spec fn page_version(v: VideoModel, p: PageModel) -> Seq<char> {
    let version = version_info_of(v.name@);
    if version.len() > 0 && trim(p.name@) == version {
        seq![]
    } else {
        version
    }
}

/// Episode number of a bangumi page: the stored one, else the page number.
pub open spec fn episode_of(v: VideoModel, p: PageModel) -> i32 {
    match v.episode_number {
        Some(n) => n,
        None => p.pid,
    }
}

/// The arguments for naming a page of a bangumi video.
pub open spec fn bangumi_args(
    v: VideoModel,
    p: PageModel,
    api_title: Option<Seq<char>>,
    use_season_structure: bool,
    pubtime: Seq<char>,
    favtime: Seq<char>,
) -> Seq<(Seq<char>, ArgValue)> {
    let upper = html_entities_decoded(v.upper_name@);
    let episode = episode_of(v, p);
    let season = bangumi_season(v, api_title, use_season_structure);
    seq![
        ("bvid"@, ArgValue::Text(v.bvid@)),
        ("title"@, ArgValue::Text(v.name@)),
        ("upper_name"@, ArgValue::Text(upper)),
        ("upper_mid"@, ArgValue::Int(v.upper_id as int)),
        ("ptitle"@, ArgValue::Text(p.name@)),
        ("pid"@, ArgValue::Int(episode as int)),
        ("pid_pad"@, ArgValue::Text(pad2_text(episode as int))),
        ("season"@, ArgValue::Int(season as int)),
        ("season_pad"@, ArgValue::Text(pad2_text(season as int))),
        ("year"@, ArgValue::Int(v.pubtime.year as int)),
        ("studio"@, ArgValue::Text(upper)),
        ("actors"@, ArgValue::Text(text_or_empty(v.actors))),
        ("share_copy"@, ArgValue::Text(text_or_empty(v.share_copy))),
        ("category"@, ArgValue::Int(v.category as int)),
        ("resolution"@, ArgValue::Text(resolution_text(p))),
        ("content_type"@, ArgValue::Text(content_type_text(v.category))),
        ("status"@, ArgValue::Text(airing_status_text(v))),
        ("ep_id"@, ArgValue::Text(text_or_empty(v.ep_id))),
        ("season_id"@, ArgValue::Text(text_or_empty(v.season_id))),
        ("pubtime"@, ArgValue::Text(pubtime)),
        ("fav_time"@, ArgValue::Text(favtime)),
        ("show_title"@, ArgValue::Text(v.name@)),
        ("series_title"@, ArgValue::Text(
            match api_title {
                Some(t) => normalized_api_title(t),
                None => seq![],
            },
        )),
        ("version"@, ArgValue::Text(page_version(v, p))),
    ]
}

fn opt_text(s: &Option<String>) -> (r: String)
    ensures
        r@ == text_or_empty(*s),
{
    match s {
        Some(t) => t.clone(),
        None => String::new(),
    }
}

fn resolution_of(page_model: &PageModel) -> (r: String)
    ensures
        r@ == resolution_text(*page_model),
{
    match (page_model.width, page_model.height) {
        (Some(w), Some(h)) => {
            let mut c = int_to_chars(w as i64);
            c.push('x');
            let hc = int_to_chars(h as i64);
            push_all(&mut c, hc.as_slice());
            string_of(c.as_slice())
        },
        _ => "Unknown".to_owned(),
    }
}

fn bangumi_season_number(video_model: &VideoModel, api_title: Option<&str>, use_season_structure: bool) -> (r: u32)
    ensures
        r == bangumi_season(
            *video_model,
            match api_title {
                Some(t) => Some(t@),
                None => None,
            },
            use_season_structure,
        ),
{
    let extracted = extract_season_number(video_model.name.as_str());
    let raw_season_number: u32 = if extracted == 1 {
        (match video_model.season_number {
            Some(n) => n,
            None => 1i32,
        }) as u32
    } else {
        extracted as u32
    };
    if use_season_structure {
        match api_title {
            Some(series_title) => {
                let (_, extracted_season_number) = extract_series_name_and_season(series_title);
                extracted_season_number
            },
            None => 1,
        }
    } else {
        raw_season_number
    }
}

fn page_version_of(video_model: &VideoModel, page_model: &PageModel) -> (r: String)
    ensures
        r@ == page_version(*video_model, *page_model),
{
    let version_info = extract_version_info(video_model.name.as_str());
    let page_name = trim_str(page_model.name.as_str());
    let version_chars = chars_of(version_info.as_str());
    if version_chars.len() > 0 && chars_eq(page_name.as_slice(), version_chars.as_slice()) {
        String::new()
    } else {
        version_info
    }
}

fn content_type_of(category: i32) -> (r: String)
    ensures
        r@ == content_type_text(category),
{
    if category == 1 {
        "动画".to_owned()
    } else if category == 177 {
        "纪录片".to_owned()
    } else if category == 155 {
        "时尚".to_owned()
    } else {
        "番剧".to_owned()
    }
}

fn airing_status_of(video_model: &VideoModel) -> (r: String)
    ensures
        r@ == airing_status_text(*video_model),
{
    if video_model.season_id.is_some() {
        "连载中".to_owned()
    } else {
        "已完结".to_owned()
    }
}

/// Arguments for naming a page of a bangumi video; `None` where a time cannot
/// be written in the configured format.
pub fn bangumi_page_format_args(
    video_model: &VideoModel,
    page_model: &PageModel,
    api_title: Option<&str>,
    config: &NamingConfig,
) -> (r: Option<FormatArgs>)
    ensures
        match (
            beijing_text(video_model.pubtime, config.time_format@),
            beijing_text(video_model.favtime, config.time_format@),
        ) {
            (Some(pt), Some(ft)) => r matches Some(a) && a@ == bangumi_args(
                *video_model,
                *page_model,
                match api_title {
                    Some(t) => Some(t@),
                    None => None,
                },
                config.bangumi_use_season_structure,
                pt,
                ft,
            ),
            _ => r is None,
        },
{
    let pubtime = format_stored_beijing_time(&video_model.pubtime, config.time_format.as_str())?;
    let favtime = format_stored_beijing_time(&video_model.favtime, config.time_format.as_str())?;
    let episode_number = match video_model.episode_number {
        Some(n) => n,
        None => page_model.pid,
    };
    let season_number = bangumi_season_number(video_model, api_title, config.bangumi_use_season_structure);
    let series_title = match extract_series_title_with_context(video_model, api_title) {
        Some(title) => title,
        None => String::new(),
    };
    let final_version = page_version_of(video_model, page_model);
    let content_type = content_type_of(video_model.category);
    let status = airing_status_of(video_model);
    let decoded_upper_name = decode_html_entities(video_model.upper_name.as_str());
    let mut args = FormatArgs::new();
    args.push_text("bvid", video_model.bvid.clone());
    args.push_text("title", video_model.name.clone());
    args.push_text("upper_name", decoded_upper_name.clone());
    args.push_int("upper_mid", video_model.upper_id);
    args.push_text("ptitle", page_model.name.clone());
    args.push_int("pid", episode_number as i64);
    args.push_text("pid_pad", pad2_to_string(episode_number as i64));
    args.push_int("season", season_number as i64);
    args.push_text("season_pad", pad2_to_string(season_number as i64));
    args.push_int("year", video_model.pubtime.year as i64);
    args.push_text("studio", decoded_upper_name);
    args.push_text("actors", opt_text(&video_model.actors));
    args.push_text("share_copy", opt_text(&video_model.share_copy));
    args.push_int("category", video_model.category as i64);
    args.push_text("resolution", resolution_of(page_model));
    args.push_text("content_type", content_type);
    args.push_text("status", status);
    args.push_text("ep_id", opt_text(&video_model.ep_id));
    args.push_text("season_id", opt_text(&video_model.season_id));
    args.push_text("pubtime", pubtime);
    args.push_text("fav_time", favtime);
    args.push_text("show_title", video_model.name.clone());
    args.push_text("series_title", series_title);
    args.push_text("version", final_version);
    Some(args)
}

/// The arguments for naming a page of a multi-page video.
pub open spec fn multi_page_args(v: VideoModel, p: PageModel, pubtime: Seq<char>, favtime: Seq<char>) -> Seq<
    (Seq<char>, ArgValue),
> {
    let upper = html_entities_decoded(v.upper_name@);
    seq![
        ("bvid"@, ArgValue::Text(v.bvid@)),
        ("title"@, ArgValue::Text(v.name@)),
        ("upper_name"@, ArgValue::Text(upper)),
        ("upper_mid"@, ArgValue::Int(v.upper_id as int)),
        ("ptitle"@, ArgValue::Text(p.name@)),
        ("pid"@, ArgValue::Int(p.pid as int)),
        ("pid_pad"@, ArgValue::Text(pad2_text(p.pid as int))),
        ("season"@, ArgValue::Int(1)),
        ("season_pad"@, ArgValue::Text(pad2_text(1))),
        ("year"@, ArgValue::Int(v.pubtime.year as int)),
        ("studio"@, ArgValue::Text(upper)),
        ("actors"@, ArgValue::Text(text_or_empty(v.actors))),
        ("share_copy"@, ArgValue::Text(text_or_empty(v.share_copy))),
        ("category"@, ArgValue::Int(v.category as int)),
        ("resolution"@, ArgValue::Text(resolution_text(p))),
        ("pubtime"@, ArgValue::Text(pubtime)),
        ("fav_time"@, ArgValue::Text(favtime)),
        ("long_title"@, ArgValue::Text(p.name@)),
        ("show_title"@, ArgValue::Text(p.name@)),
    ]
}

/// The arguments for naming the page of a single-page video.
pub open spec fn single_page_args(v: VideoModel, p: PageModel, pubtime: Seq<char>, favtime: Seq<char>) -> Seq<
    (Seq<char>, ArgValue),
> {
    seq![
        ("bvid"@, ArgValue::Text(v.bvid@)),
        ("title"@, ArgValue::Text(v.name@)),
        ("upper_name"@, ArgValue::Text(html_entities_decoded(v.upper_name@))),
        ("upper_mid"@, ArgValue::Int(v.upper_id as int)),
        ("ptitle"@, ArgValue::Text(p.name@)),
        ("pid"@, ArgValue::Int(p.pid as int)),
        ("pid_pad"@, ArgValue::Text(pad2_text(p.pid as int))),
        ("pubtime"@, ArgValue::Text(pubtime)),
        ("fav_time"@, ArgValue::Text(favtime)),
        ("long_title"@, ArgValue::Text(p.name@)),
        ("show_title"@, ArgValue::Text(p.name@)),
    ]
}

/// The arguments for naming a page, by the kind of its video.
pub open spec fn page_args(v: VideoModel, p: PageModel, use_season_structure: bool, pubtime: Seq<char>, favtime: Seq<char>) -> Seq<
    (Seq<char>, ArgValue),
> {
    if v.source_type == Some(1i32) {
        bangumi_args(v, p, None, use_season_structure, pubtime, favtime)
    } else if v.single_page == Some(false) {
        multi_page_args(v, p, pubtime, favtime)
    } else {
        single_page_args(v, p, pubtime, favtime)
    }
}

/// Arguments for naming a page; `None` where a time cannot be written in the configured format.
pub fn page_format_args(video_model: &VideoModel, page_model: &PageModel, config: &NamingConfig) -> (r:
    Option<FormatArgs>)
    ensures
        match (
            beijing_text(video_model.pubtime, config.time_format@),
            beijing_text(video_model.favtime, config.time_format@),
        ) {
            (Some(pt), Some(ft)) => r matches Some(a) && a@ == page_args(
                *video_model,
                *page_model,
                config.bangumi_use_season_structure,
                pt,
                ft,
            ),
            _ => r is None,
        },
{
    let is_bangumi = match video_model.source_type {
        Some(1) => true,
        _ => false,
    };
    let is_single_page = match video_model.single_page {
        Some(b) => b,
        None => true,
    };
    if is_bangumi {
        return bangumi_page_format_args(video_model, page_model, None, config);
    }
    let pubtime = format_stored_beijing_time(&video_model.pubtime, config.time_format.as_str())?;
    let favtime = format_stored_beijing_time(&video_model.favtime, config.time_format.as_str())?;
    let decoded_upper_name = decode_html_entities(video_model.upper_name.as_str());
    let mut args = FormatArgs::new();
    if !is_single_page {
        let season_number: i64 = 1;
        args.push_text("bvid", video_model.bvid.clone());
        args.push_text("title", video_model.name.clone());
        args.push_text("upper_name", decoded_upper_name.clone());
        args.push_int("upper_mid", video_model.upper_id);
        args.push_text("ptitle", page_model.name.clone());
        args.push_int("pid", page_model.pid as i64);
        args.push_text("pid_pad", pad2_to_string(page_model.pid as i64));
        args.push_int("season", season_number);
        args.push_text("season_pad", pad2_to_string(season_number));
        args.push_int("year", video_model.pubtime.year as i64);
        args.push_text("studio", decoded_upper_name);
        args.push_text("actors", opt_text(&video_model.actors));
        args.push_text("share_copy", opt_text(&video_model.share_copy));
        args.push_int("category", video_model.category as i64);
        args.push_text("resolution", resolution_of(page_model));
        args.push_text("pubtime", pubtime);
        args.push_text("fav_time", favtime);
        args.push_text("long_title", page_model.name.clone());
        args.push_text("show_title", page_model.name.clone());
    } else {
        args.push_text("bvid", video_model.bvid.clone());
        args.push_text("title", video_model.name.clone());
        args.push_text("upper_name", decoded_upper_name);
        args.push_int("upper_mid", video_model.upper_id);
        args.push_text("ptitle", page_model.name.clone());
        args.push_int("pid", page_model.pid as i64);
        args.push_text("pid_pad", pad2_to_string(page_model.pid as i64));
        args.push_text("pubtime", pubtime);
        args.push_text("fav_time", favtime);
        args.push_text("long_title", page_model.name.clone());
        args.push_text("show_title", page_model.name.clone());
    }
    Some(args)
}

/// The value of `key` is that of its last entry.
proof fn lemma_arg_value_last_entry(args: Seq<(Seq<char>, ArgValue)>, i: int, key: Seq<char>)
    requires
        0 <= i < args.len(),
        args[i].0 == key,
        forall|j: int| i < j < args.len() ==> #[trigger] args[j].0 != key,
    ensures
        arg_index(args, key) == Some(i),
        arg_value(args, key) == Some(args[i].1),
    decreases args.len(),
{
    if args.last().0 != key {
        assert(i < args.len() - 1);
        lemma_arg_value_last_entry(args.drop_last(), i, key);
        assert(args.drop_last()[i] == args[i]);
    } else {
        let last = args.len() - 1;
        assert(args[last].0 == key);
        assert(i == last);
    }
}

/// Without an entry for `key`, it has no value.
proof fn lemma_arg_value_absent(args: Seq<(Seq<char>, ArgValue)>, key: Seq<char>)
    requires
        forall|j: int| 0 <= j < args.len() ==> #[trigger] args[j].0 != key,
    ensures
        arg_value(args, key) is None,
    decreases args.len(),
{
    if args.len() > 0 {
        lemma_arg_value_absent(args.drop_last(), key);
    }
}

/// A bangumi page is numbered by the video's stored episode number: "pid" is
/// that number and "pid_pad" its two-digit text; only without a stored
/// episode number do they come from the page's own number.
pub proof fn lemma_bangumi_pid_is_episode_number(
    v: VideoModel,
    p: PageModel,
    api_title: Option<Seq<char>>,
    use_season_structure: bool,
    pubtime: Seq<char>,
    favtime: Seq<char>,
)
    ensures
        ({
            let args = bangumi_args(v, p, api_title, use_season_structure, pubtime, favtime);
            let n: int = match v.episode_number {
                Some(e) => e as int,
                None => p.pid as int,
            };
            &&& arg_value(args, "pid"@) == Some(ArgValue::Int(n))
            &&& arg_value(args, "pid_pad"@) == Some(ArgValue::Text(pad2_text(n)))
        }),
{
    reveal_strlit("pid");
    reveal_strlit("pid_pad");
    reveal_strlit("season");
    reveal_strlit("season_pad");
    reveal_strlit("year");
    reveal_strlit("studio");
    reveal_strlit("actors");
    reveal_strlit("share_copy");
    reveal_strlit("category");
    reveal_strlit("resolution");
    reveal_strlit("content_type");
    reveal_strlit("status");
    reveal_strlit("ep_id");
    reveal_strlit("season_id");
    reveal_strlit("pubtime");
    reveal_strlit("fav_time");
    reveal_strlit("show_title");
    reveal_strlit("series_title");
    reveal_strlit("version");
    let args = bangumi_args(v, p, api_title, use_season_structure, pubtime, favtime);
    assert(args.len() == 24);
    assert forall|j: int| 5 < j < args.len() implies #[trigger] args[j].0 != "pid"@ by {
        assert(args[j].0.len() != 3 || args[j].0[0] != 'p' || args[j].0[1] != 'i');
    }
    lemma_arg_value_last_entry(args, 5, "pid"@);
    assert forall|j: int| 6 < j < args.len() implies #[trigger] args[j].0 != "pid_pad"@ by {
        assert(args[j].0.len() != 7 || args[j].0[0] != 'p' || args[j].0[1] != 'i');
    }
    lemma_arg_value_last_entry(args, 6, "pid_pad"@);
}

/// A page of a video that is neither a bangumi nor a single-page video (its
/// single-page flag is `false`) is named as part of season 1: "season" is 1
/// and "season_pad" "01".  The page of a single-page video (flag `true` or
/// unknown) gets no season.
pub proof fn lemma_page_args_season(
    v: VideoModel,
    p: PageModel,
    use_season_structure: bool,
    pubtime: Seq<char>,
    favtime: Seq<char>,
)
    requires
        v.source_type != Some(1i32),
    ensures
        v.single_page == Some(false) ==> arg_value(page_args(v, p, use_season_structure, pubtime, favtime), "season"@)
            == Some(ArgValue::Int(1)) && arg_value(
            page_args(v, p, use_season_structure, pubtime, favtime),
            "season_pad"@,
        ) == Some(ArgValue::Text(seq!['0', '1'])),
        v.single_page != Some(false) ==> arg_value(
            page_args(v, p, use_season_structure, pubtime, favtime),
            "season"@,
        ) is None,
{
    reveal_strlit("bvid");
    reveal_strlit("title");
    reveal_strlit("upper_name");
    reveal_strlit("upper_mid");
    reveal_strlit("ptitle");
    reveal_strlit("pid");
    reveal_strlit("pid_pad");
    reveal_strlit("season");
    reveal_strlit("season_pad");
    reveal_strlit("year");
    reveal_strlit("studio");
    reveal_strlit("actors");
    reveal_strlit("share_copy");
    reveal_strlit("category");
    reveal_strlit("resolution");
    reveal_strlit("pubtime");
    reveal_strlit("fav_time");
    reveal_strlit("long_title");
    reveal_strlit("show_title");
    let args = page_args(v, p, use_season_structure, pubtime, favtime);
    if v.single_page == Some(false) {
        assert(args.len() == 19);
        assert forall|j: int| 7 < j < args.len() implies #[trigger] args[j].0 != "season"@ by {
            assert(args[j].0.len() != 6 || args[j].0[0] != 's' || args[j].0[1] != 'e');
        }
        lemma_arg_value_last_entry(args, 7, "season"@);
        assert forall|j: int| 8 < j < args.len() implies #[trigger] args[j].0 != "season_pad"@ by {
            assert(args[j].0.len() != 10 || args[j].0[0] != 's' || args[j].0[1] != 'e');
        }
        lemma_arg_value_last_entry(args, 8, "season_pad"@);
        assert(nat_digits_one() == seq!['1']);
        assert(pad2_text(1) =~= seq!['0', '1']);
    } else {
        assert(args.len() == 11);
        assert forall|j: int| 0 <= j < args.len() implies #[trigger] args[j].0 != "season"@ by {
            assert(args[j].0.len() != 6 || args[j].0[0] != 's' || args[j].0[1] != 'e');
        }
        lemma_arg_value_absent(args, "season"@);
    }
}

spec fn nat_digits_one() -> Seq<char> {
    crate::text::nat_digits(1)
}

/// Page arguments with the episode and season of the unified collection layout set.
pub open spec fn collection_args(
    base: Seq<(Seq<char>, ArgValue)>,
    v: VideoModel,
    episode_number: i32,
    season_number: i32,
) -> Seq<(Seq<char>, ArgValue)> {
    let safe_season: int = if season_number >= 1 {
        season_number as int
    } else {
        1
    };
    let a1 = arg_insert(base, "episode"@, ArgValue::Int(episode_number as int));
    let a2 = arg_insert(a1, "episode_pad"@, ArgValue::Text(pad2_text(episode_number as int)));
    let a3 = arg_insert(a2, "season"@, ArgValue::Int(safe_season));
    let a4 = arg_insert(a3, "season_pad"@, ArgValue::Text(pad2_text(safe_season)));
    arg_insert(a4, "is_multi_page"@, ArgValue::Bool(v.single_page == Some(false)))
}

/// In the unified collection layout a page's season is never below one, and
/// its episode is the one given.
pub proof fn lemma_collection_season_at_least_one(
    base: Seq<(Seq<char>, ArgValue)>,
    v: VideoModel,
    episode_number: i32,
    season_number: i32,
)
    ensures
        arg_value(collection_args(base, v, episode_number, season_number), "season"@) matches Some(
            ArgValue::Int(n),
        ) && n >= 1,
        arg_value(collection_args(base, v, episode_number, season_number), "episode"@) == Some(
            ArgValue::Int(episode_number as int),
        ),
{
    let safe_season: int = if season_number >= 1 {
        season_number as int
    } else {
        1
    };
    let a1 = arg_insert(base, "episode"@, ArgValue::Int(episode_number as int));
    let a2 = arg_insert(a1, "episode_pad"@, ArgValue::Text(pad2_text(episode_number as int)));
    let a3 = arg_insert(a2, "season"@, ArgValue::Int(safe_season));
    let a4 = arg_insert(a3, "season_pad"@, ArgValue::Text(pad2_text(safe_season)));
    reveal_strlit("season");
    reveal_strlit("season_pad");
    reveal_strlit("is_multi_page");
    reveal_strlit("episode");
    reveal_strlit("episode_pad");
    assert("season_pad"@.len() != "season"@.len());
    assert("is_multi_page"@.len() != "season"@.len());
    assert("episode_pad"@.len() != "episode"@.len());
    assert("season"@.len() != "episode"@.len());
    assert("season_pad"@.len() != "episode"@.len());
    assert("is_multi_page"@.len() != "episode"@.len());
    lemma_insert_then_lookup(a2, "season"@, ArgValue::Int(safe_season));
    lemma_insert_keeps_others(a3, "season_pad"@, ArgValue::Text(pad2_text(safe_season)), "season"@);
    lemma_insert_keeps_others(a4, "is_multi_page"@, ArgValue::Bool(v.single_page == Some(false)), "season"@);
    lemma_insert_then_lookup(base, "episode"@, ArgValue::Int(episode_number as int));
    lemma_insert_keeps_others(a1, "episode_pad"@, ArgValue::Text(pad2_text(episode_number as int)), "episode"@);
    lemma_insert_keeps_others(a2, "season"@, ArgValue::Int(safe_season), "episode"@);
    lemma_insert_keeps_others(a3, "season_pad"@, ArgValue::Text(pad2_text(safe_season)), "episode"@);
    lemma_insert_keeps_others(a4, "is_multi_page"@, ArgValue::Bool(v.single_page == Some(false)), "episode"@);
}

/// Arguments for naming a page in the unified collection layout; `None` where
/// a time cannot be written in the configured format.
pub fn collection_unified_page_format_args(
    video_model: &VideoModel,
    page_model: &PageModel,
    episode_number: i32,
    season_number: i32,
    config: &NamingConfig,
) -> (r: Option<FormatArgs>)
    ensures
        match (
            beijing_text(video_model.pubtime, config.time_format@),
            beijing_text(video_model.favtime, config.time_format@),
        ) {
            (Some(pt), Some(ft)) => r matches Some(a) && a@ == collection_args(
                page_args(*video_model, *page_model, config.bangumi_use_season_structure, pt, ft),
                *video_model,
                episode_number,
                season_number,
            ),
            _ => r is None,
        },
{
    let mut args = page_format_args(video_model, page_model, config)?;
    let is_single_page = match video_model.single_page {
        Some(b) => b,
        None => true,
    };
    let safe_season: i32 = if season_number >= 1 {
        season_number
    } else {
        1
    };
    args.insert("episode", FormatValue::Int(episode_number as i64));
    args.insert("episode_pad", FormatValue::Text(pad2_to_string(episode_number as i64)));
    args.insert("season", FormatValue::Int(safe_season as i64));
    args.insert("season_pad", FormatValue::Text(pad2_to_string(safe_season as i64)));
    args.insert("is_multi_page", FormatValue::Bool(!is_single_page));
    Some(args)
}

} // verus!
