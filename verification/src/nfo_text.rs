//! Text rules of NFO metadata: titles, seasons, numerals, actors.
use vstd::prelude::*;
use crate::models::{staff_views, StaffEntry, StaffView};
use crate::regex_match::{capture, capture_group, capture_pair};
use crate::text::{
    chars_eq, chars_of, contains, contains_chars, digit_value, find, find_chars, int_text,
    nat_digits, nat_text, parse_i32, parse_i32_chars, push_str, slice_chars, split,
    split_chars, starts_with, starts_with_chars, string_of, trim, trim_chars, trim_str, utf8_len,
    utf8_len_at_most,
};

verus! {

// ---------------------------------------------------------------------------
// XML characters
// ---------------------------------------------------------------------------

/// Characters allowed in XML 1.0 documents.
pub open spec fn is_xml_char(c: char) -> bool {
    let u = c as u32;
    ||| u == 0x9
    ||| u == 0xa
    ||| u == 0xd
    ||| 0x20 <= u <= 0xd7ff
    ||| 0xe000 <= u <= 0xfffd
    ||| 0x10000 <= u <= 0x10ffff
}

/// `s` without the characters that XML does not allow.
pub open spec fn xml_chars_only(s: Seq<char>) -> Seq<char>
    decreases s.len(),
{
    if s.len() == 0 {
        s
    } else {
        let r = xml_chars_only(s.drop_last());
        if is_xml_char(s.last()) {
            r.push(s.last())
        } else {
            r
        }
    }
}

/// Every character that sanitizing keeps is allowed in XML.
pub proof fn lemma_sanitized_chars_are_xml(s: Seq<char>)
    ensures
        forall|i: int| 0 <= i < xml_chars_only(s).len() ==> is_xml_char(#[trigger] xml_chars_only(s)[i]),
    decreases s.len(),
{
    if s.len() > 0 {
        lemma_sanitized_chars_are_xml(s.drop_last());
        let r = xml_chars_only(s.drop_last());
        if is_xml_char(s.last()) {
            assert(xml_chars_only(s) == r.push(s.last()));
            assert forall|i: int| 0 <= i < r.push(s.last()).len() implies is_xml_char(
                #[trigger] r.push(s.last())[i],
            ) by {
                if i < r.len() {
                    assert(r.push(s.last())[i] == r[i]);
                }
            }
        } else {
            assert(xml_chars_only(s) == r);
        }
    }
}

/// Sanitizing keeps a text made of XML characters unchanged.
pub proof fn lemma_sanitize_keeps_xml_text(s: Seq<char>)
    requires
        forall|i: int| 0 <= i < s.len() ==> is_xml_char(#[trigger] s[i]),
    ensures
        xml_chars_only(s) == s,
    decreases s.len(),
{
    if s.len() > 0 {
        lemma_sanitize_keeps_xml_text(s.drop_last());
        assert(s.drop_last().push(s.last()) =~= s);
    }
}

/// Sanitizing twice is sanitizing once.
pub proof fn lemma_sanitize_idempotent(s: Seq<char>)
    ensures
        xml_chars_only(xml_chars_only(s)) == xml_chars_only(s),
{
    lemma_sanitized_chars_are_xml(s);
    lemma_sanitize_keeps_xml_text(xml_chars_only(s));
}

/// Is `ch` allowed in an XML document?
pub fn is_valid_xml_char(ch: char) -> (r: bool)
    ensures
        r == is_xml_char(ch),
{
    let u = ch as u32;
    u == 0x9 || u == 0xa || u == 0xd || (0x20 <= u && u <= 0xd7ff) || (0xe000 <= u && u <= 0xfffd)
        || (0x10000 <= u && u <= 0x10ffff)
}

/// `input` without the characters that XML does not allow.
pub fn sanitize_xml_str(input: &str) -> (r: String)
    ensures
        r@ == xml_chars_only(input@),
{
    let c = chars_of(input);
    let mut out: Vec<char> = Vec::new();
    let mut i: usize = 0;
    assert(c@.take(0) =~= Seq::<char>::empty());
    while i < c.len()
        invariant
            i <= c@.len(),
            out@ == xml_chars_only(c@.take(i as int)),
        decreases c@.len() - i,
    {
        proof {
            assert(c@.take(i + 1).drop_last() =~= c@.take(i as int));
            assert(c@.take(i + 1).last() == c@[i as int]);
        }
        if is_valid_xml_char(c[i]) {
            out.push(c[i]);
        }
        i = i + 1;
    }
    assert(c@.take(c@.len() as int) =~= c@);
    string_of(out.as_slice())
}

// ---------------------------------------------------------------------------
// Titles and seasons
// ---------------------------------------------------------------------------

/// Is a video of this category a bangumi (anime) video?
pub open spec fn is_bangumi_category(category: i32) -> bool {
    category == 1
}

/// Is a video of this category a bangumi (anime) video?
pub fn is_bangumi_video(category: i32) -> (r: bool)
    ensures
        r == is_bangumi_category(category),
{
    category == 1
}

/// The season part ("第二季") of a full title.
pub open spec fn season_title_of(full_name: Seq<char>) -> Option<Seq<char>> {
    capture_group(".+?(第[一二三四五六七八九十\\d]+季)"@, full_name, 1)
}

/// The season part ("第二季") of a full title.
pub fn extract_season_title_from_full_name(full_name: &str) -> (r: Option<String>)
    ensures
        match r {
            Some(s) => season_title_of(full_name@) == Some(s@),
            None => season_title_of(full_name@) is None,
        },
{
    capture(".+?(第[一二三四五六七八九十\\d]+季)", full_name, 1)
}

/// Bangumi name of a full title, by the first of four title shapes that fits:
/// "《name》...", "name 第N话/集", "《name》subtitle" and "name第N季".
pub open spec fn bangumi_title_of(full_name: Seq<char>) -> Option<Seq<char>> {
    match capture_group("《([^》]+)》"@, full_name, 1) {
        Some(t) => Some(t),
        None => match capture_group("^([^第]+)\\s*第\\d+[话集]"@, full_name, 1) {
            Some(t) => Some(trim(t)),
            None => {
                let c1 = capture_group("《([^》]+)》(.+)"@, full_name, 1);
                let c2 = capture_group("《([^》]+)》(.+)"@, full_name, 2);
                if c1 is Some && c2 is Some && !contains(trim(c2->0), seq!['第']) && !contains(
                    trim(c2->0),
                    seq!['话'],
                ) && !contains(trim(c2->0), seq!['集']) {
                    Some(trim(c1->0))
                } else {
                    match capture_group("^(.+?)第[一二三四五六七八九十\\d]+季$"@, full_name, 1) {
                        Some(t) => Some(trim(t)),
                        None => None,
                    }
                }
            },
        },
    }
}

/// Bangumi name of a full title ("《灵笼 第二季》第1话 末世桃源" gives "灵笼 第二季").
pub fn extract_bangumi_title_from_full_name(full_name: &str) -> (r: Option<String>)
    ensures
        match r {
            Some(s) => bangumi_title_of(full_name@) == Some(s@),
            None => bangumi_title_of(full_name@) is None,
        },
{
    if let Some(t) = capture("《([^》]+)》", full_name, 1) {
        return Some(t);
    }
    if let Some(t) = capture("^([^第]+)\\s*第\\d+[话集]", full_name, 1) {
        let tt = trim_str(t.as_str());
        return Some(string_of(tt.as_slice()));
    }
    let third = capture_pair("《([^》]+)》(.+)", full_name, 1, 2);
    proof {
        if third is None {
            assert(capture_group("《([^》]+)》(.+)"@, full_name@, 1) is None || capture_group(
                "《([^》]+)》(.+)"@,
                full_name@,
                2,
            ) is None);
        }
    }
    if let Some((t, sub)) = third {
        let title = trim_str(t.as_str());
        let subtitle = trim_str(sub.as_str());
        let di = vec!['第'];
        let hua = vec!['话'];
        let ji = vec!['集'];
        assert(di@ =~= seq!['第']);
        assert(hua@ =~= seq!['话']);
        assert(ji@ =~= seq!['集']);
        if !contains_chars(subtitle.as_slice(), di.as_slice()) && !contains_chars(
            subtitle.as_slice(),
            hua.as_slice(),
        ) && !contains_chars(subtitle.as_slice(), ji.as_slice()) {
            return Some(string_of(title.as_slice()));
        }
    }
    if let Some(t) = capture("^(.+?)第[一二三四五六七八九十\\d]+季$", full_name, 1) {
        let tt = trim_str(t.as_str());
        return Some(string_of(tt.as_slice()));
    }
    None
}

/// Value of a season numeral as the total-season estimate reads it: 一 to 十, else
/// digits, else 1.
pub open spec fn season_count_of(numeral: Seq<char>) -> i32 {
    if numeral == seq!['一'] {
        1
    } else if numeral == seq!['二'] {
        2
    } else if numeral == seq!['三'] {
        3
    } else if numeral == seq!['四'] {
        4
    } else if numeral == seq!['五'] {
        5
    } else if numeral == seq!['六'] {
        6
    } else if numeral == seq!['七'] {
        7
    } else if numeral == seq!['八'] {
        8
    } else if numeral == seq!['九'] {
        9
    } else if numeral == seq!['十'] {
        10
    } else {
        match parse_i32(numeral) {
            Some(v) => v,
            None => 1,
        }
    }
}

/// Estimated number of seasons from the numeral that a title names, if any: 1
/// without one.
pub open spec fn seasons_from_numeral(numeral: Option<Seq<char>>) -> i32 {
    match numeral {
        Some(n) => season_count_of(n),
        None => 1,
    }
}

/// Estimated number of seasons of a series: the season its title names, else 1.
pub open spec fn total_seasons_of(title: Seq<char>) -> i32 {
    seasons_from_numeral(capture_group("第([一二三四五六七八九十\\d]+)季"@, title, 1))
}

/// Estimated number of seasons of a series, from the season its title names.
pub fn calculate_total_seasons_from_title(title: &str) -> (r: i32)
    ensures
        r == total_seasons_of(title@),
{
    let numeral = capture("第([一二三四五六七八九十\\d]+)季", title, 1);
    total_seasons_from_numeral(&numeral)
}

/// Estimated number of seasons from the season numeral captured from a
/// title (see `seasons_from_numeral`).
pub fn total_seasons_from_numeral(numeral: &Option<String>) -> (r: i32)
    ensures
        r == seasons_from_numeral(crate::task::opt_text(*numeral)),
{
    match numeral {
        Some(n) => {
            let c = chars_of(n.as_str());
            if single(c.as_slice(), '一') {
                1
            } else if single(c.as_slice(), '二') {
                2
            } else if single(c.as_slice(), '三') {
                3
            } else if single(c.as_slice(), '四') {
                4
            } else if single(c.as_slice(), '五') {
                5
            } else if single(c.as_slice(), '六') {
                6
            } else if single(c.as_slice(), '七') {
                7
            } else if single(c.as_slice(), '八') {
                8
            } else if single(c.as_slice(), '九') {
                9
            } else if single(c.as_slice(), '十') {
                10
            } else {
                match parse_i32_chars(c.as_slice()) {
                    Some(v) => v,
                    None => 1,
                }
            }
        },
        None => 1,
    }
}

fn single(c: &[char], x: char) -> (r: bool)
    ensures
        r == (c@ == seq![x]),
{
    let r = c.len() == 1 && c[0] == x;
    proof {
        if c@.len() == 1 && c@[0] == x {
            assert(c@ =~= seq![x]);
        }
    }
    r
}

// ---------------------------------------------------------------------------
// Chinese numerals
// ---------------------------------------------------------------------------

/// Chinese digit character of `d < 10`.
pub open spec fn cn_digit(d: int) -> char {
    if d == 1 {
        '一'
    } else if d == 2 {
        '二'
    } else if d == 3 {
        '三'
    } else if d == 4 {
        '四'
    } else if d == 5 {
        '五'
    } else if d == 6 {
        '六'
    } else if d == 7 {
        '七'
    } else if d == 8 {
        '八'
    } else if d == 9 {
        '九'
    } else {
        '零'
    }
}

/// Chinese unit of the decimal position `pos` (1 to 8).
pub open spec fn cn_unit(pos: int) -> char {
    if pos == 1 || pos == 5 {
        '十'
    } else if pos == 2 || pos == 6 {
        '百'
    } else if pos == 3 || pos == 7 {
        '千'
    } else if pos == 4 {
        '万'
    } else {
        '亿'
    }
}

/// Chinese reading of the decimal digits `ds` appended to `out`: each non-zero
/// digit with the unit of its position, one "零" for each run of zeros between
/// non-zero digits.
pub open spec fn cn_scan(ds: Seq<char>, out: Seq<char>, pending_zero: bool) -> Seq<char>
    decreases ds.len(),
{
    if ds.len() == 0 {
        out
    } else {
        let d = digit_value(ds[0]);
        let pos = ds.len() - 1;
        if d == 0 {
            cn_scan(
                ds.drop_first(),
                out,
                if out.len() > 0 {
                    true
                } else {
                    pending_zero
                },
            )
        } else {
            let o1 = if pending_zero {
                out.push('零')
            } else {
                out
            };
            let o2 = o1.push(cn_digit(d));
            let o3 = if 0 < pos < 9 {
                o2.push(cn_unit(pos))
            } else {
                o2
            };
            cn_scan(ds.drop_first(), o3, false)
        }
    }
}

/// Chinese numeral of `num` (at least one), with a leading "一十" written "十".
pub open spec fn chinese_number_text(num: i32) -> Seq<char> {
    let n: nat = if num >= 1 {
        num as nat
    } else {
        1
    };
    let r = cn_scan(nat_digits(n), seq![], false);
    if starts_with(r, seq!['一', '十']) {
        seq!['十'] + r.skip(2)
    } else {
        r
    }
}

fn cn_digit_char(d: u32) -> (c: char)
    ensures
        c == cn_digit(d as int),
{
    if d == 1 {
        '一'
    } else if d == 2 {
        '二'
    } else if d == 3 {
        '三'
    } else if d == 4 {
        '四'
    } else if d == 5 {
        '五'
    } else if d == 6 {
        '六'
    } else if d == 7 {
        '七'
    } else if d == 8 {
        '八'
    } else if d == 9 {
        '九'
    } else {
        '零'
    }
}

fn cn_unit_char(pos: usize) -> (c: char)
    ensures
        c == cn_unit(pos as int),
{
    if pos == 1 || pos == 5 {
        '十'
    } else if pos == 2 || pos == 6 {
        '百'
    } else if pos == 3 || pos == 7 {
        '千'
    } else if pos == 4 {
        '万'
    } else {
        '亿'
    }
}

proof fn lemma_nat_digits_are_digits(n: nat)
    ensures
        forall|i: int| 0 <= i < nat_digits(n).len() ==> '0' <= #[trigger] nat_digits(n)[i] <= '9',
    decreases n,
{
    crate::text::lemma_digit_char_range(n % 10);
    if n >= 10 {
        lemma_nat_digits_are_digits(n / 10);
        assert(nat_digits(n) == nat_digits(n / 10).push(crate::text::digit_char(n % 10)));
    } else {
        assert(n % 10 == n);
    }
}

/// Chinese numeral of `num` ("十二" for 12); numbers below one are read as one.
pub fn number_to_chinese(num: i32) -> (r: String)
    ensures
        r@ == chinese_number_text(num),
{
    let n: u64 = if num >= 1 {
        num as u64
    } else {
        1
    };
    let ds = nat_text(n);
    proof {
        lemma_nat_digits_are_digits(n as nat);
    }
    let mut out: Vec<char> = Vec::new();
    let mut pending_zero = false;
    let mut i: usize = 0;
    assert(ds@.skip(0) =~= ds@);
    while i < ds.len()
        invariant
            i <= ds@.len(),
            forall|k: int| 0 <= k < ds@.len() ==> '0' <= #[trigger] ds@[k] <= '9',
            cn_scan(ds@, seq![], false) == cn_scan(ds@.skip(i as int), out@, pending_zero),
        decreases ds@.len() - i,
    {
        let c = ds[i];
        let d: u32 = c as u32 - '0' as u32;
        let pos = ds.len() - i - 1;
        proof {
            assert(ds@.skip(i as int).drop_first() =~= ds@.skip(i + 1));
            assert(ds@.skip(i as int)[0] == c);
            assert(ds@.skip(i as int).len() - 1 == pos);
        }
        if d == 0 {
            if out.len() > 0 {
                pending_zero = true;
            }
        } else {
            if pending_zero {
                out.push('零');
                pending_zero = false;
            }
            out.push(cn_digit_char(d));
            if pos > 0 && pos < 9 {
                out.push(cn_unit_char(pos));
            }
        }
        i = i + 1;
    }
    assert(ds@.skip(i as int) =~= Seq::<char>::empty());
    let yi_shi = vec!['一', '十'];
    assert(yi_shi@ =~= seq!['一', '十']);
    if starts_with_chars(out.as_slice(), yi_shi.as_slice()) {
        let mut r: Vec<char> = Vec::new();
        r.push('十');
        let rest = slice_chars(out.as_slice(), 2, out.len());
        crate::text::push_all(&mut r, rest.as_slice());
        assert(r@ =~= seq!['十'] + out@.skip(2));
        string_of(r.as_slice())
    } else {
        string_of(out.as_slice())
    }
}

// ---------------------------------------------------------------------------
// Subtitles and validation
// ---------------------------------------------------------------------------

/// The subtitle that the text after "《name》" gives, trimmed: none when
/// there is no such text, or it is empty, names an episode, is a language
/// tag, or has at most two UTF-8 bytes.
pub open spec fn subtitle_from(captured: Option<Seq<char>>) -> Option<Seq<char>> {
    match captured {
        Some(c) => {
            let sub = trim(c);
            if sub.len() > 0 && !contains(sub, seq!['第']) && !contains(sub, seq!['话']) && !contains(
                sub,
                seq!['集'],
            ) && sub != "日配"@ && sub != "中配"@ && sub != "国语"@ && sub != "粤语"@ && utf8_len(sub)
                > 2 {
                Some(sub)
            } else {
                None
            }
        },
        None => None,
    }
}

/// Subtitle after "《name》" in a share text (see `subtitle_from`).
pub open spec fn subtitle_of(share_copy: Seq<char>) -> Option<Seq<char>> {
    subtitle_from(capture_group("《[^》]+》\\s*(.+)"@, share_copy, 1))
}

/// Subtitle of a share text ("《名侦探柯南 计时引爆摩天楼》柯南剧场版开山之作" gives "柯南剧场版开山之作").
pub fn extract_subtitle_from_share_copy(share_copy: &str) -> (r: Option<String>)
    ensures
        match r {
            Some(s) => subtitle_of(share_copy@) == Some(s@),
            None => subtitle_of(share_copy@) is None,
        },
{
    let captured = capture("《[^》]+》\\s*(.+)", share_copy, 1);
    subtitle_from_capture(&captured)
}

/// The subtitle that the text captured after "《name》" gives (see
/// `subtitle_from`).
pub fn subtitle_from_capture(captured: &Option<String>) -> (r: Option<String>)
    ensures
        match r {
            Some(s) => subtitle_from(crate::task::opt_text(*captured)) == Some(s@),
            None => subtitle_from(crate::task::opt_text(*captured)) is None,
        },
{
    match captured {
        Some(c) => {
            let sub = trim_str(c.as_str());
            let di = vec!['第'];
            let hua = vec!['话'];
            let ji = vec!['集'];
            assert(di@ =~= seq!['第']);
            assert(hua@ =~= seq!['话']);
            assert(ji@ =~= seq!['集']);
            let ri = chars_of("日配");
            let zhong = chars_of("中配");
            let guo = chars_of("国语");
            let yue = chars_of("粤语");
            if sub.len() > 0 && !contains_chars(sub.as_slice(), di.as_slice()) && !contains_chars(
                sub.as_slice(),
                hua.as_slice(),
            ) && !contains_chars(sub.as_slice(), ji.as_slice()) && !chars_eq(
                sub.as_slice(),
                ri.as_slice(),
            ) && !chars_eq(sub.as_slice(), zhong.as_slice()) && !chars_eq(
                sub.as_slice(),
                guo.as_slice(),
            ) && !chars_eq(sub.as_slice(), yue.as_slice()) && !utf8_len_at_most(sub.as_slice(), 2) {
                Some(string_of(sub.as_slice()))
            } else {
                None
            }
        },
        None => None,
    }
}

/// Are the name and BV id usable for a metadata file?
pub open spec fn nfo_data_valid(name: Seq<char>, bvid: Seq<char>) -> bool {
    trim(name).len() > 0 && trim(bvid).len() > 0 && starts_with(bvid, seq!['B', 'V']) && utf8_len(
        bvid,
    ) >= 10
}

/// Are the name and BV id usable for a metadata file (a non-blank name, a
/// "BV" id of at least ten bytes)?
pub fn validate_nfo_data(name: &str, bvid: &str, upper_name: &str) -> (r: bool)
    ensures
        r == nfo_data_valid(name@, bvid@),
{
    let n = trim_str(name);
    let b = trim_str(bvid);
    let bc = chars_of(bvid);
    let bv = vec!['B', 'V'];
    assert(bv@ =~= seq!['B', 'V']);
    n.len() > 0 && b.len() > 0 && starts_with_chars(bc.as_slice(), bv.as_slice())
        && !utf8_len_at_most(bc.as_slice(), 9)
}

// ---------------------------------------------------------------------------
// Actors
// ---------------------------------------------------------------------------

/// How an actor entry is written for an uploader without a name.
#[derive(Clone, Copy, Debug, PartialEq, Eq, Structural)]
pub enum EmptyUpperStrategy {
    /// No actor entry.
    Skip,
    /// The configured placeholder name.
    Placeholder,
    /// The configured default name.
    Default,
}

/// Actor entry (name, role) of the uploader.
pub open spec fn upper_actor_of(
    upper_name: Seq<char>,
    strategy: EmptyUpperStrategy,
    placeholder: Seq<char>,
    default_name: Seq<char>,
) -> Option<(Seq<char>, Seq<char>)> {
    let t = trim(upper_name);
    if t.len() > 0 {
        Some((t, "UP主"@))
    } else {
        match strategy {
            EmptyUpperStrategy::Skip => None,
            EmptyUpperStrategy::Placeholder => Some((placeholder, "UP主"@)),
            EmptyUpperStrategy::Default => Some((default_name, "UP主"@)),
        }
    }
}

/// Actor entry (name, role "UP主") of the uploader: the trimmed nickname, or by
/// `strategy` when it is blank.
pub fn upper_actor(
    upper_name: &str,
    strategy: EmptyUpperStrategy,
    placeholder: &String,
    default_name: &String,
) -> (r: Option<(String, String)>)
    ensures
        match r {
            Some(p) => upper_actor_of(upper_name@, strategy, placeholder@, default_name@) == Some(
                (p.0@, p.1@),
            ),
            None => upper_actor_of(upper_name@, strategy, placeholder@, default_name@) is None,
        },
{
    let t = trim_str(upper_name);
    if t.len() > 0 {
        Some((string_of(t.as_slice()), "UP主".to_owned()))
    } else {
        match strategy {
            EmptyUpperStrategy::Skip => None,
            EmptyUpperStrategy::Placeholder => Some((placeholder.clone(), "UP主".to_owned())),
            EmptyUpperStrategy::Default => Some((default_name.clone(), "UP主".to_owned())),
        }
    }
}

/// (character, actor) of one line of an actor list: "角色：演员" or "角色:演员",
/// or ("演员", line) without a colon; blank lines and entries with a blank side give none.
pub open spec fn actor_of_line(line: Seq<char>) -> Option<(Seq<char>, Seq<char>)> {
    let l = trim(line);
    if l.len() == 0 {
        None
    } else {
        match find(l, seq!['：']) {
            Some(p) => {
                let c = trim(l.take(p));
                let a = trim(l.skip(p + 1));
                if c.len() > 0 && a.len() > 0 {
                    Some((c, a))
                } else {
                    None
                }
            },
            None => match find(l, seq![':']) {
                Some(p) => {
                    let c = trim(l.take(p));
                    let a = trim(l.skip(p + 1));
                    if c.len() > 0 && a.len() > 0 {
                        Some((c, a))
                    } else {
                        None
                    }
                },
                None => Some(("演员"@, l)),
            },
        }
    }
}

/// The actor entries of a list of lines, in order.
pub open spec fn actors_of_lines(lines: Seq<Seq<char>>) -> Seq<(Seq<char>, Seq<char>)>
    decreases lines.len(),
{
    if lines.len() == 0 {
        seq![]
    } else {
        let r = actors_of_lines(lines.drop_last());
        match actor_of_line(lines.last()) {
            Some(a) => r.push(a),
            None => r,
        }
    }
}

/// The (character, actor) entries of an actor list, one per line.
pub open spec fn parsed_actors(actors: Seq<char>) -> Seq<(Seq<char>, Seq<char>)> {
    actors_of_lines(split(actors, '\n'))
}

/// Every parsed cast entry has a non-blank character and a non-blank actor.
pub proof fn lemma_cast_entries_not_blank(lines: Seq<Seq<char>>)
    ensures
        forall|i: int|
            0 <= i < actors_of_lines(lines).len() ==> (#[trigger] actors_of_lines(lines)[i]).0.len() > 0
                && actors_of_lines(lines)[i].1.len() > 0,
    decreases lines.len(),
{
    if lines.len() > 0 {
        lemma_cast_entries_not_blank(lines.drop_last());
        let r = actors_of_lines(lines.drop_last());
        match actor_of_line(lines.last()) {
            Some(a) => {
                lemma_trim_nonempty_line(lines.last());
                assert forall|i: int| 0 <= i < r.push(a).len() implies (#[trigger] r.push(a)[i]).0.len() > 0
                    && r.push(a)[i].1.len() > 0 by {
                    if i < r.len() {
                        assert(r.push(a)[i] == r[i]);
                    }
                }
            },
            None => {},
        }
    }
}

proof fn lemma_trim_nonempty_line(line: Seq<char>)
    ensures
        actor_of_line(line) matches Some(a) ==> a.0.len() > 0 && a.1.len() > 0,
{
    reveal_strlit("演员");
}

/// The (character, actor) pairs of a list, as values.
pub open spec fn pair_texts(v: Seq<(String, String)>) -> Seq<(Seq<char>, Seq<char>)> {
    v.map_values(|p: (String, String)| (p.0@, p.1@))
}

proof fn lemma_find_bound(s: Seq<char>, pat: Seq<char>)
    ensures
        find(s, pat) matches Some(i) ==> 0 <= i && i + pat.len() <= s.len(),
    decreases s.len(),
{
    if s.len() >= pat.len() && !starts_with(s, pat) && s.len() > 0 {
        lemma_find_bound(s.drop_first(), pat);
    }
}

fn split_actor(l: &[char], p: usize) -> (r: Option<(String, String)>)
    requires
        p < l@.len(),
    ensures
        match r {
            Some(x) => trim(l@.take(p as int)).len() > 0 && trim(l@.skip(p + 1)).len() > 0 && x.0@
                == trim(l@.take(p as int)) && x.1@ == trim(l@.skip(p + 1)),
            None => !(trim(l@.take(p as int)).len() > 0 && trim(l@.skip(p + 1)).len() > 0),
        },
{
    let n = l.len();
    let head = slice_chars(l, 0, p);
    let tail = slice_chars(l, p + 1, n);
    assert(head@ =~= l@.take(p as int));
    assert(tail@ =~= l@.skip(p + 1));
    let c = trim_chars(head.as_slice());
    let a = trim_chars(tail.as_slice());
    if c.len() > 0 && a.len() > 0 {
        Some((string_of(c.as_slice()), string_of(a.as_slice())))
    } else {
        None
    }
}

fn actor_from_line(line: &[char]) -> (r: Option<(String, String)>)
    ensures
        match r {
            Some(x) => actor_of_line(line@) == Some((x.0@, x.1@)),
            None => actor_of_line(line@) is None,
        },
{
    let l = trim_chars(line);
    if l.len() == 0 {
        return None;
    }
    let wide = vec!['：'];
    let narrow = vec![':'];
    assert(wide@ =~= seq!['：']);
    assert(narrow@ =~= seq![':']);
    match find_chars(l.as_slice(), wide.as_slice()) {
        Some(p) => {
            proof {
                lemma_find_bound(l@, wide@);
            }
            split_actor(l.as_slice(), p)
        },
        None => match find_chars(l.as_slice(), narrow.as_slice()) {
            Some(p) => {
                proof {
                    lemma_find_bound(l@, narrow@);
                }
                split_actor(l.as_slice(), p)
            },
            None => Some(("演员".to_owned(), string_of(l.as_slice()))),
        },
    }
}

/// The (character, actor) entries of an actor list such as "江户川柯南：高山南\n毛利兰：山崎和佳奈".
pub fn parse_actors_string(actors_str: &str) -> (r: Vec<(String, String)>)
    ensures
        pair_texts(r@) == parsed_actors(actors_str@),
{
    let c = chars_of(actors_str);
    let lines = split_chars(c.as_slice(), '\n');
    let ghost ls = split(actors_str@, '\n');
    let mut out: Vec<(String, String)> = Vec::new();
    let mut i: usize = 0;
    assert(ls.take(0) =~= Seq::<Seq<char>>::empty());
    assert(pair_texts(out@) =~= Seq::<(Seq<char>, Seq<char>)>::empty());
    while i < lines.len()
        invariant
            i <= lines@.len(),
            ls == crate::text::seqs_of(lines@),
            pair_texts(out@) == actors_of_lines(ls.take(i as int)),
        decreases lines@.len() - i,
    {
        proof {
            assert(ls.take(i + 1).drop_last() =~= ls.take(i as int));
            assert(ls.take(i + 1).last() == lines@[i as int]@);
        }
        let ghost before = out@;
        match actor_from_line(lines[i].as_slice()) {
            Some(a) => {
                out.push(a);
                assert(pair_texts(out@) =~= pair_texts(before).push((a.0@, a.1@)));
            },
            None => {},
        }
        i = i + 1;
    }
    assert(ls.take(lines@.len() as int) =~= ls);
    out
}

/// One member of a staff list as written: (mid, name, title, face); none for a blank name.
pub open spec fn staff_member_of(e: StaffView) -> Option<(int, Seq<char>, Seq<char>, Option<Seq<char>>)> {
    let name = match e.1 {
        Some(n) => n,
        None => seq![],
    };
    if name.len() == 0 {
        None
    } else {
        Some(
            (
                match e.0 {
                    Some(m) => m as int,
                    None => 0,
                },
                name,
                match e.2 {
                    Some(t) => t,
                    None => "参与者"@,
                },
                e.3,
            ),
        )
    }
}

/// The members of a staff list that have a name, in order.
pub open spec fn staff_members(entries: Seq<StaffView>) -> Seq<(int, Seq<char>, Seq<char>, Option<Seq<char>>)>
    decreases entries.len(),
{
    if entries.len() == 0 {
        seq![]
    } else {
        let r = staff_members(entries.drop_last());
        match staff_member_of(entries.last()) {
            Some(m) => r.push(m),
            None => r,
        }
    }
}

/// A written staff member as values.
pub open spec fn staff_texts(v: Seq<(i64, String, String, Option<String>)>) -> Seq<
    (int, Seq<char>, Seq<char>, Option<Seq<char>>),
> {
    v.map_values(
        |m: (i64, String, String, Option<String>)|
            (
                m.0 as int,
                m.1@,
                m.2@,
                match m.3 {
                    Some(f) => Some(f@),
                    None => None,
                },
            ),
    )
}

/// The members of a staff list with a name: (mid or 0, name, title or "参与者", face).
pub fn parse_staff_info(staff_info: &Vec<StaffEntry>) -> (r: Vec<(i64, String, String, Option<String>)>)
    ensures
        staff_texts(r@) == staff_members(staff_views(staff_info@)),
{
    let ghost sv = staff_views(staff_info@);
    let mut out: Vec<(i64, String, String, Option<String>)> = Vec::new();
    let mut i: usize = 0;
    assert(sv.take(0) =~= Seq::<StaffView>::empty());
    assert(staff_texts(out@) =~= seq![]);
    while i < staff_info.len()
        invariant
            i <= staff_info@.len(),
            sv == staff_views(staff_info@),
            staff_texts(out@) == staff_members(sv.take(i as int)),
        decreases staff_info@.len() - i,
    {
        proof {
            assert(sv.take(i + 1).drop_last() =~= sv.take(i as int));
            assert(sv.take(i + 1).last() == staff_info@[i as int]@);
        }
        let item = &staff_info[i];
        let name = match &item.name {
            Some(n) => n.clone(),
            None => String::new(),
        };
        let name_len = chars_of(name.as_str()).len();
        if name_len > 0 {
            let mid = match item.mid {
                Some(m) => m,
                None => 0,
            };
            let title = match &item.title {
                Some(t) => t.clone(),
                None => "参与者".to_owned(),
            };
            let face = match &item.face {
                Some(f) => Some(f.clone()),
                None => None,
            };
            let ghost before = out@;
            out.push((mid, name, title, face));
            assert(staff_texts(out@) =~= staff_texts(before).push(
                staff_member_of(staff_info@[i as int]@)->0,
            ));
        }
        i = i + 1;
    }
    assert(sv.take(sv.len() as int) =~= sv);
    out
}

/// A season label written in Chinese reads back as its number: for every
/// number from 1 to 99, the Chinese numeral written for it is read by the
/// season parser as that number.
pub proof fn lemma_chinese_label_round_trip(n: i32)
    requires
        1 <= n <= 99,
    ensures
        crate::bangumi_name::chinese_numeral(chinese_number_text(n)) == Some(n as nat),
{
    let m = n as nat;
    if m < 10 {
        assert(nat_digits(m) == seq![crate::text::digit_char(m)]);
        lemma_digit_round_trip(m);
        let ds = nat_digits(m);
        assert(ds.drop_first() =~= Seq::<char>::empty());
        assert(cn_scan(ds, seq![], false) == cn_scan(ds.drop_first(), seq![].push(cn_digit(m as int)), false));
        let r = seq![cn_digit(m as int)];
        assert(seq![].push(cn_digit(m as int)) =~= r);
        assert(cn_scan(ds, seq![], false) == r);
        assert(!starts_with(r, seq!['一', '十']));
    } else {
        let a: nat = m / 10;
        let b: nat = m % 10;
        assert(1 <= a <= 9);
        assert(nat_digits(a) == seq![crate::text::digit_char(a)]);
        assert(nat_digits(m) == nat_digits(a).push(crate::text::digit_char(b)));
        lemma_digit_round_trip(a);
        lemma_digit_round_trip(b);
        let ds = nat_digits(m);
        assert(ds =~= seq![crate::text::digit_char(a), crate::text::digit_char(b)]);
        let o1 = seq![].push(cn_digit(a as int)).push('十');
        assert(ds.drop_first() =~= seq![crate::text::digit_char(b)]);
        assert(ds.drop_first().drop_first() =~= Seq::<char>::empty());
        assert(cn_unit(1) == '十');
        assert(cn_scan(ds, seq![], false) == cn_scan(ds.drop_first(), o1, false));
        if b == 0 {
            assert(cn_scan(ds.drop_first(), o1, false) == cn_scan(ds.drop_first().drop_first(), o1, true));
            assert(cn_scan(ds, seq![], false) == o1);
            assert(o1 =~= seq![cn_digit(a as int), '十']);
            if a == 1 {
                assert(o1.subrange(0, 2) =~= seq!['一', '十']);
                assert(o1.take(2) =~= seq!['一', '十']);
                assert(starts_with(o1, seq!['一', '十']));
                assert(seq!['十'] + o1.skip(2) =~= seq!['十']);
            } else {
                assert(!starts_with(o1, seq!['一', '十']));
            }
        } else {
            let o2 = o1.push(cn_digit(b as int));
            assert(cn_scan(ds.drop_first(), o1, false) == cn_scan(ds.drop_first().drop_first(), o2, false));
            assert(cn_scan(ds, seq![], false) == o2);
            assert(o2 =~= seq![cn_digit(a as int), '十', cn_digit(b as int)]);
            if a == 1 {
                assert(o2.subrange(0, 2) =~= seq!['一', '十']);
                assert(o2.take(2) =~= seq!['一', '十']);
                assert(starts_with(o2, seq!['一', '十']));
                assert(seq!['十'] + o2.skip(2) =~= seq!['十', cn_digit(b as int)]);
            } else {
                assert(!starts_with(o2, seq!['一', '十']));
            }
        }
    }
}

/// A decimal digit's character reads back as the digit, and its Chinese
/// digit reads back as well.
proof fn lemma_digit_round_trip(d: nat)
    requires
        d < 10,
    ensures
        digit_value(crate::text::digit_char(d)) == d,
        d > 0 ==> crate::bangumi_name::positive_digit(cn_digit(d as int)) == Some(d),
{
}

} // verus!
