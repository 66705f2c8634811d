//! Series names and season numbers read from bangumi titles.
use vstd::prelude::*;
use crate::text::{
    chars_of, collapse_spaces, find, find_chars, join, parse_i32, parse_i32_chars, slice_chars,
    string_of, trim, trim_chars, trim_str, words,
};

verus! {

/// Value of a Chinese digit character.
pub open spec fn chinese_digit(c: char) -> Option<nat> {
    if c == '零' {
        Some(0)
    } else if c == '一' {
        Some(1)
    } else if c == '二' || c == '两' {
        Some(2)
    } else if c == '三' {
        Some(3)
    } else if c == '四' {
        Some(4)
    } else if c == '五' {
        Some(5)
    } else if c == '六' {
        Some(6)
    } else if c == '七' {
        Some(7)
    } else if c == '八' {
        Some(8)
    } else if c == '九' {
        Some(9)
    } else {
        None
    }
}

/// A non-zero Chinese digit's value.
pub open spec fn positive_digit(c: char) -> Option<nat> {
    match chinese_digit(c) {
        Some(d) => if d > 0 {
            Some(d)
        } else {
            None
        },
        None => None,
    }
}

/// Value of a Chinese numeral from one to ninety-nine ("三", "十", "十一", "二十", "二十一").
pub open spec fn chinese_numeral(s: Seq<char>) -> Option<nat> {
    if s.len() == 1 {
        if s[0] == '十' {
            Some(10)
        } else {
            positive_digit(s[0])
        }
    } else if s.len() == 2 {
        if s[0] == '十' {
            match positive_digit(s[1]) {
                Some(d) => Some(10 + d),
                None => None,
            }
        } else if s[1] == '十' {
            match positive_digit(s[0]) {
                Some(d) => Some(10 * d),
                None => None,
            }
        } else {
            None
        }
    } else if s.len() == 3 && s[1] == '十' {
        match (positive_digit(s[0]), positive_digit(s[2])) {
            (Some(a), Some(b)) => Some(10 * a + b),
            _ => None,
        }
    } else {
        None
    }
}

/// A Chinese numeral reads as a number from 1 to 99.
pub proof fn lemma_chinese_numeral_range(s: Seq<char>)
    ensures
        chinese_numeral(s) matches Some(n) ==> 1 <= n <= 99,
{
}

/// A season count written in Arabic digits (positive) or as a Chinese numeral.
pub open spec fn season_numeral(s: Seq<char>) -> Option<nat> {
    match parse_i32(s) {
        Some(v) => if v > 0 {
            Some(v as nat)
        } else {
            chinese_numeral(s)
        },
        None => chinese_numeral(s),
    }
}

/// Series name and season number of a bangumi title: a trailing "第N季" is
/// cut off and read as the season; without it the season is 1.
pub open spec fn series_name_and_season(title: Seq<char>) -> (Seq<char>, nat) {
    let t = trim(title);
    match find(t, seq!['第']) {
        Some(p) => if t.len() >= 2 && t.last() == '季' && p + 1 < t.len() - 1 {
            match season_numeral(t.subrange(p + 1, t.len() - 1)) {
                Some(n) => (trim(t.take(p)), n),
                None => (t, 1),
            }
        } else {
            (t, 1)
        },
        None => (t, 1),
    }
}

/// The Chinese digits from one to nine, in order.
pub open spec fn chinese_digits_one_to_nine() -> Seq<char> {
    seq!['一', '二', '三', '四', '五', '六', '七', '八', '九']
}

/// A title made of a name and a trailing "第N季", where N is a Chinese digit
/// from 一 to 九 or decimal digits of a positive `i32`, has season N (the
/// name not starting with white space and holding no "第").
pub proof fn lemma_trailing_season_marker(base: Seq<char>, numeral: Seq<char>, n: int)
    requires
        forall|k: int| 0 <= k < base.len() ==> base[k] != '第',
        base.len() > 0 ==> !crate::text::is_white_space(base[0]),
        ({
            ||| (1 <= n <= 9 && numeral == seq![chinese_digits_one_to_nine()[n - 1]])
            ||| (numeral.len() > 0 && (forall|k: int| 0 <= k < numeral.len() ==> '0' <= #[trigger] numeral[k] <= '9')
                && crate::text::digits_value(numeral) == n && 1 <= n <= i32::MAX)
        }),
    ensures
        series_name_and_season(base + seq!['第'] + numeral + seq!['季']).1 == n,
{
    let rest = numeral + seq!['季'];
    let t = base + (seq!['第'] + rest);
    assert(t =~= base + seq!['第'] + numeral + seq!['季']);
    if base.len() > 0 {
        assert(t[0] == base[0]);
    }
    assert(t.last() == '季');
    crate::text::lemma_trim_unchanged(t);
    crate::text::lemma_find_char_after(base, seq!['第'] + rest, '第');
    let p = base.len() as int;
    assert(t.subrange(p + 1, t.len() - 1) =~= numeral);
    if 1 <= n <= 9 && numeral == seq![chinese_digits_one_to_nine()[n - 1]] {
        assert(!crate::text::all_digits(numeral)) by {
            assert(!('0' <= numeral[0] <= '9'));
        }
        assert(numeral[0] != '+' && numeral[0] != '-');
        assert(parse_i32(numeral) is None);
        assert(chinese_numeral(numeral) == Some(n as nat));
    } else {
        assert(crate::text::all_digits(numeral));
        assert(numeral[0] != '+' && numeral[0] != '-') by {
            assert('0' <= numeral[0] <= '9');
        }
        assert(parse_i32(numeral) == Some(n as i32));
    }
}

/// A series name with runs of white space collapsed into single spaces.
pub open spec fn normalized_series_name(name: Seq<char>) -> Seq<char> {
    join(words(name), seq![' '])
}

/// Value of a Chinese digit character.
pub fn chinese_digit_value(c: char) -> (r: Option<u32>)
    ensures
        match r {
            Some(d) => chinese_digit(c) == Some(d as nat),
            None => chinese_digit(c) is None,
        },
{
    if c == '零' {
        Some(0)
    } else if c == '一' {
        Some(1)
    } else if c == '二' || c == '两' {
        Some(2)
    } else if c == '三' {
        Some(3)
    } else if c == '四' {
        Some(4)
    } else if c == '五' {
        Some(5)
    } else if c == '六' {
        Some(6)
    } else if c == '七' {
        Some(7)
    } else if c == '八' {
        Some(8)
    } else if c == '九' {
        Some(9)
    } else {
        None
    }
}

fn positive_digit_value(c: char) -> (r: Option<u32>)
    ensures
        match r {
            Some(d) => positive_digit(c) == Some(d as nat) && 1 <= d <= 9,
            None => positive_digit(c) is None,
        },
{
    match chinese_digit_value(c) {
        Some(d) => if d > 0 {
            Some(d)
        } else {
            None
        },
        None => None,
    }
}

/// Value of a Chinese numeral from one to ninety-nine.
pub fn chinese_numeral_to_number(s: &[char]) -> (r: Option<u32>)
    ensures
        match r {
            Some(n) => chinese_numeral(s@) == Some(n as nat),
            None => chinese_numeral(s@) is None,
        },
{
    if s.len() == 1 {
        if s[0] == '十' {
            Some(10)
        } else {
            positive_digit_value(s[0])
        }
    } else if s.len() == 2 {
        if s[0] == '十' {
            match positive_digit_value(s[1]) {
                Some(d) => Some(10 + d),
                None => None,
            }
        } else if s[1] == '十' {
            match positive_digit_value(s[0]) {
                Some(d) => Some(10 * d),
                None => None,
            }
        } else {
            None
        }
    } else if s.len() == 3 && s[1] == '十' {
        match (positive_digit_value(s[0]), positive_digit_value(s[2])) {
            (Some(a), Some(b)) => Some(10 * a + b),
            _ => None,
        }
    } else {
        None
    }
}

/// A season count written in Arabic digits (positive) or as a Chinese numeral.
pub fn season_numeral_value(s: &[char]) -> (r: Option<u32>)
    ensures
        match r {
            Some(n) => season_numeral(s@) == Some(n as nat),
            None => season_numeral(s@) is None,
        },
{
    match parse_i32_chars(s) {
        Some(v) => if v > 0 {
            Some(v as u32)
        } else {
            chinese_numeral_to_number(s)
        },
        None => chinese_numeral_to_number(s),
    }
}

/// Series name and season number of a bangumi title.
pub fn extract_series_name_and_season(title: &str) -> (r: (String, u32))
    ensures
        r.0@ == series_name_and_season(title@).0,
        r.1 as nat == series_name_and_season(title@).1,
{
    let t = trim_str(title);
    let di = vec!['第'];
    assert(di@ =~= seq!['第']);
    match find_chars(t.as_slice(), di.as_slice()) {
        Some(p) => {
            if t.len() >= 2 && t[t.len() - 1] == '季' && p < t.len() - 2 {
                let num = slice_chars(t.as_slice(), p + 1, t.len() - 1);
                match season_numeral_value(num.as_slice()) {
                    Some(n) => {
                        let head = slice_chars(t.as_slice(), 0, p);
                        assert(head@ =~= t@.take(p as int));
                        let name = trim_chars(head.as_slice());
                        (string_of(name.as_slice()), n)
                    },
                    None => (string_of(t.as_slice()), 1),
                }
            } else {
                (string_of(t.as_slice()), 1)
            }
        },
        None => (string_of(t.as_slice()), 1),
    }
}

/// A series name with runs of white space collapsed into single spaces.
pub fn normalize_series_name(name: &str) -> (r: String)
    ensures
        r@ == normalized_series_name(name@),
{
    let c = chars_of(name);
    let n = collapse_spaces(c.as_slice());
    string_of(n.as_slice())
}

} // verus!
