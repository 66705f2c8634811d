//! Character-level string helpers with exact specifications.
//!
//! Strings are modelled by their character sequences (`s@`).  Every helper
//! here states its result as a spec function over `Seq<char>`.
use vstd::prelude::*;

verus! {

// ---------------------------------------------------------------------------
// Specifications
// ---------------------------------------------------------------------------

/// Unicode `White_Space`, the property that `char::is_whitespace` and `str::trim` use.
pub open spec fn is_white_space(c: char) -> bool {
    let u = c as u32;
    ||| 0x9 <= u <= 0xd
    ||| u == 0x20
    ||| u == 0x85
    ||| u == 0xa0
    ||| u == 0x1680
    ||| 0x2000 <= u <= 0x200a
    ||| u == 0x2028
    ||| u == 0x2029
    ||| u == 0x202f
    ||| u == 0x205f
    ||| u == 0x3000
}

/// `s` with its leading white space removed.
pub open spec fn trim_start(s: Seq<char>) -> Seq<char>
    decreases s.len(),
{
    if s.len() > 0 && is_white_space(s[0]) {
        trim_start(s.drop_first())
    } else {
        s
    }
}

/// `s` with its trailing white space removed.
pub open spec fn trim_end(s: Seq<char>) -> Seq<char>
    decreases s.len(),
{
    if s.len() > 0 && is_white_space(s.last()) {
        trim_end(s.drop_last())
    } else {
        s
    }
}

/// `s` with leading and trailing white space removed (`str::trim`).
pub open spec fn trim(s: Seq<char>) -> Seq<char> {
    trim_end(trim_start(s))
}

/// Does `s` start with `p`?
pub open spec fn starts_with(s: Seq<char>, p: Seq<char>) -> bool {
    p.len() <= s.len() && s.take(p.len() as int) == p
}

/// Does `s` end with `p`?
pub open spec fn ends_with(s: Seq<char>, p: Seq<char>) -> bool {
    p.len() <= s.len() && s.skip(s.len() - p.len()) == p
}

/// Index of the first occurrence of `pat` in `s` (`str::find`).
pub open spec fn find(s: Seq<char>, pat: Seq<char>) -> Option<int>
    decreases s.len(),
{
    if s.len() < pat.len() {
        None
    } else if starts_with(s, pat) {
        Some(0)
    } else if s.len() == 0 {
        None
    } else {
        match find(s.drop_first(), pat) {
            Some(i) => Some(i + 1),
            None => None,
        }
    }
}

/// Does `pat` occur in `s`?
pub open spec fn contains(s: Seq<char>, pat: Seq<char>) -> bool {
    find(s, pat) is Some
}

/// Left-to-right, non-overlapping replacement of `from` by `to` (`str::replace`).
pub open spec fn replace(s: Seq<char>, from: Seq<char>, to: Seq<char>) -> Seq<char>
    decreases s.len(),
{
    if from.len() == 0 || s.len() < from.len() {
        s
    } else if starts_with(s, from) {
        to + replace(s.skip(from.len() as int), from, to)
    } else {
        seq![s[0]] + replace(s.drop_first(), from, to)
    }
}

/// Words of `s` seen from a scan position: `cur` is the word being read,
/// `acc` the words already complete.
pub open spec fn words_from(s: Seq<char>, cur: Seq<char>, acc: Seq<Seq<char>>) -> Seq<Seq<char>>
    decreases s.len(),
{
    if s.len() == 0 {
        if cur.len() > 0 {
            acc.push(cur)
        } else {
            acc
        }
    } else if is_white_space(s[0]) {
        words_from(s.drop_first(), seq![], if cur.len() > 0 { acc.push(cur) } else { acc })
    } else {
        words_from(s.drop_first(), cur.push(s[0]), acc)
    }
}

/// The maximal runs of non-white-space characters of `s` (`str::split_whitespace`).
pub open spec fn words(s: Seq<char>) -> Seq<Seq<char>> {
    words_from(s, seq![], seq![])
}

/// The pieces joined with `sep` between them (`slice::join`).
pub open spec fn join(pieces: Seq<Seq<char>>, sep: Seq<char>) -> Seq<char>
    decreases pieces.len(),
{
    if pieces.len() == 0 {
        seq![]
    } else if pieces.len() == 1 {
        pieces[0]
    } else {
        join(pieces.drop_last(), sep) + sep + pieces.last()
    }
}

/// Pieces of `s` between occurrences of `sep`, read from a scan position.
pub open spec fn split_from(s: Seq<char>, sep: char, cur: Seq<char>, acc: Seq<Seq<char>>) -> Seq<
    Seq<char>,
>
    decreases s.len(),
{
    if s.len() == 0 {
        acc.push(cur)
    } else if s[0] == sep {
        split_from(s.drop_first(), sep, seq![], acc.push(cur))
    } else {
        split_from(s.drop_first(), sep, cur.push(s[0]), acc)
    }
}

/// `s` cut at every `sep` (`str::split` with a `char`).
pub open spec fn split(s: Seq<char>, sep: char) -> Seq<Seq<char>> {
    split_from(s, sep, seq![], seq![])
}

/// Number of bytes of the UTF-8 encoding of `c` (`char::len_utf8`).
pub open spec fn char_utf8_len(c: char) -> nat {
    let u = c as u32;
    if u < 0x80 {
        1
    } else if u < 0x800 {
        2
    } else if u < 0x10000 {
        3
    } else {
        4
    }
}

/// Number of bytes of the UTF-8 encoding of `s` (`str::len`).
pub open spec fn utf8_len(s: Seq<char>) -> nat
    decreases s.len(),
{
    if s.len() == 0 {
        0
    } else {
        char_utf8_len(s[0]) + utf8_len(s.drop_first())
    }
}

/// Is `c` an ASCII decimal digit?
pub open spec fn is_digit(c: char) -> bool {
    '0' <= c <= '9'
}

/// Value of an ASCII decimal digit.
pub open spec fn digit_value(c: char) -> int {
    (c as u32) - ('0' as u32)
}

/// Value of a non-empty run of decimal digits.
pub open spec fn digits_value(s: Seq<char>) -> int
    decreases s.len(),
{
    if s.len() == 0 {
        0
    } else {
        digits_value(s.drop_last()) * 10 + digit_value(s.last())
    }
}

/// Are all characters of `s` decimal digits?
pub open spec fn all_digits(s: Seq<char>) -> bool {
    forall|i: int| 0 <= i < s.len() ==> is_digit(#[trigger] s[i])
}

/// The integer written in `s` with an optional sign, if any (`str::parse::<i64>` before range checks).
pub open spec fn decimal_value(s: Seq<char>) -> Option<int> {
    if s.len() > 0 && (s[0] == '+' || s[0] == '-') {
        let d = s.drop_first();
        if d.len() > 0 && all_digits(d) {
            Some(if s[0] == '-' { -digits_value(d) } else { digits_value(d) })
        } else {
            None
        }
    } else if s.len() > 0 && all_digits(s) {
        Some(digits_value(s))
    } else {
        None
    }
}

/// `str::parse::<i32>`: the value written in `s`, when it is a decimal integer in range.
pub open spec fn parse_i32(s: Seq<char>) -> Option<i32> {
    match decimal_value(s) {
        Some(v) => if i32::MIN <= v <= i32::MAX {
            Some(v as i32)
        } else {
            None
        },
        None => None,
    }
}

/// The decimal digit character for `d < 10`.
pub open spec fn digit_char(d: nat) -> char {
    if d == 0 {
        '0'
    } else if d == 1 {
        '1'
    } else if d == 2 {
        '2'
    } else if d == 3 {
        '3'
    } else if d == 4 {
        '4'
    } else if d == 5 {
        '5'
    } else if d == 6 {
        '6'
    } else if d == 7 {
        '7'
    } else if d == 8 {
        '8'
    } else {
        '9'
    }
}

/// Decimal digits of a natural number.
pub open spec fn nat_digits(n: nat) -> Seq<char>
    decreases n,
{
    if n < 10 {
        seq![digit_char(n)]
    } else {
        nat_digits(n / 10).push(digit_char(n % 10))
    }
}

/// A decimal digit's character is one of '0' to '9'.
pub proof fn lemma_digit_char_range(d: nat)
    requires
        d < 10,
    ensures
        '0' <= digit_char(d) <= '9',
{
}

/// The first `c` of `a + b`, where `a` holds no `c` and `b` starts with
/// one, is at the end of `a`.
pub proof fn lemma_find_char_after(a: Seq<char>, b: Seq<char>, c: char)
    requires
        forall|k: int| 0 <= k < a.len() ==> a[k] != c,
        b.len() > 0,
        b[0] == c,
    ensures
        find(a + b, seq![c]) == Some(a.len() as int),
    decreases a.len(),
{
    if a.len() == 0 {
        assert(a + b =~= b);
        assert(b.take(1) =~= seq![c]);
    } else {
        assert((a + b).drop_first() =~= a.drop_first() + b);
        assert((a + b).take(1) != seq![c]) by {
            assert((a + b).take(1)[0] == a[0]);
        }
        lemma_find_char_after(a.drop_first(), b, c);
    }
}

/// A text that neither starts nor ends with white space is its own trim.
pub proof fn lemma_trim_unchanged(s: Seq<char>)
    requires
        s.len() > 0,
        !is_white_space(s[0]),
        !is_white_space(s.last()),
    ensures
        trim(s) == s,
{
    assert(trim_start(s) == s);
}

/// Decimal text of an integer (`i64::to_string`).
pub open spec fn int_text(n: int) -> Seq<char> {
    if n < 0 {
        seq!['-'] + nat_digits((-n) as nat)
    } else {
        nat_digits(n as nat)
    }
}

/// Decimal text of `n`, zero-padded to at least two characters (`format!("{:02}", n)`).
pub open spec fn pad2_text(n: int) -> Seq<char> {
    if 0 <= n < 10 {
        seq!['0'] + nat_digits(n as nat)
    } else if -10 < n < 0 {
        seq!['-'] + nat_digits((-n) as nat)
    } else {
        int_text(n)
    }
}

/// The character sequences of a list of character vectors.
pub open spec fn seqs_of(v: Seq<Vec<char>>) -> Seq<Seq<char>> {
    v.map_values(|p: Vec<char>| p@)
}

// ---------------------------------------------------------------------------
// Lemmas
// ---------------------------------------------------------------------------

proof fn lemma_skip_drop_first(s: Seq<char>, i: int)
    requires
        0 <= i < s.len(),
    ensures
        s.skip(i).drop_first() == s.skip(i + 1),
        s.skip(i)[0] == s[i],
{
    assert(s.skip(i).drop_first() =~= s.skip(i + 1));
}

proof fn lemma_take_drop_last(s: Seq<char>, j: int)
    requires
        0 < j <= s.len(),
    ensures
        s.take(j).drop_last() == s.take(j - 1),
        s.take(j).last() == s[j - 1],
{
    assert(s.take(j).drop_last() =~= s.take(j - 1));
}

proof fn lemma_trim_start_ws_prefix(s: Seq<char>, i: int)
    requires
        0 <= i <= s.len(),
        forall|k: int| 0 <= k < i ==> is_white_space(#[trigger] s[k]),
    ensures
        trim_start(s) == trim_start(s.skip(i)),
    decreases i,
{
    if i > 0 {
        lemma_trim_start_ws_prefix(s, i - 1);
        lemma_skip_drop_first(s, i - 1);
    } else {
        assert(s.skip(0) =~= s);
    }
}

proof fn lemma_trim_end_ws_suffix(s: Seq<char>, j: int)
    requires
        0 <= j <= s.len(),
        forall|k: int| j <= k < s.len() ==> is_white_space(#[trigger] s[k]),
    ensures
        trim_end(s) == trim_end(s.take(j)),
    decreases s.len() - j,
{
    if j < s.len() {
        lemma_trim_end_ws_suffix(s, j + 1);
        lemma_take_drop_last(s, j + 1);
    } else {
        assert(s.take(j) =~= s);
    }
}

/// The trimmed text is the subrange between the first and the last non-space character.
proof fn lemma_trim_subrange(s: Seq<char>, i: int, j: int)
    requires
        0 <= i <= j <= s.len(),
        forall|k: int| 0 <= k < i ==> is_white_space(#[trigger] s[k]),
        forall|k: int| j <= k < s.len() ==> is_white_space(#[trigger] s[k]),
        i < j ==> !is_white_space(s[i]) && !is_white_space(s[j - 1]),
    ensures
        trim(s) == s.subrange(i, j),
{
    lemma_trim_start_ws_prefix(s, i);
    let t = s.skip(i);
    if i < j {
        assert(trim_start(t) == t);
        assert forall|k: int| j - i <= k < t.len() implies is_white_space(#[trigger] t[k]) by {
            assert(t[k] == s[k + i]);
        }
        lemma_trim_end_ws_suffix(t, j - i);
        assert(t.take(j - i) =~= s.subrange(i, j));
        assert(trim_end(t.take(j - i)) == t.take(j - i));
    } else {
        // i == j: everything from i on is space
        assert forall|k: int| 0 <= k < t.len() implies is_white_space(#[trigger] t[k]) by {
            assert(t[k] == s[k + i]);
        }
        lemma_trim_start_ws_prefix(t, t.len() as int);
        assert(t.skip(t.len() as int) =~= Seq::<char>::empty());
        assert(s.subrange(i, j) =~= Seq::<char>::empty());
    }
}

// ---------------------------------------------------------------------------
// Conversions
// ---------------------------------------------------------------------------

/// Appends one character to a `String` (std `String::push`).
#[verifier::external_body]
pub(crate) fn string_push(s: &mut String, c: char)
    ensures
        final(s)@ == old(s)@.push(c),
{
    s.push(c);
}

/// The characters of `s`, in order.
pub fn chars_of(s: &str) -> (v: Vec<char>)
    ensures
        v@ == s@,
{
    let mut v: Vec<char> = Vec::new();
    for c in iter: s.chars()
        invariant
            v@ == iter.seq().take(iter.index()),
    {
        v.push(c);
    }
    assert(v@ == s@);
    v
}

/// The string made of the characters of `v`.
pub fn string_of(v: &[char]) -> (s: String)
    ensures
        s@ == v@,
{
    let mut s = String::new();
    let mut i: usize = 0;
    while i < v.len()
        invariant
            i <= v@.len(),
            s@ == v@.subrange(0, i as int),
        decreases v@.len() - i,
    {
        string_push(&mut s, v[i]);
        assert(v@.subrange(0, (i + 1) as int) == v@.subrange(0, i as int).push(v@[i as int]));
        i = i + 1;
    }
    assert(v@.subrange(0, v@.len() as int) == v@);
    s
}

/// Appends the characters of `t` to `v`.
pub fn push_all(v: &mut Vec<char>, t: &[char])
    ensures
        final(v)@ == old(v)@ + t@,
{
    let mut i: usize = 0;
    while i < t.len()
        invariant
            i <= t@.len(),
            v@ == old(v)@ + t@.subrange(0, i as int),
        decreases t@.len() - i,
    {
        v.push(t[i]);
        assert(t@.subrange(0, (i + 1) as int) == t@.subrange(0, i as int).push(t@[i as int]));
        i = i + 1;
    }
    assert(t@.subrange(0, t@.len() as int) == t@);
}

/// Appends the characters of `t` to `v`.
pub fn push_str(v: &mut Vec<char>, t: &str)
    ensures
        final(v)@ == old(v)@ + t@,
{
    let tc = chars_of(t);
    push_all(v, tc.as_slice());
}

/// A copy of `s[from..to]`.
pub fn slice_chars(s: &[char], from: usize, to: usize) -> (r: Vec<char>)
    requires
        from <= to <= s@.len(),
    ensures
        r@ == s@.subrange(from as int, to as int),
{
    let mut r: Vec<char> = Vec::new();
    let mut i = from;
    while i < to
        invariant
            from <= i <= to <= s@.len(),
            r@ == s@.subrange(from as int, i as int),
        decreases to - i,
    {
        r.push(s[i]);
        assert(s@.subrange(from as int, (i + 1) as int) == s@.subrange(from as int, i as int).push(
            s@[i as int],
        ));
        i = i + 1;
    }
    r
}

/// Are two character slices equal?
pub fn chars_eq(a: &[char], b: &[char]) -> (r: bool)
    ensures
        r == (a@ == b@),
{
    if a.len() != b.len() {
        return false;
    }
    let mut i: usize = 0;
    while i < a.len()
        invariant
            a@.len() == b@.len(),
            i <= a@.len(),
            forall|k: int| 0 <= k < i ==> a@[k] == b@[k],
        decreases a@.len() - i,
    {
        if a[i] != b[i] {
            return false;
        }
        i = i + 1;
    }
    assert(a@ =~= b@);
    true
}

/// Do two strings hold the same characters?
pub fn str_eq(a: &str, b: &str) -> (r: bool)
    ensures
        r == (a@ == b@),
{
    let ac = chars_of(a);
    let bc = chars_of(b);
    chars_eq(ac.as_slice(), bc.as_slice())
}

// ---------------------------------------------------------------------------
// Searching
// ---------------------------------------------------------------------------

/// Is `c` white space (`char::is_whitespace`)?
pub fn is_whitespace(c: char) -> (r: bool)
    ensures
        r == is_white_space(c),
{
    let u = c as u32;
    (0x9 <= u && u <= 0xd) || u == 0x20 || u == 0x85 || u == 0xa0 || u == 0x1680 || (0x2000 <= u
        && u <= 0x200a) || u == 0x2028 || u == 0x2029 || u == 0x202f || u == 0x205f || u == 0x3000
}

/// Does `pat` occur in `s` at index `at`?
pub fn matches_at(s: &[char], pat: &[char], at: usize) -> (r: bool)
    requires
        at <= s@.len(),
    ensures
        r == starts_with(s@.skip(at as int), pat@),
{
    let n = s.len();
    if pat.len() > n - at {
        return false;
    }
    let mut k: usize = 0;
    while k < pat.len()
        invariant
            n == s@.len(),
            at + pat@.len() <= s@.len(),
            k <= pat@.len(),
            forall|m: int| 0 <= m < k ==> s@[at + m] == pat@[m],
        decreases pat@.len() - k,
    {
        if s[at + k] != pat[k] {
            assert(s@.skip(at as int).take(pat@.len() as int)[k as int] == s@[at + k]);
            return false;
        }
        k = k + 1;
    }
    assert(s@.skip(at as int).take(pat@.len() as int) =~= pat@);
    true
}

/// Does `s` start with `p`?
pub fn starts_with_chars(s: &[char], p: &[char]) -> (r: bool)
    ensures
        r == starts_with(s@, p@),
{
    assert(s@.skip(0) =~= s@);
    matches_at(s, p, 0)
}

/// Does `s` end with `p`?
pub fn ends_with_chars(s: &[char], p: &[char]) -> (r: bool)
    ensures
        r == ends_with(s@, p@),
{
    if p.len() > s.len() {
        return false;
    }
    let at = s.len() - p.len();
    let r = matches_at(s, p, at);
    assert(s@.skip(at as int).take(p@.len() as int) =~= s@.skip(at as int));
    r
}

/// Index of the first occurrence of `pat` in `s` (`str::find`).
pub fn find_chars(s: &[char], pat: &[char]) -> (r: Option<usize>)
    ensures
        match r {
            Some(i) => find(s@, pat@) == Some(i as int),
            None => find(s@, pat@) is None,
        },
{
    let n = s.len();
    let mut i: usize = 0;
    assert(s@.skip(0) =~= s@);
    loop
        invariant
            n == s@.len(),
            i <= n,
            find(s@, pat@) == (match find(s@.skip(i as int), pat@) {
                Some(k) => Some(k + i),
                None => None,
            }),
        decreases n - i,
    {
        if pat.len() > n - i {
            assert(s@.skip(i as int).len() < pat@.len());
            return None;
        }
        if matches_at(s, pat, i) {
            return Some(i);
        }
        if i == n {
            return None;
        }
        proof {
            lemma_skip_drop_first(s@, i as int);
        }
        i = i + 1;
    }
}

/// Does `pat` occur in `s`?
pub fn contains_chars(s: &[char], pat: &[char]) -> (r: bool)
    ensures
        r == contains(s@, pat@),
{
    find_chars(s, pat).is_some()
}

/// Does the text `pat` occur in `s`?
pub fn contains_str(s: &[char], pat: &str) -> (r: bool)
    ensures
        r == contains(s@, pat@),
{
    let p = chars_of(pat);
    contains_chars(s, p.as_slice())
}

/// `s` with leading and trailing white space removed.
pub fn trim_chars(s: &[char]) -> (r: Vec<char>)
    ensures
        r@ == trim(s@),
{
    let mut i: usize = 0;
    while i < s.len() && is_whitespace(s[i])
        invariant
            i <= s@.len(),
            forall|k: int| 0 <= k < i ==> is_white_space(#[trigger] s@[k]),
        decreases s@.len() - i,
    {
        i = i + 1;
    }
    let mut j: usize = s.len();
    while j > i && is_whitespace(s[j - 1])
        invariant
            i <= j <= s@.len(),
            forall|k: int| j <= k < s@.len() ==> is_white_space(#[trigger] s@[k]),
        decreases j,
    {
        j = j - 1;
    }
    proof {
        lemma_trim_subrange(s@, i as int, j as int);
    }
    slice_chars(s, i, j)
}

/// `s` with leading and trailing white space removed (`str::trim`).
pub fn trim_str(s: &str) -> (r: Vec<char>)
    ensures
        r@ == trim(s@),
{
    let c = chars_of(s);
    trim_chars(c.as_slice())
}

/// `s` with every non-overlapping occurrence of `from` replaced by `to`, left to right.
pub fn replace_chars(s: &[char], from: &[char], to: &[char]) -> (r: Vec<char>)
    requires
        from@.len() > 0,
    ensures
        r@ == replace(s@, from@, to@),
{
    let mut out: Vec<char> = Vec::new();
    let mut i: usize = 0;
    assert(s@.skip(0) =~= s@);
    while i < s.len()
        invariant
            from@.len() > 0,
            i <= s@.len(),
            replace(s@, from@, to@) == out@ + replace(s@.skip(i as int), from@, to@),
        decreases s@.len() - i,
    {
        let m = matches_at(s, from, i);
        if m {
            push_all(&mut out, to);
            proof {
                assert(s@.skip(i as int).skip(from@.len() as int) =~= s@.skip(i + from@.len()));
                assert(replace(s@.skip(i as int), from@, to@) == to@ + replace(
                    s@.skip(i + from@.len()),
                    from@,
                    to@,
                ));
            }
            i = i + from.len();
        } else {
            out.push(s[i]);
            proof {
                lemma_skip_drop_first(s@, i as int);
            }
            i = i + 1;
        }
    }
    assert(s@.skip(i as int) =~= Seq::<char>::empty());
    assert(out@ + Seq::<char>::empty() =~= out@);
    out
}

/// `s` with every occurrence of the text `from` replaced by `to`.
pub fn replace_str(s: &[char], from: &str, to: &str) -> (r: Vec<char>)
    requires
        from@.len() > 0,
    ensures
        r@ == replace(s@, from@, to@),
{
    let f = chars_of(from);
    let t = chars_of(to);
    replace_chars(s, f.as_slice(), t.as_slice())
}

/// The maximal runs of non-white-space characters of `s` (`str::split_whitespace`).
pub fn words_of(s: &[char]) -> (r: Vec<Vec<char>>)
    ensures
        seqs_of(r@) == words(s@),
{
    let mut acc: Vec<Vec<char>> = Vec::new();
    let mut cur: Vec<char> = Vec::new();
    let ghost acc_v: Seq<Seq<char>> = seq![];
    let mut i: usize = 0;
    assert(s@.skip(0) =~= s@);
    assert(seqs_of(acc@) =~= acc_v);
    while i < s.len()
        invariant
            i <= s@.len(),
            seqs_of(acc@) == acc_v,
            words(s@) == words_from(s@.skip(i as int), cur@, acc_v),
        decreases s@.len() - i,
    {
        let ghost old_cur = cur@;
        let ghost old_acc = acc_v;
        proof {
            lemma_skip_drop_first(s@, i as int);
        }
        if is_whitespace(s[i]) {
            proof {
                assert(words_from(s@.skip(i as int), old_cur, old_acc) == words_from(
                    s@.skip(i + 1),
                    seq![],
                    if old_cur.len() > 0 {
                        old_acc.push(old_cur)
                    } else {
                        old_acc
                    },
                ));
            }
            if cur.len() > 0 {
                let done = cur;
                acc.push(done);
                proof {
                    acc_v = acc_v.push(old_cur);
                    assert(seqs_of(acc@) =~= acc_v);
                }
                cur = Vec::new();
            }
            assert(cur@ =~= seq![]);
        } else {
            proof {
                assert(words_from(s@.skip(i as int), old_cur, old_acc) == words_from(
                    s@.skip(i + 1),
                    old_cur.push(s@[i as int]),
                    old_acc,
                ));
            }
            cur.push(s[i]);
        }
        i = i + 1;
    }
    if cur.len() > 0 {
        let ghost cv = cur@;
        acc.push(cur);
        proof {
            acc_v = acc_v.push(cv);
            assert(seqs_of(acc@) =~= acc_v);
        }
    }
    assert(s@.skip(i as int) =~= Seq::<char>::empty());
    acc
}

/// The pieces joined with `sep` between them.
pub fn join_chars(pieces: &Vec<Vec<char>>, sep: &[char]) -> (r: Vec<char>)
    ensures
        r@ == join(seqs_of(pieces@), sep@),
{
    let ghost sp = seqs_of(pieces@);
    let mut out: Vec<char> = Vec::new();
    let mut i: usize = 0;
    while i < pieces.len()
        invariant
            i <= pieces@.len(),
            sp == seqs_of(pieces@),
            out@ == join(sp.take(i as int), sep@),
        decreases pieces@.len() - i,
    {
        if i > 0 {
            push_all(&mut out, sep);
        }
        push_all(&mut out, pieces[i].as_slice());
        proof {
            assert(sp.take(i + 1).drop_last() =~= sp.take(i as int));
            assert(sp.take(i + 1).last() == pieces@[i as int]@);
            if i == 0 {
                assert(sp.take(0) =~= Seq::<Seq<char>>::empty());
            }
        }
        i = i + 1;
    }
    assert(sp.take(pieces@.len() as int) =~= sp);
    out
}

/// The words of `s` joined with single spaces (`split_whitespace().collect::<Vec<_>>().join(" ")`).
pub fn collapse_spaces(s: &[char]) -> (r: Vec<char>)
    ensures
        r@ == join(words(s@), seq![' ']),
{
    let w = words_of(s);
    let sep = vec![' '];
    let r = join_chars(&w, sep.as_slice());
    assert(sep@ =~= seq![' ']);
    r
}

/// The pieces of `s` between occurrences of `sep`.
pub fn split_chars(s: &[char], sep: char) -> (r: Vec<Vec<char>>)
    ensures
        seqs_of(r@) == split(s@, sep),
{
    let mut acc: Vec<Vec<char>> = Vec::new();
    let mut cur: Vec<char> = Vec::new();
    let ghost acc_v: Seq<Seq<char>> = seq![];
    let mut i: usize = 0;
    assert(s@.skip(0) =~= s@);
    assert(seqs_of(acc@) =~= acc_v);
    while i < s.len()
        invariant
            i <= s@.len(),
            seqs_of(acc@) == acc_v,
            split(s@, sep) == split_from(s@.skip(i as int), sep, cur@, acc_v),
        decreases s@.len() - i,
    {
        let ghost old_cur = cur@;
        let ghost old_acc = acc_v;
        proof {
            lemma_skip_drop_first(s@, i as int);
        }
        if s[i] == sep {
            proof {
                assert(split_from(s@.skip(i as int), sep, old_cur, old_acc) == split_from(
                    s@.skip(i + 1),
                    sep,
                    seq![],
                    old_acc.push(old_cur),
                ));
            }
            acc.push(cur);
            proof {
                acc_v = acc_v.push(old_cur);
                assert(seqs_of(acc@) =~= acc_v);
            }
            cur = Vec::new();
            assert(cur@ =~= seq![]);
        } else {
            proof {
                assert(split_from(s@.skip(i as int), sep, old_cur, old_acc) == split_from(
                    s@.skip(i + 1),
                    sep,
                    old_cur.push(s@[i as int]),
                    old_acc,
                ));
            }
            cur.push(s[i]);
        }
        i = i + 1;
    }
    let ghost cv = cur@;
    acc.push(cur);
    proof {
        acc_v = acc_v.push(cv);
        assert(seqs_of(acc@) =~= acc_v);
    }
    assert(s@.skip(i as int) =~= Seq::<char>::empty());
    acc
}

// ---------------------------------------------------------------------------
// Numbers
// ---------------------------------------------------------------------------

proof fn lemma_utf8_len_split(s: Seq<char>, i: int)
    requires
        0 <= i < s.len(),
    ensures
        utf8_len(s.skip(i)) == char_utf8_len(s[i]) + utf8_len(s.skip(i + 1)),
{
    lemma_skip_drop_first(s, i);
}

/// Is the UTF-8 length of `s` at most `limit`?
pub fn utf8_len_at_most(s: &[char], limit: usize) -> (r: bool)
    ensures
        r == (utf8_len(s@) <= limit),
{
    let mut total: usize = 0;
    let mut i: usize = 0;
    assert(s@.skip(0) =~= s@);
    while i < s.len()
        invariant
            i <= s@.len(),
            total <= limit,
            utf8_len(s@) == total + utf8_len(s@.skip(i as int)),
        decreases s@.len() - i,
    {
        let u = s[i] as u32;
        let w: usize = if u < 0x80 {
            1
        } else if u < 0x800 {
            2
        } else if u < 0x10000 {
            3
        } else {
            4
        };
        proof {
            lemma_utf8_len_split(s@, i as int);
        }
        if w > limit - total {
            return false;
        }
        total = total + w;
        i = i + 1;
    }
    assert(s@.skip(i as int) =~= Seq::<char>::empty());
    true
}

proof fn lemma_digits_value_bounds(s: Seq<char>)
    requires
        all_digits(s),
    ensures
        0 <= digits_value(s),
    decreases s.len(),
{
    if s.len() > 0 {
        let d = s.drop_last();
        assert(all_digits(d)) by {
            assert forall|i: int| 0 <= i < d.len() implies is_digit(#[trigger] d[i]) by {
                assert(d[i] == s[i]);
            }
        }
        lemma_digits_value_bounds(d);
        assert(is_digit(s[s.len() - 1]));
    }
}

/// `str::parse::<i32>` on a character slice.
pub fn parse_i32_chars(s: &[char]) -> (r: Option<i32>)
    ensures
        r == parse_i32(s@),
{
    if s.len() == 0 {
        return None;
    }
    let neg = s[0] == '-';
    let start: usize = if s[0] == '+' || s[0] == '-' {
        1
    } else {
        0
    };
    if start == s.len() {
        return None;
    }
    let d = slice_chars(s, start, s.len());
    proof {
        if start == 1 {
            assert(d@ =~= s@.drop_first());
        } else {
            assert(d@ =~= s@);
        }
    }
    let mut value: i64 = 0;
    let mut i: usize = 0;
    while i < d.len()
        invariant
            i <= d@.len(),
            d@.len() > 0,
            s@.len() > 0,
            neg == (s@[0] == '-'),
            start == 0 || start == 1,
            (start == 1) == (s@[0] == '+' || s@[0] == '-'),
            start == 1 ==> d@ == s@.drop_first(),
            start == 0 ==> d@ == s@,
            all_digits(d@.take(i as int)),
            value == digits_value(d@.take(i as int)),
            0 <= value <= 0x8000_0000,
        decreases d@.len() - i,
    {
        let c = d[i];
        if !('0' <= c && c <= '9') {
            proof {
                assert(!is_digit(d@[i as int]));
                assert(!all_digits(d@));
                if start == 1 {
                    assert(s@.drop_first() == d@);
                } else {
                    assert(s@ == d@);
                }
                assert(decimal_value(s@) is None);
            }
            return None;
        }
        let dv = (c as u32 - '0' as u32) as i64;
        proof {
            lemma_take_drop_last(d@, i + 1);
            assert(all_digits(d@.take(i + 1))) by {
                assert forall|k: int| 0 <= k < i + 1 implies is_digit(#[trigger] d@.take(i + 1)[k]) by {
                    if k < i {
                        assert(d@.take(i + 1)[k] == d@.take(i as int)[k]);
                    }
                }
            }
        }
        let next = value * 10 + dv;
        if next > 0x8000_0000 {
            proof {
                assert(digits_value(d@.take(i + 1)) == next);
                if all_digits(d@) {
                    lemma_digits_value_grows(d@, i + 1);
                    assert(digits_value(d@) > 0x8000_0000);
                }
                if start == 1 {
                    assert(s@.drop_first() == d@);
                } else {
                    assert(s@ == d@);
                }
                match decimal_value(s@) {
                    Some(v) => {
                        assert(v > 0x8000_0000 || v < -0x8000_0000);
                    },
                    None => {},
                }
            }
            return None;
        }
        value = next;
        i = i + 1;
    }
    assert(d@.take(d@.len() as int) =~= d@);
    let v: i64 = if neg {
        -value
    } else {
        value
    };
    if v > 0x7fff_ffff || v < -0x8000_0000 {
        return None;
    }
    Some(v as i32)
}

proof fn lemma_digits_value_grows(d: Seq<char>, j: int)
    requires
        0 < j <= d.len(),
        all_digits(d),
    ensures
        digits_value(d) >= digits_value(d.take(j)),
    decreases d.len() - j,
{
    if j < d.len() {
        lemma_digits_value_grows(d, j + 1);
        lemma_take_drop_last(d, j + 1);
        let t = d.take(j + 1);
        assert(is_digit(d[j]));
        assert(all_digits(t.drop_last())) by {
            assert forall|k: int| 0 <= k < t.drop_last().len() implies is_digit(
                #[trigger] t.drop_last()[k],
            ) by {
                assert(t.drop_last()[k] == d[k]);
            }
        }
        lemma_digits_value_bounds(t.drop_last());
        assert(digits_value(t) == digits_value(t.drop_last()) * 10 + digit_value(t.last()));
    } else {
        assert(d.take(j) =~= d);
    }
}

/// The character of a decimal digit.
pub fn digit_to_char(d: u64) -> (c: char)
    requires
        d < 10,
    ensures
        c == digit_char(d as nat),
{
    if d == 0 {
        '0'
    } else if d == 1 {
        '1'
    } else if d == 2 {
        '2'
    } else if d == 3 {
        '3'
    } else if d == 4 {
        '4'
    } else if d == 5 {
        '5'
    } else if d == 6 {
        '6'
    } else if d == 7 {
        '7'
    } else if d == 8 {
        '8'
    } else {
        '9'
    }
}

/// Decimal digits of `n`.
pub fn nat_text(n: u64) -> (r: Vec<char>)
    ensures
        r@ == nat_digits(n as nat),
    decreases n,
{
    if n < 10 {
        let mut r = Vec::new();
        r.push(digit_to_char(n));
        assert(r@ =~= seq![digit_char(n as nat)]);
        r
    } else {
        let mut r = nat_text(n / 10);
        r.push(digit_to_char(n % 10));
        r
    }
}

/// Decimal text of `n` (`to_string` of an integer).
pub fn int_to_chars(n: i64) -> (r: Vec<char>)
    ensures
        r@ == int_text(n as int),
{
    if n < 0 {
        let m: u64 = (-(n as i128)) as u64;
        let d = nat_text(m);
        let mut r: Vec<char> = Vec::new();
        r.push('-');
        push_all(&mut r, d.as_slice());
        assert(r@ =~= seq!['-'] + nat_digits((-n) as nat));
        r
    } else {
        nat_text(n as u64)
    }
}

/// Decimal text of `n` (`n.to_string()`).
pub fn int_to_string(n: i64) -> (r: String)
    ensures
        r@ == int_text(n as int),
{
    let c = int_to_chars(n);
    string_of(c.as_slice())
}

/// Decimal text of `n`, zero-padded to two characters (`format!("{:02}", n)`).
pub fn pad2_to_string(n: i64) -> (r: String)
    ensures
        r@ == pad2_text(n as int),
{
    if 0 <= n && n < 10 {
        let mut v: Vec<char> = Vec::new();
        v.push('0');
        v.push(digit_to_char(n as u64));
        assert(v@ =~= seq!['0'] + nat_digits(n as nat));
        string_of(v.as_slice())
    } else if -10 < n && n < 0 {
        let mut v: Vec<char> = Vec::new();
        v.push('-');
        v.push(digit_to_char((-n) as u64));
        assert(v@ =~= seq!['-'] + nat_digits((-n) as nat));
        string_of(v.as_slice())
    } else {
        int_to_string(n)
    }
}

} // verus!
