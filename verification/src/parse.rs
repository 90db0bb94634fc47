//! Scanning of raw report text: visibility tokens, cloud-layer tokens and
//! the status-keyword vocabulary.
//!
//! A visibility token is a run of up to four digits immediately followed by
//! the unit `SM` (statute miles) or `KM` (kilometers); the leftmost such
//! token wins.  A cloud token is three uppercase letters immediately
//! followed by three digits giving the layer base in hundreds of feet; the
//! leftmost such token wins.  Absence of a token is meaningful: no
//! visibility token means unrestricted visibility, no cloud token means an
//! unlimited ceiling.

use vstd::prelude::*;

use crate::text::contains_seq;
use crate::text::str_contains;
use vstd::string::StringExecFns;

verus! {

/// Visibility reported when no visibility token is present: treated as
/// unrestricted (above the six-mile VFR threshold).
pub const NO_VISIBILITY_TOKEN_SM: i32 = 7;

/// Ceiling reported when no cloud token is present: a clear sky, above the
/// 3000 ft VFR threshold.
pub const NO_CLOUD_TOKEN_FT: i32 = 9999;

pub open spec fn is_digit_char(c: char) -> bool {
    '0' <= c && c <= '9'
}

pub open spec fn is_upper_char(c: char) -> bool {
    'A' <= c && c <= 'Z'
}

pub open spec fn digit_val(c: char) -> int {
    c as int - '0' as int
}

/// A statute-mile or kilometer unit mark starts at `i`, with at least one
/// digit directly before it.
pub open spec fn vis_unit_at(s: Seq<char>, i: int) -> bool {
    &&& 1 <= i
    &&& i + 2 <= s.len()
    &&& (s[i] == 'S' || s[i] == 'K')
    &&& s[i + 1] == 'M'
    &&& is_digit_char(s[i - 1])
}

/// Position of the leftmost visibility unit mark at or after `i`.
pub open spec fn first_vis_unit_from(s: Seq<char>, i: int) -> Option<int>
    decreases s.len() - i,
{
    if i < 0 || i + 2 > s.len() {
        None
    } else if vis_unit_at(s, i) {
        Some(i)
    } else {
        first_vis_unit_from(s, i + 1)
    }
}

/// Start of the digit run that ends just before `i`, taking at most `k`
/// digits backwards.
pub open spec fn digits_back(s: Seq<char>, i: int, k: int) -> int
    decreases k,
{
    if k <= 0 {
        i
    } else if 1 <= i && i <= s.len() && is_digit_char(s[i - 1]) {
        digits_back(s, i - 1, k - 1)
    } else {
        i
    }
}

/// Start of the up-to-four digit run read as the visibility value.
pub open spec fn vis_digits_start(s: Seq<char>, i: int) -> int {
    digits_back(s, i, 4)
}

/// Numeric value of the digit run `s[j .. i]`.
pub open spec fn digits_value(s: Seq<char>, j: int, i: int) -> int
    decreases i - j,
{
    if j >= i {
        0
    } else {
        digits_value(s, j, i - 1) * 10 + digit_val(s[i - 1])
    }
}

pub open spec fn pow10(k: int) -> int
    decreases k,
{
    if k <= 0 {
        1
    } else {
        10 * pow10(k - 1)
    }
}

/// Kilometers to statute miles with the fixed factor 0.621371, rounded to
/// the nearest integer (halves round up).
pub open spec fn km_to_sm(v: int) -> int {
    (v * 621371 + 500000) / 1000000
}

/// The visibility in statute miles read from a raw report: value of the
/// leftmost visibility token, converted from kilometers if its unit is
/// `KM`; unrestricted visibility when no token is present.
pub open spec fn spec_visibility(s: Seq<char>) -> int {
    match first_vis_unit_from(s, 0) {
        None => NO_VISIBILITY_TOKEN_SM as int,
        Some(i) => {
            let v = digits_value(s, vis_digits_start(s, i), i);
            if s[i] == 'K' {
                km_to_sm(v)
            } else {
                v
            }
        },
    }
}

proof fn lemma_digits_value_bound(s: Seq<char>, j: int, i: int)
    requires
        j <= i,
        forall|t: int| j <= t < i ==> is_digit_char(s[t]),
    ensures
        0 <= digits_value(s, j, i),
        digits_value(s, j, i) < pow10(i - j),
    decreases i - j,
{
    if j < i {
        lemma_digits_value_bound(s, j, i - 1);
        assert(pow10(i - j) == 10 * pow10(i - j - 1));
    }
}

/// Finds the leftmost visibility unit mark, with the facts the value
/// extraction needs.
fn first_vis_unit(s: &str) -> (r: Option<usize>)
    ensures
        match r {
            Some(i) => first_vis_unit_from(s@, 0) == Some(i as int) && vis_unit_at(s@, i as int),
            None => first_vis_unit_from(s@, 0) is None,
        },
{
    let n = s.unicode_len();
    let mut i: usize = 0;
    while n >= 2 && i <= n - 2
        invariant
            n == s@.len(),
            i <= n,
            first_vis_unit_from(s@, 0) == first_vis_unit_from(s@, i as int),
        decreases n - i,
    {
        if i >= 1 {
            let c0 = s.get_char(i);
            let c1 = s.get_char(i + 1);
            if (c0 == 'S' || c0 == 'K') && c1 == 'M' {
                let prev = s.get_char(i - 1);
                if '0' <= prev && prev <= '9' {
                    assert(vis_unit_at(s@, i as int));
                    return Some(i);
                }
            }
        }
        assert(!vis_unit_at(s@, i as int));
        i = i + 1;
    }
    None
}

/// Whether the character at `t` is a decimal digit.
fn digit_at(s: &str, t: usize) -> (r: bool)
    requires
        t < s@.len(),
    ensures
        r == is_digit_char(s@[t as int]),
{
    let c = s.get_char(t);
    '0' <= c && c <= '9'
}

/// Reads the digit run ending just before `i` (at most four digits).
fn digits_before(s: &str, i: usize) -> (j: usize)
    requires
        i <= s@.len(),
    ensures
        j as int == vis_digits_start(s@, i as int),
        j <= i,
        i - j <= 4,
        forall|t: int| j <= t < i ==> is_digit_char(s@[t]),
{
    let mut j: usize = i;
    let mut k: usize = 0;
    while k < 4 && j >= 1 && digit_at(s, j - 1)
        invariant
            i <= s@.len(),
            j <= i,
            k <= 4,
            i - j == k,
            vis_digits_start(s@, i as int) == digits_back(s@, j as int, (4 - k) as int),
            forall|t: int| j <= t < i ==> is_digit_char(s@[t]),
        decreases 4 - k,
    {
        j = j - 1;
        k = k + 1;
    }
    proof {
        if k == 4 {
            assert(digits_back(s@, j as int, 0) == j as int);
        }
    }
    j
}

/// Numeric value of the digit run `s[j .. i]`, at most four digits.
fn read_digits(s: &str, j: usize, i: usize) -> (v: i32)
    requires
        j <= i,
        i <= s@.len(),
        i - j <= 4,
        forall|t: int| j <= t < i ==> is_digit_char(s@[t]),
    ensures
        v as int == digits_value(s@, j as int, i as int),
        0 <= v <= 9999,
{
    proof {
        lemma_digits_value_bound(s@, j as int, i as int);
        reveal_with_fuel(pow10, 5);
    }
    let mut v: i32 = 0;
    let mut t: usize = j;
    while t < i
        invariant
            j <= t <= i,
            i <= s@.len(),
            i - j <= 4,
            forall|u: int| j <= u < i ==> is_digit_char(s@[u]),
            v as int == digits_value(s@, j as int, t as int),
            0 <= v < pow10((t - j) as int),
        decreases i - t,
    {
        proof {
            lemma_digits_value_bound(s@, j as int, (t + 1) as int);
            reveal_with_fuel(pow10, 5);
        }
        let c = s.get_char(t);
        let d = (c as u32 - '0' as u32) as i32;
        v = v * 10 + d;
        t = t + 1;
    }
    proof {
        reveal_with_fuel(pow10, 5);
    }
    v
}

/// Extracts the visibility, in statute miles, from a raw report.
pub fn find_visibility(metar: &str) -> (v: i32)
    ensures
        v as int == spec_visibility(metar@),
        0 <= v <= 9999,
{
    match first_vis_unit(metar) {
        None => NO_VISIBILITY_TOKEN_SM,
        Some(i) => {
            let j = digits_before(metar, i);
            let raw = read_digits(metar, j, i);
            let c = metar.get_char(i);
            if c == 'K' {
                let wide: i64 = raw as i64;
                let converted: i64 = (wide * 621371 + 500000) / 1000000;
                assert(converted == km_to_sm(raw as int));
                assert(0 <= converted <= 9999);
                converted as i32
            } else {
                raw
            }
        },
    }
}

/// A cloud-layer token starts at `i`: three uppercase letters (the cover
/// code) immediately followed by three digits (base height in hundreds of
/// feet).
pub open spec fn cloud_token_at(s: Seq<char>, i: int) -> bool {
    &&& 0 <= i
    &&& i + 6 <= s.len()
    &&& is_upper_char(s[i])
    &&& is_upper_char(s[i + 1])
    &&& is_upper_char(s[i + 2])
    &&& is_digit_char(s[i + 3])
    &&& is_digit_char(s[i + 4])
    &&& is_digit_char(s[i + 5])
}

/// Position of the leftmost cloud-layer token at or after `i`.
pub open spec fn first_cloud_from(s: Seq<char>, i: int) -> Option<int>
    decreases s.len() - i,
{
    if i < 0 || i + 6 > s.len() {
        None
    } else if cloud_token_at(s, i) {
        Some(i)
    } else {
        first_cloud_from(s, i + 1)
    }
}

/// The ceiling in feet read from a raw report: the base height of the
/// leftmost cloud-layer token, in hundreds of feet times one hundred; an
/// unlimited ceiling when no token is present.
pub open spec fn spec_ceiling(s: Seq<char>) -> int {
    match first_cloud_from(s, 0) {
        None => NO_CLOUD_TOKEN_FT as int,
        Some(i) => digits_value(s, i + 3, i + 6) * 100,
    }
}

/// Whether the character at `t` is an uppercase letter.
fn upper_at(s: &str, t: usize) -> (r: bool)
    requires
        t < s@.len(),
    ensures
        r == is_upper_char(s@[t as int]),
{
    let c = s.get_char(t);
    'A' <= c && c <= 'Z'
}

/// Finds the leftmost cloud-layer token.
fn first_cloud_token(s: &str) -> (r: Option<usize>)
    ensures
        match r {
            Some(i) => first_cloud_from(s@, 0) == Some(i as int) && cloud_token_at(s@, i as int),
            None => first_cloud_from(s@, 0) is None,
        },
{
    let n = s.unicode_len();
    let mut i: usize = 0;
    while n >= 6 && i <= n - 6
        invariant
            n == s@.len(),
            i <= n,
            first_cloud_from(s@, 0) == first_cloud_from(s@, i as int),
        decreases n - i,
    {
        if upper_at(s, i) && upper_at(s, i + 1) && upper_at(s, i + 2) && digit_at(s, i + 3)
            && digit_at(s, i + 4) && digit_at(s, i + 5) {
            assert(cloud_token_at(s@, i as int));
            return Some(i);
        }
        assert(!cloud_token_at(s@, i as int));
        i = i + 1;
    }
    None
}

/// Extracts the ceiling, in feet, from a raw report.
pub fn find_ceiling(metar: &str) -> (h: i32)
    ensures
        h as int == spec_ceiling(metar@),
        0 <= h <= 99900,
{
    let n = metar.unicode_len();
    match first_cloud_token(metar) {
        None => NO_CLOUD_TOKEN_FT,
        Some(i) => {
            assert(i + 6 <= n);
            let hundreds = read_digits(metar, i + 3, i + 6);
            assert(hundreds <= 999) by {
                lemma_digits_value_bound(metar@, i + 3, i + 6);
                reveal_with_fuel(pow10, 4);
            }
            hundreds * 100
        },
    }
}

/// The military-status color token read from a raw report: the first
/// matching keyword of a fixed priority order wins; a single blank stands
/// for "no keyword present".
pub open spec fn spec_mil_color(s: Seq<char>) -> Seq<char> {
    if contains_seq(s, "RED"@) {
        "{63}"@
    } else if contains_seq(s, "AMB"@) {
        "{64}"@
    } else if contains_seq(s, "YLO"@) {
        "{65}"@
    } else if contains_seq(s, "GRN"@) {
        "{66}"@
    } else if contains_seq(s, "WHT"@) {
        "{71}"@
    } else if contains_seq(s, "BLU"@) {
        "{67}"@
    } else {
        " "@
    }
}

/// Scans the raw report for the military-status keyword vocabulary and
/// returns its display color token.
pub fn parse_mil_color(raw_data: &str) -> (r: String)
    ensures
        r@ == spec_mil_color(raw_data@),
{
    if str_contains(raw_data, "RED") {
        String::from_str("{63}")
    } else if str_contains(raw_data, "AMB") {
        String::from_str("{64}")
    } else if str_contains(raw_data, "YLO") {
        String::from_str("{65}")
    } else if str_contains(raw_data, "GRN") {
        String::from_str("{66}")
    } else if str_contains(raw_data, "WHT") {
        String::from_str("{71}")
    } else if str_contains(raw_data, "BLU") {
        String::from_str("{67}")
    } else {
        String::from_str(" ")
    }
}

} // verus!
