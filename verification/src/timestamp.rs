//! Timestamp parsing for the hosting platform's API.
//!
//! The API does not return one canonical timestamp format: fields may or may
//! not carry fractional seconds, and UTC may be written as a literal `Z` or
//! as a numeric offset. The parser therefore tries, in order,
//! `YYYY-MM-DDTHH:MM:SS.mmmZ`, `YYYY-MM-DDTHH:MM:SSZ`, and then the same two
//! shapes with a numeric `+HH:MM`/`-HH:MM` offset after substituting
//! `+00:00` for a trailing `Z`. A string matching none of the four shapes is
//! a parse failure, never a panic; callers fall back to the raw text.

use vstd::prelude::*;
use vstd::string::StrSliceExecFns;
use vstd::string::StringExecFns;

verus! {

/// A parsed, timezone-aware point in time: civil date and time of day as the
/// text gave them, plus the offset from UTC the text carried (zero for `Z`).
#[derive(Clone, Copy, Debug, PartialEq, Eq, Structural)]
pub struct Timestamp {
    pub year: u32,
    pub month: u32,
    pub day: u32,
    pub hour: u32,
    pub minute: u32,
    pub second: u32,
    /// Milliseconds; zero when the format carried no fraction.
    pub millis: u32,
    /// Offset from UTC in minutes; zero for a literal `Z`.
    pub offset_minutes: i32,
}

/// The parse failure: the text matched none of the supported shapes.
#[derive(Clone, Copy, Debug, PartialEq, Eq, Structural)]
pub struct ParseFailure;

pub open spec fn is_digit(c: char) -> bool {
    '0' <= c && c <= '9'
}

/// The value of the digit at position `i`.
pub open spec fn digit_at(s: Seq<char>, i: int) -> int {
    s[i] as int - 48
}

pub open spec fn digits_in(s: Seq<char>, from: int, to: int) -> bool {
    forall|k: int| from <= k < to ==> #[trigger] is_digit(s[k])
}

pub open spec fn num2(s: Seq<char>, i: int) -> int {
    10 * digit_at(s, i) + digit_at(s, i + 1)
}

pub open spec fn num3(s: Seq<char>, i: int) -> int {
    100 * digit_at(s, i) + 10 * digit_at(s, i + 1) + digit_at(s, i + 2)
}

pub open spec fn num4(s: Seq<char>, i: int) -> int {
    1000 * digit_at(s, i) + 100 * digit_at(s, i + 1) + 10 * digit_at(s, i + 2) + digit_at(
        s,
        i + 3,
    )
}

pub open spec fn is_leap_year(y: int) -> bool {
    y % 4 == 0 && (y % 100 != 0 || y % 400 == 0)
}

pub open spec fn days_in_month(y: int, m: int) -> int {
    if m == 4 || m == 6 || m == 9 || m == 11 {
        30
    } else if m == 2 {
        if is_leap_year(y) {
            29
        } else {
            28
        }
    } else {
        31
    }
}

/// The first 19 characters spell `YYYY-MM-DDTHH:MM:SS`.
pub open spec fn date_time_shape(s: Seq<char>) -> bool {
    &&& s.len() >= 19
    &&& digits_in(s, 0, 4)
    &&& s[4] == '-'
    &&& digits_in(s, 5, 7)
    &&& s[7] == '-'
    &&& digits_in(s, 8, 10)
    &&& s[10] == 'T'
    &&& digits_in(s, 11, 13)
    &&& s[13] == ':'
    &&& digits_in(s, 14, 16)
    &&& s[16] == ':'
    &&& digits_in(s, 17, 19)
}

/// The date-time prefix is well shaped and names a real calendar moment.
pub open spec fn date_time_ok(s: Seq<char>) -> bool {
    &&& date_time_shape(s)
    &&& 1 <= num2(s, 5) <= 12
    &&& 1 <= num2(s, 8) <= days_in_month(num4(s, 0), num2(s, 5))
    &&& num2(s, 11) <= 23
    &&& num2(s, 14) <= 59
    &&& num2(s, 17) <= 59
}

/// A numeric offset `+HH:MM` or `-HH:MM` starts at position `i`.
pub open spec fn offset_shape(s: Seq<char>, i: int) -> bool {
    &&& (s[i] == '+' || s[i] == '-')
    &&& digits_in(s, i + 1, i + 3)
    &&& s[i + 3] == ':'
    &&& digits_in(s, i + 4, i + 6)
    &&& num2(s, i + 1) <= 23
    &&& num2(s, i + 4) <= 59
}

/// The signed offset, in minutes, written at position `i`.
pub open spec fn offset_minutes_at(s: Seq<char>, i: int) -> int {
    if s[i] == '-' {
        -(60 * num2(s, i + 1) + num2(s, i + 4))
    } else {
        60 * num2(s, i + 1) + num2(s, i + 4)
    }
}

/// Shape 1: fractional seconds and a literal `Z`.
pub open spec fn matches_frac_utc(s: Seq<char>) -> bool {
    &&& s.len() == 24
    &&& date_time_ok(s)
    &&& s[19] == '.'
    &&& digits_in(s, 20, 23)
    &&& s[23] == 'Z'
}

/// Shape 2: no fraction, a literal `Z`.
pub open spec fn matches_plain_utc(s: Seq<char>) -> bool {
    &&& s.len() == 20
    &&& date_time_ok(s)
    &&& s[19] == 'Z'
}

/// Shape 3: fractional seconds and a numeric offset.
pub open spec fn matches_frac_offset(s: Seq<char>) -> bool {
    &&& s.len() == 29
    &&& date_time_ok(s)
    &&& s[19] == '.'
    &&& digits_in(s, 20, 23)
    &&& offset_shape(s, 23)
}

/// Shape 4: no fraction, a numeric offset.
pub open spec fn matches_plain_offset(s: Seq<char>) -> bool {
    &&& s.len() == 25
    &&& date_time_ok(s)
    &&& offset_shape(s, 19)
}

/// The text with `+00:00` substituted for a trailing `Z`; other text is left
/// untouched.
pub open spec fn zulu_substituted(s: Seq<char>) -> Seq<char> {
    if s.len() > 0 && s.last() == 'Z' {
        s.drop_last() + "+00:00"@
    } else {
        s
    }
}

/// Whether the parser accepts the text: one of the two `Z` shapes as given,
/// or one of the two offset shapes after the `Z` substitution.
pub open spec fn parse_accepts(s: Seq<char>) -> bool {
    ||| matches_frac_utc(s)
    ||| matches_plain_utc(s)
    ||| matches_frac_offset(zulu_substituted(s))
    ||| matches_plain_offset(zulu_substituted(s))
}

/// The timestamp a well-shaped date-time prefix denotes, completed with the
/// given fraction and offset.
pub open spec fn denoted_fields(s: Seq<char>, millis: int, offset_minutes: int) -> Timestamp {
    Timestamp {
        year: num4(s, 0) as u32,
        month: num2(s, 5) as u32,
        day: num2(s, 8) as u32,
        hour: num2(s, 11) as u32,
        minute: num2(s, 14) as u32,
        second: num2(s, 17) as u32,
        millis: millis as u32,
        offset_minutes: offset_minutes as i32,
    }
}

pub open spec fn denote_frac_utc(s: Seq<char>) -> Timestamp {
    denoted_fields(s, num3(s, 20), 0)
}

pub open spec fn denote_plain_utc(s: Seq<char>) -> Timestamp {
    denoted_fields(s, 0, 0)
}

pub open spec fn denote_frac_offset(s: Seq<char>) -> Timestamp {
    denoted_fields(s, num3(s, 20), offset_minutes_at(s, 23))
}

pub open spec fn denote_plain_offset(s: Seq<char>) -> Timestamp {
    denoted_fields(s, 0, offset_minutes_at(s, 19))
}

/// What `parse` returns on accepted text, shape by shape in the order the
/// shapes are tried.
pub open spec fn denoted(s: Seq<char>) -> Timestamp {
    if matches_frac_utc(s) {
        denote_frac_utc(s)
    } else if matches_plain_utc(s) {
        denote_plain_utc(s)
    } else if matches_frac_offset(zulu_substituted(s)) {
        denote_frac_offset(zulu_substituted(s))
    } else {
        denote_plain_offset(zulu_substituted(s))
    }
}

/// Day number of a civil date, counted from 1970-01-01 in the proleptic
/// Gregorian calendar.
pub open spec fn days_from_epoch(y: int, m: int, d: int) -> int {
    let yy = if m <= 2 {
        y - 1
    } else {
        y
    };
    let era = yy / 400;
    let yoe = yy - era * 400;
    let mp = if m > 2 {
        m - 3
    } else {
        m + 9
    };
    let doy = (153 * mp + 2) / 5 + d - 1;
    let doe = yoe * 365 + yoe / 4 - yoe / 100 + doy;
    era * 146097 + doe - 719468
}

/// The UTC instant a timestamp denotes, in milliseconds from the epoch: the
/// civil fields read as local to their offset, then shifted back to UTC.
pub open spec fn epoch_millis_of(t: Timestamp) -> int {
    days_from_epoch(t.year as int, t.month as int, t.day as int) * 86400000 + t.hour * 3600000
        + t.minute * 60000 + t.second * 1000 + t.millis - t.offset_minutes * 60000
}

impl Timestamp {
    /// A parsed timestamp names a real calendar moment with in-range fields.
    pub open spec fn wf(self) -> bool {
        &&& self.year <= 9999
        &&& 1 <= self.month <= 12
        &&& 1 <= self.day <= days_in_month(self.year as int, self.month as int)
        &&& self.hour <= 23
        &&& self.minute <= 59
        &&& self.second <= 59
        &&& self.millis <= 999
        &&& -1439 <= self.offset_minutes <= 1439
    }

    /// The UTC instant this timestamp denotes, in milliseconds from the
    /// epoch.
    pub fn epoch_millis(&self) -> (r: i64)
        requires
            self.wf(),
        ensures
            r as int == epoch_millis_of(*self),
            -75_000_000_000_000 <= r <= 254_000_000_000_000,
    {
        let y: i64 = self.year as i64;
        let m: i64 = self.month as i64;
        let d: i64 = self.day as i64;
        let yy: i64 = if m <= 2 {
            y - 1
        } else {
            y
        };
        let era: i64 = if yy >= 0 {
            yy / 400
        } else {
            -1
        };
        proof {
            if yy < 0 {
                assert(yy as int == -1);
                assert((-1int) / 400 == -1);
            }
        }
        let yoe: i64 = yy - era * 400;
        let mp: i64 = if m > 2 {
            m - 3
        } else {
            m + 9
        };
        let doy: i64 = (153 * mp + 2) / 5 + d - 1;
        let doe: i64 = yoe * 365 + yoe / 4 - yoe / 100 + doy;
        let days: i64 = era * 146097 + doe - 719468;
        let time_of_day: i64 = (self.hour as i64) * 3600000 + (self.minute as i64) * 60000 + (
        self.second as i64) * 1000 + (self.millis as i64);
        days * 86400000 + time_of_day - (self.offset_minutes as i64) * 60000
    }
}

/// Law: for text ending in a literal `Z`, substituting `+00:00` for the `Z`
/// turns each `Z` shape into the matching offset shape, and the instant the
/// substituted text denotes is the instant the original denotes.
pub proof fn lemma_zulu_substitution_preserves_instant(s: Seq<char>)
    requires
        matches_frac_utc(s) || matches_plain_utc(s),
    ensures
        matches_frac_utc(s) ==> matches_frac_offset(zulu_substituted(s)) && denote_frac_offset(
            zulu_substituted(s),
        ) == denote_frac_utc(s),
        matches_plain_utc(s) ==> matches_plain_offset(zulu_substituted(s)) && denote_plain_offset(
            zulu_substituted(s),
        ) == denote_plain_utc(s),
{
    reveal_strlit("+00:00");
    let t = zulu_substituted(s);
    assert(s.last() == 'Z');
    assert(t == s.drop_last() + "+00:00"@);
    assert("+00:00"@.len() == 6);
    let base = s.len() - 1;
    assert(forall|i: int| 0 <= i < base ==> t[i] == s[i]);
    assert(forall|j: int| 0 <= j < 6 ==> t[base + j] == "+00:00"@[j]);
    assert(t[base] == '+' && t[base + 1] == '0' && t[base + 2] == '0' && t[base + 3] == ':' && t[
        base + 4
    ] == '0' && t[base + 5] == '0');
    assert(is_digit('0'));
    assert(digit_at(t, base + 1) == 0 && digit_at(t, base + 2) == 0 && digit_at(t, base + 4) == 0
        && digit_at(t, base + 5) == 0);
    assert(offset_shape(t, base)) by {
        assert(digits_in(t, base + 1, base + 3));
        assert(digits_in(t, base + 4, base + 6));
    }
    assert(offset_minutes_at(t, base) == 0);
    assert(date_time_shape(t)) by {
        assert(digits_in(t, 0, 4)) by {
            assert(forall|k: int| 0 <= k < 4 ==> #[trigger] is_digit(t[k]));
        }
        assert(digits_in(t, 5, 7)) by {
            assert(forall|k: int| 5 <= k < 7 ==> #[trigger] is_digit(t[k]));
        }
        assert(digits_in(t, 8, 10)) by {
            assert(forall|k: int| 8 <= k < 10 ==> #[trigger] is_digit(t[k]));
        }
        assert(digits_in(t, 11, 13)) by {
            assert(forall|k: int| 11 <= k < 13 ==> #[trigger] is_digit(t[k]));
        }
        assert(digits_in(t, 14, 16)) by {
            assert(forall|k: int| 14 <= k < 16 ==> #[trigger] is_digit(t[k]));
        }
        assert(digits_in(t, 17, 19)) by {
            assert(forall|k: int| 17 <= k < 19 ==> #[trigger] is_digit(t[k]));
        }
    }
    assert(num4(t, 0) == num4(s, 0) && num2(t, 5) == num2(s, 5) && num2(t, 8) == num2(s, 8) && num2(
        t,
        11,
    ) == num2(s, 11) && num2(t, 14) == num2(s, 14) && num2(t, 17) == num2(s, 17));
    assert(date_time_ok(t));
    if matches_frac_utc(s) {
        assert(t.len() == 29);
        assert(t[19] == '.');
        assert(digits_in(t, 20, 23)) by {
            assert(forall|k: int| 20 <= k < 23 ==> #[trigger] is_digit(t[k]));
        }
        assert(num3(t, 20) == num3(s, 20));
        assert(matches_frac_offset(t));
        assert(denote_frac_offset(t) == denote_frac_utc(s));
    } else {
        assert(t.len() == 25);
        assert(matches_plain_offset(t));
        assert(denote_plain_offset(t) == denote_plain_utc(s));
    }
}

/// Reads the digit at position `i`, if there is one.
fn read_digit(s: &str, i: usize) -> (r: Option<u32>)
    requires
        i < s@.len(),
    ensures
        r is Some <==> is_digit(s@[i as int]),
        r matches Some(d) ==> d < 10 && d as int == digit_at(s@, i as int),
{
    let c = s.get_char(i);
    match c {
        '0' => Some(0),
        '1' => Some(1),
        '2' => Some(2),
        '3' => Some(3),
        '4' => Some(4),
        '5' => Some(5),
        '6' => Some(6),
        '7' => Some(7),
        '8' => Some(8),
        '9' => Some(9),
        _ => None,
    }
}

/// Reads the two-digit number at position `i`, if both are digits.
fn read_num2(s: &str, i: usize) -> (r: Option<u32>)
    requires
        i + 2 <= s@.len(),
        i + 2 <= usize::MAX,
    ensures
        r is Some <==> digits_in(s@, i as int, i as int + 2),
        r matches Some(v) ==> v <= 99 && v as int == num2(s@, i as int),
{
    match (read_digit(s, i), read_digit(s, i + 1)) {
        (Some(a), Some(b)) => {
            assert(digits_in(s@, i as int, i as int + 2));
            Some(10 * a + b)
        },
        _ => {
            assert(!digits_in(s@, i as int, i as int + 2)) by {
                if digits_in(s@, i as int, i as int + 2) {
                    assert(is_digit(s@[i as int]));
                    assert(is_digit(s@[i as int + 1]));
                }
            }
            None
        },
    }
}

/// Reads the three-digit number at position `i`, if all three are digits.
fn read_num3(s: &str, i: usize) -> (r: Option<u32>)
    requires
        i + 3 <= s@.len(),
        i + 3 <= usize::MAX,
    ensures
        r is Some <==> digits_in(s@, i as int, i as int + 3),
        r matches Some(v) ==> v <= 999 && v as int == num3(s@, i as int),
{
    match (read_digit(s, i), read_digit(s, i + 1), read_digit(s, i + 2)) {
        (Some(a), Some(b), Some(c)) => {
            assert(digits_in(s@, i as int, i as int + 3));
            Some(100 * a + 10 * b + c)
        },
        _ => {
            assert(!digits_in(s@, i as int, i as int + 3)) by {
                if digits_in(s@, i as int, i as int + 3) {
                    assert(is_digit(s@[i as int]));
                    assert(is_digit(s@[i as int + 1]));
                    assert(is_digit(s@[i as int + 2]));
                }
            }
            None
        },
    }
}

/// Reads the four-digit number at position `i`, if all four are digits.
fn read_num4(s: &str, i: usize) -> (r: Option<u32>)
    requires
        i + 4 <= s@.len(),
        i + 4 <= usize::MAX,
    ensures
        r is Some <==> digits_in(s@, i as int, i as int + 4),
        r matches Some(v) ==> v <= 9999 && v as int == num4(s@, i as int),
{
    match (read_digit(s, i), read_digit(s, i + 1), read_digit(s, i + 2), read_digit(s, i + 3)) {
        (Some(a), Some(b), Some(c), Some(d)) => {
            assert(digits_in(s@, i as int, i as int + 4));
            Some(1000 * a + 100 * b + 10 * c + d)
        },
        _ => {
            assert(!digits_in(s@, i as int, i as int + 4)) by {
                if digits_in(s@, i as int, i as int + 4) {
                    assert(is_digit(s@[i as int]));
                    assert(is_digit(s@[i as int + 1]));
                    assert(is_digit(s@[i as int + 2]));
                    assert(is_digit(s@[i as int + 3]));
                }
            }
            None
        },
    }
}

fn char_at_is(s: &str, i: usize, c: char) -> (r: bool)
    requires
        i < s@.len(),
    ensures
        r == (s@[i as int] == c),
{
    s.get_char(i) == c
}

/// How many days the month written at the standard positions has.
fn days_in_month_exec(y: u32, m: u32) -> (r: u32)
    ensures
        r as int == days_in_month(y as int, m as int),
{
    if m == 4 || m == 6 || m == 9 || m == 11 {
        30
    } else if m == 2 {
        if y % 4 == 0 && (y % 100 != 0 || y % 400 == 0) {
            29
        } else {
            28
        }
    } else {
        31
    }
}

/// Reads and validates the 19-character `YYYY-MM-DDTHH:MM:SS` prefix.
fn read_date_time(s: &str) -> (r: Option<(u32, u32, u32, u32, u32, u32)>)
    requires
        19 <= s@.len(),
    ensures
        r is Some <==> date_time_ok(s@),
        r matches Some(f) ==> {
            &&& f.0 <= 9999
            &&& f.0 as int == num4(s@, 0)
            &&& f.1 as int == num2(s@, 5)
            &&& f.2 as int == num2(s@, 8)
            &&& f.3 as int == num2(s@, 11)
            &&& f.4 as int == num2(s@, 14)
            &&& f.5 as int == num2(s@, 17)
        },
{
    let year = match read_num4(s, 0) {
        Some(v) => v,
        None => {
            return None;
        },
    };
    if !char_at_is(s, 4, '-') {
        return None;
    }
    let month = match read_num2(s, 5) {
        Some(v) => v,
        None => {
            return None;
        },
    };
    if !char_at_is(s, 7, '-') {
        return None;
    }
    let day = match read_num2(s, 8) {
        Some(v) => v,
        None => {
            return None;
        },
    };
    if !char_at_is(s, 10, 'T') {
        return None;
    }
    let hour = match read_num2(s, 11) {
        Some(v) => v,
        None => {
            return None;
        },
    };
    if !char_at_is(s, 13, ':') {
        return None;
    }
    let minute = match read_num2(s, 14) {
        Some(v) => v,
        None => {
            return None;
        },
    };
    if !char_at_is(s, 16, ':') {
        return None;
    }
    let second = match read_num2(s, 17) {
        Some(v) => v,
        None => {
            return None;
        },
    };
    if month < 1 || month > 12 {
        return None;
    }
    if day < 1 || day > days_in_month_exec(year, month) {
        return None;
    }
    if hour > 23 || minute > 59 || second > 59 {
        return None;
    }
    Some((year, month, day, hour, minute, second))
}

/// Reads the numeric offset `+HH:MM`/`-HH:MM` at position `i`.
fn read_offset(s: &str, i: usize) -> (r: Option<i32>)
    requires
        i + 6 <= s@.len(),
        i + 6 <= usize::MAX,
    ensures
        r is Some <==> offset_shape(s@, i as int),
        r matches Some(v) ==> v as int == offset_minutes_at(s@, i as int) && -1439 <= v <= 1439,
{
    let negative = if char_at_is(s, i, '-') {
        true
    } else if char_at_is(s, i, '+') {
        false
    } else {
        return None;
    };
    let hh = match read_num2(s, i + 1) {
        Some(v) => v,
        None => {
            return None;
        },
    };
    if !char_at_is(s, i + 3, ':') {
        return None;
    }
    let mm = match read_num2(s, i + 4) {
        Some(v) => v,
        None => {
            return None;
        },
    };
    if hh > 23 || mm > 59 {
        return None;
    }
    let magnitude: i32 = (60 * hh + mm) as i32;
    if negative {
        Some(-magnitude)
    } else {
        Some(magnitude)
    }
}

/// Tries shape 1 or shape 2 (fraction or not, trailing `Z`) on `s`.
fn try_utc_shapes(s: &str) -> (r: Option<Timestamp>)
    ensures
        r is Some <==> matches_frac_utc(s@) || matches_plain_utc(s@),
        r matches Some(t) ==> {
            &&& t.wf()
            &&& matches_frac_utc(s@) ==> t == denote_frac_utc(s@)
            &&& !matches_frac_utc(s@) ==> matches_plain_utc(s@) && t == denote_plain_utc(s@)
        },
{
    let n = s.unicode_len();
    if n != 24 && n != 20 {
        return None;
    }
    let f = match read_date_time(s) {
        Some(f) => f,
        None => {
            return None;
        },
    };
    if n == 24 {
        if !char_at_is(s, 19, '.') {
            return None;
        }
        let millis = match read_num3(s, 20) {
            Some(v) => v,
            None => {
                return None;
            },
        };
        if !char_at_is(s, 23, 'Z') {
            return None;
        }
        Some(
            Timestamp {
                year: f.0,
                month: f.1,
                day: f.2,
                hour: f.3,
                minute: f.4,
                second: f.5,
                millis,
                offset_minutes: 0,
            },
        )
    } else {
        if !char_at_is(s, 19, 'Z') {
            return None;
        }
        Some(
            Timestamp {
                year: f.0,
                month: f.1,
                day: f.2,
                hour: f.3,
                minute: f.4,
                second: f.5,
                millis: 0,
                offset_minutes: 0,
            },
        )
    }
}

/// Tries shape 3 or shape 4 (fraction or not, numeric offset) on `s`.
fn try_offset_shapes(s: &str) -> (r: Option<Timestamp>)
    ensures
        r is Some <==> matches_frac_offset(s@) || matches_plain_offset(s@),
        r matches Some(t) ==> {
            &&& t.wf()
            &&& matches_frac_offset(s@) ==> t == denote_frac_offset(s@)
            &&& !matches_frac_offset(s@) ==> matches_plain_offset(s@) && t == denote_plain_offset(
                s@,
            )
        },
{
    let n = s.unicode_len();
    if n != 29 && n != 25 {
        return None;
    }
    let f = match read_date_time(s) {
        Some(f) => f,
        None => {
            return None;
        },
    };
    if n == 29 {
        if !char_at_is(s, 19, '.') {
            return None;
        }
        let millis = match read_num3(s, 20) {
            Some(v) => v,
            None => {
                return None;
            },
        };
        let offset = match read_offset(s, 23) {
            Some(v) => v,
            None => {
                return None;
            },
        };
        Some(
            Timestamp {
                year: f.0,
                month: f.1,
                day: f.2,
                hour: f.3,
                minute: f.4,
                second: f.5,
                millis,
                offset_minutes: offset,
            },
        )
    } else {
        let offset = match read_offset(s, 19) {
            Some(v) => v,
            None => {
                return None;
            },
        };
        Some(
            Timestamp {
                year: f.0,
                month: f.1,
                day: f.2,
                hour: f.3,
                minute: f.4,
                second: f.5,
                millis: 0,
                offset_minutes: offset,
            },
        )
    }
}

/// The text with `+00:00` substituted for a trailing `Z`.
fn zulu_substitute(s: &str) -> (r: String)
    ensures
        r@ == zulu_substituted(s@),
{
    let n = s.unicode_len();
    if n > 0 && char_at_is(s, n - 1, 'Z') {
        let head = s.substring_char(0, n - 1);
        let r = String::from_str(head).concat("+00:00");
        proof {
            assert(head@ =~= s@.drop_last());
            assert(r@ =~= zulu_substituted(s@));
        }
        r
    } else {
        String::from_str(s)
    }
}

/// Law: text the parser accepts through a `Z` shape is also accepted when
/// handed over with `+00:00` already substituted for the `Z`, and it parses
/// to the very same timestamp.
pub proof fn lemma_substituted_text_parses_alike(s: Seq<char>)
    requires
        matches_frac_utc(s) || matches_plain_utc(s),
    ensures
        parse_accepts(zulu_substituted(s)),
        denoted(zulu_substituted(s)) == denoted(s),
{
    lemma_zulu_substitution_preserves_instant(s);
    reveal_strlit("+00:00");
    let t = zulu_substituted(s);
    assert(t == s.drop_last() + "+00:00"@);
    assert(t.last() == '0');
    assert(zulu_substituted(t) == t);
    assert(t.len() == s.len() + 5);
    if matches_frac_utc(s) {
        assert(denoted(t) == denote_frac_offset(t));
        assert(denoted(s) == denote_frac_utc(s));
    } else {
        assert(!matches_frac_offset(t));
        assert(denoted(t) == denote_plain_offset(t));
        assert(denoted(s) == denote_plain_utc(s));
    }
}

/// Parses a timestamp, trying the four supported shapes in order. Succeeds
/// exactly on text one of the shapes accepts, and then returns the fields the
/// text spells out; on all other text it reports failure.
pub fn parse(s: &str) -> (r: Result<Timestamp, ParseFailure>)
    ensures
        r is Ok <==> parse_accepts(s@),
        r matches Ok(t) ==> t == denoted(s@) && t.wf(),
{
    if let Some(t) = try_utc_shapes(s) {
        return Ok(t);
    }
    let substituted = zulu_substitute(s);
    if let Some(t) = try_offset_shapes(substituted.as_str()) {
        return Ok(t);
    }
    Err(ParseFailure)
}

} // verus!
