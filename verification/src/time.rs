use vstd::prelude::*;

verus! {

/// Instant the feed reports when an article has no posts:
/// 1970-01-01T00:00:00Z, as seconds since the Unix epoch.
pub const FEED_EPOCH: i64 = 0;

/// Seconds the fixed JST offset (UTC+9) is ahead of UTC.
pub const JST_OFFSET_SECONDS: i64 = 32400;

pub open spec fn spec_is_digit(c: char) -> bool {
    48 <= c as int && c as int <= 57
}

pub open spec fn digit_val(c: char) -> int {
    c as int - 48
}

pub open spec fn year_of(s: Seq<char>) -> int {
    digit_val(s[0]) * 1000 + digit_val(s[1]) * 100 + digit_val(s[2]) * 10 + digit_val(s[3])
}

pub open spec fn month_of(s: Seq<char>) -> int {
    digit_val(s[5]) * 10 + digit_val(s[6])
}

pub open spec fn day_of(s: Seq<char>) -> int {
    digit_val(s[8]) * 10 + digit_val(s[9])
}

pub open spec fn hour_of(s: Seq<char>) -> int {
    digit_val(s[11]) * 10 + digit_val(s[12])
}

pub open spec fn minute_of(s: Seq<char>) -> int {
    digit_val(s[14]) * 10 + digit_val(s[15])
}

pub open spec fn spec_is_leap_year(y: int) -> bool {
    y % 4 == 0 && (y % 100 != 0 || y % 400 == 0)
}

pub open spec fn spec_days_in_month(y: int, m: int) -> int {
    if m == 2 {
        if spec_is_leap_year(y) {
            29
        } else {
            28
        }
    } else if m == 4 || m == 6 || m == 9 || m == 11 {
        30
    } else {
        31
    }
}

/// Days between the civil date `y-m-d` and 1970-01-01, by way of the
/// Julian day number of `y-m-d` (2440588 is the Julian day of the epoch).
pub open spec fn spec_days_from_epoch(y: int, m: int, d: int) -> int {
    let a = (14 - m) / 12;
    let yy = y + 4800 - a;
    let mm = m + 12 * a - 3;
    d + (153 * mm + 2) / 5 + 365 * yy + yy / 4 - yy / 100 + yy / 400 - 32045 - 2440588
}

/// Does `s` hold a civil timestamp in the fixed shape `YYYY-MM-DD HH:MM`,
/// with the date valid on the proleptic Gregorian calendar?
pub open spec fn spec_is_date_text(s: Seq<char>) -> bool {
    &&& s.len() == 16
    &&& spec_is_digit(s[0])
    &&& spec_is_digit(s[1])
    &&& spec_is_digit(s[2])
    &&& spec_is_digit(s[3])
    &&& s[4] == '-'
    &&& spec_is_digit(s[5])
    &&& spec_is_digit(s[6])
    &&& s[7] == '-'
    &&& spec_is_digit(s[8])
    &&& spec_is_digit(s[9])
    &&& s[10] == ' '
    &&& spec_is_digit(s[11])
    &&& spec_is_digit(s[12])
    &&& s[13] == ':'
    &&& spec_is_digit(s[14])
    &&& spec_is_digit(s[15])
    &&& 1 <= month_of(s) && month_of(s) <= 12
    &&& 1 <= day_of(s) && day_of(s) <= spec_days_in_month(year_of(s), month_of(s))
    &&& hour_of(s) <= 23
    &&& minute_of(s) <= 59
}

/// The instant `s` names, read in the fixed JST offset and expressed as
/// seconds since the Unix epoch.
pub open spec fn spec_jst_instant(s: Seq<char>) -> int {
    spec_days_from_epoch(year_of(s), month_of(s), day_of(s)) * 86400 + hour_of(s) * 3600
        + minute_of(s) * 60 - JST_OFFSET_SECONDS as int
}

/// Reads one decimal digit.
fn digit_at(s: &str, i: usize) -> (r: Option<u64>)
    requires
        i < s@.len(),
    ensures
        r is Some <==> spec_is_digit(s@[i as int]),
        r is Some ==> r->0 == digit_val(s@[i as int]),
{
    let c = s.get_char(i);
    let v = c as u32;
    if 48 <= v && v <= 57 {
        Some((v - 48) as u64)
    } else {
        None
    }
}

/// How many days the month `m` of year `y` has on the Gregorian calendar.
pub fn days_in_month(y: u64, m: u64) -> (r: u64)
    requires
        1 <= m <= 12,
    ensures
        r == spec_days_in_month(y as int, m as int),
{
    if m == 2 {
        if y % 4 == 0 && (y % 100 != 0 || y % 400 == 0) {
            29
        } else {
            28
        }
    } else if m == 4 || m == 6 || m == 9 || m == 11 {
        30
    } else {
        31
    }
}

/// Parses a timestamp written `YYYY-MM-DD HH:MM`, reads it in the fixed JST
/// offset (UTC+9), and returns the timezone-neutral instant as seconds since
/// the Unix epoch. Returns `None` exactly when the text does not hold a
/// valid timestamp in that shape.
pub fn parse_jst_date_time(s: &str) -> (r: Option<i64>)
    ensures
        r is Some <==> spec_is_date_text(s@),
        r is Some ==> r->0 == spec_jst_instant(s@),
{
    let n = s.unicode_len();
    if n != 16 {
        return None;
    }
    if !(s.get_char(4) == '-' && s.get_char(7) == '-' && s.get_char(10) == ' ' && s.get_char(13)
        == ':') {
        return None;
    }
    let d0 = digit_at(s, 0);
    let d1 = digit_at(s, 1);
    let d2 = digit_at(s, 2);
    let d3 = digit_at(s, 3);
    let d5 = digit_at(s, 5);
    let d6 = digit_at(s, 6);
    let d8 = digit_at(s, 8);
    let d9 = digit_at(s, 9);
    let d11 = digit_at(s, 11);
    let d12 = digit_at(s, 12);
    let d14 = digit_at(s, 14);
    let d15 = digit_at(s, 15);
    match (d0, d1, d2, d3, d5, d6, d8, d9, d11, d12, d14, d15) {
        (
            Some(y3),
            Some(y2),
            Some(y1),
            Some(y0),
            Some(mo1),
            Some(mo0),
            Some(da1),
            Some(da0),
            Some(h1),
            Some(h0),
            Some(mi1),
            Some(mi0),
        ) => {
            let year: u64 = y3 * 1000 + y2 * 100 + y1 * 10 + y0;
            let month: u64 = mo1 * 10 + mo0;
            let day: u64 = da1 * 10 + da0;
            let hour: u64 = h1 * 10 + h0;
            let minute: u64 = mi1 * 10 + mi0;
            if month < 1 || month > 12 {
                return None;
            }
            if day < 1 || day > days_in_month(year, month) {
                return None;
            }
            if hour > 23 || minute > 59 {
                return None;
            }
            let a: u64 = (14 - month) / 12;
            let yy: u64 = year + 4800 - a;
            let mm: u64 = month + 12 * a - 3;
            let jdn: u64 = day + (153 * mm + 2) / 5 + 365 * yy + yy / 4 - yy / 100 + yy / 400
                - 32045;
            let days: i64 = jdn as i64 - 2440588;
            let secs: i64 = days * 86400 + (hour as i64) * 3600 + (minute as i64) * 60
                - JST_OFFSET_SECONDS;
            Some(secs)
        },
        _ => None,
    }
}

} // verus!
