use vstd::prelude::*;
use vstd::string::*;

verus! {

// The factory timestamp is a fixed-format calendar string in UTC:
// month '/' day '/' four-digit-year ' ' hour ':' minute ':' second ' ' meridiem
// with month, day and hour written with one or two digits, minute and second
// with exactly two, and the meridiem being "AM" or "PM". The parser turns it
// into seconds since the Unix epoch.

/// Whether a character is an ASCII decimal digit.
pub open spec fn is_ascii_digit(c: char) -> bool {
    48 <= c as u32 && c as u32 <= 57
}

/// The numeric value of an ASCII decimal digit.
pub open spec fn digit_val(c: char) -> int {
    c as u32 - 48
}

/// Parse a field of one or two digits starting at `i`: two digits are taken
/// exactly when the character after the first is also a digit. Returns the
/// value and the index just past the field.
pub open spec fn parse_one_or_two(s: Seq<char>, i: int) -> Option<(int, int)> {
    if 0 <= i < s.len() && is_ascii_digit(s[i]) {
        if i + 1 < s.len() && is_ascii_digit(s[i + 1]) {
            Some((10 * digit_val(s[i]) + digit_val(s[i + 1]), i + 2))
        } else {
            Some((digit_val(s[i]), i + 1))
        }
    } else {
        None
    }
}

/// Parse a field of exactly two digits starting at `i`.
pub open spec fn parse_exactly_two(s: Seq<char>, i: int) -> Option<(int, int)> {
    if 0 <= i && i + 1 < s.len() && is_ascii_digit(s[i]) && is_ascii_digit(s[i + 1]) {
        Some((10 * digit_val(s[i]) + digit_val(s[i + 1]), i + 2))
    } else {
        None
    }
}

/// Parse a field of exactly four digits starting at `i`.
pub open spec fn parse_exactly_four(s: Seq<char>, i: int) -> Option<(int, int)> {
    if 0 <= i && i + 3 < s.len() && is_ascii_digit(s[i]) && is_ascii_digit(s[i + 1])
        && is_ascii_digit(s[i + 2]) && is_ascii_digit(s[i + 3]) {
        Some(
            (
                1000 * digit_val(s[i]) + 100 * digit_val(s[i + 1]) + 10 * digit_val(s[i + 2])
                    + digit_val(s[i + 3]),
                i + 4,
            ),
        )
    } else {
        None
    }
}

/// Expect the literal character `c` at `i`; returns the index just past it.
pub open spec fn parse_lit(s: Seq<char>, i: int, c: char) -> Option<int> {
    if 0 <= i < s.len() && s[i] == c {
        Some(i + 1)
    } else {
        None
    }
}

/// Parse the meridiem marker "AM" or "PM" at `i`: returns whether it was
/// "PM" and the index just past it.
pub open spec fn parse_meridiem(s: Seq<char>, i: int) -> Option<(bool, int)> {
    if 0 <= i && i + 1 < s.len() && (s[i] == 'A' || s[i] == 'P') && s[i + 1] == 'M' {
        Some((s[i] == 'P', i + 2))
    } else {
        None
    }
}

/// The fields of a factory timestamp, in order
/// `(month, day, year, hour, minute, second, pm)`, provided the whole string
/// has exactly the fixed shape; `None` otherwise.
pub open spec fn ts_fields(s: Seq<char>) -> Option<(int, int, int, int, int, int, bool)> {
    match parse_one_or_two(s, 0) {
        None => None,
        Some((month, i1)) => match parse_lit(s, i1, '/') {
            None => None,
            Some(i2) => match parse_one_or_two(s, i2) {
                None => None,
                Some((day, i3)) => match parse_lit(s, i3, '/') {
                    None => None,
                    Some(i4) => match parse_exactly_four(s, i4) {
                        None => None,
                        Some((year, i5)) => match parse_lit(s, i5, ' ') {
                            None => None,
                            Some(i6) => match parse_one_or_two(s, i6) {
                                None => None,
                                Some((hour, i7)) => match parse_lit(s, i7, ':') {
                                    None => None,
                                    Some(i8) => match parse_exactly_two(s, i8) {
                                        None => None,
                                        Some((minute, i9)) => match parse_lit(s, i9, ':') {
                                            None => None,
                                            Some(i10) => match parse_exactly_two(s, i10) {
                                                None => None,
                                                Some((second, i11)) => match parse_lit(
                                                    s,
                                                    i11,
                                                    ' ',
                                                ) {
                                                    None => None,
                                                    Some(i12) => match parse_meridiem(s, i12) {
                                                        None => None,
                                                        Some((pm, i13)) => if i13 == s.len() {
                                                            Some(
                                                                (
                                                                    month,
                                                                    day,
                                                                    year,
                                                                    hour,
                                                                    minute,
                                                                    second,
                                                                    pm,
                                                                ),
                                                            )
                                                        } else {
                                                            None
                                                        },
                                                    },
                                                },
                                            },
                                        },
                                    },
                                },
                            },
                        },
                    },
                },
            },
        },
    }
}

/// Whether a year is a leap year in the Gregorian calendar.
pub open spec fn is_leap_year(y: int) -> bool {
    (y % 4 == 0 && y % 100 != 0) || y % 400 == 0
}

/// The number of days in a month of a given year.
pub open spec fn days_in_month(y: int, m: int) -> int {
    if m == 2 {
        if is_leap_year(y) {
            29
        } else {
            28
        }
    } else if m == 4 || m == 6 || m == 9 || m == 11 {
        30
    } else {
        31
    }
}

/// The number of days from 1970-01-01 up to January 1st of year `y`.
pub open spec fn days_before_year(y: int) -> int
    decreases y - 1970,
{
    if y <= 1970 {
        0
    } else {
        days_before_year(y - 1) + if is_leap_year(y - 1) {
            366int
        } else {
            365int
        }
    }
}

/// The number of days from January 1st up to the first of month `m` in year `y`.
pub open spec fn days_before_month(y: int, m: int) -> int
    decreases m,
{
    if m <= 1 {
        0
    } else {
        days_before_month(y, m - 1) + days_in_month(y, m - 1)
    }
}

/// The number of days from 1970-01-01 to the calendar date `y`-`m`-`d`.
pub open spec fn days_from_epoch(y: int, m: int, d: int) -> int {
    days_before_year(y) + days_before_month(y, m) + (d - 1)
}

/// The 24-hour clock hour named by a 12-hour clock hour and a meridiem.
pub open spec fn hour_of_day(h12: int, pm: bool) -> int {
    if pm {
        if h12 == 12 {
            12
        } else {
            h12 + 12
        }
    } else {
        if h12 == 12 {
            0
        } else {
            h12
        }
    }
}

/// Whether parsed fields name a real instant: a calendar date between 1970
/// and 9999, a 12-hour clock hour, and minute and second below sixty.
pub open spec fn fields_ok(f: (int, int, int, int, int, int, bool)) -> bool {
    &&& 1 <= f.0 <= 12
    &&& 1970 <= f.2 <= 9999
    &&& 1 <= f.1 <= days_in_month(f.2, f.0)
    &&& 1 <= f.3 <= 12
    &&& 0 <= f.4 <= 59
    &&& 0 <= f.5 <= 59
}

/// The epoch seconds named by valid timestamp fields.
pub open spec fn epoch_of_fields(f: (int, int, int, int, int, int, bool)) -> int {
    days_from_epoch(f.2, f.0, f.1) * 86400 + hour_of_day(f.3, f.6) * 3600 + f.4 * 60 + f.5
}

/// Whether a string is a well-formed factory timestamp.
pub open spec fn ts_valid(s: Seq<char>) -> bool {
    match ts_fields(s) {
        Some(f) => fields_ok(f),
        None => false,
    }
}

/// The epoch seconds a well-formed factory timestamp names.
pub open spec fn ts_epoch(s: Seq<char>) -> int {
    match ts_fields(s) {
        Some(f) => epoch_of_fields(f),
        None => 0,
    }
}

/// Whether a year is a leap year.
pub fn exec_is_leap_year(y: u32) -> (r: bool)
    ensures
        r == is_leap_year(y as int),
{
    (y % 4 == 0 && y % 100 != 0) || y % 400 == 0
}

/// The number of days in a month of a given year.
pub fn exec_days_in_month(y: u32, m: u32) -> (r: u32)
    ensures
        r == days_in_month(y as int, m as int),
        28 <= r <= 31,
{
    if m == 2 {
        if exec_is_leap_year(y) {
            29
        } else {
            28
        }
    } else if m == 4 || m == 6 || m == 9 || m == 11 {
        30
    } else {
        31
    }
}

/// The number of days from 1970-01-01 up to January 1st of year `y`.
fn exec_days_before_year(y: u32) -> (r: u64)
    requires
        1970 <= y <= 9999,
    ensures
        r == days_before_year(y as int),
        r <= 366 * ((y - 1970) as u64),
{
    let mut i: u32 = 1970;
    let mut acc: u64 = 0;
    while i < y
        invariant
            1970 <= i <= y <= 9999,
            acc == days_before_year(i as int),
            acc <= 366 * ((i - 1970) as u64),
        decreases y - i,
    {
        if exec_is_leap_year(i) {
            acc = acc + 366;
        } else {
            acc = acc + 365;
        }
        i = i + 1;
    }
    acc
}

/// The number of days from January 1st up to the first of month `m`.
fn exec_days_before_month(y: u32, m: u32) -> (r: u32)
    requires
        1 <= m <= 12,
    ensures
        r == days_before_month(y as int, m as int),
        r <= 341,
{
    let mut k: u32 = 1;
    let mut acc: u32 = 0;
    while k < m
        invariant
            1 <= k <= m <= 12,
            acc == days_before_month(y as int, k as int),
            acc <= 31 * ((k - 1) as u32),
        decreases m - k,
    {
        acc = acc + exec_days_in_month(y, k);
        k = k + 1;
    }
    acc
}

/// The number of days from 1970-01-01 to the calendar date `y`-`m`-`d`.
fn exec_days_from_epoch(y: u32, m: u32, d: u32) -> (r: u64)
    requires
        1970 <= y <= 9999,
        1 <= m <= 12,
        1 <= d <= 31,
    ensures
        r == days_from_epoch(y as int, m as int, d as int),
        r < 2940000,
{
    let by = exec_days_before_year(y);
    let bm = exec_days_before_month(y, m);
    by + (bm as u64) + ((d - 1) as u64)
}

/// Parse a field of one or two digits; mirrors `parse_one_or_two`.
fn exec_one_or_two(s: &str, i: usize, n: usize) -> (r: Option<(u32, usize)>)
    requires
        n == s@.len(),
        i <= n,
    ensures
        r is None ==> parse_one_or_two(s@, i as int) is None,
        r matches Some(p) ==> parse_one_or_two(s@, i as int) == Some((p.0 as int, p.1 as int))
            && p.1 <= n && p.0 <= 99,
{
    if i < n {
        let c = s.get_char(i);
        let cv = c as u32;
        if 48 <= cv && cv <= 57 {
            if i + 1 < n {
                let c2 = s.get_char(i + 1);
                let cv2 = c2 as u32;
                if 48 <= cv2 && cv2 <= 57 {
                    return Some((10 * (cv - 48) + (cv2 - 48), i + 2));
                }
            }
            return Some((cv - 48, i + 1));
        }
    }
    None
}

/// Parse a field of exactly two digits; mirrors `parse_exactly_two`.
fn exec_exactly_two(s: &str, i: usize, n: usize) -> (r: Option<(u32, usize)>)
    requires
        n == s@.len(),
        i <= n,
    ensures
        r is None ==> parse_exactly_two(s@, i as int) is None,
        r matches Some(p) ==> parse_exactly_two(s@, i as int) == Some((p.0 as int, p.1 as int))
            && p.1 <= n && p.0 <= 99,
{
    if i < n && i + 1 < n {
        let c = s.get_char(i);
        let c2 = s.get_char(i + 1);
        let cv = c as u32;
        let cv2 = c2 as u32;
        if 48 <= cv && cv <= 57 && 48 <= cv2 && cv2 <= 57 {
            return Some((10 * (cv - 48) + (cv2 - 48), i + 2));
        }
    }
    None
}

/// Parse a field of exactly four digits; mirrors `parse_exactly_four`.
fn exec_exactly_four(s: &str, i: usize, n: usize) -> (r: Option<(u32, usize)>)
    requires
        n == s@.len(),
        i <= n,
    ensures
        r is None ==> parse_exactly_four(s@, i as int) is None,
        r matches Some(p) ==> parse_exactly_four(s@, i as int) == Some((p.0 as int, p.1 as int))
            && p.1 <= n && p.0 <= 9999,
{
    if i < n && n - i >= 4 {
        let c = s.get_char(i);
        let c2 = s.get_char(i + 1);
        let c3 = s.get_char(i + 2);
        let c4 = s.get_char(i + 3);
        let cv = c as u32;
        let cv2 = c2 as u32;
        let cv3 = c3 as u32;
        let cv4 = c4 as u32;
        if 48 <= cv && cv <= 57 && 48 <= cv2 && cv2 <= 57 && 48 <= cv3 && cv3 <= 57 && 48 <= cv4
            && cv4 <= 57 {
            return Some(
                (1000 * (cv - 48) + 100 * (cv2 - 48) + 10 * (cv3 - 48) + (cv4 - 48), i + 4),
            );
        }
    }
    None
}

/// Expect the literal character `c` at `i`; mirrors `parse_lit`.
fn exec_lit(s: &str, i: usize, n: usize, c: char) -> (r: Option<usize>)
    requires
        n == s@.len(),
        i <= n,
    ensures
        r is None ==> parse_lit(s@, i as int, c) is None,
        r matches Some(j) ==> parse_lit(s@, i as int, c) == Some(j as int) && j <= n,
{
    if i < n {
        let a = s.get_char(i);
        if a == c {
            return Some(i + 1);
        }
    }
    None
}

/// Parse the meridiem marker; mirrors `parse_meridiem`.
fn exec_meridiem(s: &str, i: usize, n: usize) -> (r: Option<(bool, usize)>)
    requires
        n == s@.len(),
        i <= n,
    ensures
        r is None ==> parse_meridiem(s@, i as int) is None,
        r matches Some(p) ==> parse_meridiem(s@, i as int) == Some((p.0, p.1 as int)) && p.1 <= n,
{
    if i < n {
        let a = s.get_char(i);
        if a == 'A' || a == 'P' {
            if i + 1 < n {
                let m = s.get_char(i + 1);
                if m == 'M' {
                    return Some((a == 'P', i + 2));
                }
            }
        }
    }
    None
}

/// Parse a factory timestamp into seconds since the Unix epoch. Returns
/// `None` exactly when the string does not have the fixed shape or its
/// fields do not name a real instant.
pub fn parse_factory_timestamp(s: &str) -> (r: Option<i64>)
    ensures
        r is Some <==> ts_valid(s@),
        r matches Some(t) ==> t == ts_epoch(s@),
{
    let n = s.unicode_len();
    let (month, i1) = match exec_one_or_two(s, 0, n) {
        Some(p) => p,
        None => {
            return None;
        },
    };
    let i2 = match exec_lit(s, i1, n, '/') {
        Some(j) => j,
        None => {
            return None;
        },
    };
    let (day, i3) = match exec_one_or_two(s, i2, n) {
        Some(p) => p,
        None => {
            return None;
        },
    };
    let i4 = match exec_lit(s, i3, n, '/') {
        Some(j) => j,
        None => {
            return None;
        },
    };
    let (year, i5) = match exec_exactly_four(s, i4, n) {
        Some(p) => p,
        None => {
            return None;
        },
    };
    let i6 = match exec_lit(s, i5, n, ' ') {
        Some(j) => j,
        None => {
            return None;
        },
    };
    let (hour, i7) = match exec_one_or_two(s, i6, n) {
        Some(p) => p,
        None => {
            return None;
        },
    };
    let i8 = match exec_lit(s, i7, n, ':') {
        Some(j) => j,
        None => {
            return None;
        },
    };
    let (minute, i9) = match exec_exactly_two(s, i8, n) {
        Some(p) => p,
        None => {
            return None;
        },
    };
    let i10 = match exec_lit(s, i9, n, ':') {
        Some(j) => j,
        None => {
            return None;
        },
    };
    let (second, i11) = match exec_exactly_two(s, i10, n) {
        Some(p) => p,
        None => {
            return None;
        },
    };
    let i12 = match exec_lit(s, i11, n, ' ') {
        Some(j) => j,
        None => {
            return None;
        },
    };
    let (pm, i13) = match exec_meridiem(s, i12, n) {
        Some(p) => p,
        None => {
            return None;
        },
    };
    if i13 != n {
        return None;
    }
    assert(ts_fields(s@) == Some(
        (month as int, day as int, year as int, hour as int, minute as int, second as int, pm),
    ));
    if !(1 <= month && month <= 12) {
        return None;
    }
    if !(1970 <= year && year <= 9999) {
        return None;
    }
    let dim = exec_days_in_month(year, month);
    if !(1 <= day && day <= dim) {
        return None;
    }
    if !(1 <= hour && hour <= 12) {
        return None;
    }
    if minute > 59 {
        return None;
    }
    if second > 59 {
        return None;
    }
    let days = exec_days_from_epoch(year, month, day);
    let hod: u64 = if pm {
        if hour == 12 {
            12
        } else {
            (hour + 12) as u64
        }
    } else {
        if hour == 12 {
            0
        } else {
            hour as u64
        }
    };
    let secs: u64 = days * 86400 + hod * 3600 + (minute as u64) * 60 + (second as u64);
    Some(secs as i64)
}

} // verus!
