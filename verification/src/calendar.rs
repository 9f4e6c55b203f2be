//! Calendar validity and conversion of a claimed date-time to seconds since
//! the Unix epoch, on plain integer fields.
use vstd::prelude::*;

verus! {

/// Days of the proleptic Gregorian calendar from the internal origin up to
/// 1970-01-01, with every year shifted up by 400 to keep the arithmetic
/// non-negative.
pub const RATA_DIE_UNIX_EPOCH: u64 = 865565;

pub open spec fn spec_is_leap_year(y: int) -> bool {
    (y % 4 == 0 && y % 100 != 0) || y % 400 == 0
}

pub open spec fn spec_days_in_month(y: int, mo: int) -> int {
    if mo == 2 {
        if spec_is_leap_year(y) { 29 } else { 28 }
    } else if mo == 4 || mo == 6 || mo == 9 || mo == 11 {
        30
    } else {
        31
    }
}

/// Whether the six decoded fields form a real calendar date and time of day.
pub open spec fn spec_valid_date_time(y: int, mo: int, d: int, h: int, mi: int, s: int) -> bool {
    1 <= mo <= 12 && 1 <= d <= spec_days_in_month(y, mo) && 0 <= h < 24 && 0 <= mi < 60 && 0 <= s
        < 60 && 0 <= y <= 65535
}

/// Day count of the proleptic Gregorian calendar for the shifted year
/// `y` (the civil year plus 400), counted from the internal origin.
pub open spec fn spec_rata_die(y: int, mo: int, d: int) -> int {
    let yp = if mo <= 2 { y - 1 } else { y };
    let era = yp / 400;
    let yoe = yp % 400;
    let mp = if mo > 2 { mo - 3 } else { mo + 9 };
    let doy = (153 * mp + 2) / 5 + d - 1;
    let doe = yoe * 365 + yoe / 4 - yoe / 100 + doy;
    era * 146097 + doe
}

/// Seconds since 1970-01-01 00:00:00 of the given civil date and time,
/// both taken as UTC.
pub open spec fn spec_epoch_seconds(y: int, mo: int, d: int, h: int, mi: int, s: int) -> int {
    (spec_rata_die(y + 400, mo, d) - RATA_DIE_UNIX_EPOCH) * 86400 + h * 3600 + mi * 60 + s
}

pub fn is_leap_year(y: u16) -> (r: bool)
    ensures
        r == spec_is_leap_year(y as int),
{
    (y % 4 == 0 && y % 100 != 0) || y % 400 == 0
}

pub fn days_in_month(y: u16, mo: u8) -> (r: u8)
    ensures
        r == spec_days_in_month(y as int, mo as int),
{
    if mo == 2 {
        if is_leap_year(y) { 29 } else { 28 }
    } else if mo == 4 || mo == 6 || mo == 9 || mo == 11 {
        30
    } else {
        31
    }
}

pub fn valid_date_time(y: u16, mo: u8, d: u8, h: u8, mi: u8, s: u8) -> (r: bool)
    ensures
        r == spec_valid_date_time(y as int, mo as int, d as int, h as int, mi as int, s as int),
{
    1 <= mo && mo <= 12 && 1 <= d && d <= days_in_month(y, mo) && h < 24 && mi < 60 && s < 60
}

fn rata_die(y: u32, mo: u8, d: u8) -> (r: u64)
    requires
        400 <= y <= 66000,
        1 <= mo <= 12,
        1 <= d <= 31,
    ensures
        r == spec_rata_die(y as int, mo as int, d as int),
        r < 25_000_000,
{
    let yp: u64 = if mo <= 2 { (y - 1) as u64 } else { y as u64 };
    let era: u64 = yp / 400;
    let yoe: u64 = yp % 400;
    let mp: u64 = if mo > 2 { (mo - 3) as u64 } else { (mo + 9) as u64 };
    let doy: u64 = (153 * mp + 2) / 5 + (d - 1) as u64;
    let doe: u64 = yoe * 365 + yoe / 4 - yoe / 100 + doy;
    era * 146097 + doe
}

/// Seconds since the Unix epoch of a decoded date-time, taken as UTC.
pub fn epoch_seconds(y: u16, mo: u8, d: u8, h: u8, mi: u8, s: u8) -> (r: i64)
    requires
        spec_valid_date_time(y as int, mo as int, d as int, h as int, mi as int, s as int),
    ensures
        r == spec_epoch_seconds(y as int, mo as int, d as int, h as int, mi as int, s as int),
        -100_000_000_000 < r < 3_000_000_000_000,
{
    let days: u64 = rata_die(y as u32 + 400, mo, d);
    let rel: i64 = days as i64 - RATA_DIE_UNIX_EPOCH as i64;
    rel * 86400 + (h as i64) * 3600 + (mi as i64) * 60 + (s as i64)
}

} // verus!
