//! Proleptic Gregorian calendar arithmetic on day numbers.
//!
//! A day number counts days from 1970-01-01, which is day 0. The calendar is
//! described by [`is_leap_year`], [`days_in_month`] and [`day_number`]; the
//! conversion [`civil_from_days`] is proved to invert [`day_number`].

use vstd::prelude::*;
use crate::text::{push_zero_padded, zero_padded};

verus! {

/// Day number of the first day of the year `i32::MIN`.
pub const MIN_DAY: i64 = -784_353_015_833;

/// Day number of the last day of the year `i32::MAX`.
pub const MAX_DAY: i64 = 784_351_576_776;

/// Seconds in one day.
pub const SECONDS_PER_DAY: i64 = 86_400;

/// The offset, in seconds, of a clock that runs three hours behind UTC.
pub const UTC_MINUS_3: i64 = -10_800;

/// Whether `year` is a leap year of the proleptic Gregorian calendar.
pub open spec fn is_leap_year(year: int) -> bool {
    year % 4 == 0 && (year % 100 != 0 || year % 400 == 0)
}

/// Number of days of `month` (1 to 12) in `year`.
pub open spec fn days_in_month(year: int, month: int) -> int {
    if month == 2 {
        if is_leap_year(year) {
            29
        } else {
            28
        }
    } else if month == 4 || month == 6 || month == 9 || month == 11 {
        30
    } else {
        31
    }
}

/// Whether `(year, month, day)` names a day of the calendar.
pub open spec fn is_valid_date(year: int, month: int, day: int) -> bool {
    1 <= month <= 12 && 1 <= day <= days_in_month(year, month)
}

/// Number of leap years among the years before `year`, counted from year 1
/// (negative for years before it).
pub open spec fn leap_years_before(year: int) -> int {
    (year - 1) / 4 - (year - 1) / 100 + (year - 1) / 400
}

/// Days from 1970-01-01 to the first day of `year`.
pub open spec fn days_before_year(year: int) -> int {
    365 * (year - 1970) + leap_years_before(year) - leap_years_before(1970)
}

/// Days from the first day of `year` to the first day of `month` in it.
pub open spec fn days_before_month(year: int, month: int) -> int
    decreases month,
{
    if month <= 1 {
        0
    } else {
        days_before_month(year, month - 1) + days_in_month(year, month - 1)
    }
}

/// Days from 1970-01-01 to `(year, month, day)`.
pub open spec fn day_number(year: int, month: int, day: int) -> int {
    days_before_year(year) + days_before_month(year, month) + day - 1
}

/// The day after `(year, month, day)`.
pub open spec fn next_date(year: int, month: int, day: int) -> (int, int, int) {
    if day < days_in_month(year, month) {
        (year, month, day + 1)
    } else if month < 12 {
        (year, month + 1, 1)
    } else {
        (year + 1, 1, 1)
    }
}

/// Whether date `a` comes strictly before date `b`, both as
/// `(year, month, day)`.
pub open spec fn date_before(a: (int, int, int), b: (int, int, int)) -> bool {
    a.0 < b.0 || (a.0 == b.0 && (a.1 < b.1 || (a.1 == b.1 && a.2 < b.2)))
}

/// Whether `date`, as `(year, month, day)`, is the calendar day with the day
/// number `days`.
pub open spec fn names_day(date: (int, int, int), days: int) -> bool {
    is_valid_date(date.0, date.1, date.2) && day_number(date.0, date.1, date.2) == days
}

/// The calendar date, as `(year, month, day)`, of the day with the day number
/// `days`.
pub open spec fn civil_date(days: int) -> (int, int, int) {
    choose|date: (int, int, int)| names_day(date, days)
}

/// The day number that holds the instant `now_secs` seconds after the epoch,
/// on a clock that runs `utc_offset_secs` seconds ahead of UTC.
pub open spec fn local_day(now_secs: int, utc_offset_secs: int) -> int {
    (now_secs + utc_offset_secs) / (SECONDS_PER_DAY as int)
}

/// Values of [`days_before_month`], month by month.
proof fn lemma_days_before_month(year: int)
    ensures
        days_before_month(year, 1) == 0,
        days_before_month(year, 2) == 31,
        days_before_month(year, 3) == 59 + if is_leap_year(year) { 1int } else { 0 },
        days_before_month(year, 4) == 90 + if is_leap_year(year) { 1int } else { 0 },
        days_before_month(year, 5) == 120 + if is_leap_year(year) { 1int } else { 0 },
        days_before_month(year, 6) == 151 + if is_leap_year(year) { 1int } else { 0 },
        days_before_month(year, 7) == 181 + if is_leap_year(year) { 1int } else { 0 },
        days_before_month(year, 8) == 212 + if is_leap_year(year) { 1int } else { 0 },
        days_before_month(year, 9) == 243 + if is_leap_year(year) { 1int } else { 0 },
        days_before_month(year, 10) == 273 + if is_leap_year(year) { 1int } else { 0 },
        days_before_month(year, 11) == 304 + if is_leap_year(year) { 1int } else { 0 },
        days_before_month(year, 12) == 334 + if is_leap_year(year) { 1int } else { 0 },
        days_before_month(year, 13) == 365 + if is_leap_year(year) { 1int } else { 0 },
{
    reveal_with_fuel(days_before_month, 14);
}

/// A year has 365 days, and one more if it is a leap year.
proof fn lemma_year_length(year: int)
    ensures
        days_before_year(year + 1) - days_before_year(year) == 365 + if is_leap_year(year) {
            1int
        } else {
            0
        },
{
}

/// The first day of a year comes no earlier than that of any year before it,
/// and at least 365 days later for each year between them.
proof fn lemma_years_increase(a: int, b: int)
    requires
        a <= b,
    ensures
        days_before_year(b) - days_before_year(a) >= 365 * (b - a),
{
}

/// 1970-01-01 is day 0.
pub proof fn lemma_epoch_is_day_zero()
    ensures
        day_number(1970, 1, 1) == 0,
{
    lemma_days_before_month(1970);
}

/// The day after a calendar day is again a calendar day, and its day number
/// is one more.
pub proof fn lemma_next_day(year: int, month: int, day: int)
    requires
        is_valid_date(year, month, day),
    ensures
        ({
            let next = next_date(year, month, day);
            &&& is_valid_date(next.0, next.1, next.2)
            &&& day_number(next.0, next.1, next.2) == day_number(year, month, day) + 1
        }),
{
    lemma_days_before_month(year);
    lemma_days_before_month(year + 1);
    lemma_year_length(year);
}

/// Day numbers grow with the calendar: an earlier date has a smaller day
/// number.
pub proof fn lemma_day_number_increasing(a: (int, int, int), b: (int, int, int))
    requires
        is_valid_date(a.0, a.1, a.2),
        is_valid_date(b.0, b.1, b.2),
        date_before(a, b),
    ensures
        day_number(a.0, a.1, a.2) < day_number(b.0, b.1, b.2),
{
    lemma_days_before_month(a.0);
    lemma_days_before_month(b.0);
    if a.0 < b.0 {
        lemma_year_length(a.0);
        lemma_years_increase(a.0 + 1, b.0);
    }
}

/// No two calendar days share a day number.
pub proof fn lemma_day_number_injective(a: (int, int, int), b: (int, int, int))
    requires
        is_valid_date(a.0, a.1, a.2),
        is_valid_date(b.0, b.1, b.2),
        day_number(a.0, a.1, a.2) == day_number(b.0, b.1, b.2),
    ensures
        a == b,
{
    if date_before(a, b) {
        lemma_day_number_increasing(a, b);
    } else if date_before(b, a) {
        lemma_day_number_increasing(b, a);
    }
}

/// Dates never run backwards as the day number grows: of two calendar days,
/// the one with the larger day number is not the earlier date.
pub proof fn lemma_dates_follow_day_numbers(a: (int, int, int), b: (int, int, int))
    requires
        is_valid_date(a.0, a.1, a.2),
        is_valid_date(b.0, b.1, b.2),
        day_number(a.0, a.1, a.2) <= day_number(b.0, b.1, b.2),
    ensures
        !date_before(b, a),
{
    if date_before(b, a) {
        lemma_day_number_increasing(b, a);
    }
}

/// Days from the first of March to the first day of the month that lies
/// `mp` months after March.
spec fn days_before_shifted_month(mp: int) -> int {
    (153 * mp + 2) / 5
}

/// Days from the first of March of year 0 of a 400-year era to the first of
/// March of its year `yoe`.
spec fn days_before_year_of_era(yoe: int) -> int {
    365 * yoe + yoe / 4 - yoe / 100
}

/// The month and day that the day `doy` of a year counted from March falls
/// on: the month lies `mp` months after March, and the day within it is in the
/// month's range, February aside.
proof fn lemma_shifted_month(doy: int)
    requires
        0 <= doy <= 365,
    ensures
        ({
            let mp = (5 * doy + 2) / 153;
            let day = doy - days_before_shifted_month(mp) + 1;
            &&& 0 <= mp <= 11
            &&& 1 <= day <= 31
            &&& (mp == 1 || mp == 3 || mp == 6 || mp == 8) ==> day <= 30
            &&& mp == 11 ==> day <= 29
            &&& days_before_shifted_month(mp) == if mp == 0 {
                0int
            } else if mp == 1 {
                31
            } else if mp == 2 {
                61
            } else if mp == 3 {
                92
            } else if mp == 4 {
                122
            } else if mp == 5 {
                153
            } else if mp == 6 {
                184
            } else if mp == 7 {
                214
            } else if mp == 8 {
                245
            } else if mp == 9 {
                275
            } else if mp == 10 {
                306
            } else {
                337
            }
        }),
{
}

/// The day number of the first of March of the year `yoe` of the era `era`,
/// and whether the year after it is a leap year.
proof fn lemma_first_of_march(era: int, yoe: int)
    requires
        0 <= yoe <= 399,
    ensures
        ({
            let year = yoe + era * 400;
            &&& days_before_year(year) + 59 + (if is_leap_year(year) {
                1int
            } else {
                0
            }) == era * 146_097 + days_before_year_of_era(yoe) - 719_468
            &&& is_leap_year(year + 1) <==> yoe % 4 == 3 && (yoe % 100 != 99 || yoe == 399)
        }),
{
    let year = yoe + era * 400;
    assert((year - 1) / 4 == 100 * era + (yoe - 1) / 4);
    assert((year - 1) / 100 == 4 * era + (yoe - 1) / 100);
    assert((year - 1) / 400 == era + (yoe - 1) / 400);
    assert(year % 4 == yoe % 4);
    assert(year % 100 == yoe % 100);
    assert(year % 400 == yoe);
    assert((year + 1) % 4 == (yoe + 1) % 4);
    assert((year + 1) % 100 == (yoe + 1) % 100);
    assert((year + 1) % 400 == (yoe + 1) % 400);
    assert(leap_years_before(year) + (if is_leap_year(year) {
        1int
    } else {
        0
    }) == 97 * era + yoe / 4 - yoe / 100);
}

/// The year of the era that the day `doe` of the era falls in, and the day
/// of that year: the last day of a year counted from March is the 29th of
/// February, which only a year before a leap year has.
proof fn lemma_year_of_era(doe: int)
    requires
        0 <= doe < 146_097,
    ensures
        ({
            let yoe = (doe - doe / 1460 + doe / 36_524 - doe / 146_096) / 365;
            let doy = doe - days_before_year_of_era(yoe);
            &&& 0 <= yoe <= 399
            &&& 0 <= doy <= 365
            &&& doy == 365 ==> yoe % 4 == 3 && (yoe % 100 != 99 || yoe == 399)
        }),
{
}

/// A day of the calendar that counts years from March, placed on the
/// calendar that counts them from January: the date is valid and its day
/// number is the one the era decomposition gives.
proof fn lemma_shifted_date(era: int, yoe: int, doy: int)
    requires
        0 <= yoe <= 399,
        0 <= doy <= 365,
        doy == 365 ==> yoe % 4 == 3 && (yoe % 100 != 99 || yoe == 399),
    ensures
        ({
            let mp = (5 * doy + 2) / 153;
            let day = doy - days_before_shifted_month(mp) + 1;
            let month = if mp < 10 {
                mp + 3
            } else {
                mp - 9
            };
            let year = yoe + era * 400 + if month <= 2 {
                1int
            } else {
                0
            };
            &&& 0 <= mp <= 11
            &&& is_valid_date(year, month, day)
            &&& day_number(year, month, day) == era * 146_097 + days_before_year_of_era(yoe)
                + doy - 719_468
        }),
{
    let shifted_year = yoe + era * 400;
    lemma_shifted_month(doy);
    lemma_first_of_march(era, yoe);
    lemma_year_length(shifted_year);
    lemma_days_before_month(shifted_year);
    lemma_days_before_month(shifted_year + 1);
}

/// Every day number names exactly one calendar day, and [`civil_date`] is
/// that day.
pub proof fn lemma_civil_date(days: int)
    ensures
        names_day(civil_date(days), days),
        forall|date: (int, int, int)| #[trigger] names_day(date, days) ==> date == civil_date(days),
{
    let z = days + 719_468;
    let era = z / 146_097;
    let doe = z - era * 146_097;
    lemma_year_of_era(doe);
    let yoe = (doe - doe / 1460 + doe / 36_524 - doe / 146_096) / 365;
    let doy = doe - days_before_year_of_era(yoe);
    lemma_shifted_date(era, yoe, doy);
    let mp = (5 * doy + 2) / 153;
    let day = doy - days_before_shifted_month(mp) + 1;
    let month = if mp < 10 {
        mp + 3
    } else {
        mp - 9
    };
    let year = yoe + era * 400 + if month <= 2 {
        1int
    } else {
        0
    };
    assert(names_day((year, month, day), days));
    assert forall|date: (int, int, int)| #[trigger] names_day(date, days) implies date
        == civil_date(days) by {
        lemma_day_number_injective(date, civil_date(days));
    }
}

/// Dates never run backwards: the date of a later day number is not an
/// earlier date.
pub proof fn lemma_civil_date_monotonic(earlier: int, later: int)
    requires
        earlier <= later,
    ensures
        !date_before(civil_date(later), civil_date(earlier)),
{
    lemma_civil_date(earlier);
    lemma_civil_date(later);
    lemma_dates_follow_day_numbers(civil_date(earlier), civil_date(later));
}

/// Converts a day number to the calendar date `(year, month, day)` that it
/// names.
///
/// The day number must lie in a year that fits `i32`: from [`MIN_DAY`] to
/// [`MAX_DAY`].
pub fn civil_from_days(days_since_epoch: i64) -> (date: (i32, u32, u32))
    requires
        MIN_DAY <= days_since_epoch <= MAX_DAY,
    ensures
        (date.0 as int, date.1 as int, date.2 as int) == civil_date(days_since_epoch as int),
        is_valid_date(date.0 as int, date.1 as int, date.2 as int),
        day_number(date.0 as int, date.1 as int, date.2 as int) == days_since_epoch,
{
    let z: i64 = days_since_epoch + 719_468;
    let era: i64 = (if z >= 0 {
        z
    } else {
        z - 146_096
    }) / 146_097;
    assert(era == z as int / 146_097);
    let doe: i64 = z - era * 146_097;
    assert(0 <= doe < 146_097);
    proof {
        lemma_year_of_era(doe as int);
    }
    let yoe: i64 = (doe - doe / 1460 + doe / 36_524 - doe / 146_096) / 365;
    let doy: i64 = doe - (365 * yoe + yoe / 4 - yoe / 100);
    assert(doy == doe - days_before_year_of_era(yoe as int));
    proof {
        lemma_shifted_date(era as int, yoe as int, doy as int);
    }
    let mp: i64 = (5 * doy + 2) / 153;
    let d: i64 = doy - (153 * mp + 2) / 5 + 1;
    assert(d == doy - days_before_shifted_month(mp as int) + 1);
    let m: i64 = if mp < 10 {
        mp + 3
    } else {
        mp - 9
    };
    let y: i64 = yoe + era * 400 + if m <= 2 {
        1
    } else {
        0
    };
    proof {
        lemma_year_in_range(y as int, m as int, d as int);
        lemma_civil_date(days_since_epoch as int);
        lemma_day_number_injective(
            (y as int, m as int, d as int),
            civil_date(days_since_epoch as int),
        );
    }
    (y as i32, m as u32, d as u32)
}

/// A calendar day whose day number lies from [`MIN_DAY`] to [`MAX_DAY`] has a
/// year that fits `i32`.
proof fn lemma_year_in_range(year: int, month: int, day: int)
    requires
        is_valid_date(year, month, day),
        MIN_DAY <= day_number(year, month, day) <= MAX_DAY,
    ensures
        i32::MIN <= year <= i32::MAX,
{
    lemma_days_before_month(year);
    if year > i32::MAX {
        lemma_years_increase(i32::MAX as int + 1, year);
    }
    if year < i32::MIN {
        lemma_year_length(year);
        lemma_years_increase(year + 1, i32::MIN as int);
    }
}

/// Converts an instant, given in seconds after the epoch, to the calendar
/// date it falls on for a clock that runs `utc_offset_secs` seconds ahead of
/// UTC.
///
/// The local day must lie in a year that fits `i32`.
pub fn civil_date_from_epoch_seconds(now_secs: i64, utc_offset_secs: i64) -> (date: (
    i32,
    u32,
    u32,
))
    requires
        MIN_DAY <= local_day(now_secs as int, utc_offset_secs as int) <= MAX_DAY,
    ensures
        (date.0 as int, date.1 as int, date.2 as int) == civil_date(
            local_day(now_secs as int, utc_offset_secs as int),
        ),
        is_valid_date(date.0 as int, date.1 as int, date.2 as int),
{
    let local: i64 = now_secs + utc_offset_secs;
    let days: i64 = if local >= 0 {
        local / SECONDS_PER_DAY
    } else {
        (local - (SECONDS_PER_DAY - 1)) / SECONDS_PER_DAY
    };
    civil_from_days(days)
}

/// Whether the local day of the instant lies in a year that fits `i32`, so
/// that its calendar date can be given.
pub open spec fn has_civil_date(now_secs: int, utc_offset_secs: int) -> bool {
    MIN_DAY <= local_day(now_secs, utc_offset_secs) <= MAX_DAY
}

/// Tells whether [`civil_date_from_epoch_seconds`] can give the date of the
/// instant.
pub fn civil_date_exists(now_secs: i64, utc_offset_secs: i64) -> (ok: bool)
    ensures
        ok == has_civil_date(now_secs as int, utc_offset_secs as int),
{
    let lowest: i64 = MIN_DAY * SECONDS_PER_DAY;
    let highest: i64 = MAX_DAY * SECONDS_PER_DAY + (SECONDS_PER_DAY - 1);
    match now_secs.checked_add(utc_offset_secs) {
        Some(local) => lowest <= local && local <= highest,
        None => false,
    }
}

/// The date `(year, month, day)` written as `dd-mm-yyyy`: day and month with
/// two digits, the year with at least four.
pub open spec fn date_text(year: int, month: int, day: int) -> Seq<char> {
    zero_padded(day, 2) + seq!['-'] + zero_padded(month, 2) + seq!['-'] + zero_padded(year, 4)
}

/// The calendar date, written as `dd-mm-yyyy`, of the instant `now_secs`
/// seconds after the epoch on a clock three hours behind UTC.
pub open spec fn today_text(now_secs: int) -> Seq<char> {
    let date = civil_date(local_day(now_secs, UTC_MINUS_3 as int));
    date_text(date.0, date.1, date.2)
}

/// Writes the date `(year, month, day)` as `dd-mm-yyyy`.
pub fn format_ddmmyyyy(year: i32, month: u32, day: u32) -> (text: String)
    ensures
        text@ == date_text(year as int, month as int, day as int),
{
    let mut text = String::new();
    push_zero_padded(&mut text, day as i64, 2);
    text.push('-');
    push_zero_padded(&mut text, month as i64, 2);
    text.push('-');
    push_zero_padded(&mut text, year as i64, 4);
    assert(text@ =~= date_text(year as int, month as int, day as int));
    text
}

/// The calendar date, written as `dd-mm-yyyy`, of the instant `now_secs`
/// seconds after the epoch on a clock three hours behind UTC.
pub fn today_ddmmyyyy_tz_minus3(now_secs: i64) -> (text: String)
    requires
        has_civil_date(now_secs as int, UTC_MINUS_3 as int),
    ensures
        text@ == today_text(now_secs as int),
{
    let (year, month, day) = civil_date_from_epoch_seconds(now_secs, UTC_MINUS_3);
    format_ddmmyyyy(year, month, day)
}

} // verus!
