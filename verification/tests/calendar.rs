use arima_console::calendar::{
    civil_date_exists, civil_date_from_epoch_seconds, civil_from_days, format_ddmmyyyy,
    today_ddmmyyyy_tz_minus3, MAX_DAY, MIN_DAY, UTC_MINUS_3,
};

fn is_leap(year: i64) -> bool {
    year % 4 == 0 && (year % 100 != 0 || year % 400 == 0)
}

fn month_length(year: i64, month: u32) -> u32 {
    match month {
        2 => {
            if is_leap(year) {
                29
            } else {
                28
            }
        }
        4 | 6 | 9 | 11 => 30,
        _ => 31,
    }
}

fn day_after(date: (i64, u32, u32)) -> (i64, u32, u32) {
    let (year, month, day) = date;
    if day < month_length(year, month) {
        (year, month, day + 1)
    } else if month < 12 {
        (year, month + 1, 1)
    } else {
        (year + 1, 1, 1)
    }
}

fn day_before(date: (i64, u32, u32)) -> (i64, u32, u32) {
    let (year, month, day) = date;
    if day > 1 {
        (year, month, day - 1)
    } else if month > 1 {
        (year, month - 1, month_length(year, month - 1))
    } else {
        (year - 1, 12, 31)
    }
}

#[test]
fn epoch_is_first_of_january_1970() {
    assert_eq!(civil_from_days(0), (1970, 1, 1));
}

#[test]
fn known_dates() {
    assert_eq!(civil_from_days(-1), (1969, 12, 31));
    assert_eq!(civil_from_days(11_016), (2000, 2, 29));
    assert_eq!(civil_from_days(11_017), (2000, 3, 1));
    assert_eq!(civil_from_days(19_723), (2024, 1, 1));
    assert_eq!(civil_from_days(19_782), (2024, 2, 29));
    assert_eq!(civil_from_days(-25_509), (1900, 2, 28));
    assert_eq!(civil_from_days(-25_508), (1900, 3, 1));
    assert_eq!(civil_from_days(47_540), (2100, 2, 28));
    assert_eq!(civil_from_days(47_541), (2100, 3, 1));
    assert_eq!(civil_from_days(-719_162), (1, 1, 1));
}

#[test]
fn era_boundaries() {
    assert_eq!(civil_from_days(-719_468), (0, 3, 1));
    assert_eq!(civil_from_days(-719_469), (0, 2, 29));
    assert_eq!(civil_from_days(-719_468 + 146_097), (400, 3, 1));
    assert_eq!(civil_from_days(-719_468 + 146_096), (400, 2, 29));
    assert_eq!(civil_from_days(-719_468 - 146_097), (-400, 3, 1));
    assert_eq!(civil_from_days(-719_468 - 146_098), (-400, 2, 29));
}

#[test]
fn first_and_last_day() {
    assert_eq!(civil_from_days(MIN_DAY), (i32::MIN, 1, 1));
    assert_eq!(civil_from_days(MIN_DAY + 1), (i32::MIN, 1, 2));
    assert_eq!(civil_from_days(MAX_DAY), (i32::MAX, 12, 31));
    assert_eq!(civil_from_days(MAX_DAY - 1), (i32::MAX, 12, 30));
}

#[test]
fn every_day_forward_over_six_centuries() {
    let mut expected: (i64, u32, u32) = (1970, 1, 1);
    for days in 0..220_000i64 {
        let (year, month, day) = civil_from_days(days);
        assert_eq!((year as i64, month, day), expected, "day {}", days);
        expected = day_after(expected);
    }
    assert!(expected.0 > 2550);
}

#[test]
fn every_day_backward_over_twenty_centuries() {
    let mut expected: (i64, u32, u32) = (1970, 1, 1);
    for back in 0..760_000i64 {
        let (year, month, day) = civil_from_days(-back);
        assert_eq!((year as i64, month, day), expected, "day {}", -back);
        expected = day_before(expected);
    }
    assert!(expected.0 < -100);
}

#[test]
fn dates_never_decrease() {
    let mut last = civil_from_days(-800_000);
    for days in -799_999..800_000i64 {
        let date = civil_from_days(days);
        assert!(date > last, "day {}", days);
        last = date;
    }
}

#[test]
fn seconds_fall_on_their_local_day() {
    assert_eq!(civil_date_from_epoch_seconds(0, 0), (1970, 1, 1));
    assert_eq!(civil_date_from_epoch_seconds(86_399, 0), (1970, 1, 1));
    assert_eq!(civil_date_from_epoch_seconds(86_400, 0), (1970, 1, 2));
    assert_eq!(civil_date_from_epoch_seconds(-1, 0), (1969, 12, 31));
    assert_eq!(civil_date_from_epoch_seconds(-86_400, 0), (1969, 12, 31));
    assert_eq!(civil_date_from_epoch_seconds(-86_401, 0), (1969, 12, 30));
    assert_eq!(civil_date_from_epoch_seconds(0, UTC_MINUS_3), (1969, 12, 31));
    assert_eq!(civil_date_from_epoch_seconds(10_799, UTC_MINUS_3), (1969, 12, 31));
    assert_eq!(civil_date_from_epoch_seconds(10_800, UTC_MINUS_3), (1970, 1, 1));
    assert_eq!(civil_date_from_epoch_seconds(1_700_000_000, UTC_MINUS_3), (2023, 11, 14));
    assert_eq!(civil_date_from_epoch_seconds(1_700_000_000, 3_600 * 5), (2023, 11, 15));
}

#[test]
fn today_is_written_day_first() {
    assert_eq!(today_ddmmyyyy_tz_minus3(0), "31-12-1969");
    assert_eq!(today_ddmmyyyy_tz_minus3(10_800), "01-01-1970");
    assert_eq!(today_ddmmyyyy_tz_minus3(1_700_000_000), "14-11-2023");
    assert_eq!(today_ddmmyyyy_tz_minus3(1_709_175_600), "29-02-2024");
    assert_eq!(today_ddmmyyyy_tz_minus3(1_709_175_600 - 1), "28-02-2024");
}

#[test]
fn dates_are_padded_like_the_standard_formatter() {
    for &(year, month, day) in &[
        (2024, 2, 29),
        (1, 1, 1),
        (0, 3, 1),
        (-5, 12, 9),
        (-12_345, 10, 10),
        (12_345, 1, 31),
        (999, 9, 9),
        (i32::MIN, 1, 1),
        (i32::MAX, 12, 31),
    ] {
        assert_eq!(
            format_ddmmyyyy(year, month, day),
            format!("{:02}-{:02}-{:04}", day, month, year)
        );
    }
    assert_eq!(format_ddmmyyyy(-5, 12, 9), "09-12--005");
}

#[test]
fn instants_without_a_date_are_told_apart() {
    assert!(civil_date_exists(0, UTC_MINUS_3));
    assert!(civil_date_exists(MIN_DAY * 86_400, 0));
    assert!(!civil_date_exists(MIN_DAY * 86_400 - 1, 0));
    assert!(civil_date_exists(MIN_DAY * 86_400 + 10_800, UTC_MINUS_3));
    assert!(!civil_date_exists(MIN_DAY * 86_400 + 10_799, UTC_MINUS_3));
    assert!(civil_date_exists(MAX_DAY * 86_400 + 86_399, 0));
    assert!(!civil_date_exists(MAX_DAY * 86_400 + 86_400, 0));
    assert!(!civil_date_exists(i64::MAX, 1));
    assert!(!civil_date_exists(i64::MIN, -1));
    assert!(!civil_date_exists(i64::MAX, 0));
    assert_eq!(
        civil_date_from_epoch_seconds(MAX_DAY * 86_400 + 86_399, 0),
        (i32::MAX, 12, 31)
    );
    assert_eq!(civil_date_from_epoch_seconds(MIN_DAY * 86_400, 0), (i32::MIN, 1, 1));
}
