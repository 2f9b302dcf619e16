use chrono::{Datelike, NaiveDate};
use smart_folder_zen::date::{CalendarDate, MAX_YEAR, MIN_YEAR};
use smart_folder_zen::settings::DateFormat;

fn date(year: i32, month: u32, day: u32) -> CalendarDate {
    CalendarDate::from_ymd_opt(year, month, day).unwrap()
}

#[test]
fn test_date_format() {
    let date = CalendarDate::from_ymd_opt(2024, 3, 15).unwrap();

    assert_eq!(DateFormat::MMDD.format_date(&date), "0315");
    assert_eq!(DateFormat::YYYYMMDD.format_date(&date), "2024-03-15");
}

#[test]
fn short_format_is_month_and_day_in_four_digits() {
    assert_eq!(DateFormat::MMDD.format_date(&date(2024, 3, 15)), "0315");
    assert_eq!(DateFormat::MMDD.format_date(&date(2024, 1, 1)), "0101");
    assert_eq!(DateFormat::MMDD.format_date(&date(1999, 12, 31)), "1231");
    assert_eq!(DateFormat::MMDD.format_date(&date(2024, 10, 9)), "1009");
}

#[test]
fn long_format_is_the_iso_date() {
    assert_eq!(DateFormat::YYYYMMDD.format_date(&date(2024, 3, 15)), "2024-03-15");
    assert_eq!(DateFormat::YYYYMMDD.format_date(&date(2030, 1, 1)), "2030-01-01");
    assert_eq!(DateFormat::YYYYMMDD.format_date(&date(1000, 11, 30)), "1000-11-30");
    assert_eq!(DateFormat::YYYYMMDD.format_date(&date(9999, 12, 31)), "9999-12-31");
}

#[test]
fn years_below_one_thousand_are_filled_with_zeros() {
    assert_eq!(DateFormat::YYYYMMDD.format_date(&date(999, 2, 3)), "0999-02-03");
    assert_eq!(DateFormat::YYYYMMDD.format_date(&date(7, 7, 7)), "0007-07-07");
    assert_eq!(DateFormat::YYYYMMDD.format_date(&date(0, 1, 1)), "0000-01-01");
}

#[test]
fn years_outside_four_digits_carry_a_sign() {
    assert_eq!(DateFormat::YYYYMMDD.format_date(&date(10000, 1, 1)), "+10000-01-01");
    assert_eq!(DateFormat::YYYYMMDD.format_date(&date(MAX_YEAR, 12, 31)), "+262142-12-31");
    assert_eq!(DateFormat::YYYYMMDD.format_date(&date(-1, 1, 1)), "-0001-01-01");
    assert_eq!(DateFormat::YYYYMMDD.format_date(&date(-12345, 6, 7)), "-12345-06-07");
    assert_eq!(DateFormat::YYYYMMDD.format_date(&date(MIN_YEAR, 1, 1)), "-262143-01-01");
    assert_eq!(DateFormat::MMDD.format_date(&date(-1, 1, 1)), "0101");
}

#[test]
fn formatting_is_repeatable() {
    let day = date(2024, 2, 29);
    for format in [DateFormat::MMDD, DateFormat::YYYYMMDD] {
        let first = format.format_date(&day);
        let second = format.format_date(&day);
        let third = format.format_date(&date(2024, 2, 29));
        assert_eq!(first, second);
        assert_eq!(first, third);
    }
}

#[test]
fn names_hold_digits_hyphens_and_signs_only() {
    for (year, month, day) in [(2024, 3, 15), (5, 12, 1), (-400, 2, 29), (123456, 10, 10)] {
        for format in [DateFormat::MMDD, DateFormat::YYYYMMDD] {
            let name = format.format_date(&date(year, month, day));
            assert!(name.chars().all(|c| c.is_ascii_digit() || c == '-' || c == '+'));
        }
        assert_eq!(DateFormat::MMDD.format_date(&date(year, month, day)).len(), 4);
    }
}

#[test]
fn dates_that_do_not_exist_are_refused() {
    assert!(CalendarDate::from_ymd_opt(2023, 2, 29).is_none());
    assert!(CalendarDate::from_ymd_opt(2024, 2, 29).is_some());
    assert!(CalendarDate::from_ymd_opt(1900, 2, 29).is_none());
    assert!(CalendarDate::from_ymd_opt(2000, 2, 29).is_some());
    assert!(CalendarDate::from_ymd_opt(-4, 2, 29).is_some());
    assert!(CalendarDate::from_ymd_opt(-100, 2, 29).is_none());
    assert!(CalendarDate::from_ymd_opt(2023, 4, 31).is_none());
    assert!(CalendarDate::from_ymd_opt(2023, 4, 30).is_some());
    assert!(CalendarDate::from_ymd_opt(2015, 0, 14).is_none());
    assert!(CalendarDate::from_ymd_opt(2015, 13, 1).is_none());
    assert!(CalendarDate::from_ymd_opt(2015, 1, 0).is_none());
    assert!(CalendarDate::from_ymd_opt(2015, 1, 32).is_none());
    assert!(CalendarDate::from_ymd_opt(MAX_YEAR + 1, 1, 1).is_none());
    assert!(CalendarDate::from_ymd_opt(MIN_YEAR - 1, 12, 31).is_none());
    assert!(CalendarDate::from_ymd_opt(400000, 1, 1).is_none());
    assert!(CalendarDate::from_ymd_opt(i32::MAX, 1, 1).is_none());
    assert!(CalendarDate::from_ymd_opt(i32::MIN, 1, 1).is_none());
    assert!(CalendarDate::from_ymd_opt(2015, u32::MAX, u32::MAX).is_none());
}

#[test]
fn the_fields_of_a_date_are_read_back() {
    let day = date(2024, 3, 15);
    assert_eq!((day.year(), day.month(), day.day()), (2024, 3, 15));
    assert_eq!(day, date(2024, 3, 15));
    assert_ne!(day, date(2024, 3, 16));
}

#[test]
fn the_calendar_agrees_with_chrono() {
    let years = [MIN_YEAR - 1, MIN_YEAR, -401, -400, -100, -4, -1, 0, 1, 4, 100, 400, 1900, 2000,
        2023, 2024, 2100, 9999, 10000, MAX_YEAR, MAX_YEAR + 1];
    for year in years {
        for month in 0..=13u32 {
            for day in 0..=32u32 {
                let ours = CalendarDate::from_ymd_opt(year, month, day);
                let theirs = NaiveDate::from_ymd_opt(year, month, day);
                assert_eq!(ours.is_some(), theirs.is_some(), "{year}-{month}-{day}");
                if let (Some(ours), Some(theirs)) = (ours, theirs) {
                    assert_eq!(ours.year(), theirs.year());
                    assert_eq!(ours.month(), theirs.month());
                    assert_eq!(ours.day(), theirs.day());
                    assert_eq!(
                        DateFormat::YYYYMMDD.format_date(&ours),
                        theirs.format("%Y-%m-%d").to_string()
                    );
                    assert_eq!(
                        DateFormat::MMDD.format_date(&ours),
                        theirs.format("%m%d").to_string()
                    );
                }
            }
        }
    }
}
