use chrono::{Datelike, NaiveDate, Weekday};
use focus_tasks::calendar::{iso_week_start, retention_cutoff, CalendarDate, MAX_YEAR, MIN_YEAR};

fn date(y: i32, m: u32, d: u32) -> CalendarDate {
    CalendarDate::from_ymd(y, m, d).unwrap()
}

fn naive(d: CalendarDate) -> NaiveDate {
    NaiveDate::from_ymd_opt(d.year, d.month, d.day).unwrap()
}

#[test]
fn iso_week_start_is_monday() {
    // 2026-06-10 is Wednesday
    let wed = date(2026, 6, 10);
    let start = iso_week_start(wed);
    assert_eq!(naive(start).weekday(), Weekday::Mon);
    assert_eq!(start, date(2026, 6, 8));
}

#[test]
fn iso_week_start_monday_unchanged() {
    let mon = date(2026, 6, 8);
    assert_eq!(iso_week_start(mon), mon);
}

#[test]
fn iso_week_start_crosses_month_and_year() {
    // 2026-01-01 is a Thursday
    assert_eq!(iso_week_start(date(2026, 1, 1)), date(2025, 12, 29));
    // a Sunday goes back six days
    assert_eq!(iso_week_start(date(2026, 6, 14)), date(2026, 6, 8));
}

#[test]
fn from_ymd_checks_calendar() {
    assert!(CalendarDate::from_ymd(2026, 2, 29).is_none());
    assert!(CalendarDate::from_ymd(2024, 2, 29).is_some());
    assert!(CalendarDate::from_ymd(1900, 2, 29).is_none());
    assert!(CalendarDate::from_ymd(2000, 2, 29).is_some());
    assert!(CalendarDate::from_ymd(2026, 13, 1).is_none());
    assert!(CalendarDate::from_ymd(2026, 4, 31).is_none());
    assert!(CalendarDate::from_ymd(2026, 1, 0).is_none());
    assert!(CalendarDate::from_ymd(MIN_YEAR, 1, 1).is_some());
    assert!(CalendarDate::from_ymd(MIN_YEAR - 1, 12, 31).is_none());
    assert!(CalendarDate::from_ymd(MAX_YEAR, 12, 31).is_some());
    assert!(CalendarDate::from_ymd(MAX_YEAR + 1, 1, 1).is_none());
}

#[test]
fn days_from_monday_values() {
    assert_eq!(date(1970, 1, 1).days_from_monday(), 3);
    assert_eq!(date(2026, 6, 8).days_from_monday(), 0);
    assert_eq!(date(2026, 6, 14).days_from_monday(), 6);
}

#[test]
fn days_before_moves_back() {
    assert_eq!(date(2026, 3, 1).days_before(1), date(2026, 2, 28));
    assert_eq!(date(2024, 3, 1).days_before(1), date(2024, 2, 29));
    assert_eq!(date(2026, 1, 1).days_before(365), date(2025, 1, 1));
    assert_eq!(date(2026, 6, 10).days_before(0), date(2026, 6, 10));
}

#[test]
fn iso_string_is_zero_padded() {
    assert_eq!(date(2026, 6, 8).to_iso_string(), "2026-06-08");
    assert_eq!(date(987, 1, 2).to_iso_string(), "0987-01-02");
    let s = date(2026, 12, 31).to_iso_string();
    assert_eq!(s.len(), 10);
    assert_eq!(s.as_bytes()[4], b'-');
    assert_eq!(s.as_bytes()[7], b'-');
}

#[test]
fn retention_cutoff_moves_back_by_days() {
    let today = date(2026, 6, 10);
    assert_eq!(retention_cutoff(today, 0), Some(today));
    assert_eq!(retention_cutoff(today, 3), Some(date(2026, 6, 7)));
    assert_eq!(retention_cutoff(today, 365), Some(date(2025, 6, 10)));
}

#[test]
fn retention_cutoff_out_of_range() {
    assert_eq!(retention_cutoff(date(MIN_YEAR, 1, 1), 1), None);
    assert_eq!(retention_cutoff(date(MIN_YEAR, 1, 2), 1), Some(date(MIN_YEAR, 1, 1)));
    assert_eq!(retention_cutoff(date(2026, 6, 10), u32::MAX), None);
}

#[test]
fn retention_cutoff_text_decreases_with_days() {
    let today = date(2026, 6, 10);
    let n0 = retention_cutoff(today, 0).unwrap().to_iso_string();
    let n1 = retention_cutoff(today, 1).unwrap().to_iso_string();
    assert!(n1 < n0);
    assert_eq!(n1, "2026-06-09");
}
