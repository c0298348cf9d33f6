use my_tasks::calendar::compute_next_due;
use my_tasks::calendar::days_in_month;
use my_tasks::calendar::is_leap_year;
use my_tasks::calendar::parse_optional_timestamp;
use my_tasks::calendar::parse_timestamp;
use my_tasks::calendar::Frequency;
use my_tasks::calendar::Timestamp;
use my_tasks::calendar::MAX_YEAR;

fn ts(year: i32, month: u32, day: u32, hour: u32, minute: u32, second: u32) -> Timestamp {
    Timestamp { year, month, day, hour, minute, second, nanosecond: 0 }
}

#[test]
fn monthly_clamps_to_the_end_of_february() {
    let base = ts(2023, 1, 31, 9, 30, 0);
    assert_eq!(compute_next_due(base, Frequency::Monthly, 1), Some(ts(2023, 2, 28, 9, 30, 0)));
    let leap = ts(2024, 1, 31, 9, 30, 0);
    assert_eq!(compute_next_due(leap, Frequency::Monthly, 1), Some(ts(2024, 2, 29, 9, 30, 0)));
}

#[test]
fn monthly_three_months_from_january_end() {
    let base = ts(2023, 1, 31, 0, 0, 0);
    assert_eq!(compute_next_due(base, Frequency::Monthly, 3), Some(ts(2023, 4, 30, 0, 0, 0)));
}

#[test]
fn monthly_rolls_over_into_later_years() {
    let base = ts(2023, 11, 15, 7, 0, 0);
    assert_eq!(compute_next_due(base, Frequency::Monthly, 2), Some(ts(2024, 1, 15, 7, 0, 0)));
    assert_eq!(compute_next_due(base, Frequency::Monthly, 27), Some(ts(2026, 2, 15, 7, 0, 0)));
}

#[test]
fn yearly_clamps_the_leap_day() {
    let base = ts(2024, 2, 29, 12, 0, 0);
    assert_eq!(compute_next_due(base, Frequency::Yearly, 1), Some(ts(2025, 2, 28, 12, 0, 0)));
    assert_eq!(compute_next_due(base, Frequency::Yearly, 4), Some(ts(2028, 2, 29, 12, 0, 0)));
}

#[test]
fn daily_and_weekly_count_whole_days() {
    let base = ts(2024, 2, 28, 23, 59, 59);
    assert_eq!(compute_next_due(base, Frequency::Daily, 1), Some(ts(2024, 2, 29, 23, 59, 59)));
    assert_eq!(compute_next_due(base, Frequency::Daily, 2), Some(ts(2024, 3, 1, 23, 59, 59)));
    let end_of_year = ts(2023, 12, 31, 6, 0, 0);
    assert_eq!(compute_next_due(end_of_year, Frequency::Weekly, 1), Some(ts(2024, 1, 7, 6, 0, 0)));
    assert_eq!(compute_next_due(end_of_year, Frequency::Weekly, 2), Some(ts(2024, 1, 14, 6, 0, 0)));
}

#[test]
fn zero_interval_keeps_the_base() {
    let base = ts(2024, 5, 31, 1, 2, 3);
    for f in [Frequency::Daily, Frequency::Weekly, Frequency::Monthly, Frequency::Yearly] {
        assert_eq!(compute_next_due(base, f, 0), Some(base));
    }
}

#[test]
fn time_of_day_is_kept_exactly() {
    let base = Timestamp { year: 2024, month: 3, day: 10, hour: 13, minute: 14, second: 15, nanosecond: 123_456_789 };
    let next = compute_next_due(base, Frequency::Weekly, 3).unwrap();
    assert_eq!((next.hour, next.minute, next.second, next.nanosecond), (13, 14, 15, 123_456_789));
    assert_eq!((next.year, next.month, next.day), (2024, 3, 31));
}

#[test]
fn next_due_is_deterministic() {
    let base = ts(2021, 8, 31, 10, 0, 0);
    for f in [Frequency::Daily, Frequency::Weekly, Frequency::Monthly, Frequency::Yearly] {
        assert_eq!(compute_next_due(base, f, 5), compute_next_due(base, f, 5));
    }
}

#[test]
fn dates_past_the_last_year_are_refused() {
    let last = ts(MAX_YEAR, 12, 31, 0, 0, 0);
    assert_eq!(compute_next_due(last, Frequency::Daily, 1), None);
    assert_eq!(compute_next_due(last, Frequency::Monthly, 1), None);
    assert_eq!(compute_next_due(last, Frequency::Yearly, 1), None);
    assert_eq!(compute_next_due(ts(2024, 1, 1, 0, 0, 0), Frequency::Weekly, u32::MAX), None);
}

#[test]
fn leap_years_and_month_lengths() {
    assert!(is_leap_year(2024));
    assert!(!is_leap_year(2023));
    assert!(!is_leap_year(1900));
    assert!(is_leap_year(2000));
    assert!(is_leap_year(-4));
    assert_eq!(days_in_month(2023, 2), 28);
    assert_eq!(days_in_month(2024, 2), 29);
    assert_eq!(days_in_month(2024, 4), 30);
    assert_eq!(days_in_month(2024, 12), 31);
}

#[test]
fn comparing_instants() {
    let a = ts(2024, 6, 1, 8, 0, 0);
    let b = ts(2024, 6, 1, 8, 0, 1);
    assert!(a.is_before(&b));
    assert!(!b.is_before(&a));
    assert!(!a.is_before(&a));
    assert!(ts(2023, 12, 31, 23, 59, 59).is_before(&a));
}

#[test]
fn parses_rfc3339_into_utc() {
    let t = parse_timestamp(&"2024-06-01T08:00:00Z".to_string()).unwrap();
    assert_eq!(t, ts(2024, 6, 1, 8, 0, 0));
    let shifted = parse_timestamp(&"2024-06-01T01:30:00+02:00".to_string()).unwrap();
    assert_eq!(shifted, ts(2024, 5, 31, 23, 30, 0));
    assert_eq!(parse_timestamp(&"yesterday".to_string()), None);
    assert_eq!(parse_optional_timestamp(&None), Ok(None));
    assert_eq!(parse_optional_timestamp(&Some("nope".to_string())), Err(()));
}

#[test]
fn frequency_names() {
    assert_eq!(Frequency::Daily.to_string(), "daily");
    assert_eq!(Frequency::Weekly.to_string(), "weekly");
    assert_eq!(Frequency::Monthly.to_string(), "monthly");
    assert_eq!(Frequency::Yearly.to_string(), "yearly");
    assert_eq!(Frequency::try_from("WEEKLY".to_string()), Ok(Frequency::Weekly));
    assert_eq!(Frequency::try_from("Monthly".to_string()), Ok(Frequency::Monthly));
    assert_eq!(Frequency::try_from("hourly".to_string()), Err("Invalid frequency: hourly".to_string()));
    assert_eq!(Frequency::from_lowercase_name(&"yearly".to_string()), Some(Frequency::Yearly));
    assert_eq!(Frequency::from_lowercase_name(&"Yearly".to_string()), None);
}
