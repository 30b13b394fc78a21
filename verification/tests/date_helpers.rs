use equailizer::cli::{start_date_from_args, start_date_on, StartArgs};
use equailizer::date_helpers::{now_date_naive_eastern, or_date, Date, DefaultDate};

fn day(year: i32, month: u32, day: u32) -> Date {
    Date::from_ymd_opt(year, month, day).expect("NaiveDate creation failed")
}

#[test]
fn dates_that_exist_are_made() {
    let date = day(2025, 10, 21);
    assert_eq!(date.year(), 2025);
    assert_eq!(date.month(), 10);
    assert_eq!(date.day(), 21);
    assert_eq!(date.ymd(), (2025, 10, 21));
    assert!(Date::from_ymd_opt(2015, 3, 14).is_some());
    assert!(Date::from_ymd_opt(2016, 2, 29).is_some());
    assert!(Date::from_ymd_opt(2000, 2, 29).is_some());
    assert!(Date::from_ymd_opt(-4, 2, 29).is_some());
    assert!(Date::from_ymd_opt(262142, 12, 31).is_some());
    assert!(Date::from_ymd_opt(-262143, 1, 1).is_some());
}

#[test]
fn dates_that_do_not_exist_are_not_made() {
    assert!(Date::from_ymd_opt(2015, 0, 14).is_none());
    assert!(Date::from_ymd_opt(2015, 13, 14).is_none());
    assert!(Date::from_ymd_opt(2015, 2, 29).is_none());
    assert!(Date::from_ymd_opt(1900, 2, 29).is_none());
    assert!(Date::from_ymd_opt(2023, 4, 31).is_none());
    assert!(Date::from_ymd_opt(2023, 4, 0).is_none());
    assert!(Date::from_ymd_opt(2023, 1, 32).is_none());
    assert!(Date::from_ymd_opt(400000, 1, 1).is_none());
    assert!(Date::from_ymd_opt(-400000, 1, 1).is_none());
    assert!(Date::from_ymd_opt(262143, 1, 1).is_none());
    assert!(Date::from_ymd_opt(-262144, 12, 31).is_none());
}

#[test]
fn dates_are_ordered_by_year_then_month_then_day() {
    assert!(day(2025, 10, 22).is_after(&day(2025, 10, 21)));
    assert!(day(2025, 11, 1).is_after(&day(2025, 10, 31)));
    assert!(day(2026, 1, 1).is_after(&day(2025, 12, 31)));
    assert!(!day(2025, 10, 21).is_after(&day(2025, 10, 21)));
    assert!(!day(2025, 10, 21).is_after(&day(2025, 10, 22)));
    assert!(!day(2024, 12, 31).is_after(&day(2025, 1, 1)));
    assert!(day(2025, 10, 21).same_day(&day(2025, 10, 21)));
    assert!(!day(2025, 10, 21).same_day(&day(2025, 10, 22)));
}

#[test]
fn a_given_date_wins_over_today() {
    let today = day(2025, 10, 21);
    assert_eq!(or_date(Some(day(2020, 1, 2)), today), day(2020, 1, 2));
    assert_eq!(or_date(None, today), today);
    assert_eq!(Some(day(2020, 1, 2)).or_naive_date_now(), day(2020, 1, 2));
    let none: Option<Date> = None;
    let now = none.or_naive_date_now();
    assert!(now.year() >= 2024);
}

#[test]
fn today_is_a_day_of_this_age() {
    let today = now_date_naive_eastern();
    assert!(today.year() >= 2024);
    assert!(Date::from_ymd_opt(today.year(), today.month(), today.day()).is_some());
}

#[test]
fn start_is_the_date_given() {
    let today = day(2025, 10, 21);
    let given = StartArgs { start_date: Some(day(2025, 9, 1)), start_days_ago: None };
    assert_eq!(start_date_on(given, today), Some(day(2025, 9, 1)));
    let both = StartArgs { start_date: Some(day(2025, 9, 1)), start_days_ago: Some(3) };
    assert_eq!(start_date_on(both, today), Some(day(2025, 9, 1)));
    assert_eq!(start_date_from_args(both), Some(day(2025, 9, 1)));
}

#[test]
fn start_is_counted_back_from_today() {
    let today = day(2025, 10, 21);
    let week = StartArgs { start_date: None, start_days_ago: Some(7) };
    assert_eq!(start_date_on(week, today), Some(day(2025, 10, 14)));
    let none = StartArgs { start_date: None, start_days_ago: Some(0) };
    assert_eq!(start_date_on(none, today), Some(today));
    let month = StartArgs { start_date: None, start_days_ago: Some(21) };
    assert_eq!(start_date_on(month, today), Some(day(2025, 9, 30)));
    let leap = StartArgs { start_date: None, start_days_ago: Some(366) };
    assert_eq!(start_date_on(leap, day(2025, 1, 1)), Some(day(2024, 1, 1)));
    let year = StartArgs { start_date: None, start_days_ago: Some(365) };
    assert_eq!(start_date_on(year, day(2023, 3, 1)), Some(day(2022, 3, 1)));
    let most = StartArgs { start_date: None, start_days_ago: Some(u16::MAX) };
    assert!(start_date_on(most, day(2025, 10, 21)).is_some());
}

#[test]
fn start_before_the_first_day_of_the_calendar_is_none() {
    let first = day(-262143, 1, 1);
    let back = StartArgs { start_date: None, start_days_ago: Some(1) };
    assert_eq!(start_date_on(back, first), None);
    let stay = StartArgs { start_date: None, start_days_ago: Some(0) };
    assert_eq!(start_date_on(stay, first), Some(first));
}

#[test]
fn start_counted_back_from_the_clock_is_not_after_today() {
    let week = StartArgs { start_date: None, start_days_ago: Some(7) };
    let start = start_date_from_args(week).expect("a week ago is within the calendar");
    assert!(!start.is_after(&now_date_naive_eastern()));
}
