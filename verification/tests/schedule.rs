use hardy_monitor::calendar::{CalendarDate, LocalDateTime};
use hardy_monitor::config::ScheduleConfig;
use hardy_monitor::schedule::{easter_date, is_bavarian_holiday, GymSchedule};

fn date(year: i32, month: u32, day: u32) -> CalendarDate {
    CalendarDate::from_ymd(year, month, day).expect("valid date")
}

fn make_local_datetime(year: i32, month: u32, day: u32, hour: u32, min: u32) -> LocalDateTime {
    LocalDateTime { date: date(year, month, day), hour, minute: min }
}

#[test]
fn test_easter_2024() {
    assert_eq!(easter_date(2024), Some(date(2024, 3, 31)));
}

#[test]
fn test_easter_2025() {
    assert_eq!(easter_date(2025), Some(date(2025, 4, 20)));
}

#[test]
fn test_easter_2026() {
    assert_eq!(easter_date(2026), Some(date(2026, 4, 5)));
}

#[test]
fn test_easter_historical_1999() {
    assert_eq!(easter_date(1999), Some(date(1999, 4, 4)));
}

#[test]
fn test_easter_edge_early_march() {
    assert_eq!(easter_date(2008), Some(date(2008, 3, 23)));
}

#[test]
fn test_easter_edge_late_april() {
    assert_eq!(easter_date(2038), Some(date(2038, 4, 25)));
}

#[test]
fn test_fixed_holidays() {
    let holidays = [
        (2024, 1, 1),
        (2024, 1, 6),
        (2024, 5, 1),
        (2024, 8, 15),
        (2024, 10, 3),
        (2024, 11, 1),
        (2024, 12, 25),
        (2024, 12, 26),
    ];
    for (y, m, d) in holidays {
        assert!(is_bavarian_holiday(&date(y, m, d)));
    }
}

#[test]
fn test_variable_holidays_2024() {
    let holidays = [(2024, 3, 29), (2024, 4, 1), (2024, 5, 9), (2024, 5, 20), (2024, 5, 30)];
    for (y, m, d) in holidays {
        assert!(is_bavarian_holiday(&date(y, m, d)));
    }
}

#[test]
fn test_regular_weekday_not_holiday() {
    assert!(!is_bavarian_holiday(&date(2024, 2, 13)));
    assert!(!is_bavarian_holiday(&date(2024, 7, 17)));
}

#[test]
fn test_schedule_default_values() {
    let schedule = GymSchedule::default();
    // 2024-02-14 is an ordinary Wednesday, 2024-02-17 a Saturday.
    assert_eq!(schedule.get_open_hour(&date(2024, 2, 14)), 6);
    assert_eq!(schedule.get_close_hour(&date(2024, 2, 14)), 23);
    assert_eq!(schedule.get_open_hour(&date(2024, 2, 17)), 9);
    assert_eq!(schedule.get_close_hour(&date(2024, 2, 17)), 21);
}

#[test]
fn test_weekday_open_during_hours() {
    let schedule = GymSchedule::default();
    assert!(schedule.is_open(&make_local_datetime(2024, 2, 14, 10, 0)));
}

#[test]
fn test_weekday_open_at_opening() {
    let schedule = GymSchedule::default();
    assert!(schedule.is_open(&make_local_datetime(2024, 2, 12, 6, 0)));
}

#[test]
fn test_weekday_open_at_closing() {
    let schedule = GymSchedule::default();
    assert!(schedule.is_open(&make_local_datetime(2024, 2, 12, 23, 0)));
}

#[test]
fn test_weekday_closed_before_opening() {
    let schedule = GymSchedule::default();
    assert!(!schedule.is_open(&make_local_datetime(2024, 2, 12, 5, 30)));
}

#[test]
fn test_weekday_closed_after_closing() {
    let schedule = GymSchedule::default();
    assert!(!schedule.is_open(&make_local_datetime(2024, 2, 12, 23, 1)));
}

#[test]
fn test_weekend_open_during_hours() {
    let schedule = GymSchedule::default();
    assert!(schedule.is_open(&make_local_datetime(2024, 2, 17, 14, 0)));
}

#[test]
fn test_weekend_closed_before_opening() {
    let schedule = GymSchedule::default();
    assert!(!schedule.is_open(&make_local_datetime(2024, 2, 18, 8, 0)));
}

#[test]
fn test_holiday_uses_weekend_schedule() {
    let schedule = GymSchedule::default();
    assert!(!schedule.is_open(&make_local_datetime(2024, 12, 25, 8, 0)));
    assert!(schedule.is_open(&make_local_datetime(2024, 12, 25, 10, 0)));
}

#[test]
fn test_spring_forward_just_before_transition() {
    let schedule = GymSchedule::default();
    assert!(!schedule.is_open(&make_local_datetime(2024, 3, 31, 1, 59)));
}

#[test]
fn test_spring_forward_just_after_transition() {
    let schedule = GymSchedule::default();
    assert!(!schedule.is_open(&make_local_datetime(2024, 3, 31, 3, 0)));
}

#[test]
fn test_spring_forward_during_open_hours() {
    let schedule = GymSchedule::default();
    assert!(schedule.is_open(&make_local_datetime(2024, 3, 31, 10, 0)));
}

#[test]
fn test_fall_back_early_morning() {
    let schedule = GymSchedule::default();
    assert!(!schedule.is_open(&make_local_datetime(2024, 10, 27, 1, 59)));
}

#[test]
fn test_fall_back_during_open_hours() {
    let schedule = GymSchedule::default();
    assert!(schedule.is_open(&make_local_datetime(2024, 10, 27, 15, 0)));
}

#[test]
fn test_fall_back_at_closing() {
    let schedule = GymSchedule::default();
    assert!(schedule.is_open(&make_local_datetime(2024, 10, 27, 21, 0)));
}

#[test]
fn test_dst_day_before_spring_forward() {
    let schedule = GymSchedule::default();
    assert!(schedule.is_open(&make_local_datetime(2024, 3, 30, 20, 0)));
}

#[test]
fn test_dst_day_after_fall_back() {
    let schedule = GymSchedule::default();
    assert!(schedule.is_open(&make_local_datetime(2024, 10, 28, 7, 0)));
}

#[test]
fn test_spring_forward_2025() {
    let schedule = GymSchedule::default();
    assert!(!schedule.is_open(&make_local_datetime(2025, 3, 30, 8, 0)));
    assert!(schedule.is_open(&make_local_datetime(2025, 3, 30, 12, 0)));
    assert!(!schedule.is_open(&make_local_datetime(2025, 3, 30, 22, 0)));
}

#[test]
fn test_fall_back_2025() {
    let schedule = GymSchedule::default();
    assert!(!schedule.is_open(&make_local_datetime(2025, 10, 26, 8, 30)));
    assert!(schedule.is_open(&make_local_datetime(2025, 10, 26, 14, 0)));
    assert!(schedule.is_open(&make_local_datetime(2025, 10, 26, 21, 0)));
}

// ---- further scenarios ----

#[test]
fn easter_is_a_sunday_for_sample_years() {
    for year in [1900, 1954, 1999, 2000, 2024, 2025, 2038, 2099] {
        let e = easter_date(year).expect("easter exists");
        assert_eq!(e.weekday_number_from_monday(), 7, "year {year}");
        assert!(e.month == 3 || e.month == 4);
    }
}

#[test]
fn easter_exists_over_the_gregorian_range() {
    for year in 1583..4099 {
        let e = easter_date(year).expect("easter exists");
        assert!((e.month == 3 && e.day >= 22) || (e.month == 4 && e.day <= 25));
    }
}

#[test]
fn easter_relative_holidays_2025() {
    // Good Friday, Easter Monday, Ascension, Whit Monday, Corpus Christi.
    for (m, d) in [(4, 18), (4, 21), (5, 29), (6, 9), (6, 19)] {
        assert!(is_bavarian_holiday(&date(2025, m, d)), "2025-{m}-{d}");
    }
    assert!(!is_bavarian_holiday(&date(2025, 4, 19)));
    assert!(!is_bavarian_holiday(&date(2025, 6, 18)));
}

#[test]
fn schedule_from_config_and_explicit_hours() {
    let schedule = GymSchedule::new(&ScheduleConfig::default());
    assert!(schedule.is_open(&make_local_datetime(2024, 2, 14, 6, 0)));
    assert!(!schedule.is_open(&make_local_datetime(2024, 2, 14, 5, 59)));

    let custom = GymSchedule::new_for_test(7, 22, 10, 18);
    assert_eq!(custom.get_open_hour(&date(2024, 2, 14)), 7);
    assert_eq!(custom.get_close_hour(&date(2024, 2, 14)), 22);
    assert_eq!(custom.get_open_hour(&date(2024, 1, 6)), 10);
    assert_eq!(custom.get_close_hour(&date(2024, 1, 6)), 18);
    assert!(custom.is_open(&make_local_datetime(2024, 2, 17, 18, 0)));
    assert!(!custom.is_open(&make_local_datetime(2024, 2, 17, 18, 1)));
}

#[test]
fn calendar_date_queries() {
    assert!(CalendarDate::from_ymd(2024, 2, 29).is_some());
    assert!(CalendarDate::from_ymd(2023, 2, 29).is_none());
    assert!(CalendarDate::from_ymd(2024, 13, 1).is_none());
    assert_eq!(date(2024, 3, 1).ordinal(), 61);
    assert_eq!(date(2023, 12, 31).ordinal(), 365);
    assert_eq!(date(2024, 2, 12).weekday_number_from_monday(), 1);
    assert_eq!(date(2024, 2, 18).weekday_number_from_monday(), 7);
}

#[test]
fn weekdays_far_from_today() {
    assert_eq!(date(1, 1, 1).weekday_number_from_monday(), 1);
    assert_eq!(date(1970, 1, 1).weekday_number_from_monday(), 4);
    assert_eq!(date(2000, 2, 29).weekday_number_from_monday(), 2);
    assert_eq!(date(0, 12, 31).weekday_number_from_monday(), 7);
    assert_eq!(date(-1, 1, 1).weekday_number_from_monday(), 5);
}
