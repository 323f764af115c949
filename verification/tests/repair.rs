use hardy_monitor::calendar::CalendarDate;
use hardy_monitor::repair::{
    cleanup_action, dates_in_range, has_entry_at, minute_order, plan_gap_fills, CleanupAction,
    DayRepairResult, GapFill, RecordTime, RepairSummary,
};

fn empty_summary() -> RepairSummary {
    RepairSummary {
        days_processed: 0,
        gaps_filled: 0,
        records_deleted: 0,
        records_smoothed: 0,
        boundary_entries_added: 0,
    }
}

#[test]
fn test_repair_summary_default() {
    let summary = empty_summary();
    assert_eq!(summary.days_processed, 0);
}

#[test]
fn repair_test_repair_summary_default() {
    let summary = empty_summary();
    assert_eq!(summary.days_processed, 0);
}

// ---- further scenarios ----

fn date(y: i32, m: u32, d: u32) -> CalendarDate {
    CalendarDate::from_ymd(y, m, d).expect("valid date")
}

fn at(d: CalendarDate, hour: u32, minute: u32, second: u32) -> RecordTime {
    RecordTime { date: d, hour, minute, second, nanosecond: 0 }
}

#[test]
fn summary_tallies_days() {
    let mut summary = empty_summary();
    summary.record_day(&DayRepairResult {
        gaps_filled: 3,
        records_deleted: 2,
        records_smoothed: 5,
        boundary_entries_added: 1,
    });
    summary.record_day(&DayRepairResult::default());
    assert_eq!(summary.days_processed, 2);
    assert_eq!(summary.gaps_filled, 3);
    assert_eq!(summary.records_deleted, 2);
    assert_eq!(summary.records_smoothed, 5);
    assert_eq!(summary.boundary_entries_added, 1);
}

#[test]
fn cleanup_actions_around_opening_hours() {
    let day = date(2024, 2, 14);
    assert_eq!(cleanup_action(&at(day, 5, 59, 59), &day, 6, 23), CleanupAction::Delete);
    assert_eq!(cleanup_action(&at(day, 6, 0, 0), &day, 6, 23), CleanupAction::ZeroAtBoundary);
    assert_eq!(cleanup_action(&at(day, 6, 0, 1), &day, 6, 23), CleanupAction::Keep);
    assert_eq!(cleanup_action(&at(day, 23, 0, 0), &day, 6, 23), CleanupAction::ZeroAtBoundary);
    assert_eq!(cleanup_action(&at(day, 23, 0, 30), &day, 6, 23), CleanupAction::Delete);
    let other = date(2024, 2, 15);
    assert_eq!(cleanup_action(&at(other, 3, 0, 0), &day, 6, 23), CleanupAction::OtherDay);
}

#[test]
fn boundary_entry_lookup() {
    let day = date(2024, 2, 14);
    let records = [at(day, 6, 0, 12), at(day, 12, 30, 0)];
    assert!(has_entry_at(&records, &day, 6));
    assert!(!has_entry_at(&records, &day, 23));
    assert!(!has_entry_at(&records, &date(2024, 2, 13), 6));
}

#[test]
fn gap_fill_plan() {
    // 6:00 .. 23:00 is minute 360 .. 1380.
    let minutes = [360, 361, 364, 370, 371, 1379, 1381];
    let fills = plan_gap_fills(&minutes, 6, 23);
    assert_eq!(
        fills,
        vec![
            GapFill { minute: 362, left: 1, step: 1, gap: 3 },
            GapFill { minute: 363, left: 1, step: 2, gap: 3 },
        ]
    );
    // Gaps outside opening hours are left alone.
    assert!(plan_gap_fills(&[300, 303], 6, 23).is_empty());
    assert!(plan_gap_fills(&[400], 6, 23).is_empty());
    assert_eq!(plan_gap_fills(&[400, 405], 6, 23).len(), 4);
}

fn ymd(year: i32, month: u32, day: u32) -> CalendarDate {
    CalendarDate { year, month, day }
}

#[test]
fn repair_range_crosses_leap_day() {
    assert_eq!(
        dates_in_range(&ymd(2024, 2, 27), &ymd(2024, 3, 2)),
        vec![ymd(2024, 2, 27), ymd(2024, 2, 28), ymd(2024, 2, 29), ymd(2024, 3, 1), ymd(2024, 3, 2)]
    );
    assert_eq!(
        dates_in_range(&ymd(2023, 2, 27), &ymd(2023, 3, 1)),
        vec![ymd(2023, 2, 27), ymd(2023, 2, 28), ymd(2023, 3, 1)]
    );
}

#[test]
fn repair_range_crosses_new_year() {
    assert_eq!(
        dates_in_range(&ymd(2023, 12, 30), &ymd(2024, 1, 2)),
        vec![ymd(2023, 12, 30), ymd(2023, 12, 31), ymd(2024, 1, 1), ymd(2024, 1, 2)]
    );
}

#[test]
fn repair_range_single_day_and_reversed() {
    assert_eq!(dates_in_range(&ymd(2024, 6, 1), &ymd(2024, 6, 1)), vec![ymd(2024, 6, 1)]);
    assert!(dates_in_range(&ymd(2024, 6, 2), &ymd(2024, 6, 1)).is_empty());
    assert_eq!(dates_in_range(&ymd(2020, 1, 1), &ymd(2024, 12, 31)).len(), 1827);
}

#[test]
fn repair_range_ends_at_last_representable_day() {
    assert_eq!(
        dates_in_range(&ymd(262142, 12, 30), &ymd(262142, 12, 31)),
        vec![ymd(262142, 12, 30), ymd(262142, 12, 31)]
    );
}

#[test]
fn points_are_ordered_by_minute_stably() {
    assert_eq!(minute_order(&[600, 360, 600, 420, 360]), vec![1, 4, 3, 0, 2]);
    assert_eq!(minute_order(&[]), Vec::<usize>::new());
    assert_eq!(minute_order(&[5, 4, 3]), vec![2, 1, 0]);
}
