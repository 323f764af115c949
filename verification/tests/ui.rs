use hardy_monitor::calendar::{is_date_after, CalendarDate};
use hardy_monitor::ui::{
    history_preset_dates, history_range_action, loading_indicator_visible, parse_date, AnalyticsRange, ControlError,
    MonitorAction, MonitorControl, MonitorEvent, RepairPreset, ViewMode,
};

fn control() -> MonitorControl {
    MonitorControl {
        current_view: ViewMode::default(),
        analytics_range: AnalyticsRange::default(),
        history_start_date: "2024-06-15".to_string(),
        history_end_date: "2024-06-16".to_string(),
        history_days_preset: Some(1),
        is_window_visible: true,
        is_loading: false,
        is_poll_aligned: false,
        notifications_enabled: true,
        was_below_threshold: false,
        repair_start_date: "2024-06-15".to_string(),
        repair_end_date: "2024-06-16".to_string(),
        repair_running: false,
    }
}

fn date(y: i32, m: u32, d: u32) -> CalendarDate {
    CalendarDate::from_ymd(y, m, d).expect("valid date")
}

#[test]
fn fetch_ticks_follow_opening_hours() {
    let mut c = control();
    assert_eq!(c.update(MonitorEvent::FetchAlignmentComplete { gym_open: false }), MonitorAction::ClearOccupancy);
    assert!(c.is_poll_aligned);
    assert!(!c.is_loading);
    assert_eq!(c.update(MonitorEvent::FetchTick { gym_open: true }), MonitorAction::FetchLatest);
    assert!(c.is_loading);
}

#[test]
fn notification_fires_once_per_drop() {
    let mut c = control();
    let first = c.update(MonitorEvent::FetchSucceeded { below_threshold: true });
    assert_eq!(first, MonitorAction::ReadingArrived { range: AnalyticsRange::ThisWeek, notify: true });
    let second = c.update(MonitorEvent::FetchSucceeded { below_threshold: true });
    assert_eq!(second, MonitorAction::ReadingArrived { range: AnalyticsRange::ThisWeek, notify: false });
    c.update(MonitorEvent::FetchSucceeded { below_threshold: false });
    let again = c.update(MonitorEvent::FetchSucceeded { below_threshold: true });
    assert_eq!(again, MonitorAction::ReadingArrived { range: AnalyticsRange::ThisWeek, notify: true });
    c.update(MonitorEvent::NotificationToggled { enabled: false, below_threshold: false });
    let off = c.update(MonitorEvent::FetchSucceeded { below_threshold: true });
    assert_eq!(off, MonitorAction::ReadingArrived { range: AnalyticsRange::ThisWeek, notify: false });
}

#[test]
fn views_ranges_and_history_dates() {
    let mut c = control();
    assert_eq!(c.update(MonitorEvent::SwitchView(ViewMode::Insights)), MonitorAction::LoadInsights);
    assert_eq!(c.update(MonitorEvent::SwitchView(ViewMode::DataRepair)), MonitorAction::Nothing);
    assert_eq!(c.current_view, ViewMode::DataRepair);
    assert_eq!(
        c.update(MonitorEvent::SwitchAnalyticsRange(AnalyticsRange::Last4Weeks)),
        MonitorAction::LoadAnalytics { range: AnalyticsRange::Last4Weeks }
    );
    assert_eq!(c.update(MonitorEvent::RefreshNow), MonitorAction::RefreshAll { range: AnalyticsRange::Last4Weeks });
    c.update(MonitorEvent::HistoryStartDateChanged("2024-06-01".to_string()));
    assert_eq!(c.history_start_date, "2024-06-01");
    assert_eq!(c.history_days_preset, None);
    let preset = c.update(MonitorEvent::HistoryPresetSelected { days: 7, today: date(2024, 6, 15) });
    assert_eq!(preset, MonitorAction::LoadHistorySince { start: date(2024, 6, 9) });
    assert_eq!(c.history_days_preset, Some(7));
    assert_eq!(c.history_start_date, "2024-06-09");
    assert_eq!(c.history_end_date, "2024-06-16");
    let range = c.update(MonitorEvent::ApplyDateRange);
    assert_eq!(range, MonitorAction::LoadHistoryRange { start: date(2024, 6, 9), end: date(2024, 6, 16), extend_end: false });
    c.update(MonitorEvent::HistoryEndDateChanged("2024-06-09".to_string()));
    let same_day = c.update(MonitorEvent::ApplyDateRange);
    assert_eq!(same_day, MonitorAction::LoadHistoryRange { start: date(2024, 6, 9), end: date(2024, 6, 9), extend_end: true });
    c.update(MonitorEvent::HistoryStartDateChanged("June 9".to_string()));
    let bad = c.update(MonitorEvent::ApplyDateRange);
    assert_eq!(bad, MonitorAction::ReportError(ControlError::InvalidDateFormat));
}

#[test]
fn window_visibility() {
    let mut c = control();
    assert_eq!(c.update(MonitorEvent::WindowCloseRequested), MonitorAction::SetWindowVisible { visible: false });
    assert_eq!(c.update(MonitorEvent::TrayToggle), MonitorAction::SetWindowVisible { visible: true });
    assert!(c.is_window_visible);
}

#[test]
fn repair_job_validation() {
    let mut c = control();
    assert_eq!(
        c.update(MonitorEvent::StartRepairJob { start: None, end: Some(date(2024, 6, 1)) }),
        MonitorAction::ReportError(ControlError::InvalidStartDate)
    );
    assert_eq!(
        c.update(MonitorEvent::StartRepairJob { start: Some(date(2024, 6, 1)), end: None }),
        MonitorAction::ReportError(ControlError::InvalidEndDate)
    );
    assert_eq!(
        c.update(MonitorEvent::StartRepairJob { start: Some(date(2024, 6, 2)), end: Some(date(2024, 6, 1)) }),
        MonitorAction::ReportError(ControlError::StartAfterEnd)
    );
    assert!(!c.repair_running);
    assert_eq!(
        c.update(MonitorEvent::StartRepairJob { start: Some(date(2024, 6, 1)), end: Some(date(2024, 6, 1)) }),
        MonitorAction::StartRepair { start: date(2024, 6, 1), end: date(2024, 6, 1) }
    );
    assert!(c.repair_running);
    assert_eq!(
        c.update(MonitorEvent::StartRepairJob { start: Some(date(2024, 6, 1)), end: Some(date(2024, 6, 2)) }),
        MonitorAction::Nothing
    );
    c.update(MonitorEvent::RepairCompleted);
    assert!(!c.repair_running);
    c.update(MonitorEvent::RepairPresetSelected { preset: RepairPreset::AllData, today: date(2024, 6, 15) });
    assert_eq!(c.repair_start_date, "2020-01-01");
    assert_eq!(c.repair_end_date, "2024-06-15");
    c.update(MonitorEvent::RepairPresetSelected { preset: RepairPreset::Last7Days, today: date(2024, 3, 3) });
    assert_eq!(c.repair_start_date, "2024-02-25");
    assert_eq!(c.repair_end_date, "2024-03-03");
    c.update(MonitorEvent::RepairPresetSelected { preset: RepairPreset::Last30Days, today: date(2024, 1, 10) });
    assert_eq!(c.repair_start_date, "2023-12-11");
}

#[test]
fn ranges_presets_and_loading_indicator() {
    assert_eq!(AnalyticsRange::ThisWeek.weeks_before_this_week(), 0);
    assert_eq!(AnalyticsRange::Last2Weeks.weeks_before_this_week(), 1);
    assert_eq!(AnalyticsRange::Last4Weeks.weeks_before_this_week(), 3);
    assert_eq!(AnalyticsRange::Last8Weeks.weeks_before_this_week(), 7);
    assert_eq!(RepairPreset::Last7Days.dates(&date(2024, 6, 15)), (date(2024, 6, 8), date(2024, 6, 15)));
    assert_eq!(RepairPreset::Last30Days.dates(&date(2024, 3, 1)), (date(2024, 1, 31), date(2024, 3, 1)));
    assert_eq!(RepairPreset::AllData.dates(&date(2024, 6, 15)), (date(2020, 1, 1), date(2024, 6, 15)));
    assert_eq!(history_preset_dates(&date(2024, 12, 31), 1), (date(2024, 12, 31), date(2025, 1, 1)));
    assert_eq!(history_preset_dates(&date(2024, 2, 28), 30), (date(2024, 1, 30), date(2024, 2, 29)));
    assert!(!loading_indicator_visible(false, Some(500)));
    assert!(!loading_indicator_visible(true, Some(199)));
    assert!(loading_indicator_visible(true, Some(200)));
    assert!(loading_indicator_visible(true, None));
    assert!(is_date_after(&date(2024, 6, 2), &date(2024, 6, 1)));
    assert!(!is_date_after(&date(2024, 6, 1), &date(2024, 6, 1)));
    assert!(is_date_after(&date(2025, 1, 1), &date(2024, 12, 31)));
}

#[test]
fn date_fields_parse_as_year_month_day() {
    assert_eq!(parse_date("2024-06-01"), Some(date(2024, 6, 1)));
    assert_eq!(parse_date("2024-02-29"), Some(date(2024, 2, 29)));
    assert_eq!(parse_date("2023-02-29"), None);
    assert_eq!(parse_date("2024/06/01"), None);
    assert_eq!(parse_date(""), None);
    assert_eq!(parse_date("not a date"), None);
}

#[test]
fn monitor_opens_on_today_and_tomorrow() {
    let c = MonitorControl::new(&date(2024, 12, 31), true);
    assert_eq!(c.current_view, ViewMode::Dashboard);
    assert_eq!(c.analytics_range, AnalyticsRange::ThisWeek);
    assert_eq!(c.history_start_date, "2024-12-31");
    assert_eq!(c.history_end_date, "2025-01-01");
    assert_eq!(c.history_days_preset, Some(1));
    assert!(c.is_window_visible && !c.is_loading && !c.is_poll_aligned);
    assert!(c.notifications_enabled && !c.was_below_threshold);
    assert_eq!(c.repair_start_date, "2024-12-31");
    assert_eq!(c.repair_end_date, "2025-01-01");
    assert!(!c.repair_running);
    assert!(!MonitorControl::new(&date(2024, 6, 1), false).notifications_enabled);
}

#[test]
fn history_range_decision() {
    let a = date(2024, 6, 9);
    let b = date(2024, 6, 16);
    assert_eq!(history_range_action(Some(a), Some(b)), MonitorAction::LoadHistoryRange { start: a, end: b, extend_end: false });
    assert_eq!(history_range_action(Some(a), Some(a)), MonitorAction::LoadHistoryRange { start: a, end: a, extend_end: true });
    assert_eq!(history_range_action(None, Some(b)), MonitorAction::ReportError(ControlError::InvalidDateFormat));
    assert_eq!(history_range_action(Some(a), None), MonitorAction::ReportError(ControlError::InvalidDateFormat));
}
