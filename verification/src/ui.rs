//! Decisions of the desktop interface: which page, range and dates are
//! selected, when readings are fetched, when the "gym is empty"
//! notification fires, when a repair job may start, and what to load next.

use vstd::prelude::*;

use crate::calendar::{
    date_after, date_minus_days, date_of_number, first_day_number, is_date_after, last_day_number,
    lemma_date_of_own_number, lemma_day_number_bounds, lemma_next_date, next_date_of, next_date_spec, CalendarDate,
};
use crate::text::{date_text, format_date};

verus! {

/// Page shown in the main window.
#[derive(Debug, Clone, Copy, PartialEq, Eq, Structural)]
pub enum ViewMode {
    Dashboard,
    WeeklyPattern,
    Insights,
    DataRepair,
}

impl Default for ViewMode {
    /// The dashboard.
    fn default() -> (r: Self)
        ensures
            r == ViewMode::Dashboard,
    {
        ViewMode::Dashboard
    }
}

/// How many weeks the weekly heatmap covers.
#[derive(Debug, Clone, Copy, PartialEq, Eq, Structural)]
pub enum AnalyticsRange {
    ThisWeek,
    Last2Weeks,
    Last4Weeks,
    Last8Weeks,
}

impl Default for AnalyticsRange {
    /// The current week.
    fn default() -> (r: Self)
        ensures
            r == AnalyticsRange::ThisWeek,
    {
        AnalyticsRange::ThisWeek
    }
}

/// Date ranges offered on the data-repair page.
#[derive(Debug, Clone, Copy, PartialEq, Eq, Structural)]
pub enum RepairPreset {
    Last7Days,
    Last30Days,
    AllData,
}

/// Interaction reported by the history chart.
#[derive(Debug, Clone, Copy)]
pub enum Interaction {
    Hovered,
}

} // verus!

verus! {

impl AnalyticsRange {
    /// Whole weeks before the current week (which starts on Monday 00:00)
    /// that the range reaches back: 0, 1, 3 or 7.
    pub fn weeks_before_this_week(&self) -> (r: i64)
        ensures
            r == match *self {
                AnalyticsRange::ThisWeek => 0int,
                AnalyticsRange::Last2Weeks => 1int,
                AnalyticsRange::Last4Weeks => 3int,
                AnalyticsRange::Last8Weeks => 7int,
            },
    {
        match self {
            AnalyticsRange::ThisWeek => 0,
            AnalyticsRange::Last2Weeks => 1,
            AnalyticsRange::Last4Weeks => 3,
            AnalyticsRange::Last8Weeks => 7,
        }
    }
}

/// How many days before today a repair preset starts (0 for the fixed
/// start of all data).
pub open spec fn preset_days(p: RepairPreset) -> int {
    match p {
        RepairPreset::Last7Days => 7,
        RepairPreset::Last30Days => 30,
        RepairPreset::AllData => 0,
    }
}

/// First and last day of a repair preset chosen on `today`: 7 or 30 days
/// back, or 2020-01-01 for all data, through today.
pub open spec fn repair_preset_range(p: RepairPreset, today: CalendarDate) -> (
    CalendarDate,
    CalendarDate,
) {
    match p {
        RepairPreset::AllData => (CalendarDate { year: 2020, month: 1, day: 1 }, today),
        _ => (date_of_number(today.day_number_spec() - preset_days(p)), today),
    }
}

/// A repair preset can be chosen on `today`: its first day is representable.
pub open spec fn repair_preset_allowed(p: RepairPreset, today: CalendarDate) -> bool {
    today.is_valid() && today.day_number_spec() - preset_days(p) >= first_day_number()
}

impl RepairPreset {
    /// First and last day of the preset's range when chosen on `today`.
    pub fn dates(&self, today: &CalendarDate) -> (r: (CalendarDate, CalendarDate))
        requires
            repair_preset_allowed(*self, *today),
        ensures
            r == repair_preset_range(*self, *today),
    {
        let days: i64 = match self {
            RepairPreset::Last7Days => 7,
            RepairPreset::Last30Days => 30,
            RepairPreset::AllData => {
                return (CalendarDate { year: 2020, month: 1, day: 1 }, *today);
            },
        };
        assert((CalendarDate { year: today.year, month: today.month, day: today.day }) == *today);
        proof {
            lemma_day_number_bounds(*today);
        }
        match date_minus_days(today.year, today.month, today.day, days) {
            Some(start) => {
                proof {
                    lemma_date_of_own_number(start);
                }
                (start, *today)
            },
            None => (*today, *today),
        }
    }
}

/// First and last day that a history preset of `days` days shows when
/// chosen on `today`: from `days` days before tomorrow through tomorrow.
pub open spec fn history_preset_range(today: CalendarDate, days: i64) -> (
    CalendarDate,
    CalendarDate,
) {
    let tomorrow = next_date_spec(today)->0;
    (date_of_number(tomorrow.day_number_spec() - days), tomorrow)
}

/// A history preset of `days` days can be chosen on `today`: tomorrow and
/// the first day of the range are representable.
pub open spec fn history_preset_allowed(today: CalendarDate, days: i64) -> bool {
    &&& today.is_valid()
    &&& next_date_spec(today) is Some
    &&& first_day_number() <= next_date_spec(today)->0.day_number_spec() - days
        <= last_day_number()
}

/// First and last day of a history preset of `days` days chosen on `today`.
pub fn history_preset_dates(today: &CalendarDate, days: i64) -> (r: (CalendarDate, CalendarDate))
    requires
        history_preset_allowed(*today, days),
    ensures
        r == history_preset_range(*today, days),
{
    proof {
        lemma_next_date(*today);
    }
    let tomorrow = match next_date_of(today.year, today.month, today.day) {
        Some(t) => t,
        None => *today,
    };
    match date_minus_days(tomorrow.year, tomorrow.month, tomorrow.day, days) {
        Some(start) => {
            proof {
                lemma_date_of_own_number(start);
            }
            (start, tomorrow)
        },
        None => (tomorrow, tomorrow),
    }
}

/// The date that `chrono::NaiveDate::parse_from_str` reads from `text` in
/// `format`, or `None` when the text is not such a date.
pub uninterp spec fn parsed_date(text: Seq<char>, format: Seq<char>) -> Option<CalendarDate>;

/// Calls `chrono::NaiveDate::parse_from_str` and takes the year, month and
/// day of the parsed date: `None` when parsing fails. Which texts parse is
/// left to the name `parsed_date`; a date that comes out exists.
#[verifier::external_body]
fn parse_date_with_format(text: &str, format: &str) -> (r: Option<CalendarDate>)
    ensures
        r == parsed_date(text@, format@),
        r matches Some(d) ==> d.is_valid(),
{
    let date = chrono::NaiveDate::parse_from_str(text, format).ok()?;
    Some(
        CalendarDate {
            year: chrono::Datelike::year(&date),
            month: chrono::Datelike::month(&date),
            day: chrono::Datelike::day(&date),
        },
    )
}

/// Reads a date typed as `YYYY-MM-DD` into the date fields of the history
/// and repair pages; `None` when the text is not a date.
pub fn parse_date(text: &str) -> (r: Option<CalendarDate>)
    ensures
        r == parsed_date(text@, "%Y-%m-%d"@),
        r matches Some(d) ==> d.is_valid(),
{
    parse_date_with_format(text, "%Y-%m-%d")
}

/// Delay after which a running load is shown as "Updating...", in
/// milliseconds (shorter loads do not flicker the indicator).
pub const LOADING_DEBOUNCE_MS: u64 = 200;

/// Whether the loading indicator is shown: only while loading, and once
/// the load has run for `LOADING_DEBOUNCE_MS` (or when its start is
/// unknown).
pub fn loading_indicator_visible(is_loading: bool, elapsed_ms: Option<u64>) -> (r: bool)
    ensures
        r == (is_loading && match elapsed_ms {
            Some(ms) => ms >= LOADING_DEBOUNCE_MS,
            None => true,
        }),
{
    if !is_loading {
        return false;
    }
    match elapsed_ms {
        Some(ms) => ms >= LOADING_DEBOUNCE_MS,
        None => true,
    }
}

/// The interface state that the monitor's decisions read and change.
#[derive(Debug, Clone)]
pub struct MonitorControl {
    pub current_view: ViewMode,
    pub analytics_range: AnalyticsRange,
    pub history_start_date: String,
    pub history_end_date: String,
    pub history_days_preset: Option<i64>,
    pub is_window_visible: bool,
    pub is_loading: bool,
    pub is_poll_aligned: bool,
    pub notifications_enabled: bool,
    pub was_below_threshold: bool,
    pub repair_start_date: String,
    pub repair_end_date: String,
    pub repair_running: bool,
}

/// What happened, as far as the decisions need to know; floating-point
/// comparisons (occupancy against the threshold), date parsing and clock
/// readings are done by the caller.
#[derive(Debug, Clone)]
pub enum MonitorEvent {
    /// The minute-aligned polling started; `gym_open` tells whether the gym
    /// is open now.
    FetchAlignmentComplete { gym_open: bool },
    /// A polling tick; `gym_open` tells whether the gym is open now.
    FetchTick { gym_open: bool },
    /// The user asked for a full refresh.
    RefreshNow,
    /// A new occupancy reading arrived; `below_threshold` tells whether it
    /// lies below the notification threshold.
    FetchSucceeded { below_threshold: bool },
    /// Fetching a reading failed.
    FetchFailed,
    /// Notifications were switched; `below_threshold` tells whether the
    /// current reading (100% when there is none) lies below the threshold.
    NotificationToggled { enabled: bool, below_threshold: bool },
    SwitchView(ViewMode),
    SwitchAnalyticsRange(AnalyticsRange),
    HistoryStartDateChanged(String),
    HistoryEndDateChanged(String),
    /// A history preset of `days` days was chosen on `today` (the UTC date
    /// of the clock).
    HistoryPresetSelected { days: i64, today: CalendarDate },
    /// The history date range in the date fields was applied.
    ApplyDateRange,
    WindowCloseRequested,
    /// The tray icon or its "show" entry was clicked.
    TrayToggle,
    RepairStartDateChanged(String),
    RepairEndDateChanged(String),
    /// A repair preset was chosen on `today` (the UTC date of the clock).
    RepairPresetSelected { preset: RepairPreset, today: CalendarDate },
    /// The user started a repair job. Each date is the UTC date on which
    /// local midnight falls of the date that `parse_date` reads from the
    /// matching repair date field (the caller converts it with the machine's
    /// time zone), or `None` when the field is not a date.
    StartRepairJob { start: Option<CalendarDate>, end: Option<CalendarDate> },
    RepairCompleted,
}

/// Messages of the validation errors the decisions report.
#[derive(Debug, Clone, Copy, PartialEq, Eq, Structural)]
pub enum ControlError {
    InvalidDateFormat,
    InvalidStartDate,
    InvalidEndDate,
    StartAfterEnd,
}

/// What the caller does next.
#[derive(Debug, Clone, Copy, PartialEq, Eq, Structural)]
pub enum MonitorAction {
    Nothing,
    /// Show the loading indicator and read the latest reading.
    FetchLatest,
    /// Forget the current reading and hide the loading indicator (the gym
    /// is closed).
    ClearOccupancy,
    /// Clear the error and reload the latest reading, history, analytics of
    /// `range` and the prediction baseline.
    RefreshAll { range: AnalyticsRange },
    /// Hide the loading indicator, reload history and analytics of `range`,
    /// and send the "gym is empty" notification when `notify`.
    ReadingArrived { range: AnalyticsRange, notify: bool },
    /// Hide the loading indicator and show the error.
    FetchError,
    /// Load the data of the insights page.
    LoadInsights,
    /// Reload the analytics of `range`.
    LoadAnalytics { range: AnalyticsRange },
    /// Load the history from midnight UTC of `start` up to now.
    LoadHistorySince { start: CalendarDate },
    /// Load the history from `start` to `end`, one day past `end` when
    /// `extend_end`.
    LoadHistoryRange { start: CalendarDate, end: CalendarDate, extend_end: bool },
    /// Show or hide the window.
    SetWindowVisible { visible: bool },
    /// Clear the error and repair the data from `start` to `end`.
    StartRepair { start: CalendarDate, end: CalendarDate },
    /// Show a validation error.
    ReportError(ControlError),
}

/// What applying the history date range does with the dates read from
/// its two fields: load that range (through one day past the end when both
/// are the same day), or report an invalid date format when either field is
/// not a date.
pub open spec fn history_range_action_spec(start: Option<CalendarDate>, end: Option<CalendarDate>)
    -> MonitorAction {
    match (start, end) {
        (Some(a), Some(b)) => MonitorAction::LoadHistoryRange { start: a, end: b, extend_end: a == b },
        _ => MonitorAction::ReportError(ControlError::InvalidDateFormat),
    }
}

/// The action for applying the history date range, given the dates read
/// from its start and end fields.
pub fn history_range_action(start: Option<CalendarDate>, end: Option<CalendarDate>) -> (r:
    MonitorAction)
    ensures
        r == history_range_action_spec(start, end),
{
    match (start, end) {
        (Some(s), Some(e)) => MonitorAction::LoadHistoryRange { start: s, end: e, extend_end: s == e },
        _ => MonitorAction::ReportError(ControlError::InvalidDateFormat),
    }
}

/// The event carries what its decision needs: preset dates whose range is
/// representable.
pub open spec fn event_allowed(e: MonitorEvent) -> bool {
    match e {
        MonitorEvent::HistoryPresetSelected { days, today } => history_preset_allowed(today, days),
        MonitorEvent::RepairPresetSelected { preset, today } => repair_preset_allowed(preset, today),
        _ => true,
    }
}

/// The action that event `e` calls for in state `s`.
pub open spec fn step_action(s: MonitorControl, e: MonitorEvent) -> MonitorAction {
    match e {
        MonitorEvent::FetchAlignmentComplete { gym_open } | MonitorEvent::FetchTick { gym_open } => {
            if gym_open {
                MonitorAction::FetchLatest
            } else {
                MonitorAction::ClearOccupancy
            }
        },
        MonitorEvent::RefreshNow => MonitorAction::RefreshAll { range: s.analytics_range },
        MonitorEvent::FetchSucceeded { below_threshold } => MonitorAction::ReadingArrived {
            range: s.analytics_range,
            notify: s.notifications_enabled && below_threshold && !s.was_below_threshold,
        },
        MonitorEvent::FetchFailed => MonitorAction::FetchError,
        MonitorEvent::NotificationToggled { .. } => MonitorAction::Nothing,
        MonitorEvent::SwitchView(v) => if v == ViewMode::Insights {
            MonitorAction::LoadInsights
        } else {
            MonitorAction::Nothing
        },
        MonitorEvent::SwitchAnalyticsRange(r) => MonitorAction::LoadAnalytics { range: r },
        MonitorEvent::HistoryStartDateChanged(_) => MonitorAction::Nothing,
        MonitorEvent::HistoryEndDateChanged(_) => MonitorAction::Nothing,
        MonitorEvent::HistoryPresetSelected { days, today } => MonitorAction::LoadHistorySince {
            start: history_preset_range(today, days).0,
        },
        MonitorEvent::ApplyDateRange => history_range_action_spec(
            parsed_date(s.history_start_date@, "%Y-%m-%d"@),
            parsed_date(s.history_end_date@, "%Y-%m-%d"@),
        ),
        MonitorEvent::WindowCloseRequested => MonitorAction::SetWindowVisible { visible: false },
        MonitorEvent::TrayToggle => MonitorAction::SetWindowVisible { visible: !s.is_window_visible },
        MonitorEvent::RepairStartDateChanged(_) => MonitorAction::Nothing,
        MonitorEvent::RepairEndDateChanged(_) => MonitorAction::Nothing,
        MonitorEvent::RepairPresetSelected { .. } => MonitorAction::Nothing,
        MonitorEvent::StartRepairJob { start, end } => {
            if s.repair_running {
                MonitorAction::Nothing
            } else {
                match (start, end) {
                    (None, _) => MonitorAction::ReportError(ControlError::InvalidStartDate),
                    (Some(_), None) => MonitorAction::ReportError(ControlError::InvalidEndDate),
                    (Some(a), Some(b)) => if date_after(a, b) {
                        MonitorAction::ReportError(ControlError::StartAfterEnd)
                    } else {
                        MonitorAction::StartRepair { start: a, end: b }
                    },
                }
            }
        },
        MonitorEvent::RepairCompleted => MonitorAction::Nothing,
    }
}

/// `t` is the state after event `e` in state `s`: the fields that `e`
/// changes take their new values, every other field is as in `s` (text
/// fields compared by their contents).
pub open spec fn step_state(s: MonitorControl, e: MonitorEvent, t: MonitorControl) -> bool {
    let unchanged_strings = t.history_start_date@ == s.history_start_date@
        && t.history_end_date@ == s.history_end_date@ && t.repair_start_date@
        == s.repair_start_date@ && t.repair_end_date@ == s.repair_end_date@;
    match e {
        MonitorEvent::FetchAlignmentComplete { gym_open } => {
            &&& unchanged_strings
            &&& t == MonitorControl {
                is_poll_aligned: true,
                is_loading: gym_open,
                history_start_date: t.history_start_date,
                history_end_date: t.history_end_date,
                repair_start_date: t.repair_start_date,
                repair_end_date: t.repair_end_date,
                ..s
            }
        },
        MonitorEvent::FetchTick { gym_open } => {
            &&& unchanged_strings
            &&& t == MonitorControl {
                is_loading: gym_open,
                history_start_date: t.history_start_date,
                history_end_date: t.history_end_date,
                repair_start_date: t.repair_start_date,
                repair_end_date: t.repair_end_date,
                ..s
            }
        },
        MonitorEvent::RefreshNow => {
            &&& unchanged_strings
            &&& t == MonitorControl {
                is_loading: true,
                history_start_date: t.history_start_date,
                history_end_date: t.history_end_date,
                repair_start_date: t.repair_start_date,
                repair_end_date: t.repair_end_date,
                ..s
            }
        },
        MonitorEvent::FetchSucceeded { below_threshold } => {
            &&& unchanged_strings
            &&& t == MonitorControl {
                is_loading: false,
                was_below_threshold: below_threshold,
                history_start_date: t.history_start_date,
                history_end_date: t.history_end_date,
                repair_start_date: t.repair_start_date,
                repair_end_date: t.repair_end_date,
                ..s
            }
        },
        MonitorEvent::FetchFailed => {
            &&& unchanged_strings
            &&& t == MonitorControl {
                is_loading: false,
                history_start_date: t.history_start_date,
                history_end_date: t.history_end_date,
                repair_start_date: t.repair_start_date,
                repair_end_date: t.repair_end_date,
                ..s
            }
        },
        MonitorEvent::NotificationToggled { enabled, below_threshold } => {
            &&& unchanged_strings
            &&& t == MonitorControl {
                notifications_enabled: enabled,
                was_below_threshold: below_threshold,
                history_start_date: t.history_start_date,
                history_end_date: t.history_end_date,
                repair_start_date: t.repair_start_date,
                repair_end_date: t.repair_end_date,
                ..s
            }
        },
        MonitorEvent::SwitchView(v) => {
            &&& unchanged_strings
            &&& t == MonitorControl {
                current_view: v,
                history_start_date: t.history_start_date,
                history_end_date: t.history_end_date,
                repair_start_date: t.repair_start_date,
                repair_end_date: t.repair_end_date,
                ..s
            }
        },
        MonitorEvent::SwitchAnalyticsRange(r) => {
            &&& unchanged_strings
            &&& t == MonitorControl {
                analytics_range: r,
                history_start_date: t.history_start_date,
                history_end_date: t.history_end_date,
                repair_start_date: t.repair_start_date,
                repair_end_date: t.repair_end_date,
                ..s
            }
        },
        MonitorEvent::HistoryStartDateChanged(d) => {
            &&& t.history_start_date@ == d@
            &&& t.history_end_date@ == s.history_end_date@
            &&& t.repair_start_date@ == s.repair_start_date@
            &&& t.repair_end_date@ == s.repair_end_date@
            &&& t == MonitorControl {
                history_days_preset: None,
                history_start_date: t.history_start_date,
                history_end_date: t.history_end_date,
                repair_start_date: t.repair_start_date,
                repair_end_date: t.repair_end_date,
                ..s
            }
        },
        MonitorEvent::HistoryEndDateChanged(d) => {
            &&& t.history_start_date@ == s.history_start_date@
            &&& t.history_end_date@ == d@
            &&& t.repair_start_date@ == s.repair_start_date@
            &&& t.repair_end_date@ == s.repair_end_date@
            &&& t == MonitorControl {
                history_days_preset: None,
                history_start_date: t.history_start_date,
                history_end_date: t.history_end_date,
                repair_start_date: t.repair_start_date,
                repair_end_date: t.repair_end_date,
                ..s
            }
        },
        MonitorEvent::HistoryPresetSelected { days, today } => {
            &&& t.history_start_date@ == date_text(history_preset_range(today, days).0)
            &&& t.history_end_date@ == date_text(history_preset_range(today, days).1)
            &&& t.repair_start_date@ == s.repair_start_date@
            &&& t.repair_end_date@ == s.repair_end_date@
            &&& t == MonitorControl {
                history_days_preset: Some(days),
                history_start_date: t.history_start_date,
                history_end_date: t.history_end_date,
                repair_start_date: t.repair_start_date,
                repair_end_date: t.repair_end_date,
                ..s
            }
        },
        MonitorEvent::WindowCloseRequested => {
            &&& unchanged_strings
            &&& t == MonitorControl {
                is_window_visible: false,
                history_start_date: t.history_start_date,
                history_end_date: t.history_end_date,
                repair_start_date: t.repair_start_date,
                repair_end_date: t.repair_end_date,
                ..s
            }
        },
        MonitorEvent::TrayToggle => {
            &&& unchanged_strings
            &&& t == MonitorControl {
                is_window_visible: !s.is_window_visible,
                history_start_date: t.history_start_date,
                history_end_date: t.history_end_date,
                repair_start_date: t.repair_start_date,
                repair_end_date: t.repair_end_date,
                ..s
            }
        },
        MonitorEvent::RepairStartDateChanged(d) => {
            &&& t.history_start_date@ == s.history_start_date@
            &&& t.history_end_date@ == s.history_end_date@
            &&& t.repair_start_date@ == d@
            &&& t.repair_end_date@ == s.repair_end_date@
            &&& t == MonitorControl {
                history_start_date: t.history_start_date,
                history_end_date: t.history_end_date,
                repair_start_date: t.repair_start_date,
                repair_end_date: t.repair_end_date,
                ..s
            }
        },
        MonitorEvent::RepairEndDateChanged(d) => {
            &&& t.history_start_date@ == s.history_start_date@
            &&& t.history_end_date@ == s.history_end_date@
            &&& t.repair_start_date@ == s.repair_start_date@
            &&& t.repair_end_date@ == d@
            &&& t == MonitorControl {
                history_start_date: t.history_start_date,
                history_end_date: t.history_end_date,
                repair_start_date: t.repair_start_date,
                repair_end_date: t.repair_end_date,
                ..s
            }
        },
        MonitorEvent::RepairPresetSelected { preset, today } => {
            &&& t.history_start_date@ == s.history_start_date@
            &&& t.history_end_date@ == s.history_end_date@
            &&& t.repair_start_date@ == date_text(repair_preset_range(preset, today).0)
            &&& t.repair_end_date@ == date_text(repair_preset_range(preset, today).1)
            &&& t == MonitorControl {
                history_start_date: t.history_start_date,
                history_end_date: t.history_end_date,
                repair_start_date: t.repair_start_date,
                repair_end_date: t.repair_end_date,
                ..s
            }
        },
        MonitorEvent::StartRepairJob { .. } => {
            &&& unchanged_strings
            &&& t == MonitorControl {
                repair_running: s.repair_running || step_action(s, e) is StartRepair,
                history_start_date: t.history_start_date,
                history_end_date: t.history_end_date,
                repair_start_date: t.repair_start_date,
                repair_end_date: t.repair_end_date,
                ..s
            }
        },
        MonitorEvent::RepairCompleted => {
            &&& unchanged_strings
            &&& t == MonitorControl {
                repair_running: false,
                history_start_date: t.history_start_date,
                history_end_date: t.history_end_date,
                repair_start_date: t.repair_start_date,
                repair_end_date: t.repair_end_date,
                ..s
            }
        },
        MonitorEvent::ApplyDateRange => {
            &&& unchanged_strings
            &&& t == MonitorControl {
                history_start_date: t.history_start_date,
                history_end_date: t.history_end_date,
                repair_start_date: t.repair_start_date,
                repair_end_date: t.repair_end_date,
                ..s
            }
        },
    }
}

impl MonitorControl {
    /// The state when the monitor opens on `today` (the UTC date of the
    /// clock): the dashboard of this week, both date ranges from today to
    /// tomorrow with the one-day history preset, the window shown, nothing
    /// loading or running, and notifications as configured.
    pub fn new(today: &CalendarDate, notifications_enabled: bool) -> (r: Self)
        requires
            today.is_valid(),
            next_date_spec(*today) is Some,
        ensures
            r.current_view == ViewMode::Dashboard,
            r.analytics_range == AnalyticsRange::ThisWeek,
            r.history_start_date@ == date_text(*today),
            r.history_end_date@ == date_text(next_date_spec(*today)->0),
            r.history_days_preset == Some(1i64),
            r.is_window_visible,
            !r.is_loading,
            !r.is_poll_aligned,
            r.notifications_enabled == notifications_enabled,
            !r.was_below_threshold,
            r.repair_start_date@ == date_text(*today),
            r.repair_end_date@ == date_text(next_date_spec(*today)->0),
            !r.repair_running,
    {
        let tomorrow = match next_date_of(today.year, today.month, today.day) {
            Some(t) => t,
            None => *today,
        };
        assert((CalendarDate { year: today.year, month: today.month, day: today.day }) == *today);
        MonitorControl {
            current_view: ViewMode::Dashboard,
            analytics_range: AnalyticsRange::ThisWeek,
            history_start_date: format_date(today),
            history_end_date: format_date(&tomorrow),
            history_days_preset: Some(1),
            is_window_visible: true,
            is_loading: false,
            is_poll_aligned: false,
            notifications_enabled,
            was_below_threshold: false,
            repair_start_date: format_date(today),
            repair_end_date: format_date(&tomorrow),
            repair_running: false,
        }
    }

    /// Applies `event` to the interface state and returns what to do next.
    pub fn update(&mut self, event: MonitorEvent) -> (action: MonitorAction)
        requires
            event_allowed(event),
        ensures
            action == step_action(*old(self), event),
            step_state(*old(self), event, *final(self)),
    {
        match event {
            MonitorEvent::FetchAlignmentComplete { gym_open } => {
                self.is_poll_aligned = true;
                self.is_loading = gym_open;
                if gym_open {
                    MonitorAction::FetchLatest
                } else {
                    MonitorAction::ClearOccupancy
                }
            },
            MonitorEvent::FetchTick { gym_open } => {
                self.is_loading = gym_open;
                if gym_open {
                    MonitorAction::FetchLatest
                } else {
                    MonitorAction::ClearOccupancy
                }
            },
            MonitorEvent::RefreshNow => {
                self.is_loading = true;
                MonitorAction::RefreshAll { range: self.analytics_range }
            },
            MonitorEvent::FetchSucceeded { below_threshold } => {
                self.is_loading = false;
                let notify = self.notifications_enabled && below_threshold
                    && !self.was_below_threshold;
                self.was_below_threshold = below_threshold;
                MonitorAction::ReadingArrived { range: self.analytics_range, notify }
            },
            MonitorEvent::FetchFailed => {
                self.is_loading = false;
                MonitorAction::FetchError
            },
            MonitorEvent::NotificationToggled { enabled, below_threshold } => {
                self.notifications_enabled = enabled;
                self.was_below_threshold = below_threshold;
                MonitorAction::Nothing
            },
            MonitorEvent::SwitchView(mode) => {
                self.current_view = mode;
                match mode {
                    ViewMode::Insights => MonitorAction::LoadInsights,
                    _ => MonitorAction::Nothing,
                }
            },
            MonitorEvent::SwitchAnalyticsRange(range) => {
                self.analytics_range = range;
                MonitorAction::LoadAnalytics { range }
            },
            MonitorEvent::HistoryStartDateChanged(d) => {
                self.history_start_date = d;
                self.history_days_preset = None;
                MonitorAction::Nothing
            },
            MonitorEvent::HistoryEndDateChanged(d) => {
                self.history_end_date = d;
                self.history_days_preset = None;
                MonitorAction::Nothing
            },
            MonitorEvent::HistoryPresetSelected { days, today } => {
                let (start, end) = history_preset_dates(&today, days);
                self.history_days_preset = Some(days);
                self.history_start_date = format_date(&start);
                self.history_end_date = format_date(&end);
                MonitorAction::LoadHistorySince { start }
            },
            MonitorEvent::ApplyDateRange => history_range_action(
                parse_date(&self.history_start_date),
                parse_date(&self.history_end_date),
            ),
            MonitorEvent::WindowCloseRequested => {
                self.is_window_visible = false;
                MonitorAction::SetWindowVisible { visible: false }
            },
            MonitorEvent::TrayToggle => {
                self.is_window_visible = !self.is_window_visible;
                MonitorAction::SetWindowVisible { visible: self.is_window_visible }
            },
            MonitorEvent::RepairStartDateChanged(d) => {
                self.repair_start_date = d;
                MonitorAction::Nothing
            },
            MonitorEvent::RepairEndDateChanged(d) => {
                self.repair_end_date = d;
                MonitorAction::Nothing
            },
            MonitorEvent::RepairPresetSelected { preset, today } => {
                let (start, end) = preset.dates(&today);
                self.repair_start_date = format_date(&start);
                self.repair_end_date = format_date(&end);
                MonitorAction::Nothing
            },
            MonitorEvent::StartRepairJob { start, end } => {
                if self.repair_running {
                    return MonitorAction::Nothing;
                }
                let start = match start {
                    Some(d) => d,
                    None => {
                        return MonitorAction::ReportError(ControlError::InvalidStartDate);
                    },
                };
                let end = match end {
                    Some(d) => d,
                    None => {
                        return MonitorAction::ReportError(ControlError::InvalidEndDate);
                    },
                };
                if is_date_after(&start, &end) {
                    return MonitorAction::ReportError(ControlError::StartAfterEnd);
                }
                self.repair_running = true;
                MonitorAction::StartRepair { start, end }
            },
            MonitorEvent::RepairCompleted => {
                self.repair_running = false;
                MonitorAction::Nothing
            },
        }
    }
}

/// The "gym is empty" notification fires exactly when notifications are on
/// and the reading has just dropped below the threshold.
pub proof fn lemma_notification_on_falling_edge(s: MonitorControl, below_threshold: bool)
    ensures
        step_action(s, MonitorEvent::FetchSucceeded { below_threshold }) matches
            MonitorAction::ReadingArrived { notify, .. } && (notify <==> (s.notifications_enabled
            && below_threshold && !s.was_below_threshold)),
{
}

/// After a reading below the threshold, the next reading never notifies
/// again: one notification per drop below the threshold.
pub proof fn lemma_no_repeated_notification(s: MonitorControl, t: MonitorControl, next_below: bool)
    requires
        step_state(s, MonitorEvent::FetchSucceeded { below_threshold: true }, t),
    ensures
        step_action(t, MonitorEvent::FetchSucceeded { below_threshold: next_below }) matches
            MonitorAction::ReadingArrived { notify, .. } && !notify,
{
}

/// A repair job is started only when none is running and the parsed start
/// date does not lie after the end date; while one runs, starting again
/// does nothing.
pub proof fn lemma_repair_start_guarded(
    s: MonitorControl,
    start: Option<CalendarDate>,
    end: Option<CalendarDate>,
)
    ensures
        step_action(s, MonitorEvent::StartRepairJob { start, end }) matches
            MonitorAction::StartRepair { start: a, end: b } ==> !s.repair_running && start
            == Some(a) && end == Some(b) && !date_after(a, b),
        s.repair_running ==> step_action(s, MonitorEvent::StartRepairJob { start, end })
            == MonitorAction::Nothing,
{
}

/// Clicking the tray icon flips the window's visibility: it hides a shown
/// window and shows a hidden one, and two clicks restore the visibility
/// the window had.
pub proof fn lemma_tray_toggle_flips(s: MonitorControl, t: MonitorControl, u: MonitorControl)
    requires
        step_state(s, MonitorEvent::TrayToggle, t),
        step_state(t, MonitorEvent::TrayToggle, u),
    ensures
        step_action(s, MonitorEvent::TrayToggle) == (MonitorAction::SetWindowVisible {
            visible: !s.is_window_visible,
        }),
        t.is_window_visible == !s.is_window_visible,
        u.is_window_visible == s.is_window_visible,
{
}

/// A failed fetch is always reported: the error is shown and the loading
/// indicator hidden, whatever the state.
pub proof fn lemma_fetch_failure_reported(s: MonitorControl, t: MonitorControl)
    requires
        step_state(s, MonitorEvent::FetchFailed, t),
    ensures
        step_action(s, MonitorEvent::FetchFailed) == MonitorAction::FetchError,
        !t.is_loading,
{
}

/// Polling follows the opening hours: a tick (or the first, aligned one)
/// fetches the latest reading and shows the loading indicator exactly when
/// the gym is open, and otherwise clears the reading; the first tick marks
/// the polling as aligned.
pub proof fn lemma_polling_follows_opening_hours(
    s: MonitorControl,
    t: MonitorControl,
    u: MonitorControl,
    gym_open: bool,
)
    requires
        step_state(s, MonitorEvent::FetchTick { gym_open }, t),
        step_state(s, MonitorEvent::FetchAlignmentComplete { gym_open }, u),
    ensures
        step_action(s, MonitorEvent::FetchTick { gym_open }) == (if gym_open {
            MonitorAction::FetchLatest
        } else {
            MonitorAction::ClearOccupancy
        }),
        step_action(s, MonitorEvent::FetchAlignmentComplete { gym_open }) == step_action(
            s,
            MonitorEvent::FetchTick { gym_open },
        ),
        t.is_loading == gym_open,
        u.is_loading == gym_open,
        u.is_poll_aligned,
        t.is_poll_aligned == s.is_poll_aligned,
{
}

/// Closing the window only hides it; a refresh reloads everything for the
/// current analytics range and shows the loading indicator; switching the
/// page loads the insights only for the insights page; finishing a repair
/// lets the next one start.
pub proof fn lemma_window_refresh_view_repair(s: MonitorControl, v: ViewMode)
    ensures
        step_action(s, MonitorEvent::WindowCloseRequested) == (MonitorAction::SetWindowVisible {
            visible: false,
        }),
        forall|t: MonitorControl|
            step_state(s, MonitorEvent::WindowCloseRequested, t) ==> !t.is_window_visible,
        step_action(s, MonitorEvent::RefreshNow) == (MonitorAction::RefreshAll {
            range: s.analytics_range,
        }),
        forall|t: MonitorControl| step_state(s, MonitorEvent::RefreshNow, t) ==> t.is_loading,
        (step_action(s, MonitorEvent::SwitchView(v)) == MonitorAction::LoadInsights) <==> v
            == ViewMode::Insights,
        step_action(s, MonitorEvent::SwitchView(v)) != MonitorAction::LoadInsights ==> step_action(
            s,
            MonitorEvent::SwitchView(v),
        ) == MonitorAction::Nothing,
        forall|t: MonitorControl|
            step_state(s, MonitorEvent::SwitchView(v), t) ==> t.current_view == v,
        forall|t: MonitorControl|
            step_state(s, MonitorEvent::RepairCompleted, t) ==> !t.repair_running,
{
}

} // verus!
