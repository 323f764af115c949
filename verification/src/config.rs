//! Configuration sections of the application that hold plain values, with
//! their default settings.

use vstd::prelude::*;

verus! {

/// Where the occupancy database lives.
#[derive(Debug, Clone)]
pub struct DatabaseConfig {
    pub url: String,
}

/// Where the gym's occupancy endpoint lives.
#[derive(Debug, Clone)]
pub struct GymConfig {
    pub api_url: String,
}

/// HTTP timeouts.
#[derive(Debug, Clone)]
pub struct NetworkConfig {
    pub request_timeout_secs: u64,
    pub connect_timeout_secs: u64,
}

impl Default for NetworkConfig {
    /// Requests time out after 30 s, connection attempts after 10 s.
    fn default() -> (r: Self)
        ensures
            r.request_timeout_secs == 30,
            r.connect_timeout_secs == 10,
    {
        NetworkConfig { request_timeout_secs: 30, connect_timeout_secs: 10 }
    }
}

/// Refresh periods of the user interface, the data fetch and the tray poll.
#[derive(Debug, Clone)]
pub struct RefreshConfig {
    pub ui_interval_secs: u64,
    pub data_fetch_interval_secs: u64,
    pub tray_poll_interval_ms: u64,
}

impl Default for RefreshConfig {
    /// UI every 30 s, data every 60 s, tray every 50 ms.
    fn default() -> (r: Self)
        ensures
            r.ui_interval_secs == 30,
            r.data_fetch_interval_secs == 60,
            r.tray_poll_interval_ms == 50,
    {
        RefreshConfig { ui_interval_secs: 30, data_fetch_interval_secs: 60, tray_poll_interval_ms: 50 }
    }
}

/// How many days of history feed the hourly predictions.
#[derive(Debug, Clone)]
pub struct AnalyticsConfig {
    pub prediction_window_days: i64,
}

impl Default for AnalyticsConfig {
    /// Four weeks of history.
    fn default() -> (r: Self)
        ensures
            r.prediction_window_days == 28,
    {
        AnalyticsConfig { prediction_window_days: 28 }
    }
}

/// Opening and closing hour of one kind of day.
#[derive(Debug, Clone, Copy)]
pub struct ScheduleHours {
    pub open_hour: u32,
    pub close_hour: u32,
}

/// Opening hours on weekdays and on weekends/holidays.
#[derive(Debug, Clone)]
pub struct ScheduleConfig {
    pub weekday: ScheduleHours,
    pub weekend: ScheduleHours,
}

impl Default for ScheduleConfig {
    /// Weekdays 6-23, weekends 9-21.
    fn default() -> (r: Self)
        ensures
            r.weekday.open_hour == 6,
            r.weekday.close_hour == 23,
            r.weekend.open_hour == 9,
            r.weekend.close_hour == 21,
    {
        ScheduleConfig {
            weekday: ScheduleHours { open_hour: 6, close_hour: 23 },
            weekend: ScheduleHours { open_hour: 9, close_hour: 21 },
        }
    }
}

} // verus!
