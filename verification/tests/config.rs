use hardy_monitor::config::{
    AnalyticsConfig, NetworkConfig, RefreshConfig, ScheduleConfig, ScheduleHours,
};

#[test]
fn test_network_config_defaults() {
    let config = NetworkConfig::default();
    assert_eq!(config.request_timeout_secs, 30);
    assert_eq!(config.connect_timeout_secs, 10);
}

#[test]
fn test_refresh_config_defaults() {
    let config = RefreshConfig::default();
    assert_eq!(config.ui_interval_secs, 30);
    assert_eq!(config.data_fetch_interval_secs, 60);
    assert_eq!(config.tray_poll_interval_ms, 50);
}

#[test]
fn test_analytics_config_defaults() {
    let config = AnalyticsConfig::default();
    assert_eq!(config.prediction_window_days, 28);
}

#[test]
fn test_schedule_config_defaults() {
    let config = ScheduleConfig::default();
    assert_eq!(config.weekday.open_hour, 6);
    assert_eq!(config.weekday.close_hour, 23);
    assert_eq!(config.weekend.open_hour, 9);
    assert_eq!(config.weekend.close_hour, 21);
}

#[test]
fn test_schedule_hours_copy() {
    let hours = ScheduleHours { open_hour: 8, close_hour: 20 };
    let copy = hours;
    assert_eq!(copy.open_hour, 8);
    assert_eq!(copy.close_hour, 20);
}

#[test]
fn test_config_structs_are_debug() {
    let config = NetworkConfig::default();
    let debug_str = format!("{:?}", config);
    assert!(debug_str.contains("NetworkConfig"));
    assert!(debug_str.contains("request_timeout_secs"));
}
