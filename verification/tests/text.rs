use chrono::NaiveDate;
use hardy_monitor::calendar::CalendarDate;
use hardy_monitor::text::{decimal_string, format_date, zero_padded_string};

#[test]
fn decimal_numbers() {
    assert_eq!(decimal_string(0), "0");
    assert_eq!(decimal_string(7), "7");
    assert_eq!(decimal_string(503), "503");
    assert_eq!(decimal_string(u64::MAX), u64::MAX.to_string());
    assert_eq!(zero_padded_string(5, 2), "05");
    assert_eq!(zero_padded_string(12345, 2), "12345");
    assert_eq!(zero_padded_string(0, 0), "0");
}

#[test]
fn date_texts_match_chrono() {
    for (y, m, d) in [
        (2024, 6, 1),
        (2020, 1, 1),
        (999, 12, 31),
        (0, 2, 29),
        (-1, 3, 4),
        (-262143, 1, 1),
        (10000, 10, 10),
        (262142, 12, 31),
    ] {
        let expected = NaiveDate::from_ymd_opt(y, m, d).expect("date").format("%Y-%m-%d").to_string();
        assert_eq!(format_date(&CalendarDate { year: y, month: m, day: d }), expected);
    }
    assert_eq!(format_date(&CalendarDate { year: 2024, month: 6, day: 1 }), "2024-06-01");
}
