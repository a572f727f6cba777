use crab_dashboard::datetime::{
    format_ms_china_datetime, format_ms_china_datetime_secs, format_ms_china_hour_label,
    format_ms_china_time,
};

#[test]
fn epoch_start_is_eight_in_the_morning_in_beijing() {
    assert_eq!(format_ms_china_datetime(0), "1970-01-01 08:00");
    assert_eq!(format_ms_china_datetime_secs(0), "1970-01-01 08:00:00");
    assert_eq!(format_ms_china_hour_label(0), "08:00");
    assert_eq!(format_ms_china_time(0, false), "08:00");
    assert_eq!(format_ms_china_time(0, true), "08:00:00");
}

#[test]
fn documented_example_timestamp() {
    // 2026-05-25 20:40:23 UTC
    let ms = 1_779_741_623_000u64;
    assert_eq!(format_ms_china_datetime(ms), "2026-05-26 04:40");
    assert_eq!(format_ms_china_datetime_secs(ms), "2026-05-26 04:40:23");
    assert_eq!(format_ms_china_hour_label(ms), "04:00");
    assert_eq!(format_ms_china_time(ms, false), "04:40");
    assert_eq!(format_ms_china_time(ms, true), "04:40:23");
}

#[test]
fn leap_day_and_century_boundary() {
    // 2024-02-28 16:00:00 UTC is midnight of the leap day in Beijing.
    assert_eq!(format_ms_china_datetime_secs(1_709_136_000_000), "2024-02-29 00:00:00");
    // 1999-12-31 23:59:59.999 UTC
    assert_eq!(format_ms_china_datetime_secs(946_684_799_999), "2000-01-01 07:59:59");
    assert_eq!(format_ms_china_hour_label(946_684_799_999), "07:00");
}

#[test]
fn clock_is_the_second_field_of_the_full_text() {
    for ms in [0u64, 1, 59_999, 86_399_999, 1_709_136_000_000, 1_779_741_623_456] {
        let full = format_ms_china_datetime_secs(ms);
        let second = full.split_whitespace().nth(1).unwrap().to_string();
        assert_eq!(format_ms_china_time(ms, true), second);
        let full = format_ms_china_datetime(ms);
        let second = full.split_whitespace().nth(1).unwrap().to_string();
        assert_eq!(format_ms_china_time(ms, false), second);
        assert!(format_ms_china_datetime_secs(ms).starts_with(&format_ms_china_datetime(ms)));
    }
}
