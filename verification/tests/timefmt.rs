use r4dio::timefmt::{compact_timestamp, format_iso, short_time, stored_time_for, stored_time_text, ticker_time};

#[test]
fn iso_format_pads_and_signs_years() {
    assert_eq!(format_iso((2024, 1, 2, 3, 4, 5)), "2024-01-02T03:04:05");
    assert_eq!(format_iso((0, 12, 31, 23, 59, 59)), "0000-12-31T23:59:59");
    assert_eq!(format_iso((-1, 1, 1, 0, 0, 0)), "-0001-01-01T00:00:00");
    assert_eq!(format_iso((12345, 6, 7, 8, 9, 10)), "+12345-06-07T08:09:10");
    assert_eq!(format_iso((987, 6, 7, 8, 9, 10)), "0987-06-07T08:09:10");
}

#[test]
fn short_times() {
    assert_eq!(short_time((2024, 5, 6, 7, 8, 9), (2024, 5, 6)), "07:08:09");
    assert_eq!(short_time((2024, 5, 6, 7, 8, 9), (2024, 5, 7)), "05-06 07:08");
    assert_eq!(short_time((2023, 5, 6, 7, 8, 9), (2024, 5, 6)), "05-06 07:08");
}

#[test]
fn stored_times_normalise() {
    assert_eq!(stored_time_text("2024-01-02T12:04:05").as_deref(), Some("2024-01-02T12:04:05"));
    assert_eq!(stored_time_text("not a time"), None);
    assert_eq!(stored_time_text(""), None);
}

#[test]
fn log_timestamps() {
    assert_eq!(compact_timestamp("yesterday"), None);
    let t = compact_timestamp("2020-02-03T12:00:00Z").unwrap();
    assert!(t.len() == 8 || t.len() == 11);
    assert!(t.chars().all(|c| c.is_ascii_digit() || c == ':' || c == '-' || c == ' '));
}

#[test]
fn ticker_time_is_short_today_and_dated_otherwise() {
    assert_eq!(ticker_time((2024, 3, 9, 7, 5, 59), (2024, 3, 9)), "07:05");
    assert_eq!(ticker_time((2024, 3, 9, 7, 5, 59), (2024, 3, 10)), "09/03/2024 07:05");
    assert_eq!(ticker_time((987, 12, 1, 23, 0, 0), (2024, 3, 10)), "01/12/0987 23:00");
}

#[test]
fn stored_time_needs_the_local_time() {
    assert_eq!(stored_time_for((2024, 3, 31, 2, 30, 0), true).as_deref(), Some("2024-03-31T02:30:00"));
    assert_eq!(stored_time_for((2024, 3, 31, 2, 30, 0), false), None);
}
