use event_manager::format::{ts, MAX_TIMESTAMP, MIN_TIMESTAMP};

#[test]
fn test_format() {
    assert_eq!(ts(1650445814), "20.04 09:10");
}

#[test]
fn ts_at_calendar_limits() {
    assert_eq!(ts(MAX_TIMESTAMP as u64), "31.12 23:59");
    assert_eq!(ts(MIN_TIMESTAMP as u64), "01.01 00:00");
    assert_eq!(ts(0), "01.01 00:00");
    assert_eq!(ts(u64::MAX), "31.12 23:59");
}

#[test]
fn calendar_limits_are_those_of_chrono() {
    assert!(chrono::DateTime::from_timestamp(MAX_TIMESTAMP, 0).is_some());
    assert!(chrono::DateTime::from_timestamp(MAX_TIMESTAMP + 1, 0).is_none());
    assert!(chrono::DateTime::from_timestamp(MIN_TIMESTAMP, 0).is_some());
    assert!(chrono::DateTime::from_timestamp(MIN_TIMESTAMP - 1, 0).is_none());
}

/// Dates are eleven characters "DD.MM HH:MM"; the seconds of a minute do not
/// show, and a negative timestamp counts back from the epoch.
#[test]
fn ts_shape() {
    let t = ts(1650445814);
    assert_eq!(t.chars().count(), 11);
    assert_eq!(ts(1650445814 + 5), "20.04 09:10");
    assert_eq!(ts((-1i64) as u64), "31.12 23:59");
}
