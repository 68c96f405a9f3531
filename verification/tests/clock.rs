use std::time::{Duration, SystemTime, UNIX_EPOCH};

use amux::session::clock::{
    civil_from_days, system_time_to_rfc3339_utc, unix_to_rfc3339_utc, utc_rfc3339_now,
};

#[test]
fn days_have_dates() {
    assert_eq!(civil_from_days(0), (1970, 1, 1));
    assert_eq!(civil_from_days(-1), (1969, 12, 31));
    assert_eq!(civil_from_days(11_016), (2000, 2, 29));
    assert_eq!(civil_from_days(11_017), (2000, 3, 1));
    assert_eq!(civil_from_days(20_454), (2026, 1, 1));
    assert_eq!(civil_from_days(-719_468), (0, 3, 1));
}

#[test]
fn moments_are_written_in_utc() {
    assert_eq!(
        unix_to_rfc3339_utc(0, 0),
        "1970-01-01T00:00:00.000000000Z"
    );
    assert_eq!(
        unix_to_rfc3339_utc(1_767_225_599, 7),
        "2025-12-31T23:59:59.000000007Z"
    );
    assert_eq!(
        system_time_to_rfc3339_utc(UNIX_EPOCH + Duration::new(951_827_696, 120_000_000)),
        "2000-02-29T12:34:56.120000000Z"
    );
}

#[test]
fn moments_before_the_epoch_are_the_epoch() {
    assert_eq!(
        system_time_to_rfc3339_utc(UNIX_EPOCH - Duration::from_secs(5)),
        "1970-01-01T00:00:00.000000000Z"
    );
}

#[test]
fn now_is_between_two_readings() {
    let before = system_time_to_rfc3339_utc(SystemTime::now());
    let now = utc_rfc3339_now();
    let after = system_time_to_rfc3339_utc(SystemTime::now());
    assert!(before <= now && now <= after);
}
