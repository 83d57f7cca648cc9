use viztokens::clock::{reading_time, ClockReading};
use viztokens::model::Timestamp;

fn reading(after_epoch: bool, secs: u64, nanos: u32) -> ClockReading {
    ClockReading { after_epoch, secs, nanos }
}

#[test]
fn readings_after_the_epoch() {
    assert_eq!(reading_time(reading(true, 1_700_000_000, 5)), Timestamp { secs: 1_700_000_000, nanos: 5 });
    assert_eq!(reading_time(reading(true, 0, 0)), Timestamp { secs: 0, nanos: 0 });
}

#[test]
fn readings_before_the_epoch_do_not_panic() {
    // 1.25 seconds before the epoch.
    assert_eq!(reading_time(reading(false, 1, 250_000_000)), Timestamp { secs: -2, nanos: 750_000_000 });
    assert_eq!(reading_time(reading(false, 3, 0)), Timestamp { secs: -3, nanos: 0 });
}

#[test]
fn readings_beyond_a_timestamp_are_clamped() {
    assert_eq!(reading_time(reading(true, u64::MAX, 1)), Timestamp { secs: i64::MAX, nanos: 999_999_999 });
    assert_eq!(reading_time(reading(false, u64::MAX, 0)), Timestamp { secs: i64::MIN, nanos: 0 });
    assert_eq!(reading_time(reading(false, 1 << 63, 0)), Timestamp { secs: i64::MIN, nanos: 0 });
}
