use pipe_cutter::clock::{Timestamp, NANOS_PER_SECOND, POLL_INTERVAL_MS};

#[test]
fn polling_interval_is_a_quarter_second() {
    assert_eq!(POLL_INTERVAL_MS, 250);
    assert_eq!(NANOS_PER_SECOND, 1_000_000_000);
}

#[test]
fn plus_seconds_adds_whole_seconds() {
    let start = Timestamp { nanos: 5 };
    assert_eq!(start.plus_seconds(2), Timestamp { nanos: 2_000_000_005 });
    assert_eq!(start.plus_seconds(0), start);
}

#[test]
fn plus_seconds_takes_the_largest_limit() {
    let start = Timestamp { nanos: 1_700_000_000_123_456_789 };
    let later = start.plus_seconds(u64::MAX);
    assert_eq!(later.nanos, 18_446_744_075_409_551_615_123_456_789);
}

#[test]
fn plus_seconds_saturates() {
    let start = Timestamp { nanos: u128::MAX - 999_999_999 };
    assert_eq!(start.plus_seconds(1), Timestamp { nanos: u128::MAX });
    assert_eq!(Timestamp { nanos: u128::MAX }.plus_seconds(u64::MAX).nanos, u128::MAX);
    let just_fits = Timestamp { nanos: u128::MAX - 1_000_000_000 };
    assert_eq!(just_fits.plus_seconds(1), Timestamp { nanos: u128::MAX });
    let below = Timestamp { nanos: u128::MAX - 1_000_000_001 };
    assert_eq!(below.plus_seconds(1), Timestamp { nanos: u128::MAX - 1 });
}

#[test]
fn is_after_is_strict() {
    let earlier = Timestamp { nanos: 10 };
    let later = Timestamp { nanos: 11 };
    assert!(later.is_after(earlier));
    assert!(!earlier.is_after(later));
    assert!(!earlier.is_after(earlier));
}
