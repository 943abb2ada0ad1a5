use action_hero::clock::{
    seconds_and_nanos, time_offset, TimeOffset, Timestamp, LOOKBACK_NANOS, MAX_OFFSET_NANOS,
    MAX_TIMESTAMP_NANOS,
};

fn at(nanos: i128) -> Timestamp {
    Timestamp::from_unix_nanos(nanos).unwrap()
}

#[test]
fn offset_is_zero_outside_development() {
    let offset = time_offset(false, at(1_700_000_000_000_000_000), at(1_600_000_000_000_000_000));
    assert_eq!(offset.nanos(), 0);
}

#[test]
fn offset_rebases_to_ten_minutes_before_start() {
    let start = at(1_700_000_000_000_000_000);
    let created = at(1_600_000_000_123_456_789);
    let offset = time_offset(true, start, created);
    assert_eq!(offset.nanos(), 99_999_399_876_543_211);
    assert_eq!(created.shifted(offset), 1_700_000_000_000_000_000 - 600_000_000_000);
    assert_eq!(LOOKBACK_NANOS, 600_000_000_000);
}

#[test]
fn offset_keeps_durations() {
    let a = at(1_600_000_000_000_000_000);
    let b = at(1_600_000_042_500_000_000);
    let offset = time_offset(true, at(1_700_000_000_000_000_000), a);
    assert_ne!(offset.nanos(), 0);
    assert_eq!(b.shifted(offset) - a.shifted(offset), b.unix_nanos() - a.unix_nanos());
    assert_eq!(b.shifted(offset) - a.shifted(offset), 42_500_000_000);
}

#[test]
fn offset_can_be_negative() {
    let offset = time_offset(true, at(0), at(1_000_000_000));
    assert_eq!(offset.nanos(), -601_000_000_000);
    assert_eq!(at(5).shifted(offset), -600_999_999_995);
}

#[test]
fn timestamp_range_is_checked() {
    assert!(Timestamp::from_unix_nanos(MAX_TIMESTAMP_NANOS).is_some());
    assert!(Timestamp::from_unix_nanos(-MAX_TIMESTAMP_NANOS).is_some());
    assert!(Timestamp::from_unix_nanos(MAX_TIMESTAMP_NANOS + 1).is_none());
    assert!(Timestamp::from_unix_nanos(-MAX_TIMESTAMP_NANOS - 1).is_none());
    assert!(TimeOffset::from_nanos(MAX_OFFSET_NANOS).is_some());
    assert!(TimeOffset::from_nanos(MAX_OFFSET_NANOS + 1).is_none());
    assert!(TimeOffset::from_nanos(-MAX_OFFSET_NANOS - 1).is_none());
    assert_eq!(TimeOffset::zero().nanos(), 0);
}

#[test]
fn offset_of_extreme_timestamps_fits() {
    let offset = time_offset(true, at(MAX_TIMESTAMP_NANOS), at(-MAX_TIMESTAMP_NANOS));
    assert_eq!(offset.nanos(), 2 * MAX_TIMESTAMP_NANOS - LOOKBACK_NANOS);
    assert_eq!(
        at(MAX_TIMESTAMP_NANOS).shifted(offset),
        3 * MAX_TIMESTAMP_NANOS - LOOKBACK_NANOS
    );
}

#[test]
fn nanoseconds_split_into_seconds_and_rest() {
    assert_eq!(seconds_and_nanos(0), (0, 0));
    assert_eq!(seconds_and_nanos(999_999_999), (0, 999_999_999));
    assert_eq!(seconds_and_nanos(1_000_000_000), (1, 0));
    assert_eq!(seconds_and_nanos(1_700_000_000_123_456_789), (1_700_000_000, 123_456_789));
    assert_eq!(seconds_and_nanos(-1), (-1, 999_999_999));
    assert_eq!(seconds_and_nanos(-1_000_000_000), (-1, 0));
    assert_eq!(seconds_and_nanos(-1_000_000_001), (-2, 999_999_999));
    for nanos in [i128::MIN, i128::MIN + 1, -5_000_000_000, 7, i128::MAX] {
        let (seconds, rest) = seconds_and_nanos(nanos);
        assert_eq!(seconds, nanos.div_euclid(1_000_000_000));
        assert_eq!(rest as i128, nanos.rem_euclid(1_000_000_000));
    }
}
