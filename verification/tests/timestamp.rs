use application::timestamp::{Timestamp, MAX_SECS, MIN_SECS};
use chrono::{DateTime, Utc};

fn text_of(secs: i64, nanos: u32) -> String {
    Timestamp::new(secs, nanos).expect("a representable instant").to_rfc3339()
}

#[test]
fn new_keeps_seconds_and_nanoseconds() {
    let at = Timestamp::new(1_431_648_000, 123_456_789).unwrap();
    assert_eq!(at.secs(), 1_431_648_000);
    assert_eq!(at.nanos(), 123_456_789);
}

#[test]
fn new_accepts_the_first_and_last_second() {
    assert!(Timestamp::new(MIN_SECS, 0).is_some());
    assert!(Timestamp::new(MAX_SECS, 999_999_999).is_some());
    assert!(Timestamp::new(0, 0).is_some());
    assert!(Timestamp::new(-1, 999_999_999).is_some());
}

#[test]
fn the_bounds_are_those_of_the_calendar() {
    assert_eq!(DateTime::<Utc>::MIN_UTC.timestamp(), MIN_SECS);
    assert_eq!(DateTime::<Utc>::MAX_UTC.timestamp(), MAX_SECS);
    assert_eq!(MIN_SECS, -8_334_601_228_800);
    assert_eq!(MAX_SECS, 8_210_266_876_799);
}

#[test]
fn new_refuses_seconds_out_of_range() {
    assert!(Timestamp::new(MIN_SECS - 1, 0).is_none());
    assert!(Timestamp::new(MAX_SECS + 1, 0).is_none());
    assert!(Timestamp::new(i64::MIN, 0).is_none());
    assert!(Timestamp::new(i64::MAX, 0).is_none());
}

#[test]
fn new_takes_a_leap_second_only_after_second_59() {
    assert!(Timestamp::new(59, 1_000_000_000).is_some());
    assert!(Timestamp::new(59, 1_999_999_999).is_some());
    assert!(Timestamp::new(59, 2_000_000_000).is_none());
    assert!(Timestamp::new(58, 1_000_000_000).is_none());
    assert!(Timestamp::new(60, 1_000_000_000).is_none());
    assert!(Timestamp::new(0, 1_000_000_000).is_none());
    assert!(Timestamp::new(0, u32::MAX).is_none());
    // One second before a minute boundary, on either side of the epoch.
    assert!(Timestamp::new(-1, 1_500_000_000).is_some());
    assert!(Timestamp::new(-2, 1_500_000_000).is_none());
    assert!(Timestamp::new(-61, 1_000_000_000).is_some());
    assert!(Timestamp::new(MAX_SECS, 1_999_999_999).is_some());
    assert!(Timestamp::new(MIN_SECS + 59, 1_000_000_000).is_some());
    assert!(Timestamp::new(MIN_SECS, 1_000_000_000).is_none());
}

#[test]
fn new_agrees_with_the_calendar_on_what_can_be_held() {
    let seconds = [
        i64::MIN,
        MIN_SECS - 86_400,
        MIN_SECS - 1,
        MIN_SECS,
        MIN_SECS + 1,
        MIN_SECS + 59,
        -86_401,
        -86_400,
        -61,
        -60,
        -2,
        -1,
        0,
        1,
        58,
        59,
        60,
        119,
        86_399,
        86_400,
        1_431_648_000,
        1_483_228_799,
        MAX_SECS - 60,
        MAX_SECS - 1,
        MAX_SECS,
        MAX_SECS + 1,
        MAX_SECS + 86_400,
        i64::MAX,
    ];
    let fractions = [
        0,
        1,
        999_999_999,
        1_000_000_000,
        1_000_000_001,
        1_999_999_999,
        2_000_000_000,
        u32::MAX,
    ];
    for secs in seconds {
        for nanos in fractions {
            let held = Timestamp::new(secs, nanos);
            let known = DateTime::<Utc>::from_timestamp(secs, nanos);
            assert_eq!(held.is_some(), known.is_some(), "{} s {} ns", secs, nanos);
            if let (Some(held), Some(known)) = (held, known) {
                assert_eq!(held.secs(), known.timestamp());
                assert_eq!(held.nanos(), known.timestamp_subsec_nanos());
                assert_eq!(held.to_rfc3339(), known.to_rfc3339());
            }
        }
    }
}

#[test]
fn rfc3339_of_whole_seconds() {
    assert_eq!(text_of(0, 0), "1970-01-01T00:00:00+00:00");
    assert_eq!(text_of(1_431_648_000, 0), "2015-05-15T00:00:00+00:00");
    assert_eq!(text_of(-1, 0), "1969-12-31T23:59:59+00:00");
}

#[test]
fn rfc3339_writes_as_many_fraction_digits_as_needed() {
    assert_eq!(text_of(1_431_648_000, 500_000_000), "2015-05-15T00:00:00.500+00:00");
    assert_eq!(text_of(1_431_648_000, 1_000_000), "2015-05-15T00:00:00.001+00:00");
    assert_eq!(text_of(1_431_648_000, 1_000), "2015-05-15T00:00:00.000001+00:00");
    assert_eq!(text_of(1_431_648_000, 1), "2015-05-15T00:00:00.000000001+00:00");
    assert_eq!(text_of(1_431_648_000, 123_456_789), "2015-05-15T00:00:00.123456789+00:00");
}

#[test]
fn rfc3339_of_a_leap_second() {
    assert_eq!(text_of(1_483_228_799, 1_000_000_000), "2016-12-31T23:59:60+00:00");
    assert_eq!(text_of(1_483_228_799, 1_250_000_000), "2016-12-31T23:59:60.250+00:00");
}

#[test]
fn rfc3339_of_the_first_and_last_instant() {
    assert_eq!(text_of(MIN_SECS, 0), "-262143-01-01T00:00:00+00:00");
    assert_eq!(text_of(MAX_SECS, 999_999_999), "+262142-12-31T23:59:59.999999999+00:00");
}

#[test]
fn rfc3339_reads_back_as_the_same_instant() {
    let at = Timestamp::new(1_700_000_000, 987_654_321).unwrap();
    let read = DateTime::parse_from_rfc3339(&at.to_rfc3339()).unwrap();
    assert_eq!(read.timestamp(), at.secs());
    assert_eq!(read.timestamp_subsec_nanos(), at.nanos());
    assert_eq!(read.offset().local_minus_utc(), 0);
}

#[test]
fn now_is_a_reading_of_the_clock_outside_a_leap_second() {
    let before = Utc::now();
    let at = Timestamp::now();
    let after = Utc::now();
    assert!(at.nanos() < 1_000_000_000);
    assert!(before.timestamp() <= at.secs());
    assert!(at.secs() <= after.timestamp());
    assert!(Timestamp::new(at.secs(), at.nanos()).is_some());
}

#[test]
fn a_copy_of_a_timestamp_is_the_same_instant() {
    let at = Timestamp::new(42, 7).unwrap();
    let copy = at;
    let clone = at.clone();
    assert_eq!((copy.secs(), copy.nanos()), (42, 7));
    assert_eq!((clone.secs(), clone.nanos()), (42, 7));
}
