use mindustry_mods::date::{
    age, age_label, ago, describe_age, elapsed, from_tt, Error, Lapse, Timestamp,
};

fn lapse(secs: u64, nanos: u32) -> Lapse {
    Lapse::new(secs, nanos).unwrap()
}

fn at(secs: u64, nanos: u32) -> Timestamp {
    Timestamp::new(lapse(secs, nanos))
}

/// 2020-01-01T00:00:00Z in seconds since the epoch.
const NEW_YEAR_2020: u64 = 1_577_836_800;

#[test]
fn lapse_needs_less_than_a_second_of_nanos() {
    assert!(Lapse::new(0, 999_999_999).is_some());
    assert!(Lapse::new(0, 1_000_000_000).is_none());
    assert!(Lapse::new(u64::MAX, u32::MAX).is_none());
    let l = lapse(7, 9);
    assert_eq!(l.secs(), 7);
    assert_eq!(l.nanos(), 9);
}

#[test]
fn lapse_covers_and_minus() {
    assert!(lapse(2, 0).covers(&lapse(1, 999_999_999)));
    assert!(lapse(2, 5).covers(&lapse(2, 5)));
    assert!(!lapse(2, 4).covers(&lapse(2, 5)));
    assert!(!lapse(1, 999_999_999).covers(&lapse(2, 0)));
    assert_eq!(lapse(5, 700).minus(&lapse(2, 300)), lapse(3, 400));
    assert_eq!(lapse(5, 100).minus(&lapse(2, 300)), lapse(2, 999_999_800));
    assert_eq!(lapse(5, 100).minus(&lapse(5, 100)), lapse(0, 0));
    assert_eq!(lapse(u64::MAX, 0).minus(&lapse(0, 1)), lapse(u64::MAX - 1, 999_999_999));
}

#[test]
fn clock_reading_to_timestamp() {
    assert_eq!(from_tt(0), at(0, 0));
    assert_eq!(from_tt(1_500), at(1, 500_000_000));
    assert_eq!(from_tt(999), at(0, 999_000_000));
    assert_eq!(from_tt(4_294_967_295), at(4_294_967, 295_000_000));
}

#[test]
fn clock_reading_keeps_its_milliseconds() {
    assert_eq!(from_tt(1_577_836_800_123), at(NEW_YEAR_2020, 123_000_000));
    assert_eq!(from_tt(4_294_967_296_001), at(4_294_967_296, 1_000_000));
    assert_eq!(from_tt(u64::MAX), at(u64::MAX / 1000, 615_000_000));
    assert_eq!(from_tt(86_400_000).since_epoch().secs(), 86_400);
    assert_eq!(from_tt(86_400_000).since_epoch().nanos(), 0);
}

#[test]
fn elapsed_between_two_times() {
    assert_eq!(elapsed(at(10, 0), at(15, 5)), Ok(lapse(5, 5)));
    assert_eq!(elapsed(at(10, 900), at(11, 100)), Ok(lapse(0, 999_999_200)));
    assert_eq!(elapsed(at(10, 0), at(10, 0)), Ok(lapse(0, 0)));
    assert_eq!(elapsed(at(15, 5), at(10, 0)), Err(Error::Computation(lapse(5, 5))));
    assert_eq!(elapsed(at(10, 1), at(10, 0)), Err(Error::Computation(lapse(0, 1))));
}

#[test]
fn ago_of_a_timestamp() {
    let now = at(NEW_YEAR_2020 + 3 * 86_400, 0);
    assert_eq!(ago("2020-01-01T00:00:00Z", now), Ok(lapse(3 * 86_400, 0)));
    assert_eq!(ago("2020-01-01 00:00:00", now), Ok(lapse(3 * 86_400, 0)));
    assert_eq!(ago("2020-01-03T23:59:59.5Z", now), Ok(lapse(0, 500_000_000)));
    assert_eq!(ago("1970-01-01T00:00:00Z", at(12, 34)), Ok(lapse(12, 34)));
}

#[test]
fn ago_of_what_is_no_timestamp() {
    let now = at(NEW_YEAR_2020, 0);
    assert!(matches!(ago("not a date", now), Err(Error::Formatting(_))));
    assert!(matches!(ago("", now), Err(Error::Formatting(_))));
    assert!(matches!(ago("2020-13-01T00:00:00Z", now), Err(Error::Formatting(_))));
    assert!(matches!(ago("1969-12-31T23:59:59Z", now), Err(Error::Formatting(_))));
    assert!(matches!(ago("2020-01-01T00:00:00+01:00", now), Err(Error::Formatting(_))));
}

#[test]
fn ago_of_a_time_yet_to_come() {
    let now = at(NEW_YEAR_2020, 0);
    assert_eq!(
        ago("2020-01-01T00:00:01Z", now),
        Err(Error::Computation(lapse(1, 0)))
    );
    assert_eq!(
        ago("2020-01-02T00:00:00.25Z", now),
        Err(Error::Computation(lapse(86_400, 250_000_000)))
    );
}

#[test]
fn age_label_keeps_the_largest_unit() {
    assert_eq!(age_label("2months 5days"), "2months ago");
    assert_eq!(age_label("3days"), "3days ago");
    assert_eq!(age_label("0s"), "0s ago");
    assert_eq!(age_label(""), " ago");
    assert_eq!(age_label(" 5m"), " ago");
    assert_eq!(age_label("1year 2h 3m"), "1year ago");
}

#[test]
fn age_as_shown() {
    let now = at(NEW_YEAR_2020 + 3 * 86_400 + 2 * 3_600, 0);
    assert_eq!(age("2020-01-01T00:00:00Z", now), "3days ago");
    assert_eq!(age("2020-01-04T01:30:00Z", now), "30m ago");
    assert_eq!(age("2020-01-04T02:00:00Z", now), "0s ago");
    assert_eq!(age("2019-01-01T00:00:00Z", now), "1year ago");
    assert_eq!(age("2019-11-01T00:00:00Z", now), "2months ago");
    assert_eq!(age("2020-01-04T01:59:59.999Z", now), "1ms ago");
    assert_eq!(age("yesterday", now), "formatting error");
    assert_eq!(age("2021-01-01T00:00:00Z", now), "computation error");
}

#[test]
fn describe_each_outcome() {
    assert_eq!(describe_age(&Ok(lapse(9_420, 0))), "2h ago");
    assert_eq!(describe_age(&Ok(lapse(0, 32_000_000))), "32ms ago");
    assert_eq!(describe_age(&Ok(lapse(86_400, 0))), "1day ago");
    assert_eq!(describe_age(&Err(Error::Computation(lapse(1, 0)))), "computation error");
    let failure = ago("x", at(0, 0));
    assert!(matches!(failure, Err(Error::Formatting(_))));
    assert_eq!(describe_age(&failure), "formatting error");
}
