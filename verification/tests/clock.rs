use thread_census::clock::{MAX_UNIX_NANOS, MIN_UNIX_NANOS, YEAR_ZERO_UNIX_NANOS};
use thread_census::{fmt_offsetdatetime, CpuTime, Error, Timestamp};
use time::format_description::well_known::Rfc3339;
use time::{OffsetDateTime, PrimitiveDateTime};

#[test]
fn it_works() {
    let result = 2 + 2;
    assert_eq!(result, 4);
}

#[test]
fn an_instant_keeps_its_count() {
    let instant = Timestamp::from_unix_nanos(1_704_067_200_000_000_000).unwrap();
    assert_eq!(instant.unix_nanos(), 1_704_067_200_000_000_000);
    let early = Timestamp::from_unix_nanos(-1).unwrap();
    assert_eq!(early.unix_nanos(), -1);
}

#[test]
fn the_calendar_ends_with_the_year_9999() {
    assert_eq!(MAX_UNIX_NANOS, 253_402_300_799_999_999_999);
    assert_eq!(Timestamp::from_unix_nanos(MAX_UNIX_NANOS).unwrap().unix_nanos(), MAX_UNIX_NANOS);
    assert_eq!(
        Timestamp::from_unix_nanos(MAX_UNIX_NANOS + 1).unwrap_err(),
        Error::ConversionOverflow
    );
    assert_eq!(Timestamp::from_unix_nanos(i128::MAX).unwrap_err(), Error::ConversionOverflow);
}

#[test]
fn the_calendar_begins_with_the_year_minus_9999() {
    assert_eq!(MIN_UNIX_NANOS, -377_705_116_800_000_000_000);
    assert_eq!(Timestamp::from_unix_nanos(MIN_UNIX_NANOS).unwrap().unix_nanos(), MIN_UNIX_NANOS);
    assert_eq!(
        Timestamp::from_unix_nanos(MIN_UNIX_NANOS - 1).unwrap_err(),
        Error::ConversionOverflow
    );
    assert_eq!(Timestamp::from_unix_nanos(i128::MIN).unwrap_err(), Error::ConversionOverflow);
}

#[test]
fn the_bounds_are_those_of_the_calendar() {
    assert_eq!(PrimitiveDateTime::MIN.assume_utc().unix_timestamp_nanos(), MIN_UNIX_NANOS);
    assert_eq!(PrimitiveDateTime::MAX.assume_utc().unix_timestamp_nanos(), MAX_UNIX_NANOS);
    let year_zero = OffsetDateTime::from_unix_timestamp_nanos(YEAR_ZERO_UNIX_NANOS).unwrap();
    assert_eq!(year_zero.year(), 0);
    assert_eq!(year_zero.ordinal(), 1);
    assert_eq!(year_zero.time(), time::Time::MIDNIGHT);
}

#[test]
fn rfc3339_of_a_new_year() {
    let instant = Timestamp::from_unix_nanos(1_704_067_200_000_000_000).unwrap();
    assert_eq!(fmt_offsetdatetime(&instant), Some(String::from("2024-01-01T00:00:00Z")));
}

#[test]
fn rfc3339_of_the_unix_epoch() {
    let instant = Timestamp::from_unix_nanos(0).unwrap();
    assert_eq!(fmt_offsetdatetime(&instant), Some(String::from("1970-01-01T00:00:00Z")));
}

#[test]
fn rfc3339_keeps_the_fraction_of_a_second() {
    let instant = Timestamp::from_unix_nanos(1_704_067_200_123_456_700).unwrap();
    assert_eq!(fmt_offsetdatetime(&instant), Some(String::from("2024-01-01T00:00:00.1234567Z")));
}

#[test]
fn rfc3339_at_both_ends() {
    let first = Timestamp::from_unix_nanos(YEAR_ZERO_UNIX_NANOS).unwrap();
    assert_eq!(fmt_offsetdatetime(&first), Some(String::from("0000-01-01T00:00:00Z")));
    let last = Timestamp::from_unix_nanos(MAX_UNIX_NANOS).unwrap();
    assert_eq!(fmt_offsetdatetime(&last), Some(String::from("9999-12-31T23:59:59.999999999Z")));
}

#[test]
fn rfc3339_has_no_text_before_the_year_zero() {
    let before = Timestamp::from_unix_nanos(YEAR_ZERO_UNIX_NANOS - 1).unwrap();
    assert_eq!(fmt_offsetdatetime(&before), None);
    let first = Timestamp::from_unix_nanos(MIN_UNIX_NANOS).unwrap();
    assert_eq!(fmt_offsetdatetime(&first), None);
}

#[test]
fn rfc3339_is_what_the_calendar_writes() {
    for nanos in [-11_644_473_600_000_000_000i128, -1, 1, 951_782_400_000_000_100] {
        let instant = Timestamp::from_unix_nanos(nanos).unwrap();
        let date = OffsetDateTime::from_unix_timestamp_nanos(nanos).unwrap();
        assert_eq!(fmt_offsetdatetime(&instant), Some(date.format(&Rfc3339).unwrap()));
    }
}

#[test]
fn instants_are_ordered_by_their_count() {
    let earlier = Timestamp::from_unix_nanos(-5).unwrap();
    let later = Timestamp::from_unix_nanos(7).unwrap();
    assert!(earlier < later);
    assert_eq!(earlier, Timestamp::from_unix_nanos(-5).unwrap());
}

#[test]
fn a_span_keeps_its_microseconds() {
    assert_eq!(CpuTime::from_micros(0).as_micros(), 0);
    assert_eq!(CpuTime::from_micros(1_500_000).as_micros(), 1_500_000);
    assert_eq!(CpuTime::from_micros(u64::MAX).as_micros(), u64::MAX);
    assert!(CpuTime::from_micros(1) < CpuTime::from_micros(2));
}
