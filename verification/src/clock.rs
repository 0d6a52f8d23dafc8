//! Instants of the calendar and spans of processor time.
//!
//! An instant is counted in nanoseconds from 1970-01-01T00:00:00Z, a span in
//! whole microseconds. The calendar itself is the `time` crate's: it says
//! which counts are dates, and how a date is written.

use vstd::prelude::*;

use crate::error::Error;

verus! {

/// The first instant of the calendar, -9999-01-01T00:00:00Z.
pub const MIN_UNIX_NANOS: i128 = -377_705_116_800_000_000_000;

/// The last instant of the calendar, 9999-12-31T23:59:59.999999999Z.
pub const MAX_UNIX_NANOS: i128 = 253_402_300_799_999_999_999;

/// The first instant of the year 0, 0000-01-01T00:00:00Z. RFC 3339 writes a
/// year with four digits and no sign, so nothing earlier has a text.
pub const YEAR_ZERO_UNIX_NANOS: i128 = -62_167_219_200_000_000_000;

/// Whether the calendar has a date for this count of nanoseconds.
pub open spec fn in_calendar(unix_nanos: int) -> bool {
    MIN_UNIX_NANOS <= unix_nanos <= MAX_UNIX_NANOS
}

/// Whether RFC 3339 can write the instant.
pub open spec fn has_rfc3339_text(unix_nanos: int) -> bool {
    YEAR_ZERO_UNIX_NANOS <= unix_nanos <= MAX_UNIX_NANOS
}

/// The RFC 3339 text of an instant in UTC: what
/// `time::OffsetDateTime::format` writes of it in the format `Rfc3339`.
pub uninterp spec fn rfc3339_text(unix_nanos: int) -> Seq<char>;

/// The refusal of `time::OffsetDateTime::from_unix_timestamp_nanos`. Nothing
/// is known of what it holds.
#[verifier::external_type_specification]
#[verifier::external_body]
pub struct ExComponentRange(time::error::ComponentRange);

/// Runs a count of nanoseconds through the calendar and back:
/// `time::OffsetDateTime::from_unix_timestamp_nanos`, then
/// `unix_timestamp_nanos` on the date it made.
///
/// Trusted: the calendar accepts exactly the counts from
/// [`MIN_UNIX_NANOS`] to [`MAX_UNIX_NANOS`], and the date it makes stands for
/// the count it was made from. The bounds are those of the `time` crate
/// built without its feature `large-dates`, as this crate builds it.
#[verifier::external_body]
fn through_calendar(unix_nanos: i128) -> (r: Result<i128, time::error::ComponentRange>)
    ensures
        r.is_ok() <==> in_calendar(unix_nanos as int),
        r matches Ok(n) ==> n == unix_nanos,
{
    match time::OffsetDateTime::from_unix_timestamp_nanos(unix_nanos) {
        Ok(date) => Ok(date.unix_timestamp_nanos()),
        Err(refusal) => Err(refusal),
    }
}

/// Writes an instant with `time::OffsetDateTime::format` in the format
/// `time::format_description::well_known::Rfc3339`.
///
/// Trusted: the text is a function of the instant alone, and there is one
/// exactly for the instants of the years 0 to 9999.
#[verifier::external_body]
pub(crate) fn write_rfc3339(unix_nanos: i128) -> (text: Option<String>)
    ensures
        text.is_some() <==> has_rfc3339_text(unix_nanos as int),
        text matches Some(s) ==> s@ == rfc3339_text(unix_nanos as int),
{
    match time::OffsetDateTime::from_unix_timestamp_nanos(unix_nanos) {
        Ok(date) => date.format(&time::format_description::well_known::Rfc3339).ok(),
        Err(_) => None,
    }
}

/// An instant that the calendar has a date for.
#[derive(Debug, Hash, Clone, Copy, PartialEq, Eq, PartialOrd, Ord)]
pub struct Timestamp {
    unix_nanos: i128,
}

impl View for Timestamp {
    type V = int;

    closed spec fn view(&self) -> int {
        self.unix_nanos as int
    }
}

impl Timestamp {
    #[verifier::type_invariant]
    spec fn dated(self) -> bool {
        in_calendar(self.unix_nanos as int)
    }

    /// The instant `unix_nanos` nanoseconds after 1970-01-01T00:00:00Z, or
    /// before it if the count is negative. A count that the calendar has no
    /// date for is a [`Error::ConversionOverflow`].
    pub fn from_unix_nanos(unix_nanos: i128) -> (r: Result<Timestamp, Error>)
        ensures
            match r {
                Ok(instant) => in_calendar(unix_nanos as int) && instant@ == unix_nanos,
                Err(e) => !in_calendar(unix_nanos as int) && e == Error::ConversionOverflow,
            },
    {
        match through_calendar(unix_nanos) {
            Ok(n) => Ok(Timestamp { unix_nanos: n }),
            Err(_) => Err(Error::ConversionOverflow),
        }
    }

    /// The nanoseconds from 1970-01-01T00:00:00Z to this instant.
    pub fn unix_nanos(&self) -> (n: i128)
        ensures
            n == self@,
            in_calendar(self@),
    {
        proof {
            use_type_invariant(self);
        }
        self.unix_nanos
    }
}

/// A span of processor time in whole microseconds.
#[derive(Debug, Hash, Clone, Copy, PartialEq, Eq, PartialOrd, Ord, Structural)]
pub struct CpuTime {
    micros: u64,
}

impl View for CpuTime {
    type V = nat;

    closed spec fn view(&self) -> nat {
        self.micros as nat
    }
}

impl CpuTime {
    /// The span of `micros` microseconds.
    pub fn from_micros(micros: u64) -> (span: CpuTime)
        ensures
            span@ == micros,
    {
        CpuTime { micros }
    }

    /// The microseconds in the span.
    pub fn as_micros(&self) -> (micros: u64)
        ensures
            micros == self@,
    {
        self.micros
    }
}

} // verus!
