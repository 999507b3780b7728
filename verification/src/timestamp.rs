//! Points on the UTC time line, held as a count of seconds and nanoseconds.

use chrono::{DateTime, Utc};
use vstd::prelude::*;

verus! {

/// Seconds since the Unix epoch at the first instant that can be held:
/// midnight on January 1 of the year -262143.
pub const MIN_SECS: i64 = -8_334_601_228_800;

/// Seconds since the Unix epoch at the last second that can be held:
/// 23:59:59 on December 31 of the year 262142.
pub const MAX_SECS: i64 = 8_210_266_876_799;

/// The mathematical value of a [`Timestamp`].
pub struct Moment {
    /// Whole non-leap seconds since January 1, 1970 0:00:00 UTC.
    pub secs: int,
    /// Nanoseconds since the last whole second; a value of a billion or more
    /// stands for a leap second.
    pub nanos: int,
}

impl Moment {
    /// Whether this pair of numbers names an instant that can be held: the
    /// second lies between the two bounds, and a leap-second fraction only
    /// follows the last second of a minute.
    pub open spec fn is_representable(self) -> bool {
        &&& MIN_SECS <= self.secs <= MAX_SECS
        &&& 0 <= self.nanos < 2_000_000_000
        &&& (self.nanos >= 1_000_000_000 ==> self.secs % 60 == 59)
    }

    /// `self` is not later than `other`.
    pub open spec fn le(self, other: Moment) -> bool {
        self.secs < other.secs || (self.secs == other.secs && self.nanos <= other.nanos)
    }
}

/// The text of `secs` seconds and `nanos` nanoseconds since the Unix epoch as
/// an RFC 3339 date and time in UTC, with as many fraction digits (none,
/// three, six or nine) as the nanoseconds need.
pub uninterp spec fn rfc3339_utc(secs: int, nanos: int) -> Seq<char>;

/// The RFC 3339 text of a moment.
pub open spec fn rfc3339(at: Moment) -> Seq<char> {
    rfc3339_utc(at.secs, at.nanos)
}

/// Calls `chrono::DateTime::<Utc>::from_timestamp` and, on the value it
/// gives, `DateTime::to_rfc3339`.
///
/// Trusted: `from_timestamp` gives a value exactly for the representable
/// pairs (its day must fall in the years -262143 to 262142, the nanoseconds
/// must stay under two billion, and under one billion unless the second is
/// the last of its minute), and the text is a function of the pair alone.
#[verifier::external_body]
fn format_rfc3339(secs: i64, nanos: u32) -> (text: Option<String>)
    ensures
        text is Some <==> (Moment { secs: secs as int, nanos: nanos as int }).is_representable(),
        text matches Some(s) ==> s@ == rfc3339_utc(secs as int, nanos as int),
{
    match DateTime::<Utc>::from_timestamp(secs, nanos) {
        Some(at) => Some(at.to_rfc3339()),
        None => None,
    }
}

/// Calls `chrono::Utc::now` and reads the value back with
/// `DateTime::timestamp` and `DateTime::timestamp_subsec_nanos`.
///
/// Trusted: `Utc::now` makes its value with `from_timestamp`, from the
/// system clock's distance to the Unix epoch, so the two numbers read back
/// are a representable pair, and the nanoseconds, a fraction of a second,
/// stay under a billion. Nothing is claimed about which instant it is.
/// `Utc::now` panics where the system clock stands before 1970 or beyond
/// the last year that can be held.
#[verifier::external_body]
fn read_utc_clock() -> (reading: (i64, u32))
    ensures
        (Moment { secs: reading.0 as int, nanos: reading.1 as int }).is_representable(),
        reading.1 < 1_000_000_000,
{
    let now = Utc::now();
    (now.timestamp(), now.timestamp_subsec_nanos())
}

/// An instant in UTC without a time zone attached.
#[derive(Clone, Copy, Debug)]
pub struct Timestamp {
    secs: i64,
    nanos: u32,
}

impl View for Timestamp {
    type V = Moment;

    closed spec fn view(&self) -> Moment {
        Moment { secs: self.secs as int, nanos: self.nanos as int }
    }
}

impl Timestamp {
    #[verifier::type_invariant]
    spec fn representable(self) -> bool {
        self@.is_representable()
    }

    /// The timestamp `secs` seconds and `nanos` nanoseconds after the Unix
    /// epoch, if there is one.
    pub fn new(secs: i64, nanos: u32) -> (made: Option<Timestamp>)
        ensures
            made is Some <==> (Moment { secs: secs as int, nanos: nanos as int }).is_representable(),
            made matches Some(t) ==> t@ == (Moment { secs: secs as int, nanos: nanos as int }),
    {
        if secs < MIN_SECS || secs > MAX_SECS || nanos >= 2_000_000_000 {
            return None;
        }
        // MIN_SECS is a whole number of minutes, so the distance to it has
        // the second of the minute as its remainder.
        let second_of_minute: i64 = (secs - MIN_SECS) % 60;
        if nanos >= 1_000_000_000 && second_of_minute != 59 {
            return None;
        }
        Some(Timestamp { secs, nanos })
    }

    /// The current reading of the system clock. It is never inside a leap
    /// second.
    ///
    /// # Panics
    ///
    /// Panics where the system clock stands before 1970 or beyond the last
    /// year that can be held.
    pub fn now() -> (at: Timestamp)
        ensures
            at@.is_representable(),
            at@.nanos < 1_000_000_000,
    {
        let (secs, nanos) = read_utc_clock();
        Timestamp { secs, nanos }
    }

    /// Whole non-leap seconds since the Unix epoch.
    pub fn secs(&self) -> (secs: i64)
        ensures
            secs == self@.secs,
            self@.is_representable(),
    {
        proof {
            use_type_invariant(self);
        }
        self.secs
    }

    /// Nanoseconds since the last whole second.
    pub fn nanos(&self) -> (nanos: u32)
        ensures
            nanos == self@.nanos,
            self@.is_representable(),
    {
        proof {
            use_type_invariant(self);
        }
        self.nanos
    }

    /// This instant as an RFC 3339 date and time in UTC.
    pub fn to_rfc3339(&self) -> (text: String)
        ensures
            text@ == rfc3339(self@),
            self@.is_representable(),
    {
        proof {
            use_type_invariant(self);
        }
        match format_rfc3339(self.secs, self.nanos) {
            Some(text) => text,
            None => vstd::pervasive::unreached(),
        }
    }
}

} // verus!
