//! Instants, dates and spans of time as plain values, in the ranges that
//! `chrono` and `std::time::Duration` represent.

use vstd::prelude::*;

verus! {

/// The earliest and latest timestamps, in seconds since the epoch, that a
/// UTC date-time may take: the first second of year -262143 and the last of
/// year 262142.
pub const MIN_UTC_TIMESTAMP: i64 = -8_334_601_228_800;

pub const MAX_UTC_TIMESTAMP: i64 = 8_210_266_876_799;

/// The day numbers of the earliest and latest dates, counting January 1 of
/// year 1 as day 1 of the proleptic Gregorian calendar.
pub const MIN_CE_DAY: i32 = -95_746_129;

pub const MAX_CE_DAY: i32 = 95_745_399;

/// The day number of January 1, 1970.
pub const UNIX_EPOCH_CE_DAY: i32 = 719_163;

/// Whether `secs` seconds since the epoch and `nanos` nanoseconds make a
/// date-time: the seconds are in range, and the nanoseconds stay under a
/// second but within the last second of a minute, which may be a leap one.
pub open spec fn utc_valid(secs: int, nanos: int) -> bool {
    &&& MIN_UTC_TIMESTAMP <= secs <= MAX_UTC_TIMESTAMP
    &&& nanos < 2_000_000_000
    &&& (nanos < 1_000_000_000 || secs % 60 == 59)
}

/// `chrono::DateTime::from_timestamp`, read back through `timestamp` and
/// `timestamp_subsec_nanos`: the source gives a date-time exactly when the
/// day of `secs` is a date and the time of day with `nanos` is a time, and
/// documents that the two read back what was given.
#[verifier::external_body]
fn chrono_utc_parts(secs: i64, nanos: u32) -> (r: Option<(i64, u32)>)
    ensures
        r == if utc_valid(secs as int, nanos as int) {
            Some((secs, nanos))
        } else {
            None
        },
{
    match chrono::DateTime::from_timestamp(secs, nanos) {
        Some(d) => Some((d.timestamp(), d.timestamp_subsec_nanos())),
        None => None,
    }
}

/// `chrono::NaiveDate::from_num_days_from_ce_opt`, read back through
/// `num_days_from_ce`: a date exactly for the day numbers of the dates in
/// range, which read back as given.
#[verifier::external_body]
fn chrono_date_day(day: i32) -> (r: Option<i32>)
    ensures
        r == if MIN_CE_DAY <= day <= MAX_CE_DAY {
            Some(day)
        } else {
            None
        },
{
    match chrono::NaiveDate::from_num_days_from_ce_opt(day) {
        Some(d) => Some(chrono::Datelike::num_days_from_ce(&d)),
        None => None,
    }
}

/// `chrono::Datelike::num_days_from_ce` of January 1, 1970, made with
/// `chrono::NaiveDate::from_ymd_opt`: day 719163, as the source's own
/// epoch constant reads.
#[verifier::external_body]
pub(crate) fn chrono_epoch_day() -> (d: i32)
    ensures
        d == UNIX_EPOCH_CE_DAY,
{
    chrono::Datelike::num_days_from_ce(&chrono::NaiveDate::from_ymd_opt(1970, 1, 1).expect("epoch is a valid date"))
}

/// A UTC date-time: seconds since the epoch and nanoseconds since the last
/// whole second, which exceed a second only within a leap second.
#[derive(Clone, Copy, Debug, PartialEq, Eq)]
pub struct UtcDateTime {
    seconds: i64,
    nanos: u32,
}

impl UtcDateTime {
    #[verifier::type_invariant]
    spec fn valid(self) -> bool {
        utc_valid(self.seconds as int, self.nanos as int)
    }

    pub closed spec fn spec_timestamp(self) -> i64 {
        self.seconds
    }

    pub closed spec fn spec_nanos(self) -> u32 {
        self.nanos
    }

    /// The date-time `secs` seconds and `nanos` nanoseconds after the epoch,
    /// where there is one.
    pub fn from_timestamp(secs: i64, nanos: u32) -> (r: Option<Self>)
        ensures
            match r {
                Some(d) => utc_valid(secs as int, nanos as int) && d.spec_timestamp() == secs && d.spec_nanos()
                    == nanos,
                None => !utc_valid(secs as int, nanos as int),
            },
    {
        match chrono_utc_parts(secs, nanos) {
            Some((s, n)) => Some(UtcDateTime { seconds: s, nanos: n }),
            None => None,
        }
    }

    /// Seconds since the epoch.
    pub fn timestamp(&self) -> (t: i64)
        ensures
            t == self.spec_timestamp(),
    {
        self.seconds
    }

    /// Nanoseconds since the last whole second.
    pub fn nanosecond(&self) -> (n: u32)
        ensures
            n == self.spec_nanos(),
            utc_valid(self.spec_timestamp() as int, n as int),
    {
        proof {
            use_type_invariant(self);
        }
        self.nanos
    }
}

/// A date of the proleptic Gregorian calendar, by its day number.
#[derive(Clone, Copy, Debug, PartialEq, Eq)]
pub struct CalendarDate {
    day: i32,
}

impl CalendarDate {
    #[verifier::type_invariant]
    spec fn valid(self) -> bool {
        MIN_CE_DAY <= self.day <= MAX_CE_DAY
    }

    pub closed spec fn spec_day(self) -> i32 {
        self.day
    }

    /// The date of day number `day`, where there is one.
    pub fn from_num_days_from_ce(day: i32) -> (r: Option<Self>)
        ensures
            match r {
                Some(d) => MIN_CE_DAY <= day <= MAX_CE_DAY && d.spec_day() == day,
                None => !(MIN_CE_DAY <= day <= MAX_CE_DAY),
            },
    {
        match chrono_date_day(day) {
            Some(d) => Some(CalendarDate { day: d }),
            None => None,
        }
    }

    /// The day number, January 1 of year 1 being day 1.
    pub fn num_days_from_ce(&self) -> (d: i32)
        ensures
            d == self.spec_day(),
            MIN_CE_DAY <= d <= MAX_CE_DAY,
    {
        proof {
            use_type_invariant(self);
        }
        self.day
    }
}

/// A span of time: whole seconds and the nanoseconds beyond them, under a
/// second.
#[derive(Clone, Copy, Debug, PartialEq, Eq)]
pub struct TimeSpan {
    secs: u64,
    nanos: u32,
}

impl TimeSpan {
    #[verifier::type_invariant]
    spec fn valid(self) -> bool {
        self.nanos < 1_000_000_000
    }

    pub closed spec fn spec_secs(self) -> u64 {
        self.secs
    }

    pub closed spec fn spec_subsec_nanos(self) -> u32 {
        self.nanos
    }

    /// The span of `secs` seconds and `nanos` nanoseconds, whole seconds of
    /// the nanoseconds carried into the seconds.
    pub fn new(secs: u64, nanos: u32) -> (span: Self)
        requires
            secs + nanos / 1_000_000_000 <= u64::MAX,
        ensures
            span.spec_secs() == secs + nanos / 1_000_000_000,
            span.spec_subsec_nanos() == nanos % 1_000_000_000,
    {
        TimeSpan { secs: secs + (nanos / 1_000_000_000) as u64, nanos: nanos % 1_000_000_000 }
    }

    /// The whole seconds.
    pub fn as_secs(&self) -> (s: u64)
        ensures
            s == self.spec_secs(),
    {
        self.secs
    }

    /// The nanoseconds beyond the whole seconds.
    pub fn subsec_nanos(&self) -> (n: u32)
        ensures
            n == self.spec_subsec_nanos(),
            n < 1_000_000_000,
    {
        proof {
            use_type_invariant(self);
        }
        self.nanos
    }
}

} // verus!
