//! Converting between the ledger API's wire timestamps, durations, dates
//! and date-times and the library's own.

use vstd::prelude::*;

use crate::datetime::{
    chrono_epoch_day, utc_valid, CalendarDate, TimeSpan, UtcDateTime, MAX_CE_DAY, MIN_CE_DAY, UNIX_EPOCH_CE_DAY,
};
use crate::text::{int_text, nat_text, spec_int_text, spec_nat_text};

verus! {

/// An error converting to or from a wire value.
#[derive(Debug)]
pub enum DamlGrpcError {
    /// A value that does not convert, and why.
    FailedConversion(String),
    /// A field the format requires is absent.
    MissingRequiredField,
}

pub enum DamlGrpcErrorV {
    FailedConversion(Seq<char>),
    MissingRequiredField,
}

impl View for DamlGrpcError {
    type V = DamlGrpcErrorV;

    open spec fn view(&self) -> DamlGrpcErrorV {
        match self {
            DamlGrpcError::FailedConversion(m) => DamlGrpcErrorV::FailedConversion(m@),
            DamlGrpcError::MissingRequiredField => DamlGrpcErrorV::MissingRequiredField,
        }
    }
}

impl DamlGrpcError {
    pub fn new_failed_conversion(message: String) -> (e: Self)
        ensures
            e@ == DamlGrpcErrorV::FailedConversion(message@),
    {
        DamlGrpcError::FailedConversion(message)
    }
}

pub type DamlGrpcResult<T> = Result<T, DamlGrpcError>;

/// Taking a value the wire model leaves optional but the API requires.
pub trait Required<T>: Sized {
    fn req(self) -> DamlGrpcResult<T>;
}

impl<T> Required<T> for Option<T> {
    fn req(self) -> (r: DamlGrpcResult<T>)
        ensures
            match self {
                Some(v) => r matches Ok(w) && w == v,
                None => r matches Err(e) && e@ == DamlGrpcErrorV::MissingRequiredField,
            },
    {
        match self {
            Some(v) => Ok(v),
            None => Err(DamlGrpcError::MissingRequiredField),
        }
    }
}

/// A wire timestamp: seconds since the epoch and nanoseconds, which the
/// format documents as `0..=999_999_999`.
#[derive(Clone, Copy, Debug, PartialEq, Eq, Structural)]
pub struct GrpcTimestamp {
    pub seconds: i64,
    pub nanos: i32,
}

/// A wire duration: seconds and nanoseconds, both signed.
#[derive(Clone, Copy, Debug, PartialEq, Eq, Structural)]
pub struct GrpcDuration {
    pub seconds: i64,
    pub nanos: i32,
}

/// `what` is negative: the text says which value.
pub open spec fn negative_text(what: Seq<char>, value: int) -> Seq<char> {
    "negative "@ + what + " "@ + spec_int_text(value)
}

fn negative_message(what: &str, value: i64) -> (text: String)
    ensures
        text@ == negative_text(what@, value as int),
{
    let mut text = String::from_str("negative ");
    text.append(what);
    text.append(" ");
    text.append(int_text(value).as_str());
    text
}

pub open spec fn timestamp_range_text(seconds: int, nanos: nat) -> Seq<char> {
    "timestamp ("@ + spec_int_text(seconds) + ", "@ + spec_nat_text(nanos) + ") out of range"@
}

/// The date-time of a wire timestamp: refused when its nanoseconds are
/// negative or it is out of range.
pub fn from_grpc_timestamp(timestamp: &GrpcTimestamp) -> (r: DamlGrpcResult<UtcDateTime>)
    ensures
        timestamp.nanos < 0 ==> (r matches Err(e) && e@ == DamlGrpcErrorV::FailedConversion(
            negative_text("nanos"@, timestamp.nanos as int),
        )),
        timestamp.nanos >= 0 ==> match r {
            Ok(d) => utc_valid(timestamp.seconds as int, timestamp.nanos as int) && d.spec_timestamp()
                == timestamp.seconds && d.spec_nanos() == timestamp.nanos,
            Err(e) => !utc_valid(timestamp.seconds as int, timestamp.nanos as int) && e@
                == DamlGrpcErrorV::FailedConversion(
                timestamp_range_text(timestamp.seconds as int, timestamp.nanos as nat),
            ),
        },
{
    if timestamp.nanos < 0 {
        return Err(DamlGrpcError::new_failed_conversion(negative_message("nanos", timestamp.nanos as i64)));
    }
    let nanos = timestamp.nanos as u32;
    match UtcDateTime::from_timestamp(timestamp.seconds, nanos) {
        Some(d) => Ok(d),
        None => {
            let mut text = String::from_str("timestamp (");
            text.append(int_text(timestamp.seconds).as_str());
            text.append(", ");
            text.append(nat_text(nanos as u64).as_str());
            text.append(") out of range");
            Err(DamlGrpcError::new_failed_conversion(text))
        },
    }
}

/// The wire timestamp of a date-time.
pub fn to_grpc_timestamp(datetime: UtcDateTime) -> (r: DamlGrpcResult<GrpcTimestamp>)
    ensures
        r matches Ok(t) && t.seconds == datetime.spec_timestamp() && t.nanos == datetime.spec_nanos(),
{
    let nanos = datetime.nanosecond();
    Ok(GrpcTimestamp { seconds: datetime.timestamp(), nanos: nanos as i32 })
}

/// The span of a wire duration: refused when either part is negative, the
/// seconds first.
pub fn from_grpc_duration(duration: &GrpcDuration) -> (r: DamlGrpcResult<TimeSpan>)
    ensures
        duration.seconds < 0 ==> (r matches Err(e) && e@ == DamlGrpcErrorV::FailedConversion(
            negative_text("seconds"@, duration.seconds as int),
        )),
        duration.seconds >= 0 && duration.nanos < 0 ==> (r matches Err(e) && e@ == DamlGrpcErrorV::FailedConversion(
            negative_text("nanos"@, duration.nanos as int),
        )),
        duration.seconds >= 0 && duration.nanos >= 0 ==> (r matches Ok(span) && span.spec_secs() == duration.seconds
            + duration.nanos / 1_000_000_000 && span.spec_subsec_nanos() == duration.nanos % 1_000_000_000),
{
    if duration.seconds < 0 {
        return Err(DamlGrpcError::new_failed_conversion(negative_message("seconds", duration.seconds)));
    }
    if duration.nanos < 0 {
        return Err(DamlGrpcError::new_failed_conversion(negative_message("nanos", duration.nanos as i64)));
    }
    Ok(TimeSpan::new(duration.seconds as u64, duration.nanos as u32))
}

/// The text std gives a failed conversion between integer types.
pub open spec fn out_of_range_text() -> Seq<char> {
    "out of range integral type conversion attempted"@
}

/// A `u64` as an `i64` where it fits, and otherwise the text std gives a
/// failed conversion between integer types.
fn u64_to_i64(v: u64) -> (r: Result<i64, String>)
    ensures
        match r {
            Ok(s) => v <= i64::MAX && s == v,
            Err(text) => v > i64::MAX && text@ == out_of_range_text(),
        },
{
    if v <= i64::MAX as u64 {
        Ok(v as i64)
    } else {
        Err(String::from_str("out of range integral type conversion attempted"))
    }
}

/// The wire duration of a span: refused when its seconds do not fit.
pub fn to_grpc_duration(duration: &TimeSpan) -> (r: DamlGrpcResult<GrpcDuration>)
    ensures
        duration.spec_secs() <= i64::MAX ==> (r matches Ok(d) && d.seconds == duration.spec_secs() && d.nanos
            == duration.spec_subsec_nanos()),
        duration.spec_secs() > i64::MAX ==> (r matches Err(e) && e@ == DamlGrpcErrorV::FailedConversion(
            out_of_range_text(),
        )),
{
    let seconds = match u64_to_i64(duration.as_secs()) {
        Ok(s) => s,
        Err(text) => return Err(DamlGrpcError::new_failed_conversion(text)),
    };
    let nanos = duration.subsec_nanos();
    Ok(GrpcDuration { seconds, nanos: nanos as i32 })
}

pub open spec fn days_text(days: int, what: Seq<char>) -> Seq<char> {
    "date from days "@ + spec_int_text(days) + what
}

/// The date `days` days after January 1, 1970: refused when the day number
/// overflows or is not a date.
pub fn date_from_days(days: i32) -> (r: DamlGrpcResult<CalendarDate>)
    ensures
        !(i32::MIN <= days + UNIX_EPOCH_CE_DAY <= i32::MAX) ==> (r matches Err(e) && e@
            == DamlGrpcErrorV::FailedConversion(days_text(days as int, " overflowed i32"@))),
        i32::MIN <= days + UNIX_EPOCH_CE_DAY <= i32::MAX ==> match r {
            Ok(d) => MIN_CE_DAY <= days + UNIX_EPOCH_CE_DAY <= MAX_CE_DAY && d.spec_day() == days + UNIX_EPOCH_CE_DAY,
            Err(e) => !(MIN_CE_DAY <= days + UNIX_EPOCH_CE_DAY <= MAX_CE_DAY) && e@
                == DamlGrpcErrorV::FailedConversion(days_text(days as int, " out of range"@)),
        },
{
    let epoch_ce = chrono_epoch_day();
    let offset = match days.checked_add(epoch_ce) {
        Some(o) => o,
        None => {
            let mut text = String::from_str("date from days ");
            text.append(int_text(days as i64).as_str());
            text.append(" overflowed i32");
            return Err(DamlGrpcError::new_failed_conversion(text));
        },
    };
    match CalendarDate::from_num_days_from_ce(offset) {
        Some(d) => Ok(d),
        None => {
            let mut text = String::from_str("date from days ");
            text.append(int_text(days as i64).as_str());
            text.append(" out of range");
            Err(DamlGrpcError::new_failed_conversion(text))
        },
    }
}

/// The date-time `micros` microseconds after the epoch: refused when out of
/// range.
pub fn datetime_from_micros(micros: i64) -> (r: DamlGrpcResult<UtcDateTime>)
    ensures
        match r {
            Ok(d) => utc_valid(micros / 1_000_000, (micros % 1_000_000) * 1_000) && d.spec_timestamp() == micros
                / 1_000_000 && d.spec_nanos() == (micros % 1_000_000) * 1_000,
            Err(e) => !utc_valid(micros / 1_000_000, (micros % 1_000_000) * 1_000) && e@
                == DamlGrpcErrorV::FailedConversion(
                "datetime from micros "@ + spec_int_text(micros as int) + " out of range"@,
            ),
        },
{
    let secs = micros.checked_div_euclid(1_000_000).unwrap();
    let rem = micros.checked_rem_euclid(1_000_000).unwrap();
    let nanos_part = (rem * 1_000) as u32;
    match UtcDateTime::from_timestamp(secs, nanos_part) {
        Some(d) => Ok(d),
        None => {
            let mut text = String::from_str("datetime from micros ");
            text.append(int_text(micros).as_str());
            text.append(" out of range");
            Err(DamlGrpcError::new_failed_conversion(text))
        },
    }
}

/// The days from January 1, 1970 to `date`.
pub fn days_from_date(date: CalendarDate) -> (days: i32)
    ensures
        days == date.spec_day() - UNIX_EPOCH_CE_DAY,
{
    let epoch = chrono_epoch_day();
    date.num_days_from_ce() - epoch
}

} // verus!
