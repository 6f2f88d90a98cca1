use daml::datetime::{
    CalendarDate, TimeSpan, UtcDateTime, MAX_CE_DAY, MAX_UTC_TIMESTAMP, MIN_CE_DAY, MIN_UTC_TIMESTAMP, UNIX_EPOCH_CE_DAY,
};
use daml::grpc_util::{
    date_from_days, datetime_from_micros, days_from_date, from_grpc_duration, from_grpc_timestamp, to_grpc_duration,
    to_grpc_timestamp, DamlGrpcError, GrpcDuration, GrpcTimestamp, Required,
};

fn failure(e: DamlGrpcError) -> String {
    match e {
        DamlGrpcError::FailedConversion(text) => text,
        DamlGrpcError::MissingRequiredField => panic!("unexpected missing field"),
    }
}

#[test]
fn a_wire_timestamp_becomes_a_date_time_and_back() {
    let ts = GrpcTimestamp { seconds: 1_431_648_000, nanos: 250 };
    let dt = from_grpc_timestamp(&ts).unwrap();
    assert_eq!(dt.timestamp(), 1_431_648_000);
    assert_eq!(dt.nanosecond(), 250);
    assert_eq!(to_grpc_timestamp(dt).unwrap(), ts);
}

#[test]
fn a_timestamp_with_negative_nanos_is_refused() {
    let e = from_grpc_timestamp(&GrpcTimestamp { seconds: 10, nanos: -5 }).unwrap_err();
    assert_eq!(failure(e), "negative nanos -5");
}

#[test]
fn a_timestamp_out_of_range_is_refused() {
    let e = from_grpc_timestamp(&GrpcTimestamp { seconds: i64::MAX, nanos: 0 }).unwrap_err();
    assert_eq!(failure(e), "timestamp (9223372036854775807, 0) out of range");
    let e = from_grpc_timestamp(&GrpcTimestamp { seconds: 0, nanos: 2_000_000_000 }).unwrap_err();
    assert_eq!(failure(e), "timestamp (0, 2000000000) out of range");
}

#[test]
fn the_range_of_date_times_is_exact() {
    assert!(UtcDateTime::from_timestamp(MIN_UTC_TIMESTAMP, 0).is_some());
    assert!(UtcDateTime::from_timestamp(MIN_UTC_TIMESTAMP - 1, 999_999_999).is_none());
    assert!(UtcDateTime::from_timestamp(MAX_UTC_TIMESTAMP, 999_999_999).is_some());
    assert!(UtcDateTime::from_timestamp(MAX_UTC_TIMESTAMP + 1, 0).is_none());
}

#[test]
fn only_the_last_second_of_a_minute_may_be_a_leap_second() {
    let leap = UtcDateTime::from_timestamp(59, 1_500_000_000).unwrap();
    assert_eq!(leap.nanosecond(), 1_500_000_000);
    assert_eq!(to_grpc_timestamp(leap).unwrap(), GrpcTimestamp { seconds: 59, nanos: 1_500_000_000 });
    assert!(UtcDateTime::from_timestamp(58, 1_500_000_000).is_none());
    assert!(UtcDateTime::from_timestamp(-1, 1_000_000_000).is_some());
}

#[test]
fn a_wire_duration_carries_whole_seconds_of_its_nanos() {
    let span = from_grpc_duration(&GrpcDuration { seconds: 5, nanos: 1_500_000_000 }).unwrap();
    assert_eq!(span.as_secs(), 6);
    assert_eq!(span.subsec_nanos(), 500_000_000);
    assert_eq!(to_grpc_duration(&span).unwrap(), GrpcDuration { seconds: 6, nanos: 500_000_000 });
}

#[test]
fn a_negative_duration_is_refused_seconds_first() {
    let e = from_grpc_duration(&GrpcDuration { seconds: -1, nanos: -2 }).unwrap_err();
    assert_eq!(failure(e), "negative seconds -1");
    let e = from_grpc_duration(&GrpcDuration { seconds: 1, nanos: -2 }).unwrap_err();
    assert_eq!(failure(e), "negative nanos -2");
}

#[test]
fn a_span_too_long_for_the_wire_is_refused() {
    let e = to_grpc_duration(&TimeSpan::new(u64::MAX, 0)).unwrap_err();
    assert_eq!(failure(e), "out of range integral type conversion attempted");
    let fits = to_grpc_duration(&TimeSpan::new(i64::MAX as u64, 7)).unwrap();
    assert_eq!(fits, GrpcDuration { seconds: i64::MAX, nanos: 7 });
}

#[test]
fn days_count_from_the_epoch() {
    let epoch = date_from_days(0).unwrap();
    assert_eq!(epoch.num_days_from_ce(), UNIX_EPOCH_CE_DAY);
    assert_eq!(days_from_date(epoch), 0);
    let later = date_from_days(19_000).unwrap();
    assert_eq!(days_from_date(later), 19_000);
    assert_eq!(days_from_date(date_from_days(-719_162).unwrap()), -719_162);
    assert_eq!(date_from_days(-719_162).unwrap().num_days_from_ce(), 1);
}

#[test]
fn the_range_of_dates_is_exact() {
    assert!(CalendarDate::from_num_days_from_ce(MIN_CE_DAY).is_some());
    assert!(CalendarDate::from_num_days_from_ce(MIN_CE_DAY - 1).is_none());
    assert!(CalendarDate::from_num_days_from_ce(MAX_CE_DAY).is_some());
    assert!(CalendarDate::from_num_days_from_ce(MAX_CE_DAY + 1).is_none());
}

#[test]
fn days_out_of_range_are_refused() {
    assert_eq!(failure(date_from_days(i32::MAX).unwrap_err()), "date from days 2147483647 overflowed i32");
    assert_eq!(failure(date_from_days(100_000_000).unwrap_err()), "date from days 100000000 out of range");
    assert_eq!(days_from_date(date_from_days(MAX_CE_DAY - UNIX_EPOCH_CE_DAY).unwrap()), 95_026_236);
}

#[test]
fn microseconds_split_into_seconds_and_nanos() {
    let dt = datetime_from_micros(1_500_000).unwrap();
    assert_eq!((dt.timestamp(), dt.nanosecond()), (1, 500_000_000));
    let before = datetime_from_micros(-1).unwrap();
    assert_eq!((before.timestamp(), before.nanosecond()), (-1, 999_999_000));
    assert_eq!(failure(datetime_from_micros(i64::MAX).unwrap_err()), "datetime from micros 9223372036854775807 out of range");
}

#[test]
fn a_required_value_must_be_there() {
    assert_eq!(Some(3).req().unwrap(), 3);
    assert!(matches!(None::<i32>.req(), Err(DamlGrpcError::MissingRequiredField)));
}
