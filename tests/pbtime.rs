use wkt_types::calendar::{UtcDateTime, CHRONO_MAX_SECONDS, CHRONO_MIN_SECONDS};
use wkt_types::duration::{Duration, Interval};
use wkt_types::error::TimeError;
use wkt_types::sql::PG_EPOCH_MICROS;
use wkt_types::timestamp::{Timestamp, MAX_SECONDS, MIN_SECONDS};

#[test]
fn serialize_duration() {
    let duration = Duration {
        seconds: 10,
        nanos: 100,
    };
    let mut obj = serde_json::Map::new();
    obj.insert("seconds".to_string(), serde_json::Value::from(duration.seconds));
    obj.insert("nanos".to_string(), serde_json::Value::from(duration.nanos));
    let json = serde_json::to_string_pretty(&serde_json::Value::Object(obj)).expect("json");
    println!("{json}");
    let value: serde_json::Value = serde_json::from_str(&json).expect("duration");
    let back = Duration {
        seconds: value["seconds"].as_i64().expect("seconds"),
        nanos: value["nanos"].as_i64().expect("nanos") as i32,
    };
    assert_eq!(duration, back);
}

#[test]
fn invalid_timestamp_test() {
    let ts = Timestamp {
        seconds: 10,
        nanos: 2000000000,
    };
    let datetime_utc = ts.to_datetime().expect("in range");
    println!("{datetime_utc:?}");
    assert_eq!(datetime_utc.timestamp(), 12);
    assert_eq!(datetime_utc.timestamp_subsec_nanos(), 0);
}

#[test]
fn test_duration_conversion_pb_to_chrono() {
    let duration = Duration {
        seconds: 10,
        nanos: 100,
    };
    let interval = duration.to_interval();
    let chrono_duration = chrono::Duration::nanoseconds(interval.nanos as i64);
    assert_eq!(chrono_duration.num_seconds(), 10);
    assert_eq!((chrono_duration - chrono::Duration::seconds(10)).num_nanoseconds(), Some(100));
}

#[test]
fn test_duration_conversion_chrono_to_pb() {
    let chrono_duration = chrono::Duration::seconds(10) + chrono::Duration::nanoseconds(100);
    let interval = Interval {
        nanos: chrono_duration.num_nanoseconds().expect("nanos") as i128,
    };
    let duration = Duration::from_interval(interval).expect("fits");
    assert_eq!(duration.seconds, 10);
    assert_eq!(duration.nanos, 100);
}

#[test]
fn interval_of_duration_is_exact() {
    let d = Duration { seconds: 10, nanos: 100 };
    assert_eq!(d.to_interval(), Interval { nanos: 10_000_000_100 });
    let neg = Duration { seconds: -3, nanos: -5 };
    assert_eq!(neg.to_interval(), Interval { nanos: -3_000_000_005 });
}

#[test]
fn duration_of_interval_is_exact() {
    assert_eq!(Duration::from_interval(Interval { nanos: 10_000_000_100 }), Ok(Duration { seconds: 10, nanos: 100 }));
    assert_eq!(Duration::from_interval(Interval { nanos: -1_500_000_000 }), Ok(Duration { seconds: -1, nanos: -500_000_000 }));
    assert_eq!(Duration::from_interval(Interval { nanos: -7 }), Ok(Duration { seconds: 0, nanos: -7 }));
}

#[test]
fn interval_too_large_for_duration() {
    let big = (i64::MAX as i128 + 1) * 1_000_000_000;
    assert_eq!(
        Duration::from_interval(Interval { nanos: big }),
        Err(TimeError::IntervalOutOfRange { total_nanos: big })
    );
    assert!(Duration::from_interval(Interval { nanos: i128::MIN }).is_err());
}

#[test]
fn interval_round_trip_keeps_value() {
    for d in [
        Duration { seconds: 0, nanos: 0 },
        Duration { seconds: 5, nanos: 999_999_999 },
        Duration { seconds: -5, nanos: -1 },
        Duration { seconds: i64::MAX, nanos: 999_999_999 },
        Duration { seconds: i64::MIN, nanos: -999_999_999 },
    ] {
        let i = d.to_interval();
        let back = Duration::from_interval(i).expect("fits");
        assert_eq!(back.to_interval(), i);
        assert_eq!(back, d);
    }
}

#[test]
fn timestamp_normalize_carries_and_borrows() {
    let mut a = Timestamp { seconds: 10, nanos: 2_000_000_000 };
    a.normalize();
    assert_eq!(a, Timestamp { seconds: 12, nanos: 0 });
    let mut b = Timestamp { seconds: 0, nanos: -1 };
    b.normalize();
    assert_eq!(b, Timestamp { seconds: -1, nanos: 999_999_999 });
    let mut c = Timestamp { seconds: 5, nanos: -1_500_000_000 };
    c.normalize();
    assert_eq!(c, Timestamp { seconds: 3, nanos: 500_000_000 });
}

#[test]
fn timestamp_normalize_saturates() {
    let mut hi = Timestamp { seconds: i64::MAX, nanos: 1_000_000_000 };
    hi.normalize();
    assert_eq!(hi, Timestamp { seconds: i64::MAX, nanos: 999_999_999 });
    let mut lo = Timestamp { seconds: i64::MIN, nanos: -1 };
    lo.normalize();
    assert_eq!(lo, Timestamp { seconds: i64::MIN, nanos: 0 });
}

#[test]
fn timestamp_normalize_is_idempotent() {
    for t in [
        Timestamp { seconds: 7, nanos: -2_100_000_000 },
        Timestamp { seconds: i64::MIN, nanos: i32::MIN },
        Timestamp { seconds: i64::MAX, nanos: i32::MAX },
    ] {
        let mut once = t;
        once.normalize();
        let mut twice = once;
        twice.normalize();
        assert_eq!(once, twice);
        assert!(0 <= once.nanos && once.nanos < 1_000_000_000);
    }
}

#[test]
fn duration_normalize_aligns_signs() {
    let mut a = Duration { seconds: -1, nanos: 500_000_000 };
    a.normalize();
    assert_eq!(a, Duration { seconds: 0, nanos: -500_000_000 });
    let mut b = Duration { seconds: 2, nanos: -1 };
    b.normalize();
    assert_eq!(b, Duration { seconds: 1, nanos: 999_999_999 });
    let mut c = Duration { seconds: 1, nanos: 2_000_000_001 };
    c.normalize();
    assert_eq!(c, Duration { seconds: 3, nanos: 1 });
    let mut twice = c;
    twice.normalize();
    assert_eq!(twice, c);
}

#[test]
fn duration_normalize_saturates() {
    let mut hi = Duration { seconds: i64::MAX, nanos: 1_000_000_000 };
    hi.normalize();
    assert_eq!(hi, Duration { seconds: i64::MAX, nanos: 999_999_999 });
    let mut lo = Duration { seconds: i64::MIN, nanos: -1_000_000_000 };
    lo.normalize();
    assert_eq!(lo, Duration { seconds: i64::MIN, nanos: -999_999_999 });
}

#[test]
fn serialize_known_instant() {
    let t = Timestamp { seconds: 1_700_000_000, nanos: 123_456_789 };
    let text = t.serialize().expect("text");
    assert_eq!(text, "2023-11-14T22:13:20.123456789Z");
    assert_eq!(Timestamp::deserialize(&text), Ok(t));
}

#[test]
fn serialize_normalizes_first() {
    let t = Timestamp { seconds: 10, nanos: 2_000_000_000 };
    assert_eq!(t.serialize().expect("text"), "1970-01-01T00:00:12Z");
}

#[test]
fn text_round_trip_gives_normalized() {
    for t in [
        Timestamp { seconds: MIN_SECONDS, nanos: 0 },
        Timestamp { seconds: MAX_SECONDS, nanos: 999_999_999 },
        Timestamp { seconds: -1, nanos: 1_500_000_000 },
        Timestamp { seconds: 0, nanos: 120_000_000 },
    ] {
        let mut n = t;
        n.normalize();
        let text = t.serialize().expect("text");
        assert_eq!(Timestamp::deserialize(&text), Ok(n));
    }
}

#[test]
fn serialize_off_calendar_fails() {
    let t = Timestamp { seconds: i64::MAX, nanos: 0 };
    assert_eq!(t.serialize(), Err(TimeError::InstantOutOfRange { seconds: i64::MAX, nanos: 0 }));
}

#[test]
fn deserialize_converts_offset_to_utc() {
    let t = Timestamp::deserialize("1970-01-01T01:00:00.5+01:00").expect("parsed");
    assert_eq!(t, Timestamp { seconds: 0, nanos: 500_000_000 });
}

#[test]
fn deserialize_rejects_missing_offset() {
    let err = Timestamp::deserialize("2023-11-14T22:13:20").unwrap_err();
    match err {
        TimeError::Parse { input, reason } => {
            assert_eq!(input, "2023-11-14T22:13:20");
            assert!(!reason.is_empty());
        }
        other => panic!("unexpected {other:?}"),
    }
}

#[test]
fn deserialize_rejects_year_zero() {
    let err = Timestamp::deserialize("0000-06-01T00:00:00Z").unwrap_err();
    assert!(matches!(err, TimeError::Parse { .. }));
    assert_eq!(err.message(), "outside the protobuf Timestamp range");
}

#[test]
fn from_parsed_handles_leap_nanos() {
    assert_eq!(Timestamp::from_parsed(59, 1_500_000_000), Some(Timestamp { seconds: 60, nanos: 500_000_000 }));
    assert_eq!(Timestamp::from_parsed(MAX_SECONDS + 1, 0), None);
    assert_eq!(Timestamp::from_parsed(MIN_SECONDS - 1, 999_999_999), None);
}

#[test]
fn calendar_bounds() {
    assert!(UtcDateTime::from_parts(CHRONO_MIN_SECONDS, 0).is_some());
    assert!(UtcDateTime::from_parts(CHRONO_MAX_SECONDS, 999_999_999).is_some());
    assert!(UtcDateTime::from_parts(CHRONO_MIN_SECONDS - 1, 0).is_none());
    assert!(UtcDateTime::from_parts(CHRONO_MAX_SECONDS + 1, 0).is_none());
    assert!(UtcDateTime::from_parts(0, 1_000_000_000).is_none());
}

#[test]
fn datetime_to_timestamp() {
    let dt = UtcDateTime::from_parts(-5, 7).expect("instant");
    assert_eq!(Timestamp::from_datetime(dt), Timestamp { seconds: -5, nanos: 7 });
    let off = Timestamp { seconds: CHRONO_MAX_SECONDS + 1, nanos: 0 };
    assert!(matches!(off.to_datetime(), Err(TimeError::InstantOutOfRange { .. })));
}

#[test]
fn sql_unix_epoch() {
    let t = Timestamp { seconds: 0, nanos: 0 };
    let m = t.to_sql();
    assert_eq!(m, -946_728_000_000_000);
    assert_eq!(Timestamp::from_sql(m), Ok(t));
}

#[test]
fn sql_epoch_constant_maps_to_zero() {
    assert_eq!(Timestamp { seconds: 946_728_000, nanos: 0 }.to_sql(), 0);
    assert_eq!(Timestamp::from_sql(0), Ok(Timestamp { seconds: 946_728_000, nanos: 0 }));
    assert_eq!(Timestamp { seconds: 946_684_800, nanos: 0 }.to_sql(), -43_200_000_000);
}

#[test]
fn sql_drops_sub_microseconds() {
    let t = Timestamp { seconds: 1, nanos: 123_456_789 };
    assert_eq!(t.to_sql(), 1_123_456 - PG_EPOCH_MICROS);
}

#[test]
fn sql_decode_floors_negative_instants() {
    let m = -1 - PG_EPOCH_MICROS;
    assert_eq!(Timestamp::from_sql(m), Ok(Timestamp { seconds: -1, nanos: 999_999_000 }));
}

#[test]
fn sql_round_trip_on_micro_aligned() {
    for t in [
        Timestamp { seconds: MIN_SECONDS, nanos: 0 },
        Timestamp { seconds: MAX_SECONDS, nanos: 999_999_000 },
        Timestamp { seconds: -12_345, nanos: 1_000 },
        Timestamp { seconds: 1_700_000_000, nanos: 123_456_000 },
    ] {
        assert_eq!(Timestamp::from_sql(t.to_sql()), Ok(t));
    }
}

#[test]
fn sql_decode_out_of_range() {
    let over = 253_402_300_800_000_000 - PG_EPOCH_MICROS;
    assert_eq!(Timestamp::from_sql(over), Err(TimeError::OffsetOutOfRange { micros: over }));
    let under = -62_135_596_800_000_001 - PG_EPOCH_MICROS;
    assert_eq!(Timestamp::from_sql(under), Err(TimeError::OffsetOutOfRange { micros: under }));
    assert!(Timestamp::from_sql(i64::MAX).is_err());
    assert!(Timestamp::from_sql(i64::MIN).is_err());
    assert_eq!(
        Timestamp::from_sql(i64::MAX).unwrap_err().message(),
        "value outside protobuf Timestamp range"
    );
}
