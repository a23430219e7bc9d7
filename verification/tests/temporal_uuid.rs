use sqlx_d1::error::D1Error;
use sqlx_d1::row::D1Row;
use sqlx_d1::temporal::{DateTimeValue, DateValue, TimeValue};
use sqlx_d1::uuid_value::UuidValue;
use sqlx_d1::value::HostValue;

#[test]
fn datetime_text_parses_via_primary_path() {
    // the T-separated, offset-free form comes back through the fallback list
    let decoded = DateTimeValue::decode_value(&HostValue::Text(String::from(
        "2024-01-15T10:30:00",
    )))
    .unwrap();
    let expected = chrono::NaiveDateTime::parse_from_str("2024-01-15T10:30:00", "%FT%T")
        .unwrap()
        .and_utc()
        .timestamp();
    assert_eq!(decoded.secs, expected);
    assert_eq!(decoded.nanos, 0);

    // the integer form is epoch seconds and lands on the same instant
    let from_epoch = DateTimeValue::decode_value(&HostValue::Int(expected)).unwrap();
    assert_eq!(from_epoch, decoded);
}

#[test]
fn datetime_rfc3339_offset_is_normalized() {
    let decoded = DateTimeValue::decode_value(&HostValue::Text(String::from(
        "2024-01-15T10:30:00+02:00",
    )))
    .unwrap();
    // the naive-local reading keeps the wall-clock time
    let wall = chrono::NaiveDateTime::parse_from_str("2024-01-15T10:30:00", "%FT%T")
        .unwrap()
        .and_utc()
        .timestamp();
    assert_eq!(decoded.secs, wall);
}

#[test]
fn roundtrip_datetime_with_subseconds() {
    let dt = DateTimeValue { secs: 1_705_315_800, nanos: 500_000_000 };
    let encoded = dt.encode().unwrap();
    match &encoded {
        HostValue::Text(t) => assert_eq!(t, "2024-01-15 10:50:00.500"),
        other => panic!("expected text, got {:?}", other),
    }
    let back = DateTimeValue::decode_value(&encoded).unwrap();
    assert_eq!(back, dt);
}

#[test]
fn roundtrip_datetime_whole_seconds() {
    let dt = DateTimeValue { secs: 0, nanos: 0 };
    let encoded = dt.encode().unwrap();
    let back = DateTimeValue::decode_value(&encoded).unwrap();
    assert_eq!(back, dt);
}

#[test]
fn unparsable_datetime_reports_value() {
    let v = HostValue::Text(String::from("not a datetime"));
    let err = DateTimeValue::decode_value(&v).unwrap_err();
    match err {
        D1Error::Decode { expected, value } => {
            assert_eq!(expected, "datetime");
            assert_eq!(value, v);
        },
        other => panic!("expected a decode error, got {:?}", other),
    }
    // a real-classified (Julian day) payload is not converted here
    assert!(DateTimeValue::decode_value(&HostValue::Real(2_460_325.0f64.to_bits())).is_err());
}

#[test]
fn roundtrip_date() {
    let d = DateValue { year: 2024, month: 2, day: 29 };
    let encoded = d.encode().unwrap();
    match &encoded {
        HostValue::Text(t) => assert_eq!(t, "2024-02-29"),
        other => panic!("expected text, got {:?}", other),
    }
    let back = DateValue::decode_value(&encoded).unwrap();
    assert_eq!(back, d);

    // an impossible calendar date has no encoding
    assert!(DateValue { year: 2023, month: 2, day: 29 }.encode().is_none());
    assert!(DateValue::decode_value(&HostValue::Text(String::from("02/29/2024"))).is_err());
}

#[test]
fn roundtrip_time() {
    let t = TimeValue { hour: 10, minute: 30, second: 0, nanosecond: 0 };
    let encoded = t.encode().unwrap();
    match &encoded {
        HostValue::Text(s) => assert_eq!(s, "10:30:00"),
        other => panic!("expected text, got {:?}", other),
    }
    let back = TimeValue::decode_value(&encoded).unwrap();
    assert_eq!(back, t);

    let with_frac = TimeValue { hour: 23, minute: 59, second: 59, nanosecond: 123_000_000 };
    let encoded = with_frac.encode().unwrap();
    let back = TimeValue::decode_value(&encoded).unwrap();
    assert_eq!(back, with_frac);

    assert!(TimeValue { hour: 25, minute: 0, second: 0, nanosecond: 0 }.encode().is_none());
    assert!(TimeValue::decode_value(&HostValue::Int(5)).is_err());
}

#[test]
fn time_minutes_form_is_accepted() {
    let t = TimeValue::decode_value(&HostValue::Text(String::from("10:30"))).unwrap();
    assert_eq!((t.hour, t.minute, t.second), (10, 30, 0));
}

#[test]
fn typed_row_access_for_temporal_columns() {
    let entries = vec![
        (String::from("created"), HostValue::Text(String::from("2024-01-15 10:50:00"))),
        (String::from("epoch"), HostValue::Int(1_705_315_800)),
        (String::from("day"), HostValue::Text(String::from("2024-01-15"))),
    ];
    let row = D1Row::from_raw(&entries);
    let created: DateTimeValue = row.try_get_by_name("created").unwrap();
    let epoch: DateTimeValue = row.try_get(1).unwrap();
    assert_eq!(created, epoch);
    let day: DateValue = row.try_get_by_name("day").unwrap();
    assert_eq!(day, DateValue { year: 2024, month: 1, day: 15 });
}

fn sample_uuid() -> UuidValue {
    UuidValue {
        bytes: [
            0x55, 0x0e, 0x84, 0x00, 0xe2, 0x9b, 0x41, 0xd4, 0xa7, 0x16, 0x44, 0x66, 0x55, 0x44,
            0x00, 0x00,
        ],
    }
}

#[test]
fn roundtrip_uuid_blob() {
    let u = sample_uuid();
    let encoded = u.encode_blob();
    let back = UuidValue::decode_blob(&encoded).unwrap();
    assert_eq!(back, u);

    // a wrong-sized blob is rejected
    assert!(UuidValue::decode_blob(&HostValue::Bytes(vec![1, 2, 3])).is_err());
}

#[test]
fn roundtrip_uuid_hyphenated() {
    let u = sample_uuid();
    let encoded = u.encode_hyphenated();
    match &encoded {
        HostValue::Text(t) => assert_eq!(t, "550e8400-e29b-41d4-a716-446655440000"),
        other => panic!("expected text, got {:?}", other),
    }
    let back = UuidValue::decode_text(&encoded).unwrap();
    assert_eq!(back, u);
}

#[test]
fn roundtrip_uuid_simple() {
    let u = sample_uuid();
    let encoded = u.encode_simple();
    match &encoded {
        HostValue::Text(t) => assert_eq!(t, "550e8400e29b41d4a716446655440000"),
        other => panic!("expected text, got {:?}", other),
    }
    let back = UuidValue::decode_text(&encoded).unwrap();
    assert_eq!(back, u);
}

#[test]
fn uuid_parser_accepts_both_text_forms() {
    let hyph = UuidValue::decode_text(&HostValue::Text(String::from(
        "550e8400-e29b-41d4-a716-446655440000",
    )))
    .unwrap();
    let simple = UuidValue::decode_text(&HostValue::Text(String::from(
        "550e8400e29b41d4a716446655440000",
    )))
    .unwrap();
    assert_eq!(hyph, simple);
    assert_eq!(hyph, sample_uuid());

    assert!(UuidValue::decode_text(&HostValue::Text(String::from("zz"))).is_err());
    assert!(UuidValue::decode_text(&HostValue::Int(4)).is_err());
}
