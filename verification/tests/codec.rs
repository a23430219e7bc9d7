use sqlx_d1::arguments::D1Arguments;
use sqlx_d1::temporal::{DateTimeValue, DateValue, TimeValue};
use sqlx_d1::uuid_value::UuidValue;
use sqlx_d1::error::D1Error;
use sqlx_d1::types::{D1Decode, D1Encode};
use sqlx_d1::value::{HostValue, MAX_SAFE_INTEGER};

fn encode_one<T: D1Encode>(x: &T) -> HostValue {
    let mut buf: Vec<HostValue> = Vec::new();
    x.encode_by_ref(&mut buf).unwrap();
    assert_eq!(buf.len(), 1);
    buf.pop().unwrap()
}

#[test]
fn roundtrip_i64() {
    for x in [0i64, 1, -1, 4096, -4096, MAX_SAFE_INTEGER, -MAX_SAFE_INTEGER] {
        let v = encode_one(&x);
        let back: i64 = D1Decode::decode(&v).unwrap();
        assert_eq!(back, x);
    }
}

#[test]
fn roundtrip_i32_and_u64() {
    let x: i32 = -123456;
    let back: i32 = D1Decode::decode(&encode_one(&x)).unwrap();
    assert_eq!(back, x);

    let y: u64 = 9_007_199_254_740_991;
    let back: u64 = D1Decode::decode(&encode_one(&y)).unwrap();
    assert_eq!(back, y);
}

#[test]
fn roundtrip_bool() {
    let t: bool = D1Decode::decode(&encode_one(&true)).unwrap();
    let f: bool = D1Decode::decode(&encode_one(&false)).unwrap();
    assert!(t);
    assert!(!f);
}

#[test]
fn bool_encodes_as_numeric_one_and_zero() {
    assert_eq!(encode_one(&true), HostValue::Int(1));
    assert_eq!(encode_one(&false), HostValue::Int(0));
}

#[test]
fn roundtrip_text() {
    let s = String::from("héllo wörld");
    let back: String = D1Decode::decode(&encode_one(&s)).unwrap();
    assert_eq!(back, s);
}

#[test]
fn roundtrip_blob() {
    let b: Vec<u8> = vec![0, 1, 2, 254, 255];
    let back: Vec<u8> = D1Decode::decode(&encode_one(&b)).unwrap();
    assert_eq!(back, b);
}

#[test]
fn option_none_encodes_as_single_null() {
    let mut buf: Vec<HostValue> = Vec::new();
    let is_null = None::<i64>.encode_by_ref(&mut buf).unwrap();
    assert!(is_null);
    assert_eq!(buf, vec![HostValue::Null]);
}

#[test]
fn option_some_encodes_exactly_like_inner() {
    let direct = encode_one(&42i64);
    let wrapped = encode_one(&Some(42i64));
    assert_eq!(direct, wrapped);

    let direct = encode_one(&String::from("x"));
    let wrapped = encode_one(&Some(String::from("x")));
    assert_eq!(direct, wrapped);
}

#[test]
fn option_decodes_null_to_none() {
    let r: Option<i64> = D1Decode::decode(&HostValue::Null).unwrap();
    assert_eq!(r, None);
    let r: Option<i64> = D1Decode::decode(&HostValue::Undefined).unwrap();
    assert_eq!(r, None);
    let r: Option<i64> = D1Decode::decode(&HostValue::Int(3)).unwrap();
    assert_eq!(r, Some(3));
}

#[test]
fn unsafe_integer_fails_to_encode() {
    let mut buf: Vec<HostValue> = Vec::new();
    let too_big: i64 = MAX_SAFE_INTEGER + 1;
    assert!(too_big.encode_by_ref(&mut buf).is_err());
    let huge: u64 = u64::MAX;
    assert!(huge.encode_by_ref(&mut buf).is_err());
}

#[test]
fn failed_add_leaves_arguments_untouched() {
    let mut args = D1Arguments::new();
    args.add(&7i64).unwrap();
    args.add(&String::from("keep")).unwrap();
    let before = args.as_values().clone();
    assert_eq!(args.len(), 2);

    let too_big: i64 = MAX_SAFE_INTEGER + 1;
    let err = args.add(&too_big).unwrap_err();
    match err {
        D1Error::Encode { param_index, .. } => assert_eq!(param_index, 2),
        other => panic!("expected an encode error, got {:?}", other),
    }
    assert_eq!(args.len(), 2);
    assert_eq!(args.as_values(), &before);
}

#[test]
fn add_appends_in_order() {
    let mut args = D1Arguments::new();
    args.reserve(3, 0);
    args.add(&1i64).unwrap();
    args.add(&None::<i64>).unwrap();
    args.add(&String::from("s")).unwrap();
    assert_eq!(
        args.as_values(),
        &vec![HostValue::Int(1), HostValue::Null, HostValue::Text(String::from("s"))]
    );
    let owned = args.into_arguments().into_values();
    assert_eq!(owned.len(), 3);
}

#[test]
fn decode_mismatch_reports_value() {
    let v = HostValue::Text(String::from("not a number"));
    let err = <i64 as D1Decode>::decode(&v).unwrap_err();
    match err {
        D1Error::Decode { expected, value } => {
            assert_eq!(expected, "integer");
            assert_eq!(value, v);
        },
        other => panic!("expected a decode error, got {:?}", other),
    }
}

#[test]
fn bool_decode_is_nonzero_test() {
    let t: bool = D1Decode::decode(&HostValue::Int(5)).unwrap();
    assert!(t);
    let f: bool = D1Decode::decode(&HostValue::Int(0)).unwrap();
    assert!(!f);
    let neg_zero: bool = D1Decode::decode(&HostValue::Real((-0.0f64).to_bits())).unwrap();
    assert!(!neg_zero);
    let real: bool = D1Decode::decode(&HostValue::Real(0.5f64.to_bits())).unwrap();
    assert!(real);
    let other: bool = D1Decode::decode(&HostValue::Text(String::from("true"))).unwrap();
    assert!(!other);
}

#[test]
fn roundtrip_narrow_and_pointer_integers() {
    let a: i8 = -7;
    let back: i8 = D1Decode::decode(&encode_one(&a)).unwrap();
    assert_eq!(back, a);
    let b: i16 = -30000;
    let back: i16 = D1Decode::decode(&encode_one(&b)).unwrap();
    assert_eq!(back, b);
    let c: u8 = 255;
    let back: u8 = D1Decode::decode(&encode_one(&c)).unwrap();
    assert_eq!(back, c);
    let d: u16 = 65535;
    let back: u16 = D1Decode::decode(&encode_one(&d)).unwrap();
    assert_eq!(back, d);
    let e: isize = -123456;
    let back: isize = D1Decode::decode(&encode_one(&e)).unwrap();
    assert_eq!(back, e);
    let f: usize = 123456;
    let back: usize = D1Decode::decode(&encode_one(&f)).unwrap();
    assert_eq!(back, f);
}

#[test]
fn narrow_decode_rejects_out_of_range() {
    let v = HostValue::Int(300);
    assert!(<i8 as D1Decode>::decode(&v).is_err());
    assert!(<u8 as D1Decode>::decode(&v).is_err());
    let neg = HostValue::Int(-1);
    assert!(<u64 as D1Decode>::decode(&neg).is_err());
    assert!(<usize as D1Decode>::decode(&neg).is_err());
}

#[test]
fn temporal_and_uuid_bind_through_add() {
    let mut args = D1Arguments::new();
    let dt = DateTimeValue { secs: 1_705_315_800, nanos: 0 };
    let date = DateValue { year: 2024, month: 1, day: 15 };
    let time = TimeValue { hour: 10, minute: 50, second: 0, nanosecond: 0 };
    let uuid = UuidValue { bytes: [7u8; 16] };
    args.add(&dt).unwrap();
    args.add(&date).unwrap();
    args.add(&time).unwrap();
    args.add(&uuid).unwrap();
    let values = args.into_values();
    assert_eq!(values[0], HostValue::Text(String::from("2024-01-15 10:50:00")));
    assert_eq!(values[1], HostValue::Text(String::from("2024-01-15")));
    assert_eq!(values[2], HostValue::Text(String::from("10:50:00")));
    assert_eq!(values[3], HostValue::Bytes(vec![7u8; 16]));

    // the appended entries decode back to the originals
    assert_eq!(DateTimeValue::decode_value(&values[0]).unwrap(), dt);
    assert_eq!(DateValue::decode_value(&values[1]).unwrap(), date);
    assert_eq!(TimeValue::decode_value(&values[2]).unwrap(), time);
    let u: UuidValue = D1Decode::decode(&values[3]).unwrap();
    assert_eq!(u, uuid);
}

#[test]
fn unencodable_temporal_values_leave_arguments_untouched() {
    let mut args = D1Arguments::new();
    args.add(&1i64).unwrap();
    let before = args.as_values().clone();
    let bad = DateValue { year: 2023, month: 2, day: 29 };
    let err = args.add(&bad).unwrap_err();
    match err {
        D1Error::Encode { param_index, .. } => assert_eq!(param_index, 1),
        other => panic!("expected an encode error, got {:?}", other),
    }
    assert_eq!(args.as_values(), &before);
}

#[test]
fn preencoded_values_can_be_pushed() {
    let mut args = D1Arguments::new();
    let u = UuidValue { bytes: [9u8; 16] };
    args.push_value(u.encode_hyphenated());
    assert_eq!(args.len(), 1);
    match &args.as_values()[0] {
        HostValue::Text(t) => assert_eq!(t.len(), 36),
        other => panic!("expected text, got {:?}", other),
    }
}

#[test]
fn host_call_error_carries_message() {
    let e = D1Error::HostCall { message: String::from("boom") };
    match e {
        D1Error::HostCall { message } => assert_eq!(message, "boom"),
        _ => unreachable!(),
    }
}
