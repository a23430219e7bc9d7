use sqlx_d1::type_info::{D1Type, D1TypeInfo};
use sqlx_d1::value::{D1Value, D1ValueRef, HostValue};

#[test]
fn classify_integer() {
    assert_eq!(D1TypeInfo::from_raw(&HostValue::Int(42)).kind(), D1Type::Integer);
}

#[test]
fn classify_real() {
    let v = HostValue::Real(3.14f64.to_bits());
    assert_eq!(D1TypeInfo::from_raw(&v).kind(), D1Type::Real);
}

#[test]
fn classify_text() {
    let v = HostValue::Text(String::from("hi"));
    assert_eq!(D1TypeInfo::from_raw(&v).kind(), D1Type::Text);
}

#[test]
fn classify_null() {
    assert_eq!(D1TypeInfo::from_raw(&HostValue::Null).kind(), D1Type::Null);
}

#[test]
fn classify_boolean_as_integer() {
    assert_eq!(D1TypeInfo::from_raw(&HostValue::Bool(true)).kind(), D1Type::Integer);
}

#[test]
fn classify_bytes_as_blob() {
    let v = HostValue::Bytes(vec![1u8, 2, 3]);
    assert_eq!(D1TypeInfo::from_raw(&v).kind(), D1Type::Blob);
}

#[test]
fn classified_null_iff_loose_null() {
    let values = vec![
        HostValue::Null,
        HostValue::Undefined,
        HostValue::Bool(false),
        HostValue::Int(0),
        HostValue::Real(0u64),
        HostValue::Text(String::new()),
        HostValue::Bytes(Vec::new()),
    ];
    for v in values {
        let classified_null = D1TypeInfo::from_raw(&v).is_null();
        let loose_null = v.is_loose_null();
        assert_eq!(classified_null, loose_null);
    }
}

#[test]
fn undefined_is_loosely_null() {
    assert!(HostValue::Undefined.is_loose_null());
    assert!(HostValue::Null.is_loose_null());
    assert!(!HostValue::Int(0).is_loose_null());
    assert!(!HostValue::Text(String::new()).is_loose_null());
}

#[test]
fn value_wrappers_report_payload() {
    let v = D1Value::from_raw(HostValue::Int(7));
    assert!(!v.is_null());
    assert_eq!(v.type_info().kind(), D1Type::Integer);
    let r: D1ValueRef<'_> = v.as_ref();
    assert_eq!(r.type_info().kind(), D1Type::Integer);
    assert!(!r.is_null());
    let owned = r.to_owned();
    assert_eq!(owned.raw(), &HostValue::Int(7));

    let n = D1Value::null();
    assert!(n.is_null());
    assert!(n.type_info().is_null());
}

#[test]
fn type_info_names() {
    assert_eq!(D1TypeInfo::null().name(), "NULL");
    assert_eq!(D1TypeInfo::text().name(), "TEXT");
    assert_eq!(D1TypeInfo::real_type().name(), "REAL");
    assert_eq!(D1TypeInfo::blob().name(), "BLOB");
    assert_eq!(D1TypeInfo::integer().name(), "INTEGER");
    assert_eq!(D1TypeInfo::unknown().name(), "BLOB");
}

#[test]
fn from_sqlite_name_lookup() {
    assert_eq!(D1TypeInfo::from_sqlite("NULL").kind(), D1Type::Null);
    assert_eq!(D1TypeInfo::from_sqlite("TEXT").kind(), D1Type::Text);
    assert_eq!(D1TypeInfo::from_sqlite("REAL").kind(), D1Type::Real);
    assert_eq!(D1TypeInfo::from_sqlite("BLOB").kind(), D1Type::Blob);
    assert_eq!(D1TypeInfo::from_sqlite("INTEGER").kind(), D1Type::Integer);
    assert_eq!(D1TypeInfo::from_sqlite("NUMERIC").kind(), D1Type::Integer);
    assert_eq!(D1TypeInfo::from_sqlite("BOOLEAN").kind(), D1Type::Boolean);
    assert_eq!(D1TypeInfo::from_sqlite("DATE").kind(), D1Type::Date);
    assert_eq!(D1TypeInfo::from_sqlite("TIME").kind(), D1Type::Time);
    assert_eq!(D1TypeInfo::from_sqlite("DATETIME").kind(), D1Type::Datetime);
    assert_eq!(D1TypeInfo::from_sqlite("SOMETHING ELSE").kind(), D1Type::Blob);
    assert_eq!(D1TypeInfo::from_sqlite("integer").kind(), D1Type::Blob);
}

#[test]
fn weak_compatibility_table() {
    let boolean = D1TypeInfo::boolean();
    let integer = D1TypeInfo::integer();
    let text = D1TypeInfo::text();
    let real = D1TypeInfo::real_type();
    let blob = D1TypeInfo::blob();
    let datetime = D1TypeInfo::datetime();
    let date = D1TypeInfo::date();
    let time = D1TypeInfo::time();

    assert!(boolean.compatible(&integer));
    assert!(boolean.compatible(&boolean));
    assert!(!boolean.compatible(&text));

    assert!(datetime.compatible(&text));
    assert!(datetime.compatible(&integer));
    assert!(datetime.compatible(&real));
    assert!(!datetime.compatible(&blob));

    assert!(date.compatible(&text));
    assert!(!date.compatible(&integer));
    assert!(time.compatible(&text));
    assert!(!time.compatible(&real));

    assert!(integer.compatible(&integer));
    assert!(!integer.compatible(&text));
}
