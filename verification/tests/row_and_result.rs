use sqlx_d1::error::D1Error;
use sqlx_d1::query_result::D1QueryResult;
use sqlx_d1::row::D1Row;
use sqlx_d1::type_info::D1Type;
use sqlx_d1::value::HostValue;

fn three_column_row() -> D1Row {
    let entries = vec![
        (String::from("id"), HostValue::Int(1)),
        (String::from("name"), HostValue::Text(String::from("ada"))),
        (String::from("blob"), HostValue::Bytes(vec![9u8, 8, 7])),
    ];
    D1Row::from_raw(&entries)
}

#[test]
fn row_decode_invariant() {
    let row = three_column_row();
    let cols = row.columns();
    assert_eq!(cols.len(), 3);
    assert_eq!(row.len(), 3);
    for (i, c) in cols.iter().enumerate() {
        assert_eq!(c.ordinal, i);
    }
    assert_eq!(cols[0].name, "id");
    assert_eq!(cols[1].name, "name");
    assert_eq!(cols[2].name, "blob");
    assert_eq!(cols[0].type_info.kind(), D1Type::Integer);
    assert_eq!(cols[1].type_info.kind(), D1Type::Text);
    assert_eq!(cols[2].type_info.kind(), D1Type::Blob);
}

#[test]
fn empty_record_decodes_to_empty_row() {
    let row = D1Row::from_raw(&Vec::new());
    assert_eq!(row.len(), 0);
    assert!(row.columns().is_empty());
}

#[test]
fn lookup_by_name_finds_first_match() {
    let entries = vec![
        (String::from("x"), HostValue::Int(1)),
        (String::from("dup"), HostValue::Int(2)),
        (String::from("dup"), HostValue::Int(3)),
    ];
    let row = D1Row::from_raw(&entries);
    assert_eq!(row.index_of_name("dup").unwrap(), 1);
    assert_eq!(row.index_of_name("x").unwrap(), 0);
}

#[test]
fn missing_column_reports_name() {
    let row = three_column_row();
    let err = row.index_of_name("missing_col").unwrap_err();
    match err {
        D1Error::ColumnNotFound { name } => assert_eq!(name, "missing_col"),
        other => panic!("expected a column-not-found error, got {:?}", other),
    }
}

#[test]
fn out_of_bounds_index_reports_index_and_len() {
    let row = three_column_row();
    let err = row.index_of_position(5).unwrap_err();
    match err {
        D1Error::ColumnIndexOutOfBounds { index, len } => {
            assert_eq!(index, 5);
            assert_eq!(len, 3);
        },
        other => panic!("expected an out-of-bounds error, got {:?}", other),
    }
    assert!(row.try_get_raw(5).is_err());
    assert_eq!(row.index_of_position(2).unwrap(), 2);
    // one past the last column is already out of range
    assert!(row.index_of_position(3).is_err());
}

#[test]
fn raw_and_typed_access() {
    let row = three_column_row();
    let v = row.try_get_raw(0).unwrap();
    assert_eq!(v.raw(), &HostValue::Int(1));
    let v = row.try_get_raw_by_name("name").unwrap();
    assert_eq!(v.raw(), &HostValue::Text(String::from("ada")));

    let id: i64 = row.try_get(0).unwrap();
    assert_eq!(id, 1);
    let name: String = row.try_get_by_name("name").unwrap();
    assert_eq!(name, "ada");
    let blob: Vec<u8> = row.try_get_by_name("blob").unwrap();
    assert_eq!(blob, vec![9u8, 8, 7]);
    let opt: Option<i64> = row.try_get(0).unwrap();
    assert_eq!(opt, Some(1));
}

#[test]
fn typed_get_reports_exact_errors() {
    let row = three_column_row();

    // out of range: the index and the row length are reported
    let err = row.try_get::<i64>(5).unwrap_err();
    match err {
        D1Error::ColumnIndexOutOfBounds { index, len } => {
            assert_eq!(index, 5);
            assert_eq!(len, 3);
        },
        other => panic!("expected an out-of-bounds error, got {:?}", other),
    }

    // unconvertible: the expected type and the offending value are reported
    let err = row.try_get::<i64>(1).unwrap_err();
    match err {
        D1Error::Decode { expected, value } => {
            assert_eq!(expected, "integer");
            assert_eq!(value, HostValue::Text(String::from("ada")));
        },
        other => panic!("expected a decode error, got {:?}", other),
    }

    // no such column: the name is reported
    let err = row.try_get_by_name::<i64>("missing_col").unwrap_err();
    match err {
        D1Error::ColumnNotFound { name } => assert_eq!(name, "missing_col"),
        other => panic!("expected a column-not-found error, got {:?}", other),
    }

    // a matching column with an unconvertible value
    let err = row.try_get_by_name::<Vec<u8>>("name").unwrap_err();
    match err {
        D1Error::Decode { expected, value } => {
            assert_eq!(expected, "blob");
            assert_eq!(value, HostValue::Text(String::from("ada")));
        },
        other => panic!("expected a decode error, got {:?}", other),
    }
}

#[test]
fn query_result_merges_by_sum_and_overwrite() {
    let mut acc = D1QueryResult::default();
    assert_eq!(acc.rows_affected, 0);
    assert_eq!(acc.last_insert_row_id, 0);

    acc.merge(&D1QueryResult { rows_affected: 2, last_insert_row_id: 10 });
    acc.merge(&D1QueryResult { rows_affected: 3, last_insert_row_id: 42 });
    assert_eq!(acc.rows_affected, 5);
    assert_eq!(acc.last_insert_row_id, 42);

    let more = vec![
        D1QueryResult { rows_affected: 1, last_insert_row_id: 7 },
        D1QueryResult { rows_affected: 4, last_insert_row_id: 99 },
    ];
    acc.extend(&more);
    assert_eq!(acc.rows_affected, 10);
    assert_eq!(acc.last_insert_row_id, 99);

    let none: Vec<D1QueryResult> = Vec::new();
    acc.extend(&none);
    assert_eq!(acc.rows_affected, 10);
    assert_eq!(acc.last_insert_row_id, 99);
}
