use sqlx_d1::arguments::D1Arguments;
use sqlx_d1::connection::{decode_rows, first_row, BoundStatement, D1Connection};
use sqlx_d1::options::D1ConnectOptions;
use sqlx_d1::statement::D1Statement;
use sqlx_d1::transaction::D1TransactionManager;
use sqlx_d1::value::HostValue;

fn stmt(sql: &str) -> BoundStatement {
    BoundStatement::bind(sql, None)
}

#[test]
fn rollback_discards_everything_unsent() {
    let mut conn = D1Connection::new();
    conn.begin();
    // while batching, nothing is handed out for execution
    assert!(conn.enqueue(stmt("INSERT INTO t VALUES (1)")).is_none());
    assert!(conn.enqueue(stmt("INSERT INTO t VALUES (2)")).is_none());
    conn.rollback();
    // nothing was submitted, and the connection is idle again
    assert!(conn.commit().is_none());
}

#[test]
fn commit_submits_one_batch_in_order() {
    let mut conn = D1Connection::new();
    conn.begin();
    assert!(conn.enqueue(stmt("first")).is_none());
    assert!(conn.enqueue(stmt("second")).is_none());
    let batch = conn.commit().unwrap();
    assert_eq!(batch.len(), 2);
    assert_eq!(batch[0].sql, "first");
    assert_eq!(batch[1].sql, "second");
    // committing again while idle is a no-op success
    assert!(conn.commit().is_none());
}

#[test]
fn idle_statements_execute_at_once() {
    let mut conn = D1Connection::new();
    let out = conn.enqueue(stmt("SELECT 1")).unwrap();
    assert_eq!(out.sql, "SELECT 1");
}

#[test]
fn begin_overwrites_an_open_batch() {
    let mut conn = D1Connection::new();
    conn.begin();
    assert!(conn.enqueue(stmt("lost")).is_none());
    conn.begin();
    assert!(conn.enqueue(stmt("kept")).is_none());
    let batch = conn.commit().unwrap();
    assert_eq!(batch.len(), 1);
    assert_eq!(batch[0].sql, "kept");
}

#[test]
fn transaction_manager_forwards() {
    let mut conn = D1Connection::new();
    D1TransactionManager::begin(&mut conn);
    assert!(conn.enqueue(stmt("a")).is_none());
    D1TransactionManager::rollback(&mut conn);
    assert!(D1TransactionManager::commit(&mut conn).is_none());

    D1TransactionManager::begin(&mut conn);
    assert!(conn.enqueue(stmt("b")).is_none());
    let batch = D1TransactionManager::commit(&mut conn).unwrap();
    assert_eq!(batch.len(), 1);

    D1TransactionManager::begin(&mut conn);
    assert!(conn.enqueue(stmt("dropped")).is_none());
    D1TransactionManager::start_rollback(&mut conn);
    assert!(D1TransactionManager::commit(&mut conn).is_none());
}

#[test]
fn bind_carries_arguments() {
    let mut args = D1Arguments::new();
    args.add(&5i64).unwrap();
    let s = BoundStatement::bind("SELECT ?", Some(args));
    assert_eq!(s.sql, "SELECT ?");
    assert_eq!(s.arguments, vec![HostValue::Int(5)]);

    let bare = BoundStatement::bind("SELECT 1", None);
    assert!(bare.arguments.is_empty());
}

#[test]
fn rows_stream_in_host_order() {
    let raw = vec![
        vec![(String::from("n"), HostValue::Int(1))],
        vec![(String::from("n"), HostValue::Int(2))],
    ];
    let rows = decode_rows(&raw);
    assert_eq!(rows.len(), 2);
    let first: i64 = rows[0].try_get(0).unwrap();
    let second: i64 = rows[1].try_get(0).unwrap();
    assert_eq!((first, second), (1, 2));
}

#[test]
fn optional_fetch_maps_null_to_none() {
    assert!(first_row(None).is_none());
    let row = first_row(Some(vec![(String::from("x"), HostValue::Int(9))])).unwrap();
    let x: i64 = row.try_get_by_name("x").unwrap();
    assert_eq!(x, 9);
}

#[test]
fn statement_keeps_sql() {
    let s = D1Statement::prepare("SELECT * FROM t");
    assert_eq!(s.sql(), "SELECT * FROM t");
    let o = s.to_owned();
    assert_eq!(o.sql(), "SELECT * FROM t");
    assert!(s.parameters().is_none());
    assert!(s.columns().is_empty());
}

#[test]
fn no_toggles_no_script() {
    let opts = D1ConnectOptions::new();
    assert!(opts.connect_script().is_none());
}

#[test]
fn enabled_toggles_join_in_fixed_order() {
    let opts = D1ConnectOptions::new().foreign_keys(true).case_sensitive_like(true);
    let script = opts.connect_script().unwrap();
    assert_eq!(script, "PRAGMA case_sensitive_like = on\nPRAGMA foreign_keys = on");

    let one = D1ConnectOptions::new().recursive_triggers(true);
    assert_eq!(one.connect_script().unwrap(), "PRAGMA recursive_triggers = on");

    let off = D1ConnectOptions::new().foreign_keys(true).foreign_keys(false);
    assert!(off.connect_script().is_none());
}

#[test]
fn url_connection_is_a_configuration_error() {
    let err = D1ConnectOptions::from_url("d1://whatever").unwrap_err();
    match err {
        sqlx_d1::error::D1Error::Configuration { message } => {
            assert!(message.contains("URL"));
        },
        other => panic!("expected a configuration error, got {:?}", other),
    }
}
