use sqlx_d1::describe::{live_describe_error, map_describe};
use sqlx_d1::error::D1Error;
use sqlx_d1::offline::{cache_file_name, select_sqlite_file, Location};
use sqlx_d1::type_info::D1Type;
use sha2::Digest;

#[test]
fn cache_file_name_is_digest_based() {
    // the digest of the SQL text decides the file name
    let sql = "SELECT id, name FROM users WHERE id = ?";
    let expected = format!("query-{}.json", hex::encode(sha2::Sha256::digest(sql.as_bytes())));
    assert_eq!(cache_file_name(sql), expected);
}

#[test]
fn cache_file_name_known_value() {
    assert_eq!(
        cache_file_name("SELECT 1"),
        "query-e004ebd5b5532a4b85984a62f8ad48a81aa3460c1ca07701f386135d72cdecf5.json"
    );
}

#[test]
fn one_emulator_database_is_found() {
    let files = vec![
        String::from("readme.md"),
        String::from("state.sqlite"),
        String::from("notes.txt"),
    ];
    assert_eq!(select_sqlite_file(&files).unwrap(), "state.sqlite");
}

#[test]
fn zero_emulator_databases_name_the_setup_commands() {
    let files = vec![String::from("readme.md")];
    let err = select_sqlite_file(&files).unwrap_err();
    match err {
        D1Error::Configuration { message } => {
            assert!(message.contains("wrangler d1 migrations create"));
            assert!(message.contains("wrangler d1 migrations apply"));
        },
        other => panic!("expected a configuration error, got {:?}", other),
    }
}

#[test]
fn two_emulator_databases_are_ambiguous() {
    let files = vec![String::from("a.sqlite"), String::from("b.sqlite")];
    let err = select_sqlite_file(&files).unwrap_err();
    match err {
        D1Error::Configuration { message } => {
            assert!(message.contains("multiple"));
        },
        other => panic!("expected a configuration error, got {:?}", other),
    }
}

#[test]
fn discovery_directories_in_probe_order() {
    let loc = Location {
        manifest_dir: String::from("/work/pkg"),
        workspace_root: String::from("/work"),
    };
    assert_eq!(loc.dot_sqlx_dir(), vec!["/work/pkg/.sqlx", "/work/.sqlx"]);
    assert_eq!(
        loc.emulator_dir_candidates(),
        vec![
            "/work/pkg/.wrangler/state/v3/d1/miniflare-D1DatabaseObject",
            "/work/.wrangler/state/v3/d1/miniflare-D1DatabaseObject",
        ]
    );
}

#[test]
fn describe_maps_engine_metadata() {
    let params = vec![String::from("INTEGER"), String::from("TEXT")];
    let cols = vec![
        (String::from("id"), String::from("INTEGER")),
        (String::from("created"), String::from("DATETIME")),
        (String::from("weird"), String::from("GEOMETRY")),
    ];
    let d = map_describe(&params, &cols, vec![Some(false), Some(true), None]);
    assert_eq!(d.parameters.len(), 2);
    assert_eq!(d.parameters[0].kind(), D1Type::Integer);
    assert_eq!(d.parameters[1].kind(), D1Type::Text);
    assert_eq!(d.columns.len(), 3);
    assert_eq!(d.columns[0].ordinal, 0);
    assert_eq!(d.columns[2].ordinal, 2);
    assert_eq!(d.columns[1].name, "created");
    assert_eq!(d.columns[1].type_info.kind(), D1Type::Datetime);
    assert_eq!(d.columns[2].type_info.kind(), D1Type::Blob);
    assert_eq!(d.nullable, vec![Some(false), Some(true), None]);
}

#[test]
fn live_describe_is_unsupported() {
    match live_describe_error() {
        D1Error::Configuration { message } => {
            assert!(message.contains("not supported"));
        },
        other => panic!("expected a configuration error, got {:?}", other),
    }
}
