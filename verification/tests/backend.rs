use fluss_gateway::backend::{
    apply_limit, check_write, fluss_err, projection_indices, hex_encode, lookup_key_row, record_batch_to_json, request_credentials,
    scan_plan, write_result, ColumnDesc, KeyRowError, WriteKind,
};
use fluss_gateway::config::AuthConfig;
use fluss_gateway::server::auth::BasicAuthCredentials;
use fluss_gateway::types::datum::{DataType, Datum, DatumError, JsonNumber, JsonValue};
use fluss_gateway::types::{GatewayError, LookupParams, ScanParams};

#[test]
fn test_hex_encode() {
    assert_eq!(hex_encode(&[0xde, 0xad]), "dead");
    assert_eq!(hex_encode(&[]), "");
}

#[test]
fn hex_encode_all_nibbles() {
    assert_eq!(hex_encode(&[0x01, 0x23, 0x45, 0x67, 0x89, 0xab, 0xcd, 0xef, 0x00, 0xff]), "0123456789abcdef00ff");
}

fn field<'a>(row: &'a JsonValue, name: &str) -> &'a JsonValue {
    match row {
        JsonValue::Object(fields) => &fields.iter().rev().find(|(k, _)| k == name).unwrap().1,
        _ => panic!("not an object"),
    }
}

fn num(v: i64) -> JsonValue {
    JsonValue::Number(JsonNumber { as_i64: Some(v), text: v.to_string() })
}

#[test]
fn test_record_batch_to_json_empty() {
    let names = vec!["id".to_string()];
    let columns: Vec<Vec<JsonValue>> = vec![vec![]];
    let result = record_batch_to_json(&names, &columns, 0);
    assert!(result.is_empty());
}

#[test]
fn test_record_batch_to_json_with_data() {
    let names = vec!["id".to_string(), "name".to_string()];
    let columns = vec![
        vec![num(1), num(2)],
        vec![JsonValue::String("Alice".into()), JsonValue::String("Bob".into())],
    ];
    let result = record_batch_to_json(&names, &columns, 2);
    assert_eq!(result.len(), 2);
    assert!(matches!(field(&result[0], "id"), JsonValue::Number(n) if n.as_i64 == Some(1)));
    assert!(matches!(field(&result[0], "name"), JsonValue::String(s) if s == "Alice"));
    assert!(matches!(field(&result[1], "id"), JsonValue::Number(n) if n.as_i64 == Some(2)));
    assert!(matches!(field(&result[1], "name"), JsonValue::String(s) if s == "Bob"));
}

fn schema() -> Vec<ColumnDesc> {
    vec![
        ColumnDesc { name: "user_id".into(), data_type: DataType::Int },
        ColumnDesc { name: "name".into(), data_type: DataType::String },
        ColumnDesc { name: "active".into(), data_type: DataType::Boolean },
    ]
}

fn params(pairs: &[(&str, &str)]) -> LookupParams {
    LookupParams::new(pairs.iter().map(|(k, v)| (k.to_string(), v.to_string())).collect())
}

#[test]
fn lookup_key_row_sets_key_fields() {
    let row = lookup_key_row(true, &schema(), &Some(vec!["user_id".into()]), &params(&[("user_id", "7")])).unwrap();
    assert_eq!(row.len(), 3);
    assert!(matches!(row[0], Datum::Int32(7)));
    assert!(matches!(row[1], Datum::Null));
    assert!(matches!(row[2], Datum::Null));

    let row = lookup_key_row(
        true,
        &schema(),
        &Some(vec!["active".into(), "user_id".into()]),
        &params(&[("user_id", "1"), ("active", "true")]),
    )
    .unwrap();
    assert!(matches!(row[0], Datum::Int32(1)));
    assert!(matches!(row[2], Datum::Bool(true)));
}

fn bad_request(r: Result<Vec<Datum>, KeyRowError>) -> String {
    match r {
        Err(KeyRowError::Request(GatewayError::BadRequest(m))) => m,
        other => panic!("expected a bad request, got {:?}", other),
    }
}

#[test]
fn lookup_key_row_errors() {
    let missing = lookup_key_row(true, &schema(), &Some(vec!["user_id".into()]), &params(&[]));
    assert_eq!(bad_request(missing), "missing pk column: user_id");

    let unknown = lookup_key_row(true, &schema(), &Some(vec!["uid".into()]), &params(&[("uid", "1")]));
    assert_eq!(bad_request(unknown), "unknown column: uid");

    let bad = lookup_key_row(true, &schema(), &Some(vec!["user_id".into()]), &params(&[("user_id", "x")]));
    match bad {
        Err(KeyRowError::Conversion { column, error: e @ DatumError::Invalid { .. } }) => {
            assert_eq!(column, 0);
            assert_eq!(e.message().unwrap(), "invalid int 'x': invalid digit found in string")
        }
        other => panic!("unexpected {:?}", other),
    }

    match lookup_key_row(false, &schema(), &None, &params(&[])) {
        Err(KeyRowError::Request(e @ GatewayError::BadRequest(_))) => {
            assert_eq!(e.status_code(), 400);
            assert_eq!(e.error_code() / 100, 400);
            assert_eq!(e.to_string(), "bad request: lookup requires a primary key table")
        }
        other => panic!("unexpected {:?}", other),
    }
    match lookup_key_row(true, &schema(), &None, &params(&[])) {
        Err(KeyRowError::Request(GatewayError::BadRequest(m))) => assert_eq!(m, "no primary key defined"),
        other => panic!("unexpected {:?}", other),
    }

    let schema_with_date = vec![
        ColumnDesc { name: "id".into(), data_type: DataType::Int },
        ColumnDesc { name: "day".into(), data_type: DataType::Date },
    ];
    match lookup_key_row(true, &schema_with_date, &Some(vec!["id".into(), "day".into()]), &params(&[("id", "1"), ("day", "x")])) {
        Err(KeyRowError::Conversion { column, error: DatumError::Mismatch }) => assert_eq!(column, 1),
        other => panic!("unexpected {:?}", other),
    }
}

#[test]
fn scan_plans() {
    let p = scan_plan(&ScanParams { projection: None, limit: None, timeout_ms: None }, 3);
    assert_eq!(p.buckets, vec![0, 1, 2]);
    assert_eq!(p.timeout_ms, 5000);
    let p = scan_plan(&ScanParams { projection: Some(vec!["id".to_string()]), limit: Some(1), timeout_ms: Some(250) }, 0);
    assert!(p.buckets.is_empty());
    assert_eq!(p.timeout_ms, 250);
    assert_eq!(apply_limit(vec![1, 2, 3], Some(2)), vec![1, 2]);
    assert_eq!(apply_limit(vec![1, 2, 3], Some(5)), vec![1, 2, 3]);
    assert_eq!(apply_limit(vec![1, 2, 3], None), vec![1, 2, 3]);
}

#[test]
fn writes_by_table_kind() {
    assert!(check_write(WriteKind::Append, false).is_ok());
    assert!(check_write(WriteKind::Upsert, true).is_ok());
    assert!(check_write(WriteKind::Delete, true).is_ok());
    let msg = |k, pk| match check_write(k, pk) {
        Err(GatewayError::InvalidOperation(m)) => m,
        _ => panic!("accepted"),
    };
    assert_eq!(msg(WriteKind::Append, true), "cannot append to a primary key table, use upsert instead");
    assert_eq!(msg(WriteKind::Upsert, false), "cannot upsert to a log table, use append instead");
    assert_eq!(msg(WriteKind::Delete, false), "cannot delete from a log table");
    assert_eq!(write_result(3).row_count, 3);
}

#[test]
fn credentials_per_request() {
    let auth = AuthConfig {
        auth_type: fluss_gateway::config::AuthType::NoAuth,
        startup_username: "admin".into(),
        startup_password: "pw".into(),
    };
    let c = BasicAuthCredentials { username: "u".into(), password: "p".into() };
    assert_eq!(request_credentials(Some(&c), &auth), ("u".to_string(), "p".to_string()));
    assert_eq!(request_credentials(None, &auth), ("admin".to_string(), "pw".to_string()));
}

#[test]
fn test_fluss_err_mapping() {
    let e = fluss::error::Error::IllegalArgument {
        message: "test".into(),
    };
    let ge = fluss_err(e);
    assert!(matches!(ge, GatewayError::FlussError(_)));
    assert_eq!(ge.status_code(), 500);
}

#[test]
fn fluss_err_carries_the_client_message() {
    let e = fluss::error::Error::IllegalArgument {
        message: "bad bucket".into(),
    };
    let text = e.to_string();
    match fluss_err(e) {
        GatewayError::FlussError(m) => {
            assert_eq!(m, text);
            assert!(m.contains("bad bucket"));
        }
        other => panic!("unexpected error {:?}", other),
    }
}

#[test]
fn projection_names_columns() {
    let names: Vec<String> = vec!["id".into(), "name".into(), "email".into()];
    let p: Vec<String> = vec!["email".into(), "id".into()];
    assert_eq!(projection_indices(&names, &p).unwrap(), vec![2, 0]);
    assert!(projection_indices(&names, &vec![]).unwrap().is_empty());
    match projection_indices(&names, &vec!["id".into(), "age".into(), "x".into()]) {
        Err(GatewayError::BadRequest(m)) => assert_eq!(m, "unknown column: age"),
        other => panic!("unexpected {:?}", other),
    }
}
