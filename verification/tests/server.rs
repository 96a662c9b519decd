use fluss_gateway::backend::{request_credentials, WriteKind};
use fluss_gateway::config::{AuthConfig, AuthType};
use fluss_gateway::resilience::HealthStatus;
use fluss_gateway::server::auth::BasicAuthCredentials;
use fluss_gateway::server::rest::{
    body_limit_check, check_database_name, data_type_from_lowercase, deep_health, extract_creds,
    offset_buckets, offsets_response, parse_data_type, parse_offset_spec, partitions_response,
    plan_create_table, prefix_scan, produce_route, produce_rows, row_error_message,
    shallow_health, should_probe_fluss, table_path, OffsetSpecKind,
};
use fluss_gateway::types::datum::{DataType, Datum, DatumError, JsonNumber, JsonValue};
use fluss_gateway::types::{ColumnSpec, CreateTableRequest, GatewayError, PrimaryKeySpec, ProduceRow};

#[test]
fn creds_by_auth_mode() {
    let c = BasicAuthCredentials { username: "u".into(), password: "p".into() };
    assert!(matches!(extract_creds(AuthType::NoAuth, Some(c.clone())), Ok(None)));
    assert!(matches!(extract_creds(AuthType::NoAuth, None), Ok(None)));
    match extract_creds(AuthType::Passthrough, Some(c)) {
        Ok(Some(got)) => assert_eq!(got.username, "u"),
        other => panic!("unexpected {:?}", other),
    }
    match extract_creds(AuthType::Passthrough, None) {
        Err(e @ GatewayError::Unauthorized(_)) => {
            assert_eq!(e.to_string(), "unauthorized: authentication required");
            assert_eq!(e.status_code(), 401);
        }
        other => panic!("unexpected {:?}", other),
    }
}

#[test]
fn health_reports() {
    let h = shallow_health();
    assert_eq!((h.http_status, h.status.as_str()), (200, "ok"));

    let h = deep_health(true, HealthStatus::Healthy);
    assert_eq!((h.http_status, h.status.as_str()), (200, "healthy"));
    assert_eq!(h.fluss.as_deref(), Some("connected"));
    assert_eq!(h.circuit_breaker.as_deref(), Some("healthy"));

    let h = deep_health(false, HealthStatus::Healthy);
    assert_eq!((h.http_status, h.status.as_str()), (200, "degraded"));
    assert_eq!(h.fluss.as_deref(), Some("disconnected"));

    let h = deep_health(true, HealthStatus::Degraded);
    assert_eq!((h.http_status, h.status.as_str()), (200, "degraded"));

    let h = deep_health(false, HealthStatus::Unhealthy);
    assert_eq!((h.http_status, h.status.as_str()), (503, "unhealthy"));
    assert_eq!(h.circuit_breaker.as_deref(), Some("unhealthy"));

    assert!(should_probe_fluss(HealthStatus::Healthy));
    assert!(should_probe_fluss(HealthStatus::Degraded));
    assert!(!should_probe_fluss(HealthStatus::Unhealthy));
}

#[test]
fn offset_specs() {
    assert_eq!(parse_offset_spec(&None, None).unwrap(), OffsetSpecKind::Earliest);
    assert_eq!(parse_offset_spec(&Some("earliest".into()), None).unwrap(), OffsetSpecKind::Earliest);
    assert_eq!(parse_offset_spec(&Some("latest".into()), None).unwrap(), OffsetSpecKind::Latest);
    assert_eq!(parse_offset_spec(&Some("timestamp".into()), Some(42)).unwrap(), OffsetSpecKind::Timestamp(42));
    match parse_offset_spec(&Some("timestamp".into()), None) {
        Err(GatewayError::BadRequest(m)) => assert_eq!(m, "timestamp is required when spec=timestamp"),
        other => panic!("unexpected {:?}", other),
    }
    match parse_offset_spec(&Some("newest".into()), None) {
        Err(GatewayError::BadRequest(m)) => assert_eq!(m, "invalid offset spec: newest"),
        other => panic!("unexpected {:?}", other),
    }
    assert_eq!(offset_buckets(None), vec![0]);
    assert_eq!(offset_buckets(Some(vec![3, 1])), vec![3, 1]);
}

#[test]
fn offset_and_partition_responses() {
    assert_eq!(table_path("db", "t"), "db/t");
    let r = offsets_response("db", "t", None, vec![(0, 10), (1, 20)]);
    assert_eq!(r.table_path, "db/t");
    assert_eq!(r.spec, "earliest");
    assert_eq!(r.offsets.len(), 2);
    assert_eq!((r.offsets[1].bucket_id, r.offsets[1].offset), (1, 20));
    let r = offsets_response("db", "t", Some("latest".into()), vec![]);
    assert_eq!(r.spec, "latest");
    let p = partitions_response("db", "t", vec![]);
    assert_eq!(p.table_path, "db/t");
    assert!(p.partitions.is_empty());
}

#[test]
fn data_type_names() {
    assert_eq!(parse_data_type("INT").unwrap(), DataType::Int);
    assert_eq!(parse_data_type("Varchar").unwrap(), DataType::String);
    assert_eq!(parse_data_type("blob").unwrap(), DataType::Bytes);
    assert_eq!(parse_data_type("i64").unwrap(), DataType::BigInt);
    assert_eq!(data_type_from_lowercase("bool").unwrap(), DataType::Boolean);
    match parse_data_type("DECIMAL") {
        Err(GatewayError::BadRequest(m)) => assert_eq!(m, "unsupported data type: decimal"),
        other => panic!("unexpected {:?}", other),
    }
}

fn column(name: &str, ty: &str) -> ColumnSpec {
    ColumnSpec { name: name.into(), data_type: ty.into(), comment: None }
}

fn table_request(name: &str, schema: Vec<ColumnSpec>) -> CreateTableRequest {
    CreateTableRequest {
        table_name: name.into(),
        schema,
        primary_key: Some(PrimaryKeySpec { constraint_name: None, column_names: vec!["id".into()] }),
        partition_keys: None,
        bucket_count: Some(3),
        bucket_keys: None,
        properties: None,
        comment: Some("users".into()),
        ignore_if_exists: true,
    }
}

#[test]
fn create_table_plans() {
    let plan = plan_create_table(table_request("users", vec![column("id", "INT"), column("name", "string")])).unwrap();
    assert_eq!(plan.table_name, "users");
    assert_eq!(plan.columns.len(), 2);
    assert_eq!(plan.columns[0].data_type, DataType::Int);
    assert_eq!(plan.columns[1].data_type, DataType::String);
    assert_eq!(plan.properties, vec![("table.comment".to_string(), "users".to_string())]);
    assert!(plan.partition_keys.is_empty());
    assert_eq!(plan.bucket_count, Some(3));
    assert!(plan.ignore_if_exists);

    match plan_create_table(table_request("", vec![])) {
        Err(GatewayError::BadRequest(m)) => assert_eq!(m, "table_name is required in request body"),
        other => panic!("unexpected {:?}", other),
    }
    match plan_create_table(table_request("t", vec![column("a", "int"), column("b", "Geo"), column("c", "x")])) {
        Err(GatewayError::BadRequest(m)) => assert_eq!(m, "unsupported data type: geo"),
        other => panic!("unexpected {:?}", other),
    }
}

#[test]
fn database_names() {
    assert!(check_database_name("db").is_ok());
    match check_database_name("") {
        Err(GatewayError::BadRequest(m)) => assert_eq!(m, "database_name is required in request body"),
        other => panic!("unexpected {:?}", other),
    }
}

fn num(v: i64) -> JsonValue {
    JsonValue::Number(JsonNumber { as_i64: Some(v), text: v.to_string() })
}

fn row(values: Vec<JsonValue>, change: Option<&str>) -> ProduceRow {
    ProduceRow { values, change_type: change.map(|c| c.to_string()) }
}

#[test]
fn produce_rows_convert_in_column_order() {
    let columns = vec![DataType::Int, DataType::String, DataType::BigInt];
    let rows = vec![
        row(vec![num(1), JsonValue::String("Alice".into()), num(100)], None),
        row(vec![num(2)], None),
        row(vec![num(3), JsonValue::Null, num(5), num(99)], None),
    ];
    let out = produce_rows(&columns, &rows).unwrap();
    assert_eq!(out.len(), 3);
    assert!(matches!(out[0][0], Datum::Int32(1)));
    assert!(matches!(&out[0][1], Datum::String(s) if s == "Alice"));
    assert!(matches!(out[0][2], Datum::Int64(100)));
    assert!(matches!(out[1][1], Datum::Null));
    assert!(matches!(out[1][2], Datum::Null));
    assert_eq!(out[2].len(), 3);
}

#[test]
fn produce_rows_report_first_bad_value() {
    let columns = vec![DataType::Int, DataType::Boolean];
    let rows = vec![
        row(vec![num(1), JsonValue::Bool(true)], None),
        row(vec![num(2), JsonValue::String("maybe".into())], None),
        row(vec![JsonValue::Bool(false)], None),
    ];
    let e = produce_rows(&columns, &rows).unwrap_err();
    assert_eq!((e.row, e.field), (1, 1));
    assert!(matches!(e.error, DatumError::Invalid { .. }));
    assert_eq!(
        row_error_message(e.row, e.field, &e.error.message().unwrap()),
        "row[1] field[1]: invalid bool 'maybe': provided string was not `true` or `false`"
    );
}

#[test]
fn produce_routing() {
    let plain = vec![row(vec![], None), row(vec![], Some("Insert"))];
    let with_delete = vec![row(vec![], None), row(vec![], Some("Delete"))];
    assert_eq!(produce_route(false, &with_delete), vec![WriteKind::Append, WriteKind::Append]);
    assert_eq!(produce_route(true, &plain), vec![WriteKind::Upsert, WriteKind::Upsert]);
    assert_eq!(produce_route(true, &with_delete), vec![WriteKind::Upsert, WriteKind::Delete]);
    assert_eq!(produce_route(true, &vec![row(vec![], Some("delete"))]), vec![WriteKind::Upsert]);
    assert!(produce_route(true, &vec![]).is_empty());
}

#[test]
fn each_produce_row_follows_its_own_change_type() {
    let rows = vec![
        row(vec![num(1), JsonValue::String("a".into())], None),
        row(vec![num(2), JsonValue::String("b".into())], Some("Delete")),
        row(vec![num(3), JsonValue::String("c".into())], Some("Upsert")),
    ];
    assert_eq!(
        produce_route(true, &rows),
        vec![WriteKind::Upsert, WriteKind::Delete, WriteKind::Upsert]
    );
}

#[test]
fn test_body_within_limit_passes() {
    let body = r#"{"hello":"world"}"#;
    assert!(body_limit_check("POST", Some(&body.len().to_string()), 64).is_ok());
}

#[test]
fn test_body_exceeding_limit_returns_413() {
    let limit = 64;
    let body = format!(r#"{{"data":"{}"}}"#, "a".repeat(200));
    let rejection = body_limit_check("POST", Some(&body.len().to_string()), limit).unwrap_err();
    assert_eq!(rejection.error.status_code(), 413);
    assert_eq!(rejection.error.error_code(), 41301);
    assert!(rejection.error.to_string().contains(&limit.to_string()));
    assert_eq!(rejection.max_body_size_header, limit.to_string());
}

#[test]
fn test_body_exactly_at_limit_passes() {
    let body = r#"{"hello":"world"}"#;
    assert_eq!(body.len(), 17);
    assert!(body_limit_check("POST", Some(&body.len().to_string()), 18).is_ok());
    assert!(body_limit_check("PUT", Some("18"), 18).is_ok());
    assert!(body_limit_check("PUT", Some("19"), 18).is_err());
}

#[test]
fn test_get_request_bypasses_limit() {
    assert!(body_limit_check("GET", Some("1000"), 1).is_ok());
    assert!(body_limit_check("DELETE", Some("1000"), 1).is_ok());
}

#[test]
fn unreadable_content_length_is_not_checked() {
    assert!(body_limit_check("POST", None, 1).is_ok());
    assert!(body_limit_check("POST", Some("lots"), 1).is_ok());
    assert!(body_limit_check("POST", Some("-5"), 1).is_ok());
    assert!(body_limit_check("POST", Some("+5"), 1).is_err());
    assert!(body_limit_check("POST", Some("99999999999999999999999"), 1).is_ok());
}

#[test]
fn prefix_scan_is_not_implemented() {
    match prefix_scan() {
        Err(e @ GatewayError::Internal(_)) => assert_eq!(e.to_string(), "internal error: prefix scan not yet implemented"),
        other => panic!("unexpected {:?}", other),
    }
}

#[test]
fn request_reaches_fluss_with_mode_credentials() {
    let c = BasicAuthCredentials { username: "alice".into(), password: "pw".into() };
    let none = AuthConfig { auth_type: AuthType::NoAuth, startup_username: "boot".into(), startup_password: "secret".into() };
    let used = extract_creds(none.auth_type, Some(c.clone())).unwrap();
    assert_eq!(request_credentials(used.as_ref(), &none), ("boot".to_string(), "secret".to_string()));
    let pass = AuthConfig { auth_type: AuthType::Passthrough, ..none };
    let used = extract_creds(pass.auth_type, Some(c)).unwrap();
    assert_eq!(request_credentials(used.as_ref(), &pass), ("alice".to_string(), "pw".to_string()));
}
