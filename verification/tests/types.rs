use fluss_gateway::types::datum::{json_to_datum, DataType, Datum, DatumError, FloatSource, JsonNumber, JsonValue};
use fluss_gateway::types::{GatewayError, LookupParams};

fn number(v: i64) -> JsonValue {
    JsonValue::Number(JsonNumber { as_i64: Some(v), text: v.to_string() })
}

fn text(s: &str) -> JsonValue {
    JsonValue::String(s.to_string())
}

#[test]
fn test_error_status_codes() {
    assert_eq!(GatewayError::BadRequest("x".into()).status_code(), 400);
    assert_eq!(GatewayError::InvalidOperation("x".into()).status_code(), 422);
    assert_eq!(GatewayError::FlussError("x".into()).status_code(), 500);
    assert_eq!(GatewayError::Internal("x".into()).status_code(), 500);
}

#[test]
fn test_error_codes() {
    assert_eq!(GatewayError::BadRequest("x".into()).error_code(), 40001);
    assert_eq!(GatewayError::InvalidOperation("x".into()).error_code(), 42205);
    assert_eq!(GatewayError::FlussError("x".into()).error_code(), 50001);
}

#[test]
fn error_codes_of_other_variants() {
    assert_eq!(GatewayError::Unauthorized("x".into()).status_code(), 401);
    assert_eq!(GatewayError::Unauthorized("x".into()).error_code(), 40101);
    assert_eq!(GatewayError::BodyLimitTooLarge { limit: 64 }.status_code(), 413);
    assert_eq!(GatewayError::BodyLimitTooLarge { limit: 64 }.error_code(), 41301);
    assert_eq!(GatewayError::Internal("x".into()).error_code(), 50001);
}

#[test]
fn error_code_starts_with_status() {
    let errors = vec![
        GatewayError::BadRequest("a".into()),
        GatewayError::InvalidOperation("b".into()),
        GatewayError::FlussError("c".into()),
        GatewayError::Internal("d".into()),
        GatewayError::Unauthorized("e".into()),
        GatewayError::BodyLimitTooLarge { limit: 1 },
    ];
    for e in &errors {
        assert_eq!(e.error_code() / 100, e.status_code());
    }
}

#[test]
fn error_messages() {
    assert_eq!(GatewayError::FlussError("boom".into()).to_string(), "fluss error: boom");
    assert_eq!(GatewayError::BadRequest("bad".into()).to_string(), "bad request: bad");
    assert_eq!(GatewayError::InvalidOperation("no".into()).to_string(), "invalid operation: no");
    assert_eq!(GatewayError::Internal("oops".into()).to_string(), "internal error: oops");
    assert_eq!(GatewayError::Unauthorized("who".into()).to_string(), "unauthorized: who");
    assert_eq!(
        GatewayError::BodyLimitTooLarge { limit: 64 }.to_string(),
        "payload too large: request body exceeds the 64 byte limit"
    );
}

#[test]
fn test_json_to_datum_int() {
    let dt = DataType::Int;
    let d = json_to_datum(&number(42), &dt).unwrap();
    assert!(matches!(d, Datum::Int32(42)));

    // String coercion
    let d = json_to_datum(&text("42"), &dt).unwrap();
    assert!(matches!(d, Datum::Int32(42)));
}

#[test]
fn test_json_to_datum_bigint() {
    let dt = DataType::BigInt;
    let d = json_to_datum(&number(9999999999i64), &dt).unwrap();
    assert!(matches!(d, Datum::Int64(9999999999)));
}

#[test]
fn test_json_to_datum_string() {
    let dt = DataType::String;
    let d = json_to_datum(&text("hello"), &dt).unwrap();
    assert!(matches!(d, Datum::String(_)));
}

#[test]
fn test_json_to_datum_null() {
    let dt = DataType::Int;
    let d = json_to_datum(&JsonValue::Null, &dt).unwrap();
    assert!(matches!(d, Datum::Null));
}

#[test]
fn test_json_to_datum_type_mismatch() {
    let dt = DataType::Int;
    let err = json_to_datum(&JsonValue::Array(vec![text("array")]), &dt);
    assert!(err.is_err());
}

#[test]
fn json_to_datum_narrows_integers() {
    assert!(matches!(json_to_datum(&number(300), &DataType::TinyInt), Ok(Datum::Int8(44))));
    assert!(matches!(json_to_datum(&number(70000), &DataType::SmallInt), Ok(Datum::Int16(4464))));
    assert!(matches!(json_to_datum(&number(-1), &DataType::Int), Ok(Datum::Int32(-1))));
}

#[test]
fn json_to_datum_number_without_integer_value() {
    let n = JsonValue::Number(JsonNumber { as_i64: None, text: "1.5".to_string() });
    let e = json_to_datum(&n, &DataType::Int).unwrap_err();
    assert_eq!(e.message().unwrap(), "expected int, got 1.5");
    let e = json_to_datum(&n, &DataType::TinyInt).unwrap_err();
    assert_eq!(e.message().unwrap(), "expected tinyint, got 1.5");
}

#[test]
fn json_to_datum_parses_text() {
    assert!(matches!(json_to_datum(&text("-2147483648"), &DataType::Int), Ok(Datum::Int32(i32::MIN))));
    assert!(matches!(json_to_datum(&text("+7"), &DataType::BigInt), Ok(Datum::Int64(7))));
    assert!(matches!(json_to_datum(&text("true"), &DataType::Boolean), Ok(Datum::Bool(true))));
    assert!(matches!(json_to_datum(&text("false"), &DataType::Boolean), Ok(Datum::Bool(false))));
    match json_to_datum(&text("ab"), &DataType::Bytes) {
        Ok(Datum::Blob(b)) => assert_eq!(b, b"ab".to_vec()),
        other => panic!("unexpected {:?}", other),
    }
    match json_to_datum(&text("1.25"), &DataType::Double) {
        Ok(Datum::Float64(FloatSource::Text(t))) => assert_eq!(t, "1.25"),
        other => panic!("unexpected {:?}", other),
    }
    match json_to_datum(&number(3), &DataType::Float) {
        Ok(Datum::Float32(FloatSource::Number(t))) => assert_eq!(t, "3"),
        other => panic!("unexpected {:?}", other),
    }
}

#[test]
fn json_to_datum_reports_parse_errors_as_rust_does() {
    let msg = |v: &str, dt: DataType| json_to_datum(&text(v), &dt).unwrap_err().message().unwrap();
    assert_eq!(msg("", DataType::Int), "invalid int '': cannot parse integer from empty string");
    assert_eq!(msg("-", DataType::Int), "invalid int '-': invalid digit found in string");
    assert_eq!(msg("12a", DataType::Int), "invalid int '12a': invalid digit found in string");
    assert_eq!(
        msg("2147483648", DataType::Int),
        "invalid int '2147483648': number too large to fit in target type"
    );
    assert_eq!(
        msg("-9223372036854775809", DataType::BigInt),
        "invalid bigint '-9223372036854775809': number too small to fit in target type"
    );
    assert_eq!(
        msg("yes", DataType::Boolean),
        "invalid bool 'yes': provided string was not `true` or `false`"
    );
    // the same texts as Rust's own parsers
    assert_eq!("12a".parse::<i32>().unwrap_err().to_string(), "invalid digit found in string");
    assert_eq!("2147483648".parse::<i32>().unwrap_err().to_string(), "number too large to fit in target type");
}

#[test]
fn json_to_datum_mismatches() {
    assert!(matches!(json_to_datum(&JsonValue::Bool(true), &DataType::Int), Err(DatumError::Mismatch)));
    assert!(matches!(json_to_datum(&text("x"), &DataType::Date), Err(DatumError::Mismatch)));
    assert!(matches!(json_to_datum(&number(1), &DataType::String), Err(DatumError::Mismatch)));
    assert!(json_to_datum(&JsonValue::Bool(true), &DataType::Int).unwrap_err().message().is_none());
}

#[test]
fn test_lookup_params() {
    let map = vec![("id".to_string(), "42".to_string())];
    let params = LookupParams::new(map);
    assert_eq!(params.get("id"), Some("42"));
    assert_eq!(params.get("name"), None);
}

#[test]
fn lookup_params_keep_last_value() {
    let params = LookupParams::new(vec![
        ("id".to_string(), "1".to_string()),
        ("name".to_string(), "a".to_string()),
        ("id".to_string(), "2".to_string()),
    ]);
    assert_eq!(params.get("id"), Some("2"));
    assert_eq!(params.get("name"), Some("a"));
}

#[test]
fn integer_text_coerces_like_the_number() {
    for (v, dt) in [(-17i64, DataType::Int), (0, DataType::Int), (2147483647, DataType::Int), (-9223372036854775808, DataType::BigInt), (42, DataType::BigInt)] {
        let from_text = json_to_datum(&text(&v.to_string()), &dt).unwrap();
        let from_number = json_to_datum(&number(v), &dt).unwrap();
        match (from_text, from_number) {
            (Datum::Int32(a), Datum::Int32(b)) => assert_eq!((a, b), (v as i32, v as i32)),
            (Datum::Int64(a), Datum::Int64(b)) => assert_eq!((a, b), (v, v)),
            other => panic!("unexpected {:?}", other),
        }
    }
}

#[test]
fn boolean_text_coerces_like_the_bool() {
    for b in [true, false] {
        let from_text = json_to_datum(&text(&b.to_string()), &DataType::Boolean).unwrap();
        let from_bool = json_to_datum(&JsonValue::Bool(b), &DataType::Boolean).unwrap();
        assert!(matches!((from_text, from_bool), (Datum::Bool(x), Datum::Bool(y)) if x == b && y == b));
    }
}

#[test]
fn null_is_null_for_every_type() {
    for dt in [DataType::Boolean, DataType::TinyInt, DataType::Float, DataType::String, DataType::Bytes, DataType::Decimal, DataType::Row] {
        assert!(matches!(json_to_datum(&JsonValue::Null, &dt), Ok(Datum::Null)));
    }
}
