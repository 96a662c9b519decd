//! Decisions of the REST handlers: credentials per auth mode, health
//! reports, offset and table requests, produce rows and routing, and the
//! request body limit.
use vstd::prelude::*;
use crate::backend::WriteKind;
use crate::config::AuthType;
use crate::resilience::{health_text, HealthStatus};
use crate::config::AuthConfig;
use crate::pool::chosen_credentials;
use crate::server::auth::{creds_view, BasicAuthCredentials};
use crate::text::{decimal, push_decimal, push_str, str_equal, u64_to_decimal};
use crate::types::datum::{
    datum_of, json_to_datum, parse_uint, parse_unsigned, DataType, Datum, DatumError,
    DatumErrorView, DatumView, JsonValue,
};
use crate::types::{
    BucketOffset, ColumnSpec, CreateTableRequest, GatewayError, ListOffsetsResponse,
    ListPartitionsResponse, PartitionInfo, PrimaryKeySpec, ProduceRequest, ProduceRow,
};

verus! {

broadcast use vstd::string::group_string_axioms;

/// Query parameters of the health endpoint.
#[derive(Debug)]
pub struct HealthParams {
    pub deep: Option<bool>,
}

/// Who a request acts as under an auth mode: `None` when it is refused,
/// `Some(None)` for the startup credentials, `Some(Some(c))` for its own
/// Basic Auth credentials `c`.
pub open spec fn request_identity(
    auth_type: AuthType,
    ext: Option<(Seq<char>, Seq<char>)>,
) -> Option<Option<(Seq<char>, Seq<char>)>> {
    match auth_type {
        AuthType::NoAuth => Some(None),
        AuthType::Passthrough => match ext {
            Some(c) => Some(Some(c)),
            None => None,
        },
    }
}

/// The identity an `extract_creds` result stands for.
pub open spec fn identity_of(r: Result<Option<BasicAuthCredentials>, GatewayError>) -> Option<
    Option<(Seq<char>, Seq<char>)>,
> {
    match r {
        Ok(c) => Some(creds_view(c)),
        Err(_) => None,
    }
}

/// Credentials a request is served with: none in `none` mode (the startup
/// credentials apply); in `passthrough` mode the request's own Basic Auth
/// credentials, which it must carry.
pub fn extract_creds(auth_type: AuthType, ext: Option<BasicAuthCredentials>) -> (r: Result<
    Option<BasicAuthCredentials>,
    GatewayError,
>)
    ensures
        identity_of(r) == request_identity(auth_type, creds_view(ext)),
        auth_type == AuthType::NoAuth ==> r matches Ok(None),
        auth_type == AuthType::Passthrough && ext is Some ==> r == Ok::<
            Option<BasicAuthCredentials>,
            GatewayError,
        >(ext),
        auth_type == AuthType::Passthrough && ext is None ==> (r matches Err(
            GatewayError::Unauthorized(m),
        ) && m@ == "authentication required"@),
{
    match auth_type {
        AuthType::NoAuth => Ok(None),
        AuthType::Passthrough => match ext {
            Some(c) => Ok(Some(c)),
            None => Err(GatewayError::Unauthorized(String::from_str("authentication required"))),
        },
    }
}

/// The credentials a request reaches Fluss with: in `none` mode the startup
/// credentials, whatever the request carries; in `passthrough` mode the
/// request's own Basic Auth credentials, and a request without them is
/// refused.
pub proof fn lemma_request_credentials_by_mode(auth: AuthConfig, ext: Option<(Seq<char>, Seq<char>)>)
    ensures
        auth.auth_type == AuthType::NoAuth ==> request_identity(auth.auth_type, ext) == Some(
            None::<(Seq<char>, Seq<char>)>,
        ) && chosen_credentials(None, auth) == (auth.startup_username@, auth.startup_password@),
        auth.auth_type == AuthType::Passthrough ==> match ext {
            Some(c) => request_identity(auth.auth_type, ext) == Some(Some(c)) && chosen_credentials(
                Some(c),
                auth,
            ) == c,
            None => request_identity(auth.auth_type, ext) is None,
        },
{
}

// === Health ===

/// Body and HTTP status of a health response.
#[derive(Debug)]
pub struct HealthReport {
    pub http_status: u16,
    pub status: String,
    /// `connected` or `disconnected`; absent for the shallow check
    pub fluss: Option<String>,
    /// Circuit breaker health; absent for the shallow check
    pub circuit_breaker: Option<String>,
}

/// Whether the deep check probes Fluss: not while the circuit is open and
/// unhealthy.
pub fn should_probe_fluss(circuit: HealthStatus) -> (b: bool)
    ensures
        b == (circuit != HealthStatus::Unhealthy),
{
    circuit != HealthStatus::Unhealthy
}

/// Overall status of a deep health check.
pub open spec fn deep_status(fluss_ok: bool, circuit: HealthStatus) -> Seq<char> {
    match circuit {
        HealthStatus::Unhealthy => "unhealthy"@,
        HealthStatus::Degraded => "degraded"@,
        HealthStatus::Healthy => if fluss_ok {
            "healthy"@
        } else {
            "degraded"@
        },
    }
}

/// The shallow health response: the gateway is running.
pub fn shallow_health() -> (h: HealthReport)
    ensures
        h.http_status == 200,
        h.status@ == "ok"@,
        h.fluss is None,
        h.circuit_breaker is None,
{
    HealthReport {
        http_status: 200,
        status: String::from_str("ok"),
        fluss: None,
        circuit_breaker: None,
    }
}

/// The deep health response from the Fluss probe (`fluss_ok`; false when
/// the probe failed or was skipped) and the circuit breaker's health:
/// unhealthy (503) while the circuit blocks, otherwise 200 and healthy only
/// when Fluss answered and the breaker is healthy.
pub fn deep_health(fluss_ok: bool, circuit: HealthStatus) -> (h: HealthReport)
    ensures
        h.status@ == deep_status(fluss_ok, circuit),
        h.http_status == (if circuit == HealthStatus::Unhealthy {
            503u16
        } else {
            200u16
        }),
        h.fluss matches Some(f) && f@ == (if fluss_ok {
            "connected"@
        } else {
            "disconnected"@
        }),
        h.circuit_breaker matches Some(c) && c@ == health_text(circuit),
{
    let status = match circuit {
        HealthStatus::Unhealthy => String::from_str("unhealthy"),
        HealthStatus::Degraded => String::from_str("degraded"),
        HealthStatus::Healthy => if fluss_ok {
            String::from_str("healthy")
        } else {
            String::from_str("degraded")
        },
    };
    let http_status: u16 = match circuit {
        HealthStatus::Unhealthy => 503,
        _ => 200,
    };
    let fluss = if fluss_ok {
        String::from_str("connected")
    } else {
        String::from_str("disconnected")
    };
    HealthReport {
        http_status,
        status,
        fluss: Some(fluss),
        circuit_breaker: Some(circuit.to_string()),
    }
}

/// A deep health check answers 503 exactly when it reports `unhealthy`, and
/// that is exactly when the circuit breaker is unhealthy, whatever Fluss said.
pub proof fn lemma_unavailable_iff_circuit_unhealthy(fluss_ok: bool, circuit: HealthStatus)
    ensures
        (deep_status(fluss_ok, circuit) == "unhealthy"@) <==> (circuit == HealthStatus::Unhealthy),
{
    reveal_strlit("unhealthy");
    reveal_strlit("degraded");
    reveal_strlit("healthy");
    if circuit != HealthStatus::Unhealthy {
        assert(deep_status(fluss_ok, circuit)[0] != 'u');
    }
}

/// A deep check reports `healthy` only when Fluss answered and the breaker
/// is healthy, `unhealthy` exactly when the breaker is unhealthy, and
/// `degraded` in every other case: a degraded breaker or a failed probe is
/// never reported healthy.
pub proof fn lemma_deep_status_cases(fluss_ok: bool, circuit: HealthStatus)
    ensures
        (deep_status(fluss_ok, circuit) == "healthy"@) <==> (fluss_ok && circuit
            == HealthStatus::Healthy),
        (deep_status(fluss_ok, circuit) == "unhealthy"@) <==> (circuit == HealthStatus::Unhealthy),
        (deep_status(fluss_ok, circuit) == "degraded"@) <==> (circuit != HealthStatus::Unhealthy
            && !(fluss_ok && circuit == HealthStatus::Healthy)),
{
    reveal_strlit("unhealthy");
    reveal_strlit("degraded");
    reveal_strlit("healthy");
    assert("healthy"@[0] != "unhealthy"@[0]);
    assert("healthy"@[0] != "degraded"@[0]);
    assert("degraded"@[0] != "unhealthy"@[0]);
}

// === Offsets and partitions ===

/// List offsets request body.
#[derive(Debug)]
pub struct ListOffsetsRequest {
    /// Bucket IDs to query. If omitted, queries bucket 0.
    pub buckets: Option<Vec<i32>>,
    /// Offset specification: "earliest", "latest", or "timestamp"
    pub spec: Option<String>,
    /// Timestamp (milliseconds) - required when spec is "timestamp"
    pub timestamp: Option<i64>,
}

/// Which offsets to list.
#[derive(Clone, Copy, Debug, PartialEq, Eq, Structural)]
pub enum OffsetSpecKind {
    Earliest,
    Latest,
    Timestamp(i64),
}

/// The offset specification a request asks for (`earliest` when absent).
pub open spec fn offset_spec_of(spec: Option<String>, timestamp: Option<i64>) -> Result<
    OffsetSpecKind,
    Seq<char>,
> {
    let name = match spec {
        Some(s) => s@,
        None => "earliest"@,
    };
    if name == "earliest"@ {
        Ok(OffsetSpecKind::Earliest)
    } else if name == "latest"@ {
        Ok(OffsetSpecKind::Latest)
    } else if name == "timestamp"@ {
        match timestamp {
            Some(ts) => Ok(OffsetSpecKind::Timestamp(ts)),
            None => Err("timestamp is required when spec=timestamp"@),
        }
    } else {
        Err("invalid offset spec: "@ + name)
    }
}

/// Reads the offset specification of a list offsets request; errors are
/// `BadRequest`s.
pub fn parse_offset_spec(spec: &Option<String>, timestamp: Option<i64>) -> (r: Result<
    OffsetSpecKind,
    GatewayError,
>)
    ensures
        match r {
            Ok(k) => offset_spec_of(*spec, timestamp) == Ok::<OffsetSpecKind, Seq<char>>(k),
            Err(GatewayError::BadRequest(m)) => offset_spec_of(*spec, timestamp) == Err::<
                OffsetSpecKind,
                Seq<char>,
            >(m@),
            Err(_) => false,
        },
{
    let name = match spec {
        Some(s) => s.clone(),
        None => String::from_str("earliest"),
    };
    if str_equal(name.as_str(), "earliest") {
        Ok(OffsetSpecKind::Earliest)
    } else if str_equal(name.as_str(), "latest") {
        Ok(OffsetSpecKind::Latest)
    } else if str_equal(name.as_str(), "timestamp") {
        match timestamp {
            Some(ts) => Ok(OffsetSpecKind::Timestamp(ts)),
            None => Err(
                GatewayError::BadRequest(
                    String::from_str("timestamp is required when spec=timestamp"),
                ),
            ),
        }
    } else {
        let mut m = String::from_str("invalid offset spec: ");
        push_str(&mut m, name.as_str());
        Err(GatewayError::BadRequest(m))
    }
}

/// Buckets a list offsets request queries: those given, otherwise bucket 0.
pub fn offset_buckets(buckets: Option<Vec<i32>>) -> (b: Vec<i32>)
    ensures
        b@ == match buckets {
            Some(v) => v@,
            None => seq![0i32],
        },
{
    match buckets {
        Some(v) => v,
        None => {
            let mut v: Vec<i32> = Vec::new();
            v.push(0);
            assert(v@ =~= seq![0i32]);
            v
        },
    }
}

/// `db/table`, the path a response names a table by.
pub fn table_path(db: &str, table: &str) -> (p: String)
    ensures
        p@ == db@ + "/"@ + table@,
{
    let mut p = String::from_str(db);
    push_str(&mut p, "/");
    push_str(&mut p, table);
    p
}

/// The list offsets response for `db.table`: the spec as requested
/// (`earliest` when absent) and one entry per `(bucket, offset)` pair.
pub fn offsets_response(db: &str, table: &str, spec: Option<String>, offsets: Vec<(i32, i64)>) -> (r:
    ListOffsetsResponse)
    ensures
        r.table_path@ == db@ + "/"@ + table@,
        r.spec@ == match spec {
            Some(s) => s@,
            None => "earliest"@,
        },
        r.offsets.len() == offsets.len(),
        forall|i: int|
            0 <= i < offsets.len() ==> (#[trigger] r.offsets@[i]).bucket_id == offsets@[i].0
                && r.offsets@[i].offset == offsets@[i].1,
{
    let mut list: Vec<BucketOffset> = Vec::new();
    let mut i: usize = 0;
    while i < offsets.len()
        invariant
            i <= offsets.len(),
            list.len() == i,
            forall|j: int|
                0 <= j < i ==> (#[trigger] list@[j]).bucket_id == offsets@[j].0 && list@[j].offset
                    == offsets@[j].1,
        decreases offsets.len() - i,
    {
        list.push(BucketOffset { bucket_id: offsets[i].0, offset: offsets[i].1 });
        i = i + 1;
    }
    let spec_text = match spec {
        Some(s) => s,
        None => String::from_str("earliest"),
    };
    ListOffsetsResponse { table_path: table_path(db, table), spec: spec_text, offsets: list }
}

/// The list partitions response for `db.table`.
pub fn partitions_response(db: &str, table: &str, partitions: Vec<PartitionInfo>) -> (r:
    ListPartitionsResponse)
    ensures
        r.table_path@ == db@ + "/"@ + table@,
        r.partitions@ == partitions@,
{
    ListPartitionsResponse { table_path: table_path(db, table), partitions }
}

// === Table and database requests ===

/// Checks the name of a database to create: it must not be empty.
pub fn check_database_name(name: &str) -> (r: Result<(), GatewayError>)
    ensures
        r is Ok <==> name@.len() > 0,
        r matches Err(GatewayError::BadRequest(m)) ==> m@
            == "database_name is required in request body"@,
        r is Err ==> r matches Err(GatewayError::BadRequest(_)),
{
    if name.is_empty() {
        Err(GatewayError::BadRequest(String::from_str("database_name is required in request body")))
    } else {
        Ok(())
    }
}

/// The Unicode lower-case mapping of `s`, as `str::to_lowercase` computes it.
pub uninterp spec fn lowercase(s: Seq<char>) -> Seq<char>;

/// Calls `str::to_lowercase`. Claims only that the result is a function of
/// the input, named `lowercase`.
#[verifier::external_body]
fn to_lowercase(s: &str) -> (r: String)
    ensures
        r@ == lowercase(s@),
{
    s.to_lowercase()
}

/// The column type a lower-case type name denotes.
pub open spec fn data_type_named(name: Seq<char>) -> Option<DataType> {
    if name == "boolean"@ || name == "bool"@ {
        Some(DataType::Boolean)
    } else if name == "tinyint"@ || name == "i8"@ {
        Some(DataType::TinyInt)
    } else if name == "smallint"@ || name == "i16"@ {
        Some(DataType::SmallInt)
    } else if name == "int"@ || name == "integer"@ || name == "i32"@ {
        Some(DataType::Int)
    } else if name == "bigint"@ || name == "long"@ || name == "i64"@ {
        Some(DataType::BigInt)
    } else if name == "float"@ || name == "f32"@ {
        Some(DataType::Float)
    } else if name == "double"@ || name == "f64"@ {
        Some(DataType::Double)
    } else if name == "string"@ || name == "varchar"@ {
        Some(DataType::String)
    } else if name == "bytes"@ || name == "binary"@ || name == "blob"@ {
        Some(DataType::Bytes)
    } else {
        None
    }
}

/// Each accepted type name denotes the column type it names: the SQL names
/// and their Rust-style aliases, each to its own type (a `double`/`f64`
/// column is 64-bit, a `float`/`f32` column 32-bit), and no other name is
/// accepted.
pub proof fn lemma_type_names(name: Seq<char>)
    ensures
        data_type_named("boolean"@) == Some(DataType::Boolean),
        data_type_named("bool"@) == Some(DataType::Boolean),
        data_type_named("tinyint"@) == Some(DataType::TinyInt),
        data_type_named("i8"@) == Some(DataType::TinyInt),
        data_type_named("smallint"@) == Some(DataType::SmallInt),
        data_type_named("i16"@) == Some(DataType::SmallInt),
        data_type_named("int"@) == Some(DataType::Int),
        data_type_named("integer"@) == Some(DataType::Int),
        data_type_named("i32"@) == Some(DataType::Int),
        data_type_named("bigint"@) == Some(DataType::BigInt),
        data_type_named("long"@) == Some(DataType::BigInt),
        data_type_named("i64"@) == Some(DataType::BigInt),
        data_type_named("float"@) == Some(DataType::Float),
        data_type_named("f32"@) == Some(DataType::Float),
        data_type_named("double"@) == Some(DataType::Double),
        data_type_named("f64"@) == Some(DataType::Double),
        data_type_named("string"@) == Some(DataType::String),
        data_type_named("varchar"@) == Some(DataType::String),
        data_type_named("bytes"@) == Some(DataType::Bytes),
        data_type_named("binary"@) == Some(DataType::Bytes),
        data_type_named("blob"@) == Some(DataType::Bytes),
        data_type_named(name) is Some ==> (name == "boolean"@ || name == "bool"@ || name == "tinyint"@ || name == "i8"@ || name == "smallint"@ || name == "i16"@ || name == "int"@ || name == "integer"@ || name == "i32"@ || name == "bigint"@ || name == "long"@ || name == "i64"@ || name == "float"@ || name == "f32"@ || name == "double"@ || name == "f64"@ || name == "string"@ || name == "varchar"@ || name == "bytes"@ || name == "binary"@ || name == "blob"@),
{
    reveal_strlit("boolean");
    reveal_strlit("bool");
    reveal_strlit("tinyint");
    reveal_strlit("i8");
    reveal_strlit("smallint");
    reveal_strlit("i16");
    reveal_strlit("int");
    reveal_strlit("integer");
    reveal_strlit("i32");
    reveal_strlit("bigint");
    reveal_strlit("long");
    reveal_strlit("i64");
    reveal_strlit("float");
    reveal_strlit("f32");
    reveal_strlit("double");
    reveal_strlit("f64");
    reveal_strlit("string");
    reveal_strlit("varchar");
    reveal_strlit("bytes");
    reveal_strlit("binary");
    reveal_strlit("blob");
    assert("tinyint"@[0] != "boolean"@[0]);
    assert("tinyint"@.len() != "bool"@.len());
    assert("i8"@.len() != "boolean"@.len());
    assert("i8"@.len() != "bool"@.len());
    assert("smallint"@.len() != "boolean"@.len());
    assert("smallint"@.len() != "bool"@.len());
    assert("smallint"@.len() != "tinyint"@.len());
    assert("smallint"@.len() != "i8"@.len());
    assert("i16"@.len() != "boolean"@.len());
    assert("i16"@.len() != "bool"@.len());
    assert("i16"@.len() != "tinyint"@.len());
    assert("i16"@.len() != "i8"@.len());
    assert("int"@.len() != "boolean"@.len());
    assert("int"@.len() != "bool"@.len());
    assert("int"@.len() != "tinyint"@.len());
    assert("int"@.len() != "i8"@.len());
    assert("int"@.len() != "smallint"@.len());
    assert("int"@[1] != "i16"@[1]);
    assert("integer"@[0] != "boolean"@[0]);
    assert("integer"@.len() != "bool"@.len());
    assert("integer"@[0] != "tinyint"@[0]);
    assert("integer"@.len() != "i8"@.len());
    assert("integer"@.len() != "smallint"@.len());
    assert("integer"@.len() != "i16"@.len());
    assert("i32"@.len() != "boolean"@.len());
    assert("i32"@.len() != "bool"@.len());
    assert("i32"@.len() != "tinyint"@.len());
    assert("i32"@.len() != "i8"@.len());
    assert("i32"@.len() != "smallint"@.len());
    assert("i32"@[1] != "i16"@[1]);
    assert("bigint"@.len() != "boolean"@.len());
    assert("bigint"@.len() != "bool"@.len());
    assert("bigint"@.len() != "tinyint"@.len());
    assert("bigint"@.len() != "i8"@.len());
    assert("bigint"@.len() != "smallint"@.len());
    assert("bigint"@.len() != "i16"@.len());
    assert("bigint"@.len() != "int"@.len());
    assert("bigint"@.len() != "integer"@.len());
    assert("bigint"@.len() != "i32"@.len());
    assert("long"@.len() != "boolean"@.len());
    assert("long"@[0] != "bool"@[0]);
    assert("long"@.len() != "tinyint"@.len());
    assert("long"@.len() != "i8"@.len());
    assert("long"@.len() != "smallint"@.len());
    assert("long"@.len() != "i16"@.len());
    assert("long"@.len() != "int"@.len());
    assert("long"@.len() != "integer"@.len());
    assert("long"@.len() != "i32"@.len());
    assert("i64"@.len() != "boolean"@.len());
    assert("i64"@.len() != "bool"@.len());
    assert("i64"@.len() != "tinyint"@.len());
    assert("i64"@.len() != "i8"@.len());
    assert("i64"@.len() != "smallint"@.len());
    assert("i64"@[1] != "i16"@[1]);
    assert("i64"@[1] != "int"@[1]);
    assert("i64"@.len() != "integer"@.len());
    assert("i64"@[1] != "i32"@[1]);
    assert("float"@.len() != "boolean"@.len());
    assert("float"@.len() != "bool"@.len());
    assert("float"@.len() != "tinyint"@.len());
    assert("float"@.len() != "i8"@.len());
    assert("float"@.len() != "smallint"@.len());
    assert("float"@.len() != "i16"@.len());
    assert("float"@.len() != "int"@.len());
    assert("float"@.len() != "integer"@.len());
    assert("float"@.len() != "i32"@.len());
    assert("float"@.len() != "bigint"@.len());
    assert("float"@.len() != "long"@.len());
    assert("float"@.len() != "i64"@.len());
    assert("f32"@.len() != "boolean"@.len());
    assert("f32"@.len() != "bool"@.len());
    assert("f32"@.len() != "tinyint"@.len());
    assert("f32"@.len() != "i8"@.len());
    assert("f32"@.len() != "smallint"@.len());
    assert("f32"@[0] != "i16"@[0]);
    assert("f32"@[0] != "int"@[0]);
    assert("f32"@.len() != "integer"@.len());
    assert("f32"@[0] != "i32"@[0]);
    assert("f32"@.len() != "bigint"@.len());
    assert("f32"@.len() != "long"@.len());
    assert("f32"@[0] != "i64"@[0]);
    assert("double"@.len() != "boolean"@.len());
    assert("double"@.len() != "bool"@.len());
    assert("double"@.len() != "tinyint"@.len());
    assert("double"@.len() != "i8"@.len());
    assert("double"@.len() != "smallint"@.len());
    assert("double"@.len() != "i16"@.len());
    assert("double"@.len() != "int"@.len());
    assert("double"@.len() != "integer"@.len());
    assert("double"@.len() != "i32"@.len());
    assert("double"@[0] != "bigint"@[0]);
    assert("double"@.len() != "long"@.len());
    assert("double"@.len() != "i64"@.len());
    assert("double"@.len() != "float"@.len());
    assert("double"@.len() != "f32"@.len());
    assert("f64"@.len() != "boolean"@.len());
    assert("f64"@.len() != "bool"@.len());
    assert("f64"@.len() != "tinyint"@.len());
    assert("f64"@.len() != "i8"@.len());
    assert("f64"@.len() != "smallint"@.len());
    assert("f64"@[0] != "i16"@[0]);
    assert("f64"@[0] != "int"@[0]);
    assert("f64"@.len() != "integer"@.len());
    assert("f64"@[0] != "i32"@[0]);
    assert("f64"@.len() != "bigint"@.len());
    assert("f64"@.len() != "long"@.len());
    assert("f64"@[0] != "i64"@[0]);
    assert("f64"@.len() != "float"@.len());
    assert("f64"@[1] != "f32"@[1]);
    assert("string"@.len() != "boolean"@.len());
    assert("string"@.len() != "bool"@.len());
    assert("string"@.len() != "tinyint"@.len());
    assert("string"@.len() != "i8"@.len());
    assert("string"@.len() != "smallint"@.len());
    assert("string"@.len() != "i16"@.len());
    assert("string"@.len() != "int"@.len());
    assert("string"@.len() != "integer"@.len());
    assert("string"@.len() != "i32"@.len());
    assert("string"@[0] != "bigint"@[0]);
    assert("string"@.len() != "long"@.len());
    assert("string"@.len() != "i64"@.len());
    assert("string"@.len() != "float"@.len());
    assert("string"@.len() != "f32"@.len());
    assert("string"@[0] != "double"@[0]);
    assert("string"@.len() != "f64"@.len());
    assert("varchar"@[0] != "boolean"@[0]);
    assert("varchar"@.len() != "bool"@.len());
    assert("varchar"@[0] != "tinyint"@[0]);
    assert("varchar"@.len() != "i8"@.len());
    assert("varchar"@.len() != "smallint"@.len());
    assert("varchar"@.len() != "i16"@.len());
    assert("varchar"@.len() != "int"@.len());
    assert("varchar"@[0] != "integer"@[0]);
    assert("varchar"@.len() != "i32"@.len());
    assert("varchar"@.len() != "bigint"@.len());
    assert("varchar"@.len() != "long"@.len());
    assert("varchar"@.len() != "i64"@.len());
    assert("varchar"@.len() != "float"@.len());
    assert("varchar"@.len() != "f32"@.len());
    assert("varchar"@.len() != "double"@.len());
    assert("varchar"@.len() != "f64"@.len());
    assert("bytes"@.len() != "boolean"@.len());
    assert("bytes"@.len() != "bool"@.len());
    assert("bytes"@.len() != "tinyint"@.len());
    assert("bytes"@.len() != "i8"@.len());
    assert("bytes"@.len() != "smallint"@.len());
    assert("bytes"@.len() != "i16"@.len());
    assert("bytes"@.len() != "int"@.len());
    assert("bytes"@.len() != "integer"@.len());
    assert("bytes"@.len() != "i32"@.len());
    assert("bytes"@.len() != "bigint"@.len());
    assert("bytes"@.len() != "long"@.len());
    assert("bytes"@.len() != "i64"@.len());
    assert("bytes"@[0] != "float"@[0]);
    assert("bytes"@.len() != "f32"@.len());
    assert("bytes"@.len() != "double"@.len());
    assert("bytes"@.len() != "f64"@.len());
    assert("bytes"@.len() != "string"@.len());
    assert("bytes"@.len() != "varchar"@.len());
    assert("binary"@.len() != "boolean"@.len());
    assert("binary"@.len() != "bool"@.len());
    assert("binary"@.len() != "tinyint"@.len());
    assert("binary"@.len() != "i8"@.len());
    assert("binary"@.len() != "smallint"@.len());
    assert("binary"@.len() != "i16"@.len());
    assert("binary"@.len() != "int"@.len());
    assert("binary"@.len() != "integer"@.len());
    assert("binary"@.len() != "i32"@.len());
    assert("binary"@[2] != "bigint"@[2]);
    assert("binary"@.len() != "long"@.len());
    assert("binary"@.len() != "i64"@.len());
    assert("binary"@.len() != "float"@.len());
    assert("binary"@.len() != "f32"@.len());
    assert("binary"@[0] != "double"@[0]);
    assert("binary"@.len() != "f64"@.len());
    assert("binary"@[0] != "string"@[0]);
    assert("binary"@.len() != "varchar"@.len());
    assert("blob"@.len() != "boolean"@.len());
    assert("blob"@[1] != "bool"@[1]);
    assert("blob"@.len() != "tinyint"@.len());
    assert("blob"@.len() != "i8"@.len());
    assert("blob"@.len() != "smallint"@.len());
    assert("blob"@.len() != "i16"@.len());
    assert("blob"@.len() != "int"@.len());
    assert("blob"@.len() != "integer"@.len());
    assert("blob"@.len() != "i32"@.len());
    assert("blob"@.len() != "bigint"@.len());
    assert("blob"@[0] != "long"@[0]);
    assert("blob"@.len() != "i64"@.len());
    assert("blob"@.len() != "float"@.len());
    assert("blob"@.len() != "f32"@.len());
    assert("blob"@.len() != "double"@.len());
    assert("blob"@.len() != "f64"@.len());
    assert("blob"@.len() != "string"@.len());
    assert("blob"@.len() != "varchar"@.len());
}

/// The column type a lower-cased type name denotes, or the `BadRequest`
/// naming it as unsupported.
pub fn data_type_from_lowercase(lower: &str) -> (r: Result<DataType, GatewayError>)
    ensures
        match data_type_named(lower@) {
            Some(t) => r == Ok::<DataType, GatewayError>(t),
            None => r matches Err(GatewayError::BadRequest(m)) && m@ == "unsupported data type: "@
                + lower@,
        },
{
    if str_equal(lower, "boolean") || str_equal(lower, "bool") {
        Ok(DataType::Boolean)
    } else if str_equal(lower, "tinyint") || str_equal(lower, "i8") {
        Ok(DataType::TinyInt)
    } else if str_equal(lower, "smallint") || str_equal(lower, "i16") {
        Ok(DataType::SmallInt)
    } else if str_equal(lower, "int") || str_equal(lower, "integer") || str_equal(lower, "i32") {
        Ok(DataType::Int)
    } else if str_equal(lower, "bigint") || str_equal(lower, "long") || str_equal(lower, "i64") {
        Ok(DataType::BigInt)
    } else if str_equal(lower, "float") || str_equal(lower, "f32") {
        Ok(DataType::Float)
    } else if str_equal(lower, "double") || str_equal(lower, "f64") {
        Ok(DataType::Double)
    } else if str_equal(lower, "string") || str_equal(lower, "varchar") {
        Ok(DataType::String)
    } else if str_equal(lower, "bytes") || str_equal(lower, "binary") || str_equal(lower, "blob") {
        Ok(DataType::Bytes)
    } else {
        let mut m = String::from_str("unsupported data type: ");
        push_str(&mut m, lower);
        Err(GatewayError::BadRequest(m))
    }
}

/// Reads a column type name given in a create table request, in any case.
pub fn parse_data_type(type_str: &str) -> (r: Result<DataType, GatewayError>)
    ensures
        match data_type_named(lowercase(type_str@)) {
            Some(t) => r == Ok::<DataType, GatewayError>(t),
            None => r matches Err(GatewayError::BadRequest(m)) && m@ == "unsupported data type: "@
                + lowercase(type_str@),
        },
{
    let lower = to_lowercase(type_str);
    data_type_from_lowercase(lower.as_str())
}

/// A column of a table to create.
#[derive(Debug)]
pub struct ColumnPlan {
    pub name: String,
    pub data_type: DataType,
    pub comment: Option<String>,
}

/// What a create table request asks Fluss to create.
#[derive(Debug)]
pub struct TablePlan {
    pub table_name: String,
    pub columns: Vec<ColumnPlan>,
    pub primary_key: Option<PrimaryKeySpec>,
    pub partition_keys: Vec<String>,
    pub bucket_count: Option<i32>,
    pub bucket_keys: Vec<String>,
    /// Table properties; a key given twice keeps its last value
    pub properties: Vec<(String, String)>,
    pub comment: Option<String>,
    pub ignore_if_exists: bool,
}

/// Text of an optional string as an optional sequence.
pub open spec fn opt_view(o: Option<String>) -> Option<Seq<char>> {
    match o {
        Some(s) => Some(s@),
        None => None,
    }
}

/// Index of the first column whose type name denotes no supported type, or
/// the number of columns.
pub open spec fn first_unsupported(schema: Seq<ColumnSpec>) -> int
    decreases schema.len(),
{
    if schema.len() == 0 {
        0
    } else if data_type_named(lowercase(schema[0].data_type@)) is None {
        0
    } else {
        1 + first_unsupported(schema.drop_first())
    }
}

proof fn lemma_first_unsupported(schema: Seq<ColumnSpec>, k: int)
    requires
        0 <= k <= schema.len(),
        forall|j: int|
            0 <= j < k ==> data_type_named(lowercase((#[trigger] schema[j]).data_type@)) is Some,
        k == schema.len() || data_type_named(lowercase(schema[k].data_type@)) is None,
    ensures
        first_unsupported(schema) == k,
    decreases k,
{
    if k > 0 {
        assert forall|j: int| 0 <= j < k - 1 implies data_type_named(
            lowercase((#[trigger] schema.drop_first()[j]).data_type@),
        ) is Some by {
            assert(schema.drop_first()[j] == schema[j + 1]);
        }
        lemma_first_unsupported(schema.drop_first(), k - 1);
    }
}

fn clone_opt(o: &Option<String>) -> (r: Option<String>)
    ensures
        opt_view(r) == opt_view(*o),
{
    match o {
        Some(s) => Some(s.clone()),
        None => None,
    }
}

/// Views of a list of key/value pairs.
pub open spec fn pairs_view(p: Seq<(String, String)>) -> Seq<(Seq<char>, Seq<char>)> {
    p.map_values(|kv: (String, String)| (kv.0@, kv.1@))
}

/// Plans the creation of a table: the name must not be empty and every
/// column type must be supported (the first that is not is the error); the
/// table comment is also recorded as the `table.comment` property.
pub fn plan_create_table(req: CreateTableRequest) -> (r: Result<TablePlan, GatewayError>)
    ensures
        req.table_name@.len() == 0 ==> (r matches Err(GatewayError::BadRequest(m)) && m@
            == "table_name is required in request body"@),
        req.table_name@.len() > 0 && first_unsupported(req.schema@) < req.schema@.len() ==> (r matches Err(
            GatewayError::BadRequest(m),
        ) && m@ == "unsupported data type: "@ + lowercase(
            req.schema@[first_unsupported(req.schema@)].data_type@,
        )),
        req.table_name@.len() > 0 && first_unsupported(req.schema@) >= req.schema@.len() ==> (r matches Ok(
            plan,
        ) && {
            &&& plan.table_name@ == req.table_name@
            &&& plan.columns.len() == req.schema.len()
            &&& forall|k: int|
                0 <= k < req.schema.len() ==> {
                    &&& (#[trigger] plan.columns@[k]).name@ == req.schema@[k].name@
                    &&& Some(plan.columns@[k].data_type) == data_type_named(
                        lowercase(req.schema@[k].data_type@),
                    )
                    &&& opt_view(plan.columns@[k].comment) == opt_view(req.schema@[k].comment)
                }
            &&& plan.primary_key == req.primary_key
            &&& plan.partition_keys@ == match req.partition_keys {
                Some(p) => p@,
                None => Seq::<String>::empty(),
            }
            &&& plan.bucket_count == req.bucket_count
            &&& plan.bucket_keys@ == match req.bucket_keys {
                Some(b) => b@,
                None => Seq::<String>::empty(),
            }
            &&& pairs_view(plan.properties@) == match req.comment {
                Some(c) => pairs_view(
                    match req.properties {
                        Some(p) => p@,
                        None => Seq::<(String, String)>::empty(),
                    },
                ).push(("table.comment"@, c@)),
                None => pairs_view(
                    match req.properties {
                        Some(p) => p@,
                        None => Seq::<(String, String)>::empty(),
                    },
                ),
            }
            &&& opt_view(plan.comment) == opt_view(req.comment)
            &&& plan.ignore_if_exists == req.ignore_if_exists
        }),
{
    if req.table_name.as_str().is_empty() {
        return Err(GatewayError::BadRequest(String::from_str("table_name is required in request body")));
    }
    let mut columns: Vec<ColumnPlan> = Vec::new();
    let mut k: usize = 0;
    while k < req.schema.len()
        invariant
            req.table_name@.len() > 0,
            k <= req.schema.len(),
            columns.len() == k,
            forall|j: int|
                0 <= j < k ==> data_type_named(lowercase((#[trigger] req.schema@[j]).data_type@))
                    is Some,
            forall|j: int|
                0 <= j < k ==> {
                    &&& (#[trigger] columns@[j]).name@ == req.schema@[j].name@
                    &&& Some(columns@[j].data_type) == data_type_named(
                        lowercase(req.schema@[j].data_type@),
                    )
                    &&& opt_view(columns@[j].comment) == opt_view(req.schema@[j].comment)
                },
        decreases req.schema.len() - k,
    {
        let col = &req.schema[k];
        let data_type = match parse_data_type(col.data_type.as_str()) {
            Ok(t) => t,
            Err(e) => {
                proof {
                    lemma_first_unsupported(req.schema@, k as int);
                }
                return Err(e);
            },
        };
        columns.push(ColumnPlan { name: col.name.clone(), data_type, comment: clone_opt(&col.comment) });
        k = k + 1;
    }
    proof {
        lemma_first_unsupported(req.schema@, k as int);
    }
    let mut properties = match req.properties {
        Some(p) => p,
        None => Vec::new(),
    };
    let comment = req.comment;
    if let Some(c) = &comment {
        let ghost before = properties@;
        properties.push((String::from_str("table.comment"), c.clone()));
        assert(pairs_view(properties@) =~= pairs_view(before).push(("table.comment"@, c@)));
    }
    let partition_keys = match req.partition_keys {
        Some(p) => p,
        None => Vec::new(),
    };
    let bucket_keys = match req.bucket_keys {
        Some(b) => b,
        None => Vec::new(),
    };
    Ok(
        TablePlan {
            table_name: req.table_name,
            columns,
            primary_key: req.primary_key,
            partition_keys,
            bucket_count: req.bucket_count,
            bucket_keys,
            properties,
            comment,
            ignore_if_exists: req.ignore_if_exists,
        },
    )
}

// === Produce ===

/// Field values of a row after converting its first `k` values: nulls,
/// with value `j` converted to column `j`'s type; the first value that does
/// not convert is the error, with its position.
pub open spec fn row_prefix(columns: Seq<DataType>, values: Seq<JsonValue>, k: int) -> Result<
    Seq<DatumView>,
    (int, DatumErrorView),
>
    decreases k,
{
    if k <= 0 {
        Ok(Seq::new(columns.len(), |i: int| DatumView::Null))
    } else {
        match row_prefix(columns, values, k - 1) {
            Err(e) => Err(e),
            Ok(row) => match datum_of(values[k - 1], columns[k - 1]) {
                Ok(d) => Ok(row.update(k - 1, d)),
                Err(e) => Err((k - 1, e)),
            },
        }
    }
}

/// Number of values of a row that are written: values beyond the table's
/// columns are ignored.
pub open spec fn written_values(columns: Seq<DataType>, values: Seq<JsonValue>) -> int {
    if values.len() < columns.len() {
        values.len() as int
    } else {
        columns.len() as int
    }
}

/// Rows of a produce request after converting the first `k` rows; the first
/// value (by row, then field) that does not convert is the error.
pub open spec fn rows_prefix(columns: Seq<DataType>, rows: Seq<ProduceRow>, k: int) -> Result<
    Seq<Seq<DatumView>>,
    (int, int, DatumErrorView),
>
    decreases k,
{
    if k <= 0 {
        Ok(Seq::empty())
    } else {
        match rows_prefix(columns, rows, k - 1) {
            Err(e) => Err(e),
            Ok(done) => match row_prefix(
                columns,
                rows[k - 1].values@,
                written_values(columns, rows[k - 1].values@),
            ) {
                Ok(row) => Ok(done.push(row)),
                Err((field, e)) => Err((k - 1, field, e)),
            },
        }
    }
}

/// A produce value that does not convert: its row, field, and why.
#[derive(Debug)]
pub struct RowError {
    pub row: usize,
    pub field: usize,
    pub error: DatumError,
}

proof fn lemma_row_prefix_error_persists(columns: Seq<DataType>, values: Seq<JsonValue>, k: int, n: int)
    requires
        0 <= k <= n,
        row_prefix(columns, values, k) is Err,
    ensures
        row_prefix(columns, values, n) == row_prefix(columns, values, k),
    decreases n - k,
{
    if k < n {
        lemma_row_prefix_error_persists(columns, values, k, n - 1);
    }
}

proof fn lemma_rows_prefix_error_persists(columns: Seq<DataType>, rows: Seq<ProduceRow>, k: int, n: int)
    requires
        0 <= k <= n,
        rows_prefix(columns, rows, k) is Err,
    ensures
        rows_prefix(columns, rows, n) == rows_prefix(columns, rows, k),
    decreases n - k,
{
    if k < n {
        lemma_rows_prefix_error_persists(columns, rows, k, n - 1);
    }
}

/// Converts the values of one produce row to field values of a row with
/// `columns`.
fn convert_row(columns: &Vec<DataType>, values: &Vec<JsonValue>) -> (r: Result<Vec<Datum>, (usize, DatumError)>)
    ensures
        match r {
            Ok(row) => row_prefix(columns@, values@, written_values(columns@, values@)) == Ok::<
                Seq<DatumView>,
                (int, DatumErrorView),
            >(row@.map_values(|d: Datum| d@)),
            Err((field, e)) => row_prefix(columns@, values@, written_values(columns@, values@))
                == Err::<Seq<DatumView>, (int, DatumErrorView)>((field as int, e@)),
        },
{
    let n = if values.len() < columns.len() {
        values.len()
    } else {
        columns.len()
    };
    let mut row: Vec<Datum> = Vec::new();
    let mut c: usize = 0;
    while c < columns.len()
        invariant
            c <= columns.len(),
            row.len() == c,
            forall|j: int| 0 <= j < c ==> (#[trigger] row@[j]) matches Datum::Null,
        decreases columns.len() - c,
    {
        row.push(Datum::Null);
        c = c + 1;
    }
    assert(row@.map_values(|d: Datum| d@) =~= Seq::new(columns@.len(), |i: int| DatumView::Null));
    let mut j: usize = 0;
    while j < n
        invariant
            n == written_values(columns@, values@),
            n <= values.len(),
            n <= columns.len(),
            j <= n,
            row.len() == columns.len(),
            row_prefix(columns@, values@, j as int) == Ok::<Seq<DatumView>, (int, DatumErrorView)>(
                row@.map_values(|d: Datum| d@),
            ),
        decreases n - j,
    {
        match json_to_datum(&values[j], &columns[j]) {
            Ok(d) => {
                let ghost before = row@;
                row.set(j, d);
                assert(row@.map_values(|d: Datum| d@) =~= before.map_values(|d: Datum| d@).update(
                    j as int,
                    row@[j as int]@,
                ));
            },
            Err(e) => {
                proof {
                    lemma_row_prefix_error_persists(columns@, values@, j + 1, n as int);
                }
                return Err((j, e));
            },
        }
        j = j + 1;
    }
    Ok(row)
}

/// Converts the values of every produce row to field values of a row with
/// `columns`; values beyond the columns are ignored.
pub fn produce_rows(columns: &Vec<DataType>, rows: &Vec<ProduceRow>) -> (r: Result<
    Vec<Vec<Datum>>,
    RowError,
>)
    ensures
        match r {
            Ok(out) => rows_prefix(columns@, rows@, rows@.len() as int) == Ok::<
                Seq<Seq<DatumView>>,
                (int, int, DatumErrorView),
            >(out@.map_values(|row: Vec<Datum>| row@.map_values(|d: Datum| d@))),
            Err(e) => rows_prefix(columns@, rows@, rows@.len() as int) == Err::<
                Seq<Seq<DatumView>>,
                (int, int, DatumErrorView),
            >((e.row as int, e.field as int, e.error@)),
        },
{
    let mut out: Vec<Vec<Datum>> = Vec::new();
    let mut i: usize = 0;
    assert(out@.map_values(|row: Vec<Datum>| row@.map_values(|d: Datum| d@)) =~= Seq::<
        Seq<DatumView>,
    >::empty());
    while i < rows.len()
        invariant
            i <= rows.len(),
            rows_prefix(columns@, rows@, i as int) == Ok::<
                Seq<Seq<DatumView>>,
                (int, int, DatumErrorView),
            >(out@.map_values(|row: Vec<Datum>| row@.map_values(|d: Datum| d@))),
        decreases rows.len() - i,
    {
        match convert_row(columns, &rows[i].values) {
            Ok(row) => {
                let ghost before = out@;
                out.push(row);
                assert(out@.map_values(|row: Vec<Datum>| row@.map_values(|d: Datum| d@))
                    =~= before.map_values(|row: Vec<Datum>| row@.map_values(|d: Datum| d@)).push(
                    row@.map_values(|d: Datum| d@),
                ));
            },
            Err((field, e)) => {
                proof {
                    lemma_rows_prefix_error_persists(columns@, rows@, i + 1, rows@.len() as int);
                }
                return Err(RowError { row: i, field, error: e });
            },
        }
        i = i + 1;
    }
    Ok(out)
}

/// `row[i] field[j]: ` followed by `detail`, the message of a produce value
/// that does not convert.
pub fn row_error_message(row: usize, field: usize, detail: &str) -> (m: String)
    ensures
        m@ == "row["@ + decimal(row as nat) + "] field["@ + decimal(field as nat) + "]: "@ + detail@,
{
    let mut m = String::from_str("row[");
    push_decimal(&mut m, row as u64);
    push_str(&mut m, "] field[");
    push_decimal(&mut m, field as u64);
    push_str(&mut m, "]: ");
    push_str(&mut m, detail);
    m
}

/// The row asks for a delete.
pub open spec fn is_delete(row: ProduceRow) -> bool {
    row.change_type matches Some(c) && c@ == "Delete"@
}

/// The write a produce row asks for: on a log table an append; on a primary
/// key table a delete when its change type is `Delete`, an upsert otherwise.
pub open spec fn row_route(has_primary_key: bool, row: ProduceRow) -> WriteKind {
    if !has_primary_key {
        WriteKind::Append
    } else if is_delete(row) {
        WriteKind::Delete
    } else {
        WriteKind::Upsert
    }
}

fn row_kind(has_primary_key: bool, row: &ProduceRow) -> (k: WriteKind)
    ensures
        k == row_route(has_primary_key, *row),
{
    proof {
        reveal_strlit("Delete");
    }
    if !has_primary_key {
        return WriteKind::Append;
    }
    if let Some(c) = &row.change_type {
        if str_equal(c.as_str(), "Delete") {
            return WriteKind::Delete;
        }
    }
    WriteKind::Upsert
}

/// Which write each row of a produce request performs, in row order: each
/// row follows its own change type.
pub fn produce_route(has_primary_key: bool, rows: &Vec<ProduceRow>) -> (ks: Vec<WriteKind>)
    ensures
        ks@.len() == rows@.len(),
        forall|i: int| 0 <= i < rows@.len() ==> #[trigger] ks@[i] == row_route(has_primary_key, rows@[i]),
{
    let mut ks: Vec<WriteKind> = Vec::new();
    let mut i: usize = 0;
    while i < rows.len()
        invariant
            i <= rows.len(),
            ks@.len() == i,
            forall|j: int| 0 <= j < i ==> #[trigger] ks@[j] == row_route(has_primary_key, rows@[j]),
        decreases rows.len() - i,
    {
        ks.push(row_kind(has_primary_key, &rows[i]));
        i = i + 1;
    }
    ks
}

/// Every produce row is routed to a write its table accepts.
pub proof fn lemma_route_accepted(has_primary_key: bool, row: ProduceRow)
    ensures
        crate::backend::write_allowed(row_route(has_primary_key, row), has_primary_key),
{
}

// === Body limit ===

/// A request refused for its size: the error and the value of the
/// `X-Gateway-Max-Body-Size` response header.
#[derive(Debug)]
pub struct BodyLimitRejection {
    pub error: GatewayError,
    pub max_body_size_header: String,
}

/// Whether a request is refused for its declared size: a `POST` or `PUT`
/// whose `Content-Length` reads as a number above the limit.
pub open spec fn exceeds_body_limit(method: Seq<char>, content_length: Option<Seq<char>>, max: usize) -> bool {
    &&& (method == "POST"@ || method == "PUT"@)
    &&& content_length matches Some(t)
    &&& parse_uint(t, usize::MAX as int) matches Ok(n)
    &&& n > max
}

/// Checks a request's declared body size against the limit.
pub fn body_limit_check(
    method: &str,
    content_length: Option<&str>,
    max_body_size: usize,
) -> (r: Result<(), BodyLimitRejection>)
    ensures
        r is Err <==> exceeds_body_limit(
            method@,
            match content_length {
                Some(t) => Some(t@),
                None => None,
            },
            max_body_size,
        ),
        r matches Err(rej) ==> rej.error == (GatewayError::BodyLimitTooLarge { limit: max_body_size })
            && rej.max_body_size_header@ == decimal(max_body_size as nat),
{
    if str_equal(method, "POST") || str_equal(method, "PUT") {
        if let Some(t) = content_length {
            if let Ok(size) = parse_unsigned(t, usize::MAX as u64) {
                if size > max_body_size as u64 {
                    return Err(
                        BodyLimitRejection {
                            error: GatewayError::BodyLimitTooLarge { limit: max_body_size },
                            max_body_size_header: u64_to_decimal(max_body_size as u64),
                        },
                    );
                }
            }
        }
    }
    Ok(())
}

// === Responses ===

/// Batch lookup request body: the primary key values of each lookup.
#[derive(Debug)]
pub struct BatchLookupRequest {
    pub keys: Vec<Vec<(String, String)>>,
}

/// Column information of a table info response.
#[derive(Debug)]
pub struct ColumnInfo {
    /// Column name
    pub name: String,
    /// Column data type
    pub data_type: String,
}

/// Table information response.
#[derive(Debug)]
pub struct TableInfoResponse {
    /// Unique table identifier
    pub table_id: i64,
    /// Database name
    pub database: String,
    /// Table name
    pub table: String,
    /// Column definitions
    pub columns: Vec<ColumnInfo>,
    /// Whether the table has a primary key
    pub has_primary_key: bool,
    /// Number of buckets
    pub num_buckets: i32,
}

/// The answer to a prefix scan, which the gateway does not implement yet.
pub fn prefix_scan() -> (r: Result<Vec<JsonValue>, GatewayError>)
    ensures
        r matches Err(GatewayError::Internal(m)) && m@ == "prefix scan not yet implemented"@,
{
    Err(GatewayError::Internal(String::from_str("prefix scan not yet implemented")))
}

} // verus!
