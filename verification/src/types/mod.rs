//! Request and response types of the REST API, and the gateway's error type.
use vstd::prelude::*;
use crate::text::{chars_of, decimal, push_decimal, push_str, str_equal};

pub mod datum;

verus! {

broadcast use vstd::string::group_string_axioms;

// === Request/Response DTOs ===

/// Value `key` was last given in `entries`, as a map insert of each entry in
/// order would leave it.
pub open spec fn last_value(entries: Seq<(String, String)>, key: Seq<char>) -> Option<Seq<char>>
    decreases entries.len(),
{
    if entries.len() == 0 {
        None
    } else if entries.last().0@ == key {
        Some(entries.last().1@)
    } else {
        last_value(entries.drop_last(), key)
    }
}

/// Lookup parameters: pk column name -> value (from the query string).
#[derive(Debug)]
pub struct LookupParams {
    params: Vec<(String, String)>,
}

impl View for LookupParams {
    type V = Map<Seq<char>, Seq<char>>;

    closed spec fn view(&self) -> Map<Seq<char>, Seq<char>> {
        Map::new(
            |k: Seq<char>| last_value(self.params@, k) is Some,
            |k: Seq<char>| last_value(self.params@, k)->0,
        )
    }
}

impl LookupParams {
    /// Parameters from `(name, value)` pairs; a name given twice keeps its last value.
    pub fn new(params: Vec<(String, String)>) -> (p: Self)
        ensures
            forall|k: Seq<char>|
                #![trigger p@.dom().contains(k)]
                p@.dom().contains(k) == (last_value(params@, k) is Some) && (p@.dom().contains(k)
                    ==> p@[k] == last_value(params@, k)->0),
    {
        LookupParams { params }
    }

    /// The value given for column `col`, if any.
    pub fn get(&self, col: &str) -> (r: Option<&str>)
        ensures
            match r {
                Some(v) => self@.dom().contains(col@) && self@[col@] == v@,
                None => !self@.dom().contains(col@),
            },
    {
        let mut i = self.params.len();
        assert(self.params@.take(i as int) =~= self.params@);
        while i > 0
            invariant
                i <= self.params@.len(),
                last_value(self.params@, col@) == last_value(self.params@.take(i as int), col@),
            decreases i,
        {
            let ghost prefix = self.params@.take(i as int);
            assert(prefix.drop_last() =~= self.params@.take(i - 1));
            if str_equal(self.params[i - 1].0.as_str(), col) {
                return Some(self.params[i - 1].1.as_str());
            }
            i = i - 1;
        }
        None
    }
}

/// Scan parameters (JSON body)
#[derive(Debug)]
pub struct ScanParams {
    pub projection: Option<Vec<String>>,
    pub limit: Option<usize>,
    pub timeout_ms: Option<u64>,
}

/// Write result response
#[derive(Debug)]
pub struct WriteResult {
    pub row_count: usize,
}

/// Produce request body
#[derive(Debug)]
pub struct ProduceRequest {
    pub format: Option<String>,
    pub rows: Vec<ProduceRow>,
}

/// One row of a produce request: values in column order, and an optional
/// change type (`"Delete"` deletes the row from a primary key table).
#[derive(Debug)]
pub struct ProduceRow {
    pub values: Vec<datum::JsonValue>,
    pub change_type: Option<String>,
}

// === Metadata Management DTOs ===

/// Create database request body
#[derive(Debug)]
pub struct CreateDatabaseRequest {
    pub database_name: String,
    pub comment: Option<String>,
    pub custom_properties: Vec<(String, String)>,
    pub ignore_if_exists: bool,
}

/// Drop database request body
#[derive(Debug)]
pub struct DropDatabaseRequest {
    pub ignore_if_not_exists: bool,
    pub cascade: bool,
}

/// Column specification for table creation
#[derive(Debug)]
pub struct ColumnSpec {
    pub name: String,
    pub data_type: String,
    pub comment: Option<String>,
}

/// Primary key specification
#[derive(Debug)]
pub struct PrimaryKeySpec {
    pub constraint_name: Option<String>,
    pub column_names: Vec<String>,
}

/// Create table request body
#[derive(Debug)]
pub struct CreateTableRequest {
    pub table_name: String,
    pub schema: Vec<ColumnSpec>,
    pub primary_key: Option<PrimaryKeySpec>,
    pub partition_keys: Option<Vec<String>>,
    pub bucket_count: Option<i32>,
    pub bucket_keys: Option<Vec<String>>,
    pub properties: Option<Vec<(String, String)>>,
    pub comment: Option<String>,
    pub ignore_if_exists: bool,
}

/// Drop table request body
#[derive(Debug)]
pub struct DropTableRequest {
    pub ignore_if_not_exists: bool,
}

/// Offset information for a specific bucket
#[derive(Debug)]
pub struct BucketOffset {
    pub bucket_id: i32,
    pub offset: i64,
}

/// List offsets response
#[derive(Debug)]
pub struct ListOffsetsResponse {
    pub table_path: String,
    pub spec: String,
    pub offsets: Vec<BucketOffset>,
}

/// List partitions response
#[derive(Debug)]
pub struct ListPartitionsResponse {
    pub table_path: String,
    pub partitions: Vec<PartitionInfo>,
}

/// Partition information
#[derive(Debug)]
pub struct PartitionInfo {
    pub partition_id: i64,
    pub partition_name: String,
    pub partition_spec: Vec<(String, String)>,
}

// === Gateway Error ===

#[derive(Debug)]
pub enum GatewayError {
    FlussError(String),
    BadRequest(String),
    InvalidOperation(String),
    Internal(String),
    Unauthorized(String),
    BodyLimitTooLarge { limit: usize },
}

/// HTTP status of an error.
pub open spec fn status_of(e: GatewayError) -> u16 {
    match e {
        GatewayError::BadRequest(_) => 400,
        GatewayError::InvalidOperation(_) => 422,
        GatewayError::FlussError(_) => 500,
        GatewayError::Internal(_) => 500,
        GatewayError::Unauthorized(_) => 401,
        GatewayError::BodyLimitTooLarge { .. } => 413,
    }
}

/// Gateway error code: the HTTP status followed by a two-digit suffix.
pub open spec fn code_of(e: GatewayError) -> u16 {
    match e {
        GatewayError::BadRequest(_) => 40001,
        GatewayError::InvalidOperation(_) => 42205,
        GatewayError::FlussError(_) => 50001,
        GatewayError::Internal(_) => 50001,
        GatewayError::Unauthorized(_) => 40101,
        GatewayError::BodyLimitTooLarge { .. } => 41301,
    }
}

/// Human-readable message of an error.
pub open spec fn message_of(e: GatewayError) -> Seq<char> {
    match e {
        GatewayError::FlussError(m) => "fluss error: "@ + m@,
        GatewayError::BadRequest(m) => "bad request: "@ + m@,
        GatewayError::InvalidOperation(m) => "invalid operation: "@ + m@,
        GatewayError::Internal(m) => "internal error: "@ + m@,
        GatewayError::Unauthorized(m) => "unauthorized: "@ + m@,
        GatewayError::BodyLimitTooLarge { limit } => "payload too large: request body exceeds the "@
            + decimal(limit as nat) + " byte limit"@,
    }
}

impl GatewayError {
    pub fn status_code(&self) -> (s: u16)
        ensures
            s == status_of(*self),
    {
        match self {
            GatewayError::BadRequest(_) => 400,
            GatewayError::InvalidOperation(_) => 422,
            GatewayError::FlussError(_) => 500,
            GatewayError::Internal(_) => 500,
            GatewayError::Unauthorized(_) => 401,
            GatewayError::BodyLimitTooLarge { .. } => 413,
        }
    }

    pub fn error_code(&self) -> (c: u16)
        ensures
            c == code_of(*self),
    {
        match self {
            GatewayError::BadRequest(_) => 40001,
            GatewayError::InvalidOperation(_) => 42205,
            GatewayError::FlussError(_) => 50001,
            GatewayError::Internal(_) => 50001,
            GatewayError::Unauthorized(_) => 40101,
            GatewayError::BodyLimitTooLarge { .. } => 41301,
        }
    }

    /// The error's message, as shown in the `message` field of an error response.
    pub fn to_string(&self) -> (s: String)
        ensures
            s@ == message_of(*self),
    {
        match self {
            GatewayError::FlussError(m) => prefixed("fluss error: ", m),
            GatewayError::BadRequest(m) => prefixed("bad request: ", m),
            GatewayError::InvalidOperation(m) => prefixed("invalid operation: ", m),
            GatewayError::Internal(m) => prefixed("internal error: ", m),
            GatewayError::Unauthorized(m) => prefixed("unauthorized: ", m),
            GatewayError::BodyLimitTooLarge { limit } => {
                let mut s = String::from_str("payload too large: request body exceeds the ");
                push_decimal(&mut s, *limit as u64);
                push_str(&mut s, " byte limit");
                s
            },
        }
    }
}

fn prefixed(prefix: &str, m: &String) -> (s: String)
    ensures
        s@ == prefix@ + m@,
{
    let mut s = String::from_str(prefix);
    push_str(&mut s, m.as_str());
    s
}

/// Every error code is its HTTP status followed by a two-digit suffix.
pub proof fn lemma_error_code_extends_status(e: GatewayError)
    ensures
        code_of(e) / 100 == status_of(e),
        code_of(e) % 100 < 100,
{
}

} // verus!
