//! Decisions of the Fluss backend: which credentials a request uses, the key
//! row of a primary-key lookup, scan subscriptions and limits, which writes a
//! table accepts, and the JSON rows of a scan or lookup result.
use vstd::prelude::*;
use crate::config::AuthConfig;
use crate::pool::chosen_credentials;
use crate::server::auth::BasicAuthCredentials;
use crate::text::{push_str, str_equal};
use crate::types::{GatewayError, LookupParams, ScanParams, WriteResult};
use crate::types::datum::{
    json_to_datum, text_to_datum, DataType, Datum, DatumError, DatumErrorView,
    DatumView, JsonValue,
};

pub use crate::text::hex_encode;

verus! {

broadcast use vstd::string::group_string_axioms;

/// Credentials a backend call connects with: the request's own, otherwise
/// the configured startup credentials.
pub fn request_credentials(creds: Option<&BasicAuthCredentials>, auth: &AuthConfig) -> (r: (
    String,
    String,
))
    ensures
        (r.0@, r.1@) == chosen_credentials(
            match creds {
                Some(c) => Some((c.username@, c.password@)),
                None => None,
            },
            *auth,
        ),
{
    match creds {
        Some(c) => (c.username.clone(), c.password.clone()),
        None => (auth.startup_username.clone(), auth.startup_password.clone()),
    }
}

/// The Fluss client's error type, carried opaquely.
#[verifier::external_type_specification]
#[verifier::external_body]
pub struct ExFlussError(fluss::error::Error);

/// Calls `ToString::to_string` on a Fluss client error, that is its
/// `Display` text. Nothing is claimed of the text: it embeds the `Debug`
/// output of nested errors, such as operating-system messages.
#[verifier::external_body]
fn fluss_error_text(e: &fluss::error::Error) -> (s: String) {
    e.to_string()
}

/// Maps a Fluss client error to the gateway's Fluss error (HTTP 500),
/// carrying the client's message.
pub fn fluss_err(e: fluss::error::Error) -> (r: GatewayError)
    ensures
        r is FlussError,
{
    GatewayError::FlussError(fluss_error_text(&e))
}

/// A column of a table schema: its name and type.
#[derive(Debug)]
pub struct ColumnDesc {
    pub name: String,
    pub data_type: DataType,
}

/// Position of the first column named `name`, or the number of columns.
pub open spec fn column_index(columns: Seq<ColumnDesc>, name: Seq<char>) -> int
    decreases columns.len(),
{
    if columns.len() == 0 {
        0
    } else if columns[0].name@ == name {
        0
    } else {
        1 + column_index(columns.drop_first(), name)
    }
}

/// Why a lookup key row cannot be built.
pub enum KeyRowErrorView {
    NotPrimaryKeyTable,
    NoPrimaryKey,
    MissingPk(Seq<char>),
    UnknownColumn(Seq<char>),
    Conversion(int, DatumErrorView),
}

/// The key row built from the first `pks` primary key columns: all fields
/// null except the key columns, each set from its query parameter converted
/// to the column's type; the first key column without a parameter, without a
/// column, or whose value does not convert is the error.
pub open spec fn key_row(
    columns: Seq<ColumnDesc>,
    pks: Seq<String>,
    params: Map<Seq<char>, Seq<char>>,
) -> Result<Seq<DatumView>, KeyRowErrorView>
    decreases pks.len(),
{
    if pks.len() == 0 {
        Ok(Seq::new(columns.len(), |i: int| DatumView::Null))
    } else {
        match key_row(columns, pks.drop_last(), params) {
            Err(e) => Err(e),
            Ok(row) => {
                let name = pks.last()@;
                if !params.dom().contains(name) {
                    Err(KeyRowErrorView::MissingPk(name))
                } else if column_index(columns, name) >= columns.len() {
                    Err(KeyRowErrorView::UnknownColumn(name))
                } else {
                    let idx = column_index(columns, name);
                    match text_to_datum(params[name], columns[idx].data_type) {
                        Ok(d) => Ok(row.update(idx, d)),
                        Err(e) => Err(KeyRowErrorView::Conversion(idx, e)),
                    }
                }
            },
        }
    }
}

/// The key row of a point lookup, or why there is none: the table must have
/// a primary key, and then `key_row` decides.
pub open spec fn lookup_key(
    has_primary_key: bool,
    columns: Seq<ColumnDesc>,
    primary_key: Option<Seq<String>>,
    params: Map<Seq<char>, Seq<char>>,
) -> Result<Seq<DatumView>, KeyRowErrorView> {
    if !has_primary_key {
        Err(KeyRowErrorView::NotPrimaryKeyTable)
    } else {
        match primary_key {
            None => Err(KeyRowErrorView::NoPrimaryKey),
            Some(pks) => key_row(columns, pks, params),
        }
    }
}

proof fn lemma_column_index_found(columns: Seq<ColumnDesc>, name: Seq<char>)
    ensures
        0 <= column_index(columns, name) <= columns.len(),
        column_index(columns, name) < columns.len() ==> columns[column_index(columns, name)].name@
            == name,
    decreases columns.len(),
{
    if columns.len() > 0 && columns[0].name@ != name {
        lemma_column_index_found(columns.drop_first(), name);
    }
}

/// A built key row has a field per column. Each key column's field is its
/// query value converted to that column's own type, exactly as a JSON string
/// of that value is converted when produced (so a `STRING` key is that
/// string); every other field is null.
pub proof fn lemma_key_row_fields(
    columns: Seq<ColumnDesc>,
    pks: Seq<String>,
    params: Map<Seq<char>, Seq<char>>,
)
    ensures
        key_row(columns, pks, params) matches Ok(row) ==> {
            &&& row.len() == columns.len()
            &&& forall|j: int|
                #![trigger pks[j]]
                0 <= j < pks.len() ==> {
                    let name = pks[j]@;
                    let idx = column_index(columns, name);
                    &&& params.dom().contains(name)
                    &&& 0 <= idx < columns.len()
                    &&& columns[idx].name@ == name
                    &&& text_to_datum(params[name], columns[idx].data_type) == Ok::<
                        DatumView,
                        DatumErrorView,
                    >(row[idx])
                }
            &&& forall|i: int|
                0 <= i < columns.len() && !(exists|j: int|
                    0 <= j < pks.len() && column_index(columns, #[trigger] pks[j]@) == i)
                    ==> row[i] == DatumView::Null
        },
    decreases pks.len(),
{
    if pks.len() > 0 {
        let init = pks.drop_last();
        lemma_key_row_fields(columns, init, params);
        let name = pks.last()@;
        lemma_column_index_found(columns, name);
        if let Ok(row) = key_row(columns, pks, params) {
            let prev = key_row(columns, init, params)->Ok_0;
            let idx = column_index(columns, name);
            assert(row == prev.update(idx, row[idx]));
            assert forall|j: int| #![trigger pks[j]] 0 <= j < pks.len() implies {
                let n = pks[j]@;
                let k = column_index(columns, n);
                &&& params.dom().contains(n)
                &&& 0 <= k < columns.len()
                &&& columns[k].name@ == n
                &&& text_to_datum(params[n], columns[k].data_type) == Ok::<
                    DatumView,
                    DatumErrorView,
                >(row[k])
            } by {
                if j < pks.len() - 1 {
                    assert(pks[j] == init[j]);
                    let k = column_index(columns, pks[j]@);
                    if k == idx {
                        lemma_column_index_found(columns, pks[j]@);
                        assert(pks[j]@ == name);
                    }
                }
            }
            assert forall|i: int|
                0 <= i < columns.len() && !(exists|j: int|
                    0 <= j < pks.len() && column_index(columns, #[trigger] pks[j]@) == i)
                    implies row[i] == DatumView::Null by {
                assert(i != idx) by {
                    if i == idx {
                        assert(column_index(columns, pks[pks.len() - 1]@) == i);
                    }
                }
                if exists|j: int| 0 <= j < init.len() && column_index(columns, #[trigger] init[j]@) == i {
                    let j = choose|j: int| 0 <= j < init.len() && column_index(columns, #[trigger] init[j]@) == i;
                    assert(pks[j] == init[j]);
                }
            }
        }
    } else {
        if let Ok(row) = key_row(columns, pks, params) {
            assert(row == Seq::new(columns.len(), |i: int| DatumView::Null));
        }
    }
}

/// Why a lookup key row cannot be built: a request error, or the value of
/// the key column at position `column` does not convert to its type.
#[derive(Debug)]
pub enum KeyRowError {
    Request(GatewayError),
    Conversion { column: usize, error: DatumError },
}

/// The error a key row failure is reported as.
pub open spec fn key_row_error_matches(e: KeyRowError, v: KeyRowErrorView) -> bool {
    match v {
        KeyRowErrorView::NotPrimaryKeyTable => e matches KeyRowError::Request(
            GatewayError::BadRequest(m),
        ) && m@ == "lookup requires a primary key table"@,
        KeyRowErrorView::NoPrimaryKey => e matches KeyRowError::Request(
            GatewayError::BadRequest(m),
        ) && m@ == "no primary key defined"@,
        KeyRowErrorView::MissingPk(name) => e matches KeyRowError::Request(
            GatewayError::BadRequest(m),
        ) && m@ == "missing pk column: "@ + name,
        KeyRowErrorView::UnknownColumn(name) => e matches KeyRowError::Request(
            GatewayError::BadRequest(m),
        ) && m@ == "unknown column: "@ + name,
        KeyRowErrorView::Conversion(idx, d) => e matches KeyRowError::Conversion { column, error }
            && column == idx && error@ == d,
    }
}

/// Views of a row of field values.
pub open spec fn row_view(row: Seq<Datum>) -> Seq<DatumView> {
    row.map_values(|d: Datum| d@)
}

fn find_column(columns: &Vec<ColumnDesc>, name: &str) -> (k: usize)
    ensures
        k == column_index(columns@, name@),
        k <= columns.len(),
{
    let mut i: usize = 0;
    assert(columns@.skip(0) =~= columns@);
    while i < columns.len()
        invariant
            i <= columns.len(),
            column_index(columns@, name@) == i + column_index(columns@.skip(i as int), name@),
        decreases columns.len() - i,
    {
        assert(columns@.skip(i as int)[0] == columns@[i as int]);
        assert(columns@.skip(i as int).drop_first() =~= columns@.skip(i + 1));
        if str_equal(columns[i].name.as_str(), name) {
            return i;
        }
        i = i + 1;
    }
    assert(columns@.skip(i as int) =~= Seq::<ColumnDesc>::empty());
    i
}

fn message(prefix: &str, name: &str) -> (s: String)
    ensures
        s@ == prefix@ + name@,
{
    let mut s = String::from_str(prefix);
    push_str(&mut s, name);
    s
}

/// Builds the key row of a point lookup on a table with the given schema.
pub fn lookup_key_row(
    has_primary_key: bool,
    columns: &Vec<ColumnDesc>,
    primary_key: &Option<Vec<String>>,
    params: &LookupParams,
) -> (r: Result<Vec<Datum>, KeyRowError>)
    ensures
        match r {
            Ok(row) => lookup_key(
                has_primary_key,
                columns@,
                match primary_key {
                    Some(p) => Some(p@),
                    None => None,
                },
                params@,
            ) == Ok::<Seq<DatumView>, KeyRowErrorView>(row_view(row@)),
            Err(e) => lookup_key(
                has_primary_key,
                columns@,
                match primary_key {
                    Some(p) => Some(p@),
                    None => None,
                },
                params@,
            ) matches Err(v) && key_row_error_matches(e, v),
        },
{
    proof {
        reveal_strlit("lookup requires a primary key table");
        reveal_strlit("no primary key defined");
        reveal_strlit("missing pk column: ");
        reveal_strlit("unknown column: ");
    }
    if !has_primary_key {
        return Err(
            KeyRowError::Request(
                GatewayError::BadRequest(
                    String::from_str("lookup requires a primary key table"),
                ),
            ),
        );
    }
    let pks = match primary_key {
        Some(p) => p,
        None => {
            return Err(
                KeyRowError::Request(
                    GatewayError::BadRequest(String::from_str("no primary key defined")),
                ),
            )
        },
    };
    assert(lookup_key(
        has_primary_key,
        columns@,
        match primary_key {
            Some(p) => Some(p@),
            None => None,
        },
        params@,
    ) == key_row(columns@, pks@, params@));
    let mut row: Vec<Datum> = Vec::new();
    let mut c: usize = 0;
    while c < columns.len()
        invariant
            c <= columns.len(),
            row.len() == c,
            forall|j: int| 0 <= j < c ==> (#[trigger] row@[j]) matches Datum::Null,
        decreases columns.len() - c,
    {
        row.push(Datum::Null);
        c = c + 1;
    }
    assert(pks@.take(0) =~= Seq::<String>::empty());
    assert(row_view(row@) =~= Seq::new(columns@.len(), |i: int| DatumView::Null));
    let mut k: usize = 0;
    while k < pks.len()
        invariant
            k <= pks.len(),
            row.len() == columns.len(),
            lookup_key(
                has_primary_key,
                columns@,
                match primary_key {
                    Some(p) => Some(p@),
                    None => None,
                },
                params@,
            ) == key_row(columns@, pks@, params@),
            key_row(columns@, pks@.take(k as int), params@) == Ok::<
                Seq<DatumView>,
                KeyRowErrorView,
            >(row_view(row@)),
        decreases pks.len() - k,
    {
        let name = pks[k].as_str();
        assert(pks@.take(k + 1).drop_last() =~= pks@.take(k as int));
        assert(pks@.take(k + 1).last() == pks@[k as int]);
        let value = match params.get(name) {
            Some(v) => v,
            None => {
                assert(pks@.take(k + 1).last()@ == name@);
                assert(key_row(columns@, pks@.take(k + 1), params@) == Err::<
                    Seq<DatumView>,
                    KeyRowErrorView,
                >(KeyRowErrorView::MissingPk(name@)));
                proof {
                    lemma_key_row_error_persists(columns@, pks@, params@, (k + 1) as int);
                }
                let m = message("missing pk column: ", name);
                return Err(KeyRowError::Request(GatewayError::BadRequest(m)));
            },
        };
        let idx = find_column(columns, name);
        if idx >= columns.len() {
            assert(pks@.take(k + 1).last()@ == name@);
            assert(key_row(columns@, pks@.take(k + 1), params@) == Err::<
                Seq<DatumView>,
                KeyRowErrorView,
            >(KeyRowErrorView::UnknownColumn(name@)));
            proof {
                lemma_key_row_error_persists(columns@, pks@, params@, (k + 1) as int);
            }
            let m = message("unknown column: ", name);
            return Err(KeyRowError::Request(GatewayError::BadRequest(m)));
        }
        let datum = match json_to_datum(
            &JsonValue::String(String::from_str(value)),
            &columns[idx].data_type,
        ) {
            Ok(d) => d,
            Err(e) => {
                proof {
                    lemma_key_row_error_persists(columns@, pks@, params@, (k + 1) as int);
                }
                return Err(KeyRowError::Conversion { column: idx, error: e });
            },
        };
        let ghost before = row@;
        row.set(idx, datum);
        assert(row_view(row@) =~= row_view(before).update(idx as int, row@[idx as int]@));
        k = k + 1;
    }
    assert(pks@.take(pks@.len() as int) =~= pks@);
    Ok(row)
}

/// Once the key row of a prefix of the key columns is an error, so is the
/// key row of every longer prefix: the same error.
proof fn lemma_key_row_error_persists(
    columns: Seq<ColumnDesc>,
    pks: Seq<String>,
    params: Map<Seq<char>, Seq<char>>,
    k: int,
)
    requires
        0 <= k <= pks.len(),
        key_row(columns, pks.take(k), params) is Err,
    ensures
        key_row(columns, pks, params) == key_row(columns, pks.take(k), params),
    decreases pks.len() - k,
{
    if k < pks.len() {
        assert(pks.take(k + 1).drop_last() =~= pks.take(k));
        lemma_key_row_error_persists(columns, pks, params, k + 1);
    } else {
        assert(pks.take(k) =~= pks);
    }
}

// === Log scan ===

/// Position of the first of `names` equal to `name`, or their number.
pub open spec fn name_index(names: Seq<String>, name: Seq<char>) -> int
    decreases names.len(),
{
    if names.len() == 0 {
        0
    } else if names[0]@ == name {
        0
    } else {
        1 + name_index(names.drop_first(), name)
    }
}

fn find_name(names: &Vec<String>, name: &str) -> (k: usize)
    ensures
        k == name_index(names@, name@),
        k <= names.len(),
{
    let mut i: usize = 0;
    assert(names@.skip(0) =~= names@);
    while i < names.len()
        invariant
            i <= names.len(),
            name_index(names@, name@) == i + name_index(names@.skip(i as int), name@),
        decreases names.len() - i,
    {
        assert(names@.skip(i as int)[0] == names@[i as int]);
        assert(names@.skip(i as int).drop_first() =~= names@.skip(i + 1));
        if str_equal(names[i].as_str(), name) {
            return i;
        }
        i = i + 1;
    }
    assert(names@.skip(i as int) =~= Seq::<String>::empty());
    i
}

/// The column positions a scan projection names, in the order given: each
/// name is the first column of that name. The first name that matches no
/// column is refused with `unknown column: <name>`.
pub fn projection_indices(column_names: &Vec<String>, projection: &Vec<String>) -> (r: Result<
    Vec<usize>,
    GatewayError,
>)
    ensures
        match r {
            Ok(ks) => ks@.len() == projection@.len() && forall|i: int|
                0 <= i < projection@.len() ==> #[trigger] ks@[i] == name_index(
                    column_names@,
                    projection@[i]@,
                ) && ks@[i] < column_names@.len(),
            Err(e) => exists|i: int|
                #![trigger projection@[i]]
                {
                    &&& 0 <= i < projection@.len()
                    &&& name_index(column_names@, projection@[i]@) >= column_names@.len()
                    &&& forall|j: int|
                        0 <= j < i ==> name_index(column_names@, (#[trigger] projection@[j])@)
                            < column_names@.len()
                    &&& e matches GatewayError::BadRequest(m) && m@ == "unknown column: "@
                        + projection@[i]@
                },
        },
{
    let mut ks: Vec<usize> = Vec::new();
    let mut i: usize = 0;
    while i < projection.len()
        invariant
            i <= projection.len(),
            ks@.len() == i,
            forall|j: int|
                0 <= j < i ==> #[trigger] ks@[j] == name_index(column_names@, projection@[j]@)
                    && ks@[j] < column_names@.len(),
        decreases projection.len() - i,
    {
        let k = find_name(column_names, projection[i].as_str());
        if k >= column_names.len() {
            assert forall|j: int| 0 <= j < i implies name_index(
                column_names@,
                (#[trigger] projection@[j])@,
            ) < column_names@.len() by {
                assert(ks@[j] == name_index(column_names@, projection@[j]@));
            }
            return Err(GatewayError::BadRequest(message("unknown column: ", projection[i].as_str())));
        }
        ks.push(k);
        i = i + 1;
    }
    Ok(ks)
}

/// Buckets a scan subscribes to and how long it polls.
#[derive(Debug)]
pub struct ScanPlan {
    /// Buckets `0..num_buckets`, each from its earliest offset
    pub buckets: Vec<i32>,
    /// Poll timeout in milliseconds
    pub timeout_ms: u64,
}

/// Default poll timeout of a scan, in milliseconds.
pub const DEFAULT_SCAN_TIMEOUT_MS: u64 = 5000;

/// Plans a scan of a table with `num_buckets` buckets: every bucket, polled
/// for the requested timeout (5000 ms when none is given).
pub fn scan_plan(params: &ScanParams, num_buckets: i32) -> (p: ScanPlan)
    ensures
        p.buckets@.len() == (if num_buckets > 0 {
            num_buckets as int
        } else {
            0
        }),
        forall|i: int| 0 <= i < p.buckets@.len() ==> p.buckets@[i] == i,
        p.timeout_ms == match params.timeout_ms {
            Some(t) => t,
            None => DEFAULT_SCAN_TIMEOUT_MS,
        },
{
    let mut buckets: Vec<i32> = Vec::new();
    let mut b: i32 = 0;
    while b < num_buckets
        invariant
            0 <= b,
            num_buckets > 0 ==> b <= num_buckets,
            num_buckets <= 0 ==> b == 0,
            buckets@.len() == b,
            forall|i: int| 0 <= i < buckets@.len() ==> buckets@[i] == i,
        decreases num_buckets - b,
    {
        buckets.push(b);
        b = b + 1;
    }
    let timeout_ms = match params.timeout_ms {
        Some(t) => t,
        None => DEFAULT_SCAN_TIMEOUT_MS,
    };
    ScanPlan { buckets, timeout_ms }
}

/// Keeps the first `limit` rows when a limit is given.
pub fn apply_limit<T>(rows: Vec<T>, limit: Option<usize>) -> (r: Vec<T>)
    ensures
        r@ == match limit {
            Some(l) => if l < rows@.len() {
                rows@.take(l as int)
            } else {
                rows@
            },
            None => rows@,
        },
{
    let mut rows = rows;
    if let Some(l) = limit {
        rows.truncate(l);
    }
    rows
}

// === Writes ===

/// The write operations of the gateway.
#[derive(Clone, Copy, Debug, PartialEq, Eq, Structural)]
pub enum WriteKind {
    Append,
    Upsert,
    Delete,
}

/// Whether a table accepts a write: appends only to log tables, upserts and
/// deletes only to primary key tables.
pub open spec fn write_allowed(kind: WriteKind, has_primary_key: bool) -> bool {
    match kind {
        WriteKind::Append => !has_primary_key,
        WriteKind::Upsert | WriteKind::Delete => has_primary_key,
    }
}

/// Checks that a table accepts a write; otherwise the `InvalidOperation`
/// error the gateway answers with.
pub fn check_write(kind: WriteKind, has_primary_key: bool) -> (r: Result<(), GatewayError>)
    ensures
        r is Ok <==> write_allowed(kind, has_primary_key),
        r matches Err(GatewayError::InvalidOperation(m)) ==> m@ == match kind {
            WriteKind::Append => "cannot append to a primary key table, use upsert instead"@,
            WriteKind::Upsert => "cannot upsert to a log table, use append instead"@,
            WriteKind::Delete => "cannot delete from a log table"@,
        },
        r is Err ==> r matches Err(GatewayError::InvalidOperation(_)),
{
    match kind {
        WriteKind::Append => if has_primary_key {
            Err(
                GatewayError::InvalidOperation(
                    String::from_str("cannot append to a primary key table, use upsert instead"),
                ),
            )
        } else {
            Ok(())
        },
        WriteKind::Upsert => if !has_primary_key {
            Err(
                GatewayError::InvalidOperation(
                    String::from_str("cannot upsert to a log table, use append instead"),
                ),
            )
        } else {
            Ok(())
        },
        WriteKind::Delete => if !has_primary_key {
            Err(GatewayError::InvalidOperation(String::from_str("cannot delete from a log table")))
        } else {
            Ok(())
        },
    }
}

/// Result of a write of `row_count` rows.
pub fn write_result(row_count: usize) -> (w: WriteResult)
    ensures
        w.row_count == row_count,
{
    WriteResult { row_count }
}

// === Result rows as JSON ===

/// The JSON object of row `r` of a result batch: each column name with that
/// column's value in the row.
pub open spec fn row_object(names: Seq<String>, columns: Seq<Vec<JsonValue>>, r: int) -> Seq<(Seq<char>, JsonValue)> {
    Seq::new(names.len(), |c: int| (names[c]@, columns[c]@[r]))
}

/// A JSON value that is not an array or an object, as the cells of a
/// result batch are.
pub open spec fn is_scalar(v: JsonValue) -> bool {
    !(v matches JsonValue::Array(_)) && !(v matches JsonValue::Object(_))
}

/// Copies a scalar JSON value.
pub fn clone_scalar(v: &JsonValue) -> (w: JsonValue)
    requires
        is_scalar(*v),
    ensures
        w == *v,
{
    match v {
        JsonValue::Null => JsonValue::Null,
        JsonValue::Bool(b) => JsonValue::Bool(*b),
        JsonValue::Number(n) => JsonValue::Number(
            crate::types::datum::JsonNumber { as_i64: n.as_i64, text: n.text.clone() },
        ),
        JsonValue::String(t) => JsonValue::String(t.clone()),
        JsonValue::Array(_) => JsonValue::Null,
        JsonValue::Object(_) => JsonValue::Null,
    }
}

/// The rows of a result batch as JSON objects, one per row, each mapping the
/// column names to the row's values. `columns[c]` holds column `c`'s values.
pub fn record_batch_to_json(
    column_names: &Vec<String>,
    columns: &Vec<Vec<JsonValue>>,
    num_rows: usize,
) -> (out: Vec<JsonValue>)
    requires
        columns.len() == column_names.len(),
        forall|c: int| 0 <= c < columns.len() ==> #[trigger] columns@[c].len() == num_rows,
        forall|c: int, r: int|
            0 <= c < columns.len() && 0 <= r < num_rows ==> is_scalar(#[trigger] columns@[c]@[r]),
    ensures
        out.len() == num_rows,
        forall|r: int|
            0 <= r < num_rows ==> (#[trigger] out@[r] matches JsonValue::Object(fields) && fields@.map_values(
                |f: (String, JsonValue)| (f.0@, f.1),
            ) == row_object(column_names@, columns@, r)),
{
    let mut out: Vec<JsonValue> = Vec::new();
    let mut r: usize = 0;
    while r < num_rows
        invariant
            r <= num_rows,
            columns.len() == column_names.len(),
            forall|c: int| 0 <= c < columns.len() ==> #[trigger] columns@[c].len() == num_rows,
            forall|c: int, r: int|
                0 <= c < columns.len() && 0 <= r < num_rows ==> is_scalar(#[trigger] columns@[c]@[r]),
            out.len() == r,
            forall|q: int|
                0 <= q < r ==> (#[trigger] out@[q] matches JsonValue::Object(fields)
                    && fields@.map_values(|f: (String, JsonValue)| (f.0@, f.1)) == row_object(
                    column_names@,
                    columns@,
                    q,
                )),
        decreases num_rows - r,
    {
        let mut fields: Vec<(String, JsonValue)> = Vec::new();
        let mut c: usize = 0;
        while c < column_names.len()
            invariant
                c <= column_names.len(),
                r < num_rows,
                columns.len() == column_names.len(),
                forall|c2: int| 0 <= c2 < columns.len() ==> #[trigger] columns@[c2].len() == num_rows,
                forall|c2: int, r2: int|
                    0 <= c2 < columns.len() && 0 <= r2 < num_rows ==> is_scalar(
                        #[trigger] columns@[c2]@[r2],
                    ),
                fields@.map_values(|f: (String, JsonValue)| (f.0@, f.1)) == row_object(
                    column_names@,
                    columns@,
                    r as int,
                ).take(c as int),
            decreases column_names.len() - c,
        {
            assert(columns@[c as int].len() == num_rows);
            let ghost before = fields@;
            let name = column_names[c].clone();
            let cell = clone_scalar(&columns[c][r]);
            fields.push((name, cell));
            let ghost target = row_object(column_names@, columns@, r as int);
            assert(fields@ == before.push((name, cell)));
            assert(target.take(c + 1) =~= target.take(c as int).push(target[c as int]));
            assert(fields@.map_values(|f: (String, JsonValue)| (f.0@, f.1)) =~= before.map_values(
                |f: (String, JsonValue)| (f.0@, f.1),
            ).push((name@, cell)));
            c = c + 1;
        }
        assert(row_object(column_names@, columns@, r as int).take(column_names.len() as int)
            =~= row_object(column_names@, columns@, r as int));
        out.push(JsonValue::Object(fields));
        r = r + 1;
    }
    out
}

} // verus!
