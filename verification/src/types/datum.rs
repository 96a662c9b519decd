//! JSON values, Fluss column types, and the conversion of a JSON value into a
//! field value of a given column type.
use vstd::prelude::*;
use crate::text::{chars_of, decimal, digit_char, push_decimal, push_str, str_equal};

verus! {

broadcast use vstd::string::group_string_axioms;

/// A JSON number: its integer value when it has one that fits an `i64`, and
/// its JSON text.
#[derive(Debug)]
pub struct JsonNumber {
    pub as_i64: Option<i64>,
    pub text: String,
}

/// A JSON value.
#[derive(Debug)]
pub enum JsonValue {
    Null,
    Bool(bool),
    Number(JsonNumber),
    String(String),
    Array(Vec<JsonValue>),
    Object(Vec<(String, JsonValue)>),
}

/// Column data types of a Fluss table.
#[derive(Clone, Copy, Debug, PartialEq, Eq, Structural)]
pub enum DataType {
    Boolean,
    TinyInt,
    SmallInt,
    Int,
    BigInt,
    Float,
    Double,
    Char,
    String,
    Decimal,
    Date,
    Time,
    Timestamp,
    TimestampLTz,
    Bytes,
    Binary,
    Array,
    /// Fluss `MAP` type
    MapType,
    Row,
}

/// Where a floating-point field value comes from: the text of a JSON number
/// (read as a double, narrowed to a float for float columns), or a JSON
/// string to be parsed as a float of the column's width.
#[derive(Debug)]
pub enum FloatSource {
    Number(String),
    Text(String),
}

/// A field value of a row written to or looked up in Fluss. Floating-point
/// values are carried by their source text.
#[derive(Debug)]
pub enum Datum {
    Null,
    Bool(bool),
    Int8(i8),
    Int16(i16),
    Int32(i32),
    Int64(i64),
    Float32(FloatSource),
    Float64(FloatSource),
    String(String),
    Blob(Vec<u8>),
}

/// Why a JSON value could not become a field value.
#[derive(Debug)]
pub enum DatumError {
    /// A JSON number without an integer value for an integer column:
    /// "expected {kind}, got {got}".
    Expected { kind: String, got: String },
    /// A JSON string that does not parse as the column's type:
    /// "invalid {kind} '{text}': {reason}".
    Invalid { kind: String, text: String, reason: String },
    /// No conversion from this JSON value to this column type:
    /// "cannot convert {value:?} to {type:?}", rendered by the caller.
    Mismatch,
}

/// Why text does not parse as an integer, as Rust's integer parser reports it.
#[derive(Clone, Copy, Debug, PartialEq, Eq, Structural)]
pub enum IntErrorKind {
    Empty,
    InvalidDigit,
    PosOverflow,
    NegOverflow,
}

/// Rust's description of an integer parse error.
pub open spec fn int_error_text(k: IntErrorKind) -> Seq<char> {
    match k {
        IntErrorKind::Empty => "cannot parse integer from empty string"@,
        IntErrorKind::InvalidDigit => "invalid digit found in string"@,
        IntErrorKind::PosOverflow => "number too large to fit in target type"@,
        IntErrorKind::NegOverflow => "number too small to fit in target type"@,
    }
}

pub open spec fn is_digit(c: char) -> bool {
    '0' <= c <= '9'
}

pub open spec fn digit_value(c: char) -> int {
    c as int - '0' as int
}

/// Reads decimal digits left to right onto `acc` (subtracting each digit when
/// `negative`), failing at the first character that is not a digit or the
/// first digit that takes the value outside `lo..=hi`.
pub open spec fn scan_digits(digits: Seq<char>, acc: int, negative: bool, lo: int, hi: int) -> Result<
    int,
    IntErrorKind,
>
    decreases digits.len(),
{
    if digits.len() == 0 {
        Ok(acc)
    } else if !is_digit(digits[0]) {
        Err(IntErrorKind::InvalidDigit)
    } else {
        let next = if negative {
            acc * 10 - digit_value(digits[0])
        } else {
            acc * 10 + digit_value(digits[0])
        };
        if next > hi {
            Err(IntErrorKind::PosOverflow)
        } else if next < lo {
            Err(IntErrorKind::NegOverflow)
        } else {
            scan_digits(digits.drop_first(), next, negative, lo, hi)
        }
    }
}

/// Rust's parse of `s` as a signed integer in `lo..=hi`: an optional sign
/// (`+` or `-`, not alone) followed by decimal digits.
pub open spec fn parse_int(s: Seq<char>, lo: int, hi: int) -> Result<int, IntErrorKind> {
    if s.len() == 0 {
        Err(IntErrorKind::Empty)
    } else if (s[0] == '+' || s[0] == '-') && s.len() == 1 {
        Err(IntErrorKind::InvalidDigit)
    } else if s[0] == '+' {
        scan_digits(s.drop_first(), 0, false, lo, hi)
    } else if s[0] == '-' {
        scan_digits(s.drop_first(), 0, true, lo, hi)
    } else {
        scan_digits(s, 0, false, lo, hi)
    }
}

/// Rust's parse of `s` as an unsigned integer up to `hi`: an optional `+`
/// (not alone) followed by decimal digits.
pub open spec fn parse_uint(s: Seq<char>, hi: int) -> Result<int, IntErrorKind> {
    if s.len() == 0 {
        Err(IntErrorKind::Empty)
    } else if (s[0] == '+' || s[0] == '-') && s.len() == 1 {
        Err(IntErrorKind::InvalidDigit)
    } else if s[0] == '+' {
        scan_digits(s.drop_first(), 0, false, 0, hi)
    } else {
        scan_digits(s, 0, false, 0, hi)
    }
}

/// Rust's parse of `s` as a `bool`: exactly `true` or `false`.
pub open spec fn parse_bool(s: Seq<char>) -> Option<bool> {
    if s == "true"@ {
        Some(true)
    } else if s == "false"@ {
        Some(false)
    } else {
        None
    }
}

fn char_digit(c: char) -> (d: i128)
    requires
        is_digit(c),
    ensures
        d == digit_value(c),
{
    (c as u32 - '0' as u32) as i128
}

/// Parses `s` as a signed integer in `lo..=hi`, as Rust's integer parser does.
pub fn parse_integer(s: &str, lo: i64, hi: i64) -> (r: Result<i64, IntErrorKind>)
    requires
        lo <= 0 <= hi,
    ensures
        match r {
            Ok(v) => parse_int(s@, lo as int, hi as int) == Ok::<int, IntErrorKind>(v as int),
            Err(k) => parse_int(s@, lo as int, hi as int) == Err::<int, IntErrorKind>(k),
        },
{
    let v = chars_of(s);
    if v.len() == 0 {
        return Err(IntErrorKind::Empty);
    }
    if (v[0] == '+' || v[0] == '-') && v.len() == 1 {
        return Err(IntErrorKind::InvalidDigit);
    }
    let negative = v[0] == '-';
    let start: usize = if v[0] == '+' || v[0] == '-' {
        1
    } else {
        0
    };
    let ghost digits = v@.skip(start as int);
    assert(start == 1 ==> digits =~= s@.drop_first());
    assert(start == 0 ==> digits =~= s@);
    assert(parse_int(s@, lo as int, hi as int) == scan_digits(digits, 0, negative, lo as int, hi as int));
    let mut acc: i128 = 0;
    let mut i = start;
    while i < v.len()
        invariant
            start <= i <= v.len(),
            lo <= acc <= hi,
            parse_int(s@, lo as int, hi as int) == scan_digits(digits, 0, negative, lo as int, hi as int),
            scan_digits(digits, 0, negative, lo as int, hi as int) == scan_digits(
                v@.skip(i as int),
                acc as int,
                negative,
                lo as int,
                hi as int,
            ),
        decreases v.len() - i,
    {
        let c = v[i];
        assert(v@.skip(i as int)[0] == c);
        assert(v@.skip(i as int).drop_first() =~= v@.skip(i + 1));
        if !('0' <= c && c <= '9') {
            return Err(IntErrorKind::InvalidDigit);
        }
        let d = char_digit(c);
        let next: i128 = if negative {
            acc * 10 - d
        } else {
            acc * 10 + d
        };
        if next > hi as i128 {
            return Err(IntErrorKind::PosOverflow);
        }
        if next < lo as i128 {
            return Err(IntErrorKind::NegOverflow);
        }
        acc = next;
        i = i + 1;
    }
    assert(v@.skip(i as int) =~= Seq::<char>::empty());
    Ok(acc as i64)
}

/// Parses `s` as an unsigned integer up to `hi`, as Rust's integer parser does.
pub fn parse_unsigned(s: &str, hi: u64) -> (r: Result<u64, IntErrorKind>)
    ensures
        match r {
            Ok(v) => parse_uint(s@, hi as int) == Ok::<int, IntErrorKind>(v as int),
            Err(k) => parse_uint(s@, hi as int) == Err::<int, IntErrorKind>(k),
        },
{
    let v = chars_of(s);
    if v.len() == 0 {
        return Err(IntErrorKind::Empty);
    }
    if (v[0] == '+' || v[0] == '-') && v.len() == 1 {
        return Err(IntErrorKind::InvalidDigit);
    }
    let start: usize = if v[0] == '+' {
        1
    } else {
        0
    };
    let ghost digits = v@.skip(start as int);
    assert(start == 1 ==> digits =~= s@.drop_first());
    assert(start == 0 ==> digits =~= s@);
    assert(parse_uint(s@, hi as int) == scan_digits(digits, 0, false, 0, hi as int));
    let mut acc: i128 = 0;
    let mut i = start;
    while i < v.len()
        invariant
            start <= i <= v.len(),
            0 <= acc <= hi,
            parse_uint(s@, hi as int) == scan_digits(digits, 0, false, 0, hi as int),
            scan_digits(digits, 0, false, 0, hi as int) == scan_digits(
                v@.skip(i as int),
                acc as int,
                false,
                0,
                hi as int,
            ),
        decreases v.len() - i,
    {
        let c = v[i];
        assert(v@.skip(i as int)[0] == c);
        assert(v@.skip(i as int).drop_first() =~= v@.skip(i + 1));
        if !('0' <= c && c <= '9') {
            return Err(IntErrorKind::InvalidDigit);
        }
        let d = char_digit(c);
        let next: i128 = acc * 10 + d;
        if next > hi as i128 {
            return Err(IntErrorKind::PosOverflow);
        }
        acc = next;
        i = i + 1;
    }
    assert(v@.skip(i as int) =~= Seq::<char>::empty());
    Ok(acc as u64)
}

/// Parses `s` as a `bool`, as Rust's `bool` parser does.
pub fn parse_boolean(s: &str) -> (r: Option<bool>)
    ensures
        r == parse_bool(s@),
{
    proof {
        reveal_strlit("true");
        reveal_strlit("false");
    }
    if str_equal(s, "true") {
        Some(true)
    } else if str_equal(s, "false") {
        Some(false)
    } else {
        None
    }
}

/// A floating-point source as character sequences.
pub enum FloatSourceView {
    Number(Seq<char>),
    Text(Seq<char>),
}

/// A field value with its text and bytes as sequences.
pub enum DatumView {
    Null,
    Bool(bool),
    Int8(i8),
    Int16(i16),
    Int32(i32),
    Int64(i64),
    Float32(FloatSourceView),
    Float64(FloatSourceView),
    String(Seq<char>),
    Blob(Seq<u8>),
}

/// A conversion error with its texts as sequences.
pub enum DatumErrorView {
    Expected { kind: Seq<char>, got: Seq<char> },
    Invalid { kind: Seq<char>, text: Seq<char>, reason: Seq<char> },
    Mismatch,
}

impl View for FloatSource {
    type V = FloatSourceView;

    open spec fn view(&self) -> FloatSourceView {
        match self {
            FloatSource::Number(t) => FloatSourceView::Number(t@),
            FloatSource::Text(t) => FloatSourceView::Text(t@),
        }
    }
}

impl View for Datum {
    type V = DatumView;

    open spec fn view(&self) -> DatumView {
        match self {
            Datum::Null => DatumView::Null,
            Datum::Bool(b) => DatumView::Bool(*b),
            Datum::Int8(v) => DatumView::Int8(*v),
            Datum::Int16(v) => DatumView::Int16(*v),
            Datum::Int32(v) => DatumView::Int32(*v),
            Datum::Int64(v) => DatumView::Int64(*v),
            Datum::Float32(f) => DatumView::Float32(f@),
            Datum::Float64(f) => DatumView::Float64(f@),
            Datum::String(t) => DatumView::String(t@),
            Datum::Blob(b) => DatumView::Blob(b@),
        }
    }
}

impl View for DatumError {
    type V = DatumErrorView;

    open spec fn view(&self) -> DatumErrorView {
        match self {
            DatumError::Expected { kind, got } => DatumErrorView::Expected { kind: kind@, got: got@ },
            DatumError::Invalid { kind, text, reason } => DatumErrorView::Invalid {
                kind: kind@,
                text: text@,
                reason: reason@,
            },
            DatumError::Mismatch => DatumErrorView::Mismatch,
        }
    }
}

/// A conversion result as views.
pub open spec fn conversion_view(r: Result<Datum, DatumError>) -> Result<DatumView, DatumErrorView> {
    match r {
        Ok(d) => Ok(d@),
        Err(e) => Err(e@),
    }
}

/// A JSON number into an integer column named `kind`.
pub open spec fn number_to_int(n: JsonNumber, kind: Seq<char>, v: Option<DatumView>) -> Result<
    DatumView,
    DatumErrorView,
> {
    match v {
        Some(d) => Ok(d),
        None => Err(DatumErrorView::Expected { kind, got: n.text@ }),
    }
}

/// Text parsed as an integer column named `kind` with range `lo..=hi`.
pub open spec fn text_to_int(s: Seq<char>, kind: Seq<char>, lo: int, hi: int, bits64: bool) -> Result<
    DatumView,
    DatumErrorView,
> {
    match parse_int(s, lo, hi) {
        Ok(v) => if bits64 {
            Ok(DatumView::Int64(v as i64))
        } else {
            Ok(DatumView::Int32(v as i32))
        },
        Err(e) => Err(DatumErrorView::Invalid { kind, text: s, reason: int_error_text(e) }),
    }
}

/// What a JSON string `s` becomes in a column of type `dt`.
pub open spec fn text_to_datum(s: Seq<char>, dt: DataType) -> Result<DatumView, DatumErrorView> {
    match dt {
        DataType::String | DataType::Char => Ok(DatumView::String(s)),
        DataType::Bytes | DataType::Binary => Ok(DatumView::Blob(vstd::utf8::encode_utf8(s))),
        DataType::Int => text_to_int(s, "int"@, i32::MIN as int, i32::MAX as int, false),
        DataType::BigInt => text_to_int(s, "bigint"@, i64::MIN as int, i64::MAX as int, true),
        DataType::Boolean => match parse_bool(s) {
            Some(b) => Ok(DatumView::Bool(b)),
            None => Err(
                DatumErrorView::Invalid {
                    kind: "bool"@,
                    text: s,
                    reason: "provided string was not `true` or `false`"@,
                },
            ),
        },
        DataType::Float => Ok(DatumView::Float32(FloatSourceView::Text(s))),
        DataType::Double => Ok(DatumView::Float64(FloatSourceView::Text(s))),
        _ => Err(DatumErrorView::Mismatch),
    }
}

/// What a JSON value becomes in a column of type `dt`.
pub open spec fn datum_of(value: JsonValue, dt: DataType) -> Result<DatumView, DatumErrorView> {
    match value {
        JsonValue::Null => Ok(DatumView::Null),
        JsonValue::Bool(b) => match dt {
            DataType::Boolean => Ok(DatumView::Bool(b)),
            _ => Err(DatumErrorView::Mismatch),
        },
        JsonValue::Number(n) => match dt {
            DataType::TinyInt => number_to_int(
                n,
                "tinyint"@,
                match n.as_i64 {
                    Some(v) => Some(DatumView::Int8(v as i8)),
                    None => None,
                },
            ),
            DataType::SmallInt => number_to_int(
                n,
                "smallint"@,
                match n.as_i64 {
                    Some(v) => Some(DatumView::Int16(v as i16)),
                    None => None,
                },
            ),
            DataType::Int => number_to_int(
                n,
                "int"@,
                match n.as_i64 {
                    Some(v) => Some(DatumView::Int32(v as i32)),
                    None => None,
                },
            ),
            DataType::BigInt => number_to_int(
                n,
                "bigint"@,
                match n.as_i64 {
                    Some(v) => Some(DatumView::Int64(v)),
                    None => None,
                },
            ),
            DataType::Float => Ok(DatumView::Float32(FloatSourceView::Number(n.text@))),
            DataType::Double => Ok(DatumView::Float64(FloatSourceView::Number(n.text@))),
            _ => Err(DatumErrorView::Mismatch),
        },
        JsonValue::String(s) => text_to_datum(s@, dt),
        _ => Err(DatumErrorView::Mismatch),
    }
}

/// The decimal text of an integer, with a leading `-` when negative.
pub open spec fn int_text(v: int) -> Seq<char> {
    if v < 0 {
        seq!['-'] + decimal((-v) as nat)
    } else {
        decimal(v as nat)
    }
}

proof fn lemma_digit_char(d: nat)
    requires
        d < 10,
    ensures
        is_digit(digit_char(d)),
        digit_value(digit_char(d)) == d,
{
}

proof fn lemma_decimal_starts_with_digit(n: nat)
    ensures
        decimal(n).len() >= 1,
        is_digit(decimal(n)[0]),
    decreases n,
{
    if n < 10 {
        lemma_digit_char(n);
    } else {
        lemma_decimal_starts_with_digit(n / 10);
    }
}

/// Scanning one more digit continues from where the scan of the prefix ended.
proof fn lemma_scan_push(s: Seq<char>, c: char, acc: int, negative: bool, lo: int, hi: int, v: int)
    requires
        scan_digits(s, acc, negative, lo, hi) == Ok::<int, IntErrorKind>(v),
        is_digit(c),
        lo <= (if negative {
            v * 10 - digit_value(c)
        } else {
            v * 10 + digit_value(c)
        }) <= hi,
    ensures
        scan_digits(s.push(c), acc, negative, lo, hi) == Ok::<int, IntErrorKind>(
            if negative {
                v * 10 - digit_value(c)
            } else {
                v * 10 + digit_value(c)
            },
        ),
    decreases s.len(),
{
    if s.len() > 0 {
        let next = if negative {
            acc * 10 - digit_value(s[0])
        } else {
            acc * 10 + digit_value(s[0])
        };
        assert(s.push(c)[0] == s[0]);
        assert(s.push(c).drop_first() =~= s.drop_first().push(c));
        lemma_scan_push(s.drop_first(), c, next, negative, lo, hi, v);
        assert(scan_digits(s.push(c), acc, negative, lo, hi) == scan_digits(
            s.drop_first().push(c),
            next,
            negative,
            lo,
            hi,
        ));
    } else {
        let next = if negative {
            acc * 10 - digit_value(c)
        } else {
            acc * 10 + digit_value(c)
        };
        assert(v == acc);
        assert(s.push(c)[0] == c);
        assert(s.push(c).drop_first() =~= Seq::<char>::empty());
        assert(scan_digits(Seq::<char>::empty(), next, negative, lo, hi) == Ok::<int, IntErrorKind>(
            next,
        ));
    }
}

/// Scanning the decimal text of `m` from zero gives `m` (or `-m` when
/// scanning a negative number), when that value is in range.
proof fn lemma_scan_decimal(m: nat, negative: bool, lo: int, hi: int)
    requires
        lo <= 0 <= hi,
        negative ==> lo <= -m,
        !negative ==> m <= hi,
    ensures
        scan_digits(decimal(m), 0, negative, lo, hi) == Ok::<int, IntErrorKind>(
            if negative {
                -m
            } else {
                m as int
            },
        ),
    decreases m,
{
    if m < 10 {
        lemma_digit_char(m);
        assert(decimal(m) == seq![digit_char(m)]);
        assert(decimal(m)[0] == digit_char(m));
        assert(decimal(m).drop_first() =~= Seq::<char>::empty());
        let next: int = if negative {
            -m
        } else {
            m as int
        };
        assert(scan_digits(Seq::<char>::empty(), next, negative, lo, hi) == Ok::<int, IntErrorKind>(
            next,
        ));
    } else {
        lemma_scan_decimal(m / 10, negative, lo, hi);
        lemma_digit_char(m % 10);
        let v: int = if negative {
            -((m / 10) as int)
        } else {
            (m / 10) as int
        };
        assert((m / 10) * 10 + m % 10 == m);
        lemma_scan_push(decimal(m / 10), digit_char(m % 10), 0, negative, lo, hi, v);
    }
}

/// Rust's integer parser reads back the decimal text of every integer in
/// range.
pub proof fn lemma_parse_int_text(v: int, lo: int, hi: int)
    requires
        lo <= 0 <= hi,
        lo <= v <= hi,
    ensures
        parse_int(int_text(v), lo, hi) == Ok::<int, IntErrorKind>(v),
{
    if v < 0 {
        let m = (-v) as nat;
        lemma_decimal_starts_with_digit(m);
        lemma_scan_decimal(m, true, lo, hi);
        assert((seq!['-'] + decimal(m)).drop_first() =~= decimal(m));
    } else {
        lemma_decimal_starts_with_digit(v as nat);
        lemma_scan_decimal(v as nat, false, lo, hi);
    }
}

/// String coercion: a JSON string holding the decimal text of an integer
/// writes the same field value to an `INT` or `BIGINT` column as the JSON
/// number with that integer value does.
pub proof fn lemma_integer_text_coerces_like_number(v: int, dt: DataType, s: String, n: JsonNumber)
    requires
        dt == DataType::Int && i32::MIN <= v <= i32::MAX || dt == DataType::BigInt && i64::MIN <= v
            <= i64::MAX,
        s@ == int_text(v),
        n.as_i64 == Some(v as i64),
    ensures
        datum_of(JsonValue::String(s), dt) == datum_of(JsonValue::Number(n), dt),
        datum_of(JsonValue::String(s), dt) is Ok,
{
    if dt == DataType::Int {
        lemma_parse_int_text(v, i32::MIN as int, i32::MAX as int);
    } else {
        lemma_parse_int_text(v, i64::MIN as int, i64::MAX as int);
    }
}

/// String coercion: the JSON strings `true` and `false` write the same value
/// to a `BOOLEAN` column as the JSON booleans do.
pub proof fn lemma_boolean_text_coerces_like_bool(b: bool, s: String)
    requires
        s@ == (if b {
            "true"@
        } else {
            "false"@
        }),
    ensures
        datum_of(JsonValue::String(s), DataType::Boolean) == datum_of(
            JsonValue::Bool(b),
            DataType::Boolean,
        ),
{
    reveal_strlit("true");
    reveal_strlit("false");
    if !b {
        assert(s@ != "true"@);
    }
}

/// Every JSON number is accepted by a `FLOAT` or `DOUBLE` column, as a
/// floating field of that width read from the number's text; a JSON number
/// with an integer value is accepted by every integer column, as that value
/// narrowed to the column's width; a number without one is refused by the
/// integer columns naming the number.
pub proof fn lemma_numbers_convert_to_numeric_columns(n: JsonNumber)
    ensures
        datum_of(JsonValue::Number(n), DataType::Double) == Ok::<DatumView, DatumErrorView>(
            DatumView::Float64(FloatSourceView::Number(n.text@)),
        ),
        datum_of(JsonValue::Number(n), DataType::Float) == Ok::<DatumView, DatumErrorView>(
            DatumView::Float32(FloatSourceView::Number(n.text@)),
        ),
        n.as_i64 matches Some(v) ==> {
            &&& datum_of(JsonValue::Number(n), DataType::TinyInt) == Ok::<DatumView, DatumErrorView>(
                DatumView::Int8(v as i8),
            )
            &&& datum_of(JsonValue::Number(n), DataType::SmallInt) == Ok::<DatumView, DatumErrorView>(
                DatumView::Int16(v as i16),
            )
            &&& datum_of(JsonValue::Number(n), DataType::Int) == Ok::<DatumView, DatumErrorView>(
                DatumView::Int32(v as i32),
            )
            &&& datum_of(JsonValue::Number(n), DataType::BigInt) == Ok::<DatumView, DatumErrorView>(
                DatumView::Int64(v),
            )
        },
        n.as_i64 is None ==> {
            &&& datum_of(JsonValue::Number(n), DataType::Int) == Err::<DatumView, DatumErrorView>(
                DatumErrorView::Expected { kind: "int"@, got: n.text@ },
            )
            &&& datum_of(JsonValue::Number(n), DataType::BigInt) == Err::<DatumView, DatumErrorView>(
                DatumErrorView::Expected { kind: "bigint"@, got: n.text@ },
            )
        },
{
}

/// A JSON string written to a `STRING` or `CHAR` column is that string, to
/// a `BYTES` or `BINARY` column its UTF-8 bytes, and to a `FLOAT` or `DOUBLE`
/// column a floating field of that width read from the text.
pub proof fn lemma_text_columns_keep_the_text(s: Seq<char>)
    ensures
        text_to_datum(s, DataType::String) == Ok::<DatumView, DatumErrorView>(DatumView::String(s)),
        text_to_datum(s, DataType::Char) == Ok::<DatumView, DatumErrorView>(DatumView::String(s)),
        text_to_datum(s, DataType::Bytes) == Ok::<DatumView, DatumErrorView>(
            DatumView::Blob(vstd::utf8::encode_utf8(s)),
        ),
        text_to_datum(s, DataType::Binary) == Ok::<DatumView, DatumErrorView>(
            DatumView::Blob(vstd::utf8::encode_utf8(s)),
        ),
        text_to_datum(s, DataType::Float) == Ok::<DatumView, DatumErrorView>(
            DatumView::Float32(FloatSourceView::Text(s)),
        ),
        text_to_datum(s, DataType::Double) == Ok::<DatumView, DatumErrorView>(
            DatumView::Float64(FloatSourceView::Text(s)),
        ),
{
}

/// A JSON boolean is accepted by a `BOOLEAN` column as that boolean, and
/// refused by a column of any other type.
pub proof fn lemma_booleans_convert_to_boolean_columns(b: bool, dt: DataType)
    ensures
        datum_of(JsonValue::Bool(b), DataType::Boolean) == Ok::<DatumView, DatumErrorView>(
            DatumView::Bool(b),
        ),
        dt != DataType::Boolean ==> datum_of(JsonValue::Bool(b), dt) == Err::<
            DatumView,
            DatumErrorView,
        >(DatumErrorView::Mismatch),
{
}

/// A JSON null writes a null field to a column of any type.
pub proof fn lemma_null_is_null_for_every_type(dt: DataType)
    ensures
        datum_of(JsonValue::Null, dt) == Ok::<DatumView, DatumErrorView>(DatumView::Null),
{
}

fn int_error_string(k: IntErrorKind) -> (s: String)
    ensures
        s@ == int_error_text(k),
{
    match k {
        IntErrorKind::Empty => String::from_str("cannot parse integer from empty string"),
        IntErrorKind::InvalidDigit => String::from_str("invalid digit found in string"),
        IntErrorKind::PosOverflow => String::from_str("number too large to fit in target type"),
        IntErrorKind::NegOverflow => String::from_str("number too small to fit in target type"),
    }
}

fn clone_string(s: &String) -> (t: String)
    ensures
        t@ == s@,
{
    s.clone()
}

fn expected(kind: &str, n: &JsonNumber) -> (r: Result<Datum, DatumError>)
    ensures
        r matches Err(DatumError::Expected { kind: k, got }) && k@ == kind@ && got@ == n.text@,
{
    Err(DatumError::Expected { kind: String::from_str(kind), got: clone_string(&n.text) })
}

fn invalid(kind: &str, s: &String, reason: String) -> (r: Result<Datum, DatumError>)
    ensures
        r matches Err(DatumError::Invalid { kind: k, text, reason: why }) && k@ == kind@ && text@
            == s@ && why@ == reason@,
{
    Err(DatumError::Invalid { kind: String::from_str(kind), text: clone_string(s), reason })
}

/// The UTF-8 bytes of `s`.
fn utf8_bytes(s: &String) -> (b: Vec<u8>)
    ensures
        b@ == vstd::utf8::encode_utf8(s@),
{
    vstd::slice::slice_to_vec(s.as_str().as_bytes())
}

/// Converts a JSON value into a field value of column type `data_type`.
/// JSON null gives a null field; numbers convert to integer and floating
/// columns; strings convert to string, byte, integer, boolean and floating
/// columns by parsing; anything else is a mismatch.
pub fn json_to_datum(value: &JsonValue, data_type: &DataType) -> (r: Result<Datum, DatumError>)
    ensures
        conversion_view(r) == datum_of(*value, *data_type),
{
    proof {
        reveal_strlit("tinyint");
        reveal_strlit("smallint");
        reveal_strlit("int");
        reveal_strlit("bigint");
        reveal_strlit("bool");
    }
    match value {
        JsonValue::Null => Ok(Datum::Null),
        JsonValue::Bool(b) => match data_type {
            DataType::Boolean => Ok(Datum::Bool(*b)),
            _ => Err(DatumError::Mismatch),
        },
        JsonValue::Number(n) => match data_type {
            DataType::TinyInt => match n.as_i64 {
                Some(v) => Ok(Datum::Int8(v as i8)),
                None => expected("tinyint", n),
            },
            DataType::SmallInt => match n.as_i64 {
                Some(v) => Ok(Datum::Int16(v as i16)),
                None => expected("smallint", n),
            },
            DataType::Int => match n.as_i64 {
                Some(v) => Ok(Datum::Int32(v as i32)),
                None => expected("int", n),
            },
            DataType::BigInt => match n.as_i64 {
                Some(v) => Ok(Datum::Int64(v)),
                None => expected("bigint", n),
            },
            DataType::Float => Ok(Datum::Float32(FloatSource::Number(clone_string(&n.text)))),
            DataType::Double => Ok(Datum::Float64(FloatSource::Number(clone_string(&n.text)))),
            _ => Err(DatumError::Mismatch),
        },
        JsonValue::String(s) => match data_type {
            DataType::String | DataType::Char => Ok(Datum::String(clone_string(s))),
            DataType::Bytes | DataType::Binary => Ok(Datum::Blob(utf8_bytes(s))),
            DataType::Int => match parse_integer(s.as_str(), i32::MIN as i64, i32::MAX as i64) {
                Ok(v) => Ok(Datum::Int32(v as i32)),
                Err(e) => invalid("int", s, int_error_string(e)),
            },
            DataType::BigInt => match parse_integer(s.as_str(), i64::MIN, i64::MAX) {
                Ok(v) => Ok(Datum::Int64(v)),
                Err(e) => invalid("bigint", s, int_error_string(e)),
            },
            DataType::Boolean => match parse_boolean(s.as_str()) {
                Some(b) => Ok(Datum::Bool(b)),
                None => invalid(
                    "bool",
                    s,
                    String::from_str("provided string was not `true` or `false`"),
                ),
            },
            DataType::Float => Ok(Datum::Float32(FloatSource::Text(clone_string(s)))),
            DataType::Double => Ok(Datum::Float64(FloatSource::Text(clone_string(s)))),
            _ => Err(DatumError::Mismatch),
        },
        _ => Err(DatumError::Mismatch),
    }
}

/// Text of a conversion error other than a mismatch.
pub open spec fn datum_error_text(e: DatumErrorView) -> Seq<char> {
    match e {
        DatumErrorView::Expected { kind, got } => "expected "@ + kind + ", got "@ + got,
        DatumErrorView::Invalid { kind, text, reason } => "invalid "@ + kind + " '"@ + text + "': "@
            + reason,
        DatumErrorView::Mismatch => Seq::empty(),
    }
}

impl DatumError {
    /// The error's message; `None` for a mismatch, whose message shows the
    /// JSON value and column type as Rust debug text.
    pub fn message(&self) -> (m: Option<String>)
        ensures
            match m {
                Some(t) => !(*self matches DatumError::Mismatch) && t@ == datum_error_text(self@),
                None => *self matches DatumError::Mismatch,
            },
    {
        match self {
            DatumError::Expected { kind, got } => {
                let mut t = String::from_str("expected ");
                push_str(&mut t, kind.as_str());
                push_str(&mut t, ", got ");
                push_str(&mut t, got.as_str());
                Some(t)
            },
            DatumError::Invalid { kind, text, reason } => {
                let mut t = String::from_str("invalid ");
                push_str(&mut t, kind.as_str());
                push_str(&mut t, " '");
                push_str(&mut t, text.as_str());
                push_str(&mut t, "': ");
                push_str(&mut t, reason.as_str());
                Some(t)
            },
            DatumError::Mismatch => None,
        }
    }
}

} // verus!
