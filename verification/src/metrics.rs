//! Request metrics: which series a request updates, and the route template
//! its path is recorded under.
use vstd::prelude::*;
use crate::text::{chars_equal, chars_of, decimal, find_char, find_in, push_str, string_from_chars, u64_to_decimal};

verus! {

broadcast use vstd::string::group_string_axioms;

/// The part of a URI before its query string (before the first `?`).
pub open spec fn before_query(s: Seq<char>) -> Seq<char> {
    s.take(find_char(s, '?'))
}

/// The pieces of `s` between occurrences of `sep`, as `str::split` yields
/// them: always at least one, empty pieces kept.
pub open spec fn split_on(s: Seq<char>, sep: char) -> Seq<Seq<char>>
    decreases s.len(),
{
    if s.len() == 0 {
        seq![Seq::empty()]
    } else {
        let init = split_on(s.drop_last(), sep);
        if s.last() == sep {
            init.push(Seq::empty())
        } else {
            init.update(init.len() - 1, init.last().push(s.last()))
        }
    }
}

/// Route template a request path is recorded under: `/v1/...` paths have
/// their database and table names replaced by `{db}` and `{table}`; any
/// other path is kept as it is. The query string is dropped.
pub open spec fn normalized(uri: Seq<char>) -> Seq<char> {
    let path = before_query(uri);
    let parts = split_on(path, '/');
    if parts.len() >= 3 && parts[1] == "v1"@ {
        if parts.len() == 3 {
            path
        } else if parts.len() == 4 && parts[3].len() > 0 && parts[3][0] == '_' {
            "/v1/{db}/"@ + parts[3]
        } else if parts.len() == 4 {
            "/v1/{db}/{table}"@
        } else {
            "/v1/{db}/{table}/"@ + parts[4]
        }
    } else {
        path
    }
}

proof fn lemma_split_nonempty(s: Seq<char>, sep: char)
    ensures
        split_on(s, sep).len() >= 1,
    decreases s.len(),
{
    if s.len() > 0 {
        lemma_split_nonempty(s.drop_last(), sep);
    }
}

/// `s` does not hold the character `c`.
pub open spec fn no_char(s: Seq<char>, c: char) -> bool {
    forall|i: int| 0 <= i < s.len() ==> s[i] != c
}

proof fn lemma_no_char_concat(a: Seq<char>, b: Seq<char>, c: char)
    requires
        no_char(a, c),
        no_char(b, c),
    ensures
        no_char(a + b, c),
{
    assert forall|i: int| 0 <= i < (a + b).len() implies (a + b)[i] != c by {
        if i >= a.len() {
            assert((a + b)[i] == b[i - a.len()]);
        }
    }
}

proof fn lemma_find_char(s: Seq<char>, c: char)
    ensures
        0 <= find_char(s, c) <= s.len(),
        forall|i: int| 0 <= i < find_char(s, c) ==> s[i] != c,
        find_char(s, c) < s.len() ==> s[find_char(s, c)] == c,
    decreases s.len(),
{
    if s.len() > 0 && s[0] != c {
        lemma_find_char(s.drop_first(), c);
        assert forall|i: int| 0 <= i < find_char(s, c) implies s[i] != c by {
            if i > 0 {
                assert(s[i] == s.drop_first()[i - 1]);
            }
        }
    }
}

/// The part before the query holds no `?`, and a text without `?` is its
/// own part before the query.
proof fn lemma_before_query(s: Seq<char>)
    ensures
        no_char(before_query(s), '?'),
        no_char(s, '?') ==> before_query(s) == s,
{
    lemma_find_char(s, '?');
    if no_char(s, '?') {
        if find_char(s, '?') < s.len() {
            assert(s[find_char(s, '?')] == '?');
        }
        assert(s.take(s.len() as int) =~= s);
    }
}

/// Splitting around one separator splits each side on its own.
proof fn lemma_split_concat(a: Seq<char>, b: Seq<char>, sep: char)
    ensures
        split_on(a + seq![sep] + b, sep) == split_on(a, sep) + split_on(b, sep),
    decreases b.len(),
{
    lemma_split_nonempty(a, sep);
    let whole = a + seq![sep] + b;
    if b.len() == 0 {
        assert(whole.drop_last() =~= a);
        assert(whole.last() == sep);
        assert(split_on(a, sep).push(Seq::<char>::empty()) =~= split_on(a, sep) + split_on(b, sep));
    } else {
        let b0 = b.drop_last();
        let c = b.last();
        lemma_split_concat(a, b0, sep);
        lemma_split_nonempty(b0, sep);
        assert(whole.drop_last() =~= a + seq![sep] + b0);
        assert(whole.last() == c);
        let x = split_on(a, sep);
        let y = split_on(b0, sep);
        if c == sep {
            assert((x + y).push(Seq::<char>::empty()) =~= x + y.push(Seq::<char>::empty()));
        } else {
            assert((x + y).update((x + y).len() - 1, (x + y).last().push(c)) =~= x + y.update(
                y.len() - 1,
                y.last().push(c),
            ));
        }
    }
}

/// A text without the separator is a single piece.
proof fn lemma_split_single(s: Seq<char>, sep: char)
    requires
        no_char(s, sep),
    ensures
        split_on(s, sep) == seq![s],
    decreases s.len(),
{
    if s.len() == 0 {
        assert(s =~= Seq::<char>::empty());
    } else {
        lemma_split_single(s.drop_last(), sep);
        assert(s.drop_last().push(s.last()) =~= s);
        assert(seq![s.drop_last()].update(0, s.drop_last().push(s.last())) =~= seq![s]);
    }
}

/// No piece holds the separator, nor a character the whole text lacks.
proof fn lemma_split_pieces(s: Seq<char>, sep: char, c: char)
    ensures
        forall|k: int|
            0 <= k < split_on(s, sep).len() ==> no_char(#[trigger] split_on(s, sep)[k], sep) && (
            no_char(s, c) ==> no_char(split_on(s, sep)[k], c)),
    decreases s.len(),
{
    if s.len() > 0 {
        let init = split_on(s.drop_last(), sep);
        lemma_split_pieces(s.drop_last(), sep, c);
        lemma_split_nonempty(s.drop_last(), sep);
        if no_char(s, c) {
            assert forall|i: int| 0 <= i < s.drop_last().len() implies s.drop_last()[i] != c by {
                assert(s.drop_last()[i] == s[i]);
            }
        }
        assert forall|k: int| 0 <= k < split_on(s, sep).len() implies no_char(
            #[trigger] split_on(s, sep)[k],
            sep,
        ) && (no_char(s, c) ==> no_char(split_on(s, sep)[k], c)) by {
            if s.last() == sep {
                if k < init.len() {
                    assert(split_on(s, sep)[k] == init[k]);
                } else {
                    assert(split_on(s, sep)[k] =~= Seq::<char>::empty());
                }
            } else if k < init.len() - 1 {
                assert(split_on(s, sep)[k] == init[k]);
            } else {
                let piece = init.last().push(s.last());
                assert(split_on(s, sep)[k] == piece);
                assert(init.last() == init[init.len() - 1]);
                assert forall|i: int| 0 <= i < piece.len() implies piece[i] != sep && (no_char(s, c)
                    ==> piece[i] != c) by {
                    if i < init.last().len() {
                        assert(piece[i] == init.last()[i]);
                    } else {
                        assert(piece[i] == s[s.len() - 1]);
                    }
                }
            }
        }
    }
}

/// The query string never changes the route template, the template holds no
/// `?`, and a path outside `/v1/...` is recorded as itself.
pub proof fn lemma_template_ignores_query(uri: Seq<char>)
    ensures
        normalized(uri) == normalized(before_query(uri)),
        no_char(normalized(uri), '?'),
        !(split_on(before_query(uri), '/').len() >= 3 && split_on(before_query(uri), '/')[1]
            == "v1"@) ==> normalized(uri) == before_query(uri),
{
    let path = before_query(uri);
    let parts = split_on(path, '/');
    let out = normalized(uri);
    lemma_before_query(uri);
    lemma_before_query(path);
    lemma_split_pieces(path, '/', '?');
    reveal_strlit("/v1/{db}/");
    reveal_strlit("/v1/{db}/{table}");
    reveal_strlit("/v1/{db}/{table}/");
    if parts.len() >= 3 && parts[1] == "v1"@ && parts.len() > 3 {
        if parts.len() == 4 && parts[3].len() > 0 && parts[3][0] == '_' {
            assert(no_char("/v1/{db}/"@, '?'));
            lemma_no_char_concat("/v1/{db}/"@, parts[3], '?');
        } else if parts.len() == 4 {
            assert(no_char("/v1/{db}/{table}"@, '?'));
        } else {
            assert(no_char("/v1/{db}/{table}/"@, '?'));
            lemma_no_char_concat("/v1/{db}/{table}/"@, parts[4], '?');
        }
    }
}

/// Route templates are stable: normalizing a recorded route template gives
/// it back unchanged.
#[verifier::spinoff_prover]
pub proof fn lemma_normalized_is_stable(uri: Seq<char>)
    ensures
        normalized(normalized(uri)) == normalized(uri),
{
    let path = before_query(uri);
    let parts = split_on(path, '/');
    let out = normalized(uri);
    lemma_before_query(uri);
    lemma_split_pieces(path, '/', '?');
    reveal_strlit("v1");
    reveal_strlit("{db}");
    reveal_strlit("{table}");
    reveal_strlit("/v1/{db}/");
    reveal_strlit("/v1/{db}/{table}");
    reveal_strlit("/v1/{db}/{table}/");
    let slash = seq!['/'];
    let empty = Seq::<char>::empty();
    let head = empty + slash + "v1"@ + slash + "{db}"@;
    assert(no_char(empty, '/') && no_char("v1"@, '/') && no_char("{db}"@, '/') && no_char(
        "{table}"@,
        '/',
    ));
    if parts.len() >= 3 && parts[1] == "v1"@ && parts.len() > 3 {
        lemma_split_single(empty, '/');
        lemma_split_single("v1"@, '/');
        lemma_split_single("{db}"@, '/');
        lemma_split_single("{table}"@, '/');
        lemma_split_concat(empty, "v1"@, '/');
        lemma_split_concat(empty + slash + "v1"@, "{db}"@, '/');
        assert(split_on(head, '/') =~= seq![empty, "v1"@, "{db}"@]);
        if parts.len() == 4 && parts[3].len() > 0 && parts[3][0] == '_' {
            let p3 = parts[3];
            assert(out =~= head + slash + p3);
            lemma_split_single(p3, '/');
            lemma_split_concat(head, p3, '/');
            assert(split_on(out, '/') =~= seq![empty, "v1"@, "{db}"@, p3]);
            assert(no_char(out, '?'));
            lemma_before_query(out);
        } else if parts.len() == 4 {
            assert(out =~= head + slash + "{table}"@);
            lemma_split_concat(head, "{table}"@, '/');
            assert(split_on(out, '/') =~= seq![empty, "v1"@, "{db}"@, "{table}"@]);
            assert(no_char(out, '?'));
            lemma_before_query(out);
        } else {
            let p4 = parts[4];
            let table_head = head + slash + "{table}"@;
            lemma_split_concat(head, "{table}"@, '/');
            assert(split_on(table_head, '/') =~= seq![empty, "v1"@, "{db}"@, "{table}"@]);
            assert(out =~= table_head + slash + p4);
            lemma_split_single(p4, '/');
            lemma_split_concat(table_head, p4, '/');
            assert(split_on(out, '/') =~= seq![empty, "v1"@, "{db}"@, "{table}"@, p4]);
            assert(no_char(out, '?'));
            lemma_before_query(out);
        }
    } else {
        assert(out == path);
        lemma_before_query(out);
    }
}

/// Boundaries of pieces of a character sequence: piece `k` runs from
/// `starts[k]` to `ends[k]`.
struct Pieces {
    starts: Vec<usize>,
    ends: Vec<usize>,
}

/// Boundaries of the pieces of `v[0..len]` between slashes: piece `k` is
/// `v[starts[k]..ends[k]]`.
fn split_slashes(v: &Vec<char>, len: usize) -> (r: Pieces)
    requires
        len <= v.len(),
    ensures
        r.starts.len() == r.ends.len(),
        r.starts.len() == split_on(v@.take(len as int), '/').len(),
        forall|k: int|
            #![trigger r.starts@[k]]
            0 <= k < r.starts.len() ==> r.starts@[k] <= r.ends@[k] <= len && split_on(
                v@.take(len as int),
                '/',
            )[k] == v@.subrange(r.starts@[k] as int, r.ends@[k] as int),
{
    let mut starts: Vec<usize> = Vec::new();
    let mut ends: Vec<usize> = Vec::new();
    let mut cur: usize = 0;
    let mut i: usize = 0;
    assert(v@.take(0) =~= Seq::<char>::empty());
    while i < len
        invariant
            len <= v.len(),
            i <= len,
            cur <= i,
            starts.len() == ends.len(),
            split_on(v@.take(i as int), '/').len() == ends.len() + 1,
            forall|k: int|
                0 <= k < ends.len() ==> starts@[k] <= ends@[k] <= i && split_on(
                    v@.take(i as int),
                    '/',
                )[k] == v@.subrange(starts@[k] as int, ends@[k] as int),
            split_on(v@.take(i as int), '/').last() == v@.subrange(cur as int, i as int),
        decreases len - i,
    {
        let ghost before = split_on(v@.take(i as int), '/');
        let ghost old_starts = starts@;
        let ghost old_ends = ends@;
        let ghost old_cur = cur;
        proof {
            lemma_split_nonempty(v@.take(i as int), '/');
        }
        assert(v@.take((i + 1) as int).drop_last() =~= v@.take(i as int));
        assert(v@.take((i + 1) as int).last() == v@[i as int]);
        if v[i] == '/' {
            starts.push(cur);
            ends.push(i);
            cur = i + 1;
            assert(v@.subrange(cur as int, (i + 1) as int) =~= Seq::<char>::empty());
            assert(split_on(v@.take((i + 1) as int), '/') == before.push(Seq::empty()));
            assert forall|k: int| 0 <= k < ends.len() implies starts@[k] <= ends@[k] <= i + 1
                && split_on(v@.take((i + 1) as int), '/')[k] == v@.subrange(
                starts@[k] as int,
                ends@[k] as int,
            ) by {
                assert(split_on(v@.take((i + 1) as int), '/')[k] == before[k]);
                if k < old_ends.len() {
                    assert(starts@[k] == old_starts[k]);
                    assert(ends@[k] == old_ends[k]);
                    assert(before[k] == v@.subrange(old_starts[k] as int, old_ends[k] as int));
                } else {
                    assert(k == before.len() - 1);
                    assert(starts@[k] == old_cur);
                    assert(ends@[k] == i);
                    assert(before[k] == v@.subrange(old_cur as int, i as int));
                }
            }
        } else {
            assert(v@.subrange(cur as int, (i + 1) as int) =~= v@.subrange(cur as int, i as int).push(
                v@[i as int],
            ));
            assert(split_on(v@.take((i + 1) as int), '/') == before.update(
                before.len() - 1,
                before.last().push(v@[i as int]),
            ));
            assert forall|k: int| 0 <= k < ends.len() implies starts@[k] <= ends@[k] <= i + 1
                && split_on(v@.take((i + 1) as int), '/')[k] == v@.subrange(
                starts@[k] as int,
                ends@[k] as int,
            ) by {
                assert(split_on(v@.take((i + 1) as int), '/')[k] == before[k]);
                assert(before[k] == v@.subrange(old_starts[k] as int, old_ends[k] as int));
            }
        }
        i = i + 1;
    }
    let ghost old_starts = starts@;
    let ghost old_ends = ends@;
    proof {
        lemma_split_nonempty(v@.take(i as int), '/');
    }
    starts.push(cur);
    ends.push(len);
    assert(i == len);
    assert(v@.take(len as int) == v@.take(i as int));
    let ghost gs = starts@;
    let ghost ge = ends@;
    let r = Pieces { starts, ends };
    assert forall|k: int| #![trigger r.starts@[k]] 0 <= k < r.starts.len() implies r.starts@[k] <= r.ends@[k] <= len && split_on(
        v@.take(len as int),
        '/',
    )[k] == v@.subrange(r.starts@[k] as int, r.ends@[k] as int) by {
        let sp = split_on(v@.take(i as int), '/');
        assert(split_on(v@.take(len as int), '/') == sp);
        assert(r.starts@[k] == gs[k]);
        assert(r.ends@[k] == ge[k]);
        if k < old_ends.len() {
            assert(gs[k] == old_starts[k]);
            assert(ge[k] == old_ends[k]);
            assert(sp[k] == v@.subrange(old_starts[k] as int, old_ends[k] as int));
            assert(old_starts[k] <= old_ends[k] <= i);
        } else {
            assert(k == sp.len() - 1);
            assert(sp[k] == sp.last());
            assert(gs[k] == cur);
            assert(ge[k] == len);
        }
    }
    r
}

/// Normalizes a request URI to the route template it is recorded under.
pub fn normalize_path(uri: &str) -> (res: String)
    ensures
        res@ == normalized(uri@),
{
    let v = chars_of(uri);
    let q = find_in(&v, '?');
    let pieces = split_slashes(&v, q);
    let starts = pieces.starts;
    let ends = pieces.ends;
    let n = starts.len();
    let ghost path = before_query(uri@);
    let ghost parts = split_on(path, '/');
    assert(path == v@.take(q as int));
    proof {
        reveal_strlit("v1");
        reveal_strlit("/v1/{db}/");
        reveal_strlit("/v1/{db}/{table}");
        reveal_strlit("/v1/{db}/{table}/");
    }
    let mut is_v1 = false;
    if n >= 3 {
        let v1 = chars_of("v1");
        is_v1 = chars_equal(&v, starts[1], ends[1], &v1);
    }
    if is_v1 {
        assert(parts[1] == "v1"@);
        if n == 3 {
            assert(v@.subrange(0, q as int) =~= path);
            return string_from_chars(&v, 0, q);
        }
        if n == 4 {
            if starts[3] < ends[3] && v[starts[3]] == '_' {
                let mut res = String::from_str("/v1/{db}/");
                let part = string_from_chars(&v, starts[3], ends[3]);
                push_str(&mut res, part.as_str());
                return res;
            }
            return String::from_str("/v1/{db}/{table}");
        }
        let mut res = String::from_str("/v1/{db}/{table}/");
        let part = string_from_chars(&v, starts[4], ends[4]);
        push_str(&mut res, part.as_str());
        return res;
    }
    assert(!(parts.len() >= 3 && parts[1] == "v1"@));
    assert(v@.subrange(0, q as int) =~= path);
    string_from_chars(&v, 0, q)
}

/// One update of a metric series: the series name and its labels.
pub struct MetricSample {
    pub name: String,
    pub labels: Vec<(String, String)>,
}

/// Views of a label list as pairs of character sequences.
pub open spec fn label_view(labels: Seq<(String, String)>) -> Seq<(Seq<char>, Seq<char>)> {
    labels.map_values(|l: (String, String)| (l.0@, l.1@))
}

fn label(key: &str, value: &str) -> (l: (String, String))
    ensures
        l.0@ == key@,
        l.1@ == value@,
{
    (String::from_str(key), String::from_str(value))
}

/// The `http_requests_total` counter update (increment by one) for a request.
pub fn http_requests_total(method: &str, path: &str, status: u16) -> (m: MetricSample)
    ensures
        m.name@ == "http_requests_total"@,
        label_view(m.labels@) == seq![
            ("method"@, method@),
            ("path"@, path@),
            ("status"@, decimal(status as nat)),
        ],
{
    let status_text = u64_to_decimal(status as u64);
    let mut labels: Vec<(String, String)> = Vec::new();
    labels.push(label("method", method));
    labels.push(label("path", path));
    labels.push(label("status", status_text.as_str()));
    let m = MetricSample { name: String::from_str("http_requests_total"), labels };
    assert(label_view(m.labels@) =~= seq![
        ("method"@, method@),
        ("path"@, path@),
        ("status"@, decimal(status as nat)),
    ]);
    m
}

/// The `http_request_duration_seconds` histogram series for a request; the
/// observed duration is recorded into it by the caller.
pub fn http_request_duration_seconds(method: &str, path: &str) -> (m: MetricSample)
    ensures
        m.name@ == "http_request_duration_seconds"@,
        label_view(m.labels@) == seq![("method"@, method@), ("path"@, path@)],
{
    let mut labels: Vec<(String, String)> = Vec::new();
    labels.push(label("method", method));
    labels.push(label("path", path));
    let m = MetricSample { name: String::from_str("http_request_duration_seconds"), labels };
    assert(label_view(m.labels@) =~= seq![("method"@, method@), ("path"@, path@)]);
    m
}

/// The `errors_total` counter update (increment by one) for an error type.
pub fn errors_total(error_type: &str) -> (m: MetricSample)
    ensures
        m.name@ == "errors_total"@,
        label_view(m.labels@) == seq![("type"@, error_type@)],
{
    let mut labels: Vec<(String, String)> = Vec::new();
    labels.push(label("type", error_type));
    let m = MetricSample { name: String::from_str("errors_total"), labels };
    assert(label_view(m.labels@) =~= seq![("type"@, error_type@)]);
    m
}

/// Counter update recorded for every handled request.
pub fn record_http_request(method: &str, path: &str, status: u16) -> (m: MetricSample)
    ensures
        m.name@ == "http_requests_total"@,
        label_view(m.labels@) == seq![
            ("method"@, method@),
            ("path"@, path@),
            ("status"@, decimal(status as nat)),
        ],
{
    http_requests_total(method, path, status)
}

/// Histogram series recorded for every handled request.
pub fn record_http_request_duration(method: &str, path: &str) -> (m: MetricSample)
    ensures
        m.name@ == "http_request_duration_seconds"@,
        label_view(m.labels@) == seq![("method"@, method@), ("path"@, path@)],
{
    http_request_duration_seconds(method, path)
}

/// Counter update recorded for an error response.
pub fn record_error(error_type: &str) -> (m: MetricSample)
    ensures
        m.name@ == "errors_total"@,
        label_view(m.labels@) == seq![("type"@, error_type@)],
{
    errors_total(error_type)
}

/// Error class a response status is counted under: `server_error` from 500,
/// `client_error` from 400, none below.
pub open spec fn error_class(status: u16) -> Option<Seq<char>> {
    if status >= 500 {
        Some("server_error"@)
    } else if status >= 400 {
        Some("client_error"@)
    } else {
        None
    }
}

/// The error class for a response status, if the response is an error.
pub fn error_type_for_status(status: u16) -> (r: Option<String>)
    ensures
        match r {
            Some(s) => error_class(status) == Some(s@),
            None => error_class(status) is None,
        },
{
    if status >= 500 {
        Some(String::from_str("server_error"))
    } else if status >= 400 {
        Some(String::from_str("client_error"))
    } else {
        None
    }
}

/// Marker for the Prometheus recorder the gateway installs at start-up.
pub struct PrometheusRecorder;

/// Handle to an installed Prometheus recorder, carried opaquely.
#[verifier::external_type_specification]
#[verifier::external_body]
pub struct ExPrometheusHandle(metrics_exporter_prometheus::PrometheusHandle);

/// Calls `PrometheusHandle::render`: the recorder's metrics in the Prometheus
/// text exposition format. Nothing is claimed of the text, which depends on
/// everything recorded so far.
#[verifier::external_body]
fn render_metrics(handle: &metrics_exporter_prometheus::PrometheusHandle) -> (text: String) {
    handle.render()
}

impl PrometheusRecorder {
    /// The current metrics of the installed recorder; empty when none is
    /// installed yet.
    pub fn scrape(handle: Option<&metrics_exporter_prometheus::PrometheusHandle>) -> (text: String)
        ensures
            handle is None ==> text@ == Seq::<char>::empty(),
    {
        match handle {
            Some(h) => render_metrics(h),
            None => String::new(),
        }
    }
}

/// The text served on `/metrics`: what the recorder renders, empty before
/// it is installed.
pub fn scrape_metrics(handle: Option<&metrics_exporter_prometheus::PrometheusHandle>) -> (text: String)
    ensures
        handle is None ==> text@ == Seq::<char>::empty(),
{
    PrometheusRecorder::scrape(handle)
}

} // verus!
