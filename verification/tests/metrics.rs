use metrics::Recorder;
use fluss_gateway::metrics::{
    error_type_for_status, errors_total, http_request_duration_seconds, http_requests_total,
    normalize_path, record_error, record_http_request, scrape_metrics, PrometheusRecorder,
};

#[test]
fn test_normalize_path_api_routes() {
    assert_eq!(normalize_path("/v1/mydb/mytable/rows"), "/v1/{db}/{table}/rows");
    assert_eq!(normalize_path("/v1/mydb/mytable/scan"), "/v1/{db}/{table}/scan");
    assert_eq!(normalize_path("/v1/mydb/mytable"), "/v1/{db}/{table}");
    assert_eq!(normalize_path("/v1/_databases"), "/v1/_databases");
    assert_eq!(normalize_path("/v1/mydb/_tables"), "/v1/{db}/_tables");
}

#[test]
fn test_normalize_path_system_routes() {
    assert_eq!(normalize_path("/health"), "/health");
    assert_eq!(normalize_path("/metrics"), "/metrics");
}

#[test]
fn test_normalize_path_with_query() {
    assert_eq!(normalize_path("/v1/mydb/mytable/rows?format=arrow"), "/v1/{db}/{table}/rows");
}

#[test]
fn normalize_path_edge_cases() {
    assert_eq!(normalize_path(""), "");
    assert_eq!(normalize_path("?a=b"), "");
    assert_eq!(normalize_path("/v2/x/y"), "/v2/x/y");
    assert_eq!(normalize_path("/v1/db/t/rows/extra"), "/v1/{db}/{table}/rows");
    assert_eq!(normalize_path("/v1/db/"), "/v1/{db}/{table}");
    assert_eq!(normalize_path("/v1/_databases/mydb"), "/v1/{db}/{table}");
    assert_eq!(normalize_path("/v1/é/_x?q"), "/v1/{db}/_x");
}

#[test]
fn request_counter_labels() {
    let m = http_requests_total("GET", "/health", 200);
    assert_eq!(m.name, "http_requests_total");
    assert_eq!(
        m.labels,
        vec![
            ("method".to_string(), "GET".to_string()),
            ("path".to_string(), "/health".to_string()),
            ("status".to_string(), "200".to_string()),
        ]
    );
    let r = record_http_request("POST", "/v1/{db}/{table}/rows", 0);
    assert_eq!(r.labels[2].1, "0");
}

#[test]
fn duration_and_error_series() {
    let d = http_request_duration_seconds("GET", "/metrics");
    assert_eq!(d.name, "http_request_duration_seconds");
    assert_eq!(d.labels.len(), 2);
    let e = errors_total("client_error");
    assert_eq!(e.name, "errors_total");
    assert_eq!(e.labels, vec![("type".to_string(), "client_error".to_string())]);
    assert_eq!(record_error("server_error").labels[0].1, "server_error");
}

#[test]
fn error_classes() {
    assert_eq!(error_type_for_status(200), None);
    assert_eq!(error_type_for_status(399), None);
    assert_eq!(error_type_for_status(400).as_deref(), Some("client_error"));
    assert_eq!(error_type_for_status(499).as_deref(), Some("client_error"));
    assert_eq!(error_type_for_status(500).as_deref(), Some("server_error"));
    assert_eq!(error_type_for_status(503).as_deref(), Some("server_error"));
}

#[test]
fn scrape_is_empty_before_install() {
    assert_eq!(PrometheusRecorder::scrape(None), "");
    assert_eq!(scrape_metrics(None), "");
}

#[test]
fn scrape_renders_the_recorded_series() {
    let recorder = metrics_exporter_prometheus::PrometheusBuilder::new().build_recorder();
    let handle = recorder.handle();
    let metadata = metrics::Metadata::new("gateway", metrics::Level::INFO, None);
    recorder
        .register_counter(&metrics::Key::from_name("gateway_test_total"), &metadata)
        .increment(3);
    let text = scrape_metrics(Some(&handle));
    assert!(text.contains("gateway_test_total 3"));
    assert_eq!(PrometheusRecorder::scrape(Some(&handle)), text);
}

#[test]
fn route_templates_are_stable() {
    for uri in ["/v1/db/t/rows?x=1", "/v1/db/_tables", "/v1/db/t", "/v1/_databases", "/health", "/v1/db/", "/v1/a/b/c/d"] {
        let once = normalize_path(uri);
        assert_eq!(normalize_path(&once), once);
    }
}

#[test]
fn template_ignores_the_query_string() {
    for uri in ["/v1/db/t/rows?x=1", "/v1/db/_tables?a?b", "/health?deep=true", "/v1?x", "/other/path"] {
        let path = uri.split('?').next().unwrap();
        let t = normalize_path(uri);
        assert_eq!(t, normalize_path(path));
        assert!(!t.contains('?'));
        let parts: Vec<&str> = path.split('/').collect();
        if parts.len() < 3 || parts[1] != "v1" {
            assert_eq!(t, path);
        }
    }
}
