use wantjob::telemetry::{
    exporter_config, http_flavor, make_span, record_failure, record_outcome, record_success,
    resource_attributes, Outcome, RequestDescriptor,
};
use wantjob::HttpVersion;

fn descriptor(matched: Option<&str>, version: HttpVersion) -> RequestDescriptor {
    RequestDescriptor {
        method: "GET".to_string(),
        matched_route: matched.map(|m| m.to_string()),
        path: "/jobs".to_string(),
        query: None,
        user_agent: Some("test-agent".to_string()),
        content_length: None,
        version,
    }
}

#[test]
fn span_route_matches_template() {
    let span = make_span(&descriptor(Some("/jobs"), HttpVersion::V11));
    assert_eq!(span.http_route, "/jobs");
    assert_eq!(span.name, "GET /jobs");
    assert_eq!(span.kind, "Server");
}

#[test]
fn span_route_unknown_sentinel() {
    let span = make_span(&descriptor(None, HttpVersion::V11));
    assert_eq!(span.http_route, "UnknownRoute");
    assert_eq!(span.name, "GET UnknownRoute");
}

#[test]
fn span_copies_request_snapshot() {
    let span = make_span(&descriptor(Some("/jobs"), HttpVersion::V20));
    assert_eq!(span.http_request_method, "GET");
    assert_eq!(span.url_path, "/jobs");
    assert_eq!(span.url_query, None);
    assert_eq!(span.user_agent_original, Some("test-agent".to_string()));
    assert_eq!(span.http_request_content_length, None);
    assert_eq!(span.http_flavor, "2.0");
}

#[test]
fn flavor_literals() {
    assert_eq!(http_flavor(HttpVersion::V09), "0.9");
    assert_eq!(http_flavor(HttpVersion::V10), "1.0");
    assert_eq!(http_flavor(HttpVersion::V11), "1.1");
    assert_eq!(http_flavor(HttpVersion::V20), "2.0");
    assert_eq!(http_flavor(HttpVersion::V30), "3.0");
    assert_eq!(http_flavor(HttpVersion::Other), "Unknown");
}

#[test]
fn success_outcome_sets_only_status_code() {
    let mut span = make_span(&descriptor(Some("/jobs"), HttpVersion::V11));
    record_success(&mut span, 200);
    assert_eq!(span.http_response_status_code, Some(200));
    assert!(span.error_type.is_none());
    assert!(span.otel_status_code.is_none());
}

#[test]
fn failure_outcome_sets_only_error_fields() {
    let mut span = make_span(&descriptor(None, HttpVersion::V11));
    record_failure(&mut span, "panic".to_string());
    assert!(span.http_response_status_code.is_none());
    assert_eq!(span.error_type, Some("panic".to_string()));
    assert_eq!(span.otel_status_code, Some("ERROR".to_string()));
}

#[test]
fn exporter_config_defaults() {
    let c = exporter_config(false, None, None, None).unwrap();
    assert_eq!(c.endpoint, "http://localhost:4317");
    assert!(c.header.is_none());
    assert_eq!(c.env_filter, "wantjob=debug,axum::rejection=trace");
}

#[test]
fn exporter_config_header_and_overrides() {
    let c = exporter_config(
        true,
        Some("key-value".to_string()),
        Some("http://collector:4317".to_string()),
        Some("info".to_string()),
    )
    .unwrap();
    assert_eq!(c.endpoint, "http://collector:4317");
    assert_eq!(
        c.header,
        Some(("x-honeycomb-team".to_string(), "key-value".to_string()))
    );
    assert_eq!(c.env_filter, "info");
}

#[test]
fn exporter_config_missing_header_value_rejected() {
    assert!(exporter_config(true, None, None, None).is_err());
}

#[test]
fn resource_attribute_keys_fixed() {
    let attrs = resource_attributes(
        "0.1.0".to_string(),
        "1.80.0".to_string(),
        "wantjob".to_string(),
        "wantjob --serve".to_string(),
        "wantjob".to_string(),
        "/usr/bin/wantjob".to_string(),
        "4242".to_string(),
        "x86_64".to_string(),
        "devbox".to_string(),
    );
    assert_eq!(attrs.len(), 11);
    assert_eq!(attrs[0], ("service.name".to_string(), "wantjob".to_string()));
    assert_eq!(attrs[1], ("service.version".to_string(), "0.1.0".to_string()));
    assert_eq!(attrs[2], ("process.runtime.name".to_string(), "rustc".to_string()));
    assert_eq!(attrs[8], ("process.pid".to_string(), "4242".to_string()));
    assert_eq!(attrs[10], ("host.name".to_string(), "devbox".to_string()));
}

#[test]
fn span_for_request_follows_routing_table() {
    let s = wantjob::routes::span_for_request(
        "GET",
        "/htmx/jobs/details/9",
        None,
        None,
        None,
        HttpVersion::V11,
    );
    assert_eq!(s.http_route, "/htmx/jobs/details/:id");
    assert_eq!(s.name, "GET /htmx/jobs/details/:id");
    assert_eq!(s.http_flavor, "1.1");
    assert!(s.http_response_status_code.is_none());

    let u = wantjob::routes::span_for_request("GET", "/missing", None, None, None, HttpVersion::V30);
    assert_eq!(u.http_route, "UnknownRoute");
    assert_eq!(u.name, "GET UnknownRoute");
}

#[test]
fn outcome_recorded_on_exactly_one_path() {
    let mut ok = make_span(&descriptor(Some("/jobs"), HttpVersion::V11));
    record_outcome(&mut ok, Outcome::Success(200));
    assert!(ok.http_response_status_code.is_some() && ok.error_type.is_none());

    let mut bad = make_span(&descriptor(Some("/jobs"), HttpVersion::V11));
    record_outcome(&mut bad, Outcome::Failure("request error".to_string()));
    assert!(bad.http_response_status_code.is_none());
    assert_eq!(bad.error_type, Some("request error".to_string()));
    assert_eq!(bad.otel_status_code, Some("ERROR".to_string()));
}
