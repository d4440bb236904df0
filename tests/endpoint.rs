use metrics_emitter::{export_url, resolve_endpoint};

#[test]
fn unset_endpoint_resolves_to_default() {
    assert_eq!(resolve_endpoint(None), "localhost:4000");
}

#[test]
fn configured_endpoint_is_kept_as_is() {
    let e = resolve_endpoint(Some("metrics.example.com:9000".to_string()));
    assert_eq!(e, "metrics.example.com:9000");
    let odd = resolve_endpoint(Some("not validated at all".to_string()));
    assert_eq!(odd, "not validated at all");
}

#[test]
fn empty_endpoint_is_not_replaced_by_default() {
    assert_eq!(resolve_endpoint(Some(String::new())), "");
}

#[test]
fn export_url_wraps_endpoint() {
    assert_eq!(
        export_url("metrics.example.com:9000"),
        "http://metrics.example.com:9000/v1/otlp/v1/metrics"
    );
    assert_eq!(export_url("localhost:4000"), "http://localhost:4000/v1/otlp/v1/metrics");
    assert_eq!(export_url(""), "http:///v1/otlp/v1/metrics");
}

#[test]
fn example_endpoint_gives_example_url() {
    let e = resolve_endpoint(Some("metrics.example.com:9000".to_string()));
    assert_eq!(export_url(&e), "http://metrics.example.com:9000/v1/otlp/v1/metrics");
}
