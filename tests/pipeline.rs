use metrics_emitter::{
    exporter_outcome, init_meter_provider, pipeline_config, Exporter, EXPORT_INTERVAL_MS,
};
use opentelemetry_sdk::metrics::MetricError;

#[test]
fn default_pipeline_config() {
    let c = pipeline_config(None);
    assert_eq!(c.export_url, "http://localhost:4000/v1/otlp/v1/metrics");
    assert_eq!(c.export_interval_ms, 5000);
    assert_eq!(EXPORT_INTERVAL_MS, 5000);
    assert_eq!(c.service_name, "metrics-basic-example");
}

#[test]
fn configured_pipeline_config() {
    let c = pipeline_config(Some("metrics.example.com:9000".to_string()));
    assert_eq!(c.export_url, "http://metrics.example.com:9000/v1/otlp/v1/metrics");
    assert_eq!(c.export_interval_ms, 5000);
}

#[test]
fn builder_error_maps_to_config_error() {
    let built: Result<Exporter, MetricError> = Err(MetricError::Other("refused".to_string()));
    match exporter_outcome(built, "http://x/v1/otlp/v1/metrics".to_string()) {
        Ok(_) => panic!("an exporter error must stay an error"),
        Err(e) => assert_eq!(e.url, "http://x/v1/otlp/v1/metrics"),
    }
}

// Holds while OTEL_EXPORTER_OTLP_METRICS_ENDPOINT and OTEL_EXPORTER_OTLP_ENDPOINT
// are unset: the exporter builder prefers them over the URL it is handed.
#[test]
fn unparsable_endpoint_is_a_config_error() {
    match init_meter_provider(Some("not a host".to_string())) {
        Ok(_) => panic!("a URL with spaces must be refused"),
        Err(e) => assert_eq!(e.url, "http://not a host/v1/otlp/v1/metrics"),
    }
}
