//! Building the metrics pipeline: exporter, periodic reader and provider.

use opentelemetry_otlp::Protocol;
use opentelemetry_sdk::metrics::MetricError;
use vstd::prelude::*;

use crate::endpoint::{
    configured_view, export_url, export_url_of, resolve_endpoint, resolved_endpoint,
};
use crate::sdk::{
    build_exporter, build_periodic_reader, build_provider, register_global, service_resource,
    Exporter, MeterProvider,
};

verus! {

/// How often the periodic reader collects and exports, in milliseconds.
pub const EXPORT_INTERVAL_MS: u64 = 5000;

/// The service name attached to every exported batch.
pub open spec fn service_name_of() -> Seq<char> {
    "metrics-basic-example"@
}

/// Everything the pipeline is built from, as plain values.
#[derive(Debug, Clone)]
pub struct PipelineConfig {
    /// The URL that metrics are posted to.
    pub export_url: String,
    /// The period of the reader that collects and exports, in milliseconds.
    pub export_interval_ms: u64,
    /// The `service.name` resource attribute.
    pub service_name: String,
}

/// The exporter could not be built for the configured target.
#[derive(Debug, Clone)]
pub struct ExporterConfigError {
    /// The export URL that was refused.
    pub url: String,
}

/// The pipeline settings for a configured endpoint, or the default one.
pub fn pipeline_config(configured: Option<String>) -> (r: PipelineConfig)
    ensures
        r.export_url@ == export_url_of(resolved_endpoint(configured_view(configured))),
        r.export_interval_ms == EXPORT_INTERVAL_MS,
        r.service_name@ == service_name_of(),
{
    let endpoint = resolve_endpoint(configured);
    PipelineConfig {
        export_url: export_url(endpoint.as_str()),
        export_interval_ms: EXPORT_INTERVAL_MS,
        service_name: String::from_str("metrics-basic-example"),
    }
}

/// Turns the exporter builder's outcome into this library's error.
pub fn exporter_outcome(built: Result<Exporter, MetricError>, url: String) -> (r: Result<
    Exporter,
    ExporterConfigError,
>)
    ensures
        r is Ok <==> built is Ok,
        r is Ok ==> r->Ok_0 == built->Ok_0,
        r matches Err(e) ==> e.url@ == url@,
{
    match built {
        Ok(exporter) => Ok(exporter),
        Err(_) => Err(ExporterConfigError { url }),
    }
}

/// Builds the exporter (OTLP over HTTP, binary protobuf), reader and provider
/// from `config`, and registers the provider as the process-wide one. The caller keeps the provider alive.
pub fn build_meter_provider(config: PipelineConfig) -> (r: Result<MeterProvider, ExporterConfigError>)
    requires
        config.export_interval_ms > 0,
    ensures
        r matches Ok(p) ==> {
            &&& p.export_url() == config.export_url@
            &&& p.export_protocol() == Protocol::HttpBinary
            &&& p.export_interval_ms() == config.export_interval_ms
            &&& p.service_name() == config.service_name@
            &&& p.registered()
        },
        r matches Err(e) ==> e.url@ == config.export_url@,
{
    let url = config.export_url.clone();
    let exporter = exporter_outcome(build_exporter(config.export_url, Protocol::HttpBinary), url)?;
    let reader = build_periodic_reader(exporter, config.export_interval_ms);
    let mut provider = build_provider(reader, service_resource(config.service_name));
    register_global(&mut provider);
    Ok(provider)
}

/// Builds and registers the metrics pipeline for a configured endpoint, or the
/// default one when nothing is configured.
pub fn init_meter_provider(configured: Option<String>) -> (r: Result<MeterProvider, ExporterConfigError>)
    ensures
        r matches Ok(p) ==> {
            &&& p.export_url() == export_url_of(resolved_endpoint(configured_view(configured)))
            &&& p.export_protocol() == Protocol::HttpBinary
            &&& p.export_interval_ms() == EXPORT_INTERVAL_MS
            &&& p.service_name() == service_name_of()
            &&& p.registered()
        },
        r matches Err(e) ==> e.url@ == export_url_of(
            resolved_endpoint(configured_view(configured)),
        ),
{
    build_meter_provider(pipeline_config(configured))
}

} // verus!
