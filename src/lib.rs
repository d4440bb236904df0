//! A periodic counter emitter that ships its metrics over OTLP/HTTP.

pub mod emission;
pub mod endpoint;
pub mod pipeline;
pub mod sdk;

pub use emission::{
    counter_attributes, process_counter, EmissionLoop, EMIT_INCREMENT, EMIT_INTERVAL_MS,
};
pub use endpoint::{export_url, resolve_endpoint};
pub use pipeline::{
    build_meter_provider, exporter_outcome, init_meter_provider, pipeline_config,
    ExporterConfigError, PipelineConfig, EXPORT_INTERVAL_MS,
};
pub use sdk::{Exporter, MeterProvider, MetricCounter};
