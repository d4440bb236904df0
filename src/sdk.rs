//! Handles on the telemetry SDK. Each handle carries, as ghost state, what it
//! was built from or handed: only the functions of this module set it.

use opentelemetry::metrics::Counter;
use opentelemetry::KeyValue;
use opentelemetry_otlp::{MetricExporter, Protocol, WithExportConfig};
use opentelemetry_sdk::metrics::{MetricError, PeriodicReader, SdkMeterProvider};
use opentelemetry_sdk::Resource;
use vstd::prelude::*;

verus! {

#[verifier::external_type_specification]
#[verifier::external_body]
#[verifier::reject_recursive_types(T)]
pub struct ExCounter<T>(Counter<T>);

#[verifier::external_type_specification]
#[verifier::external_body]
pub struct ExMetricExporter(MetricExporter);

#[verifier::external_type_specification]
#[verifier::external_body]
pub struct ExMetricError(MetricError);

#[verifier::external_type_specification]
pub struct ExProtocol(Protocol);

#[verifier::external_type_specification]
#[verifier::external_body]
pub struct ExPeriodicReader(PeriodicReader);

#[verifier::external_type_specification]
#[verifier::external_body]
pub struct ExResource(Resource);

#[verifier::external_type_specification]
#[verifier::external_body]
pub struct ExSdkMeterProvider(SdkMeterProvider);

/// Key/value pairs of strings, seen as pairs of character sequences.
pub open spec fn attributes_view(a: Seq<(String, String)>) -> Seq<(Seq<char>, Seq<char>)> {
    a.map_values(|p: (String, String)| (p.0@, p.1@))
}

/// An OTLP metrics exporter over HTTP, with what its builder was handed.
pub struct Exporter {
    inner: MetricExporter,
    url: Ghost<Seq<char>>,
    protocol: Ghost<Protocol>,
}

impl Exporter {
    /// The URL handed to the exporter's builder.
    pub closed spec fn url(&self) -> Seq<char> {
        self.url@
    }

    /// The wire protocol handed to the exporter's builder.
    pub closed spec fn protocol(&self) -> Protocol {
        self.protocol@
    }
}

/// A periodic reader, with what it was built from.
pub struct Reader {
    inner: PeriodicReader,
    url: Ghost<Seq<char>>,
    protocol: Ghost<Protocol>,
    interval_ms: Ghost<u64>,
}

impl Reader {
    /// The URL handed to the builder of the exporter the reader drives.
    pub closed spec fn url(&self) -> Seq<char> {
        self.url@
    }

    /// The wire protocol handed to the builder of the exporter the reader drives.
    pub closed spec fn protocol(&self) -> Protocol {
        self.protocol@
    }

    /// The export period handed to the reader, in milliseconds.
    pub closed spec fn interval_ms(&self) -> u64 {
        self.interval_ms@
    }
}

/// A resource that names the service.
pub struct ServiceResource {
    inner: Resource,
    service_name: Ghost<Seq<char>>,
}

impl ServiceResource {
    /// The service name handed to the resource's builder.
    pub closed spec fn service_name(&self) -> Seq<char> {
        self.service_name@
    }
}

/// A meter provider, with the pipeline it was built from.
pub struct MeterProvider {
    inner: SdkMeterProvider,
    url: Ghost<Seq<char>>,
    protocol: Ghost<Protocol>,
    interval_ms: Ghost<u64>,
    service_name: Ghost<Seq<char>>,
    registered: Ghost<bool>,
}

impl MeterProvider {
    /// The URL handed to the builder of the exporter behind the provider's reader.
    pub closed spec fn export_url(&self) -> Seq<char> {
        self.url@
    }

    /// The wire protocol handed to the builder of the exporter behind the
    /// provider's reader.
    pub closed spec fn export_protocol(&self) -> Protocol {
        self.protocol@
    }

    /// The period of the provider's reader, in milliseconds.
    pub closed spec fn export_interval_ms(&self) -> u64 {
        self.interval_ms@
    }

    /// The service name of the provider's resource.
    pub closed spec fn service_name(&self) -> Seq<char> {
        self.service_name@
    }

    /// Whether the provider was registered as the process-wide one.
    pub closed spec fn registered(&self) -> bool {
        self.registered@
    }
}

/// A `u64` counter, with its meter and instrument names and every addition
/// handed to it, in order, as value and attributes.
pub struct MetricCounter {
    inner: Counter<u64>,
    names: Ghost<(Seq<char>, Seq<char>)>,
    added: Ghost<Seq<(u64, Seq<(Seq<char>, Seq<char>)>)>>,
}

impl MetricCounter {
    /// The meter name and the instrument name.
    pub closed spec fn names(&self) -> (Seq<char>, Seq<char>) {
        self.names@
    }

    /// The additions handed to the counter through this handle.
    pub closed spec fn recorded(&self) -> Seq<(u64, Seq<(Seq<char>, Seq<char>)>)> {
        self.added@
    }
}

/// Relies on opentelemetry_otlp's `MetricExporter::builder().with_http()`,
/// with the wire `protocol` and aimed at `url`. Whether it succeeds depends also
/// on the process environment, and OTEL_EXPORTER_OTLP_* variables there take
/// precedence over `url`, so only what the builder was handed is stated.
#[verifier::external_body]
pub(crate) fn build_exporter(url: String, protocol: Protocol) -> (r: Result<Exporter, MetricError>)
    ensures
        r matches Ok(e) ==> e.url() == url@ && e.protocol() == protocol,
{
    let target = Ghost(url@);
    match MetricExporter::builder().with_http().with_protocol(protocol).with_endpoint(url).build() {
        Ok(inner) => Ok(Exporter { inner, url: target, protocol: Ghost(protocol) }),
        Err(e) => Err(e),
    }
}

/// Relies on opentelemetry_sdk's `PeriodicReader::builder(..).with_interval(..)`:
/// a reader with its own background thread that exports every `interval_ms`.
#[verifier::external_body]
pub(crate) fn build_periodic_reader(exporter: Exporter, interval_ms: u64) -> (r: Reader)
    requires
        interval_ms > 0,
    ensures
        r.url() == exporter.url(),
        r.protocol() == exporter.protocol(),
        r.interval_ms() == interval_ms,
{
    let url = Ghost(exporter.url@);
    let protocol = Ghost(exporter.protocol@);
    let inner = PeriodicReader::builder(exporter.inner).with_interval(
        std::time::Duration::from_millis(interval_ms),
    ).build();
    Reader { inner, url, protocol, interval_ms: Ghost(interval_ms) }
}

/// Relies on opentelemetry_sdk's `Resource::builder().with_service_name(..)`.
#[verifier::external_body]
pub(crate) fn service_resource(service_name: String) -> (r: ServiceResource)
    ensures
        r.service_name() == service_name@,
{
    let name = Ghost(service_name@);
    ServiceResource { inner: Resource::builder().with_service_name(service_name).build(), service_name: name }
}

/// Relies on opentelemetry_sdk's `SdkMeterProvider::builder()` with one reader
/// and one resource.
#[verifier::external_body]
pub(crate) fn build_provider(reader: Reader, resource: ServiceResource) -> (r: MeterProvider)
    ensures
        r.export_url() == reader.url(),
        r.export_protocol() == reader.protocol(),
        r.export_interval_ms() == reader.interval_ms(),
        r.service_name() == resource.service_name(),
        !r.registered(),
{
    let inner = SdkMeterProvider::builder().with_reader(reader.inner).with_resource(resource.inner).build();
    MeterProvider {
        inner,
        url: reader.url,
        protocol: reader.protocol,
        interval_ms: reader.interval_ms,
        service_name: resource.service_name,
        registered: Ghost(false),
    }
}

/// Relies on opentelemetry's `global::set_meter_provider`, handed a clone of
/// the provider (clones share one pipeline).
#[verifier::external_body]
pub(crate) fn register_global(provider: &mut MeterProvider)
    ensures
        final(provider).export_url() == old(provider).export_url(),
        final(provider).export_protocol() == old(provider).export_protocol(),
        final(provider).export_interval_ms() == old(provider).export_interval_ms(),
        final(provider).service_name() == old(provider).service_name(),
        final(provider).registered(),
{
    opentelemetry::global::set_meter_provider(provider.inner.clone());
    provider.registered = Ghost(true);
}

/// Relies on opentelemetry's `global::meter(meter_name)` and
/// `Meter::u64_counter(counter_name).build()`: a counter handle of the
/// process-wide meter provider.
#[verifier::external_body]
pub(crate) fn global_u64_counter(meter_name: &'static str, counter_name: &'static str) -> (r: MetricCounter)
    ensures
        r.names() == (meter_name@, counter_name@),
        r.recorded().len() == 0,
{
    let inner = opentelemetry::global::meter(meter_name).u64_counter(counter_name).build();
    MetricCounter { inner, names: Ghost((meter_name@, counter_name@)), added: Ghost(Seq::empty()) }
}

/// Relies on opentelemetry's `Counter::add`: records `value` with the given
/// attributes, each pair turned into a `KeyValue`.
#[verifier::external_body]
pub(crate) fn counter_add(counter: &mut MetricCounter, value: u64, attributes: &Vec<(String, String)>)
    ensures
        final(counter).names() == old(counter).names(),
        final(counter).recorded() == old(counter).recorded().push(
            (value, attributes_view(attributes@)),
        ),
{
    let kvs: Vec<KeyValue> = attributes.iter().map(|(k, v)| KeyValue::new(k.clone(), v.clone())).collect();
    counter.inner.add(value, &kvs);
    counter.added = Ghost(counter.added@.push((value, attributes_view(attributes@))));
}

} // verus!
