//! Where the metrics go: the collector endpoint and the export URL built from it.

use vstd::prelude::*;

verus! {

/// The collector address used when none is configured.
pub open spec fn default_endpoint() -> Seq<char> {
    "localhost:4000"@
}

/// A configured string, seen as characters.
pub open spec fn configured_view(configured: Option<String>) -> Option<Seq<char>> {
    match configured {
        Some(s) => Some(s@),
        None => None,
    }
}

/// The endpoint in effect, given the configured value if there is one.
pub open spec fn resolved_endpoint(configured: Option<Seq<char>>) -> Seq<char> {
    match configured {
        Some(s) => s,
        None => default_endpoint(),
    }
}

/// The OTLP/HTTP metrics URL of a collector at `endpoint` (host and port).
pub open spec fn export_url_of(endpoint: Seq<char>) -> Seq<char> {
    "http://"@ + endpoint + "/v1/otlp/v1/metrics"@
}

/// Picks the configured endpoint, or the default one when nothing is configured.
/// Any configured string is taken as it is.
pub fn resolve_endpoint(configured: Option<String>) -> (r: String)
    ensures
        r@ == resolved_endpoint(configured_view(configured)),
{
    match configured {
        Some(s) => s,
        None => String::from_str("localhost:4000"),
    }
}

/// Builds the URL that metrics are posted to for a collector at `endpoint`.
pub fn export_url(endpoint: &str) -> (r: String)
    ensures
        r@ == export_url_of(endpoint@),
{
    let mut url = String::from_str("http://");
    url.append(endpoint);
    url.append("/v1/otlp/v1/metrics");
    url
}

} // verus!
