//! The exporter that a telemetry configuration resolves to, and the decisions
//! taken while bringing it up.
use vstd::prelude::*;
use crate::config::{opt_str_view, Headers, OtlpProtocol, TelemetryConfig, TelemetryConfigView};
use crate::config::ExporterType as ConfiguredType;

verus! {

/// Seconds between two pushes to a remote collector.
pub const PUSH_EXPORT_INTERVAL_SECS: u64 = 10;

/// Seconds between two prints of the debug exporter.
pub const DEBUG_EXPORT_INTERVAL_SECS: u64 = 30;

/// Seconds that bringing up the push exporter may take.
pub const PUSH_INIT_TIMEOUT_SECS: u64 = 5;

/// Namespace attribute attached to every exported metric.
pub const SERVICE_NAMESPACE: &'static str = "ten-framework";

/// The exporter to bring up, with what it needs. It owns no resources.
#[derive(Debug, Clone)]
pub enum ExporterType {
    /// Pull mode: a registry scraped over HTTP.
    Prometheus { service_name: Option<String> },
    /// Push mode: a remote collector.
    Otlp {
        endpoint: String,
        protocol: OtlpProtocol,
        headers: Headers,
        service_name: Option<String>,
    },
    /// Debug mode: printed locally.
    Console,
}

/// Why an exporter could not be brought up.
#[derive(Debug, Clone)]
pub enum InitError {
    /// The exporter or its background thread reported a failure.
    Failed(String),
    /// The background thread gave no answer in time.
    TimedOut,
}

/// `r` is the exporter that configuration `c` selects. Push mode without
/// settings falls back to pull mode.
pub open spec fn selects(c: TelemetryConfigView, r: ExporterType) -> bool {
    match r {
        ExporterType::Prometheus { service_name } => (c.effective_exporter_type()
            == ConfiguredType::Prometheus && opt_str_view(service_name) == match c.prometheus() {
            Some(p) => p.service_name,
            None => None,
        }) || (c.effective_exporter_type() == ConfiguredType::Otlp && c.otlp() is None
            && service_name is None),
        ExporterType::Otlp { endpoint, protocol, headers, service_name } => {
            &&& c.effective_exporter_type() == ConfiguredType::Otlp
            &&& c.otlp() is Some
            &&& endpoint@ == c.otlp()->0.endpoint
            &&& protocol == c.otlp()->0.protocol
            &&& headers@ == c.otlp()->0.headers
            &&& opt_str_view(service_name) == c.otlp()->0.service_name
        },
        ExporterType::Console => c.effective_exporter_type() == ConfiguredType::Console,
    }
}

fn copy_str(o: &Option<String>) -> (r: Option<String>)
    ensures
        r == *o,
{
    match o {
        Some(s) => Some(s.clone()),
        None => None,
    }
}

fn copy_headers(h: &Headers) -> (r: Headers)
    ensures
        r@ == h@,
{
    let mut out: Vec<(String, String)> = Vec::new();
    let mut i: usize = 0;
    while i < h.entries.len()
        invariant
            i <= h.entries@.len(),
            out@.len() == i,
            forall|k: int| 0 <= k < i ==> out@[k] == h.entries@[k],
        decreases h.entries.len() - i,
    {
        out.push((h.entries[i].0.clone(), h.entries[i].1.clone()));
        i = i + 1;
    }
    let r = Headers { entries: out };
    assert(r.entries@ =~= h.entries@);
    r
}

impl ExporterType {
    /// The exporter that a configuration selects. Push mode without settings
    /// falls back to pull mode, as there is no collector to push to.
    pub fn from_config(config: &TelemetryConfig) -> (r: ExporterType)
        ensures
            selects(config@, r),
    {
        match config.get_exporter_type() {
            ConfiguredType::Prometheus => {
                let service_name = match config.get_prometheus_config() {
                    Some(c) => copy_str(&c.service_name),
                    None => None,
                };
                ExporterType::Prometheus { service_name }
            },
            ConfiguredType::Otlp => match config.get_otlp_config() {
                Some(c) => ExporterType::Otlp {
                    endpoint: c.endpoint.clone(),
                    protocol: c.protocol,
                    headers: copy_headers(&c.headers),
                    service_name: copy_str(&c.service_name),
                },
                None => ExporterType::Prometheus { service_name: None },
            },
            ConfiguredType::Console => ExporterType::Console,
        }
    }

    /// The service name to report: the configured one, else `default_name`.
    /// The debug exporter always reports `default_name`.
    pub fn effective_service_name(&self, default_name: &str) -> (r: String)
        ensures
            r@ == match self {
                ExporterType::Prometheus { service_name: Some(s) } => s@,
                ExporterType::Otlp { service_name: Some(s), .. } => s@,
                _ => default_name@,
            },
    {
        match self {
            ExporterType::Prometheus { service_name: Some(s) } => s.clone(),
            ExporterType::Otlp { service_name: Some(s), .. } => s.clone(),
            _ => default_name.to_owned(),
        }
    }

    /// Seconds between two exports, for the exporters that export on a timer.
    pub fn export_interval_secs(&self) -> (r: Option<u64>)
        ensures
            r == match self {
                ExporterType::Prometheus { .. } => None,
                ExporterType::Otlp { .. } => Some(PUSH_EXPORT_INTERVAL_SECS),
                ExporterType::Console => Some(DEBUG_EXPORT_INTERVAL_SECS),
            },
    {
        match self {
            ExporterType::Prometheus { .. } => None,
            ExporterType::Otlp { .. } => Some(PUSH_EXPORT_INTERVAL_SECS),
            ExporterType::Console => Some(DEBUG_EXPORT_INTERVAL_SECS),
        }
    }
}

impl Default for ExporterType {
    fn default() -> (r: Self)
        ensures
            r matches ExporterType::Prometheus { service_name: None },
    {
        ExporterType::Prometheus { service_name: None }
    }
}

/// The attributes that describe the exporting service: its name and the
/// fixed namespace.
pub fn resource_attributes(service_name: &str) -> (r: Vec<(String, String)>)
    ensures
        r@.len() == 2,
        r@[0].0@ == "service.name"@,
        r@[0].1@ == service_name@,
        r@[1].0@ == "service.namespace"@,
        r@[1].1@ == SERVICE_NAMESPACE@,
{
    let mut r: Vec<(String, String)> = Vec::new();
    r.push(("service.name".to_owned(), service_name.to_owned()));
    r.push(("service.namespace".to_owned(), SERVICE_NAMESPACE.to_owned()));
    r
}

/// What the caller concludes from the push exporter's start-up signal:
/// `received` is the message that came back before the timeout, if any.
pub fn handshake_outcome(received: Option<Result<(), String>>) -> (r: Result<(), InitError>)
    ensures
        match received {
            Some(Ok(())) => r is Ok,
            Some(Err(e)) => r matches Err(InitError::Failed(m)) && m == e,
            None => r matches Err(InitError::TimedOut),
        },
{
    match received {
        Some(Ok(())) => Ok(()),
        Some(Err(e)) => Err(InitError::Failed(e)),
        None => Err(InitError::TimedOut),
    }
}

} // verus!
