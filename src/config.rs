//! Telemetry configuration: the typed form of the JSON telemetry block, with
//! type-directed reading of the exporter settings and their defaults.
use vstd::prelude::*;
use crate::json::{str_eq, JsonValue};

verus! {

/// Listening address of the pull-mode scrape endpoint when none is given.
pub const DEFAULT_PROMETHEUS_ENDPOINT: &'static str = "0.0.0.0:49483";

/// Route of the scrape endpoint when none is given.
pub const METRICS_PATH: &'static str = "/metrics";

/// Which exporter a configuration selects.
#[derive(Debug, Clone, Copy, PartialEq, Eq, Structural)]
pub enum ExporterType {
    /// Pull mode: scraped over HTTP.
    Prometheus,
    /// Push mode: sent to a remote collector.
    Otlp,
    /// Debug mode: printed locally.
    Console,
}

/// Transport of the push-mode exporter.
#[derive(Debug, Clone, Copy, PartialEq, Eq, Structural)]
pub enum OtlpProtocol {
    Grpc,
    Http,
}

/// What can be wrong with a telemetry block.
#[derive(Debug, Clone, Copy, PartialEq, Eq, Structural)]
pub enum ConfigError {
    /// A block that must be a JSON object is something else.
    NotAnObject,
    /// An `enabled` flag is not a boolean.
    InvalidEnabled,
    /// The exporter block has no `type`.
    MissingExporterType,
    /// The exporter `type` is not a string naming a known exporter.
    InvalidExporterType,
    /// The push-mode settings have no `endpoint`.
    MissingEndpoint,
    /// An `endpoint` is not a string.
    InvalidEndpoint,
    /// A `path` is not a string.
    InvalidPath,
    /// A `protocol` is neither "grpc" nor "http".
    InvalidProtocol,
    /// `headers` is not an object of strings.
    InvalidHeaders,
    /// A `service_name` is neither a string nor null.
    InvalidServiceName,
}

/// Headers sent with every push, in the order of the object they were read
/// from (serde_json keeps object members sorted by name).
#[derive(Debug, Clone)]
pub struct Headers {
    pub entries: Vec<(String, String)>,
}

/// Pull-mode settings.
#[derive(Debug, Clone)]
pub struct PrometheusConfig {
    /// HTTP listening address, "host:port".
    pub endpoint: String,
    /// Route of the scrape endpoint.
    pub path: String,
    pub service_name: Option<String>,
}

/// Push-mode settings.
#[derive(Debug, Clone)]
pub struct OtlpConfig {
    /// Collector URL.
    pub endpoint: String,
    pub protocol: OtlpProtocol,
    pub headers: Headers,
    pub service_name: Option<String>,
}

/// Debug-mode settings: none so far.
#[derive(Debug, Clone)]
pub struct ConsoleConfig {}

/// The settings of the selected exporter. `Empty` stands for a missing or
/// empty `config` object, which the exporter fills with its own defaults.
#[derive(Debug, Clone)]
pub enum ExporterSpecificConfig {
    Empty,
    Prometheus(PrometheusConfig),
    Otlp(OtlpConfig),
    Console(ConsoleConfig),
}

/// The exporter block: its type and the settings read for that type. The
/// settings always belong to that type.
#[derive(Debug)]
pub struct ExporterConfig {
    pub(crate) exporter_type: ExporterType,
    pub(crate) config: ExporterSpecificConfig,
}

/// The `metrics` block.
#[derive(Debug)]
pub struct MetricsConfig {
    pub enabled: bool,
    pub exporter: Option<ExporterConfig>,
}

/// The telemetry block.
#[derive(Debug)]
pub struct TelemetryConfig {
    pub enabled: bool,
    pub metrics: Option<MetricsConfig>,
}

// ---------------------------------------------------------------------------
// Mathematical views
// ---------------------------------------------------------------------------

pub open spec fn opt_str_view(o: Option<String>) -> Option<Seq<char>> {
    match o {
        Some(s) => Some(s@),
        None => None,
    }
}

pub open spec fn pairs_view(s: Seq<(String, String)>) -> Seq<(Seq<char>, Seq<char>)> {
    s.map_values(|p: (String, String)| (p.0@, p.1@))
}

pub struct PrometheusConfigView {
    pub endpoint: Seq<char>,
    pub path: Seq<char>,
    pub service_name: Option<Seq<char>>,
}

pub struct OtlpConfigView {
    pub endpoint: Seq<char>,
    pub protocol: OtlpProtocol,
    pub headers: Seq<(Seq<char>, Seq<char>)>,
    pub service_name: Option<Seq<char>>,
}

pub enum ExporterSpecificConfigView {
    Empty,
    Prometheus(PrometheusConfigView),
    Otlp(OtlpConfigView),
    Console,
}

pub struct ExporterConfigView {
    pub exporter_type: ExporterType,
    pub config: ExporterSpecificConfigView,
}

pub struct MetricsConfigView {
    pub enabled: bool,
    pub exporter: Option<ExporterConfigView>,
}

pub struct TelemetryConfigView {
    pub enabled: bool,
    pub metrics: Option<MetricsConfigView>,
}

impl View for Headers {
    type V = Seq<(Seq<char>, Seq<char>)>;

    open spec fn view(&self) -> Self::V {
        pairs_view(self.entries@)
    }
}

impl View for PrometheusConfig {
    type V = PrometheusConfigView;

    open spec fn view(&self) -> PrometheusConfigView {
        PrometheusConfigView {
            endpoint: self.endpoint@,
            path: self.path@,
            service_name: opt_str_view(self.service_name),
        }
    }
}

impl View for OtlpConfig {
    type V = OtlpConfigView;

    open spec fn view(&self) -> OtlpConfigView {
        OtlpConfigView {
            endpoint: self.endpoint@,
            protocol: self.protocol,
            headers: self.headers@,
            service_name: opt_str_view(self.service_name),
        }
    }
}

impl View for ExporterSpecificConfig {
    type V = ExporterSpecificConfigView;

    open spec fn view(&self) -> ExporterSpecificConfigView {
        match self {
            ExporterSpecificConfig::Empty => ExporterSpecificConfigView::Empty,
            ExporterSpecificConfig::Prometheus(c) => ExporterSpecificConfigView::Prometheus(c@),
            ExporterSpecificConfig::Otlp(c) => ExporterSpecificConfigView::Otlp(c@),
            ExporterSpecificConfig::Console(_) => ExporterSpecificConfigView::Console,
        }
    }
}

impl View for ExporterConfig {
    type V = ExporterConfigView;

    closed spec fn view(&self) -> ExporterConfigView {
        ExporterConfigView { exporter_type: self.exporter_type, config: self.config@ }
    }
}

impl ExporterConfig {
    #[verifier::type_invariant]
    closed spec fn settings_match_type(self) -> bool {
        self@.consistent()
    }

    pub fn exporter_type(&self) -> (r: ExporterType)
        ensures
            r == self@.exporter_type,
            self@.consistent(),
    {
        proof {
            use_type_invariant(self);
        }
        self.exporter_type
    }

    /// The settings, which always belong to the exporter type.
    pub fn config(&self) -> (r: &ExporterSpecificConfig)
        ensures
            r@ == self@.config,
            self@.consistent(),
    {
        proof {
            use_type_invariant(self);
        }
        &self.config
    }
}

impl View for MetricsConfig {
    type V = MetricsConfigView;

    open spec fn view(&self) -> MetricsConfigView {
        MetricsConfigView {
            enabled: self.enabled,
            exporter: match self.exporter {
                Some(e) => Some(e@),
                None => None,
            },
        }
    }
}

impl View for TelemetryConfig {
    type V = TelemetryConfigView;

    open spec fn view(&self) -> TelemetryConfigView {
        TelemetryConfigView {
            enabled: self.enabled,
            metrics: match self.metrics {
                Some(m) => Some(m@),
                None => None,
            },
        }
    }
}

impl ExporterConfigView {
    /// The settings belong to the exporter that the type names.
    pub open spec fn consistent(self) -> bool {
        match self.config {
            ExporterSpecificConfigView::Empty => self.exporter_type != ExporterType::Console,
            ExporterSpecificConfigView::Prometheus(_) => self.exporter_type
                == ExporterType::Prometheus,
            ExporterSpecificConfigView::Otlp(_) => self.exporter_type == ExporterType::Otlp,
            ExporterSpecificConfigView::Console => self.exporter_type == ExporterType::Console,
        }
    }
}

impl TelemetryConfigView {
    /// The exporter block, when both it and the metrics block are given.
    pub open spec fn exporter(self) -> Option<ExporterConfigView> {
        match self.metrics {
            Some(m) => m.exporter,
            None => None,
        }
    }

    pub open spec fn wf(self) -> bool {
        match self.exporter() {
            Some(e) => e.consistent(),
            None => true,
        }
    }

    /// The exporter in effect: the one named, else pull mode.
    pub open spec fn effective_exporter_type(self) -> ExporterType {
        match self.exporter() {
            Some(e) => e.exporter_type,
            None => ExporterType::Prometheus,
        }
    }

    pub open spec fn prometheus(self) -> Option<PrometheusConfigView> {
        match self.exporter() {
            Some(e) => match e.config {
                ExporterSpecificConfigView::Prometheus(c) => Some(c),
                _ => None,
            },
            None => None,
        }
    }

    pub open spec fn otlp(self) -> Option<OtlpConfigView> {
        match self.exporter() {
            Some(e) => match e.config {
                ExporterSpecificConfigView::Otlp(c) => Some(c),
                _ => None,
            },
            None => None,
        }
    }

    pub open spec fn metrics_enabled(self) -> bool {
        self.enabled && match self.metrics {
            Some(m) => m.enabled,
            None => true,
        }
    }
}

// ---------------------------------------------------------------------------
// What a JSON block reads as
// ---------------------------------------------------------------------------

/// An optional boolean member; absent gives `default`, anything but a
/// boolean gives `None`.
pub open spec fn bool_member(j: JsonValue, key: Seq<char>, default: bool) -> Option<bool> {
    match j.field(key) {
        None => Some(default),
        Some(JsonValue::Bool(b)) => Some(b),
        _ => None,
    }
}

/// An optional string member; absent gives `default`.
pub open spec fn str_member(j: JsonValue, key: Seq<char>, default: Seq<char>) -> Option<
    Seq<char>,
> {
    match j.field(key) {
        None => Some(default),
        Some(JsonValue::Str(s)) => Some(s@),
        _ => None,
    }
}

/// A member that may be a string, null or absent.
pub open spec fn nullable_str_member(j: JsonValue, key: Seq<char>) -> Option<Option<Seq<char>>> {
    match j.field(key) {
        None => Some(None),
        Some(JsonValue::Null) => Some(None),
        Some(JsonValue::Str(s)) => Some(Some(s@)),
        _ => None,
    }
}

/// The exporter a `type` string names.
pub open spec fn exporter_type_named(s: Seq<char>) -> Option<ExporterType> {
    if s == "prometheus"@ || s == "pull"@ {
        Some(ExporterType::Prometheus)
    } else if s == "otlp"@ || s == "push"@ {
        Some(ExporterType::Otlp)
    } else if s == "console"@ || s == "debug"@ {
        Some(ExporterType::Console)
    } else {
        None
    }
}

pub open spec fn protocol_named(s: Seq<char>) -> Option<OtlpProtocol> {
    if s == "grpc"@ {
        Some(OtlpProtocol::Grpc)
    } else if s == "http"@ {
        Some(OtlpProtocol::Http)
    } else {
        None
    }
}

/// The name/value pairs of an object whose members are all strings.
pub open spec fn string_pairs(es: Seq<(String, JsonValue)>) -> Option<Seq<(Seq<char>, Seq<char>)>>
    decreases es.len(),
{
    if es.len() == 0 {
        Some(Seq::empty())
    } else {
        match (string_pairs(es.drop_last()), es.last().1) {
            (Some(p), JsonValue::Str(v)) => Some(p.push((es.last().0@, v@))),
            _ => None,
        }
    }
}

pub open spec fn headers_member(j: JsonValue) -> Option<Seq<(Seq<char>, Seq<char>)>> {
    match j.field("headers"@) {
        None => Some(Seq::empty()),
        Some(JsonValue::Object(es)) => string_pairs(es@),
        _ => None,
    }
}

pub open spec fn protocol_member(j: JsonValue) -> Option<OtlpProtocol> {
    match j.field("protocol"@) {
        None => Some(OtlpProtocol::Grpc),
        Some(JsonValue::Str(s)) => protocol_named(s@),
        _ => None,
    }
}

pub open spec fn parse_prometheus(c: JsonValue) -> Result<PrometheusConfigView, ConfigError> {
    if !(c is Object) {
        Err(ConfigError::NotAnObject)
    } else if str_member(c, "endpoint"@, DEFAULT_PROMETHEUS_ENDPOINT@) is None {
        Err(ConfigError::InvalidEndpoint)
    } else if str_member(c, "path"@, METRICS_PATH@) is None {
        Err(ConfigError::InvalidPath)
    } else if nullable_str_member(c, "service_name"@) is None {
        Err(ConfigError::InvalidServiceName)
    } else {
        Ok(
            PrometheusConfigView {
                endpoint: str_member(c, "endpoint"@, DEFAULT_PROMETHEUS_ENDPOINT@)->0,
                path: str_member(c, "path"@, METRICS_PATH@)->0,
                service_name: nullable_str_member(c, "service_name"@)->0,
            },
        )
    }
}

pub open spec fn parse_otlp(c: JsonValue) -> Result<OtlpConfigView, ConfigError> {
    if !(c is Object) {
        Err(ConfigError::NotAnObject)
    } else if c.field("endpoint"@) is None {
        Err(ConfigError::MissingEndpoint)
    } else if !(c.field("endpoint"@)->0 is Str) {
        Err(ConfigError::InvalidEndpoint)
    } else if protocol_member(c) is None {
        Err(ConfigError::InvalidProtocol)
    } else if headers_member(c) is None {
        Err(ConfigError::InvalidHeaders)
    } else if nullable_str_member(c, "service_name"@) is None {
        Err(ConfigError::InvalidServiceName)
    } else {
        Ok(
            OtlpConfigView {
                endpoint: c.field("endpoint"@)->0->Str_0@,
                protocol: protocol_member(c)->0,
                headers: headers_member(c)->0,
                service_name: nullable_str_member(c, "service_name"@)->0,
            },
        )
    }
}

/// The exporter block: `type` first, then `config` read for that type. A
/// missing, null or empty `config` gives `Empty`; debug mode ignores it.
pub open spec fn parse_exporter(e: JsonValue) -> Result<ExporterConfigView, ConfigError> {
    if !(e is Object) {
        Err(ConfigError::NotAnObject)
    } else {
        match e.field("type"@) {
            None => Err(ConfigError::MissingExporterType),
            Some(JsonValue::Str(s)) => match exporter_type_named(s@) {
                None => Err(ConfigError::InvalidExporterType),
                Some(t) => {
                    let c = match e.field("config"@) {
                        Some(c) => c,
                        None => JsonValue::Null,
                    };
                    if t == ExporterType::Console {
                        Ok(
                            ExporterConfigView {
                                exporter_type: t,
                                config: ExporterSpecificConfigView::Console,
                            },
                        )
                    } else if c.is_null_or_empty_object() {
                        Ok(
                            ExporterConfigView {
                                exporter_type: t,
                                config: ExporterSpecificConfigView::Empty,
                            },
                        )
                    } else if t == ExporterType::Prometheus {
                        match parse_prometheus(c) {
                            Ok(p) => Ok(
                                ExporterConfigView {
                                    exporter_type: t,
                                    config: ExporterSpecificConfigView::Prometheus(p),
                                },
                            ),
                            Err(err) => Err(err),
                        }
                    } else {
                        match parse_otlp(c) {
                            Ok(p) => Ok(
                                ExporterConfigView {
                                    exporter_type: t,
                                    config: ExporterSpecificConfigView::Otlp(p),
                                },
                            ),
                            Err(err) => Err(err),
                        }
                    }
                },
            },
            Some(_) => Err(ConfigError::InvalidExporterType),
        }
    }
}

/// The metrics block; `enabled` defaults to true, a null exporter is none.
pub open spec fn parse_metrics(m: JsonValue) -> Result<MetricsConfigView, ConfigError> {
    if !(m is Object) {
        Err(ConfigError::NotAnObject)
    } else if bool_member(m, "enabled"@, true) is None {
        Err(ConfigError::InvalidEnabled)
    } else {
        let enabled = bool_member(m, "enabled"@, true)->0;
        match m.field("exporter"@) {
            None => Ok(MetricsConfigView { enabled, exporter: None }),
            Some(JsonValue::Null) => Ok(MetricsConfigView { enabled, exporter: None }),
            Some(e) => match parse_exporter(e) {
                Ok(x) => Ok(MetricsConfigView { enabled, exporter: Some(x) }),
                Err(err) => Err(err),
            },
        }
    }
}

/// The telemetry block; `enabled` defaults to false, a null metrics block is
/// none. Members not named here are ignored.
pub open spec fn parse_telemetry(t: JsonValue) -> Result<TelemetryConfigView, ConfigError> {
    if !(t is Object) {
        Err(ConfigError::NotAnObject)
    } else if bool_member(t, "enabled"@, false) is None {
        Err(ConfigError::InvalidEnabled)
    } else {
        let enabled = bool_member(t, "enabled"@, false)->0;
        match t.field("metrics"@) {
            None => Ok(TelemetryConfigView { enabled, metrics: None }),
            Some(JsonValue::Null) => Ok(TelemetryConfigView { enabled, metrics: None }),
            Some(m) => match parse_metrics(m) {
                Ok(x) => Ok(TelemetryConfigView { enabled, metrics: Some(x) }),
                Err(err) => Err(err),
            },
        }
    }
}

// ---------------------------------------------------------------------------
// Reading
// ---------------------------------------------------------------------------

fn read_bool(j: &JsonValue, key: &str, default: bool) -> (r: Option<bool>)
    ensures
        r == bool_member(*j, key@, default),
{
    match j.get(key) {
        None => Some(default),
        Some(v) => v.as_bool(),
    }
}

fn read_str(j: &JsonValue, key: &str, default: &str) -> (r: Option<String>)
    ensures
        opt_str_view(r) == str_member(*j, key@, default@),
{
    match j.get(key) {
        None => Some(default.to_owned()),
        Some(v) => match v.as_str() {
            Some(s) => Some(s.to_owned()),
            None => None,
        },
    }
}

fn read_nullable_str(j: &JsonValue, key: &str) -> (r: Option<Option<String>>)
    ensures
        match r {
            Some(o) => nullable_str_member(*j, key@) == Some(opt_str_view(o)),
            None => nullable_str_member(*j, key@) is None,
        },
{
    match j.get(key) {
        None => Some(None),
        Some(JsonValue::Null) => Some(None),
        Some(JsonValue::Str(s)) => Some(Some(s.clone())),
        Some(_) => None,
    }
}

/// The exporter that a `type` string names: "prometheus" or "pull",
/// "otlp" or "push", "console" or "debug".
pub fn exporter_type_from_name(s: &str) -> (r: Option<ExporterType>)
    ensures
        r == exporter_type_named(s@),
{
    if str_eq(s, "prometheus") || str_eq(s, "pull") {
        Some(ExporterType::Prometheus)
    } else if str_eq(s, "otlp") || str_eq(s, "push") {
        Some(ExporterType::Otlp)
    } else if str_eq(s, "console") || str_eq(s, "debug") {
        Some(ExporterType::Console)
    } else {
        None
    }
}

fn read_protocol(j: &JsonValue) -> (r: Option<OtlpProtocol>)
    ensures
        r == protocol_member(*j),
{
    match j.get("protocol") {
        None => Some(OtlpProtocol::Grpc),
        Some(JsonValue::Str(s)) => {
            if str_eq(s.as_str(), "grpc") {
                Some(OtlpProtocol::Grpc)
            } else if str_eq(s.as_str(), "http") {
                Some(OtlpProtocol::Http)
            } else {
                None
            }
        },
        Some(_) => None,
    }
}

proof fn lemma_string_pairs_fail(es: Seq<(String, JsonValue)>, i: int)
    requires
        0 <= i <= es.len(),
        string_pairs(es.take(i)) is None,
    ensures
        string_pairs(es) is None,
    decreases es.len() - i,
{
    if i == es.len() {
        assert(es.take(i) =~= es);
    } else {
        assert(es.take(i + 1).drop_last() =~= es.take(i));
        lemma_string_pairs_fail(es, i + 1);
    }
}

fn read_headers(j: &JsonValue) -> (r: Option<Headers>)
    ensures
        match r {
            Some(h) => headers_member(*j) == Some(h@),
            None => headers_member(*j) is None,
        },
{
    match j.get("headers") {
        None => {
            let h = Headers { entries: Vec::new() };
            assert(h@ =~= Seq::<(Seq<char>, Seq<char>)>::empty());
            Some(h)
        },
        Some(JsonValue::Object(es)) => {
            let mut out: Vec<(String, String)> = Vec::new();
            let mut i: usize = 0;
            assert(es@.take(0) =~= Seq::<(String, JsonValue)>::empty());
            assert(pairs_view(out@) =~= Seq::<(Seq<char>, Seq<char>)>::empty());
            while i < es.len()
                invariant
                    j.field("headers"@) == Some(JsonValue::Object(*es)),
                    i <= es@.len(),
                    string_pairs(es@.take(i as int)) == Some(pairs_view(out@)),
                decreases es.len() - i,
            {
                assert(es@.take(i + 1).drop_last() =~= es@.take(i as int));
                assert(es@.take(i + 1).last() == es@[i as int]);
                match &es[i].1 {
                    JsonValue::Str(v) => {
                        let ghost before = out@;
                        out.push((es[i].0.clone(), v.clone()));
                        assert(pairs_view(out@) =~= pairs_view(before).push((es@[i as int].0@, v@)));
                    },
                    _ => {
                        proof {
                            lemma_string_pairs_fail(es@, i + 1);
                        }
                        return None;
                    },
                }
                i = i + 1;
            }
            assert(es@.take(i as int) =~= es@);
            Some(Headers { entries: out })
        },
        Some(_) => None,
    }
}

impl Headers {
    /// The value of the first header called `name`.
    pub fn get(&self, name: &str) -> (r: Option<&String>)
        ensures
            match r {
                Some(v) => exists|i: int|
                    0 <= i < self.entries@.len() && self.entries@[i].0@ == name@
                        && self.entries@[i].1 == *v && forall|k: int|
                        0 <= k < i ==> self.entries@[k].0@ != name@,
                None => forall|i: int| 0 <= i < self.entries@.len() ==> self.entries@[i].0@ != name@,
            },
    {
        let mut i: usize = 0;
        while i < self.entries.len()
            invariant
                i <= self.entries@.len(),
                forall|k: int| 0 <= k < i ==> self.entries@[k].0@ != name@,
            decreases self.entries.len() - i,
        {
            if str_eq(self.entries[i].0.as_str(), name) {
                return Some(&self.entries[i].1);
            }
            i = i + 1;
        }
        None
    }

    pub fn len(&self) -> (r: usize)
        ensures
            r == self@.len(),
    {
        self.entries.len()
    }

    pub fn is_empty(&self) -> (r: bool)
        ensures
            r == (self@.len() == 0),
    {
        self.entries.len() == 0
    }
}

impl PrometheusConfig {
    /// Reads pull-mode settings from a `config` object.
    pub fn from_json(c: &JsonValue) -> (r: Result<PrometheusConfig, ConfigError>)
        ensures
            match r {
                Ok(p) => parse_prometheus(*c) == Ok::<PrometheusConfigView, ConfigError>(p@),
                Err(e) => parse_prometheus(*c) == Err::<PrometheusConfigView, ConfigError>(e),
            },
    {
        if !matches!(c, JsonValue::Object(_)) {
            return Err(ConfigError::NotAnObject);
        }
        let endpoint = match read_str(c, "endpoint", DEFAULT_PROMETHEUS_ENDPOINT) {
            Some(s) => s,
            None => return Err(ConfigError::InvalidEndpoint),
        };
        let path = match read_str(c, "path", METRICS_PATH) {
            Some(s) => s,
            None => return Err(ConfigError::InvalidPath),
        };
        let service_name = match read_nullable_str(c, "service_name") {
            Some(s) => s,
            None => return Err(ConfigError::InvalidServiceName),
        };
        Ok(PrometheusConfig { endpoint, path, service_name })
    }
}

impl OtlpConfig {
    /// Reads push-mode settings from a `config` object.
    pub fn from_json(c: &JsonValue) -> (r: Result<OtlpConfig, ConfigError>)
        ensures
            match r {
                Ok(p) => parse_otlp(*c) == Ok::<OtlpConfigView, ConfigError>(p@),
                Err(e) => parse_otlp(*c) == Err::<OtlpConfigView, ConfigError>(e),
            },
    {
        if !matches!(c, JsonValue::Object(_)) {
            return Err(ConfigError::NotAnObject);
        }
        let endpoint = match c.get("endpoint") {
            None => return Err(ConfigError::MissingEndpoint),
            Some(JsonValue::Str(s)) => s.clone(),
            Some(_) => return Err(ConfigError::InvalidEndpoint),
        };
        let protocol = match read_protocol(c) {
            Some(p) => p,
            None => return Err(ConfigError::InvalidProtocol),
        };
        let headers = match read_headers(c) {
            Some(h) => h,
            None => return Err(ConfigError::InvalidHeaders),
        };
        let service_name = match read_nullable_str(c, "service_name") {
            Some(s) => s,
            None => return Err(ConfigError::InvalidServiceName),
        };
        Ok(OtlpConfig { endpoint, protocol, headers, service_name })
    }
}

impl ExporterConfig {
    /// Reads an exporter block: the `type` first, then its `config` as that
    /// type asks.
    pub fn from_json(e: &JsonValue) -> (r: Result<ExporterConfig, ConfigError>)
        ensures
            match r {
                Ok(x) => parse_exporter(*e) == Ok::<ExporterConfigView, ConfigError>(x@),
                Err(err) => parse_exporter(*e) == Err::<ExporterConfigView, ConfigError>(err),
            },
    {
        if !matches!(e, JsonValue::Object(_)) {
            return Err(ConfigError::NotAnObject);
        }
        let exporter_type = match e.get("type") {
            None => return Err(ConfigError::MissingExporterType),
            Some(JsonValue::Str(s)) => match exporter_type_from_name(s.as_str()) {
                Some(t) => t,
                None => return Err(ConfigError::InvalidExporterType),
            },
            Some(_) => return Err(ConfigError::InvalidExporterType),
        };
        let null = JsonValue::Null;
        let c = match e.get("config") {
            Some(c) => c,
            None => &null,
        };
        let config = match exporter_type {
            ExporterType::Console => ExporterSpecificConfig::Console(ConsoleConfig {}),
            ExporterType::Prometheus => {
                if c.is_null_or_empty() {
                    ExporterSpecificConfig::Empty
                } else {
                    match PrometheusConfig::from_json(c) {
                        Ok(p) => ExporterSpecificConfig::Prometheus(p),
                        Err(err) => return Err(err),
                    }
                }
            },
            ExporterType::Otlp => {
                if c.is_null_or_empty() {
                    ExporterSpecificConfig::Empty
                } else {
                    match OtlpConfig::from_json(c) {
                        Ok(p) => ExporterSpecificConfig::Otlp(p),
                        Err(err) => return Err(err),
                    }
                }
            },
        };
        Ok(ExporterConfig { exporter_type, config })
    }
}

impl MetricsConfig {
    /// Reads a metrics block.
    pub fn from_json(m: &JsonValue) -> (r: Result<MetricsConfig, ConfigError>)
        ensures
            match r {
                Ok(x) => parse_metrics(*m) == Ok::<MetricsConfigView, ConfigError>(x@),
                Err(err) => parse_metrics(*m) == Err::<MetricsConfigView, ConfigError>(err),
            },
    {
        if !matches!(m, JsonValue::Object(_)) {
            return Err(ConfigError::NotAnObject);
        }
        let enabled = match read_bool(m, "enabled", true) {
            Some(b) => b,
            None => return Err(ConfigError::InvalidEnabled),
        };
        let exporter = match m.get("exporter") {
            None => None,
            Some(JsonValue::Null) => None,
            Some(e) => match ExporterConfig::from_json(e) {
                Ok(x) => Some(x),
                Err(err) => return Err(err),
            },
        };
        Ok(MetricsConfig { enabled, exporter })
    }
}

impl TelemetryConfig {
    /// Reads a telemetry block.
    pub fn from_json(value: &JsonValue) -> (r: Result<TelemetryConfig, ConfigError>)
        ensures
            match r {
                Ok(x) => parse_telemetry(*value) == Ok::<TelemetryConfigView, ConfigError>(x@),
                Err(err) => parse_telemetry(*value) == Err::<TelemetryConfigView, ConfigError>(
                    err,
                ),
            },
    {
        if !matches!(value, JsonValue::Object(_)) {
            return Err(ConfigError::NotAnObject);
        }
        let enabled = match read_bool(value, "enabled", false) {
            Some(b) => b,
            None => return Err(ConfigError::InvalidEnabled),
        };
        let metrics = match value.get("metrics") {
            None => None,
            Some(JsonValue::Null) => None,
            Some(m) => match MetricsConfig::from_json(m) {
                Ok(x) => Some(x),
                Err(err) => return Err(err),
            },
        };
        Ok(TelemetryConfig { enabled, metrics })
    }
}

// ---------------------------------------------------------------------------
// Defaults and accessors
// ---------------------------------------------------------------------------

pub fn default_true() -> (r: bool)
    ensures
        r,
{
    true
}

pub fn default_prometheus_endpoint() -> (r: String)
    ensures
        r@ == DEFAULT_PROMETHEUS_ENDPOINT@,
{
    DEFAULT_PROMETHEUS_ENDPOINT.to_owned()
}

pub fn default_prometheus_path() -> (r: String)
    ensures
        r@ == METRICS_PATH@,
{
    METRICS_PATH.to_owned()
}

pub fn default_otlp_protocol() -> (r: OtlpProtocol)
    ensures
        r == OtlpProtocol::Grpc,
{
    OtlpProtocol::Grpc
}

impl Default for PrometheusConfig {
    fn default() -> (r: Self)
        ensures
            r@ == (PrometheusConfigView {
                endpoint: DEFAULT_PROMETHEUS_ENDPOINT@,
                path: METRICS_PATH@,
                service_name: None,
            }),
    {
        PrometheusConfig {
            endpoint: default_prometheus_endpoint(),
            path: default_prometheus_path(),
            service_name: None,
        }
    }
}

impl Default for ExporterConfig {
    fn default() -> (r: Self)
        ensures
            r@ == (ExporterConfigView {
                exporter_type: ExporterType::Prometheus,
                config: ExporterSpecificConfigView::Prometheus(
                    PrometheusConfigView {
                        endpoint: DEFAULT_PROMETHEUS_ENDPOINT@,
                        path: METRICS_PATH@,
                        service_name: None,
                    },
                ),
            }),
    {
        ExporterConfig {
            exporter_type: ExporterType::Prometheus,
            config: ExporterSpecificConfig::Prometheus(PrometheusConfig::default()),
        }
    }
}

impl Default for MetricsConfig {
    fn default() -> (r: Self)
        ensures
            !r.enabled,
            r.exporter is None,
    {
        MetricsConfig { enabled: false, exporter: None }
    }
}

impl Default for TelemetryConfig {
    fn default() -> (r: Self)
        ensures
            !r.enabled,
            r.metrics is None,
    {
        TelemetryConfig { enabled: false, metrics: None }
    }
}

impl TelemetryConfig {
    /// The exporter in effect: the one the configuration names, else pull mode.
    pub fn get_exporter_type(&self) -> (r: ExporterType)
        ensures
            r == self@.effective_exporter_type(),
    {
        match &self.metrics {
            Some(m) => match &m.exporter {
                Some(e) => e.exporter_type,
                None => ExporterType::Prometheus,
            },
            None => ExporterType::Prometheus,
        }
    }

    /// Pull-mode settings, when the configuration carries them.
    pub fn get_prometheus_config(&self) -> (r: Option<&PrometheusConfig>)
        ensures
            match r {
                Some(c) => self@.prometheus() == Some(c@),
                None => self@.prometheus() is None,
            },
    {
        match &self.metrics {
            Some(m) => match &m.exporter {
                Some(e) => match &e.config {
                    ExporterSpecificConfig::Prometheus(c) => Some(c),
                    _ => None,
                },
                None => None,
            },
            None => None,
        }
    }

    /// Push-mode settings, when the configuration carries them.
    pub fn get_otlp_config(&self) -> (r: Option<&OtlpConfig>)
        ensures
            match r {
                Some(c) => self@.otlp() == Some(c@),
                None => self@.otlp() is None,
            },
    {
        match &self.metrics {
            Some(m) => match &m.exporter {
                Some(e) => match &e.config {
                    ExporterSpecificConfig::Otlp(c) => Some(c),
                    _ => None,
                },
                None => None,
            },
            None => None,
        }
    }

    pub fn get_prometheus_endpoint(&self) -> (r: Option<String>)
        ensures
            match r {
                Some(s) => self@.prometheus() is Some && s@ == self@.prometheus()->0.endpoint,
                None => self@.prometheus() is None,
            },
    {
        match self.get_prometheus_config() {
            Some(c) => Some(c.endpoint.clone()),
            None => None,
        }
    }

    pub fn get_prometheus_path(&self) -> (r: Option<String>)
        ensures
            match r {
                Some(s) => self@.prometheus() is Some && s@ == self@.prometheus()->0.path,
                None => self@.prometheus() is None,
            },
    {
        match self.get_prometheus_config() {
            Some(c) => Some(c.path.clone()),
            None => None,
        }
    }

    /// Telemetry is on and the metrics block, if any, does not turn it off.
    pub fn is_metrics_enabled(&self) -> (r: bool)
        ensures
            r == self@.metrics_enabled(),
    {
        self.enabled && match &self.metrics {
            Some(m) => m.enabled,
            None => true,
        }
    }
}

// ---------------------------------------------------------------------------
// What every configuration read from JSON satisfies
// ---------------------------------------------------------------------------

/// Every configuration read from JSON pairs its exporter type with settings of
/// that same exporter.
pub proof fn lemma_parsed_config_is_consistent(j: JsonValue)
    requires
        parse_telemetry(j) is Ok,
    ensures
        parse_telemetry(j)->Ok_0.wf(),
{
}

/// The exporter in effect is the one that the `type` member names, and pull
/// mode where the metrics block or its exporter block is absent or null.
pub proof fn lemma_exporter_type_follows_tag(j: JsonValue)
    requires
        parse_telemetry(j) is Ok,
    ensures
        ({
            let c = parse_telemetry(j)->Ok_0;
            let m = j.field("metrics"@);
            match m {
                Some(JsonValue::Object(_)) => {
                    let e = m->0.field("exporter"@);
                    match e {
                        Some(JsonValue::Object(_)) => match e->0.field("type"@) {
                            Some(JsonValue::Str(s)) => exporter_type_named(s@) == Some(
                                c.effective_exporter_type(),
                            ),
                            _ => false,
                        },
                        _ => c.effective_exporter_type() == ExporterType::Prometheus,
                    }
                },
                _ => c.effective_exporter_type() == ExporterType::Prometheus,
            }
        }),
{
}

/// The accessors of each exporter's settings give `None` unless that exporter
/// is the one in effect; for it they give `None` only where the settings were
/// left empty.
pub proof fn lemma_accessors_follow_type(j: JsonValue)
    requires
        parse_telemetry(j) is Ok,
    ensures
        ({
            let c = parse_telemetry(j)->Ok_0;
            &&& c.prometheus() is Some <==> (c.effective_exporter_type() == ExporterType::Prometheus
                && c.exporter() is Some && !(c.exporter()->0.config is Empty))
            &&& c.otlp() is Some <==> (c.effective_exporter_type() == ExporterType::Otlp
                && c.exporter() is Some && !(c.exporter()->0.config is Empty))
        }),
{
    lemma_parsed_config_is_consistent(j);
}

} // verus!
