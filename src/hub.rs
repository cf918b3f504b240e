//! The service hub's decisions: which addresses the HTTP listener binds, which
//! route answers a request on which port, when a failed bind is retried, and
//! what a services configuration asks the hub to run.
use vstd::prelude::*;
use crate::config::{
    default_prometheus_endpoint, default_prometheus_path, opt_str_view, parse_telemetry,
    ConfigError, TelemetryConfig, TelemetryConfigView, DEFAULT_PROMETHEUS_ENDPOINT, METRICS_PATH,
};
use crate::exporter::{selects, ExporterType};
use crate::json::{json_document_of, parse_json_text, str_eq, JsonValue};

verus! {

/// How many times binding the listener is attempted before giving up.
pub const SERVICE_HUB_SERVER_BIND_MAX_RETRIES: u32 = 5;

/// Seconds to wait between two bind attempts.
pub const SERVICE_HUB_SERVER_BIND_RETRY_INTERVAL_SECS: u64 = 1;

/// Seconds that shutting the hub down waits for the listener thread.
pub const SHUTDOWN_TIMEOUT_SECS: u64 = 10;

/// Route of the version status endpoint.
pub const API_VERSION_PATH: &'static str = "/api/v1/version";

/// Route of the log-path status endpoint.
pub const API_LOG_PATH_PATH: &'static str = "/api/v1/log-path";

// ---------------------------------------------------------------------------
// Binding addresses
// ---------------------------------------------------------------------------

pub open spec fn strings_view(v: Seq<String>) -> Seq<Seq<char>> {
    v.map_values(|s: String| s@)
}

/// The addresses to bind: both endpoints when they differ, one when they are
/// equal or only one is given, none when neither is.
pub open spec fn binding_addresses(t: Option<Seq<char>>, a: Option<Seq<char>>) -> Seq<Seq<char>> {
    match (t, a) {
        (Some(x), Some(y)) => if x == y {
            seq![x]
        } else {
            seq![x, y]
        },
        (Some(x), None) => seq![x],
        (None, Some(y)) => seq![y],
        (None, None) => seq![],
    }
}

/// The addresses the listener binds for a telemetry and an API endpoint, the
/// telemetry one first.
pub fn determine_binding_addresses(
    telemetry_endpoint: &Option<String>,
    api_endpoint: &Option<String>,
) -> (r: Vec<String>)
    ensures
        strings_view(r@) == binding_addresses(
            opt_str_view(*telemetry_endpoint),
            opt_str_view(*api_endpoint),
        ),
{
    let mut r: Vec<String> = Vec::new();
    match (telemetry_endpoint, api_endpoint) {
        (Some(t), Some(a)) => {
            r.push(t.clone());
            if !str_eq(t.as_str(), a.as_str()) {
                r.push(a.clone());
            }
        },
        (Some(t), None) => r.push(t.clone()),
        (None, Some(a)) => r.push(a.clone()),
        (None, None) => {},
    }
    assert(strings_view(r@) =~= binding_addresses(
        opt_str_view(*telemetry_endpoint),
        opt_str_view(*api_endpoint),
    ));
    r
}

// ---------------------------------------------------------------------------
// Ports
// ---------------------------------------------------------------------------

/// Where the port of "host:port" starts: just after the last ':', or 0 where
/// there is none.
pub open spec fn colon_cut(s: Seq<char>) -> int
    decreases s.len(),
{
    if s.len() == 0 {
        0
    } else if s.last() == ':' {
        s.len() as int
    } else {
        colon_cut(s.drop_last())
    }
}

/// The port part of an endpoint: what follows the last ':', or the whole
/// text where there is no ':'.
pub open spec fn port_text(s: Seq<char>) -> Seq<char> {
    s.subrange(colon_cut(s), s.len() as int)
}

/// The port of an endpoint "host:port".
pub fn port_of(endpoint: &str) -> (r: String)
    ensures
        r@ == port_text(endpoint@),
{
    let n = endpoint.unicode_len();
    let mut start: usize = 0;
    let mut i: usize = 0;
    assert(endpoint@.take(0) =~= Seq::<char>::empty());
    while i < n
        invariant
            n == endpoint@.len(),
            i <= n,
            start <= i,
            start == colon_cut(endpoint@.take(i as int)),
        decreases n - i,
    {
        assert(endpoint@.take(i + 1).drop_last() =~= endpoint@.take(i as int));
        if endpoint.get_char(i) == ':' {
            start = i + 1;
        }
        i = i + 1;
    }
    assert(endpoint@.take(n as int) =~= endpoint@);
    endpoint.substring_char(start, n).to_owned()
}

// ---------------------------------------------------------------------------
// Routes
// ---------------------------------------------------------------------------

/// What answers a request.
#[derive(Debug, Clone, Copy, PartialEq, Eq, Structural)]
pub enum Route {
    /// The scrape endpoint: the registry in exposition format.
    Metrics,
    /// The version status endpoint.
    Version,
    /// The log-path status endpoint.
    LogPath,
}

/// Routes served to requests on one port.
#[derive(Debug, Clone)]
pub struct RouteGroup {
    /// The destination port this group answers; `None` answers every port.
    pub port: Option<String>,
    /// Route of the scrape endpoint, where this group serves it.
    pub metrics_path: Option<String>,
    /// Whether this group serves the status endpoints.
    pub api: bool,
}

/// The routes of a listener, fixed when it is bound. The first group that
/// answers a request's port decides it.
#[derive(Debug, Clone)]
pub struct RouteTable {
    pub groups: Vec<RouteGroup>,
}

pub open spec fn group_admits(g: RouteGroup, port: Seq<char>) -> bool {
    match g.port {
        None => true,
        Some(p) => p@ == port,
    }
}

pub open spec fn group_route(g: RouteGroup, path: Seq<char>) -> Option<Route> {
    if g.metrics_path is Some && g.metrics_path->0@ == path {
        Some(Route::Metrics)
    } else if g.api && path == API_VERSION_PATH@ {
        Some(Route::Version)
    } else if g.api && path == API_LOG_PATH_PATH@ {
        Some(Route::LogPath)
    } else {
        None
    }
}

/// The route for a request to `path` on `port`: the first group that answers
/// the port decides, and a path it does not serve is unmatched.
pub open spec fn resolve_route(gs: Seq<RouteGroup>, port: Seq<char>, path: Seq<char>) -> Option<Route>
    decreases gs.len(),
{
    if gs.len() == 0 {
        None
    } else if group_admits(gs[0], port) {
        group_route(gs[0], path)
    } else {
        resolve_route(gs.drop_first(), port, path)
    }
}

pub open spec fn group_is(
    g: RouteGroup,
    port: Option<Seq<char>>,
    metrics_path: Option<Seq<char>>,
    api: bool,
) -> bool {
    opt_str_view(g.port) == port && opt_str_view(g.metrics_path) == metrics_path && g.api == api
}

/// The scrape route in effect: the configured one, else the default.
pub open spec fn effective_metrics_path(p: Option<Seq<char>>) -> Seq<char> {
    match p {
        Some(p) => p,
        None => METRICS_PATH@,
    }
}

proof fn lemma_resolve_skip(gs: Seq<RouteGroup>, port: Seq<char>, path: Seq<char>, i: int)
    requires
        0 <= i < gs.len(),
    ensures
        group_admits(gs[i], port) ==> resolve_route(gs.skip(i), port, path) == group_route(
            gs[i],
            path,
        ),
        !group_admits(gs[i], port) ==> resolve_route(gs.skip(i), port, path) == resolve_route(
            gs.skip(i + 1),
            port,
            path,
        ),
{
    assert(gs.skip(i)[0] == gs[i]);
    assert(gs.skip(i).drop_first() =~= gs.skip(i + 1));
}

impl RouteGroup {
    fn route(&self, path: &str) -> (r: Option<Route>)
        ensures
            r == group_route(*self, path@),
    {
        match &self.metrics_path {
            Some(p) => {
                if str_eq(p.as_str(), path) {
                    return Some(Route::Metrics);
                }
            },
            None => {},
        }
        if self.api && str_eq(path, API_VERSION_PATH) {
            Some(Route::Version)
        } else if self.api && str_eq(path, API_LOG_PATH_PATH) {
            Some(Route::LogPath)
        } else {
            None
        }
    }
}

impl RouteTable {
    /// `self` holds the routes for the given endpoints: see `RouteTable::new`.
    pub open spec fn routes_for(
        self,
        telemetry_endpoint: Option<String>,
        api_endpoint: Option<String>,
        metrics_path: Option<String>,
        has_registry: bool,
    ) -> bool {
        let t = opt_str_view(telemetry_endpoint);
        let a = opt_str_view(api_endpoint);
        let mp = effective_metrics_path(opt_str_view(metrics_path));
        if t is Some && a is Some && t != a {
            &&& self.groups@.len() == 2
            &&& group_is(
                self.groups@[0],
                Some(port_text(t->0)),
                if has_registry {
                    Some(mp)
                } else {
                    None
                },
                false,
            )
            &&& group_is(self.groups@[1], Some(port_text(a->0)), None, true)
        } else {
            &&& self.groups@.len() == 1
            &&& group_is(
                self.groups@[0],
                None,
                if t is Some && has_registry {
                    Some(mp)
                } else {
                    None
                },
                a is Some,
            )
        }
    }

    /// The routes for the given endpoints. Distinct endpoints get one group
    /// each, answering only the port of its endpoint: the scrape route on the
    /// telemetry one, the status routes on the API one. Otherwise one group
    /// answers every port with the routes of the endpoints that are given. The
    /// scrape route is served only where a registry is there to read.
    pub fn new(
        telemetry_endpoint: &Option<String>,
        api_endpoint: &Option<String>,
        metrics_path: &Option<String>,
        has_registry: bool,
    ) -> (r: RouteTable)
        ensures
            r.routes_for(*telemetry_endpoint, *api_endpoint, *metrics_path, has_registry),
    {
        let path = match metrics_path {
            Some(p) => p.clone(),
            None => METRICS_PATH.to_owned(),
        };
        let mut groups: Vec<RouteGroup> = Vec::new();
        match (telemetry_endpoint, api_endpoint) {
            (Some(t), Some(a)) => {
                if !str_eq(t.as_str(), a.as_str()) {
                    groups.push(
                        RouteGroup {
                            port: Some(port_of(t.as_str())),
                            metrics_path: if has_registry {
                                Some(path)
                            } else {
                                None
                            },
                            api: false,
                        },
                    );
                    groups.push(
                        RouteGroup { port: Some(port_of(a.as_str())), metrics_path: None, api: true },
                    );
                    return RouteTable { groups };
                }
            },
            _ => {},
        }
        groups.push(
            RouteGroup {
                port: None,
                metrics_path: if telemetry_endpoint.is_some() && has_registry {
                    Some(path)
                } else {
                    None
                },
                api: api_endpoint.is_some(),
            },
        );
        RouteTable { groups }
    }

    /// The route that answers a request for `path` arriving on port `port`,
    /// or `None` where nothing matches.
    pub fn resolve(&self, port: &str, path: &str) -> (r: Option<Route>)
        ensures
            r == resolve_route(self.groups@, port@, path@),
    {
        let mut i: usize = 0;
        assert(self.groups@.skip(0) =~= self.groups@);
        while i < self.groups.len()
            invariant
                i <= self.groups@.len(),
                resolve_route(self.groups@, port@, path@) == resolve_route(
                    self.groups@.skip(i as int),
                    port@,
                    path@,
                ),
            decreases self.groups.len() - i,
        {
            proof {
                lemma_resolve_skip(self.groups@, port@, path@, i as int);
            }
            let g = &self.groups[i];
            let admits = match &g.port {
                None => true,
                Some(p) => str_eq(p.as_str(), port),
            };
            if admits {
                return g.route(path);
            }
            i = i + 1;
        }
        None
    }
}

// ---------------------------------------------------------------------------
// Bind retries
// ---------------------------------------------------------------------------

/// What to do after a bind attempt.
#[derive(Debug, Clone, Copy, PartialEq, Eq, Structural)]
pub enum BindDecision {
    /// The listener is bound: start serving.
    Serve,
    /// Wait this many seconds, then attempt again.
    RetryAfter(u64),
    /// No attempt is left: report the failure.
    GiveUp,
}

/// The decision after attempt number `attempt` (counting from 1) out of `max`.
pub open spec fn bind_decision(attempt: nat, max: nat, bound: bool) -> BindDecision {
    if bound {
        BindDecision::Serve
    } else if attempt >= max {
        BindDecision::GiveUp
    } else {
        BindDecision::RetryAfter(SERVICE_HUB_SERVER_BIND_RETRY_INTERVAL_SECS)
    }
}

/// Counts bind attempts against a fixed maximum.
#[derive(Debug, Clone, Copy)]
pub struct BindRetry {
    pub attempts: u32,
    pub max_attempts: u32,
}

impl BindRetry {
    pub fn new(max_attempts: u32) -> (r: BindRetry)
        ensures
            r.attempts == 0,
            r.max_attempts == max_attempts,
    {
        BindRetry { attempts: 0, max_attempts }
    }

    /// Whether another attempt may be made.
    pub fn may_attempt(&self) -> (r: bool)
        ensures
            r == (self.attempts < self.max_attempts),
    {
        self.attempts < self.max_attempts
    }

    /// Records the outcome of one attempt and says what comes next.
    pub fn record(&mut self, bound: bool) -> (d: BindDecision)
        requires
            old(self).attempts < old(self).max_attempts,
        ensures
            final(self).attempts == old(self).attempts + 1,
            final(self).max_attempts == old(self).max_attempts,
            d == bind_decision(final(self).attempts as nat, final(self).max_attempts as nat, bound),
    {
        self.attempts = self.attempts + 1;
        if bound {
            BindDecision::Serve
        } else if self.attempts >= self.max_attempts {
            BindDecision::GiveUp
        } else {
            BindDecision::RetryAfter(SERVICE_HUB_SERVER_BIND_RETRY_INTERVAL_SECS)
        }
    }
}

/// Where every bind fails, attempts 1 to `max - 1` are each followed by a
/// wait and a new attempt, and attempt `max` gives up: exactly `max` attempts
/// are made. A bind that succeeds at any attempt is served.
pub proof fn lemma_persistent_failure_gives_up_after_max(max: nat)
    requires
        max >= 1,
    ensures
        forall|k: nat|
            1 <= k < max ==> bind_decision(k, max, false) == BindDecision::RetryAfter(
                SERVICE_HUB_SERVER_BIND_RETRY_INTERVAL_SECS,
            ),
        bind_decision(max, max, false) == BindDecision::GiveUp,
        forall|k: nat| 1 <= k <= max ==> bind_decision(k, max, true) == BindDecision::Serve,
{
}

// ---------------------------------------------------------------------------
// Shutdown
// ---------------------------------------------------------------------------

/// One step of shutting the hub down.
#[derive(Debug, Clone, Copy, PartialEq, Eq, Structural)]
pub enum ShutdownStep {
    /// Tell the listener thread to stop gracefully.
    SignalListener,
    /// Wait for the listener thread, at most this many seconds; past that,
    /// report it and go on.
    AwaitListener { timeout_secs: u64 },
    /// Flush and shut down the exporter's provider.
    FlushExporter,
}

/// The steps of shutting the hub down, in order: the listener, where there is
/// one, is signalled and awaited for a bounded time; the exporter is flushed
/// last, whatever became of the listener.
pub fn shutdown_steps(has_listener: bool) -> (r: Vec<ShutdownStep>)
    ensures
        has_listener ==> r@ == seq![
            ShutdownStep::SignalListener,
            ShutdownStep::AwaitListener { timeout_secs: SHUTDOWN_TIMEOUT_SECS },
            ShutdownStep::FlushExporter,
        ],
        !has_listener ==> r@ == seq![ShutdownStep::FlushExporter],
{
    let mut r: Vec<ShutdownStep> = Vec::new();
    if has_listener {
        r.push(ShutdownStep::SignalListener);
        r.push(ShutdownStep::AwaitListener { timeout_secs: SHUTDOWN_TIMEOUT_SECS });
    }
    r.push(ShutdownStep::FlushExporter);
    assert(has_listener ==> r@ =~= seq![
        ShutdownStep::SignalListener,
        ShutdownStep::AwaitListener { timeout_secs: SHUTDOWN_TIMEOUT_SECS },
        ShutdownStep::FlushExporter,
    ]);
    assert(!has_listener ==> r@ =~= seq![ShutdownStep::FlushExporter]);
    r
}

// ---------------------------------------------------------------------------
// Services configuration
// ---------------------------------------------------------------------------

pub open spec fn digit_char(d: nat) -> char {
    seq!['0', '1', '2', '3', '4', '5', '6', '7', '8', '9'][d as int]
}

/// Decimal digits of `n`, without sign or padding.
pub open spec fn decimal(n: nat) -> Seq<char>
    decreases n,
{
    if n < 10 {
        seq![digit_char(n)]
    } else {
        decimal(n / 10).push(digit_char(n % 10))
    }
}

/// The digit for `d` as a one-character string.
fn digit_str(d: u16) -> (r: &'static str)
    requires
        d < 10,
    ensures
        r@ == seq![digit_char(d as nat)],
{
    match d {
        0 => {
            proof {
                reveal_strlit("0");
            }
            "0"
        },
        1 => {
            proof {
                reveal_strlit("1");
            }
            "1"
        },
        2 => {
            proof {
                reveal_strlit("2");
            }
            "2"
        },
        3 => {
            proof {
                reveal_strlit("3");
            }
            "3"
        },
        4 => {
            proof {
                reveal_strlit("4");
            }
            "4"
        },
        5 => {
            proof {
                reveal_strlit("5");
            }
            "5"
        },
        6 => {
            proof {
                reveal_strlit("6");
            }
            "6"
        },
        7 => {
            proof {
                reveal_strlit("7");
            }
            "7"
        },
        8 => {
            proof {
                reveal_strlit("8");
            }
            "8"
        },
        _ => {
            proof {
                reveal_strlit("9");
            }
            "9"
        },
    }
}

/// Decimal digits of `n`.
fn decimal_string(n: u16) -> (r: String)
    ensures
        r@ == decimal(n as nat),
    decreases n,
{
    if n < 10 {
        digit_str(n).to_owned()
    } else {
        let mut r = decimal_string(n / 10);
        r.append(digit_str(n % 10));
        r
    }
}

/// "host:port", the port in decimal.
fn host_port(host: &str, port: u16) -> (r: String)
    ensures
        r@ == host@ + seq![':'] + decimal(port as nat),
{
    let mut r = host.to_owned();
    proof {
        reveal_strlit(":");
    }
    r.append(":");
    let digits = decimal_string(port);
    r.append(digits.as_str());
    assert(r@ =~= host@ + seq![':'] + decimal(port as nat));
    r
}

proof fn lemma_decimal_len(n: nat)
    ensures
        decimal(n).len() >= 1,
        n >= 10 ==> decimal(n).len() >= 2,
    decreases n,
{
    if n >= 10 {
        lemma_decimal_len(n / 10);
    }
}

/// Different numbers have different decimal digits.
pub proof fn lemma_decimal_injective(a: nat, b: nat)
    requires
        decimal(a) == decimal(b),
    ensures
        a == b,
    decreases a,
{
    let ds = seq!['0', '1', '2', '3', '4', '5', '6', '7', '8', '9'];
    lemma_decimal_len(a);
    lemma_decimal_len(b);
    if a < 10 && b < 10 {
        assert(decimal(a)[0] == digit_char(a));
        assert(decimal(b)[0] == digit_char(b));
        assert(ds[a as int] == ds[b as int]);
    } else if a >= 10 && b >= 10 {
        let x = decimal(a);
        let y = decimal(b);
        assert(x.last() == digit_char(a % 10));
        assert(y.last() == digit_char(b % 10));
        assert(ds[(a % 10) as int] == ds[(b % 10) as int]);
        assert(a % 10 == b % 10);
        assert(x.drop_last() =~= decimal(a / 10));
        assert(y.drop_last() =~= decimal(b / 10));
        lemma_decimal_injective(a / 10, b / 10);
    }
}

/// Endpoints on one host with different ports are different addresses.
pub proof fn lemma_ports_tell_endpoints_apart(host: Seq<char>, p: nat, q: nat)
    requires
        p != q,
    ensures
        host + seq![':'] + decimal(p) != host + seq![':'] + decimal(q),
{
    let x = host + seq![':'] + decimal(p);
    let y = host + seq![':'] + decimal(q);
    if x == y {
        assert(x.skip(host.len() + 1int) =~= decimal(p));
        assert(y.skip(host.len() + 1int) =~= decimal(q));
        lemma_decimal_injective(p, q);
    }
}

/// The API endpoint that a services configuration enables: "host:port" where
/// its `api` block has `enabled: true`, a string `host` and an integer `port`
/// in 64 bits, of which the low 16 bits are the port.
pub open spec fn api_endpoint_of(config: JsonValue) -> Option<Seq<char>> {
    match config.field("api"@) {
        Some(v) => match (v.field("enabled"@), v.field("host"@), v.field("port"@)) {
            (Some(JsonValue::Bool(true)), Some(JsonValue::Str(h)), Some(JsonValue::Int(p))) => {
                if 0 <= p <= u64::MAX {
                    Some(h@ + seq![':'] + decimal((p % 65536) as nat))
                } else {
                    None
                }
            },
            _ => None,
        },
        None => None,
    }
}

/// Reads the API endpoint of a services configuration.
pub fn api_endpoint_from_json(config: &JsonValue) -> (r: Option<String>)
    ensures
        opt_str_view(r) == api_endpoint_of(*config),
{
    let v = match config.get("api") {
        Some(v) => v,
        None => return None,
    };
    let enabled = match v.get("enabled") {
        Some(e) => e.as_bool(),
        None => None,
    };
    if enabled != Some(true) {
        return None;
    }
    let host = match v.get("host") {
        Some(JsonValue::Str(h)) => h,
        _ => return None,
    };
    let port = match v.get("port") {
        Some(p) => p.as_u64(),
        None => None,
    };
    match port {
        Some(p) => Some(host_port(host.as_str(), (p % 65536) as u16)),
        None => None,
    }
}

/// A scrape endpoint and an API endpoint on one host with different ports
/// are both bound, the scrape one first.
pub proof fn lemma_distinct_ports_bind_both(
    config: JsonValue,
    plan: ServiceHubPlan,
    host: Seq<char>,
    scrape_port: nat,
    api_port: nat,
)
    requires
        plan.plans(config),
        opt_str_view(plan.telemetry_endpoint) == Some(host + seq![':'] + decimal(scrape_port)),
        api_endpoint_of(config) == Some(host + seq![':'] + decimal(api_port)),
        scrape_port != api_port,
    ensures
        binding_addresses(opt_str_view(plan.telemetry_endpoint), opt_str_view(plan.api_endpoint))
            == seq![
            host + seq![':'] + decimal(scrape_port),
            host + seq![':'] + decimal(api_port),
        ],
{
    lemma_ports_tell_endpoints_apart(host, scrape_port, api_port);
}

/// Why a services configuration gives no hub.
#[derive(Debug, Clone, Copy, PartialEq, Eq, Structural)]
pub enum HubConfigError {
    /// The text is not JSON.
    NotJson,
    /// The telemetry block is there but does not read.
    Telemetry(ConfigError),
}

/// The error of the telemetry block of a services configuration, if it has
/// one that does not read.
pub open spec fn telemetry_error(config: JsonValue) -> Option<ConfigError> {
    match config.field("telemetry"@) {
        Some(t) => match parse_telemetry(t) {
            Ok(_) => None,
            Err(e) => Some(e),
        },
        None => None,
    }
}

/// What a services configuration asks the hub to run.
#[derive(Debug)]
pub struct ServiceHubPlan {
    /// The telemetry block, where there is one.
    pub telemetry: Option<TelemetryConfig>,
    /// The exporter to bring up.
    pub exporter_type: ExporterType,
    /// Where the scrape endpoint listens.
    pub telemetry_endpoint: Option<String>,
    /// Route of the scrape endpoint.
    pub metrics_path: Option<String>,
    /// Where the status endpoints listen.
    pub api_endpoint: Option<String>,
}

impl ServiceHubPlan {
    /// `self` is what the services configuration `config` asks for, given
    /// that its telemetry block, if any, reads. No telemetry block gives pull
    /// mode with telemetry off. The scrape endpoint is served where metrics
    /// are enabled and the pull exporter is the one brought up: at the
    /// configured endpoint and path, or at the defaults where the settings
    /// were left out. Otherwise there is none, so a configuration that turns
    /// metrics off, or has no telemetry block, binds no scrape port.
    pub open spec fn plans(self, config: JsonValue) -> bool {
        &&& match config.field("telemetry"@) {
            Some(t) => self.telemetry is Some && parse_telemetry(t) == Ok::<
                TelemetryConfigView,
                ConfigError,
            >(self.telemetry->0@),
            None => self.telemetry is None,
        }
        &&& match self.telemetry {
            Some(c) => selects(c@, self.exporter_type),
            None => self.exporter_type matches ExporterType::Prometheus { service_name: None },
        }
        &&& opt_str_view(self.telemetry_endpoint) == match self.telemetry {
            Some(c) => if c@.metrics_enabled() && self.exporter_type is Prometheus {
                Some(
                    match c@.prometheus() {
                        Some(p) => p.endpoint,
                        None => DEFAULT_PROMETHEUS_ENDPOINT@,
                    },
                )
            } else {
                None
            },
            None => None,
        }
        &&& opt_str_view(self.metrics_path) == match self.telemetry {
            Some(c) => if c@.metrics_enabled() && self.exporter_type is Prometheus {
                Some(
                    match c@.prometheus() {
                        Some(p) => p.path,
                        None => METRICS_PATH@,
                    },
                )
            } else {
                None
            },
            None => None,
        }
        &&& opt_str_view(self.api_endpoint) == api_endpoint_of(config)
    }

    /// Reads a services configuration; a telemetry block that does not read
    /// is an error, and no hub is to be made of it.
    pub fn from_json(config: &JsonValue) -> (r: Result<ServiceHubPlan, ConfigError>)
        ensures
            match r {
                Ok(p) => telemetry_error(*config) is None && p.plans(*config),
                Err(e) => telemetry_error(*config) == Some(e),
            },
    {
        let telemetry = match config.get("telemetry") {
            Some(t) => match TelemetryConfig::from_json(t) {
                Ok(c) => Some(c),
                Err(e) => return Err(e),
            },
            None => None,
        };
        let (exporter_type, telemetry_endpoint, metrics_path) = match &telemetry {
            Some(c) => {
                let exporter_type = ExporterType::from_config(c);
                if c.is_metrics_enabled() && matches!(exporter_type, ExporterType::Prometheus { .. }) {
                    let endpoint = match c.get_prometheus_endpoint() {
                        Some(e) => e,
                        None => default_prometheus_endpoint(),
                    };
                    let path = match c.get_prometheus_path() {
                        Some(p) => p,
                        None => default_prometheus_path(),
                    };
                    (exporter_type, Some(endpoint), Some(path))
                } else {
                    (exporter_type, None, None)
                }
            },
            None => (ExporterType::Prometheus { service_name: None }, None, None),
        };
        let api_endpoint = api_endpoint_from_json(config);
        Ok(ServiceHubPlan { telemetry, exporter_type, telemetry_endpoint, metrics_path, api_endpoint })
    }

    /// Reads a services configuration from JSON text.
    pub fn from_text(text: &str) -> (r: Result<ServiceHubPlan, HubConfigError>)
        ensures
            match json_document_of(text@) {
                Some(j) => match r {
                    Ok(p) => telemetry_error(j) is None && p.plans(j),
                    Err(e) => telemetry_error(j) is Some && e == HubConfigError::Telemetry(
                        telemetry_error(j)->0,
                    ),
                },
                None => r == Err::<ServiceHubPlan, HubConfigError>(HubConfigError::NotJson),
            },
    {
        match parse_json_text(text) {
            Some(j) => match ServiceHubPlan::from_json(&j) {
                Ok(p) => Ok(p),
                Err(e) => Err(HubConfigError::Telemetry(e)),
            },
            None => Err(HubConfigError::NotJson),
        }
    }

    /// Whether an HTTP listener is needed at all.
    pub fn needs_listener(&self) -> (r: bool)
        ensures
            r == (self.telemetry_endpoint is Some || self.api_endpoint is Some),
    {
        self.telemetry_endpoint.is_some() || self.api_endpoint.is_some()
    }

    /// The addresses the listener binds.
    pub fn binding_addresses(&self) -> (r: Vec<String>)
        ensures
            strings_view(r@) == binding_addresses(
                opt_str_view(self.telemetry_endpoint),
                opt_str_view(self.api_endpoint),
            ),
    {
        determine_binding_addresses(&self.telemetry_endpoint, &self.api_endpoint)
    }

    /// The routes of the listener, given whether the exporter keeps a registry.
    pub fn route_table(&self, has_registry: bool) -> (r: RouteTable)
        ensures
            r.routes_for(self.telemetry_endpoint, self.api_endpoint, self.metrics_path, has_registry),
    {
        RouteTable::new(&self.telemetry_endpoint, &self.api_endpoint, &self.metrics_path, has_registry)
    }
}

} // verus!
