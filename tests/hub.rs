use ten_service_hub::config::ConfigError;
use ten_service_hub::config::ExporterType as ConfiguredType;
use ten_service_hub::exporter::ExporterType;
use ten_service_hub::hub::{
    api_endpoint_from_json, determine_binding_addresses, port_of, BindDecision, BindRetry, Route,
    RouteTable, ServiceHubPlan, HubConfigError, shutdown_steps, ShutdownStep, SERVICE_HUB_SERVER_BIND_MAX_RETRIES,
    SERVICE_HUB_SERVER_BIND_RETRY_INTERVAL_SECS, SHUTDOWN_TIMEOUT_SECS,
};
use ten_service_hub::json::JsonValue;

fn some(x: &str) -> Option<String> {
    Some(x.to_string())
}

fn obj(entries: Vec<(&str, JsonValue)>) -> JsonValue {
    JsonValue::Object(entries.into_iter().map(|(k, v)| (k.to_string(), v)).collect())
}

#[test]
fn binding_addresses_cases() {
    assert_eq!(determine_binding_addresses(&some("A"), &some("A")), vec!["A".to_string()]);
    assert_eq!(
        determine_binding_addresses(&some("A"), &some("B")),
        vec!["A".to_string(), "B".to_string()]
    );
    assert_eq!(determine_binding_addresses(&some("A"), &None), vec!["A".to_string()]);
    assert_eq!(determine_binding_addresses(&None, &some("B")), vec!["B".to_string()]);
    assert!(determine_binding_addresses(&None, &None).is_empty());
}

#[test]
fn port_of_takes_text_after_last_colon() {
    assert_eq!(port_of("127.0.0.1:49483"), "49483");
    assert_eq!(port_of("[::1]:8080"), "8080");
    assert_eq!(port_of("localhost"), "localhost");
    assert_eq!(port_of("host:"), "");
}

#[test]
fn persistent_bind_failure_attempts_exactly_max() {
    let mut retry = BindRetry::new(SERVICE_HUB_SERVER_BIND_MAX_RETRIES);
    let mut attempts = 0;
    let mut waits = 0;
    let mut gave_up = false;
    while retry.may_attempt() {
        attempts += 1;
        match retry.record(false) {
            BindDecision::RetryAfter(secs) => {
                assert_eq!(secs, SERVICE_HUB_SERVER_BIND_RETRY_INTERVAL_SECS);
                waits += 1;
            }
            BindDecision::GiveUp => {
                gave_up = true;
                break;
            }
            BindDecision::Serve => panic!("a failed bind is never served"),
        }
    }
    assert!(gave_up);
    assert_eq!(attempts, SERVICE_HUB_SERVER_BIND_MAX_RETRIES);
    assert_eq!(waits, SERVICE_HUB_SERVER_BIND_MAX_RETRIES - 1);
}

#[test]
fn bind_success_on_a_later_attempt_is_served() {
    let mut retry = BindRetry::new(3);
    assert_eq!(retry.record(false), BindDecision::RetryAfter(1));
    assert_eq!(retry.record(true), BindDecision::Serve);
    assert_eq!(retry.attempts, 2);
    let none = BindRetry::new(0);
    assert!(!none.may_attempt());
}

#[test]
fn two_addresses_route_by_port() {
    let telemetry = some("127.0.0.1:18081");
    let api = some("127.0.0.1:18082");
    let addrs = determine_binding_addresses(&telemetry, &api);
    assert_eq!(addrs, vec!["127.0.0.1:18081".to_string(), "127.0.0.1:18082".to_string()]);
    let table = RouteTable::new(&telemetry, &api, &None, true);
    assert_eq!(table.resolve("18081", "/metrics"), Some(Route::Metrics));
    assert_eq!(table.resolve("18082", "/api/v1/version"), Some(Route::Version));
    assert_eq!(table.resolve("18082", "/api/v1/log-path"), Some(Route::LogPath));
    assert_eq!(table.resolve("18081", "/api/v1/version"), None);
    assert_eq!(table.resolve("18082", "/metrics"), None);
    assert_eq!(table.resolve("9999", "/metrics"), None);
}

#[test]
fn shared_address_serves_everything() {
    let ep = some("0.0.0.0:8080");
    let table = RouteTable::new(&ep, &ep, &some("/scrape"), true);
    assert_eq!(table.groups.len(), 1);
    assert_eq!(table.resolve("8080", "/scrape"), Some(Route::Metrics));
    assert_eq!(table.resolve("1234", "/api/v1/version"), Some(Route::Version));
    assert_eq!(table.resolve("8080", "/metrics"), None);
}

#[test]
fn no_registry_means_no_scrape_route() {
    let table = RouteTable::new(&some("0.0.0.0:8080"), &None, &None, false);
    assert_eq!(table.resolve("8080", "/metrics"), None);
    assert_eq!(table.resolve("8080", "/api/v1/version"), None);
}

#[test]
fn api_endpoint_needs_enabled_host_and_port() {
    let api = |enabled: bool| {
        obj(vec![(
            "api",
            obj(vec![
                ("enabled", JsonValue::Bool(enabled)),
                ("host", JsonValue::Str("127.0.0.1".to_string())),
                ("port", JsonValue::Int(8081)),
            ]),
        )])
    };
    assert_eq!(api_endpoint_from_json(&api(true)).unwrap(), "127.0.0.1:8081");
    assert!(api_endpoint_from_json(&api(false)).is_none());
    assert!(api_endpoint_from_json(&obj(vec![])).is_none());
    let wide = obj(vec![(
        "api",
        obj(vec![
            ("enabled", JsonValue::Bool(true)),
            ("host", JsonValue::Str("h".to_string())),
            ("port", JsonValue::Int(65536 + 80)),
        ]),
    )]);
    assert_eq!(api_endpoint_from_json(&wide).unwrap(), "h:80");
    for (port, text) in [(0, "h:0"), (65535, "h:65535"), (1000, "h:1000")] {
        let cfg = obj(vec![(
            "api",
            obj(vec![
                ("enabled", JsonValue::Bool(true)),
                ("host", JsonValue::Str("h".to_string())),
                ("port", JsonValue::Int(port)),
            ]),
        )]);
        assert_eq!(api_endpoint_from_json(&cfg).unwrap(), text);
    }
}

#[test]
fn plan_from_text_reads_telemetry_and_api() {
    let text = r#"{
        "telemetry": {"enabled": true, "metrics": {"exporter": {"type": "prometheus",
            "config": {"endpoint": "127.0.0.1:18081", "path": "/m"}}}},
        "api": {"enabled": true, "host": "127.0.0.1", "port": 18082}
    }"#;
    let plan = ServiceHubPlan::from_text(text).unwrap();
    assert_eq!(plan.telemetry_endpoint.as_deref(), Some("127.0.0.1:18081"));
    assert_eq!(plan.metrics_path.as_deref(), Some("/m"));
    assert_eq!(plan.api_endpoint.as_deref(), Some("127.0.0.1:18082"));
    assert!(plan.needs_listener());
    assert_eq!(plan.binding_addresses().len(), 2);
    assert!(matches!(plan.exporter_type, ExporterType::Prometheus { service_name: None }));
    assert_eq!(plan.telemetry.unwrap().get_exporter_type(), ConfiguredType::Prometheus);
    let table = ServiceHubPlan::from_text(text).unwrap().route_table(true);
    assert_eq!(table.resolve("18081", "/m"), Some(Route::Metrics));
}

#[test]
fn plan_from_text_rejects_non_json_and_bad_telemetry() {
    assert_eq!(ServiceHubPlan::from_text("not json").unwrap_err(), HubConfigError::NotJson);
    let err =
        ServiceHubPlan::from_text(r#"{"telemetry": {"metrics": {"exporter": {"type": "bogus"}}}}"#)
            .unwrap_err();
    assert_eq!(err, HubConfigError::Telemetry(ConfigError::InvalidExporterType));
}

#[test]
fn plan_applies_pull_defaults_only_with_metrics_on() {
    let plan = ServiceHubPlan::from_text(r#"{"telemetry": {"enabled": true}}"#).unwrap();
    assert_eq!(plan.telemetry_endpoint.as_deref(), Some("0.0.0.0:49483"));
    assert_eq!(plan.metrics_path.as_deref(), Some("/metrics"));
    let empty = ServiceHubPlan::from_text(
        r#"{"telemetry": {"enabled": true, "metrics": {"exporter": {"type": "prometheus", "config": {}}}}}"#,
    )
    .unwrap();
    assert_eq!(empty.telemetry_endpoint.as_deref(), Some("0.0.0.0:49483"));
    let off = ServiceHubPlan::from_text(r#"{"telemetry": {"enabled": false}}"#).unwrap();
    assert!(off.telemetry_endpoint.is_none());
    let none = ServiceHubPlan::from_text("{}").unwrap();
    assert!(!none.needs_listener());
    assert!(none.binding_addresses().is_empty());
    let console = ServiceHubPlan::from_text(
        r#"{"telemetry": {"enabled": true, "metrics": {"exporter": {"type": "console"}}}}"#,
    )
    .unwrap();
    assert!(console.telemetry_endpoint.is_none());
}

#[test]
fn plan_for_push_mode_needs_no_listener() {
    let text = r#"{"telemetry": {"enabled": true, "metrics": {"exporter": {"type": "otlp",
        "config": {"endpoint": "http://collector:4318", "protocol": "http",
                   "headers": {"x-api-key": "k"}, "service_name": "svc"}}}}}"#;
    let plan = ServiceHubPlan::from_text(text).unwrap();
    assert!(!plan.needs_listener());
    match &plan.exporter_type {
        ExporterType::Otlp { endpoint, headers, service_name, .. } => {
            assert_eq!(endpoint, "http://collector:4318");
            assert_eq!(headers.get("x-api-key").unwrap(), "k");
            assert_eq!(service_name.as_deref(), Some("svc"));
        }
        other => panic!("expected push mode, got {other:?}"),
    }
}

#[test]
fn shutdown_flushes_last_after_a_bounded_wait() {
    assert_eq!(
        shutdown_steps(true),
        vec![
            ShutdownStep::SignalListener,
            ShutdownStep::AwaitListener { timeout_secs: SHUTDOWN_TIMEOUT_SECS },
            ShutdownStep::FlushExporter,
        ]
    );
    assert_eq!(SHUTDOWN_TIMEOUT_SECS, 10);
    assert_eq!(shutdown_steps(false), vec![ShutdownStep::FlushExporter]);
}
