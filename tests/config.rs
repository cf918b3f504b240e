use ten_service_hub::config::{
    ConfigError, ExporterConfig, ExporterSpecificConfig, ExporterType, OtlpProtocol,
    PrometheusConfig, TelemetryConfig,
};
use ten_service_hub::json::JsonValue;

fn s(x: &str) -> JsonValue {
    JsonValue::Str(x.to_string())
}

fn obj(entries: Vec<(&str, JsonValue)>) -> JsonValue {
    JsonValue::Object(entries.into_iter().map(|(k, v)| (k.to_string(), v)).collect())
}

fn telemetry(exporter: JsonValue) -> JsonValue {
    obj(vec![
        ("enabled", JsonValue::Bool(true)),
        ("metrics", obj(vec![("exporter", exporter)])),
    ])
}

#[test]
fn test_parse_prometheus_config() {
    let json = obj(vec![
        ("enabled", JsonValue::Bool(true)),
        (
            "metrics",
            obj(vec![
                ("enabled", JsonValue::Bool(true)),
                (
                    "exporter",
                    obj(vec![
                        ("type", s("prometheus")),
                        (
                            "config",
                            obj(vec![("endpoint", s("0.0.0.0:49483")), ("path", s("/metrics"))]),
                        ),
                    ]),
                ),
            ]),
        ),
    ]);

    let config = TelemetryConfig::from_json(&json).unwrap();
    assert!(config.enabled);
    assert_eq!(config.get_exporter_type(), ExporterType::Prometheus);

    let prom_config = config.get_prometheus_config().unwrap();
    assert_eq!(prom_config.endpoint, "0.0.0.0:49483");
    assert_eq!(prom_config.path, "/metrics");
    assert_eq!(config.get_prometheus_endpoint().unwrap(), "0.0.0.0:49483");
}

#[test]
fn test_parse_otlp_config() {
    let json = obj(vec![
        ("enabled", JsonValue::Bool(true)),
        (
            "metrics",
            obj(vec![
                ("enabled", JsonValue::Bool(true)),
                (
                    "exporter",
                    obj(vec![
                        ("type", s("otlp")),
                        (
                            "config",
                            obj(vec![
                                ("endpoint", s("http://localhost:4317")),
                                ("protocol", s("grpc")),
                                ("headers", obj(vec![("x-api-key", s("secret"))])),
                            ]),
                        ),
                    ]),
                ),
            ]),
        ),
    ]);

    let config = TelemetryConfig::from_json(&json).unwrap();
    assert_eq!(config.get_exporter_type(), ExporterType::Otlp);

    let otlp = config.get_otlp_config().unwrap();
    assert_eq!(otlp.endpoint, "http://localhost:4317");
    assert_eq!(otlp.protocol, OtlpProtocol::Grpc);
    assert_eq!(otlp.headers.get("x-api-key").unwrap(), "secret");
}

#[test]
fn test_parse_console_config() {
    let json = telemetry(obj(vec![("type", s("console"))]));
    let config = TelemetryConfig::from_json(&json).unwrap();
    assert_eq!(config.get_exporter_type(), ExporterType::Console);

    let json_with_config = telemetry(obj(vec![("type", s("console")), ("config", obj(vec![]))]));
    let config_with_config = TelemetryConfig::from_json(&json_with_config).unwrap();
    assert_eq!(config_with_config.get_exporter_type(), ExporterType::Console);
}

#[test]
fn test_default_values() {
    let json = obj(vec![("enabled", JsonValue::Bool(true))]);

    let config = TelemetryConfig::from_json(&json).unwrap();
    assert!(config.is_metrics_enabled());
    assert_eq!(config.get_exporter_type(), ExporterType::Prometheus);
}

#[test]
fn test_disabled_telemetry() {
    let json = obj(vec![("enabled", JsonValue::Bool(false))]);

    let config = TelemetryConfig::from_json(&json).unwrap();
    assert!(!config.enabled);
}

#[test]
fn test_metrics_disabled() {
    let json = obj(vec![
        ("enabled", JsonValue::Bool(true)),
        ("metrics", obj(vec![("enabled", JsonValue::Bool(false))])),
    ]);

    let config = TelemetryConfig::from_json(&json).unwrap();
    assert!(config.enabled);
    assert!(!config.is_metrics_enabled());
}

#[test]
fn test_missing_prometheus_config() {
    let json = telemetry(obj(vec![("type", s("prometheus")), ("config", obj(vec![]))]));

    let config = TelemetryConfig::from_json(&json).unwrap();
    assert_eq!(config.get_exporter_type(), ExporterType::Prometheus);
    assert!(config.get_prometheus_config().is_none());
}

#[test]
fn test_invalid_exporter_type() {
    let json = telemetry(obj(vec![("type", s("invalid_type"))]));

    let result = TelemetryConfig::from_json(&json);
    assert!(result.is_err());
}

#[test]
fn test_otlp_http_protocol() {
    let json = telemetry(obj(vec![
        ("type", s("otlp")),
        (
            "config",
            obj(vec![("endpoint", s("http://localhost:4318")), ("protocol", s("http"))]),
        ),
    ]));

    let config = TelemetryConfig::from_json(&json).unwrap();
    let otlp = config.get_otlp_config().unwrap();
    assert_eq!(otlp.protocol, OtlpProtocol::Http);
}

#[test]
fn test_otlp_without_headers() {
    let json = telemetry(obj(vec![
        ("type", s("otlp")),
        (
            "config",
            obj(vec![("endpoint", s("http://localhost:4317")), ("protocol", s("grpc"))]),
        ),
    ]));

    let config = TelemetryConfig::from_json(&json).unwrap();
    let otlp = config.get_otlp_config().unwrap();
    assert!(otlp.headers.is_empty());
}

#[test]
fn push_alias_selects_otlp_with_grpc_and_no_headers() {
    let json = telemetry(obj(vec![
        ("type", s("push")),
        (
            "config",
            obj(vec![("endpoint", s("http://localhost:4317")), ("protocol", s("grpc"))]),
        ),
    ]));
    let config = TelemetryConfig::from_json(&json).unwrap();
    assert_eq!(config.get_exporter_type(), ExporterType::Otlp);
    let otlp = config.get_otlp_config().unwrap();
    assert_eq!(otlp.protocol, OtlpProtocol::Grpc);
    assert!(otlp.headers.is_empty());
    assert!(config.get_prometheus_config().is_none());
}

#[test]
fn enabled_only_gives_pull_mode_with_defaults() {
    let json = obj(vec![("enabled", JsonValue::Bool(true))]);
    let config = TelemetryConfig::from_json(&json).unwrap();
    assert!(config.is_metrics_enabled());
    assert_eq!(config.get_exporter_type(), ExporterType::Prometheus);
    assert!(config.get_prometheus_endpoint().is_none());
    let defaults = PrometheusConfig::default();
    assert_eq!(defaults.endpoint, "0.0.0.0:49483");
    assert_eq!(defaults.path, "/metrics");
}

#[test]
fn bogus_exporter_type_is_a_structured_error() {
    let json = telemetry(obj(vec![("type", s("bogus"))]));
    assert_eq!(TelemetryConfig::from_json(&json).unwrap_err(), ConfigError::InvalidExporterType);
}

#[test]
fn pull_and_debug_aliases() {
    let pull = telemetry(obj(vec![("type", s("pull"))]));
    let debug = telemetry(obj(vec![("type", s("debug")), ("config", s("ignored"))]));
    assert_eq!(
        TelemetryConfig::from_json(&pull).unwrap().get_exporter_type(),
        ExporterType::Prometheus
    );
    assert_eq!(
        TelemetryConfig::from_json(&debug).unwrap().get_exporter_type(),
        ExporterType::Console
    );
}

#[test]
fn prometheus_partial_config_takes_defaults() {
    let json = telemetry(obj(vec![
        ("type", s("prometheus")),
        ("config", obj(vec![("endpoint", s("127.0.0.1:9000"))])),
    ]));
    let config = TelemetryConfig::from_json(&json).unwrap();
    assert_eq!(config.get_prometheus_endpoint().unwrap(), "127.0.0.1:9000");
    assert_eq!(config.get_prometheus_path().unwrap(), "/metrics");
    assert!(config.get_otlp_config().is_none());
}

#[test]
fn metrics_enabled_defaults_to_true_and_null_blocks_are_absent() {
    let json = obj(vec![
        ("enabled", JsonValue::Bool(true)),
        ("metrics", obj(vec![("exporter", JsonValue::Null)])),
    ]);
    let config = TelemetryConfig::from_json(&json).unwrap();
    assert!(config.metrics.as_ref().unwrap().enabled);
    assert!(config.metrics.as_ref().unwrap().exporter.is_none());
    let json = obj(vec![("metrics", JsonValue::Null)]);
    let config = TelemetryConfig::from_json(&json).unwrap();
    assert!(!config.enabled);
    assert!(config.metrics.is_none());
}

#[test]
fn each_config_error() {
    let cases: Vec<(JsonValue, ConfigError)> = vec![
        (JsonValue::Array(vec![]), ConfigError::NotAnObject),
        (obj(vec![("enabled", s("yes"))]), ConfigError::InvalidEnabled),
        (obj(vec![("metrics", obj(vec![("enabled", JsonValue::Int(1))]))]), ConfigError::InvalidEnabled),
        (telemetry(obj(vec![("config", obj(vec![]))])), ConfigError::MissingExporterType),
        (telemetry(obj(vec![("type", JsonValue::Int(3))])), ConfigError::InvalidExporterType),
        (
            telemetry(obj(vec![("type", s("otlp")), ("config", obj(vec![("protocol", s("http"))]))])),
            ConfigError::MissingEndpoint,
        ),
        (
            telemetry(obj(vec![("type", s("prometheus")), ("config", obj(vec![("endpoint", JsonValue::Int(5))]))])),
            ConfigError::InvalidEndpoint,
        ),
        (
            telemetry(obj(vec![("type", s("prometheus")), ("config", obj(vec![("path", JsonValue::Null)]))])),
            ConfigError::InvalidPath,
        ),
        (
            telemetry(obj(vec![
                ("type", s("otlp")),
                ("config", obj(vec![("endpoint", s("http://c:4317")), ("protocol", s("udp"))])),
            ])),
            ConfigError::InvalidProtocol,
        ),
        (
            telemetry(obj(vec![
                ("type", s("otlp")),
                ("config", obj(vec![("endpoint", s("http://c:4317")), ("headers", obj(vec![("a", JsonValue::Int(1))]))])),
            ])),
            ConfigError::InvalidHeaders,
        ),
        (
            telemetry(obj(vec![
                ("type", s("prometheus")),
                ("config", obj(vec![("service_name", JsonValue::Bool(true))])),
            ])),
            ConfigError::InvalidServiceName,
        ),
        (telemetry(s("x")), ConfigError::NotAnObject),
    ];
    for (json, expected) in cases {
        assert_eq!(TelemetryConfig::from_json(&json).unwrap_err(), expected);
    }
}

#[test]
fn headers_keep_order_and_first_match() {
    let json = telemetry(obj(vec![
        ("type", s("otlp")),
        (
            "config",
            obj(vec![
                ("endpoint", s("http://c:4317")),
                ("headers", obj(vec![("a", s("1")), ("b", s("2"))])),
            ]),
        ),
    ]));
    let config = TelemetryConfig::from_json(&json).unwrap();
    let headers = &config.get_otlp_config().unwrap().headers;
    assert_eq!(headers.len(), 2);
    assert_eq!(headers.get("b").unwrap(), "2");
    assert!(headers.get("c").is_none());
}

#[test]
fn exporter_block_settings_follow_its_type() {
    let json = telemetry(obj(vec![("type", s("otlp")), ("config", JsonValue::Null)]));
    let config = TelemetryConfig::from_json(&json).unwrap();
    let exporter = config.metrics.as_ref().unwrap().exporter.as_ref().unwrap();
    assert_eq!(exporter.exporter_type(), ExporterType::Otlp);
    assert!(matches!(exporter.config(), ExporterSpecificConfig::Empty));
    let default = ExporterConfig::default();
    assert_eq!(default.exporter_type(), ExporterType::Prometheus);
    match default.config() {
        ExporterSpecificConfig::Prometheus(p) => {
            assert_eq!(p.endpoint, "0.0.0.0:49483");
            assert_eq!(p.path, "/metrics");
        }
        other => panic!("expected pull settings, got {other:?}"),
    }
}
