use ten_service_hub::config::TelemetryConfig;
use ten_service_hub::exporter::{
    handshake_outcome, resource_attributes, ExporterType, InitError,
};
use ten_service_hub::json::JsonValue;

fn obj(entries: Vec<(&str, JsonValue)>) -> JsonValue {
    JsonValue::Object(entries.into_iter().map(|(k, v)| (k.to_string(), v)).collect())
}

fn config_with(exporter: JsonValue) -> TelemetryConfig {
    TelemetryConfig::from_json(&obj(vec![("metrics", obj(vec![("exporter", exporter)]))])).unwrap()
}

#[test]
fn push_without_settings_falls_back_to_pull() {
    let c = config_with(obj(vec![("type", JsonValue::Str("otlp".to_string()))]));
    assert!(matches!(ExporterType::from_config(&c), ExporterType::Prometheus { service_name: None }));
}

#[test]
fn service_name_prefers_configured_one() {
    let c = config_with(obj(vec![
        ("type", JsonValue::Str("prometheus".to_string())),
        ("config", obj(vec![("service_name", JsonValue::Str("svc".to_string()))])),
    ]));
    let e = ExporterType::from_config(&c);
    assert_eq!(e.effective_service_name("ten-framework"), "svc");
    assert_eq!(e.export_interval_secs(), None);
    let console = ExporterType::Console;
    assert_eq!(console.effective_service_name("ten-framework"), "ten-framework");
    assert_eq!(console.export_interval_secs(), Some(30));
    let d = ExporterType::default();
    assert_eq!(d.effective_service_name("x"), "x");
}

#[test]
fn push_exports_every_ten_seconds() {
    let c = config_with(obj(vec![
        ("type", JsonValue::Str("push".to_string())),
        ("config", obj(vec![("endpoint", JsonValue::Str("http://c:4317".to_string()))])),
    ]));
    let e = ExporterType::from_config(&c);
    assert_eq!(e.export_interval_secs(), Some(10));
    assert_eq!(e.effective_service_name("d"), "d");
}

#[test]
fn resource_has_name_and_namespace() {
    let attrs = resource_attributes("svc");
    assert_eq!(
        attrs,
        vec![
            ("service.name".to_string(), "svc".to_string()),
            ("service.namespace".to_string(), "ten-framework".to_string()),
        ]
    );
}

#[test]
fn handshake_outcomes() {
    assert!(handshake_outcome(Some(Ok(()))).is_ok());
    assert!(matches!(handshake_outcome(Some(Err("boom".to_string()))), Err(InitError::Failed(m)) if m == "boom"));
    assert!(matches!(handshake_outcome(None), Err(InitError::TimedOut)));
}
