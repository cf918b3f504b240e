use ten_service_hub::json::JsonValue;
use ten_service_hub::script::{invocation_for, RunCommand, RunError};

fn cmd(name: &str, extra: &[&str]) -> RunCommand {
    RunCommand {
        script_name: name.to_string(),
        extra_args: extra.iter().map(|s| s.to_string()).collect(),
    }
}

fn manifest() -> JsonValue {
    JsonValue::parse(
        r#"{"scripts": {"start": "python3  main.py --port 80 ", "sh": "sh -c   echo hi && ls  ",
            "blank": "  ", "bare": "sh -c   ", "num": 3}}"#,
    )
    .unwrap()
}

fn strings(xs: &[&str]) -> Vec<String> {
    xs.iter().map(|s| s.to_string()).collect()
}

#[test]
fn plain_script_splits_at_white_space() {
    let inv = cmd("start", &["-v"]).invocation(&manifest()).unwrap();
    assert_eq!(inv.program, "python3");
    assert_eq!(inv.args, strings(&["main.py", "--port", "80", "-v"]));
}

#[test]
fn shell_script_keeps_its_body_whole() {
    let inv = cmd("sh", &["x"]).invocation(&manifest()).unwrap();
    assert_eq!(inv.program, "sh");
    assert_eq!(inv.args, strings(&["-c", "echo hi && ls", "x"]));
}

#[test]
fn script_errors() {
    let m = manifest();
    assert_eq!(cmd("missing", &[]).invocation(&m).unwrap_err(), RunError::ScriptNotFound);
    assert_eq!(cmd("num", &[]).invocation(&m).unwrap_err(), RunError::ScriptNotString);
    assert_eq!(cmd("blank", &[]).invocation(&m).unwrap_err(), RunError::EmptyCommand);
    assert_eq!(cmd("bare", &[]).invocation(&m).unwrap_err(), RunError::EmptyShellCommand);
    let no_scripts = JsonValue::parse(r#"{"name": "x"}"#).unwrap();
    assert_eq!(cmd("start", &[]).invocation(&no_scripts).unwrap_err(), RunError::ScriptsMissing);
    let bad = JsonValue::parse(r#"{"scripts": ["start"]}"#).unwrap();
    assert_eq!(cmd("start", &[]).invocation(&bad).unwrap_err(), RunError::ScriptsNotObject);
}

#[test]
fn unicode_white_space_separates_words() {
    let inv = invocation_for("run\u{3000}a\tb\u{a0}c", &vec![]).unwrap();
    assert_eq!(inv.program, "run");
    assert_eq!(inv.args, strings(&["a", "b", "c"]));
}

#[test]
fn json_parse_reads_text() {
    assert!(JsonValue::parse("{").is_none());
    match JsonValue::parse(r#"{"a": [1, -2, 1.5, null, true]}"#).unwrap() {
        JsonValue::Object(entries) => {
            assert_eq!(entries.len(), 1);
            match &entries[0].1 {
                JsonValue::Array(items) => {
                    assert!(matches!(items[0], JsonValue::Int(1)));
                    assert!(matches!(items[1], JsonValue::Int(-2)));
                    assert!(matches!(items[2], JsonValue::Real));
                    assert!(matches!(items[3], JsonValue::Null));
                    assert!(matches!(items[4], JsonValue::Bool(true)));
                }
                other => panic!("expected an array, got {other:?}"),
            }
        }
        other => panic!("expected an object, got {other:?}"),
    }
}
