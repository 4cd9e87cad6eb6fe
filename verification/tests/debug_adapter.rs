use basilisk_zed::dap::{
    debug_adapter_launch, debug_adapter_launch_from_text, debug_scenario_config, debug_scenario_text,
    DebugRequest,
};
use basilisk_zed::{build_attach_scenario, build_dap_config, build_launch_scenario, is_attach_request, Json};

fn s(text: &str) -> Json {
    Json::Str(text.to_string())
}

fn num(text: &str) -> Json {
    Json::Number(text.to_string())
}

fn obj(entries: Vec<(&str, Json)>) -> Json {
    Json::Object(entries.into_iter().map(|(k, v)| (k.to_string(), v)).collect())
}

/// `value[key]`, with a missing key read as absent.
fn field<'a>(value: &'a Json, key: &str) -> Option<&'a Json> {
    value.get(key)
}

/// Whether `value[key]` reads as JSON null (a missing key does).
fn is_null_field(value: &Json, key: &str) -> bool {
    field(value, key).map_or(true, |v| v.is_null())
}

fn int_field(value: &Json, key: &str) -> Option<i64> {
    field(value, key).and_then(|v| v.as_number_text()).and_then(|t| t.parse::<i64>().ok())
}

#[test]
fn build_dap_config_defaults() {
    let config = build_dap_config(&obj(vec![]));
    assert_eq!(field(&config, "program"), Some(&s("")));
    assert_eq!(field(&config, "python"), Some(&s("python3")));
    assert_eq!(field(&config, "justMyCode"), Some(&Json::Bool(true)));
    assert_eq!(field(&config, "stopOnEntry"), Some(&Json::Bool(false)));
    assert_eq!(field(&config, "console"), Some(&s("integratedTerminal")));
    assert!(field(&config, "args").map_or(false, |a| a.is_array()));
}

#[test]
fn build_dap_config_with_values() {
    let input = obj(vec![
        ("program", s("main.py")),
        ("python", s("/usr/bin/python3.12")),
        ("justMyCode", Json::Bool(false)),
        ("stopOnEntry", Json::Bool(true)),
        ("console", s("internalConsole")),
        ("args", Json::Array(vec![s("--verbose")])),
        ("cwd", s("/home/user/project")),
    ]);
    let config = build_dap_config(&input);
    assert_eq!(field(&config, "program"), Some(&s("main.py")));
    assert_eq!(field(&config, "python"), Some(&s("/usr/bin/python3.12")));
    assert_eq!(field(&config, "justMyCode"), Some(&Json::Bool(false)));
    assert_eq!(field(&config, "stopOnEntry"), Some(&Json::Bool(true)));
    assert_eq!(field(&config, "console"), Some(&s("internalConsole")));
    assert_eq!(field(&config, "args").and_then(|a| a.at(0)), Some(&s("--verbose")));
    assert_eq!(field(&config, "cwd"), Some(&s("/home/user/project")));
}

#[test]
fn launch_by_default() {
    assert!(!is_attach_request(&obj(vec![])).expect("should succeed"));
}

#[test]
fn launch_explicit() {
    let config = obj(vec![("request", s("launch"))]);
    assert!(!is_attach_request(&config).expect("should succeed"));
}

#[test]
fn attach_by_process_id() {
    let config = obj(vec![("processId", num("42"))]);
    assert!(is_attach_request(&config).expect("should succeed"));
}

#[test]
fn attach_explicit() {
    let config = obj(vec![("request", s("attach"))]);
    assert!(is_attach_request(&config).expect("should succeed"));
}

#[test]
fn attach_process_id_takes_precedence() {
    let config = obj(vec![("processId", num("42")), ("request", s("launch"))]);
    assert!(
        is_attach_request(&config).expect("should succeed"),
        "processId should override request field"
    );
}

#[test]
fn unknown_request_kind_errors() {
    let config = obj(vec![("request", s("restart"))]);
    assert!(is_attach_request(&config).is_err());
}

#[test]
fn launch_scenario_fields() {
    let scenario = build_launch_scenario("app.py", &["--debug".to_string()], Some("/project"), true);
    assert_eq!(field(&scenario, "program"), Some(&s("app.py")));
    assert_eq!(field(&scenario, "args").and_then(|a| a.at(0)), Some(&s("--debug")));
    assert_eq!(field(&scenario, "cwd"), Some(&s("/project")));
    assert_eq!(field(&scenario, "stopOnEntry"), Some(&Json::Bool(true)));
    assert_eq!(field(&scenario, "justMyCode"), Some(&Json::Bool(true)));
    assert_eq!(field(&scenario, "console"), Some(&s("integratedTerminal")));
}

#[test]
fn launch_scenario_no_cwd() {
    let scenario = build_launch_scenario("app.py", &[], None, false);
    assert!(is_null_field(&scenario, "cwd"));
    assert_eq!(field(&scenario, "stopOnEntry"), Some(&Json::Bool(false)));
}

#[test]
fn attach_scenario_with_pid() {
    let scenario = build_attach_scenario(Some(9876));
    assert_eq!(int_field(&scenario, "processId"), Some(9876));
    assert_eq!(field(&scenario, "request"), Some(&s("attach")));
}

#[test]
fn attach_scenario_no_pid() {
    let scenario = build_attach_scenario(None);
    assert!(is_null_field(&scenario, "processId"));
    assert_eq!(field(&scenario, "request"), Some(&s("attach")));
}

// ── Further cases ────────────────────────────────────────────────────

#[test]
fn unknown_request_kind_error_message_is_exact() {
    let config = obj(vec![("request", s("restart"))]);
    assert_eq!(is_attach_request(&config), Err("Unknown request kind: restart".to_string()));
}

#[test]
fn non_string_request_is_launch() {
    let config = obj(vec![("request", Json::Bool(true))]);
    assert_eq!(is_attach_request(&config), Ok(false));
}

#[test]
fn null_process_id_still_attaches() {
    let config = obj(vec![("processId", Json::Null), ("request", s("restart"))]);
    assert_eq!(is_attach_request(&config), Ok(true));
}

#[test]
fn non_object_config_is_launch_with_defaults() {
    assert_eq!(is_attach_request(&Json::Null), Ok(false));
    let config = build_dap_config(&Json::Null);
    assert_eq!(field(&config, "program"), Some(&s("")));
    assert_eq!(field(&config, "args"), Some(&Json::Array(vec![])));
}

#[test]
fn dap_config_has_exactly_the_normalised_keys_in_order() {
    let config = build_dap_config(&obj(vec![("extra", s("ignored")), ("program", s("x.py"))]));
    let expected = obj(vec![
        ("program", s("x.py")),
        ("args", Json::Array(vec![])),
        ("cwd", s("")),
        ("python", s("python3")),
        ("justMyCode", Json::Bool(true)),
        ("stopOnEntry", Json::Bool(false)),
        ("console", s("integratedTerminal")),
    ]);
    assert_eq!(config, expected);
}

#[test]
fn wrongly_typed_fields_fall_back_to_defaults() {
    let config = build_dap_config(&obj(vec![
        ("program", num("3")),
        ("justMyCode", s("no")),
        ("args", s("not-an-array")),
    ]));
    assert_eq!(field(&config, "program"), Some(&s("")));
    assert_eq!(field(&config, "justMyCode"), Some(&Json::Bool(true)));
    assert_eq!(field(&config, "args"), Some(&s("not-an-array")));
}

#[test]
fn normalising_twice_changes_nothing() {
    let input = obj(vec![("program", s("main.py")), ("stopOnEntry", Json::Bool(true))]);
    let once = build_dap_config(&input);
    let twice = build_dap_config(&once);
    assert_eq!(once, twice);
}

#[test]
fn launch_scenario_reads_back_as_launch() {
    let scenario = build_launch_scenario("app.py", &["-v".to_string()], Some("/p"), false);
    assert_eq!(is_attach_request(&scenario), Ok(false));
}

#[test]
fn attach_scenario_reads_back_as_attach() {
    assert_eq!(is_attach_request(&build_attach_scenario(Some(7))), Ok(true));
    assert_eq!(is_attach_request(&build_attach_scenario(None)), Ok(true));
}

#[test]
fn normalised_launch_scenario_keeps_its_fields() {
    let scenario = build_launch_scenario("app.py", &["a".to_string(), "b".to_string()], None, true);
    let config = build_dap_config(&scenario);
    let expected = obj(vec![
        ("program", s("app.py")),
        ("args", Json::Array(vec![s("a"), s("b")])),
        ("cwd", s("")),
        ("python", s("python3")),
        ("justMyCode", Json::Bool(true)),
        ("stopOnEntry", Json::Bool(true)),
        ("console", s("integratedTerminal")),
    ]);
    assert_eq!(config, expected);
}

#[test]
fn attach_scenario_process_id_decimal_text() {
    assert_eq!(field(&build_attach_scenario(Some(0)), "processId"), Some(&num("0")));
    assert_eq!(
        field(&build_attach_scenario(Some(4294967295)), "processId"),
        Some(&num("4294967295"))
    );
    assert_eq!(field(&build_attach_scenario(Some(10)), "processId"), Some(&num("10")));
}

#[test]
fn adapter_launch_for_attach_config() {
    let config = obj(vec![("processId", num("5")), ("cwd", s("/work"))]);
    let launch = debug_adapter_launch(&config).expect("known request");
    assert!(launch.attach);
    assert_eq!(launch.cwd, Some("/work".to_string()));
    assert_eq!(launch.configuration, build_dap_config(&config));
}

#[test]
fn adapter_launch_ignores_non_string_cwd() {
    let config = obj(vec![("cwd", num("1"))]);
    let launch = debug_adapter_launch(&config).expect("known request");
    assert!(!launch.attach);
    assert_eq!(launch.cwd, None);
}

#[test]
fn adapter_launch_rejects_unknown_request() {
    let config = obj(vec![("request", s("restart"))]);
    match debug_adapter_launch(&config) {
        Err(e) => assert_eq!(e, "Unknown request kind: restart"),
        Ok(_) => panic!("an unknown request kind must be refused"),
    }
}

#[test]
fn scenario_config_for_launch_request() {
    let request = DebugRequest::Launch {
        program: "main.py".to_string(),
        args: vec!["x".to_string()],
        cwd: Some("/w".to_string()),
    };
    assert_eq!(
        debug_scenario_config(&request, None),
        build_launch_scenario("main.py", &["x".to_string()], Some("/w"), false)
    );
    assert_eq!(
        debug_scenario_config(&request, Some(true)),
        build_launch_scenario("main.py", &["x".to_string()], Some("/w"), true)
    );
}

#[test]
fn scenario_config_for_attach_request() {
    let request = DebugRequest::Attach { process_id: Some(12) };
    assert_eq!(debug_scenario_config(&request, Some(true)), build_attach_scenario(Some(12)));
}

// ── Configuration text ───────────────────────────────────────────────


fn parsed(text: &str) -> serde_json::Value {
    serde_json::from_str(text).expect("the library writes JSON text")
}

#[test]
fn launch_from_text_normalises_the_parsed_config() {
    let launch = debug_adapter_launch_from_text(r#"{"program": "main.py", "args": ["-v"], "cwd": "/w"}"#)
        .expect("known request");
    assert!(!launch.attach);
    assert_eq!(launch.cwd, Some("/w".to_string()));
    assert_eq!(
        parsed(&launch.configuration_text),
        parsed(
            r#"{"program": "main.py", "args": ["-v"], "cwd": "/w", "python": "python3",
                "justMyCode": true, "stopOnEntry": false, "console": "integratedTerminal"}"#
        )
    );
    assert_eq!(field(&launch.configuration, "program"), Some(&s("main.py")));
}

#[test]
fn launch_from_text_attaches_by_process_id() {
    let launch = debug_adapter_launch_from_text(r#"{"processId": 4242}"#).expect("known request");
    assert!(launch.attach);
    assert_eq!(parsed(&launch.configuration_text)["args"], parsed("[]"));
}

#[test]
fn launch_from_text_invalid_json_launches_with_defaults() {
    let launch = debug_adapter_launch_from_text("not json {").expect("null is a launch");
    assert!(!launch.attach);
    assert_eq!(launch.cwd, None);
    assert_eq!(launch.configuration, build_dap_config(&Json::Null));
    assert_eq!(
        parsed(&launch.configuration_text),
        parsed(
            r#"{"program": "", "args": [], "cwd": "", "python": "python3",
                "justMyCode": true, "stopOnEntry": false, "console": "integratedTerminal"}"#
        )
    );
}

#[test]
fn launch_from_text_rejects_unknown_request() {
    match debug_adapter_launch_from_text(r#"{"request": "restart"}"#) {
        Err(e) => assert_eq!(e, "Unknown request kind: restart"),
        Ok(_) => panic!("an unknown request kind must be refused"),
    }
}

#[test]
fn launch_from_text_keeps_number_text() {
    let launch = debug_adapter_launch_from_text(r#"{"args": [1, 0.5]}"#).expect("known request");
    assert_eq!(
        field(&launch.configuration, "args"),
        Some(&Json::Array(vec![num("1"), num("0.5")]))
    );
    assert_eq!(parsed(&launch.configuration_text)["args"], parsed("[1, 0.5]"));
}

#[test]
fn scenario_text_for_launch_request() {
    let request = DebugRequest::Launch {
        program: "app.py".to_string(),
        args: vec!["--debug".to_string()],
        cwd: None,
    };
    assert_eq!(
        parsed(&debug_scenario_text(&request, Some(true))),
        parsed(
            r#"{"program": "app.py", "args": ["--debug"], "cwd": null, "stopOnEntry": true,
                "justMyCode": true, "console": "integratedTerminal"}"#
        )
    );
}

#[test]
fn scenario_text_for_attach_request() {
    let request = DebugRequest::Attach { process_id: Some(9876) };
    assert_eq!(
        parsed(&debug_scenario_text(&request, None)),
        parsed(r#"{"processId": 9876, "request": "attach"}"#)
    );
    let request = DebugRequest::Attach { process_id: None };
    assert_eq!(
        parsed(&debug_scenario_text(&request, None)),
        parsed(r#"{"processId": null, "request": "attach"}"#)
    );
}
