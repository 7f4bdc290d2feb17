use soliloquy_js::bridge::{
    record_webview_history_change, record_webview_load_status, record_webview_page_title,
    BridgeState, JSValue, LoadStatus, SoliloquyBridgeCommand, SoliloquyBridgeMutation,
    SoliloquyBridgeReadTarget, WebViewId,
};
use soliloquy_js::script::{
    evaluate_engine_probe, keyword_literal, maybe_evaluate_with_mutations, parse_quoted_arguments,
    parse_soliloquy_command, parse_string_literal, split_binary_plus, DispatchStep,
    SoliloquyJavascriptBackend, SoliloquyJavascriptEvaluation,
};

fn test_webview_id(index: u32) -> WebViewId {
    WebViewId { namespace_id: 1234, index }
}

fn v8() -> SoliloquyJavascriptBackend {
    SoliloquyJavascriptBackend::from_setting(Some("v8-experimental"))
}

fn string(s: &str) -> JSValue {
    JSValue::String(s.to_string())
}

fn bridge_envelope(value: JSValue) -> JSValue {
    JSValue::Object(vec![
        ("ok".to_string(), JSValue::Boolean(true)),
        ("status".to_string(), string("ok")),
        ("value".to_string(), value),
        ("detail".to_string(), JSValue::Null),
    ])
}

fn bridge_detail_envelope(status: &str, detail: JSValue) -> JSValue {
    JSValue::Object(vec![
        ("ok".to_string(), JSValue::Boolean(false)),
        ("status".to_string(), string(status)),
        ("value".to_string(), JSValue::Null),
        ("detail".to_string(), detail),
    ])
}

/// The dispatcher's answer to `script`, with the literal stage limited to
/// keywords, string literals, string concatenation and engine probes.
fn evaluate(state: &mut BridgeState, id: WebViewId, script: &str) -> Option<SoliloquyJavascriptEvaluation> {
    match maybe_evaluate_with_mutations(state, id, script, v8())? {
        DispatchStep::Answered(e) => Some(e),
        DispatchStep::Literal(t) => {
            if let Some(v) = keyword_literal(&t) {
                return Some(SoliloquyJavascriptEvaluation::ok(v));
            }
            if let Some(s) = parse_string_literal(&t) {
                return Some(SoliloquyJavascriptEvaluation::ok(JSValue::String(s)));
            }
            if let Some(joined) = soliloquy_js::script::concat_string_literals(&t) {
                return Some(SoliloquyJavascriptEvaluation::ok(JSValue::String(joined)));
            }
            evaluate_engine_probe(id, &t, v8())
        },
    }
}

fn value_of(state: &mut BridgeState, id: WebViewId, script: &str) -> Option<JSValue> {
    evaluate(state, id, script).map(|e| e.result)
}

#[test]
fn parser_supports_multiple_quoted_arguments() {
    assert_eq!(
        parse_soliloquy_command("window.__soliloquyEval('dom.inspect', 'location.href')"),
        Some(SoliloquyBridgeCommand::DomInspect(SoliloquyBridgeReadTarget::LocationHref))
    );
}

#[test]
fn dispatcher_is_disabled_without_v8_experimental() {
    let mut state = BridgeState::new();
    let backend = SoliloquyJavascriptBackend::from_setting(None);
    assert_eq!(backend, SoliloquyJavascriptBackend::Mozjs);
    assert!(maybe_evaluate_with_mutations(&mut state, test_webview_id(1), "1 + 1", backend).is_none());
}

#[test]
fn backend_setting_ignores_case_and_white_space() {
    assert_eq!(SoliloquyJavascriptBackend::from_setting(Some("  V8 ")), SoliloquyJavascriptBackend::V8Experimental);
    assert_eq!(SoliloquyJavascriptBackend::from_setting(Some("v8_EXPERIMENTAL")), SoliloquyJavascriptBackend::V8Experimental);
    assert_eq!(SoliloquyJavascriptBackend::from_setting(Some("mozjs")), SoliloquyJavascriptBackend::Mozjs);
    assert_eq!(SoliloquyJavascriptBackend::from_setting(Some("v9")), SoliloquyJavascriptBackend::Mozjs);
    assert_eq!(v8().as_str(), "v8-experimental");
}

#[test]
fn dispatcher_handles_literals_and_simple_addition() {
    let mut state = BridgeState::new();
    assert_eq!(
        maybe_evaluate_with_mutations(&mut state, test_webview_id(1), "1 + 1", v8()),
        Some(DispatchStep::Literal("1 + 1".to_string()))
    );
    let (lhs, rhs) = split_binary_plus("1 + 1").expect("a top-level plus");
    // The library hands both operands back; adding them as numbers is the
    // embedder's floating-point stage, which tests here cannot reach.
    assert_eq!((lhs.as_str(), rhs.as_str()), ("1", "1"));
    assert_eq!(value_of(&mut state, test_webview_id(1), "'abc' + 'def'"), Some(string("abcdef")));
    assert_eq!(
        value_of(&mut state, test_webview_id(1), "window.__soliloquyEngineBackend"),
        Some(string("v8-experimental"))
    );
    assert_eq!(value_of(&mut state, test_webview_id(1), "  "), Some(JSValue::Undefined));
    assert_eq!(value_of(&mut state, test_webview_id(1), "null"), Some(JSValue::Null));
}

#[test]
fn dispatcher_handles_structured_commands() {
    let mut state = BridgeState::new();
    let id = test_webview_id(42);
    record_webview_page_title(&mut state, id, Some("Soliloquy".to_string()));
    record_webview_history_change(&mut state, id, Some("https://example.test/".to_string()));
    record_webview_load_status(&mut state, id, LoadStatus::Complete);

    assert_eq!(
        value_of(&mut state, id, "window.__soliloquyEval('webview.id')"),
        Some(bridge_envelope(JSValue::Number(42)))
    );
    assert!(matches!(
        value_of(&mut state, id, "globalThis.__soliloquyEval('engine.status')"),
        Some(JSValue::Object(_))
    ));
    assert!(matches!(
        value_of(&mut state, id, "window.__soliloquyEval('dom.capabilities')"),
        Some(JSValue::Object(_))
    ));
    assert!(matches!(
        value_of(&mut state, id, "window.__soliloquyEval('dom.inspect', 'document.title')"),
        Some(JSValue::Object(_))
    ));
    assert_eq!(
        value_of(&mut state, id, "window.__soliloquyEval('dom.inspect', 'document.body.innerHTML')"),
        Some(bridge_detail_envelope("unsupported", string("dom.inspect")))
    );
    assert_eq!(
        value_of(&mut state, id, "window.__soliloquyEval('not.supported')"),
        Some(bridge_detail_envelope("unsupported", string("not.supported")))
    );
}

#[test]
fn v8_dispatch_backend_reports_isolate_owner_status() {
    let mut state = BridgeState::new();
    let envelope = value_of(&mut state, test_webview_id(7), "window.__soliloquyEval('engine.status')")
        .expect("engine.status is answered");
    let status = envelope.get("value").expect("envelope has a value");
    assert_eq!(status.get("activeEngine"), Some(&string("soliloquy-dispatch")));
    assert_eq!(status.get("isolateOwner"), Some(&string("dispatch-only")));
    assert_eq!(status.get("realIsolate"), Some(&JSValue::Boolean(false)));
    assert_eq!(status.get("ownerLifetime"), Some(&string("none")));
}

#[test]
fn dispatcher_reads_live_dom_properties_from_snapshot() {
    let mut state = BridgeState::new();
    let id = test_webview_id(21);
    record_webview_page_title(&mut state, id, Some("Snapshot Title".to_string()));
    record_webview_history_change(&mut state, id, Some("https://soliloquy.test/current".to_string()));
    record_webview_load_status(&mut state, id, LoadStatus::HeadParsed);

    assert_eq!(value_of(&mut state, id, "document.title"), Some(string("Snapshot Title")));
    assert_eq!(value_of(&mut state, id, "location.href"), Some(string("https://soliloquy.test/current")));
    assert_eq!(value_of(&mut state, id, "document.readyState"), Some(string("interactive")));
}

#[test]
fn dispatcher_writes_live_dom_title() {
    let mut state = BridgeState::new();
    let id = test_webview_id(30);
    assert_eq!(value_of(&mut state, id, "document.title = 'Updated Title'"), Some(string("Updated Title")));
    assert_eq!(value_of(&mut state, id, "document.title"), Some(string("Updated Title")));
    assert_eq!(
        value_of(&mut state, id, "window.__soliloquyEval('dom.set', 'document.title', 'Command Title')"),
        Some(bridge_envelope(string("Command Title")))
    );
    assert_eq!(value_of(&mut state, id, "document.title"), Some(string("Command Title")));
}

#[test]
fn dom_inspect_returns_fallback_metadata() {
    let mut state = BridgeState::new();
    let id = test_webview_id(13);
    record_webview_history_change(&mut state, id, Some("https://soliloquy.test/dom".to_string()));
    let envelope = value_of(&mut state, id, "window.__soliloquyEval('dom.inspect', 'location.href')")
        .expect("dom.inspect is answered");
    assert_eq!(envelope.get("ok"), Some(&JSValue::Boolean(true)));
    assert_eq!(envelope.get("status"), Some(&string("ok")));
    let object = envelope.get("value").expect("envelope has a value");
    assert_eq!(object.get("target"), Some(&string("location.href")));
    assert_eq!(object.get("status"), Some(&string("live-snapshot")));
    assert_eq!(object.get("fallbackEngine"), Some(&string("mozjs")));
    assert_eq!(object.get("valueAvailable"), Some(&JSValue::Boolean(true)));
    assert_eq!(object.get("value"), Some(&string("https://soliloquy.test/dom")));
}

#[test]
fn dispatcher_writes_live_location_href() {
    let mut state = BridgeState::new();
    let id = test_webview_id(31);
    assert_eq!(
        value_of(&mut state, id, "location.href = 'https://soliloquy.test/next'"),
        Some(string("https://soliloquy.test/next"))
    );
    assert_eq!(value_of(&mut state, id, "location.href"), Some(string("https://soliloquy.test/next")));
    assert_eq!(value_of(&mut state, id, "document.readyState"), Some(string("loading")));

    let evaluation = evaluate(&mut state, id, "location.href = 'https://soliloquy.test/queued'")
        .expect("location.href write should be handled");
    assert_eq!(evaluation.result, string("https://soliloquy.test/queued"));
    assert_eq!(
        evaluation.mutations,
        vec![SoliloquyBridgeMutation::Navigate { url: "https://soliloquy.test/queued".to_string() }]
    );

    let relative = evaluate(&mut state, id, "location.href = 'relative/page'")
        .expect("relative location.href write should be handled");
    assert_eq!(relative.result, string("https://soliloquy.test/relative/page"));
    assert_eq!(
        relative.mutations,
        vec![SoliloquyBridgeMutation::Navigate { url: "https://soliloquy.test/relative/page".to_string() }]
    );

    assert_eq!(
        value_of(&mut state, test_webview_id(32), "location.href = 'not a url'"),
        Some(bridge_detail_envelope("error", string("invalid location.href: relative URL without a base")))
    );

    assert_eq!(
        value_of(&mut state, id, "window.__soliloquyEval('dom.set', 'location.href', 'https://soliloquy.test/final')"),
        Some(bridge_envelope(string("https://soliloquy.test/final")))
    );
    assert_eq!(value_of(&mut state, id, "location.href"), Some(string("https://soliloquy.test/final")));

    assert_eq!(
        value_of(&mut state, id, "window.__soliloquyEval('dom.set', 'location.href', '')"),
        Some(bridge_detail_envelope("error", string("location.href cannot be empty")))
    );
}

#[test]
fn quoted_arguments_parse_and_refuse_malformed_payloads() {
    assert_eq!(
        parse_quoted_arguments(" 'a' , \"b c\" ,'' "),
        Some(vec!["a".to_string(), "b c".to_string(), String::new()])
    );
    assert_eq!(parse_quoted_arguments("'a'"), Some(vec!["a".to_string()]));
    assert_eq!(parse_quoted_arguments("'a',"), Some(vec!["a".to_string()]));
    assert_eq!(parse_quoted_arguments(""), None);
    assert_eq!(parse_quoted_arguments("'a' 'b'"), None);
    assert_eq!(parse_quoted_arguments("a"), None);
    assert_eq!(parse_quoted_arguments("'a"), None);
}

#[test]
fn commands_need_the_call_form() {
    assert_eq!(parse_soliloquy_command("window.__soliloquyEval('webview.id'"), None);
    assert_eq!(parse_soliloquy_command("self.__soliloquyEval('webview.id')"), None);
    assert_eq!(parse_soliloquy_command("window.__soliloquyEval()"), None);
    assert_eq!(
        parse_soliloquy_command("globalThis.__soliloquyEval( 'engine.backend' )"),
        Some(SoliloquyBridgeCommand::EngineBackend)
    );
    assert_eq!(
        parse_soliloquy_command("window.__soliloquyEval('engine.backend', 'x')"),
        Some(SoliloquyBridgeCommand::Unsupported("engine.backend".to_string()))
    );
}

#[test]
fn string_literals_and_splits() {
    assert_eq!(parse_string_literal("'x'"), Some("x".to_string()));
    assert_eq!(parse_string_literal("\"x'y\""), Some("x'y".to_string()));
    assert_eq!(parse_string_literal("'x\""), None);
    assert_eq!(parse_string_literal("'"), None);
    assert_eq!(parse_string_literal("'a'b'"), None);
    assert_eq!(split_binary_plus("'a+b' + 'c'"), Some(("'a+b'".to_string(), "'c'".to_string())));
    assert_eq!(split_binary_plus("+ 1"), None);
    assert_eq!(soliloquy_js::script::split_assignment("a == b"), Some(("a".to_string(), "= b".to_string())));
}

#[test]
fn quoted_lists_parse_back_to_their_values() {
    let values = vec!["a".to_string(), String::new(), "b c".to_string()];
    for q in ['\'', '"'] {
        let payload = values
            .iter()
            .map(|v| format!("{q}{v}{q}"))
            .collect::<Vec<_>>()
            .join(", ");
        assert_eq!(parse_quoted_arguments(&payload), Some(values.clone()));
    }
}

#[test]
fn string_literals_added_with_plus_are_joined() {
    assert_eq!(soliloquy_js::script::concat_string_literals("'abc' + \"def\""), Some("abcdef".to_string()));
    assert_eq!(soliloquy_js::script::concat_string_literals("'' + ''"), Some(String::new()));
    assert_eq!(soliloquy_js::script::concat_string_literals("1 + 'a'"), None);
    assert_eq!(soliloquy_js::script::concat_string_literals("'a'"), None);
}
