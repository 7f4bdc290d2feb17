use soliloquy_js::bridge::{
    capabilities, clear_webview_snapshot, describe_webview, inspect_property, read_property,
    record_webview_navigation_request, record_webview_page_title, resolve_location_href,
    webview_bridge_ready, write_property, BridgeState, JSValue, SoliloquyBridgeCommand,
    SoliloquyBridgeReadTarget, SoliloquyBridgeResult, SoliloquyBridgeWrite, WebViewId,
    SOLILOQUY_BRIDGE_SCHEMA, SOLILOQUY_BRIDGE_SCHEMA_VERSION,
};
use soliloquy_js::evaluator::{plan_navigations, JavaScriptEvaluator};
use soliloquy_js::bridge::SoliloquyBridgeMutation;
use soliloquy_js::os_protocol::OsProtocolHandler;

fn string(s: &str) -> JSValue {
    JSValue::String(s.to_string())
}

#[test]
fn capabilities_expose_bridge_schema() {
    let caps = capabilities();
    assert!(matches!(caps, JSValue::Object(_)));
    assert_eq!(caps.get("schemaVersion"), Some(&string(SOLILOQUY_BRIDGE_SCHEMA_VERSION)));
    assert_eq!(caps.get("schema"), Some(&string(SOLILOQUY_BRIDGE_SCHEMA)));
}

#[test]
fn bridge_schema_lists_supported_commands_and_targets() {
    for (name, args) in [
        ("engine.backend", vec![]),
        ("engine.status", vec![]),
        ("webview.id", vec![]),
        ("webview.describe", vec![]),
        ("dom.capabilities", vec![]),
        ("dom.inspect", vec!["document.title".to_string()]),
        ("dom.set", vec!["document.title".to_string(), "value".to_string()]),
    ] {
        assert!(SOLILOQUY_BRIDGE_SCHEMA.contains(&format!("\"name\":\"{name}\"")));
        let parsed = SoliloquyBridgeCommand::parse(name, &args);
        assert!(!matches!(parsed, SoliloquyBridgeCommand::Unsupported(_)), "schema command should parse: {name}");
    }
    for target in ["document.title", "location.href", "window.location.href", "document.readyState"] {
        assert!(SoliloquyBridgeReadTarget::parse(target).is_some(), "read target should parse: {target}");
    }
    for target in ["document.title", "location.href", "window.location.href"] {
        assert!(SoliloquyBridgeWrite::parse(target, "value").is_some(), "write target should parse: {target}");
    }
    assert!(SoliloquyBridgeWrite::parse("document.readyState", "value").is_none());
}

#[test]
fn unknown_webview_reads_nothing_until_recorded() {
    let mut state = BridgeState::new();
    let id = WebViewId { namespace_id: 1, index: 5 };
    assert_eq!(read_property(&state, id, SoliloquyBridgeReadTarget::DocumentTitle), None);
    assert!(!webview_bridge_ready(&state, id));
    record_webview_page_title(&mut state, id, None);
    assert_eq!(read_property(&state, id, SoliloquyBridgeReadTarget::DocumentTitle), Some(JSValue::Null));
    assert!(!webview_bridge_ready(&state, id));
    record_webview_page_title(&mut state, id, Some("T".to_string()));
    assert!(webview_bridge_ready(&state, id));
    clear_webview_snapshot(&mut state, id);
    assert_eq!(read_property(&state, id, SoliloquyBridgeReadTarget::DocumentTitle), None);
}

#[test]
fn webviews_keep_separate_snapshots() {
    let mut state = BridgeState::new();
    let a = WebViewId { namespace_id: 1, index: 2 };
    let b = WebViewId { namespace_id: 2, index: 1 };
    record_webview_page_title(&mut state, a, Some("A".to_string()));
    assert_eq!(read_property(&state, b, SoliloquyBridgeReadTarget::DocumentTitle), None);
    let outcome = write_property(&mut state, b, SoliloquyBridgeWrite::SetLocationHref("https://b.test/".to_string()));
    assert_eq!(outcome.value, string("https://b.test/"));
    assert_eq!(outcome.mutation, Some(SoliloquyBridgeMutation::Navigate { url: "https://b.test/".to_string() }));
    assert_eq!(read_property(&state, a, SoliloquyBridgeReadTarget::LocationHref), Some(JSValue::Null));
    assert_eq!(read_property(&state, b, SoliloquyBridgeReadTarget::DocumentReadyState), Some(string("loading")));
}

#[test]
fn inspect_and_describe_report_the_snapshot() {
    let mut state = BridgeState::new();
    let id = WebViewId { namespace_id: 3, index: 9 };
    let inspected = inspect_property(&state, id, SoliloquyBridgeReadTarget::DocumentReadyState);
    assert_eq!(inspected.get("status"), Some(&string("fallback-required")));
    assert_eq!(inspected.get("writable"), Some(&JSValue::Boolean(false)));
    assert_eq!(inspected.get("valueAvailable"), Some(&JSValue::Boolean(false)));
    let described = describe_webview(&state, id, "mozjs");
    assert_eq!(described.get("id"), Some(&JSValue::Number(9)));
    assert_eq!(described.get("controlsDom"), Some(&JSValue::Boolean(false)));
    record_webview_navigation_request(&mut state, id, "https://x.test/".to_string());
    let described = describe_webview(&state, id, "mozjs");
    assert_eq!(described.get("url"), Some(&string("https://x.test/")));
    assert_eq!(described.get("title"), Some(&JSValue::Null));
    assert_eq!(described.get("controlsDom"), Some(&JSValue::Boolean(true)));
}

#[test]
fn locations_resolve_against_the_current_url() {
    let mut state = BridgeState::new();
    let id = WebViewId { namespace_id: 1, index: 33 };
    record_webview_navigation_request(&mut state, id, "https://soliloquy.test/path/page".to_string());
    assert_eq!(resolve_location_href(&state, id, "../next?x=1"), Ok("https://soliloquy.test/next?x=1".to_string()));
    assert_eq!(resolve_location_href(&state, id, "HTTPS://Example.test"), Ok("https://example.test/".to_string()));
    assert_eq!(
        resolve_location_href(&state, id, "http://[::1"),
        Err(SoliloquyBridgeResult::Error { message: "invalid location.href: invalid IPv6 address".to_string() })
    );
    assert_eq!(
        resolve_location_href(&state, id, ""),
        Err(SoliloquyBridgeResult::Error { message: "location.href cannot be empty".to_string() })
    );
    let other = WebViewId { namespace_id: 1, index: 34 };
    record_webview_navigation_request(&mut state, other, "not a url".to_string());
    assert_eq!(
        resolve_location_href(&state, other, "next"),
        Err(SoliloquyBridgeResult::Error { message: "invalid base location.href: relative URL without a base".to_string() })
    );
}

#[test]
fn navigations_stop_at_the_first_invalid_url() {
    let plan = plan_navigations(&[
        SoliloquyBridgeMutation::Navigate { url: "https://a.test".to_string() },
        SoliloquyBridgeMutation::Navigate { url: "nope".to_string() },
        SoliloquyBridgeMutation::Navigate { url: "https://c.test".to_string() },
    ]);
    assert_eq!(plan.loads, vec!["https://a.test/".to_string()]);
    assert!(plan.failed);
    let ok = plan_navigations(&[SoliloquyBridgeMutation::Navigate { url: "https://b.test/x".to_string() }]);
    assert_eq!(ok.loads, vec!["https://b.test/x".to_string()]);
    assert!(!ok.failed);
}

#[test]
fn forwarded_evaluations_get_increasing_ids() {
    let mut evaluator = JavaScriptEvaluator::new();
    let first = evaluator.forward();
    let second = evaluator.forward();
    assert_eq!((first, second), (0, 1));
    assert!(evaluator.is_pending(first));
    evaluator.finish_evaluation(first);
    assert!(!evaluator.is_pending(first));
    assert!(evaluator.is_pending(second));
}

#[test]
fn os_urls_are_served_by_sold() {
    let handler = OsProtocolHandler;
    assert!(handler.is_fetchable());
    assert!(handler.is_secure());
    assert_eq!(handler.load_target("os://terminal"), Ok("http://127.0.0.1:8080/terminal".to_string()));
    assert_eq!(
        handler.load_target("os://files/home/user"),
        Ok("http://127.0.0.1:8080/files/home/user".to_string())
    );
    assert_eq!(handler.rewrite(None, "/"), "http://127.0.0.1:8080/terminal");
}
