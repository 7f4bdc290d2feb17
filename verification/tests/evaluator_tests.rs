use soliloquy_js::bridge::{
    record_webview_history_change, record_webview_page_title, BridgeState, JSValue, WebViewId,
};
use soliloquy_js::evaluator::{local_answer, EvaluationStep, JavaScriptEvaluator};
use soliloquy_js::script::{
    evaluate_engine_probe, keyword_literal, parse_string_literal, split_binary_plus,
    SoliloquyJavascriptBackend,
};

fn test_webview_id(index: u32) -> WebViewId {
    WebViewId { namespace_id: 1234, index }
}

fn v8() -> SoliloquyJavascriptBackend {
    SoliloquyJavascriptBackend::from_setting(Some("v8-experimental"))
}

/// What a caller of the evaluator gets back.
#[derive(Debug, PartialEq)]
enum Answer {
    Value(JSValue),
    Number(f64),
}

/// What the evaluator sends to the constellation.
#[derive(Debug, PartialEq)]
enum Message {
    LoadUrl(WebViewId, String),
    EvaluateJavaScript(WebViewId, u64, String),
}

fn literal(script: &str) -> Option<Answer> {
    if let Some(value) = keyword_literal(script) {
        return Some(Answer::Value(value));
    }
    if !script.starts_with('\'') && !script.starts_with('"') {
        if let Ok(number) = script.parse::<f64>() {
            return Some(Answer::Number(number));
        }
    }
    parse_string_literal(script).map(|s| Answer::Value(JSValue::String(s)))
}

fn binary_plus(script: &str) -> Option<Answer> {
    let (lhs, rhs) = split_binary_plus(script)?;
    match (literal(&lhs)?, literal(&rhs)?) {
        (Answer::Number(a), Answer::Number(b)) => Some(Answer::Number(a + b)),
        (Answer::Value(JSValue::String(a)), Answer::Value(JSValue::String(b))) => {
            Some(Answer::Value(JSValue::String(a + &b)))
        },
        (Answer::Value(JSValue::String(a)), Answer::Number(b)) => {
            Some(Answer::Value(JSValue::String(format!("{a}{b}"))))
        },
        (Answer::Number(a), Answer::Value(JSValue::String(b))) => {
            Some(Answer::Value(JSValue::String(format!("{a}{b}"))))
        },
        _ => None,
    }
}

/// Runs one evaluation the way the embedder does: the bridge's answer with
/// its loads, else the literal stage, else an engine probe, else the engine.
fn run(
    evaluator: &mut JavaScriptEvaluator,
    bridge: &mut BridgeState,
    id: WebViewId,
    script: &str,
) -> (Option<Answer>, Vec<Message>) {
    let mut messages = Vec::new();
    let answer = match evaluator.evaluate(bridge, id, script, v8()) {
        EvaluationStep::Local(answer) => {
            for load in answer.loads {
                messages.push(Message::LoadUrl(id, load));
            }
            Some(Answer::Value(answer.value))
        },
        EvaluationStep::Literal(trimmed) => match literal(&trimmed).or_else(|| binary_plus(&trimmed)) {
            Some(answer) => Some(answer),
            None => match evaluate_engine_probe(id, &trimmed, v8()) {
                Some(evaluation) => Some(Answer::Value(local_answer(evaluation).value)),
                None => {
                    let evaluation_id = evaluator.forward();
                    messages.push(Message::EvaluateJavaScript(id, evaluation_id, script.to_string()));
                    None
                },
            },
        },
        EvaluationStep::Forwarded(evaluation_id) => {
            messages.push(Message::EvaluateJavaScript(id, evaluation_id, script.to_string()));
            None
        },
    };
    (answer, messages)
}

#[test]
fn experimental_dispatcher_short_circuits_simple_scripts() {
    let mut bridge = BridgeState::new();
    let mut evaluator = JavaScriptEvaluator::new();
    let (answer, messages) = run(&mut evaluator, &mut bridge, test_webview_id(7), "1 + 1");
    assert_eq!(answer, Some(Answer::Number(2.0)));
    assert!(messages.is_empty());
}

#[test]
fn structured_command_dispatch_stays_local() {
    let mut bridge = BridgeState::new();
    let mut evaluator = JavaScriptEvaluator::new();
    let (answer, messages) = run(
        &mut evaluator,
        &mut bridge,
        test_webview_id(11),
        "window.__soliloquyEval('webview.describe')",
    );
    assert!(matches!(answer, Some(Answer::Value(JSValue::Object(_)))));
    assert!(messages.is_empty());
}

#[test]
fn dom_inspection_dispatch_stays_local() {
    let mut bridge = BridgeState::new();
    record_webview_page_title(&mut bridge, test_webview_id(17), Some("Servo Title".to_string()));
    let mut evaluator = JavaScriptEvaluator::new();
    let (answer, messages) = run(
        &mut evaluator,
        &mut bridge,
        test_webview_id(17),
        "window.__soliloquyEval('dom.inspect', 'document.title')",
    );
    assert!(matches!(answer, Some(Answer::Value(JSValue::Object(_)))));
    assert!(messages.is_empty());
}

#[test]
fn live_dom_property_dispatch_stays_local() {
    let mut bridge = BridgeState::new();
    record_webview_history_change(
        &mut bridge,
        test_webview_id(23),
        Some("https://soliloquy.test/live".to_string()),
    );
    let mut evaluator = JavaScriptEvaluator::new();
    let (answer, messages) = run(&mut evaluator, &mut bridge, test_webview_id(23), "location.href");
    assert_eq!(
        answer,
        Some(Answer::Value(JSValue::String("https://soliloquy.test/live".to_string())))
    );
    assert!(messages.is_empty());
}

#[test]
fn live_dom_write_dispatch_stays_local() {
    let mut bridge = BridgeState::new();
    let mut evaluator = JavaScriptEvaluator::new();
    let (answer, messages) = run(
        &mut evaluator,
        &mut bridge,
        test_webview_id(29),
        "document.title = 'Bridge Title'",
    );
    assert_eq!(answer, Some(Answer::Value(JSValue::String("Bridge Title".to_string()))));
    assert!(messages.is_empty());
}

#[test]
fn live_location_write_dispatches_navigation_request() {
    let mut bridge = BridgeState::new();
    let mut evaluator = JavaScriptEvaluator::new();
    let (answer, messages) = run(
        &mut evaluator,
        &mut bridge,
        test_webview_id(31),
        "location.href = 'https://soliloquy.test/navigate'",
    );
    assert_eq!(
        answer,
        Some(Answer::Value(JSValue::String("https://soliloquy.test/navigate".to_string())))
    );
    match messages.first() {
        Some(Message::LoadUrl(webview_id, url)) => {
            assert_eq!(*webview_id, test_webview_id(31));
            assert_eq!(url, "https://soliloquy.test/navigate");
        },
        _ => panic!("expected LoadUrl message"),
    }
}

#[test]
fn relative_location_write_dispatches_navigation_request() {
    let mut bridge = BridgeState::new();
    let webview_id = test_webview_id(33);
    record_webview_history_change(
        &mut bridge,
        webview_id,
        Some("https://soliloquy.test/path/page".to_string()),
    );
    let mut evaluator = JavaScriptEvaluator::new();
    let (answer, messages) = run(&mut evaluator, &mut bridge, webview_id, "location.href = '../next?x=1'");
    assert_eq!(
        answer,
        Some(Answer::Value(JSValue::String("https://soliloquy.test/next?x=1".to_string())))
    );
    match messages.first() {
        Some(Message::LoadUrl(webview_id, url)) => {
            assert_eq!(*webview_id, test_webview_id(33));
            assert_eq!(url, "https://soliloquy.test/next?x=1");
        },
        _ => panic!("expected LoadUrl message"),
    }
}

#[test]
fn unsupported_structured_commands_stay_local_with_envelope() {
    let mut bridge = BridgeState::new();
    let mut evaluator = JavaScriptEvaluator::new();
    let (answer, messages) = run(
        &mut evaluator,
        &mut bridge,
        test_webview_id(19),
        "window.__soliloquyEval('dom.inspect', 'document.body.innerHTML')",
    );
    assert!(matches!(answer, Some(Answer::Value(JSValue::Object(_)))));
    assert!(messages.is_empty());
}

#[test]
fn unsupported_scripts_fall_back_to_constellation() {
    let mut bridge = BridgeState::new();
    let mut evaluator = JavaScriptEvaluator::new();
    let (_, messages) = run(&mut evaluator, &mut bridge, test_webview_id(9), "document.body");
    assert!(matches!(messages.first(), Some(Message::EvaluateJavaScript(_, _, _))));
}

#[test]
fn default_engine_forwards_every_script() {
    let mut bridge = BridgeState::new();
    let mut evaluator = JavaScriptEvaluator::new();
    let mozjs = SoliloquyJavascriptBackend::from_setting(None);
    assert!(matches!(
        evaluator.evaluate(&mut bridge, test_webview_id(1), "1 + 1", mozjs),
        EvaluationStep::Forwarded(0)
    ));
    assert!(matches!(
        evaluator.evaluate(&mut bridge, test_webview_id(1), "location.href", mozjs),
        EvaluationStep::Forwarded(1)
    ));
    assert!(evaluator.is_pending(0));
    evaluator.finish_evaluation(0);
    assert!(!evaluator.is_pending(0));
    assert!(evaluator.is_pending(1));
}
