use soliloquy_js::bridge::{JSValue, SoliloquyBridgeMutation, WebViewId};
use soliloquy_js::evaluator::local_answer;
use soliloquy_js::optimizations::{
    navigation_cache_key, prefetch_requests, PrefetchPriority, ResourceKind, SoliloquyOptimizations,
};
use soliloquy_js::script::SoliloquyJavascriptEvaluation;

fn webview(index: u32) -> WebViewId {
    WebViewId { namespace_id: 1, index }
}

#[test]
fn prefetches_cover_the_url_and_its_host() {
    let requests = prefetch_requests("https://example.com/page", PrefetchPriority::High);
    assert_eq!(requests.len(), 2);
    assert_eq!(requests[0].target, "https://example.com/page");
    assert_eq!(requests[0].kind, ResourceKind::Connection);
    assert_eq!(requests[1].target, "example.com");
    assert_eq!(requests[1].kind, ResourceKind::Dns);
    assert_eq!(requests[1].priority, PrefetchPriority::High);
}

#[test]
fn unparsable_urls_only_prefetch_a_connection() {
    let requests = prefetch_requests("not a url", PrefetchPriority::Medium);
    assert_eq!(requests.len(), 1);
    assert_eq!(requests[0].target, "not a url");
    assert_eq!(requests[0].priority, PrefetchPriority::Medium);
}

#[test]
fn cache_keys_name_the_webview_and_stage() {
    assert_eq!(navigation_cache_key("WebViewId(1,2)", "created"), "webview:WebViewId(1,2):created");
}

#[test]
fn webviews_are_tracked_until_closed() {
    let mut opt = SoliloquyOptimizations::new();
    assert_eq!(opt.webview_url(None, "servo:webview:x".to_string()), "servo:webview:x");
    opt.bootstrap("https://start.example/".to_string());
    assert_eq!(opt.webview_url(None, "servo:webview:x".to_string()), "https://start.example/");
    assert_eq!(
        opt.webview_url(Some("https://a.example/".to_string()), "x".to_string()),
        "https://a.example/"
    );
    assert_eq!(opt.tab_of(webview(1)), None);
    opt.record_webview(webview(1), 7, "https://a.example/".to_string(), false);
    assert_eq!(opt.tab_of(webview(1)), Some(7));
    assert_eq!(opt.active_webview(), None);
    assert_eq!(opt.activate_webview(webview(1)), Some(7));
    assert_eq!(opt.active_webview(), Some(webview(1)));
    opt.record_webview(webview(2), 8, "https://b.example/".to_string(), true);
    assert_eq!(opt.active_webview(), Some(webview(2)));
    assert_eq!(opt.tracked_webviews(), 2);
    assert_eq!(opt.close_webview(webview(2)), Some(8));
    assert_eq!(opt.active_webview(), None);
    assert_eq!(opt.close_webview(webview(2)), None);
    assert_eq!(opt.url_of(webview(1)), Some("https://a.example/".to_string()));
    assert_eq!(opt.tracked_webviews(), 1);
}

#[test]
fn local_answers_load_valid_navigations() {
    let evaluation = SoliloquyJavascriptEvaluation {
        result: JSValue::String("https://a.example/x".to_string()),
        mutations: vec![SoliloquyBridgeMutation::Navigate { url: "https://a.example/x".to_string() }],
    };
    let answer = local_answer(evaluation);
    assert_eq!(answer.loads, vec!["https://a.example/x".to_string()]);
    assert_eq!(answer.value, JSValue::String("https://a.example/x".to_string()));
}

#[test]
fn local_answers_report_an_invalid_navigation() {
    let evaluation = SoliloquyJavascriptEvaluation {
        result: JSValue::Null,
        mutations: vec![SoliloquyBridgeMutation::Navigate { url: "nope".to_string() }],
    };
    let answer = local_answer(evaluation);
    assert!(answer.loads.is_empty());
    assert_eq!(answer.value.get("status"), Some(&JSValue::String("error".to_string())));
    assert_eq!(answer.value.get("detail"), Some(&JSValue::String("invalid location.href".to_string())));
}
