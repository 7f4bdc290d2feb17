use soliloquy_js::bridge::{
    record_webview_history_change, resolve_location_href, BridgeState, SoliloquyBridgeResult,
    WebViewId,
};
use soliloquy_js::evaluator::plan_navigations;
use soliloquy_js::bridge::SoliloquyBridgeMutation;
use soliloquy_js::optimizations::{prefetch_requests, PrefetchPriority};
use soliloquy_js::os_protocol::OsProtocolHandler;
use soliloquy_js::urls::UrlError;

fn refusal(url: &str) -> Option<String> {
    OsProtocolHandler.load_target(url).err()
}

fn error_message(r: Result<String, SoliloquyBridgeResult>) -> Option<String> {
    match r {
        Err(SoliloquyBridgeResult::Error { message }) => Some(message),
        _ => None,
    }
}

#[test]
fn url_errors_name_what_went_wrong() {
    assert_eq!(refusal("foo"), Some("relative URL without a base".to_string()));
    assert_eq!(refusal("http://"), Some("empty host".to_string()));
    assert_eq!(refusal("http://example.com:99999"), Some("invalid port number".to_string()));
    assert_eq!(refusal("http://[::1"), Some("invalid IPv6 address".to_string()));
    assert_eq!(refusal("http://exa mple.com"), Some("invalid international domain name".to_string()));
    assert_eq!(refusal("http://256.256.256.256"), Some("invalid IPv4 address".to_string()));
    let mut state = BridgeState::new();
    let id = WebViewId { namespace_id: 3, index: 4 };
    record_webview_history_change(&mut state, id, Some("data:text/plain,x".to_string()));
    assert_eq!(
        error_message(resolve_location_href(&state, id, "foo")),
        Some("invalid location.href: relative URL with a cannot-be-a-base base".to_string())
    );
}

#[test]
fn url_error_messages_match_the_url_crate() {
    assert_eq!(UrlError::RelativeUrlWithoutBase.message(), url::ParseError::RelativeUrlWithoutBase.to_string());
    assert_eq!(UrlError::EmptyHost.message(), url::ParseError::EmptyHost.to_string());
    assert_eq!(UrlError::InvalidPort.message(), url::ParseError::InvalidPort.to_string());
    assert_eq!(UrlError::IdnaError.message(), url::ParseError::IdnaError.to_string());
    assert_eq!(
        UrlError::InvalidDomainCharacter.message(),
        url::ParseError::InvalidDomainCharacter.to_string()
    );
    assert_eq!(
        UrlError::RelativeUrlWithCannotBeABaseBase.message(),
        url::ParseError::RelativeUrlWithCannotBeABaseBase.to_string()
    );
}

#[test]
fn parsed_urls_give_their_parts() {
    let requests = prefetch_requests("HTTPS://Example.COM/a/../b?q", PrefetchPriority::High);
    assert_eq!(requests[0].target, "HTTPS://Example.COM/a/../b?q");
    assert_eq!(requests[1].target, "example.com");
    let plan = plan_navigations(&[SoliloquyBridgeMutation::Navigate {
        url: "HTTPS://Example.COM/a/../b?q".to_string(),
    }]);
    assert_eq!(plan.loads, vec!["https://example.com/b?q".to_string()]);
    let mut state = BridgeState::new();
    let id = WebViewId { namespace_id: 3, index: 5 };
    record_webview_history_change(&mut state, id, Some("https://example.com/b?q".to_string()));
    assert_eq!(resolve_location_href(&state, id, "c"), Ok("https://example.com/c".to_string()));
}
