//! What the module reads from a request.

use nginx_x402::request::{
    build_full_url, get_header_value, get_http_method, infer_mime_type, is_browser_request,
    is_websocket_request, should_skip_payment_for_method, AcceptSignals, HttpMethod,
};

fn headers(pairs: &[(&[u8], &[u8])]) -> Vec<(Vec<u8>, Vec<u8>)> {
    pairs.iter().map(|(k, v)| (k.to_vec(), v.to_vec())).collect()
}

const CHROME: &str = "Mozilla/5.0 (Windows NT 10.0; Win64; x64) AppleWebKit/537.36 Chrome/120.0";

fn signals(html_preferred: bool, json_preferred: bool, html_acceptable: bool) -> AcceptSignals {
    AcceptSignals { html_preferred, json_preferred, html_acceptable }
}

#[test]
fn test_header_lookup_ignores_ascii_case() {
    let h = headers(&[(b"Host", b"example.com"), (b"x-payment", b"abc=")]);
    assert_eq!(get_header_value(&h, "X-PAYMENT"), Some("abc=".to_string()));
    assert_eq!(get_header_value(&h, "host"), Some("example.com".to_string()));
    assert_eq!(get_header_value(&h, "Accept"), None);
}

#[test]
fn test_header_lookup_blank_name() {
    let h = headers(&[(b"", b"x"), (b" ", b"y")]);
    assert_eq!(get_header_value(&h, ""), None);
    assert_eq!(get_header_value(&h, "  "), None);
}

#[test]
fn test_header_lookup_first_match_and_encodings() {
    let h = headers(&[
        (b"Accept\xff", b"bad-name"),
        (b"Accept", b"\xff\xfe"),
        (b"ACCEPT", b"text/html"),
    ]);
    // the first header with a readable name of that name decides
    assert_eq!(get_header_value(&h, "accept"), None);
    let h = headers(&[(b"Accept\xff", b"bad-name"), (b"ACCEPT", b"text/html")]);
    assert_eq!(get_header_value(&h, "accept"), Some("text/html".to_string()));
}

#[test]
fn test_json_content_type_means_api_client() {
    assert!(!is_browser_request(Some(CHROME), None, Some("Application/JSON; charset=utf-8"), true));
    assert!(!is_browser_request(None, None, Some("application/json"), false));
}

#[test]
fn test_browser_user_agent_without_content_type() {
    assert!(is_browser_request(Some(CHROME), None, None, false));
    assert!(!is_browser_request(Some("curl/7.68.0"), None, None, false));
    assert!(!is_browser_request(Some("Mozilla/5.0"), None, None, false));
    assert!(!is_browser_request(Some("HTTPie/3.2 Mozilla Chrome"), None, None, false));
    assert!(!is_browser_request(None, None, None, true));
}

#[test]
fn test_accept_priorities_decide() {
    assert!(is_browser_request(Some("curl/8"), Some(signals(true, false, true)), None, false));
    assert!(!is_browser_request(Some(CHROME), Some(signals(false, true, false)), None, true));
    // a browser that does not accept HTML, without an Upgrade header
    assert!(!is_browser_request(Some(CHROME), Some(signals(false, false, false)), None, false));
    assert!(is_browser_request(Some(CHROME), Some(signals(false, false, false)), None, true));
    assert!(is_browser_request(Some(CHROME), Some(signals(false, false, true)), None, false));
}

#[test]
fn test_form_content_type_means_browser() {
    assert!(is_browser_request(None, None, Some("multipart/form-data; boundary=x"), false));
    assert!(is_browser_request(None, None, Some("Application/X-WWW-Form-Urlencoded"), false));
    assert!(!is_browser_request(None, None, Some("text/plain"), false));
}

#[test]
fn test_websocket_detection() {
    assert!(is_websocket_request(Some("WebSocket"), Some("keep-alive, Upgrade")));
    assert!(!is_websocket_request(Some("websocket"), None));
    assert!(!is_websocket_request(Some("h2c"), Some("Upgrade")));
    assert!(!is_websocket_request(None, Some("upgrade")));
}

#[test]
fn test_http_method_from_id_and_name() {
    assert_eq!(get_http_method(0x2, b""), Some(HttpMethod::Get));
    assert_eq!(get_http_method(0x4, b""), Some(HttpMethod::Head));
    assert_eq!(get_http_method(0x200, b"GET"), Some(HttpMethod::Options));
    assert_eq!(get_http_method(0x8000, b""), Some(HttpMethod::Trace));
    assert_eq!(get_http_method(0x10000, b""), Some(HttpMethod::Connect));
    assert_eq!(get_http_method(0, b"patch"), Some(HttpMethod::Patch));
    assert_eq!(get_http_method(1, b"DELETE"), Some(HttpMethod::Delete));
    assert_eq!(get_http_method(0, b"Get"), None);
    assert_eq!(get_http_method(0, b"PROPFIND"), None);
    assert_eq!(get_http_method(0, b""), None);
    assert_eq!(HttpMethod::Options.as_str(), "OPTIONS");
}

#[test]
fn test_methods_that_skip_payment() {
    assert!(should_skip_payment_for_method(Some(HttpMethod::Options)));
    assert!(should_skip_payment_for_method(Some(HttpMethod::Head)));
    assert!(should_skip_payment_for_method(Some(HttpMethod::Trace)));
    assert!(!should_skip_payment_for_method(Some(HttpMethod::Get)));
    assert!(!should_skip_payment_for_method(Some(HttpMethod::Post)));
    assert!(!should_skip_payment_for_method(None));
}

#[test]
fn test_full_url() {
    assert_eq!(
        build_full_url(Some("HTTPS"), Some("example.com"), Some("/a?b=1")),
        Some("https://example.com/a?b=1".to_string())
    );
    assert_eq!(
        build_full_url(None, Some("h:8080"), Some("x")),
        Some("http://h:8080/x".to_string())
    );
    assert_eq!(
        build_full_url(Some("ftp"), Some("h"), Some("/")),
        Some("http://h/".to_string())
    );
    assert_eq!(build_full_url(Some("https"), None, Some("/")), None);
    assert_eq!(build_full_url(Some("https"), Some("h"), None), None);
}

#[test]
fn test_mime_type_inference() {
    assert_eq!(infer_mime_type(Some("text/html; charset=utf-8"), Some("application/json")), "text/html");
    assert_eq!(infer_mime_type(Some("  "), Some("application/json, text/html")), "application/json");
    assert_eq!(infer_mime_type(None, Some("Text/HTML,*/*")), "Text/HTML");
    assert_eq!(infer_mime_type(None, Some("text/xml")), "text/xml");
    assert_eq!(infer_mime_type(None, Some("text/plain;q=0.5")), "text/plain");
    assert_eq!(infer_mime_type(None, Some(" image/png;q=0.9, */*")), "image/png");
    assert_eq!(infer_mime_type(None, Some("*/*")), "application/json");
    assert_eq!(infer_mime_type(Some(";x"), None), "application/json");
    assert_eq!(infer_mime_type(None, None), "application/json");
}

#[test]
fn test_mime_type_follows_accept_priority() {
    assert_eq!(infer_mime_type(None, Some("text/html, application/json;q=0.1")), "text/html");
    assert_eq!(
        infer_mime_type(None, Some("text/html;q=0.2, application/json;q=0.8")),
        "application/json"
    );
    assert_eq!(infer_mime_type(None, Some("a/b;q=0")), "application/json");
    assert_eq!(infer_mime_type(None, Some("a/b;q=abc")), "a/b");
    assert_eq!(infer_mime_type(None, Some("x/y;q=-1, z/w;q=0.001")), "z/w");
    assert_eq!(infer_mime_type(None, Some("text/*;q=1, a/b;q=0.1")), "a/b");
    assert_eq!(infer_mime_type(None, Some("a/b;q=0.5, c/d;q=0.5")), "a/b");
    assert_eq!(infer_mime_type(None, Some("a/b;q=0.5, c/d;q=1.0")), "c/d");
}
