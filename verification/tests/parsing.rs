use http_pool_server::http::{HttpErrorKind, HttpMethod, HttpRequest};
use http_pool_server::http::parse_method;
use http_pool_server::text::{split_spaces, str_eq, u64_to_dec};

fn lines(v: &[&str]) -> Vec<String> {
    v.iter().map(|s| s.to_string()).collect()
}

#[test]
fn parse_well_formed_request_line() {
    let req = HttpRequest::parse(&lines(&["GET / HTTP/1.1"])).unwrap();
    assert_eq!(req.method, HttpMethod::GET);
    assert_eq!(req.uri, "/");
    assert_eq!(req.version, "HTTP/1.1");
    assert!(req.headers.is_none());
    assert!(req.body.is_none());
}

#[test]
fn parse_ignores_header_lines() {
    let req = HttpRequest::parse(&lines(&["GET /sleep HTTP/1.1", "Host: localhost"])).unwrap();
    assert_eq!(req.uri, "/sleep");
}

#[test]
fn parse_empty_request_is_no_data() {
    let err = HttpRequest::parse(&lines(&[])).unwrap_err();
    assert_eq!(err.kind, HttpErrorKind::NoData);
    assert_eq!(err.message, "No data on TCP stream");
}

#[test]
fn parse_two_tokens_is_malformed() {
    let err = HttpRequest::parse(&lines(&["GET /"])).unwrap_err();
    assert_eq!(err.kind, HttpErrorKind::MalformedRequest);
    assert_eq!(err.message, "Malformed request");
}

#[test]
fn parse_four_tokens_is_malformed() {
    let err = HttpRequest::parse(&lines(&["GET  / HTTP/1.1"])).unwrap_err();
    assert_eq!(err.kind, HttpErrorKind::MalformedRequest);
}

#[test]
fn parse_version_not_http_is_malformed() {
    let err = HttpRequest::parse(&lines(&["GET / FOO/1.1"])).unwrap_err();
    assert_eq!(err.kind, HttpErrorKind::MalformedRequest);
}

#[test]
fn parse_unknown_version_number_is_accepted() {
    let req = HttpRequest::parse(&lines(&["GET / HTTP/1.0"])).unwrap();
    assert_eq!(req.version, "HTTP/1.0");
}

#[test]
fn parse_method_is_case_insensitive() {
    let req = HttpRequest::parse(&lines(&["get / HTTP/1.1"])).unwrap();
    assert_eq!(req.method, HttpMethod::GET);
    let req = HttpRequest::parse(&lines(&["PoSt / HTTP/1.1"])).unwrap();
    assert_eq!(req.method, HttpMethod::POST);
}

#[test]
fn parse_all_known_methods() {
    for (name, method) in [
        ("OPTIONS", HttpMethod::OPTIONS),
        ("GET", HttpMethod::GET),
        ("HEAD", HttpMethod::HEAD),
        ("POST", HttpMethod::POST),
        ("DELETE", HttpMethod::DELETE),
        ("TRACE", HttpMethod::TRACE),
        ("CONNECT", HttpMethod::CONNECT),
        ("FETCH", HttpMethod::UNKNOWN),
        ("", HttpMethod::UNKNOWN),
    ] {
        let line = format!("{} / HTTP/1.1", name);
        let req = HttpRequest::parse(&lines(&[line.as_str()])).unwrap();
        assert_eq!(req.method, method);
    }
}

#[test]
fn request_new_keeps_fields() {
    let req = HttpRequest::new("delete", "/x", "HTTP/1.1");
    assert_eq!(req.method, HttpMethod::DELETE);
    assert_eq!(req.uri, "/x");
    assert_eq!(req.version, "HTTP/1.1");
}

#[test]
fn split_keeps_empty_pieces() {
    assert_eq!(split_spaces("a  b"), vec!["a", "", "b"]);
    assert_eq!(split_spaces(""), vec![""]);
    assert_eq!(split_spaces(" "), vec!["", ""]);
    assert_eq!(split_spaces("GET / HTTP/1.1"), vec!["GET", "/", "HTTP/1.1"]);
}

#[test]
fn string_comparisons() {
    assert!(str_eq("HTTP/1.1", "HTTP/1.1"));
    assert!(!str_eq("HTTP/1.1", "HTTP/1.0"));
    assert!(!str_eq("/", "/sleep"));
}

#[test]
fn method_matching_folds_case() {
    // would fail if uppercasing handed its argument back unchanged
    assert_eq!(parse_method("connect"), HttpMethod::CONNECT);
    assert_eq!(parse_method("TrAcE"), HttpMethod::TRACE);
    assert_eq!(parse_method("GETS"), HttpMethod::UNKNOWN);
    // Unicode folding: U+017F (long s) uppercases to S
    assert_eq!(parse_method("po\u{017F}t"), HttpMethod::POST);
    assert_eq!(parse_method("\u{017F}"), HttpMethod::UNKNOWN);
}

#[test]
fn decimal_rendering() {
    assert_eq!(u64_to_dec(0), "0");
    assert_eq!(u64_to_dec(7), "7");
    assert_eq!(u64_to_dec(10), "10");
    assert_eq!(u64_to_dec(200), "200");
    assert_eq!(u64_to_dec(65535), "65535");
    assert_eq!(u64_to_dec(u64::MAX), "18446744073709551615");
}
