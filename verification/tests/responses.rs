use http_pool_server::http::{HttpRequest, HttpResponse};
use http_pool_server::router::{
    handle_http_request, route_request, RouteAction, StaticDocument,
};
use http_pool_server::status::{map_http_status_reason, HttpStatusCode};

const ROOT_DOC: &str = "<html><body>Hello!</body></html>";
const NOT_FOUND_DOC: &str = "<html><body>Oops!</body></html>";

fn request(line: &str) -> HttpRequest {
    HttpRequest::parse(&vec![line.to_string()]).unwrap()
}

/// Serve a request the way the runtime loop does: route, fetch the decided
/// document, build, render.
fn serve(line: &str) -> String {
    let req = request(line);
    let action = route_request(&req);
    let content = match action.document() {
        Some(StaticDocument::RootDocument) => Some(ROOT_DOC.to_string()),
        Some(StaticDocument::NotFoundDocument) => Some(NOT_FOUND_DOC.to_string()),
        None => None,
    };
    handle_http_request(&req, content).render()
}

#[test]
fn get_root_is_200_with_root_document() {
    let out = serve("GET / HTTP/1.1");
    assert_eq!(
        out,
        format!("HTTP/1.1 200 OK\r\nContent-Type: {}\r\n\r\n{}", ROOT_DOC.len(), ROOT_DOC)
    );
    let body = out.split("\r\n\r\n").nth(1).unwrap();
    assert_eq!(body, ROOT_DOC);
}

#[test]
fn get_missing_is_404_with_not_found_document() {
    let out = serve("GET /missing HTTP/1.1");
    assert_eq!(
        out,
        format!(
            "HTTP/1.1 404 Not Found\r\nContent-Type: {}\r\n\r\n{}",
            NOT_FOUND_DOC.len(),
            NOT_FOUND_DOC
        )
    );
}

#[test]
fn post_root_is_405() {
    let out = serve("POST / HTTP/1.1");
    assert_eq!(out, "HTTP/1.1 405 Method Not Allowed\r\n\r\n");
}

#[test]
fn old_version_is_505() {
    let out = serve("GET / HTTP/1.0");
    assert_eq!(out, "HTTP/1.1 505 HTTP Version not supported\r\n\r\n");
}

#[test]
fn sleep_route_is_delayed_root_document() {
    let req = request("GET /sleep HTTP/1.1");
    let action = route_request(&req);
    assert_eq!(action, RouteAction::ServeRootDelayed);
    assert!(action.is_delayed());
    assert_eq!(action.document(), Some(StaticDocument::RootDocument));
    assert_eq!(action.status(), HttpStatusCode::OK);
    let out = serve("GET /sleep HTTP/1.1");
    assert_eq!(
        out,
        format!("HTTP/1.1 200 OK\r\nContent-Type: {}\r\n\r\n{}", ROOT_DOC.len(), ROOT_DOC)
    );
}

#[test]
fn only_delayed_route_delays() {
    for line in ["GET / HTTP/1.1", "GET /missing HTTP/1.1", "POST / HTTP/1.1"] {
        assert!(!route_request(&request(line)).is_delayed());
    }
}

#[test]
fn routing_table() {
    assert_eq!(route_request(&request("GET / HTTP/1.1")), RouteAction::ServeRoot);
    assert_eq!(route_request(&request("GET /sleep HTTP/1.1")), RouteAction::ServeRootDelayed);
    assert_eq!(route_request(&request("GET /other HTTP/1.1")), RouteAction::ServeNotFound);
    assert_eq!(route_request(&request("HEAD / HTTP/1.1")), RouteAction::RejectMethod);
    assert_eq!(route_request(&request("POST /sleep HTTP/1.1")), RouteAction::RejectMethod);
    assert_eq!(route_request(&request("GET / HTTP/2.0")), RouteAction::RejectVersion);
    assert_eq!(route_request(&request("get / HTTP/1.1")), RouteAction::ServeRoot);
}

#[test]
fn version_is_checked_before_method() {
    assert_eq!(route_request(&request("POST / HTTP/1.0")), RouteAction::RejectVersion);
}

#[test]
fn response_without_body_has_no_headers() {
    let r = HttpResponse::new(HttpStatusCode::OK, None, None);
    assert!(r.headers.is_none());
    assert!(r.body.is_none());
    assert_eq!(r.version, "HTTP/1.1");
    assert_eq!(r.render(), "HTTP/1.1 200 OK\r\n\r\n");
}

#[test]
fn response_with_body_gets_length_header() {
    let r = HttpResponse::new(HttpStatusCode::OK, None, Some("hello".to_string()));
    assert_eq!(r.headers, Some(vec![("Content-Type".to_string(), "5".to_string())]));
    assert_eq!(r.render(), "HTTP/1.1 200 OK\r\nContent-Type: 5\r\n\r\nhello");
}

#[test]
fn response_with_empty_body() {
    let r = HttpResponse::new(HttpStatusCode::OK, None, Some(String::new()));
    assert_eq!(r.render(), "HTTP/1.1 200 OK\r\nContent-Type: 0\r\n\r\n");
}

#[test]
fn supplied_headers_are_kept_as_given() {
    let hs = vec![("X-One".to_string(), "a".to_string()), ("X-Two".to_string(), "b".to_string())];
    let r = HttpResponse::new(HttpStatusCode::OK, Some(hs.clone()), Some("hi".to_string()));
    assert_eq!(r.headers, Some(hs));
    assert_eq!(r.render(), "HTTP/1.1 200 OK\r\nX-One: a\r\nX-Two: b\r\n\r\nhi");
}

#[test]
fn status_numbers_and_reasons() {
    for (code, number, reason) in [
        (HttpStatusCode::OK, 200u16, "OK"),
        (HttpStatusCode::NotFound, 404, "Not Found"),
        (HttpStatusCode::MethodNotAllowed, 405, "Method Not Allowed"),
        (HttpStatusCode::HTTPVersionnotsupported, 505, "HTTP Version not supported"),
        (HttpStatusCode::Continue, 100, "Continue"),
        (HttpStatusCode::InternalServerError, 500, "Internal Server Error"),
        (HttpStatusCode::GatewayTimeOut, 504, "Gateway Time-out"),
    ] {
        assert_eq!(code.number(), number);
        assert_eq!(map_http_status_reason(&code), reason);
    }
}
