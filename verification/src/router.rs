//! The fixed routing table: what the server decides to do with a parsed
//! request, and the response built once the decided document is in hand.
//!
//! Reading a document off disk and performing the artificial delay are the
//! caller's business; the decision which document to read, whether to
//! delay, and what status to answer is made and proved here.

use vstd::prelude::*;

use crate::http::{
    headers_view,
    spec_inferred_headers,
    HttpMethod,
    HttpRequest,
    HttpResponse,
};
use crate::status::HttpStatusCode;
use crate::text::str_eq;

verus! {

/// Which of the two configured documents a response draws its body from.
#[derive(Copy, Clone, PartialEq, Eq, Structural, Debug)]
pub enum StaticDocument {
    /// The root document, served for the paths `/` and `/sleep`.
    RootDocument,
    /// The document served with status 404 for every unmatched path.
    NotFoundDocument,
}

/// What the server decides to do with a parsed request.
#[derive(Copy, Clone, PartialEq, Eq, Structural, Debug)]
pub enum RouteAction {
    /// `GET /`: answer 200 with the root document.
    ServeRoot,
    /// `GET /sleep`: answer 200 with the root document, after an
    /// artificial delay that keeps one worker busy.
    ServeRootDelayed,
    /// Any other `GET` path: answer 404 with the not-found document.
    ServeNotFound,
    /// A method other than `GET`: answer 405, with no body.
    RejectMethod,
    /// A version other than `HTTP/1.1`: answer 505, with no body.
    RejectVersion,
}

/// The routing table: version first, then method, then the exact path.
pub open spec fn spec_route(req: HttpRequest) -> RouteAction {
    if req.version@ != "HTTP/1.1"@ {
        RouteAction::RejectVersion
    } else if req.method != HttpMethod::GET {
        RouteAction::RejectMethod
    } else if req.uri@ == "/"@ {
        RouteAction::ServeRoot
    } else if req.uri@ == "/sleep"@ {
        RouteAction::ServeRootDelayed
    } else {
        RouteAction::ServeNotFound
    }
}

impl RouteAction {
    /// The status answered for this action.
    pub open spec fn spec_status(self) -> HttpStatusCode {
        match self {
            RouteAction::ServeRoot => HttpStatusCode::OK,
            RouteAction::ServeRootDelayed => HttpStatusCode::OK,
            RouteAction::ServeNotFound => HttpStatusCode::NotFound,
            RouteAction::RejectMethod => HttpStatusCode::MethodNotAllowed,
            RouteAction::RejectVersion => HttpStatusCode::HTTPVersionnotsupported,
        }
    }

    /// The document whose contents become the body, if any.
    pub open spec fn spec_document(self) -> Option<StaticDocument> {
        match self {
            RouteAction::ServeRoot => Some(StaticDocument::RootDocument),
            RouteAction::ServeRootDelayed => Some(StaticDocument::RootDocument),
            RouteAction::ServeNotFound => Some(StaticDocument::NotFoundDocument),
            RouteAction::RejectMethod => None,
            RouteAction::RejectVersion => None,
        }
    }

    /// The status answered for this action.
    pub fn status(&self) -> (c: HttpStatusCode)
        ensures
            c == self.spec_status(),
    {
        match self {
            RouteAction::ServeRoot => HttpStatusCode::OK,
            RouteAction::ServeRootDelayed => HttpStatusCode::OK,
            RouteAction::ServeNotFound => HttpStatusCode::NotFound,
            RouteAction::RejectMethod => HttpStatusCode::MethodNotAllowed,
            RouteAction::RejectVersion => HttpStatusCode::HTTPVersionnotsupported,
        }
    }

    /// The document whose contents become the body, if any.
    pub fn document(&self) -> (d: Option<StaticDocument>)
        ensures
            d == self.spec_document(),
    {
        match self {
            RouteAction::ServeRoot => Some(StaticDocument::RootDocument),
            RouteAction::ServeRootDelayed => Some(StaticDocument::RootDocument),
            RouteAction::ServeNotFound => Some(StaticDocument::NotFoundDocument),
            RouteAction::RejectMethod => None,
            RouteAction::RejectVersion => None,
        }
    }

    /// Whether the artificial delay precedes the answer.
    pub fn is_delayed(&self) -> (d: bool)
        ensures
            d == (self == &RouteAction::ServeRootDelayed),
    {
        match self {
            RouteAction::ServeRootDelayed => true,
            _ => false,
        }
    }
}

/// Decide what to do with a request, by the fixed table.
pub fn route_request(request: &HttpRequest) -> (a: RouteAction)
    ensures
        a == spec_route(*request),
{
    if !str_eq(request.version.as_str(), "HTTP/1.1") {
        return RouteAction::RejectVersion;
    }
    if !(matches!(request.method, HttpMethod::GET)) {
        return RouteAction::RejectMethod;
    }
    if str_eq(request.uri.as_str(), "/") {
        RouteAction::ServeRoot
    } else if str_eq(request.uri.as_str(), "/sleep") {
        RouteAction::ServeRootDelayed
    } else {
        RouteAction::ServeNotFound
    }
}

/// Build the response for a decided action, once the caller has fetched
/// the contents of the document the action calls for.
pub fn build_response(action: &RouteAction, content: Option<String>) -> (r: HttpResponse)
    ensures
        r.wf(),
        r.version@ == "HTTP/1.1"@,
        r.status_code == action.spec_status(),
        r.body == content,
        content is None ==> r.headers is None,
        content matches Some(b) ==> headers_view(r.headers) == Some(spec_inferred_headers(b@)),
{
    HttpResponse::new(action.status(), None, content)
}

/// Answer a request whose document contents are already in hand: route it
/// and build the response.  The status is fixed by the routing table and
/// the body is exactly the caller's content, byte for byte.
pub fn handle_http_request(request: &HttpRequest, content: Option<String>) -> (r: HttpResponse)
    ensures
        r.wf(),
        r.version@ == "HTTP/1.1"@,
        r.status_code == spec_route(*request).spec_status(),
        r.body == content,
        content is None ==> r.headers is None,
        content matches Some(b) ==> headers_view(r.headers) == Some(spec_inferred_headers(b@)),
{
    let action = route_request(request);
    build_response(&action, content)
}

} // verus!
