//! HTTP status codes: the numeric value and the reason phrase of each.

use vstd::prelude::*;

verus! {

/// The status codes the server can place in a response line.
#[derive(Copy, Clone, PartialEq, Eq, Structural, Debug)]
pub enum HttpStatusCode {
    Continue,
    SwitchingProtocols,
    OK,
    Created,
    Accepted,
    NonAuthoritativeInformation,
    NoContent,
    ResetContent,
    PartialContent,
    MultipleChoices,
    MovedPermanently,
    Found,
    SeeOther,
    NotModified,
    UseProxy,
    TemporaryRedirect,
    BadRequest,
    Unauthorized,
    PaymentRequired,
    Forbidden,
    NotFound,
    MethodNotAllowed,
    NotAcceptable,
    ProxyAuthenticationRequired,
    RequestTimeOut,
    Conflict,
    Gone,
    LengthRequired,
    PreconditionFailed,
    RequestEntityTooLarge,
    RequestURITooLarge,
    UnsupportedMediaType,
    Requestedrangenotsatisfiable,
    ExpectationFailed,
    InternalServerError,
    NotImplemented,
    BadGateway,
    ServiceUnavailable,
    GatewayTimeOut,
    HTTPVersionnotsupported,
}

/// The three-digit number of a status code.
pub open spec fn spec_status_number(c: HttpStatusCode) -> u16 {
    match c {
        HttpStatusCode::Continue => 100,
        HttpStatusCode::SwitchingProtocols => 101,
        HttpStatusCode::OK => 200,
        HttpStatusCode::Created => 201,
        HttpStatusCode::Accepted => 202,
        HttpStatusCode::NonAuthoritativeInformation => 203,
        HttpStatusCode::NoContent => 204,
        HttpStatusCode::ResetContent => 205,
        HttpStatusCode::PartialContent => 206,
        HttpStatusCode::MultipleChoices => 300,
        HttpStatusCode::MovedPermanently => 301,
        HttpStatusCode::Found => 302,
        HttpStatusCode::SeeOther => 303,
        HttpStatusCode::NotModified => 304,
        HttpStatusCode::UseProxy => 305,
        HttpStatusCode::TemporaryRedirect => 307,
        HttpStatusCode::BadRequest => 400,
        HttpStatusCode::Unauthorized => 401,
        HttpStatusCode::PaymentRequired => 402,
        HttpStatusCode::Forbidden => 403,
        HttpStatusCode::NotFound => 404,
        HttpStatusCode::MethodNotAllowed => 405,
        HttpStatusCode::NotAcceptable => 406,
        HttpStatusCode::ProxyAuthenticationRequired => 407,
        HttpStatusCode::RequestTimeOut => 408,
        HttpStatusCode::Conflict => 409,
        HttpStatusCode::Gone => 410,
        HttpStatusCode::LengthRequired => 411,
        HttpStatusCode::PreconditionFailed => 412,
        HttpStatusCode::RequestEntityTooLarge => 413,
        HttpStatusCode::RequestURITooLarge => 414,
        HttpStatusCode::UnsupportedMediaType => 415,
        HttpStatusCode::Requestedrangenotsatisfiable => 416,
        HttpStatusCode::ExpectationFailed => 417,
        HttpStatusCode::InternalServerError => 500,
        HttpStatusCode::NotImplemented => 501,
        HttpStatusCode::BadGateway => 502,
        HttpStatusCode::ServiceUnavailable => 503,
        HttpStatusCode::GatewayTimeOut => 504,
        HttpStatusCode::HTTPVersionnotsupported => 505,
    }
}

impl HttpStatusCode {
    /// The three-digit number sent on the wire for this status code.
    pub fn number(&self) -> (n: u16)
        ensures
            n == spec_status_number(*self),
    {
        match self {
            HttpStatusCode::Continue => 100,
            HttpStatusCode::SwitchingProtocols => 101,
            HttpStatusCode::OK => 200,
            HttpStatusCode::Created => 201,
            HttpStatusCode::Accepted => 202,
            HttpStatusCode::NonAuthoritativeInformation => 203,
            HttpStatusCode::NoContent => 204,
            HttpStatusCode::ResetContent => 205,
            HttpStatusCode::PartialContent => 206,
            HttpStatusCode::MultipleChoices => 300,
            HttpStatusCode::MovedPermanently => 301,
            HttpStatusCode::Found => 302,
            HttpStatusCode::SeeOther => 303,
            HttpStatusCode::NotModified => 304,
            HttpStatusCode::UseProxy => 305,
            HttpStatusCode::TemporaryRedirect => 307,
            HttpStatusCode::BadRequest => 400,
            HttpStatusCode::Unauthorized => 401,
            HttpStatusCode::PaymentRequired => 402,
            HttpStatusCode::Forbidden => 403,
            HttpStatusCode::NotFound => 404,
            HttpStatusCode::MethodNotAllowed => 405,
            HttpStatusCode::NotAcceptable => 406,
            HttpStatusCode::ProxyAuthenticationRequired => 407,
            HttpStatusCode::RequestTimeOut => 408,
            HttpStatusCode::Conflict => 409,
            HttpStatusCode::Gone => 410,
            HttpStatusCode::LengthRequired => 411,
            HttpStatusCode::PreconditionFailed => 412,
            HttpStatusCode::RequestEntityTooLarge => 413,
            HttpStatusCode::RequestURITooLarge => 414,
            HttpStatusCode::UnsupportedMediaType => 415,
            HttpStatusCode::Requestedrangenotsatisfiable => 416,
            HttpStatusCode::ExpectationFailed => 417,
            HttpStatusCode::InternalServerError => 500,
            HttpStatusCode::NotImplemented => 501,
            HttpStatusCode::BadGateway => 502,
            HttpStatusCode::ServiceUnavailable => 503,
            HttpStatusCode::GatewayTimeOut => 504,
            HttpStatusCode::HTTPVersionnotsupported => 505,
        }
    }
}

/// The reason phrase that accompanies a status code on the response line.
pub open spec fn spec_status_reason(c: HttpStatusCode) -> Seq<char> {
    match c {
        HttpStatusCode::Continue => "Continue"@,
        HttpStatusCode::SwitchingProtocols => "Switching Protocols"@,
        HttpStatusCode::OK => "OK"@,
        HttpStatusCode::Created => "Created"@,
        HttpStatusCode::Accepted => "Accepted"@,
        HttpStatusCode::NonAuthoritativeInformation => "Non-Authoritative Information"@,
        HttpStatusCode::NoContent => "No Content"@,
        HttpStatusCode::ResetContent => "Reset Content"@,
        HttpStatusCode::PartialContent => "Partial Content"@,
        HttpStatusCode::MultipleChoices => "Multiple Choices"@,
        HttpStatusCode::MovedPermanently => "Moved Permanently"@,
        HttpStatusCode::Found => "Found"@,
        HttpStatusCode::SeeOther => "See Other"@,
        HttpStatusCode::NotModified => "Not Modified"@,
        HttpStatusCode::UseProxy => "Use Proxy"@,
        HttpStatusCode::TemporaryRedirect => "Temporary Redirect"@,
        HttpStatusCode::BadRequest => "Bad Request"@,
        HttpStatusCode::Unauthorized => "Unauthorized"@,
        HttpStatusCode::PaymentRequired => "Payment Required"@,
        HttpStatusCode::Forbidden => "Forbidden"@,
        HttpStatusCode::NotFound => "Not Found"@,
        HttpStatusCode::MethodNotAllowed => "Method Not Allowed"@,
        HttpStatusCode::NotAcceptable => "Not Acceptable"@,
        HttpStatusCode::ProxyAuthenticationRequired => "Proxy Authentication Required"@,
        HttpStatusCode::RequestTimeOut => "Request Time-out"@,
        HttpStatusCode::Conflict => "Conflict"@,
        HttpStatusCode::Gone => "Gone"@,
        HttpStatusCode::LengthRequired => "Length Required"@,
        HttpStatusCode::PreconditionFailed => "Precondition Failed"@,
        HttpStatusCode::RequestEntityTooLarge => "Request Entity Too Large"@,
        HttpStatusCode::RequestURITooLarge => "Request-URI Too Large"@,
        HttpStatusCode::UnsupportedMediaType => "Unsupported Media Type"@,
        HttpStatusCode::Requestedrangenotsatisfiable => "Requested range not satisfiable"@,
        HttpStatusCode::ExpectationFailed => "Expectation Failed"@,
        HttpStatusCode::InternalServerError => "Internal Server Error"@,
        HttpStatusCode::NotImplemented => "Not Implemented"@,
        HttpStatusCode::BadGateway => "Bad Gateway"@,
        HttpStatusCode::ServiceUnavailable => "Service Unavailable"@,
        HttpStatusCode::GatewayTimeOut => "Gateway Time-out"@,
        HttpStatusCode::HTTPVersionnotsupported => "HTTP Version not supported"@,
    }
}

/// The reason phrase of a status code, as written on the response line.
pub fn map_http_status_reason(status_code: &HttpStatusCode) -> (r: &'static str)
    ensures
        r@ == spec_status_reason(*status_code),
{
    match status_code {
        HttpStatusCode::Continue => "Continue",
        HttpStatusCode::SwitchingProtocols => "Switching Protocols",
        HttpStatusCode::OK => "OK",
        HttpStatusCode::Created => "Created",
        HttpStatusCode::Accepted => "Accepted",
        HttpStatusCode::NonAuthoritativeInformation => "Non-Authoritative Information",
        HttpStatusCode::NoContent => "No Content",
        HttpStatusCode::ResetContent => "Reset Content",
        HttpStatusCode::PartialContent => "Partial Content",
        HttpStatusCode::MultipleChoices => "Multiple Choices",
        HttpStatusCode::MovedPermanently => "Moved Permanently",
        HttpStatusCode::Found => "Found",
        HttpStatusCode::SeeOther => "See Other",
        HttpStatusCode::NotModified => "Not Modified",
        HttpStatusCode::UseProxy => "Use Proxy",
        HttpStatusCode::TemporaryRedirect => "Temporary Redirect",
        HttpStatusCode::BadRequest => "Bad Request",
        HttpStatusCode::Unauthorized => "Unauthorized",
        HttpStatusCode::PaymentRequired => "Payment Required",
        HttpStatusCode::Forbidden => "Forbidden",
        HttpStatusCode::NotFound => "Not Found",
        HttpStatusCode::MethodNotAllowed => "Method Not Allowed",
        HttpStatusCode::NotAcceptable => "Not Acceptable",
        HttpStatusCode::ProxyAuthenticationRequired => "Proxy Authentication Required",
        HttpStatusCode::RequestTimeOut => "Request Time-out",
        HttpStatusCode::Conflict => "Conflict",
        HttpStatusCode::Gone => "Gone",
        HttpStatusCode::LengthRequired => "Length Required",
        HttpStatusCode::PreconditionFailed => "Precondition Failed",
        HttpStatusCode::RequestEntityTooLarge => "Request Entity Too Large",
        HttpStatusCode::RequestURITooLarge => "Request-URI Too Large",
        HttpStatusCode::UnsupportedMediaType => "Unsupported Media Type",
        HttpStatusCode::Requestedrangenotsatisfiable => "Requested range not satisfiable",
        HttpStatusCode::ExpectationFailed => "Expectation Failed",
        HttpStatusCode::InternalServerError => "Internal Server Error",
        HttpStatusCode::NotImplemented => "Not Implemented",
        HttpStatusCode::BadGateway => "Bad Gateway",
        HttpStatusCode::ServiceUnavailable => "Service Unavailable",
        HttpStatusCode::GatewayTimeOut => "Gateway Time-out",
        HttpStatusCode::HTTPVersionnotsupported => "HTTP Version not supported",
    }
}

} // verus!
