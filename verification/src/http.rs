//! HTTP request and response values: parsing a request line into an
//! `HttpRequest`, and building and rendering an `HttpResponse`.
//!
//! Reading the request bytes off a connection and writing the response back
//! are the caller's business; everything here works on plain strings.

use vstd::prelude::*;
use vstd::string::StrSliceExecFns;
use vstd::string::StringExecFns;
use vstd::utf8::encode_utf8;

use crate::status::{spec_status_number, spec_status_reason, map_http_status_reason, HttpStatusCode};
use crate::text::{
    spec_dec_digits,
    spec_split,
    split_spaces,
    str_eq,
    to_upper,
    u64_to_dec,
    upper_of,
};

verus! {

/// The request methods the parser recognises; anything else is `UNKNOWN`.
#[allow(non_camel_case_types)]
#[derive(Copy, Clone, PartialEq, Eq, Structural, Debug)]
pub enum HttpMethod {
    UNKNOWN,
    OPTIONS,
    GET,
    HEAD,
    POST,
    DELETE,
    TRACE,
    CONNECT,
}

/// The method named by `s`: its Unicode uppercase matched against the
/// recognised method names.
pub open spec fn spec_method_of(s: Seq<char>) -> HttpMethod {
    if upper_of(s) == "OPTIONS"@ {
        HttpMethod::OPTIONS
    } else if upper_of(s) == "GET"@ {
        HttpMethod::GET
    } else if upper_of(s) == "HEAD"@ {
        HttpMethod::HEAD
    } else if upper_of(s) == "POST"@ {
        HttpMethod::POST
    } else if upper_of(s) == "DELETE"@ {
        HttpMethod::DELETE
    } else if upper_of(s) == "TRACE"@ {
        HttpMethod::TRACE
    } else if upper_of(s) == "CONNECT"@ {
        HttpMethod::CONNECT
    } else {
        HttpMethod::UNKNOWN
    }
}

/// Recognise a request method: uppercase it, then match it against the
/// recognised names, so that matching ignores case.
pub fn parse_method(method: &str) -> (m: HttpMethod)
    ensures
        m == spec_method_of(method@),
{
    let upper = to_upper(method);
    if str_eq(upper.as_str(), "OPTIONS") {
        HttpMethod::OPTIONS
    } else if str_eq(upper.as_str(), "GET") {
        HttpMethod::GET
    } else if str_eq(upper.as_str(), "HEAD") {
        HttpMethod::HEAD
    } else if str_eq(upper.as_str(), "POST") {
        HttpMethod::POST
    } else if str_eq(upper.as_str(), "DELETE") {
        HttpMethod::DELETE
    } else if str_eq(upper.as_str(), "TRACE") {
        HttpMethod::TRACE
    } else if str_eq(upper.as_str(), "CONNECT") {
        HttpMethod::CONNECT
    } else {
        HttpMethod::UNKNOWN
    }
}

/// A parsed request: the request line's three fields, and the headers and
/// body slots, which request-line parsing always leaves empty.
#[derive(Debug)]
pub struct HttpRequest {
    pub method: HttpMethod,
    pub uri: String,
    pub version: String,
    pub headers: Option<Vec<(String, String)>>,
    pub body: Option<String>,
}

/// Why a request could not be parsed.
#[derive(Copy, Clone, PartialEq, Eq, Structural, Debug)]
pub enum HttpErrorKind {
    /// The connection closed before any line arrived; no response is owed.
    NoData,
    /// A request line arrived but is not `METHOD SP URI SP VERSION`.
    MalformedRequest,
}

/// A parse failure, with a fixed message for the peer where one is owed.
#[derive(Debug)]
pub struct HttpError {
    pub kind: HttpErrorKind,
    pub message: &'static str,
}

impl HttpError {
    pub fn new(kind: HttpErrorKind, message: &'static str) -> (r: HttpError)
        ensures
            r.kind == kind,
            r.message == message,
    {
        HttpError { kind, message }
    }
}

/// Whether `t` begins with the five characters `HTTP/`.
pub open spec fn spec_version_shaped(t: Seq<char>) -> bool {
    t.len() >= 5 && t[0] == 'H' && t[1] == 'T' && t[2] == 'T' && t[3] == 'P' && t[4] == '/'
}

/// Whether a request line splits into exactly three space-separated tokens
/// whose third begins with `HTTP/`.
pub open spec fn spec_request_line_ok(line: Seq<char>) -> bool {
    let toks = spec_split(line, ' ');
    toks.len() == 3 && spec_version_shaped(toks[2])
}

impl HttpRequest {
    /// Assemble a request from the three request-line fields.
    pub fn new(method: &str, uri: &str, version: &str) -> (r: HttpRequest)
        ensures
            r.method == spec_method_of(method@),
            r.uri@ == uri@,
            r.version@ == version@,
            r.headers is None,
            r.body is None,
    {
        let http_method = parse_method(method);
        HttpRequest {
            method: http_method,
            uri: uri.to_owned(),
            version: version.to_owned(),
            headers: None,
            body: None,
        }
    }

    /// Parse the lines read from a connection, up to the first blank line.
    /// No lines at all is `NoData` (the peer hung up; nothing is owed);
    /// a first line that is not `METHOD SP URI SP VERSION` with a version
    /// starting `HTTP/` is `MalformedRequest`.
    pub fn parse(lines: &Vec<String>) -> (r: Result<HttpRequest, HttpError>)
        ensures
            lines@.len() == 0 ==> (r matches Err(e) && e.kind == HttpErrorKind::NoData
                && e.message@ == "No data on TCP stream"@),
            lines@.len() > 0 && !spec_request_line_ok(lines@[0]@) ==> (r matches Err(e)
                && e.kind == HttpErrorKind::MalformedRequest && e.message@ == "Malformed request"@),
            lines@.len() > 0 && spec_request_line_ok(lines@[0]@) ==> (r matches Ok(req) && {
                let toks = spec_split(lines@[0]@, ' ');
                &&& req.method == spec_method_of(toks[0])
                &&& req.uri@ == toks[1]
                &&& req.version@ == toks[2]
                &&& req.headers is None
                &&& req.body is None
            }),
    {
        if lines.len() == 0 {
            return Err(HttpError::new(HttpErrorKind::NoData, "No data on TCP stream"));
        }
        let request_line = &lines[0];
        let tokens = split_spaces(request_line.as_str());
        if tokens.len() != 3 {
            return Err(HttpError::new(HttpErrorKind::MalformedRequest, "Malformed request"));
        }
        let version = &tokens[2];
        let shaped = version.as_str().unicode_len() >= 5 && version.as_str().get_char(0) == 'H'
            && version.as_str().get_char(1) == 'T' && version.as_str().get_char(2) == 'T'
            && version.as_str().get_char(3) == 'P' && version.as_str().get_char(4) == '/';
        if !shaped {
            return Err(HttpError::new(HttpErrorKind::MalformedRequest, "Malformed request"));
        }
        Ok(HttpRequest::new(tokens[0].as_str(), tokens[1].as_str(), tokens[2].as_str()))
    }
}

/// An optional string, seen as the sequence of characters it holds.
pub open spec fn opt_string_view(o: Option<String>) -> Option<Seq<char>> {
    match o {
        Option::Some(s) => Option::Some(s@),
        Option::None => Option::None,
    }
}

/// An optional header list, seen as key/value character sequences.
pub open spec fn headers_view(h: Option<Vec<(String, String)>>) -> Option<
    Seq<(Seq<char>, Seq<char>)>,
> {
    match h {
        Option::Some(v) => Option::Some(v@.map_values(|p: (String, String)| (p.0@, p.1@))),
        Option::None => Option::None,
    }
}

/// Whether no two header entries share a key: what a header map would
/// guarantee, stated as the invariant of the header list.
pub open spec fn spec_unique_header_keys(h: Seq<(String, String)>) -> bool {
    forall|i: int, j: int| 0 <= i < j < h.len() ==> h[i].0@ != h[j].0@
}

/// The header list a response gets when a body is present but the caller
/// supplied no headers: one entry carrying the body's length in bytes.
pub open spec fn spec_inferred_headers(body: Seq<char>) -> Seq<(Seq<char>, Seq<char>)> {
    seq![("Content-Type"@, spec_dec_digits((encode_utf8(body).len() as usize) as nat))]
}

/// A response to be rendered: always version `HTTP/1.1`.
#[derive(Debug)]
pub struct HttpResponse {
    pub version: String,
    pub status_code: HttpStatusCode,
    pub headers: Option<Vec<(String, String)>>,
    pub body: Option<String>,
}

impl HttpResponse {
    /// Each header key appears at most once: constructors establish this
    /// and rendering then writes each key exactly once.
    pub open spec fn wf(self) -> bool {
        match self.headers {
            Option::Some(h) => spec_unique_header_keys(h@),
            Option::None => true,
        }
    }

    /// Build a response. When a body is present and no headers were
    /// supplied, a length header is inferred from the body; headers the
    /// caller supplied are kept as they are, and may not repeat a key.
    pub fn new(
        status_code: HttpStatusCode,
        headers: Option<Vec<(String, String)>>,
        body: Option<String>,
    ) -> (r: HttpResponse)
        requires
            headers matches Some(h) ==> spec_unique_header_keys(h@),
        ensures
            r.wf(),
            r.version@ == "HTTP/1.1"@,
            r.status_code == status_code,
            r.body == body,
            headers is Some ==> r.headers == headers,
            headers is None && body is None ==> r.headers is None,
            headers is None ==> (body matches Some(b) ==> headers_view(r.headers) == Some(
                spec_inferred_headers(b@),
            )),
    {
        let hs: Option<Vec<(String, String)>> = match headers {
            Some(h) => Some(h),
            None => match &body {
                Some(b) => {
                    let len_str = u64_to_dec(b.as_str().len() as u64);
                    let mut v: Vec<(String, String)> = Vec::new();
                    v.push((String::from_str("Content-Type"), len_str));
                    proof {
                        assert(v@.map_values(|p: (String, String)| (p.0@, p.1@))
                            =~= spec_inferred_headers(b@));
                    }
                    Some(v)
                },
                None => None,
            },
        };
        HttpResponse { version: String::from_str("HTTP/1.1"), status_code, headers: hs, body }
    }
}

/// The two characters that end every line of the wire format.
pub open spec fn spec_crlf() -> Seq<char> {
    seq!['\r', '\n']
}

/// The header block: each `key: value` line followed by CRLF.
pub open spec fn spec_header_block(hs: Seq<(Seq<char>, Seq<char>)>) -> Seq<char>
    decreases hs.len(),
{
    if hs.len() == 0 {
        Seq::<char>::empty()
    } else {
        spec_header_block(hs.drop_last()) + hs.last().0 + ": "@ + hs.last().1 + spec_crlf()
    }
}

/// The full wire form of a response: status line, header lines, a blank
/// line, then the body if there is one.
pub open spec fn spec_render(r: HttpResponse) -> Seq<char> {
    r.version@ + seq![' '] + spec_dec_digits(spec_status_number(r.status_code) as nat) + seq![' ']
        + spec_status_reason(r.status_code) + spec_crlf() + (match r.headers {
        Option::Some(hs) => spec_header_block(
            hs@.map_values(|p: (String, String)| (p.0@, p.1@)),
        ),
        Option::None => Seq::<char>::empty(),
    }) + spec_crlf() + (match r.body {
        Option::Some(b) => b@,
        Option::None => Seq::<char>::empty(),
    })
}

/// A response with a body renders as the rendering of the same response
/// without its body - status line, header lines, blank line - followed by
/// the body itself, byte for byte and unchanged.
pub proof fn lemma_render_carries_body(r: HttpResponse, b: String)
    requires
        r.body == Some(b),
    ensures
        spec_render(r) == spec_render(HttpResponse { body: None, ..r }) + b@,
{
    assert(spec_render(r) =~= spec_render(HttpResponse { body: None, ..r }) + b@);
}

impl HttpResponse {
    /// Write the response out as the exact byte-for-byte wire string.
    pub fn render(&self) -> (out: String)
        ensures
            out@ == spec_render(*self),
    {
        proof {
            reveal_strlit(" ");
            reveal_strlit("\r\n");
            reveal_strlit(": ");
        }
        let mut out = String::new();
        out.append(self.version.as_str());
        out.append(" ");
        let code = u64_to_dec(self.status_code.number() as u64);
        out.append(code.as_str());
        out.append(" ");
        out.append(map_http_status_reason(&self.status_code));
        out.append("\r\n");
        match &self.headers {
            Some(hs) => {
                let ghost hview = hs@.map_values(|p: (String, String)| (p.0@, p.1@));
                let ghost line_prefix = out@;
                let mut i: usize = 0;
                while i < hs.len()
                    invariant
                        i <= hs.len(),
                        hview == hs@.map_values(|p: (String, String)| (p.0@, p.1@)),
                        hview.len() == hs@.len(),
                        out@ == line_prefix + spec_header_block(hview.subrange(0, i as int)),
                        " "@ == seq![' '],
                        "\r\n"@ == spec_crlf(),
                    decreases hs.len() - i,
                {
                    proof {
                        reveal_strlit(": ");
                        reveal_strlit("\r\n");
                    }
                    let pair = &hs[i];
                    out.append(pair.0.as_str());
                    out.append(": ");
                    out.append(pair.1.as_str());
                    out.append("\r\n");
                    proof {
                        assert(hview.subrange(0, i + 1).drop_last() =~= hview.subrange(
                            0,
                            i as int,
                        ));
                        assert(hview.subrange(0, i + 1).last() == hview[i as int]);
                        assert(out@ =~= line_prefix + spec_header_block(
                            hview.subrange(0, i + 1),
                        ));
                    }
                    i = i + 1;
                }
                proof {
                    assert(hview.subrange(0, hs@.len() as int) =~= hview);
                }
            },
            None => {},
        }
        out.append("\r\n");
        match &self.body {
            Some(b) => {
                out.append(b.as_str());
            },
            None => {},
        }
        proof {
            assert(out@ =~= spec_render(*self));
        }
        out
    }
}

} // verus!
