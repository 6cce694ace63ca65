use crate::http::bytes::{crlf, space, CR, LF, SP};
use crate::http::config::UnknownHeaderPolicy;
use crate::http::error::HttpError;
use crate::http::header::{header_views, HeaderView, HttpHeader};
use crate::http::method::Method;
use crate::http::parser::{parse_bytes, parse_message, result_view, Outcome};
use crate::http::response::{message_bytes, write_headers};
use vstd::prelude::*;
use vstd::string::*;
use vstd::utf8::*;

verus! {

/// The model of a request: what it says, apart from how it is stored.
pub struct RequestView {
    pub method: Method,
    pub path: Seq<char>,
    pub http_version: Seq<char>,
    pub headers: Seq<HeaderView>,
    pub body: Option<Seq<u8>>,
}

/// An HTTP request.
#[derive(Debug)]
pub struct Request {
    /// The method of the request.
    pub method: Method,
    /// The path of the request, exactly as it was sent.
    pub path: String,
    /// The HTTP version named in the request line.
    pub http_version: String,
    /// The headers of the request, in the order in which they were sent.
    pub headers: Vec<HttpHeader>,
    /// The body of the request, if it has one.
    pub body: Option<Vec<u8>>,
}

/// The model of an optional run of bytes.
pub open spec fn body_view(body: Option<Vec<u8>>) -> Option<Seq<u8>> {
    match body {
        Some(bytes) => Some(bytes@),
        None => None,
    }
}

impl View for Request {
    type V = RequestView;

    open spec fn view(&self) -> RequestView {
        RequestView {
            method: self.method,
            path: self.path@,
            http_version: self.http_version@,
            headers: header_views(self.headers@),
            body: body_view(self.body),
        }
    }
}

/// Copies a list of headers.
pub fn clone_headers(headers: &Vec<HttpHeader>) -> (r: Vec<HttpHeader>)
    ensures
        header_views(r@) == header_views(headers@),
{
    let mut r: Vec<HttpHeader> = Vec::new();
    let mut i: usize = 0;
    while i < headers.len()
        invariant
            i <= headers.len(),
            r@.len() == i,
            forall|j: int| 0 <= j < i ==> r@[j]@ == headers@[j]@,
        decreases headers.len() - i,
    {
        r.push(headers[i].clone());
        i += 1;
    }
    assert(header_views(r@) =~= header_views(headers@));
    r
}

impl Clone for Request {
    fn clone(&self) -> (r: Request)
        ensures
            r@ == self@,
    {
        let body = match &self.body {
            Some(bytes) => Some(bytes.clone()),
            None => None,
        };
        Request {
            method: self.method,
            path: self.path.clone(),
            http_version: self.http_version.clone(),
            headers: clone_headers(&self.headers),
            body,
        }
    }
}

/// The request line of a request, without its line ending.
pub open spec fn request_line(r: RequestView) -> Seq<u8> {
    encode_utf8(r.method.token()) + space() + encode_utf8(r.path) + space() + encode_utf8(
        r.http_version,
    )
}

/// The bytes of a body that may be absent.
pub open spec fn body_bytes(body: Option<Seq<u8>>) -> Seq<u8> {
    match body {
        Some(bytes) => bytes,
        None => Seq::empty(),
    }
}

/// The bytes of a request on the wire: the request line, the headers in their
/// order, a blank line, and the body as it is.
pub open spec fn request_wire(r: RequestView) -> Seq<u8> {
    message_bytes(request_line(r), r.headers, body_bytes(r.body))
}

impl Request {
    /// Renders the request into the bytes that a client sends.
    pub fn to_bytes(&self) -> (out: Vec<u8>)
        ensures
            out@ == request_wire(self@),
    {
        let mut out: Vec<u8> = Vec::new();
        out.extend_from_slice(self.method.as_str().as_bytes());
        out.push(SP);
        out.extend_from_slice(self.path.as_str().as_bytes());
        out.push(SP);
        out.extend_from_slice(self.http_version.as_str().as_bytes());
        out.push(CR);
        out.push(LF);
        assert(out@ =~= request_line(self@) + crlf());
        write_headers(&self.headers, &mut out);
        out.push(CR);
        out.push(LF);
        match &self.body {
            Some(bytes) => {
                out.extend_from_slice(bytes.as_slice());
            },
            None => {},
        }
        assert(out@ =~= request_wire(self@));
        out
    }
}

/// A source of bytes from which one HTTP request can be parsed.
pub trait HttpStream {
    /// Parses the request that the stream holds.
    fn parse(&mut self) -> Result<Request, HttpError>;
}

impl HttpStream for Vec<u8> {
    /// Parses the buffer as one complete message. A header of an unrecognized
    /// name has the request rejected. The buffer is left as it was.
    fn parse(&mut self) -> (r: Result<Request, HttpError>)
        ensures
            final(self)@ == old(self)@,
            parse_message(old(self)@, true, UnknownHeaderPolicy::Reject) == Outcome::Complete(
                result_view(r),
            ),
    {
        parse_bytes(self.as_slice(), UnknownHeaderPolicy::Reject)
    }
}

} // verus!
