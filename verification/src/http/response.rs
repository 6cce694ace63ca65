use crate::http::bytes::{crlf, space, CR, LF, SP};
use crate::http::header::{header_line, header_views, HeaderName, HeaderView, HttpHeader};
use crate::http::json::json_error_text;
use crate::http::status::HttpStatus;
use crate::http::text::{decimal, decimal_bytes, format_decimal, push_decimal};
use vstd::pervasive::VecAdditionalExecFns;
use vstd::prelude::*;
use vstd::std_specs::convert::FromSpecImpl;
use vstd::string::*;
use vstd::utf8::*;

verus! {

/// The body of an HTTP message: anything that can be turned into bytes.
///
/// A body yields the same bytes every time it is asked: `bytes` returns the
/// sequence that `body_bytes` names.
pub trait Body {
    /// The bytes of the body.
    spec fn body_bytes(&self) -> Seq<u8>;

    /// Converts the body into bytes.
    fn bytes(&self) -> (r: Vec<u8>)
        ensures
            r@ == self.body_bytes(),
    ;

    /// Returns the size of the body in bytes. A body that is framed by other
    /// means may report a length of its own.
    fn content_length(&self) -> (n: usize)
        default_ensures
            n == self.body_bytes().len(),
    {
        self.bytes().len()
    }
}

impl<T: Body> Body for Option<T> {
    open spec fn body_bytes(&self) -> Seq<u8> {
        match self {
            Some(body) => body.body_bytes(),
            None => Seq::empty(),
        }
    }

    fn bytes(&self) -> (r: Vec<u8>) {
        if let Some(body) = self {
            body.bytes()
        } else {
            Vec::new()
        }
    }
}

impl Body for String {
    open spec fn body_bytes(&self) -> Seq<u8> {
        encode_utf8(self@)
    }

    fn bytes(&self) -> (r: Vec<u8>) {
        self.as_str().as_bytes_vec()
    }
}

impl Body for &str {
    open spec fn body_bytes(&self) -> Seq<u8> {
        encode_utf8(self@)
    }

    fn bytes(&self) -> (r: Vec<u8>) {
        self.as_bytes_vec()
    }
}

impl Body for () {
    open spec fn body_bytes(&self) -> Seq<u8> {
        Seq::empty()
    }

    fn bytes(&self) -> (r: Vec<u8>) {
        Vec::new()
    }

    fn content_length(&self) -> (n: usize)
        ensures
            n == 0,
    {
        0
    }
}

impl Body for Vec<u8> {
    open spec fn body_bytes(&self) -> Seq<u8> {
        self@
    }

    fn bytes(&self) -> (r: Vec<u8>) {
        self.clone()
    }

    fn content_length(&self) -> (n: usize)
        ensures
            n == self@.len(),
    {
        self.len()
    }
}

impl Body for Box<dyn Body> {
    open spec fn body_bytes(&self) -> Seq<u8> {
        (**self).body_bytes()
    }

    fn bytes(&self) -> (r: Vec<u8>) {
        (**self).bytes()
    }
}

impl<const N: usize> Body for [u8; N] {
    open spec fn body_bytes(&self) -> Seq<u8> {
        self@
    }

    fn bytes(&self) -> (r: Vec<u8>) {
        vstd::slice::slice_to_vec(self.as_slice())
    }

    fn content_length(&self) -> (n: usize)
        ensures
            n == N,
    {
        N
    }
}

/// The index of the first header called `name` at or after index `from`.
pub open spec fn header_index_from(headers: Seq<HeaderView>, name: HeaderName, from: int) -> Option<
    int,
>
    decreases headers.len() - from,
{
    if from < 0 || from >= headers.len() {
        None
    } else if headers[from].name == name {
        Some(from)
    } else {
        header_index_from(headers, name, from + 1)
    }
}

/// The index of the first header called `name`.
pub open spec fn header_index(headers: Seq<HeaderView>, name: HeaderName) -> Option<int> {
    header_index_from(headers, name, 0)
}

/// `header_index_from` returns the first header of that name, and `None` only
/// when there is none.
pub proof fn lemma_header_index_from(headers: Seq<HeaderView>, name: HeaderName, from: int)
    requires
        0 <= from,
    ensures
        match header_index_from(headers, name, from) {
            Some(i) => {
                &&& from <= i < headers.len()
                &&& headers[i].name == name
                &&& forall|j: int| from <= j < i ==> headers[j].name != name
            },
            None => forall|j: int| from <= j < headers.len() ==> headers[j].name != name,
        },
    decreases headers.len() - from,
{
    if from < headers.len() && headers[from].name != name {
        lemma_header_index_from(headers, name, from + 1);
    }
}

/// The headers with `header` put in: in place of the first header of the same
/// name, or at the end where there is none.
pub open spec fn set_header(headers: Seq<HeaderView>, header: HeaderView) -> Seq<HeaderView> {
    match header_index(headers, header.name) {
        Some(i) => headers.update(i, header),
        None => headers.push(header),
    }
}

/// Finds the first header called `name`.
pub fn find_header(headers: &Vec<HttpHeader>, name: HeaderName) -> (r: Option<usize>)
    ensures
        r is Some <==> header_index(header_views(headers@), name) is Some,
        r matches Some(i) ==> header_index(header_views(headers@), name) == Some(i as int),
{
    let ghost views = header_views(headers@);
    let mut i: usize = 0;
    while i < headers.len()
        invariant
            i <= headers.len(),
            views == header_views(headers@),
            header_index(views, name) == header_index_from(views, name, i as int),
        decreases headers.len() - i,
    {
        if headers[i].kind() == name {
            return Some(i);
        }
        i += 1;
    }
    None
}

/// The status line of a response, without its line ending.
pub open spec fn status_line(status: HttpStatus) -> Seq<u8> {
    encode_utf8("HTTP/1.1 "@) + decimal_bytes(status.code_of() as nat) + space() + encode_utf8(
        status.reason(),
    )
}

/// The header lines of a message, each with its line ending, in order.
pub open spec fn header_block(headers: Seq<HeaderView>) -> Seq<u8>
    decreases headers.len(),
{
    if headers.len() == 0 {
        Seq::empty()
    } else {
        header_line(headers[0]) + crlf() + header_block(headers.skip(1))
    }
}

/// Appending a header appends its line.
pub proof fn lemma_header_block_push(headers: Seq<HeaderView>, header: HeaderView)
    ensures
        header_block(headers.push(header)) == header_block(headers) + header_line(header) + crlf(),
    decreases headers.len(),
{
    let all = headers.push(header);
    if headers.len() == 0 {
        assert(all.skip(1) =~= Seq::<HeaderView>::empty());
        assert(header_block(all.skip(1)) =~= Seq::<u8>::empty());
        assert(header_block(all) =~= header_line(header) + crlf());
        assert(header_block(headers) + header_line(header) + crlf() =~= header_line(header)
            + crlf());
    } else {
        assert(all.skip(1) =~= headers.skip(1).push(header));
        lemma_header_block_push(headers.skip(1), header);
        assert(header_block(all) =~= header_block(headers) + header_line(header) + crlf());
    }
}

/// A whole message: first line, header lines, a blank line, and the body.
pub open spec fn message_bytes(first_line: Seq<u8>, headers: Seq<HeaderView>, body: Seq<u8>) -> Seq<
    u8,
> {
    first_line + crlf() + header_block(headers) + crlf() + body
}

/// The headers that go on the wire for a body of `body_len` bytes. With
/// `auto_content_length`, a `Content-Length` header that states the length of
/// the body is added at the end, unless the headers already hold one.
pub open spec fn wire_headers(
    headers: Seq<HeaderView>,
    body_len: nat,
    auto_content_length: bool,
) -> Seq<HeaderView> {
    if auto_content_length && header_index(headers, HeaderName::ContentLength) is None {
        headers.push(HeaderView { name: HeaderName::ContentLength, value: decimal(body_len) })
    } else {
        headers
    }
}

/// Appends the lines of `headers` to `out`.
pub fn write_headers(headers: &Vec<HttpHeader>, out: &mut Vec<u8>)
    ensures
        final(out)@ == old(out)@ + header_block(header_views(headers@)),
{
    let ghost views = header_views(headers@);
    let mut i: usize = 0;
    proof {
        assert(views.take(0) =~= Seq::<HeaderView>::empty());
        assert(out@ =~= old(out)@ + header_block(views.take(0)));
    }
    while i < headers.len()
        invariant
            i <= headers.len(),
            views == header_views(headers@),
            out@ == old(out)@ + header_block(views.take(i as int)),
        decreases headers.len() - i,
    {
        let ghost before = out@;
        headers[i].write_to(out);
        proof {
            assert(views.take(i + 1) =~= views.take(i as int).push(views[i as int]));
            lemma_header_block_push(views.take(i as int), views[i as int]);
            assert(out@ =~= old(out)@ + header_block(views.take(i + 1)));
        }
        i += 1;
    }
    proof {
        assert(views.take(i as int) =~= views);
    }
}

/// A response in the making: a status and the headers gathered so far.
#[must_use]
pub struct Builder {
    headers: Vec<HttpHeader>,
    status: HttpStatus,
}

impl Builder {
    /// The headers gathered so far.
    pub closed spec fn headers(&self) -> Seq<HeaderView> {
        header_views(self.headers@)
    }

    /// The status that the response will carry.
    pub closed spec fn status(&self) -> HttpStatus {
        self.status
    }

    /// Starts a response with the given status and no headers.
    pub fn new(status: HttpStatus) -> (b: Builder)
        ensures
            b.status() == status,
            b.headers() == Seq::<HeaderView>::empty(),
    {
        let b = Builder { headers: Vec::new(), status };
        assert(b.headers() =~= Seq::<HeaderView>::empty());
        b
    }

    /// Sets the `Content-Type` header of the response: the first such header
    /// is replaced, and where there is none, one is added at the end.
    pub fn content_type(&mut self, value: &str)
        ensures
            final(self).status() == old(self).status(),
            final(self).headers() == set_header(
                old(self).headers(),
                HeaderView { name: HeaderName::ContentType, value: value@ },
            ),
    {
        let new_header = HttpHeader::ContentType(value.to_owned());
        let ghost views = header_views(self.headers@);
        match find_header(&self.headers, HeaderName::ContentType) {
            Some(i) => {
                proof {
                    lemma_header_index_from(views, HeaderName::ContentType, 0);
                }
                self.headers.set(i, new_header);
                assert(header_views(self.headers@) =~= views.update(i as int, new_header@));
            },
            None => {
                self.headers.push(new_header);
                assert(header_views(self.headers@) =~= views.push(new_header@));
            },
        }
    }

    /// Returns a response with a JSON body. `body` is what serializing the
    /// value gave: on success the text becomes the body and the content type
    /// is set to `application/json`; on failure see [`Builder::json_failure`].
    pub fn json(self, body: Result<String, serde_json::Error>) -> (r: Response<String>)
        ensures
            match body {
                Ok(text) => {
                    &&& r.status == self.status()
                    &&& header_views(r.headers@) == set_header(
                        self.headers(),
                        HeaderView { name: HeaderName::ContentType, value: "application/json"@ },
                    )
                    &&& r.body@ == text@
                },
                Err(_) => {
                    &&& r.status == HttpStatus::InternalServerError
                    &&& r.headers@.len() == 0
                },
            },
    {
        let mut builder = self;
        builder.content_type("application/json");
        match body {
            Ok(text) => Response { body: text, headers: builder.headers, status: builder.status },
            Err(error) => Builder::json_failure(json_error_text(&error)),
        }
    }

    /// The response for a value that could not be serialized: status 500, no
    /// headers, and the description of the failure as the body.
    pub fn json_failure(description: String) -> (r: Response<String>)
        ensures
            r.status == HttpStatus::InternalServerError,
            r.headers@.len() == 0,
            r.body == description,
    {
        Response { body: description, headers: Vec::new(), status: HttpStatus::InternalServerError }
    }

    /// Returns the response as it stands, with no body.
    pub fn finish(self) -> (r: Response<()>)
        ensures
            r.status == self.status(),
            header_views(r.headers@) == self.headers(),
    {
        Response { body: (), headers: self.headers, status: self.status }
    }

    /// Returns the response with a text body.
    pub fn text<'a>(self, body: &'a str) -> (r: Response<&'a str>)
        ensures
            r.status == self.status(),
            header_views(r.headers@) == self.headers(),
            r.body@ == body@,
    {
        Response { body, headers: self.headers, status: self.status }
    }
}

/// An HTTP response: a status, headers in the order in which they are sent,
/// and a body.
#[must_use]
#[derive(Debug)]
pub struct Response<T: Body = ()> {
    /// The body of the response.
    pub body: T,
    /// The headers of the response.
    pub headers: Vec<HttpHeader>,
    /// The status of the response.
    pub status: HttpStatus,
}

impl<T: Body> Response<T> {
    /// Creates a response.
    pub fn new(body: T, headers: Vec<HttpHeader>, status: HttpStatus) -> (r: Self)
        ensures
            r.body == body,
            r.headers == headers,
            r.status == status,
    {
        Self { body, headers, status }
    }

    /// The bytes of the response on the wire: the status line, the headers in
    /// their order, a blank line, and the body as it is.
    pub open spec fn wire(&self, auto_content_length: bool) -> Seq<u8> {
        message_bytes(
            status_line(self.status),
            wire_headers(
                header_views(self.headers@),
                self.body.body_bytes().len(),
                auto_content_length,
            ),
            self.body.body_bytes(),
        )
    }

    /// Renders the response. With `auto_content_length`, a `Content-Length`
    /// header computed from the body is sent after the other headers, unless
    /// the response already carries one.
    pub fn to_bytes_with(&self, auto_content_length: bool) -> (out: Vec<u8>)
        ensures
            out@ == self.wire(auto_content_length),
    {
        let body = self.body.bytes();
        let ghost views = header_views(self.headers@);
        let mut out: Vec<u8> = Vec::new();
        out.extend_from_slice("HTTP/1.1 ".as_bytes());
        push_decimal(&mut out, self.status.code() as usize);
        out.push(SP);
        out.extend_from_slice(self.status.reason_phrase().as_bytes());
        out.push(CR);
        out.push(LF);
        assert(out@ =~= status_line(self.status) + crlf());
        write_headers(&self.headers, &mut out);
        if auto_content_length && find_header(&self.headers, HeaderName::ContentLength).is_none() {
            let length = HttpHeader::ContentLength(format_decimal(body.len()));
            length.write_to(&mut out);
            proof {
                lemma_header_block_push(views, length@);
            }
        }
        out.push(CR);
        out.push(LF);
        out.extend_from_slice(body.as_slice());
        assert(out@ =~= self.wire(auto_content_length));
        out
    }

    /// Renders the response, with a `Content-Length` header computed from the
    /// body unless the response already carries one.
    pub fn to_bytes(&self) -> (out: Vec<u8>)
        ensures
            out@ == self.wire(true),
    {
        self.to_bytes_with(true)
    }

    /// Renders the head of the response as it stands: the status line, the
    /// headers that the response carries and a blank line, without the body.
    pub fn head_bytes(&self) -> (out: Vec<u8>)
        ensures
            out@ == message_bytes(
                status_line(self.status),
                header_views(self.headers@),
                Seq::empty(),
            ),
            out@ + self.body.body_bytes() == self.wire(false),
    {
        let mut out: Vec<u8> = Vec::new();
        out.extend_from_slice("HTTP/1.1 ".as_bytes());
        push_decimal(&mut out, self.status.code() as usize);
        out.push(SP);
        out.extend_from_slice(self.status.reason_phrase().as_bytes());
        out.push(CR);
        out.push(LF);
        assert(out@ =~= status_line(self.status) + crlf());
        write_headers(&self.headers, &mut out);
        out.push(CR);
        out.push(LF);
        assert(out@ =~= message_bytes(
            status_line(self.status),
            header_views(self.headers@),
            Seq::empty(),
        ));
        assert(out@ + self.body.body_bytes() =~= self.wire(false));
        out
    }
}

impl<T: Body> From<Response<T>> for Vec<u8> {
    /// Renders the response, with a `Content-Length` header computed from the
    /// body unless the response already carries one.
    fn from(val: Response<T>) -> (out: Vec<u8>)
        ensures
            out@ == val.wire(true),
    {
        val.to_bytes()
    }
}

impl<T: Body> FromSpecImpl<Response<T>> for Vec<u8> {
    open spec fn obeys_from_spec() -> bool {
        false
    }

    open spec fn from_spec(val: Response<T>) -> Vec<u8> {
        arbitrary()
    }
}

#[allow(non_snake_case)]
impl Response<()> {
    /// Starts a response with the status `100 Continue`.
    pub fn Continue() -> (b: Builder)
        ensures
            b.status() == HttpStatus::Continue,
            b.headers() == Seq::<HeaderView>::empty(),
    {
        Builder::new(HttpStatus::Continue)
    }

    /// Starts a response with the status `101 Switching Protocols`.
    pub fn SwitchingProtocols() -> (b: Builder)
        ensures
            b.status() == HttpStatus::SwitchingProtocols,
            b.headers() == Seq::<HeaderView>::empty(),
    {
        Builder::new(HttpStatus::SwitchingProtocols)
    }

    /// Starts a response with the status `102 Processing`.
    pub fn Processing() -> (b: Builder)
        ensures
            b.status() == HttpStatus::Processing,
            b.headers() == Seq::<HeaderView>::empty(),
    {
        Builder::new(HttpStatus::Processing)
    }

    /// Starts a response with the status `103 Early Hints`.
    pub fn EarlyHints() -> (b: Builder)
        ensures
            b.status() == HttpStatus::EarlyHints,
            b.headers() == Seq::<HeaderView>::empty(),
    {
        Builder::new(HttpStatus::EarlyHints)
    }

    /// Starts a response with the status `200 Ok`.
    pub fn OK() -> (b: Builder)
        ensures
            b.status() == HttpStatus::OK,
            b.headers() == Seq::<HeaderView>::empty(),
    {
        Builder::new(HttpStatus::OK)
    }

    /// Starts a response with the status `201 Created`.
    pub fn Created() -> (b: Builder)
        ensures
            b.status() == HttpStatus::Created,
            b.headers() == Seq::<HeaderView>::empty(),
    {
        Builder::new(HttpStatus::Created)
    }

    /// Starts a response with the status `202 Accepted`.
    pub fn Accepted() -> (b: Builder)
        ensures
            b.status() == HttpStatus::Accepted,
            b.headers() == Seq::<HeaderView>::empty(),
    {
        Builder::new(HttpStatus::Accepted)
    }

    /// Starts a response with the status `203 Non-Authoritative Information`.
    pub fn NonAuthoritativeInformation() -> (b: Builder)
        ensures
            b.status() == HttpStatus::NonAuthoritativeInformation,
            b.headers() == Seq::<HeaderView>::empty(),
    {
        Builder::new(HttpStatus::NonAuthoritativeInformation)
    }

    /// Starts a response with the status `204 No Content`.
    pub fn NoContent() -> (b: Builder)
        ensures
            b.status() == HttpStatus::NoContent,
            b.headers() == Seq::<HeaderView>::empty(),
    {
        Builder::new(HttpStatus::NoContent)
    }

    /// Starts a response with the status `205 Reset Content`.
    pub fn ResetContent() -> (b: Builder)
        ensures
            b.status() == HttpStatus::ResetContent,
            b.headers() == Seq::<HeaderView>::empty(),
    {
        Builder::new(HttpStatus::ResetContent)
    }

    /// Starts a response with the status `206 Partial Content`.
    pub fn PartialContent() -> (b: Builder)
        ensures
            b.status() == HttpStatus::PartialContent,
            b.headers() == Seq::<HeaderView>::empty(),
    {
        Builder::new(HttpStatus::PartialContent)
    }

    /// Starts a response with the status `207 Multi-Status`.
    pub fn MultiStatus() -> (b: Builder)
        ensures
            b.status() == HttpStatus::MultiStatus,
            b.headers() == Seq::<HeaderView>::empty(),
    {
        Builder::new(HttpStatus::MultiStatus)
    }

    /// Starts a response with the status `208 Already Reported`.
    pub fn AlreadyReported() -> (b: Builder)
        ensures
            b.status() == HttpStatus::AlreadyReported,
            b.headers() == Seq::<HeaderView>::empty(),
    {
        Builder::new(HttpStatus::AlreadyReported)
    }

    /// Starts a response with the status `226 IM Used`.
    pub fn IMUsed() -> (b: Builder)
        ensures
            b.status() == HttpStatus::IMUsed,
            b.headers() == Seq::<HeaderView>::empty(),
    {
        Builder::new(HttpStatus::IMUsed)
    }

    /// Starts a response with the status `300 Multiple Choices`.
    pub fn MultipleChoices() -> (b: Builder)
        ensures
            b.status() == HttpStatus::MultipleChoices,
            b.headers() == Seq::<HeaderView>::empty(),
    {
        Builder::new(HttpStatus::MultipleChoices)
    }

    /// Starts a response with the status `301 Moved Permanently`.
    pub fn MovedPermanently() -> (b: Builder)
        ensures
            b.status() == HttpStatus::MovedPermanently,
            b.headers() == Seq::<HeaderView>::empty(),
    {
        Builder::new(HttpStatus::MovedPermanently)
    }

    /// Starts a response with the status `302 Found`.
    pub fn Found() -> (b: Builder)
        ensures
            b.status() == HttpStatus::Found,
            b.headers() == Seq::<HeaderView>::empty(),
    {
        Builder::new(HttpStatus::Found)
    }

    /// Starts a response with the status `304 Not Modified`.
    pub fn NotModified() -> (b: Builder)
        ensures
            b.status() == HttpStatus::NotModified,
            b.headers() == Seq::<HeaderView>::empty(),
    {
        Builder::new(HttpStatus::NotModified)
    }

    /// Starts a response with the status `305 Use Proxy`.
    pub fn UseProxy() -> (b: Builder)
        ensures
            b.status() == HttpStatus::UseProxy,
            b.headers() == Seq::<HeaderView>::empty(),
    {
        Builder::new(HttpStatus::UseProxy)
    }

    /// Starts a response with the status `306 Unused`.
    pub fn Unused() -> (b: Builder)
        ensures
            b.status() == HttpStatus::Unused,
            b.headers() == Seq::<HeaderView>::empty(),
    {
        Builder::new(HttpStatus::Unused)
    }

    /// Starts a response with the status `307 Temporary Redirect`.
    pub fn TemporaryRedirect() -> (b: Builder)
        ensures
            b.status() == HttpStatus::TemporaryRedirect,
            b.headers() == Seq::<HeaderView>::empty(),
    {
        Builder::new(HttpStatus::TemporaryRedirect)
    }

    /// Starts a response with the status `308 Permanent Redirect`.
    pub fn PermanentRedirect() -> (b: Builder)
        ensures
            b.status() == HttpStatus::PermanentRedirect,
            b.headers() == Seq::<HeaderView>::empty(),
    {
        Builder::new(HttpStatus::PermanentRedirect)
    }

    /// Starts a response with the status `400 Bad Request`.
    pub fn BadRequest() -> (b: Builder)
        ensures
            b.status() == HttpStatus::BadRequest,
            b.headers() == Seq::<HeaderView>::empty(),
    {
        Builder::new(HttpStatus::BadRequest)
    }

    /// Starts a response with the status `401 Unauthorized`.
    pub fn Unauthorized() -> (b: Builder)
        ensures
            b.status() == HttpStatus::Unauthorized,
            b.headers() == Seq::<HeaderView>::empty(),
    {
        Builder::new(HttpStatus::Unauthorized)
    }

    /// Starts a response with the status `402 Payment Required`.
    pub fn PaymentRequired() -> (b: Builder)
        ensures
            b.status() == HttpStatus::PaymentRequired,
            b.headers() == Seq::<HeaderView>::empty(),
    {
        Builder::new(HttpStatus::PaymentRequired)
    }

    /// Starts a response with the status `403 Forbidden`.
    pub fn Forbidden() -> (b: Builder)
        ensures
            b.status() == HttpStatus::Forbidden,
            b.headers() == Seq::<HeaderView>::empty(),
    {
        Builder::new(HttpStatus::Forbidden)
    }

    /// Starts a response with the status `404 Not Found`.
    pub fn NotFound() -> (b: Builder)
        ensures
            b.status() == HttpStatus::NotFound,
            b.headers() == Seq::<HeaderView>::empty(),
    {
        Builder::new(HttpStatus::NotFound)
    }

    /// Starts a response with the status `405 Method Not Allowed`.
    pub fn MethodNotAllowed() -> (b: Builder)
        ensures
            b.status() == HttpStatus::MethodNotAllowed,
            b.headers() == Seq::<HeaderView>::empty(),
    {
        Builder::new(HttpStatus::MethodNotAllowed)
    }

    /// Starts a response with the status `406 Not Acceptable`.
    pub fn NotAcceptable() -> (b: Builder)
        ensures
            b.status() == HttpStatus::NotAcceptable,
            b.headers() == Seq::<HeaderView>::empty(),
    {
        Builder::new(HttpStatus::NotAcceptable)
    }

    /// Starts a response with the status `407 Proxy Authentication Required`.
    pub fn ProxyAuthenticationRequired() -> (b: Builder)
        ensures
            b.status() == HttpStatus::ProxyAuthenticationRequired,
            b.headers() == Seq::<HeaderView>::empty(),
    {
        Builder::new(HttpStatus::ProxyAuthenticationRequired)
    }

    /// Starts a response with the status `408 Request Timeout`.
    pub fn RequestTimeout() -> (b: Builder)
        ensures
            b.status() == HttpStatus::RequestTimeout,
            b.headers() == Seq::<HeaderView>::empty(),
    {
        Builder::new(HttpStatus::RequestTimeout)
    }

    /// Starts a response with the status `409 Conflict`.
    pub fn Conflict() -> (b: Builder)
        ensures
            b.status() == HttpStatus::Conflict,
            b.headers() == Seq::<HeaderView>::empty(),
    {
        Builder::new(HttpStatus::Conflict)
    }

    /// Starts a response with the status `410 Gone`.
    pub fn Gone() -> (b: Builder)
        ensures
            b.status() == HttpStatus::Gone,
            b.headers() == Seq::<HeaderView>::empty(),
    {
        Builder::new(HttpStatus::Gone)
    }

    /// Starts a response with the status `411 Length Required`.
    pub fn LengthRequired() -> (b: Builder)
        ensures
            b.status() == HttpStatus::LengthRequired,
            b.headers() == Seq::<HeaderView>::empty(),
    {
        Builder::new(HttpStatus::LengthRequired)
    }

    /// Starts a response with the status `412 Precondition Failed`.
    pub fn PreconditionFailed() -> (b: Builder)
        ensures
            b.status() == HttpStatus::PreconditionFailed,
            b.headers() == Seq::<HeaderView>::empty(),
    {
        Builder::new(HttpStatus::PreconditionFailed)
    }

    /// Starts a response with the status `413 Payload Too Large`.
    pub fn PayloadTooLarge() -> (b: Builder)
        ensures
            b.status() == HttpStatus::PayloadTooLarge,
            b.headers() == Seq::<HeaderView>::empty(),
    {
        Builder::new(HttpStatus::PayloadTooLarge)
    }

    /// Starts a response with the status `414 URI Too Long`.
    pub fn URITooLong() -> (b: Builder)
        ensures
            b.status() == HttpStatus::URITooLong,
            b.headers() == Seq::<HeaderView>::empty(),
    {
        Builder::new(HttpStatus::URITooLong)
    }

    /// Starts a response with the status `415 Unsupported Media Type`.
    pub fn UnsupportedMediaType() -> (b: Builder)
        ensures
            b.status() == HttpStatus::UnsupportedMediaType,
            b.headers() == Seq::<HeaderView>::empty(),
    {
        Builder::new(HttpStatus::UnsupportedMediaType)
    }

    /// Starts a response with the status `416 Range not Satisfiable`.
    pub fn RangeNotSatisfiable() -> (b: Builder)
        ensures
            b.status() == HttpStatus::RangeNotSatisfiable,
            b.headers() == Seq::<HeaderView>::empty(),
    {
        Builder::new(HttpStatus::RangeNotSatisfiable)
    }

    /// Starts a response with the status `417 Expectation Failed`.
    pub fn ExpectationFailed() -> (b: Builder)
        ensures
            b.status() == HttpStatus::ExpectationFailed,
            b.headers() == Seq::<HeaderView>::empty(),
    {
        Builder::new(HttpStatus::ExpectationFailed)
    }

    /// Starts a response with the status `418 I'm a teapot`.
    pub fn Teapot() -> (b: Builder)
        ensures
            b.status() == HttpStatus::Teapot,
            b.headers() == Seq::<HeaderView>::empty(),
    {
        Builder::new(HttpStatus::Teapot)
    }

    /// Starts a response with the status `421 Misdirected Request`.
    pub fn MisdirectedRequest() -> (b: Builder)
        ensures
            b.status() == HttpStatus::MisdirectedRequest,
            b.headers() == Seq::<HeaderView>::empty(),
    {
        Builder::new(HttpStatus::MisdirectedRequest)
    }

    /// Starts a response with the status `422 Unprocessable Entity`.
    pub fn UnprocessableEntity() -> (b: Builder)
        ensures
            b.status() == HttpStatus::UnprocessableEntity,
            b.headers() == Seq::<HeaderView>::empty(),
    {
        Builder::new(HttpStatus::UnprocessableEntity)
    }

    /// Starts a response with the status `423 Locked`.
    pub fn Locked() -> (b: Builder)
        ensures
            b.status() == HttpStatus::Locked,
            b.headers() == Seq::<HeaderView>::empty(),
    {
        Builder::new(HttpStatus::Locked)
    }

    /// Starts a response with the status `424 Failed Dependency`.
    pub fn FailedDependency() -> (b: Builder)
        ensures
            b.status() == HttpStatus::FailedDependency,
            b.headers() == Seq::<HeaderView>::empty(),
    {
        Builder::new(HttpStatus::FailedDependency)
    }

    /// Starts a response with the status `425 Too Early`.
    pub fn TooEarly() -> (b: Builder)
        ensures
            b.status() == HttpStatus::TooEarly,
            b.headers() == Seq::<HeaderView>::empty(),
    {
        Builder::new(HttpStatus::TooEarly)
    }

    /// Starts a response with the status `426 Upgrade Required`.
    pub fn UpgradeRequired() -> (b: Builder)
        ensures
            b.status() == HttpStatus::UpgradeRequired,
            b.headers() == Seq::<HeaderView>::empty(),
    {
        Builder::new(HttpStatus::UpgradeRequired)
    }

    /// Starts a response with the status `428 Precondition Required`.
    pub fn PreconditionRequired() -> (b: Builder)
        ensures
            b.status() == HttpStatus::PreconditionRequired,
            b.headers() == Seq::<HeaderView>::empty(),
    {
        Builder::new(HttpStatus::PreconditionRequired)
    }

    /// Starts a response with the status `429 Too Many Requests`.
    pub fn TooManyRequests() -> (b: Builder)
        ensures
            b.status() == HttpStatus::TooManyRequests,
            b.headers() == Seq::<HeaderView>::empty(),
    {
        Builder::new(HttpStatus::TooManyRequests)
    }

    /// Starts a response with the status `431 Request Header Fields Too Large`.
    pub fn RequestHeaderFieldsTooLarge() -> (b: Builder)
        ensures
            b.status() == HttpStatus::RequestHeaderFieldsTooLarge,
            b.headers() == Seq::<HeaderView>::empty(),
    {
        Builder::new(HttpStatus::RequestHeaderFieldsTooLarge)
    }

    /// Starts a response with the status `451 Unavailable For Legal Reasons`.
    pub fn UnavailableForLegalReasons() -> (b: Builder)
        ensures
            b.status() == HttpStatus::UnavailableForLegalReasons,
            b.headers() == Seq::<HeaderView>::empty(),
    {
        Builder::new(HttpStatus::UnavailableForLegalReasons)
    }

    /// Starts a response with the status `500 Internal Server Error`.
    pub fn InternalServerError() -> (b: Builder)
        ensures
            b.status() == HttpStatus::InternalServerError,
            b.headers() == Seq::<HeaderView>::empty(),
    {
        Builder::new(HttpStatus::InternalServerError)
    }

    /// Starts a response with the status `501 Not Implemented`.
    pub fn NotImplemented() -> (b: Builder)
        ensures
            b.status() == HttpStatus::NotImplemented,
            b.headers() == Seq::<HeaderView>::empty(),
    {
        Builder::new(HttpStatus::NotImplemented)
    }

    /// Starts a response with the status `502 Bad Gateway`.
    pub fn BadGateway() -> (b: Builder)
        ensures
            b.status() == HttpStatus::BadGateway,
            b.headers() == Seq::<HeaderView>::empty(),
    {
        Builder::new(HttpStatus::BadGateway)
    }

    /// Starts a response with the status `503 Service Unavailable`.
    pub fn ServiceUnavailable() -> (b: Builder)
        ensures
            b.status() == HttpStatus::ServiceUnavailable,
            b.headers() == Seq::<HeaderView>::empty(),
    {
        Builder::new(HttpStatus::ServiceUnavailable)
    }

    /// Starts a response with the status `504 Gateway Timeout`.
    pub fn GatewayTimeout() -> (b: Builder)
        ensures
            b.status() == HttpStatus::GatewayTimeout,
            b.headers() == Seq::<HeaderView>::empty(),
    {
        Builder::new(HttpStatus::GatewayTimeout)
    }

    /// Starts a response with the status `505 HTTP Version not Supported`.
    pub fn HttpVersionNotSupported() -> (b: Builder)
        ensures
            b.status() == HttpStatus::HttpVersionNotSupported,
            b.headers() == Seq::<HeaderView>::empty(),
    {
        Builder::new(HttpStatus::HttpVersionNotSupported)
    }

    /// Starts a response with the status `506 Variant Also Negotiates`.
    pub fn VariantAlsoNegotiates() -> (b: Builder)
        ensures
            b.status() == HttpStatus::VariantAlsoNegotiates,
            b.headers() == Seq::<HeaderView>::empty(),
    {
        Builder::new(HttpStatus::VariantAlsoNegotiates)
    }

    /// Starts a response with the status `507 Insufficient Storage`.
    pub fn InsufficientStorage() -> (b: Builder)
        ensures
            b.status() == HttpStatus::InsufficientStorage,
            b.headers() == Seq::<HeaderView>::empty(),
    {
        Builder::new(HttpStatus::InsufficientStorage)
    }

    /// Starts a response with the status `508 Loop Detected`.
    pub fn LoopDetected() -> (b: Builder)
        ensures
            b.status() == HttpStatus::LoopDetected,
            b.headers() == Seq::<HeaderView>::empty(),
    {
        Builder::new(HttpStatus::LoopDetected)
    }

    /// Starts a response with the status `510 Not Extended`.
    pub fn NotExtended() -> (b: Builder)
        ensures
            b.status() == HttpStatus::NotExtended,
            b.headers() == Seq::<HeaderView>::empty(),
    {
        Builder::new(HttpStatus::NotExtended)
    }

    /// Starts a response with the status `511 Network Authentication Required`.
    pub fn NetworkAuthenticationRequired() -> (b: Builder)
        ensures
            b.status() == HttpStatus::NetworkAuthenticationRequired,
            b.headers() == Seq::<HeaderView>::empty(),
    {
        Builder::new(HttpStatus::NetworkAuthenticationRequired)
    }
}

} // verus!
