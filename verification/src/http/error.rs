use crate::http::header::{header_views, HeaderName, HeaderView, HttpHeader};
use crate::http::json::json_error_text;
use crate::http::method::Method;
use crate::http::response::{message_bytes, status_line, wire_headers, Response};
use crate::http::status::HttpStatus;
use vstd::prelude::*;
use vstd::std_specs::convert::FromSpecImpl;
use vstd::string::*;
use vstd::utf8::*;

verus! {

/// What can go wrong while a request is read, parsed, routed or handled.
#[derive(Debug)]
pub enum HttpError {
    /// The transport failed; the text describes how.
    IoError(String),
    /// The client sent a request that a handler refused; the text says why.
    BadRequest(String),
    /// No handler is registered for this method and path.
    NotFound {
        /// The method of the request.
        method: Method,
        /// The path of the request.
        path: String,
    },
    /// The message head is not valid UTF-8.
    InvalidEncoding,
    /// The request line is missing or has fewer than three tokens.
    MalformedRequestLine,
    /// The first token of the request line, held here, names no method.
    UnknownMethod(String),
    /// This header line has no `": "` between a name and a value.
    MalformedHeaderLine(String),
    /// A header line carries this name, which is not a recognized one.
    UnknownHeader(String),
    /// The stream ended before the declared number of body bytes arrived.
    TruncatedBody,
    /// The message head is longer than the server allows.
    HeadTooLarge,
    /// The request declares a body that is longer than the server allows.
    BodyTooLarge,
    /// The peer took longer than the server allows.
    Timeout,
}

/// The model of an [`HttpError`]: the same cases, with texts as sequences of
/// characters.
pub enum ErrorView {
    IoError(Seq<char>),
    BadRequest(Seq<char>),
    NotFound { method: Method, path: Seq<char> },
    InvalidEncoding,
    MalformedRequestLine,
    UnknownMethod(Seq<char>),
    MalformedHeaderLine(Seq<char>),
    UnknownHeader(Seq<char>),
    TruncatedBody,
    HeadTooLarge,
    BodyTooLarge,
    Timeout,
}

impl View for HttpError {
    type V = ErrorView;

    open spec fn view(&self) -> ErrorView {
        match self {
            HttpError::IoError(text) => ErrorView::IoError(text@),
            HttpError::BadRequest(text) => ErrorView::BadRequest(text@),
            HttpError::NotFound { method, path } => ErrorView::NotFound {
                method: *method,
                path: path@,
            },
            HttpError::InvalidEncoding => ErrorView::InvalidEncoding,
            HttpError::MalformedRequestLine => ErrorView::MalformedRequestLine,
            HttpError::UnknownMethod(token) => ErrorView::UnknownMethod(token@),
            HttpError::MalformedHeaderLine(line) => ErrorView::MalformedHeaderLine(line@),
            HttpError::UnknownHeader(name) => ErrorView::UnknownHeader(name@),
            HttpError::TruncatedBody => ErrorView::TruncatedBody,
            HttpError::HeadTooLarge => ErrorView::HeadTooLarge,
            HttpError::BodyTooLarge => ErrorView::BodyTooLarge,
            HttpError::Timeout => ErrorView::Timeout,
        }
    }
}

impl From<serde_json::Error> for HttpError {
    /// A failure to read or write JSON is the client's fault: it becomes a
    /// `BadRequest` that carries the text of the failure.
    fn from(value: serde_json::Error) -> (e: HttpError)
        ensures
            e is BadRequest,
    {
        HttpError::BadRequest(json_error_text(&value))
    }
}

impl FromSpecImpl<serde_json::Error> for HttpError {
    open spec fn obeys_from_spec() -> bool {
        false
    }

    open spec fn from_spec(value: serde_json::Error) -> HttpError {
        arbitrary()
    }
}

/// The text that describes an error to the client.
pub open spec fn message_of(e: ErrorView) -> Seq<char> {
    match e {
        ErrorView::IoError(text) => text,
        ErrorView::BadRequest(text) => text,
        ErrorView::NotFound { method, path } => "The path "@ + method.token() + " "@ + path
            + " was not found"@,
        ErrorView::InvalidEncoding => "Internal Server Error: Failed to parse request"@,
        ErrorView::MalformedRequestLine => "Invalid request line"@,
        ErrorView::UnknownMethod(token) => "Unknown HTTP Method: "@ + token,
        ErrorView::MalformedHeaderLine(line) => "Invalid Header: "@ + line,
        ErrorView::UnknownHeader(name) => "Unknown header '"@ + name + "'"@,
        ErrorView::TruncatedBody => "Incomplete request body"@,
        ErrorView::HeadTooLarge => "Request head too large"@,
        ErrorView::BodyTooLarge => "Request body too large"@,
        ErrorView::Timeout => "Request timed out"@,
    }
}

/// The status of the response that reports an error: 404 where no route
/// matched, 500 where the transport failed or the bytes were not text, 431,
/// 413 and 408 where a ceiling or the deadline was passed, and 400 for every
/// other fault of the request.
pub open spec fn status_of(e: ErrorView) -> HttpStatus {
    match e {
        ErrorView::IoError(_) => HttpStatus::InternalServerError,
        ErrorView::InvalidEncoding => HttpStatus::InternalServerError,
        ErrorView::NotFound { .. } => HttpStatus::NotFound,
        ErrorView::HeadTooLarge => HttpStatus::RequestHeaderFieldsTooLarge,
        ErrorView::BodyTooLarge => HttpStatus::PayloadTooLarge,
        ErrorView::Timeout => HttpStatus::RequestTimeout,
        _ => HttpStatus::BadRequest,
    }
}

/// The headers of every response that reports an error.
pub open spec fn error_headers() -> Seq<HeaderView> {
    seq![
        HeaderView { name: HeaderName::ContentType, value: "text/plain"@ },
        HeaderView { name: HeaderName::Authorization, value: "Bearer token"@ },
    ]
}

/// The bytes of the response that reports an error.
pub open spec fn error_wire(e: ErrorView, auto_content_length: bool) -> Seq<u8> {
    message_bytes(
        status_line(status_of(e)),
        wire_headers(error_headers(), encode_utf8(message_of(e)).len(), auto_content_length),
        encode_utf8(message_of(e)),
    )
}

impl HttpError {
    /// Describes the error in plain text.
    pub fn message(&self) -> (text: String)
        ensures
            text@ == message_of(self@),
    {
        match self {
            HttpError::IoError(text) => text.clone(),
            HttpError::BadRequest(text) => text.clone(),
            HttpError::NotFound { method, path } => {
                let text = "The path ".to_owned().concat(method.as_str()).concat(" ").concat(
                    path.as_str(),
                ).concat(" was not found");
                text
            },
            HttpError::InvalidEncoding => "Internal Server Error: Failed to parse request".to_owned(),
            HttpError::MalformedRequestLine => "Invalid request line".to_owned(),
            HttpError::UnknownMethod(token) => "Unknown HTTP Method: ".to_owned().concat(
                token.as_str(),
            ),
            HttpError::MalformedHeaderLine(line) => "Invalid Header: ".to_owned().concat(
                line.as_str(),
            ),
            HttpError::UnknownHeader(name) => "Unknown header '".to_owned().concat(
                name.as_str(),
            ).concat("'"),
            HttpError::TruncatedBody => "Incomplete request body".to_owned(),
            HttpError::HeadTooLarge => "Request head too large".to_owned(),
            HttpError::BodyTooLarge => "Request body too large".to_owned(),
            HttpError::Timeout => "Request timed out".to_owned(),
        }
    }

    /// Returns the status of the response that reports this error.
    pub fn status(&self) -> (status: HttpStatus)
        ensures
            status == status_of(self@),
    {
        match self {
            HttpError::IoError(_) => HttpStatus::InternalServerError,
            HttpError::InvalidEncoding => HttpStatus::InternalServerError,
            HttpError::NotFound { .. } => HttpStatus::NotFound,
            HttpError::HeadTooLarge => HttpStatus::RequestHeaderFieldsTooLarge,
            HttpError::BodyTooLarge => HttpStatus::PayloadTooLarge,
            HttpError::Timeout => HttpStatus::RequestTimeout,
            _ => HttpStatus::BadRequest,
        }
    }

    /// Converts the error into the response that reports it. The conversion
    /// cannot fail: every error has a status and a plain-text description.
    pub fn into_response(self) -> (r: Response<String>)
        ensures
            r.status == status_of(self@),
            r.body@ == message_of(self@),
            header_views(r.headers@) == error_headers(),
            forall|auto: bool| #[trigger] r.wire(auto) == error_wire(self@, auto),
    {
        let body = self.message();
        let status = self.status();
        let mut headers: Vec<HttpHeader> = Vec::new();
        headers.push(HttpHeader::ContentType("text/plain".to_owned()));
        headers.push(HttpHeader::Authorization("Bearer token".to_owned()));
        assert(header_views(headers@) =~= error_headers());
        Response::new(body, headers, status)
    }

    /// Renders the response that reports this error, with a `Content-Length`
    /// header computed from the description.
    pub fn into_bytes(self) -> (out: Vec<u8>)
        ensures
            out@ == error_wire(self@, true),
    {
        self.into_response().to_bytes()
    }
}

impl From<HttpError> for Response<String> {
    /// Converts the error into the response that reports it.
    fn from(error: HttpError) -> (r: Response<String>)
        ensures
            r.status == status_of(error@),
            r.body@ == message_of(error@),
            header_views(r.headers@) == error_headers(),
    {
        error.into_response()
    }
}

impl FromSpecImpl<HttpError> for Response<String> {
    open spec fn obeys_from_spec() -> bool {
        false
    }

    open spec fn from_spec(error: HttpError) -> Response<String> {
        arbitrary()
    }
}

impl From<HttpError> for Vec<u8> {
    /// Renders the response that reports the error.
    fn from(error: HttpError) -> (out: Vec<u8>)
        ensures
            out@ == error_wire(error@, true),
    {
        error.into_bytes()
    }
}

impl FromSpecImpl<HttpError> for Vec<u8> {
    open spec fn obeys_from_spec() -> bool {
        false
    }

    open spec fn from_spec(error: HttpError) -> Vec<u8> {
        arbitrary()
    }
}

} // verus!
