use crate::http::bytes::{colon_space, crlf, COLON, CR, LF, SP};
use crate::http::error::{ErrorView, HttpError};
use crate::http::text::str_eq;
use vstd::prelude::*;
use vstd::string::*;
use vstd::utf8::*;

verus! {

/// The names of the headers that this library recognizes.
#[derive(Debug, Clone, Copy, PartialEq, Eq, Hash, Structural)]
pub enum HeaderName {
    /// `Accept`
    Accept,
    /// `Accept-Charset`
    AcceptCharset,
    /// `Accept-Encoding`
    AcceptEncoding,
    /// `Accept-Language`
    AcceptLanguage,
    /// `Accept-Ranges`
    AcceptRanges,
    /// `Age`
    Age,
    /// `Cache-Control`
    CacheControl,
    /// `Authorization`
    Authorization,
    /// `Connection`
    Connection,
    /// `Content-Length`
    ContentLength,
    /// `Content-Range`
    ContentRange,
    /// `Content-Type`
    ContentType,
    /// `Date`
    Date,
    /// `Host`
    Host,
    /// `Pragma`
    Pragma,
    /// `User-Agent`
    UserAgent,
}

impl HeaderName {
    /// The canonical spelling of this name.
    pub open spec fn text(self) -> Seq<char> {
        match self {
            HeaderName::Accept => "Accept"@,
            HeaderName::AcceptCharset => "Accept-Charset"@,
            HeaderName::AcceptEncoding => "Accept-Encoding"@,
            HeaderName::AcceptLanguage => "Accept-Language"@,
            HeaderName::AcceptRanges => "Accept-Ranges"@,
            HeaderName::Age => "Age"@,
            HeaderName::CacheControl => "Cache-Control"@,
            HeaderName::Authorization => "Authorization"@,
            HeaderName::Connection => "Connection"@,
            HeaderName::ContentLength => "Content-Length"@,
            HeaderName::ContentRange => "Content-Range"@,
            HeaderName::ContentType => "Content-Type"@,
            HeaderName::Date => "Date"@,
            HeaderName::Host => "Host"@,
            HeaderName::Pragma => "Pragma"@,
            HeaderName::UserAgent => "User-Agent"@,
        }
    }

    /// The name that `text` spells, compared exactly and case-sensitively.
    pub open spec fn of_text(text: Seq<char>) -> Option<HeaderName> {
        if text == "Accept"@ {
            Some(HeaderName::Accept)
        } else if text == "Accept-Charset"@ {
            Some(HeaderName::AcceptCharset)
        } else if text == "Accept-Encoding"@ {
            Some(HeaderName::AcceptEncoding)
        } else if text == "Accept-Language"@ {
            Some(HeaderName::AcceptLanguage)
        } else if text == "Accept-Ranges"@ {
            Some(HeaderName::AcceptRanges)
        } else if text == "Age"@ {
            Some(HeaderName::Age)
        } else if text == "Cache-Control"@ {
            Some(HeaderName::CacheControl)
        } else if text == "Authorization"@ {
            Some(HeaderName::Authorization)
        } else if text == "Connection"@ {
            Some(HeaderName::Connection)
        } else if text == "Content-Length"@ {
            Some(HeaderName::ContentLength)
        } else if text == "Content-Range"@ {
            Some(HeaderName::ContentRange)
        } else if text == "Content-Type"@ {
            Some(HeaderName::ContentType)
        } else if text == "Date"@ {
            Some(HeaderName::Date)
        } else if text == "Host"@ {
            Some(HeaderName::Host)
        } else if text == "Pragma"@ {
            Some(HeaderName::Pragma)
        } else if text == "User-Agent"@ {
            Some(HeaderName::UserAgent)
        } else {
            None
        }
    }

    /// Returns the canonical spelling of this name.
    pub fn as_str(&self) -> (s: &'static str)
        ensures
            s@ == self.text(),
    {
        match self {
            HeaderName::Accept => "Accept",
            HeaderName::AcceptCharset => "Accept-Charset",
            HeaderName::AcceptEncoding => "Accept-Encoding",
            HeaderName::AcceptLanguage => "Accept-Language",
            HeaderName::AcceptRanges => "Accept-Ranges",
            HeaderName::Age => "Age",
            HeaderName::CacheControl => "Cache-Control",
            HeaderName::Authorization => "Authorization",
            HeaderName::Connection => "Connection",
            HeaderName::ContentLength => "Content-Length",
            HeaderName::ContentRange => "Content-Range",
            HeaderName::ContentType => "Content-Type",
            HeaderName::Date => "Date",
            HeaderName::Host => "Host",
            HeaderName::Pragma => "Pragma",
            HeaderName::UserAgent => "User-Agent",
        }
    }

    /// Recognizes a header name. The match is exact: `host` names no header.
    pub fn from_text(name: &str) -> (r: Option<HeaderName>)
        ensures
            r == HeaderName::of_text(name@),
    {
        if str_eq(name, "Accept") {
            Some(HeaderName::Accept)
        } else if str_eq(name, "Accept-Charset") {
            Some(HeaderName::AcceptCharset)
        } else if str_eq(name, "Accept-Encoding") {
            Some(HeaderName::AcceptEncoding)
        } else if str_eq(name, "Accept-Language") {
            Some(HeaderName::AcceptLanguage)
        } else if str_eq(name, "Accept-Ranges") {
            Some(HeaderName::AcceptRanges)
        } else if str_eq(name, "Age") {
            Some(HeaderName::Age)
        } else if str_eq(name, "Cache-Control") {
            Some(HeaderName::CacheControl)
        } else if str_eq(name, "Authorization") {
            Some(HeaderName::Authorization)
        } else if str_eq(name, "Connection") {
            Some(HeaderName::Connection)
        } else if str_eq(name, "Content-Length") {
            Some(HeaderName::ContentLength)
        } else if str_eq(name, "Content-Range") {
            Some(HeaderName::ContentRange)
        } else if str_eq(name, "Content-Type") {
            Some(HeaderName::ContentType)
        } else if str_eq(name, "Date") {
            Some(HeaderName::Date)
        } else if str_eq(name, "Host") {
            Some(HeaderName::Host)
        } else if str_eq(name, "Pragma") {
            Some(HeaderName::Pragma)
        } else if str_eq(name, "User-Agent") {
            Some(HeaderName::UserAgent)
        } else {
            None
        }
    }

    /// Makes the characters of every header name known to the solver.
    pub proof fn reveal_texts()
        ensures
            "Accept"@ == seq!['A', 'c', 'c', 'e', 'p', 't'],
            "Accept"@.len() == 6,
            "Accept-Charset"@ == seq!['A', 'c', 'c', 'e', 'p', 't', '-', 'C', 'h', 'a', 'r', 's', 'e', 't'],
            "Accept-Charset"@.len() == 14,
            "Accept-Encoding"@ == seq!['A', 'c', 'c', 'e', 'p', 't', '-', 'E', 'n', 'c', 'o', 'd', 'i', 'n', 'g'],
            "Accept-Encoding"@.len() == 15,
            "Accept-Language"@ == seq!['A', 'c', 'c', 'e', 'p', 't', '-', 'L', 'a', 'n', 'g', 'u', 'a', 'g', 'e'],
            "Accept-Language"@.len() == 15,
            "Accept-Ranges"@ == seq!['A', 'c', 'c', 'e', 'p', 't', '-', 'R', 'a', 'n', 'g', 'e', 's'],
            "Accept-Ranges"@.len() == 13,
            "Age"@ == seq!['A', 'g', 'e'],
            "Age"@.len() == 3,
            "Cache-Control"@ == seq!['C', 'a', 'c', 'h', 'e', '-', 'C', 'o', 'n', 't', 'r', 'o', 'l'],
            "Cache-Control"@.len() == 13,
            "Authorization"@ == seq!['A', 'u', 't', 'h', 'o', 'r', 'i', 'z', 'a', 't', 'i', 'o', 'n'],
            "Authorization"@.len() == 13,
            "Connection"@ == seq!['C', 'o', 'n', 'n', 'e', 'c', 't', 'i', 'o', 'n'],
            "Connection"@.len() == 10,
            "Content-Length"@ == seq!['C', 'o', 'n', 't', 'e', 'n', 't', '-', 'L', 'e', 'n', 'g', 't', 'h'],
            "Content-Length"@.len() == 14,
            "Content-Range"@ == seq!['C', 'o', 'n', 't', 'e', 'n', 't', '-', 'R', 'a', 'n', 'g', 'e'],
            "Content-Range"@.len() == 13,
            "Content-Type"@ == seq!['C', 'o', 'n', 't', 'e', 'n', 't', '-', 'T', 'y', 'p', 'e'],
            "Content-Type"@.len() == 12,
            "Date"@ == seq!['D', 'a', 't', 'e'],
            "Date"@.len() == 4,
            "Host"@ == seq!['H', 'o', 's', 't'],
            "Host"@.len() == 4,
            "Pragma"@ == seq!['P', 'r', 'a', 'g', 'm', 'a'],
            "Pragma"@.len() == 6,
            "User-Agent"@ == seq!['U', 's', 'e', 'r', '-', 'A', 'g', 'e', 'n', 't'],
            "User-Agent"@.len() == 10,
    {
        reveal_strlit("Accept");
        reveal_strlit("Accept-Charset");
        reveal_strlit("Accept-Encoding");
        reveal_strlit("Accept-Language");
        reveal_strlit("Accept-Ranges");
        reveal_strlit("Age");
        reveal_strlit("Cache-Control");
        reveal_strlit("Authorization");
        reveal_strlit("Connection");
        reveal_strlit("Content-Length");
        reveal_strlit("Content-Range");
        reveal_strlit("Content-Type");
        reveal_strlit("Date");
        reveal_strlit("Host");
        reveal_strlit("Pragma");
        reveal_strlit("User-Agent");
        assert("Accept"@ =~= seq!['A', 'c', 'c', 'e', 'p', 't']);
        assert("Accept-Charset"@ =~= seq!['A', 'c', 'c', 'e', 'p', 't', '-', 'C', 'h', 'a', 'r', 's', 'e', 't']);
        assert("Accept-Encoding"@ =~= seq!['A', 'c', 'c', 'e', 'p', 't', '-', 'E', 'n', 'c', 'o', 'd', 'i', 'n', 'g']);
        assert("Accept-Language"@ =~= seq!['A', 'c', 'c', 'e', 'p', 't', '-', 'L', 'a', 'n', 'g', 'u', 'a', 'g', 'e']);
        assert("Accept-Ranges"@ =~= seq!['A', 'c', 'c', 'e', 'p', 't', '-', 'R', 'a', 'n', 'g', 'e', 's']);
        assert("Age"@ =~= seq!['A', 'g', 'e']);
        assert("Cache-Control"@ =~= seq!['C', 'a', 'c', 'h', 'e', '-', 'C', 'o', 'n', 't', 'r', 'o', 'l']);
        assert("Authorization"@ =~= seq!['A', 'u', 't', 'h', 'o', 'r', 'i', 'z', 'a', 't', 'i', 'o', 'n']);
        assert("Connection"@ =~= seq!['C', 'o', 'n', 'n', 'e', 'c', 't', 'i', 'o', 'n']);
        assert("Content-Length"@ =~= seq!['C', 'o', 'n', 't', 'e', 'n', 't', '-', 'L', 'e', 'n', 'g', 't', 'h']);
        assert("Content-Range"@ =~= seq!['C', 'o', 'n', 't', 'e', 'n', 't', '-', 'R', 'a', 'n', 'g', 'e']);
        assert("Content-Type"@ =~= seq!['C', 'o', 'n', 't', 'e', 'n', 't', '-', 'T', 'y', 'p', 'e']);
        assert("Date"@ =~= seq!['D', 'a', 't', 'e']);
        assert("Host"@ =~= seq!['H', 'o', 's', 't']);
        assert("Pragma"@ =~= seq!['P', 'r', 'a', 'g', 'm', 'a']);
        assert("User-Agent"@ =~= seq!['U', 's', 'e', 'r', '-', 'A', 'g', 'e', 'n', 't']);
    }

    /// Every name is recognized by its own spelling, and by no other's.
    pub proof fn law_text_round_trip(n: HeaderName)
        ensures
            HeaderName::of_text(n.text()) == Some(n),
    {
        HeaderName::reveal_texts();
        let t = n.text();
        match n {
            HeaderName::Accept => {
                assert(t.len() == 6);
            },
            HeaderName::AcceptCharset => {
                assert(t.len() == 14);
            },
            HeaderName::AcceptEncoding => {
                assert(t.len() == 15);
            },
            HeaderName::AcceptLanguage => {
                assert(t.len() == 15);
                assert(t[7] == 'L');
            },
            HeaderName::AcceptRanges => {
                assert(t.len() == 13);
            },
            HeaderName::Age => {
                assert(t.len() == 3);
            },
            HeaderName::CacheControl => {
                assert(t.len() == 13);
                assert(t[0] == 'C');
            },
            HeaderName::Authorization => {
                assert(t.len() == 13);
                assert(t[0] == 'A');
                assert(t[1] == 'u');
            },
            HeaderName::Connection => {
                assert(t.len() == 10);
            },
            HeaderName::ContentLength => {
                assert(t.len() == 14);
                assert(t[0] == 'C');
            },
            HeaderName::ContentRange => {
                assert(t.len() == 13);
                assert(t[0] == 'C');
                assert(t[1] == 'o');
            },
            HeaderName::ContentType => {
                assert(t.len() == 12);
            },
            HeaderName::Date => {
                assert(t.len() == 4);
            },
            HeaderName::Host => {
                assert(t.len() == 4);
                assert(t[0] == 'H');
            },
            HeaderName::Pragma => {
                assert(t.len() == 6);
                assert(t[0] == 'P');
            },
            HeaderName::UserAgent => {
                assert(t.len() == 10);
                assert(t[0] == 'U');
            },
        }
    }
}

/// The model of a header: its name and the text of its value.
pub struct HeaderView {
    pub name: HeaderName,
    pub value: Seq<char>,
}

/// A header of an HTTP message: one of the recognized names, with its value.
/// The value is opaque text; its syntax is not checked.
#[derive(Debug, PartialEq, Eq)]
pub enum HttpHeader {
    /// The `Accept` header.
    Accept(String),
    /// The `Accept-Charset` header.
    AcceptCharset(String),
    /// The `Accept-Encoding` header.
    AcceptEncoding(String),
    /// The `Accept-Language` header.
    AcceptLanguage(String),
    /// The `Accept-Ranges` header.
    AcceptRanges(String),
    /// The `Age` header.
    Age(String),
    /// The `Cache-Control` header.
    CacheControl(String),
    /// The `Authorization` header.
    Authorization(String),
    /// The `Connection` header.
    Connection(String),
    /// The `Content-Length` header.
    ContentLength(String),
    /// The `Content-Range` header.
    ContentRange(String),
    /// The `Content-Type` header.
    ContentType(String),
    /// The `Date` header.
    Date(String),
    /// The `Host` header.
    Host(String),
    /// The `Pragma` header.
    Pragma(String),
    /// The `User-Agent` header.
    UserAgent(String),
}

impl View for HttpHeader {
    type V = HeaderView;

    open spec fn view(&self) -> HeaderView {
        match self {
            HttpHeader::Accept(value) => HeaderView { name: HeaderName::Accept, value: value@ },
            HttpHeader::AcceptCharset(value) => HeaderView { name: HeaderName::AcceptCharset, value: value@ },
            HttpHeader::AcceptEncoding(value) => HeaderView { name: HeaderName::AcceptEncoding, value: value@ },
            HttpHeader::AcceptLanguage(value) => HeaderView { name: HeaderName::AcceptLanguage, value: value@ },
            HttpHeader::AcceptRanges(value) => HeaderView { name: HeaderName::AcceptRanges, value: value@ },
            HttpHeader::Age(value) => HeaderView { name: HeaderName::Age, value: value@ },
            HttpHeader::CacheControl(value) => HeaderView { name: HeaderName::CacheControl, value: value@ },
            HttpHeader::Authorization(value) => HeaderView { name: HeaderName::Authorization, value: value@ },
            HttpHeader::Connection(value) => HeaderView { name: HeaderName::Connection, value: value@ },
            HttpHeader::ContentLength(value) => HeaderView { name: HeaderName::ContentLength, value: value@ },
            HttpHeader::ContentRange(value) => HeaderView { name: HeaderName::ContentRange, value: value@ },
            HttpHeader::ContentType(value) => HeaderView { name: HeaderName::ContentType, value: value@ },
            HttpHeader::Date(value) => HeaderView { name: HeaderName::Date, value: value@ },
            HttpHeader::Host(value) => HeaderView { name: HeaderName::Host, value: value@ },
            HttpHeader::Pragma(value) => HeaderView { name: HeaderName::Pragma, value: value@ },
            HttpHeader::UserAgent(value) => HeaderView { name: HeaderName::UserAgent, value: value@ },
        }
    }
}

impl HttpHeader {
    /// Builds the header called `name` with the given value.
    pub fn from_parts(name: HeaderName, value: String) -> (h: HttpHeader)
        ensures
            h@ == (HeaderView { name, value: value@ }),
    {
        match name {
            HeaderName::Accept => HttpHeader::Accept(value),
            HeaderName::AcceptCharset => HttpHeader::AcceptCharset(value),
            HeaderName::AcceptEncoding => HttpHeader::AcceptEncoding(value),
            HeaderName::AcceptLanguage => HttpHeader::AcceptLanguage(value),
            HeaderName::AcceptRanges => HttpHeader::AcceptRanges(value),
            HeaderName::Age => HttpHeader::Age(value),
            HeaderName::CacheControl => HttpHeader::CacheControl(value),
            HeaderName::Authorization => HttpHeader::Authorization(value),
            HeaderName::Connection => HttpHeader::Connection(value),
            HeaderName::ContentLength => HttpHeader::ContentLength(value),
            HeaderName::ContentRange => HttpHeader::ContentRange(value),
            HeaderName::ContentType => HttpHeader::ContentType(value),
            HeaderName::Date => HttpHeader::Date(value),
            HeaderName::Host => HttpHeader::Host(value),
            HeaderName::Pragma => HttpHeader::Pragma(value),
            HeaderName::UserAgent => HttpHeader::UserAgent(value),
        }
    }

    /// Returns which header this is.
    pub fn kind(&self) -> (n: HeaderName)
        ensures
            n == self@.name,
    {
        match self {
            HttpHeader::Accept(_) => HeaderName::Accept,
            HttpHeader::AcceptCharset(_) => HeaderName::AcceptCharset,
            HttpHeader::AcceptEncoding(_) => HeaderName::AcceptEncoding,
            HttpHeader::AcceptLanguage(_) => HeaderName::AcceptLanguage,
            HttpHeader::AcceptRanges(_) => HeaderName::AcceptRanges,
            HttpHeader::Age(_) => HeaderName::Age,
            HttpHeader::CacheControl(_) => HeaderName::CacheControl,
            HttpHeader::Authorization(_) => HeaderName::Authorization,
            HttpHeader::Connection(_) => HeaderName::Connection,
            HttpHeader::ContentLength(_) => HeaderName::ContentLength,
            HttpHeader::ContentRange(_) => HeaderName::ContentRange,
            HttpHeader::ContentType(_) => HeaderName::ContentType,
            HttpHeader::Date(_) => HeaderName::Date,
            HttpHeader::Host(_) => HeaderName::Host,
            HttpHeader::Pragma(_) => HeaderName::Pragma,
            HttpHeader::UserAgent(_) => HeaderName::UserAgent,
        }
    }

    /// Borrows the value of the header.
    pub fn value_str(&self) -> (v: &str)
        ensures
            v@ == self@.value,
    {
        match self {
            HttpHeader::Accept(value) => value.as_str(),
            HttpHeader::AcceptCharset(value) => value.as_str(),
            HttpHeader::AcceptEncoding(value) => value.as_str(),
            HttpHeader::AcceptLanguage(value) => value.as_str(),
            HttpHeader::AcceptRanges(value) => value.as_str(),
            HttpHeader::Age(value) => value.as_str(),
            HttpHeader::CacheControl(value) => value.as_str(),
            HttpHeader::Authorization(value) => value.as_str(),
            HttpHeader::Connection(value) => value.as_str(),
            HttpHeader::ContentLength(value) => value.as_str(),
            HttpHeader::ContentRange(value) => value.as_str(),
            HttpHeader::ContentType(value) => value.as_str(),
            HttpHeader::Date(value) => value.as_str(),
            HttpHeader::Host(value) => value.as_str(),
            HttpHeader::Pragma(value) => value.as_str(),
            HttpHeader::UserAgent(value) => value.as_str(),
        }
    }

    /// Creates the header called `name` with the given value. The name must be
    /// the canonical spelling of a recognized header; the value is taken as it
    /// is.
    pub fn new(name: &str, value: &str) -> (r: Result<HttpHeader, HttpError>)
        ensures
            match HeaderName::of_text(name@) {
                Some(n) => r matches Ok(h) && h@ == (HeaderView { name: n, value: value@ }),
                None => r matches Err(e) && e@ == ErrorView::UnknownHeader(name@),
            },
    {
        match HeaderName::from_text(name) {
            Some(n) => Ok(HttpHeader::from_parts(n, value.to_owned())),
            None => Err(HttpError::UnknownHeader(name.to_owned())),
        }
    }

    /// Returns the canonical name of the header.
    #[must_use]
    pub fn name(&self) -> (r: String)
        ensures
            r@ == self@.name.text(),
    {
        self.kind().as_str().to_owned()
    }

    /// Returns the value of the header.
    #[must_use]
    pub fn value(&self) -> (r: String)
        ensures
            r@ == self@.value,
    {
        self.value_str().to_owned()
    }

    /// Returns the header as it is written in a message: `Name: value`.
    #[must_use]
    pub fn line(&self) -> (r: String)
        ensures
            r@ == self@.name.text() + ": "@ + self@.value,
    {
        self.name().concat(": ").concat(self.value_str())
    }

    /// Appends the header's line, `Name: value` and a line ending, to `out`.
    pub fn write_to(&self, out: &mut Vec<u8>)
        ensures
            final(out)@ == old(out)@ + header_line(self@) + crlf(),
    {
        out.extend_from_slice(self.kind().as_str().as_bytes());
        out.push(COLON);
        out.push(SP);
        out.extend_from_slice(self.value_str().as_bytes());
        out.push(CR);
        out.push(LF);
        assert(out@ =~= old(out)@ + header_line(self@) + crlf());
    }
}

impl Clone for HttpHeader {
    fn clone(&self) -> (r: HttpHeader)
        ensures
            r@ == self@,
    {
        HttpHeader::from_parts(self.kind(), self.value())
    }
}

/// The bytes of a header's line, without the line ending.
pub open spec fn header_line(h: HeaderView) -> Seq<u8> {
    encode_utf8(h.name.text()) + colon_space() + encode_utf8(h.value)
}

/// The model of all the headers in `headers`, in order.
pub open spec fn header_views(headers: Seq<HttpHeader>) -> Seq<HeaderView> {
    Seq::new(headers.len(), |i: int| headers[i]@)
}

} // verus!
