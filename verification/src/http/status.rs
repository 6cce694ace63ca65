use vstd::prelude::*;
use vstd::std_specs::convert::FromSpecImpl;

verus! {

/// The status codes of HTTP responses.
#[derive(Debug, Clone, Copy, PartialEq, Eq, Hash, Structural)]
pub enum HttpStatus {
    /// `100 Continue`
    Continue,
    /// `101 Switching Protocols`
    SwitchingProtocols,
    /// `102 Processing`
    Processing,
    /// `103 Early Hints`
    EarlyHints,
    /// `200 Ok`
    OK,
    /// `201 Created`
    Created,
    /// `202 Accepted`
    Accepted,
    /// `203 Non-Authoritative Information`
    NonAuthoritativeInformation,
    /// `204 No Content`
    NoContent,
    /// `205 Reset Content`
    ResetContent,
    /// `206 Partial Content`
    PartialContent,
    /// `207 Multi-Status`
    MultiStatus,
    /// `208 Already Reported`
    AlreadyReported,
    /// `226 IM Used`
    IMUsed,
    /// `300 Multiple Choices`
    MultipleChoices,
    /// `301 Moved Permanently`
    MovedPermanently,
    /// `302 Found`
    Found,
    /// `304 Not Modified`
    NotModified,
    /// `305 Use Proxy`
    UseProxy,
    /// `306 Unused`
    Unused,
    /// `307 Temporary Redirect`
    TemporaryRedirect,
    /// `308 Permanent Redirect`
    PermanentRedirect,
    /// `400 Bad Request`
    BadRequest,
    /// `401 Unauthorized`
    Unauthorized,
    /// `402 Payment Required`
    PaymentRequired,
    /// `403 Forbidden`
    Forbidden,
    /// `404 Not Found`
    NotFound,
    /// `405 Method Not Allowed`
    MethodNotAllowed,
    /// `406 Not Acceptable`
    NotAcceptable,
    /// `407 Proxy Authentication Required`
    ProxyAuthenticationRequired,
    /// `408 Request Timeout`
    RequestTimeout,
    /// `409 Conflict`
    Conflict,
    /// `410 Gone`
    Gone,
    /// `411 Length Required`
    LengthRequired,
    /// `412 Precondition Failed`
    PreconditionFailed,
    /// `413 Payload Too Large`
    PayloadTooLarge,
    /// `414 URI Too Long`
    URITooLong,
    /// `415 Unsupported Media Type`
    UnsupportedMediaType,
    /// `416 Range not Satisfiable`
    RangeNotSatisfiable,
    /// `417 Expectation Failed`
    ExpectationFailed,
    /// `418 I'm a teapot`
    Teapot,
    /// `421 Misdirected Request`
    MisdirectedRequest,
    /// `422 Unprocessable Entity`
    UnprocessableEntity,
    /// `423 Locked`
    Locked,
    /// `424 Failed Dependency`
    FailedDependency,
    /// `425 Too Early`
    TooEarly,
    /// `426 Upgrade Required`
    UpgradeRequired,
    /// `428 Precondition Required`
    PreconditionRequired,
    /// `429 Too Many Requests`
    TooManyRequests,
    /// `431 Request Header Fields Too Large`
    RequestHeaderFieldsTooLarge,
    /// `451 Unavailable For Legal Reasons`
    UnavailableForLegalReasons,
    /// `500 Internal Server Error`
    InternalServerError,
    /// `501 Not Implemented`
    NotImplemented,
    /// `502 Bad Gateway`
    BadGateway,
    /// `503 Service Unavailable`
    ServiceUnavailable,
    /// `504 Gateway Timeout`
    GatewayTimeout,
    /// `505 HTTP Version not Supported`
    HttpVersionNotSupported,
    /// `506 Variant Also Negotiates`
    VariantAlsoNegotiates,
    /// `507 Insufficient Storage`
    InsufficientStorage,
    /// `508 Loop Detected`
    LoopDetected,
    /// `510 Not Extended`
    NotExtended,
    /// `511 Network Authentication Required`
    NetworkAuthenticationRequired,
}

impl HttpStatus {
    /// The numeric code of this status.
    pub open spec fn code_of(self) -> u16 {
        match self {
            HttpStatus::Continue => 100,
            HttpStatus::SwitchingProtocols => 101,
            HttpStatus::Processing => 102,
            HttpStatus::EarlyHints => 103,
            HttpStatus::OK => 200,
            HttpStatus::Created => 201,
            HttpStatus::Accepted => 202,
            HttpStatus::NonAuthoritativeInformation => 203,
            HttpStatus::NoContent => 204,
            HttpStatus::ResetContent => 205,
            HttpStatus::PartialContent => 206,
            HttpStatus::MultiStatus => 207,
            HttpStatus::AlreadyReported => 208,
            HttpStatus::IMUsed => 226,
            HttpStatus::MultipleChoices => 300,
            HttpStatus::MovedPermanently => 301,
            HttpStatus::Found => 302,
            HttpStatus::NotModified => 304,
            HttpStatus::UseProxy => 305,
            HttpStatus::Unused => 306,
            HttpStatus::TemporaryRedirect => 307,
            HttpStatus::PermanentRedirect => 308,
            HttpStatus::BadRequest => 400,
            HttpStatus::Unauthorized => 401,
            HttpStatus::PaymentRequired => 402,
            HttpStatus::Forbidden => 403,
            HttpStatus::NotFound => 404,
            HttpStatus::MethodNotAllowed => 405,
            HttpStatus::NotAcceptable => 406,
            HttpStatus::ProxyAuthenticationRequired => 407,
            HttpStatus::RequestTimeout => 408,
            HttpStatus::Conflict => 409,
            HttpStatus::Gone => 410,
            HttpStatus::LengthRequired => 411,
            HttpStatus::PreconditionFailed => 412,
            HttpStatus::PayloadTooLarge => 413,
            HttpStatus::URITooLong => 414,
            HttpStatus::UnsupportedMediaType => 415,
            HttpStatus::RangeNotSatisfiable => 416,
            HttpStatus::ExpectationFailed => 417,
            HttpStatus::Teapot => 418,
            HttpStatus::MisdirectedRequest => 421,
            HttpStatus::UnprocessableEntity => 422,
            HttpStatus::Locked => 423,
            HttpStatus::FailedDependency => 424,
            HttpStatus::TooEarly => 425,
            HttpStatus::UpgradeRequired => 426,
            HttpStatus::PreconditionRequired => 428,
            HttpStatus::TooManyRequests => 429,
            HttpStatus::RequestHeaderFieldsTooLarge => 431,
            HttpStatus::UnavailableForLegalReasons => 451,
            HttpStatus::InternalServerError => 500,
            HttpStatus::NotImplemented => 501,
            HttpStatus::BadGateway => 502,
            HttpStatus::ServiceUnavailable => 503,
            HttpStatus::GatewayTimeout => 504,
            HttpStatus::HttpVersionNotSupported => 505,
            HttpStatus::VariantAlsoNegotiates => 506,
            HttpStatus::InsufficientStorage => 507,
            HttpStatus::LoopDetected => 508,
            HttpStatus::NotExtended => 510,
            HttpStatus::NetworkAuthenticationRequired => 511,
        }
    }

    /// The canonical reason phrase of this status.
    pub open spec fn reason(self) -> Seq<char> {
        match self {
            HttpStatus::Continue => "Continue"@,
            HttpStatus::SwitchingProtocols => "Switching Protocols"@,
            HttpStatus::Processing => "Processing"@,
            HttpStatus::EarlyHints => "Early Hints"@,
            HttpStatus::OK => "Ok"@,
            HttpStatus::Created => "Created"@,
            HttpStatus::Accepted => "Accepted"@,
            HttpStatus::NonAuthoritativeInformation => "Non-Authoritative Information"@,
            HttpStatus::NoContent => "No Content"@,
            HttpStatus::ResetContent => "Reset Content"@,
            HttpStatus::PartialContent => "Partial Content"@,
            HttpStatus::MultiStatus => "Multi-Status"@,
            HttpStatus::AlreadyReported => "Already Reported"@,
            HttpStatus::IMUsed => "IM Used"@,
            HttpStatus::MultipleChoices => "Multiple Choices"@,
            HttpStatus::MovedPermanently => "Moved Permanently"@,
            HttpStatus::Found => "Found"@,
            HttpStatus::NotModified => "Not Modified"@,
            HttpStatus::UseProxy => "Use Proxy"@,
            HttpStatus::Unused => "Unused"@,
            HttpStatus::TemporaryRedirect => "Temporary Redirect"@,
            HttpStatus::PermanentRedirect => "Permanent Redirect"@,
            HttpStatus::BadRequest => "Bad Request"@,
            HttpStatus::Unauthorized => "Unauthorized"@,
            HttpStatus::PaymentRequired => "Payment Required"@,
            HttpStatus::Forbidden => "Forbidden"@,
            HttpStatus::NotFound => "Not Found"@,
            HttpStatus::MethodNotAllowed => "Method Not Allowed"@,
            HttpStatus::NotAcceptable => "Not Acceptable"@,
            HttpStatus::ProxyAuthenticationRequired => "Proxy Authentication Required"@,
            HttpStatus::RequestTimeout => "Request Timeout"@,
            HttpStatus::Conflict => "Conflict"@,
            HttpStatus::Gone => "Gone"@,
            HttpStatus::LengthRequired => "Length Required"@,
            HttpStatus::PreconditionFailed => "Precondition Failed"@,
            HttpStatus::PayloadTooLarge => "Payload Too Large"@,
            HttpStatus::URITooLong => "URI Too Long"@,
            HttpStatus::UnsupportedMediaType => "Unsupported Media Type"@,
            HttpStatus::RangeNotSatisfiable => "Range not Satisfiable"@,
            HttpStatus::ExpectationFailed => "Expectation Failed"@,
            HttpStatus::Teapot => "I'm a teapot"@,
            HttpStatus::MisdirectedRequest => "Misdirected Request"@,
            HttpStatus::UnprocessableEntity => "Unprocessable Entity"@,
            HttpStatus::Locked => "Locked"@,
            HttpStatus::FailedDependency => "Failed Dependency"@,
            HttpStatus::TooEarly => "Too Early"@,
            HttpStatus::UpgradeRequired => "Upgrade Required"@,
            HttpStatus::PreconditionRequired => "Precondition Required"@,
            HttpStatus::TooManyRequests => "Too Many Requests"@,
            HttpStatus::RequestHeaderFieldsTooLarge => "Request Header Fields Too Large"@,
            HttpStatus::UnavailableForLegalReasons => "Unavailable For Legal Reasons"@,
            HttpStatus::InternalServerError => "Internal Server Error"@,
            HttpStatus::NotImplemented => "Not Implemented"@,
            HttpStatus::BadGateway => "Bad Gateway"@,
            HttpStatus::ServiceUnavailable => "Service Unavailable"@,
            HttpStatus::GatewayTimeout => "Gateway Timeout"@,
            HttpStatus::HttpVersionNotSupported => "HTTP Version not Supported"@,
            HttpStatus::VariantAlsoNegotiates => "Variant Also Negotiates"@,
            HttpStatus::InsufficientStorage => "Insufficient Storage"@,
            HttpStatus::LoopDetected => "Loop Detected"@,
            HttpStatus::NotExtended => "Not Extended"@,
            HttpStatus::NetworkAuthenticationRequired => "Network Authentication Required"@,
        }
    }

    /// The status that carries the numeric code `code`, if there is one.
    pub open spec fn of_code(code: u16) -> Option<HttpStatus> {
        match code {
            100 => Some(HttpStatus::Continue),
            101 => Some(HttpStatus::SwitchingProtocols),
            102 => Some(HttpStatus::Processing),
            103 => Some(HttpStatus::EarlyHints),
            200 => Some(HttpStatus::OK),
            201 => Some(HttpStatus::Created),
            202 => Some(HttpStatus::Accepted),
            203 => Some(HttpStatus::NonAuthoritativeInformation),
            204 => Some(HttpStatus::NoContent),
            205 => Some(HttpStatus::ResetContent),
            206 => Some(HttpStatus::PartialContent),
            207 => Some(HttpStatus::MultiStatus),
            208 => Some(HttpStatus::AlreadyReported),
            226 => Some(HttpStatus::IMUsed),
            300 => Some(HttpStatus::MultipleChoices),
            301 => Some(HttpStatus::MovedPermanently),
            302 => Some(HttpStatus::Found),
            304 => Some(HttpStatus::NotModified),
            305 => Some(HttpStatus::UseProxy),
            306 => Some(HttpStatus::Unused),
            307 => Some(HttpStatus::TemporaryRedirect),
            308 => Some(HttpStatus::PermanentRedirect),
            400 => Some(HttpStatus::BadRequest),
            401 => Some(HttpStatus::Unauthorized),
            402 => Some(HttpStatus::PaymentRequired),
            403 => Some(HttpStatus::Forbidden),
            404 => Some(HttpStatus::NotFound),
            405 => Some(HttpStatus::MethodNotAllowed),
            406 => Some(HttpStatus::NotAcceptable),
            407 => Some(HttpStatus::ProxyAuthenticationRequired),
            408 => Some(HttpStatus::RequestTimeout),
            409 => Some(HttpStatus::Conflict),
            410 => Some(HttpStatus::Gone),
            411 => Some(HttpStatus::LengthRequired),
            412 => Some(HttpStatus::PreconditionFailed),
            413 => Some(HttpStatus::PayloadTooLarge),
            414 => Some(HttpStatus::URITooLong),
            415 => Some(HttpStatus::UnsupportedMediaType),
            416 => Some(HttpStatus::RangeNotSatisfiable),
            417 => Some(HttpStatus::ExpectationFailed),
            418 => Some(HttpStatus::Teapot),
            421 => Some(HttpStatus::MisdirectedRequest),
            422 => Some(HttpStatus::UnprocessableEntity),
            423 => Some(HttpStatus::Locked),
            424 => Some(HttpStatus::FailedDependency),
            425 => Some(HttpStatus::TooEarly),
            426 => Some(HttpStatus::UpgradeRequired),
            428 => Some(HttpStatus::PreconditionRequired),
            429 => Some(HttpStatus::TooManyRequests),
            431 => Some(HttpStatus::RequestHeaderFieldsTooLarge),
            451 => Some(HttpStatus::UnavailableForLegalReasons),
            500 => Some(HttpStatus::InternalServerError),
            501 => Some(HttpStatus::NotImplemented),
            502 => Some(HttpStatus::BadGateway),
            503 => Some(HttpStatus::ServiceUnavailable),
            504 => Some(HttpStatus::GatewayTimeout),
            505 => Some(HttpStatus::HttpVersionNotSupported),
            506 => Some(HttpStatus::VariantAlsoNegotiates),
            507 => Some(HttpStatus::InsufficientStorage),
            508 => Some(HttpStatus::LoopDetected),
            510 => Some(HttpStatus::NotExtended),
            511 => Some(HttpStatus::NetworkAuthenticationRequired),
            _ => None,
        }
    }

    /// Returns the numeric code of this status.
    pub fn code(&self) -> (c: u16)
        ensures
            c == self.code_of(),
            100 <= c <= 999,
    {
        match self {
            HttpStatus::Continue => 100,
            HttpStatus::SwitchingProtocols => 101,
            HttpStatus::Processing => 102,
            HttpStatus::EarlyHints => 103,
            HttpStatus::OK => 200,
            HttpStatus::Created => 201,
            HttpStatus::Accepted => 202,
            HttpStatus::NonAuthoritativeInformation => 203,
            HttpStatus::NoContent => 204,
            HttpStatus::ResetContent => 205,
            HttpStatus::PartialContent => 206,
            HttpStatus::MultiStatus => 207,
            HttpStatus::AlreadyReported => 208,
            HttpStatus::IMUsed => 226,
            HttpStatus::MultipleChoices => 300,
            HttpStatus::MovedPermanently => 301,
            HttpStatus::Found => 302,
            HttpStatus::NotModified => 304,
            HttpStatus::UseProxy => 305,
            HttpStatus::Unused => 306,
            HttpStatus::TemporaryRedirect => 307,
            HttpStatus::PermanentRedirect => 308,
            HttpStatus::BadRequest => 400,
            HttpStatus::Unauthorized => 401,
            HttpStatus::PaymentRequired => 402,
            HttpStatus::Forbidden => 403,
            HttpStatus::NotFound => 404,
            HttpStatus::MethodNotAllowed => 405,
            HttpStatus::NotAcceptable => 406,
            HttpStatus::ProxyAuthenticationRequired => 407,
            HttpStatus::RequestTimeout => 408,
            HttpStatus::Conflict => 409,
            HttpStatus::Gone => 410,
            HttpStatus::LengthRequired => 411,
            HttpStatus::PreconditionFailed => 412,
            HttpStatus::PayloadTooLarge => 413,
            HttpStatus::URITooLong => 414,
            HttpStatus::UnsupportedMediaType => 415,
            HttpStatus::RangeNotSatisfiable => 416,
            HttpStatus::ExpectationFailed => 417,
            HttpStatus::Teapot => 418,
            HttpStatus::MisdirectedRequest => 421,
            HttpStatus::UnprocessableEntity => 422,
            HttpStatus::Locked => 423,
            HttpStatus::FailedDependency => 424,
            HttpStatus::TooEarly => 425,
            HttpStatus::UpgradeRequired => 426,
            HttpStatus::PreconditionRequired => 428,
            HttpStatus::TooManyRequests => 429,
            HttpStatus::RequestHeaderFieldsTooLarge => 431,
            HttpStatus::UnavailableForLegalReasons => 451,
            HttpStatus::InternalServerError => 500,
            HttpStatus::NotImplemented => 501,
            HttpStatus::BadGateway => 502,
            HttpStatus::ServiceUnavailable => 503,
            HttpStatus::GatewayTimeout => 504,
            HttpStatus::HttpVersionNotSupported => 505,
            HttpStatus::VariantAlsoNegotiates => 506,
            HttpStatus::InsufficientStorage => 507,
            HttpStatus::LoopDetected => 508,
            HttpStatus::NotExtended => 510,
            HttpStatus::NetworkAuthenticationRequired => 511,
        }
    }

    /// Returns the canonical reason phrase of this status.
    pub fn reason_phrase(&self) -> (s: &'static str)
        ensures
            s@ == self.reason(),
    {
        match self {
            HttpStatus::Continue => "Continue",
            HttpStatus::SwitchingProtocols => "Switching Protocols",
            HttpStatus::Processing => "Processing",
            HttpStatus::EarlyHints => "Early Hints",
            HttpStatus::OK => "Ok",
            HttpStatus::Created => "Created",
            HttpStatus::Accepted => "Accepted",
            HttpStatus::NonAuthoritativeInformation => "Non-Authoritative Information",
            HttpStatus::NoContent => "No Content",
            HttpStatus::ResetContent => "Reset Content",
            HttpStatus::PartialContent => "Partial Content",
            HttpStatus::MultiStatus => "Multi-Status",
            HttpStatus::AlreadyReported => "Already Reported",
            HttpStatus::IMUsed => "IM Used",
            HttpStatus::MultipleChoices => "Multiple Choices",
            HttpStatus::MovedPermanently => "Moved Permanently",
            HttpStatus::Found => "Found",
            HttpStatus::NotModified => "Not Modified",
            HttpStatus::UseProxy => "Use Proxy",
            HttpStatus::Unused => "Unused",
            HttpStatus::TemporaryRedirect => "Temporary Redirect",
            HttpStatus::PermanentRedirect => "Permanent Redirect",
            HttpStatus::BadRequest => "Bad Request",
            HttpStatus::Unauthorized => "Unauthorized",
            HttpStatus::PaymentRequired => "Payment Required",
            HttpStatus::Forbidden => "Forbidden",
            HttpStatus::NotFound => "Not Found",
            HttpStatus::MethodNotAllowed => "Method Not Allowed",
            HttpStatus::NotAcceptable => "Not Acceptable",
            HttpStatus::ProxyAuthenticationRequired => "Proxy Authentication Required",
            HttpStatus::RequestTimeout => "Request Timeout",
            HttpStatus::Conflict => "Conflict",
            HttpStatus::Gone => "Gone",
            HttpStatus::LengthRequired => "Length Required",
            HttpStatus::PreconditionFailed => "Precondition Failed",
            HttpStatus::PayloadTooLarge => "Payload Too Large",
            HttpStatus::URITooLong => "URI Too Long",
            HttpStatus::UnsupportedMediaType => "Unsupported Media Type",
            HttpStatus::RangeNotSatisfiable => "Range not Satisfiable",
            HttpStatus::ExpectationFailed => "Expectation Failed",
            HttpStatus::Teapot => "I'm a teapot",
            HttpStatus::MisdirectedRequest => "Misdirected Request",
            HttpStatus::UnprocessableEntity => "Unprocessable Entity",
            HttpStatus::Locked => "Locked",
            HttpStatus::FailedDependency => "Failed Dependency",
            HttpStatus::TooEarly => "Too Early",
            HttpStatus::UpgradeRequired => "Upgrade Required",
            HttpStatus::PreconditionRequired => "Precondition Required",
            HttpStatus::TooManyRequests => "Too Many Requests",
            HttpStatus::RequestHeaderFieldsTooLarge => "Request Header Fields Too Large",
            HttpStatus::UnavailableForLegalReasons => "Unavailable For Legal Reasons",
            HttpStatus::InternalServerError => "Internal Server Error",
            HttpStatus::NotImplemented => "Not Implemented",
            HttpStatus::BadGateway => "Bad Gateway",
            HttpStatus::ServiceUnavailable => "Service Unavailable",
            HttpStatus::GatewayTimeout => "Gateway Timeout",
            HttpStatus::HttpVersionNotSupported => "HTTP Version not Supported",
            HttpStatus::VariantAlsoNegotiates => "Variant Also Negotiates",
            HttpStatus::InsufficientStorage => "Insufficient Storage",
            HttpStatus::LoopDetected => "Loop Detected",
            HttpStatus::NotExtended => "Not Extended",
            HttpStatus::NetworkAuthenticationRequired => "Network Authentication Required",
        }
    }

    /// Looks a status up by its numeric code.
    pub fn from_code(code: u16) -> (r: Option<HttpStatus>)
        ensures
            r == HttpStatus::of_code(code),
    {
        match code {
            100 => Some(HttpStatus::Continue),
            101 => Some(HttpStatus::SwitchingProtocols),
            102 => Some(HttpStatus::Processing),
            103 => Some(HttpStatus::EarlyHints),
            200 => Some(HttpStatus::OK),
            201 => Some(HttpStatus::Created),
            202 => Some(HttpStatus::Accepted),
            203 => Some(HttpStatus::NonAuthoritativeInformation),
            204 => Some(HttpStatus::NoContent),
            205 => Some(HttpStatus::ResetContent),
            206 => Some(HttpStatus::PartialContent),
            207 => Some(HttpStatus::MultiStatus),
            208 => Some(HttpStatus::AlreadyReported),
            226 => Some(HttpStatus::IMUsed),
            300 => Some(HttpStatus::MultipleChoices),
            301 => Some(HttpStatus::MovedPermanently),
            302 => Some(HttpStatus::Found),
            304 => Some(HttpStatus::NotModified),
            305 => Some(HttpStatus::UseProxy),
            306 => Some(HttpStatus::Unused),
            307 => Some(HttpStatus::TemporaryRedirect),
            308 => Some(HttpStatus::PermanentRedirect),
            400 => Some(HttpStatus::BadRequest),
            401 => Some(HttpStatus::Unauthorized),
            402 => Some(HttpStatus::PaymentRequired),
            403 => Some(HttpStatus::Forbidden),
            404 => Some(HttpStatus::NotFound),
            405 => Some(HttpStatus::MethodNotAllowed),
            406 => Some(HttpStatus::NotAcceptable),
            407 => Some(HttpStatus::ProxyAuthenticationRequired),
            408 => Some(HttpStatus::RequestTimeout),
            409 => Some(HttpStatus::Conflict),
            410 => Some(HttpStatus::Gone),
            411 => Some(HttpStatus::LengthRequired),
            412 => Some(HttpStatus::PreconditionFailed),
            413 => Some(HttpStatus::PayloadTooLarge),
            414 => Some(HttpStatus::URITooLong),
            415 => Some(HttpStatus::UnsupportedMediaType),
            416 => Some(HttpStatus::RangeNotSatisfiable),
            417 => Some(HttpStatus::ExpectationFailed),
            418 => Some(HttpStatus::Teapot),
            421 => Some(HttpStatus::MisdirectedRequest),
            422 => Some(HttpStatus::UnprocessableEntity),
            423 => Some(HttpStatus::Locked),
            424 => Some(HttpStatus::FailedDependency),
            425 => Some(HttpStatus::TooEarly),
            426 => Some(HttpStatus::UpgradeRequired),
            428 => Some(HttpStatus::PreconditionRequired),
            429 => Some(HttpStatus::TooManyRequests),
            431 => Some(HttpStatus::RequestHeaderFieldsTooLarge),
            451 => Some(HttpStatus::UnavailableForLegalReasons),
            500 => Some(HttpStatus::InternalServerError),
            501 => Some(HttpStatus::NotImplemented),
            502 => Some(HttpStatus::BadGateway),
            503 => Some(HttpStatus::ServiceUnavailable),
            504 => Some(HttpStatus::GatewayTimeout),
            505 => Some(HttpStatus::HttpVersionNotSupported),
            506 => Some(HttpStatus::VariantAlsoNegotiates),
            507 => Some(HttpStatus::InsufficientStorage),
            508 => Some(HttpStatus::LoopDetected),
            510 => Some(HttpStatus::NotExtended),
            511 => Some(HttpStatus::NetworkAuthenticationRequired),
            _ => None,
        }
    }

    /// The table maps both ways: the code of a status leads back to that
    /// status, and a status found by a code carries that code.
    pub proof fn law_code_round_trip(status: HttpStatus, code: u16)
        ensures
            HttpStatus::of_code(status.code_of()) == Some(status),
            HttpStatus::of_code(code) matches Some(s) ==> s.code_of() == code,
    {
    }
}

impl From<&HttpStatus> for u16 {
    fn from(value: &HttpStatus) -> (code: u16) {
        value.code()
    }
}

impl FromSpecImpl<&HttpStatus> for u16 {
    open spec fn obeys_from_spec() -> bool {
        true
    }

    open spec fn from_spec(value: &HttpStatus) -> u16 {
        value.code_of()
    }
}

} // verus!
