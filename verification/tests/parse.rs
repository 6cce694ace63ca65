use hyperion::http::config::UnknownHeaderPolicy;
use hyperion::http::error::HttpError;
use hyperion::http::header::HttpHeader;
use hyperion::http::method::Method;
use hyperion::http::parser::parse_bytes;
use hyperion::http::request::HttpStream;

#[test]
fn parses_a_get_request_with_a_host_header() {
    let mut input = b"GET / HTTP/1.1\r\nHost: localhost\r\n\r\n".to_vec();
    let request = input.parse().unwrap();
    assert_eq!(request.method, Method::Get);
    assert_eq!(request.path, "/");
    assert_eq!(request.http_version, "HTTP/1.1");
    assert_eq!(request.headers, vec![HttpHeader::Host("localhost".to_string())]);
    assert_eq!(request.body, None);
    assert_eq!(input, b"GET / HTTP/1.1\r\nHost: localhost\r\n\r\n".to_vec());
}

#[test]
fn rejects_an_unknown_method() {
    let mut input = b"FOO / HTTP/1.1\r\n\r\n".to_vec();
    match input.parse() {
        Err(HttpError::UnknownMethod(token)) => assert_eq!(token, "FOO"),
        other => panic!("unexpected result: {:?}", other),
    }
}

#[test]
fn extracts_the_body_that_content_length_declares() {
    let mut input = b"POST / HTTP/1.1\r\nContent-Length: 5\r\n\r\nhello".to_vec();
    let request = input.parse().unwrap();
    assert_eq!(request.method, Method::Post);
    assert_eq!(request.body, Some(b"hello".to_vec()));
    assert_eq!(request.headers, vec![HttpHeader::ContentLength("5".to_string())]);
}

#[test]
fn body_is_cut_to_the_declared_length() {
    let request = parse_bytes(
        b"POST /x HTTP/1.1\r\nContent-Length: 3\r\n\r\nhello",
        UnknownHeaderPolicy::Reject,
    )
    .unwrap();
    assert_eq!(request.body, Some(b"hel".to_vec()));
}

#[test]
fn content_length_zero_means_no_body() {
    let request = parse_bytes(
        b"POST /x HTTP/1.1\r\nContent-Length: 0\r\n\r\nhello",
        UnknownHeaderPolicy::Reject,
    )
    .unwrap();
    assert_eq!(request.body, None);
}

#[test]
fn truncated_body_is_an_error() {
    let result = parse_bytes(
        b"POST / HTTP/1.1\r\nContent-Length: 50\r\n\r\nhello",
        UnknownHeaderPolicy::Reject,
    );
    assert!(matches!(result, Err(HttpError::TruncatedBody)));
    let huge = parse_bytes(
        b"POST / HTTP/1.1\r\nContent-Length: 99999999999999999999999999999999\r\n\r\nhello",
        UnknownHeaderPolicy::Reject,
    );
    assert!(matches!(huge, Err(HttpError::TruncatedBody)));
}

#[test]
fn invalid_utf8_is_an_error() {
    let result = parse_bytes(b"GET /\xff HTTP/1.1\r\n\r\n", UnknownHeaderPolicy::Reject);
    assert!(matches!(result, Err(HttpError::InvalidEncoding)));
}

#[test]
fn invalid_utf8_in_the_body_is_accepted() {
    let request = parse_bytes(
        b"PUT /b HTTP/1.1\r\nContent-Length: 2\r\n\r\n\xff\xfe",
        UnknownHeaderPolicy::Reject,
    )
    .unwrap();
    assert_eq!(request.body, Some(vec![0xff, 0xfe]));
}

#[test]
fn short_request_lines_are_malformed() {
    for input in [&b""[..], b"\r\n\r\n", b"GET\r\n\r\n", b"GET /\r\n\r\n"] {
        let result = parse_bytes(input, UnknownHeaderPolicy::Reject);
        assert!(matches!(result, Err(HttpError::MalformedRequestLine)), "{:?}", input);
    }
}

#[test]
fn header_line_without_separator_is_malformed() {
    let result = parse_bytes(b"GET / HTTP/1.1\r\nHost:localhost\r\n\r\n", UnknownHeaderPolicy::Skip);
    match result {
        Err(HttpError::MalformedHeaderLine(line)) => assert_eq!(line, "Host:localhost"),
        other => panic!("unexpected result: {:?}", other),
    }
}

#[test]
fn unknown_header_is_rejected_or_skipped() {
    let input = b"GET / HTTP/1.1\r\nX-Custom: 1\r\nHost: h\r\n\r\n";
    match parse_bytes(input, UnknownHeaderPolicy::Reject) {
        Err(HttpError::UnknownHeader(name)) => assert_eq!(name, "X-Custom"),
        other => panic!("unexpected result: {:?}", other),
    }
    let request = parse_bytes(input, UnknownHeaderPolicy::Skip).unwrap();
    assert_eq!(request.headers, vec![HttpHeader::Host("h".to_string())]);
}

#[test]
fn header_names_are_case_sensitive() {
    let result = parse_bytes(b"GET / HTTP/1.1\r\nhost: h\r\n\r\n", UnknownHeaderPolicy::Reject);
    assert!(matches!(result, Err(HttpError::UnknownHeader(_))));
    let method = parse_bytes(b"get / HTTP/1.1\r\n\r\n", UnknownHeaderPolicy::Reject);
    assert!(matches!(method, Err(HttpError::UnknownMethod(_))));
}

#[test]
fn a_head_without_blank_line_is_read_at_end_of_stream() {
    let request = parse_bytes(b"GET /a HTTP/1.1\r\nHost: h", UnknownHeaderPolicy::Reject).unwrap();
    assert_eq!(request.path, "/a");
    assert_eq!(request.headers, vec![HttpHeader::Host("h".to_string())]);
    assert_eq!(request.body, None);
}

#[test]
fn header_value_may_hold_the_separator() {
    let request =
        parse_bytes(b"GET / HTTP/1.1\r\nHost: a: b\r\n\r\n", UnknownHeaderPolicy::Reject).unwrap();
    assert_eq!(request.headers, vec![HttpHeader::Host("a: b".to_string())]);
}

#[test]
fn non_ascii_text_survives() {
    let request = parse_bytes(
        "GET /caf\u{e9} HTTP/1.1\r\nHost: \u{4f60}\u{597d}\r\n\r\n".as_bytes(),
        UnknownHeaderPolicy::Reject,
    )
    .unwrap();
    assert_eq!(request.path, "/caf\u{e9}");
    assert_eq!(request.headers, vec![HttpHeader::Host("\u{4f60}\u{597d}".to_string())]);
}
