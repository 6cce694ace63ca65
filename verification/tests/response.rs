use hyperion::http::error::HttpError;
use hyperion::http::header::HttpHeader;
use hyperion::http::response::{find_header, Body, Builder, Response};
use hyperion::http::header::HeaderName;
use hyperion::http::status::HttpStatus;

#[test]
fn serializes_a_text_response_with_computed_content_length() {
    let response = Response::new(
        "hi",
        vec![HttpHeader::ContentType("text/plain".to_string())],
        HttpStatus::OK,
    );
    assert_eq!(
        response.to_bytes(),
        b"HTTP/1.1 200 Ok\r\nContent-Type: text/plain\r\nContent-Length: 2\r\n\r\nhi".to_vec()
    );
}

#[test]
fn content_length_counts_the_bytes_of_the_body() {
    for body in ["", "a", "h\u{e9}llo", "0123456789"] {
        let bytes = Response::new(body.to_string(), vec![], HttpStatus::OK).to_bytes();
        let expected = format!("HTTP/1.1 200 Ok\r\nContent-Length: {}\r\n\r\n{}", body.len(), body);
        assert_eq!(bytes, expected.into_bytes());
    }
    let binary = Response::new(vec![0u8, 255, 13, 10], vec![], HttpStatus::OK).to_bytes();
    assert_eq!(binary, b"HTTP/1.1 200 Ok\r\nContent-Length: 4\r\n\r\n\x00\xff\r\n".to_vec());
}

#[test]
fn a_supplied_content_length_is_kept() {
    let response = Response::new(
        "hello",
        vec![HttpHeader::ContentLength("99".to_string()), HttpHeader::Host("h".to_string())],
        HttpStatus::OK,
    );
    assert_eq!(
        response.to_bytes(),
        b"HTTP/1.1 200 Ok\r\nContent-Length: 99\r\nHost: h\r\n\r\nhello".to_vec()
    );
}

#[test]
fn content_length_can_be_left_out() {
    let response = Response::new("hello", vec![], HttpStatus::NoContent);
    assert_eq!(response.to_bytes_with(false), b"HTTP/1.1 204 No Content\r\n\r\nhello".to_vec());
    assert_eq!(
        response.to_bytes_with(true),
        b"HTTP/1.1 204 No Content\r\nContent-Length: 5\r\n\r\nhello".to_vec()
    );
}

#[test]
fn headers_are_sent_in_their_order() {
    let response = Response::new(
        (),
        vec![
            HttpHeader::Host("b".to_string()),
            HttpHeader::Accept("a".to_string()),
            HttpHeader::Host("c".to_string()),
        ],
        HttpStatus::Found,
    );
    assert_eq!(
        response.to_bytes_with(false),
        b"HTTP/1.1 302 Found\r\nHost: b\r\nAccept: a\r\nHost: c\r\n\r\n".to_vec()
    );
}

#[test]
fn bodies_yield_their_bytes() {
    assert_eq!(().bytes(), Vec::<u8>::new());
    assert_eq!(().content_length(), 0);
    assert_eq!(Body::bytes(&"h\u{e9}"), vec![b'h', 0xc3, 0xa9]);
    assert_eq!("h\u{e9}".content_length(), 3);
    assert_eq!(Body::bytes(&"abc".to_string()), b"abc".to_vec());
    assert_eq!(vec![1u8, 2, 3].bytes(), vec![1u8, 2, 3]);
    assert_eq!(vec![1u8, 2, 3].content_length(), 3);
    assert_eq!([7u8, 8].bytes(), vec![7u8, 8]);
    assert_eq!([7u8, 8].content_length(), 2);
    assert_eq!(Body::bytes(&Some("x")), b"x".to_vec());
    assert_eq!(None::<String>.bytes(), Vec::<u8>::new());
    assert_eq!(None::<String>.content_length(), 0);
    let boxed: Box<dyn Body> = Box::new("boxed".to_string());
    assert_eq!(boxed.bytes(), b"boxed".to_vec());
    assert_eq!(boxed.content_length(), 5);
}

#[test]
fn builder_sets_the_content_type_once() {
    let mut builder = Response::OK();
    builder.content_type("text/plain");
    let first = builder.finish();
    assert_eq!(first.status, HttpStatus::OK);
    assert_eq!(first.headers, vec![HttpHeader::ContentType("text/plain".to_string())]);

    let mut builder = Builder::new(HttpStatus::Created);
    builder.content_type("text/plain");
    builder.content_type("text/html");
    let second = builder.text("<p>");
    assert_eq!(second.status, HttpStatus::Created);
    assert_eq!(second.headers, vec![HttpHeader::ContentType("text/html".to_string())]);
    assert_eq!(second.body, "<p>");
}

#[test]
fn builder_makes_a_json_response() {
    let ok = Response::OK().json(Ok("{\"a\":1}".to_string()));
    assert_eq!(ok.status, HttpStatus::OK);
    assert_eq!(ok.headers, vec![HttpHeader::ContentType("application/json".to_string())]);
    assert_eq!(ok.body, "{\"a\":1}");

    let error = serde_json::from_str::<u8>("x").unwrap_err();
    let text = error.to_string();
    let failed = Response::NotFound().json(Err(error));
    assert_eq!(failed.status, HttpStatus::InternalServerError);
    assert!(failed.headers.is_empty());
    assert_eq!(failed.body, text);
    assert!(!failed.body.is_empty());

    let described = Builder::json_failure("broken".to_string());
    assert_eq!(described.status, HttpStatus::InternalServerError);
    assert_eq!(described.body, "broken");
}

#[test]
fn status_constructors_start_with_their_status() {
    assert_eq!(Response::Continue().finish().status, HttpStatus::Continue);
    assert_eq!(Response::NotFound().finish().status, HttpStatus::NotFound);
    assert_eq!(Response::Teapot().finish().status, HttpStatus::Teapot);
    assert_eq!(
        Response::NetworkAuthenticationRequired().finish().status,
        HttpStatus::NetworkAuthenticationRequired
    );
    assert!(Response::OK().finish().headers.is_empty());
}

#[test]
fn first_header_of_a_name_is_found() {
    let headers = vec![
        HttpHeader::Host("a".to_string()),
        HttpHeader::ContentLength("1".to_string()),
        HttpHeader::ContentLength("2".to_string()),
    ];
    assert_eq!(find_header(&headers, HeaderName::ContentLength), Some(1));
    assert_eq!(find_header(&headers, HeaderName::Host), Some(0));
    assert_eq!(find_header(&headers, HeaderName::Date), None);
}

#[test]
fn errors_become_responses() {
    let cases = vec![
        (HttpError::IoError("broken pipe".to_string()), 500, "broken pipe".to_string()),
        (HttpError::BadRequest("no".to_string()), 400, "no".to_string()),
        (
            HttpError::NotFound { method: hyperion::http::method::Method::Get, path: "/x".to_string() },
            404,
            "The path GET /x was not found".to_string(),
        ),
        (
            HttpError::InvalidEncoding,
            500,
            "Internal Server Error: Failed to parse request".to_string(),
        ),
        (HttpError::MalformedRequestLine, 400, "Invalid request line".to_string()),
        (HttpError::UnknownMethod("FOO".to_string()), 400, "Unknown HTTP Method: FOO".to_string()),
        (
            HttpError::MalformedHeaderLine("Host".to_string()),
            400,
            "Invalid Header: Host".to_string(),
        ),
        (HttpError::UnknownHeader("X-A".to_string()), 400, "Unknown header 'X-A'".to_string()),
        (HttpError::TruncatedBody, 400, "Incomplete request body".to_string()),
        (HttpError::HeadTooLarge, 431, "Request head too large".to_string()),
        (HttpError::BodyTooLarge, 413, "Request body too large".to_string()),
        (HttpError::Timeout, 408, "Request timed out".to_string()),
    ];
    for (error, code, text) in cases {
        assert_eq!(error.message(), text);
        assert_eq!(error.status().code(), code);
        let response = error.into_response();
        assert_eq!(response.status.code(), code);
        assert_eq!(response.body, text);
        assert_eq!(
            response.headers,
            vec![
                HttpHeader::ContentType("text/plain".to_string()),
                HttpHeader::Authorization("Bearer token".to_string()),
            ]
        );
    }
}

#[test]
fn error_is_rendered_as_a_whole_response() {
    let bytes = HttpError::UnknownMethod("FOO".to_string()).into_bytes();
    assert_eq!(
        bytes,
        b"HTTP/1.1 400 Bad Request\r\nContent-Type: text/plain\r\nAuthorization: Bearer token\r\nContent-Length: 24\r\n\r\nUnknown HTTP Method: FOO"
            .to_vec()
    );
}

#[test]
fn json_errors_become_bad_requests() {
    let error = serde_json::from_str::<bool>("{").unwrap_err();
    let text = error.to_string();
    match HttpError::from(error) {
        HttpError::BadRequest(message) => {
            assert_eq!(message, text);
            assert!(message.contains("line 1"));
        }
        other => panic!("unexpected error: {:?}", other),
    }
}
