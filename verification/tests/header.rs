use hyperion::http::error::HttpError;
use hyperion::http::header::{HeaderName, HttpHeader};

#[test]
fn header_is_built_from_a_recognized_name() {
    let header = HttpHeader::new("Content-Type", "text/plain").unwrap();
    assert_eq!(header, HttpHeader::ContentType("text/plain".to_string()));
    assert_eq!(header.name(), "Content-Type");
    assert_eq!(header.value(), "text/plain");
    assert_eq!(header.kind(), HeaderName::ContentType);
    assert_eq!(header.value_str(), "text/plain");
}

#[test]
fn every_recognized_name_builds_its_header() {
    let names = [
        "Accept",
        "Accept-Charset",
        "Accept-Encoding",
        "Accept-Language",
        "Accept-Ranges",
        "Age",
        "Cache-Control",
        "Authorization",
        "Connection",
        "Content-Length",
        "Content-Range",
        "Content-Type",
        "Date",
        "Host",
        "Pragma",
        "User-Agent",
    ];
    for name in names {
        let header = HttpHeader::new(name, "v").unwrap();
        assert_eq!(header.name(), name);
        assert_eq!(header.value(), "v");
        assert_eq!(HeaderName::from_text(name).unwrap().as_str(), name);
    }
}

#[test]
fn unknown_names_are_refused() {
    for name in ["", "host", "HOST", "Host ", "X-Custom", "Content-length", "Accept-"] {
        match HttpHeader::new(name, "v") {
            Err(HttpError::UnknownHeader(reported)) => assert_eq!(reported, name),
            other => panic!("unexpected result for {:?}: {:?}", name, other),
        }
    }
}

#[test]
fn header_values_are_not_checked() {
    let header = HttpHeader::new("Content-Length", "not a number").unwrap();
    assert_eq!(header.value(), "not a number");
    let empty = HttpHeader::new("Host", "").unwrap();
    assert_eq!(empty.value(), "");
}

#[test]
fn header_clone_is_equal() {
    let header = HttpHeader::UserAgent("curl/8".to_string());
    assert_eq!(header.clone(), header);
}

#[test]
fn header_line_is_name_colon_space_value() {
    assert_eq!(HttpHeader::CacheControl("no-cache".to_string()).line(), "Cache-Control: no-cache");
    let mut out = b"x".to_vec();
    HttpHeader::Host("localhost".to_string()).write_to(&mut out);
    assert_eq!(out, b"xHost: localhost\r\n".to_vec());
}
