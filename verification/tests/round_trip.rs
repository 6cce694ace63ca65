use hyperion::http::config::UnknownHeaderPolicy;
use hyperion::http::header::HttpHeader;
use hyperion::http::method::Method;
use hyperion::http::parser::parse_bytes;
use hyperion::http::request::{HttpStream, Request};

fn sample(method: Method, path: &str, headers: Vec<HttpHeader>, body: Option<&[u8]>) -> Request {
    Request {
        method,
        path: path.to_string(),
        http_version: "HTTP/1.1".to_string(),
        headers,
        body: body.map(|b| b.to_vec()),
    }
}

#[test]
fn request_is_rendered_line_by_line() {
    let request = sample(
        Method::Post,
        "/submit",
        vec![
            HttpHeader::Host("example.org".to_string()),
            HttpHeader::ContentLength("3".to_string()),
        ],
        Some(b"abc"),
    );
    assert_eq!(
        request.to_bytes(),
        b"POST /submit HTTP/1.1\r\nHost: example.org\r\nContent-Length: 3\r\n\r\nabc".to_vec()
    );
    let bare = sample(Method::Get, "/", vec![], None);
    assert_eq!(bare.to_bytes(), b"GET / HTTP/1.1\r\n\r\n".to_vec());
}

#[test]
fn rendered_requests_parse_back() {
    let all = [
        Method::Get,
        Method::Head,
        Method::Post,
        Method::Put,
        Method::Delete,
        Method::Connect,
        Method::Options,
        Method::Trace,
        Method::Patch,
    ];
    for method in all {
        let request = sample(
            method,
            "/a/b?c=d&e=%20f",
            vec![
                HttpHeader::Host("localhost:8000".to_string()),
                HttpHeader::Accept("text/html, */*: q=0.8".to_string()),
                HttpHeader::UserAgent("caf\u{e9}/1.0".to_string()),
                HttpHeader::Accept("".to_string()),
                HttpHeader::ContentLength("5".to_string()),
                HttpHeader::ContentLength("7".to_string()),
            ],
            Some(b"hello"),
        );
        for policy in [UnknownHeaderPolicy::Reject, UnknownHeaderPolicy::Skip] {
            let parsed = parse_bytes(&request.to_bytes(), policy).unwrap();
            assert_eq!(parsed.method, request.method);
            assert_eq!(parsed.path, request.path);
            assert_eq!(parsed.http_version, request.http_version);
            assert_eq!(parsed.headers, request.headers);
            assert_eq!(parsed.body, request.body);
        }
    }
}

#[test]
fn body_beyond_the_declared_length_is_left_out() {
    let request =
        sample(Method::Put, "/", vec![HttpHeader::ContentLength("2".to_string())], Some(b"abcd"));
    let parsed = request.to_bytes().parse().unwrap();
    assert_eq!(parsed.headers, request.headers);
    assert_eq!(parsed.body, Some(b"ab".to_vec()));
    let undeclared = sample(Method::Put, "/", vec![], Some(b"abcd"));
    let parsed = undeclared.to_bytes().parse().unwrap();
    assert_eq!(parsed.body, None);
}

#[test]
fn clone_of_a_request_is_equal() {
    let request = sample(
        Method::Patch,
        "/p",
        vec![HttpHeader::Date("today".to_string())],
        Some(&[0, 159, 146, 150]),
    );
    let copy = request.clone();
    assert_eq!(copy.method, request.method);
    assert_eq!(copy.path, request.path);
    assert_eq!(copy.http_version, request.http_version);
    assert_eq!(copy.headers, request.headers);
    assert_eq!(copy.body, request.body);
}
