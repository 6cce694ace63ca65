use hyperion::http::config::Config;
use hyperion::http::error::HttpError;
use hyperion::http::header::HttpHeader;
use hyperion::http::method::Method;
use hyperion::http::request::Request;
use hyperion::http::response::{Body, Response};
use hyperion::http::router::{RequestHandler, RequestIdentifier, Router};
use hyperion::http::server::{dispatch, render, resolve, respond, Routed};
use hyperion::http::status::HttpStatus;

struct Fixed(&'static str);

impl RequestHandler for Fixed {
    fn handle(&self, request: Request) -> Result<Response<Box<dyn Body>>, HttpError> {
        if request.path == "/fail" {
            return Err(HttpError::BadRequest("refused".to_string()));
        }
        let body: Box<dyn Body> = Box::new(self.0.to_string());
        Ok(Response::new(
            body,
            vec![HttpHeader::ContentType("text/plain".to_string())],
            HttpStatus::OK,
        ))
    }
}

fn key(method: Method, path: &str) -> RequestIdentifier {
    RequestIdentifier { method, path: path.to_string() }
}

fn request(method: Method, path: &str) -> Request {
    Request {
        method,
        path: path.to_string(),
        http_version: "HTTP/1.1".to_string(),
        headers: vec![],
        body: None,
    }
}

fn contains(haystack: &[u8], needle: &[u8]) -> bool {
    haystack.windows(needle.len()).any(|window| window == needle)
}

#[test]
fn router_matches_method_and_path_exactly() {
    let router = Router::from_routes(vec![(key(Method::Get, "/"), Fixed("root"))]);
    assert!(router.select(&key(Method::Get, "/")).is_some());
    assert!(router.select(&key(Method::Get, "/x")).is_none());
    assert!(router.select(&key(Method::Post, "/")).is_none());
    assert!(router.select(&key(Method::Get, "")).is_none());
    assert!(router.select(&key(Method::Get, "//")).is_none());
    assert!(router.select(&key(Method::Get, "/?a=1")).is_none());
}

#[test]
fn unrouted_request_gets_404_naming_method_and_path() {
    let router = Router::from_routes(vec![(key(Method::Get, "/"), Fixed("root"))]);
    for (method, path, token) in [(Method::Get, "/x", "GET"), (Method::Post, "/", "POST")] {
        let bytes = respond(&router, Ok(request(method, path)), &Config::default());
        assert!(bytes.starts_with(b"HTTP/1.1 404 Not Found\r\n"));
        let body_start = bytes.windows(4).position(|w| w == b"\r\n\r\n").unwrap() + 4;
        let body = &bytes[body_start..];
        assert!(contains(body, token.as_bytes()));
        assert!(contains(body, path.as_bytes()));
        assert_eq!(body, format!("The path {} {} was not found", token, path).as_bytes());
    }
}

#[test]
fn last_registration_wins() {
    let router = Router::from_routes(vec![
        (key(Method::Get, "/"), Fixed("first")),
        (key(Method::Get, "/other"), Fixed("other")),
        (key(Method::Get, "/"), Fixed("second")),
    ]);
    assert_eq!(router.select(&key(Method::Get, "/")).unwrap().0, "second");
    assert_eq!(router.select(&key(Method::Get, "/other")).unwrap().0, "other");
}

#[test]
fn an_empty_router_serves_nothing() {
    let router: Router<Fixed> = Router::from_routes(vec![]);
    assert!(router.select(&key(Method::Get, "/")).is_none());
}

#[test]
fn routed_request_is_answered_by_its_handler() {
    let router = Router::from_routes(vec![
        (key(Method::Get, "/"), Fixed("root")),
        (key(Method::Get, "/fail"), Fixed("never")),
    ]);
    let bytes = respond(&router, Ok(request(Method::Get, "/")), &Config::default());
    assert_eq!(
        bytes,
        b"HTTP/1.1 200 Ok\r\nContent-Type: text/plain\r\nContent-Length: 4\r\n\r\nroot".to_vec()
    );
    let failed = respond(&router, Ok(request(Method::Get, "/fail")), &Config::default());
    assert!(failed.starts_with(b"HTTP/1.1 400 Bad Request\r\n"));
    assert!(failed.ends_with(b"\r\n\r\nrefused"));
}

#[test]
fn boxed_handlers_are_handlers() {
    let boxed: Box<dyn RequestHandler> = Box::new(Fixed("boxed"));
    let router: Router = Router::from_routes(vec![(key(Method::Put, "/b"), boxed)]);
    let outcome = dispatch(&router, request(Method::Put, "/b"));
    assert_eq!(render(outcome, false), b"HTTP/1.1 200 Ok\r\nContent-Type: text/plain\r\n\r\nboxed".to_vec());
    let missing = dispatch(&router, request(Method::Put, "/c"));
    match missing {
        Err(HttpError::NotFound { method, path }) => {
            assert_eq!(method, Method::Put);
            assert_eq!(path, "/c");
        }
        _ => panic!("a route was found for /c"),
    }
}

#[test]
fn requests_are_handed_on_unchanged() {
    let router = Router::from_routes(vec![(key(Method::Delete, "/item"), Fixed("gone"))]);
    let mut sent = request(Method::Delete, "/item");
    sent.body = Some(b"payload".to_vec());
    match resolve(&router, sent) {
        Routed::Found(handler, received) => {
            assert_eq!(handler.0, "gone");
            assert_eq!(received.method, Method::Delete);
            assert_eq!(received.path, "/item");
            assert_eq!(received.body, Some(b"payload".to_vec()));
        }
        Routed::Missing(e) => panic!("no route was found: {:?}", e),
    }
    match resolve(&router, request(Method::Delete, "/item/")) {
        Routed::Missing(HttpError::NotFound { method, path }) => {
            assert_eq!(method, Method::Delete);
            assert_eq!(path, "/item/");
        }
        _ => panic!("a route was found for /item/"),
    }
}

#[test]
fn parse_errors_are_answered_as_they_are() {
    let router: Router<Fixed> = Router::from_routes(vec![]);
    let bytes = respond(&router, Err(HttpError::InvalidEncoding), &Config::default());
    assert!(bytes.starts_with(b"HTTP/1.1 500 Internal Server Error\r\n"));
    let plain = Config { auto_content_length: false, ..Config::default() };
    assert_eq!(Config::default().limits, hyperion::http::config::Limits::none());
    let bytes = respond(&router, Err(HttpError::TruncatedBody), &plain);
    assert_eq!(
        bytes,
        b"HTTP/1.1 400 Bad Request\r\nContent-Type: text/plain\r\nAuthorization: Bearer token\r\n\r\nIncomplete request body"
            .to_vec()
    );
}

#[test]
fn identifiers_compare_by_method_and_path() {
    let a = key(Method::Get, "/a");
    assert!(a.same(&a.clone()));
    assert!(!a.same(&key(Method::Get, "/A")));
    assert!(!a.same(&key(Method::Head, "/a")));
    assert_eq!(a, a.clone());
}

#[test]
fn identifiers_are_hashed_by_method_and_path() {
    assert_eq!(key(Method::Get, "").hash_code(), 12638153115695167455);
    assert_eq!(key(Method::Get, "/").hash_code(), 590702759518112976);
    assert_eq!(key(Method::Post, "/").hash_code(), 592637899983385886);
    assert_eq!(key(Method::Patch, "/caf\u{e9}").hash_code(), 12270624093681599982);
    assert_eq!(key(Method::Get, "/a").hash_code(), key(Method::Get, "/a").hash_code());
    assert_ne!(key(Method::Get, "/a").hash_code(), key(Method::Get, "/b").hash_code());
}

#[test]
fn many_routes_are_all_found() {
    let mut routes = vec![];
    for i in 0..500 {
        routes.push((key(Method::Get, &format!("/item/{}", i)), i));
        routes.push((key(Method::Put, &format!("/item/{}", i)), 1000 + i));
    }
    for i in 0..50 {
        routes.push((key(Method::Get, &format!("/item/{}", i * 10)), 5000 + i));
    }
    let router = Router::from_routes(routes);
    for i in 0..500 {
        let expected = if i % 10 == 0 { 5000 + i / 10 } else { i };
        assert_eq!(router.select(&key(Method::Get, &format!("/item/{}", i))), Some(&expected));
        assert_eq!(router.select(&key(Method::Put, &format!("/item/{}", i))), Some(&(1000 + i)));
        assert_eq!(router.select(&key(Method::Post, &format!("/item/{}", i))), None);
    }
    assert_eq!(router.select(&key(Method::Get, "/item/500")), None);
    assert_eq!(router.select(&key(Method::Get, "/item/")), None);
}
