use hyperion::http::config::{Config, Limits};
use hyperion::http::error::HttpError;
use hyperion::http::method::Method;
use hyperion::http::request::Request;
use hyperion::http::response::{Body, Response};
use hyperion::http::router::{RequestHandler, RequestIdentifier, Router};
use hyperion::http::server::{Connection, Phase};
use hyperion::http::status::HttpStatus;

struct Echo;

impl RequestHandler for Echo {
    fn handle(&self, request: Request) -> Result<Response<Box<dyn Body>>, HttpError> {
        let body: Box<dyn Body> = Box::new(request.body);
        Ok(Response::new(body, vec![], HttpStatus::OK))
    }
}

fn router() -> Router<Echo> {
    Router::from_routes(vec![(
        RequestIdentifier { method: Method::Post, path: "/echo".to_string() },
        Echo,
    )])
}

fn run(chunks: &[&[u8]]) -> (Vec<Phase>, Vec<u8>) {
    let config = Config::default();
    let router = router();
    let mut phases = vec![];
    let mut connection = Connection::Accepted;
    let mut next_chunk = 0;
    let mut sent = vec![];
    loop {
        phases.push(connection.phase());
        connection = match connection.phase() {
            Phase::Accepted => connection.start(&config),
            Phase::Parsing => {
                if next_chunk < chunks.len() {
                    next_chunk += 1;
                    connection.receive(chunks[next_chunk - 1])
                } else {
                    connection.end_of_stream()
                }
            }
            Phase::Dispatching => connection.dispatch(&router),
            Phase::Serializing => connection.serialize(config.auto_content_length),
            Phase::Writing => {
                sent = connection.output().unwrap().clone();
                connection.written()
            }
            Phase::Closed => break,
        };
    }
    (phases, sent)
}

#[test]
fn connection_walks_through_its_stages() {
    let (phases, sent) = run(&[b"POST /echo HTTP/1.1\r\nContent-Length: 4\r\n\r\n", b"pi", b"ng"]);
    assert_eq!(
        phases,
        vec![
            Phase::Accepted,
            Phase::Parsing,
            Phase::Parsing,
            Phase::Parsing,
            Phase::Dispatching,
            Phase::Serializing,
            Phase::Writing,
            Phase::Closed,
        ]
    );
    assert_eq!(sent, b"HTTP/1.1 200 Ok\r\nContent-Length: 4\r\n\r\nping".to_vec());
}

#[test]
fn parse_failure_goes_straight_to_serializing() {
    let (phases, sent) = run(&[b"BREW /pot HTCPCP/1.0\r\n\r\n"]);
    assert_eq!(
        phases,
        vec![Phase::Accepted, Phase::Parsing, Phase::Serializing, Phase::Writing, Phase::Closed]
    );
    assert!(sent.starts_with(b"HTTP/1.1 400 Bad Request\r\n"));
    assert!(sent.ends_with(b"Unknown HTTP Method: BREW"));
}

#[test]
fn missing_route_is_answered_with_404() {
    let (phases, sent) = run(&[b"GET /nowhere HTTP/1.1\r\n\r\n"]);
    assert_eq!(phases.len(), 6);
    assert!(sent.starts_with(b"HTTP/1.1 404 Not Found\r\n"));
    assert!(sent.ends_with(b"The path GET /nowhere was not found"));
}

#[test]
fn end_of_stream_completes_the_message() {
    let (_, sent) = run(&[b"POST /echo HTTP/1.1\r\nContent-Length: 9\r\n\r\nshort"]);
    assert!(sent.starts_with(b"HTTP/1.1 400 Bad Request\r\n"));
    assert!(sent.ends_with(b"Incomplete request body"));
    let (_, empty) = run(&[]);
    assert!(empty.starts_with(b"HTTP/1.1 400 Bad Request\r\n"));
    assert!(empty.ends_with(b"Invalid request line"));
}

#[test]
fn transport_failure_while_reading_is_answered_with_500() {
    let connection = Connection::Accepted.start(&Config::default());
    assert_eq!(connection.buffered(), 0);
    let connection = connection.receive(b"GET / HT");
    assert_eq!(connection.phase(), Phase::Parsing);
    assert_eq!(connection.buffered(), 8);
    let connection = connection.fail("connection reset".to_string());
    assert_eq!(connection.phase(), Phase::Serializing);
    let connection = connection.serialize(true);
    let sent = connection.output().unwrap().clone();
    assert!(sent.starts_with(b"HTTP/1.1 500 Internal Server Error\r\n"));
    assert!(sent.ends_with(b"\r\n\r\nconnection reset"));
    let connection = connection.fail("broken pipe".to_string());
    assert_eq!(connection.phase(), Phase::Closed);
    assert!(connection.output().is_none());
    assert_eq!(connection.buffered(), 0);
}

#[test]
fn steps_out_of_turn_change_nothing() {
    let connection = Connection::Accepted.receive(b"GET / HTTP/1.1\r\n\r\n");
    assert_eq!(connection.phase(), Phase::Accepted);
    let connection = connection.end_of_stream().dispatch(&router()).serialize(true).written();
    assert_eq!(connection.phase(), Phase::Accepted);
    let closed = Connection::Closed.start(&Config::default());
    assert_eq!(closed.phase(), Phase::Closed);
    let writing = Connection::Writing(b"x".to_vec()).receive(b"more");
    assert_eq!(writing.output(), Some(&b"x".to_vec()));
}

#[test]
fn slow_peer_is_answered_with_408() {
    let connection = Connection::Accepted.start(&Config::default()).receive(b"GET /slow");
    let connection = connection.timed_out();
    assert_eq!(connection.phase(), Phase::Serializing);
    let connection = connection.serialize(true);
    let sent = connection.output().unwrap().clone();
    assert!(sent.starts_with(b"HTTP/1.1 408 Request Timeout\r\n"));
    assert!(sent.ends_with(b"\r\n\r\nRequest timed out"));
    assert_eq!(connection.timed_out().phase(), Phase::Closed);
    assert_eq!(Connection::Closed.timed_out().phase(), Phase::Closed);
}

#[test]
fn connection_holds_requests_to_the_configured_limits() {
    let config = Config {
        limits: Limits { max_head_bytes: Some(16), max_body_bytes: Some(4) },
        ..Config::default()
    };
    let long_head = Connection::Accepted.start(&config).receive(b"GET /a-rather-long-path HTTP/1.1\r\n\r\n");
    assert_eq!(long_head.phase(), Phase::Serializing);
    let sent = long_head.serialize(true).output().unwrap().clone();
    assert!(sent.starts_with(b"HTTP/1.1 431 Request Header Fields Too Large\r\n"));
    assert!(sent.ends_with(b"Request head too large"));

    let fits = Connection::Accepted.start(&config).receive(b"GET /a HTTP/1.1\r\n\r\n");
    assert_eq!(fits.phase(), Phase::Dispatching);
}
