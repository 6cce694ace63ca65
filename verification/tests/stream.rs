use hyperion::http::config::{Limits, UnknownHeaderPolicy};
use hyperion::http::error::HttpError;
use hyperion::http::header::HttpHeader;
use hyperion::http::method::Method;
use hyperion::http::parser::{parse_bytes, Progress, RequestParser};
use hyperion::http::request::Request;

fn feed_in_chunks(input: &[u8], size: usize) -> Result<Request, HttpError> {
    let mut parser = RequestParser::new(UnknownHeaderPolicy::Reject);
    for chunk in input.chunks(size) {
        match parser.feed(chunk) {
            Progress::Incomplete(next) => parser = next,
            Progress::Complete(result) => return result,
        }
    }
    parser.finish()
}

fn same(a: &Result<Request, HttpError>, b: &Result<Request, HttpError>) -> bool {
    format!("{:?}", a) == format!("{:?}", b)
}

#[test]
fn chunk_size_does_not_matter() {
    let inputs: Vec<&[u8]> = vec![
        b"GET / HTTP/1.1\r\nHost: localhost\r\n\r\n",
        b"POST /p HTTP/1.1\r\nContent-Length: 11\r\nHost: h\r\n\r\nhello world",
        b"POST /p HTTP/1.1\r\nContent-Length: 11\r\n\r\nhello",
        b"FOO / HTTP/1.1\r\n\r\n",
        b"GET / HTTP/1.1\r\nBroken\r\n\r\n",
        b"GET /\xff HTTP/1.1\r\n\r\n",
        b"GET /no-terminator HTTP/1.1\r\nHost: h",
        b"",
        b"\r\n\r\n",
    ];
    for input in inputs {
        let whole = parse_bytes(input, UnknownHeaderPolicy::Reject);
        for size in 1..=input.len().max(1) + 1 {
            let chunked = feed_in_chunks(input, size);
            assert!(same(&whole, &chunked), "{:?} in chunks of {}", input, size);
        }
    }
}

#[test]
fn terminator_across_a_chunk_boundary_is_found() {
    let parser = RequestParser::new(UnknownHeaderPolicy::Reject);
    let parser = match parser.feed(b"GET /split HTTP/1.1\r\nHost: h\r\n\r") {
        Progress::Incomplete(next) => next,
        Progress::Complete(result) => panic!("complete too early: {:?}", result),
    };
    assert_eq!(parser.buffered(), 31);
    match parser.feed(b"\n") {
        Progress::Complete(Ok(request)) => {
            assert_eq!(request.method, Method::Get);
            assert_eq!(request.path, "/split");
            assert_eq!(request.headers, vec![HttpHeader::Host("h".to_string())]);
            assert_eq!(request.body, None);
        }
        Progress::Complete(Err(e)) => panic!("unexpected error: {:?}", e),
        Progress::Incomplete(_) => panic!("terminator was missed"),
    }
}

#[test]
fn body_is_gathered_over_several_reads() {
    let mut parser = RequestParser::new(UnknownHeaderPolicy::Reject);
    let chunks: Vec<&[u8]> =
        vec![b"PUT /f HTTP/1.1\r\nContent-Length: 10\r\n\r\nab", b"cd", b"efg", b"hij-extra"];
    let mut result = None;
    for (index, chunk) in chunks.iter().enumerate() {
        match parser.feed(chunk) {
            Progress::Incomplete(next) => {
                assert!(index < 3, "the body was complete after the fourth chunk");
                parser = next;
            }
            Progress::Complete(r) => {
                assert_eq!(index, 3);
                result = Some(r);
                break;
            }
        }
    }
    let request = result.unwrap().unwrap();
    assert_eq!(request.body, Some(b"abcdefghij".to_vec()));
}

#[test]
fn stream_that_ends_early_is_truncated() {
    let parser = RequestParser::new(UnknownHeaderPolicy::Reject);
    let parser = match parser.feed(b"PUT /f HTTP/1.1\r\nContent-Length: 10\r\n\r\nabc") {
        Progress::Incomplete(next) => next,
        Progress::Complete(result) => panic!("complete too early: {:?}", result),
    };
    assert!(matches!(parser.finish(), Err(HttpError::TruncatedBody)));
}

#[test]
fn head_errors_are_reported_before_the_body_arrives() {
    let parser = RequestParser::new(UnknownHeaderPolicy::Reject);
    match parser.feed(b"FOO /f HTTP/1.1\r\nContent-Length: 10\r\n\r\n") {
        Progress::Complete(Err(HttpError::UnknownMethod(token))) => assert_eq!(token, "FOO"),
        Progress::Complete(other) => panic!("unexpected result: {:?}", other),
        Progress::Incomplete(_) => panic!("the fault of the head was not reported"),
    }
}

#[test]
fn parser_honours_its_policy() {
    let input = b"GET / HTTP/1.1\r\nX-Unknown: 1\r\nAccept: */*\r\n\r\n";
    match RequestParser::new(UnknownHeaderPolicy::Skip).feed(input) {
        Progress::Complete(Ok(request)) => {
            assert_eq!(request.headers, vec![HttpHeader::Accept("*/*".to_string())]);
        }
        _ => panic!("the unknown header was not skipped"),
    }
    match RequestParser::new(UnknownHeaderPolicy::Reject).feed(input) {
        Progress::Complete(Err(HttpError::UnknownHeader(name))) => assert_eq!(name, "X-Unknown"),
        _ => panic!("the unknown header was not rejected"),
    }
}

#[test]
fn an_empty_parser_has_received_nothing() {
    let parser = RequestParser::new(UnknownHeaderPolicy::Reject);
    assert_eq!(parser.buffered(), 0);
    assert!(matches!(parser.finish(), Err(HttpError::MalformedRequestLine)));
}

fn limited(head: usize, body: usize) -> RequestParser {
    RequestParser::with_limits(
        UnknownHeaderPolicy::Reject,
        Limits { max_head_bytes: Some(head), max_body_bytes: Some(body) },
    )
}

#[test]
fn head_at_the_ceiling_is_accepted_and_one_byte_more_is_not() {
    let input = b"GET /abc HTTP/1.1\r\n\r\n";
    assert_eq!(input.len(), 21);
    match limited(17, 0).feed(input) {
        Progress::Complete(Ok(request)) => assert_eq!(request.path, "/abc"),
        _ => panic!("a head of 17 bytes was refused under a ceiling of 17"),
    }
    match limited(16, 0).feed(input) {
        Progress::Complete(Err(HttpError::HeadTooLarge)) => {}
        _ => panic!("a head of 17 bytes was accepted under a ceiling of 16"),
    }
}

#[test]
fn endless_head_is_refused_once_no_blank_line_can_come_in_time() {
    let parser = match limited(8, 0).feed(b"GET /abcdef") {
        Progress::Incomplete(next) => next,
        Progress::Complete(result) => panic!("refused too early: {:?}", result),
    };
    assert_eq!(parser.buffered(), 11);
    match parser.feed(b"g") {
        Progress::Complete(Err(HttpError::HeadTooLarge)) => {}
        _ => panic!("twelve bytes without a blank line were accepted under a ceiling of 8"),
    }
    let parser = match limited(8, 0).feed(b"GET /abcd") {
        Progress::Incomplete(next) => next,
        Progress::Complete(result) => panic!("refused too early: {:?}", result),
    };
    assert!(matches!(parser.finish(), Err(HttpError::HeadTooLarge)));
}

#[test]
fn declared_body_above_the_ceiling_is_refused_before_it_is_read() {
    let head = b"PUT /f HTTP/1.1\r\nContent-Length: 5\r\n\r\n";
    match limited(64, 4).feed(head) {
        Progress::Complete(Err(HttpError::BodyTooLarge)) => {}
        _ => panic!("a body of 5 bytes was accepted under a ceiling of 4"),
    }
    match limited(64, 5).feed(head) {
        Progress::Incomplete(next) => match next.feed(b"hello") {
            Progress::Complete(Ok(request)) => assert_eq!(request.body, Some(b"hello".to_vec())),
            _ => panic!("the body was not read"),
        },
        Progress::Complete(result) => panic!("refused: {:?}", result),
    }
    let huge = b"PUT /f HTTP/1.1\r\nContent-Length: 99999999999999999999999999\r\n\r\n";
    match limited(128, usize::MAX).feed(huge) {
        Progress::Complete(Err(HttpError::BodyTooLarge)) => {}
        _ => panic!("a body beyond every ceiling was accepted"),
    }
    match RequestParser::new(UnknownHeaderPolicy::Reject).feed(huge) {
        Progress::Incomplete(next) => {
            assert!(matches!(next.finish(), Err(HttpError::TruncatedBody)))
        }
        Progress::Complete(result) => panic!("complete too early: {:?}", result),
    }
}
