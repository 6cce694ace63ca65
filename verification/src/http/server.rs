use crate::http::config::Config;
use crate::http::error::{error_wire, ErrorView, HttpError};
use crate::http::header::HeaderView;
use crate::http::parser::{parse_within, Outcome, Progress, RequestParser};
use crate::http::request::{Request, RequestView};
use crate::http::response::{message_bytes, status_line, Body, Response};
use crate::http::router::{RequestHandler, RequestIdentifier, RouteKey, Router};
use crate::http::status::HttpStatus;
use vstd::prelude::*;

verus! {

/// True when `bytes` is a response on the wire: a status line, header lines, a
/// blank line and a body.
pub open spec fn is_response(bytes: Seq<u8>) -> bool {
    exists|status: HttpStatus, headers: Seq<HeaderView>, body: Seq<u8>|
        bytes == #[trigger] message_bytes(status_line(status), headers, body)
}

/// The bytes that answer a request, given what handling it produced: the
/// response as it is, or the response that reports the error.
pub open spec fn reply_wire<B: Body>(
    outcome: Result<Response<B>, HttpError>,
    auto_content_length: bool,
) -> Seq<u8> {
    match outcome {
        Ok(response) => response.wire(auto_content_length),
        Err(e) => error_wire(e@, auto_content_length),
    }
}

/// Renders what handling a request produced. Whatever it was, the bytes are a
/// well-formed response.
pub fn render<B: Body>(outcome: Result<Response<B>, HttpError>, auto_content_length: bool) -> (out:
    Vec<u8>)
    ensures
        out@ == reply_wire(outcome, auto_content_length),
        is_response(out@),
{
    match outcome {
        Ok(response) => response.to_bytes_with(auto_content_length),
        Err(e) => e.into_response().to_bytes_with(auto_content_length),
    }
}

/// The key under which a request is routed.
pub open spec fn route_key(r: RequestView) -> RouteKey {
    RouteKey { method: r.method, path: r.path }
}

/// The error that reports that no route serves a request.
pub open spec fn no_route(r: RequestView) -> ErrorView {
    ErrorView::NotFound { method: r.method, path: r.path }
}

/// Where a request is to go.
pub enum Routed<'a, H> {
    /// This handler serves the request, which is handed on as it is.
    Found(&'a H, Request),
    /// No handler serves the request: this is the error to report.
    Missing(HttpError),
}

/// Looks up the handler for a request by its method and path. The request is
/// handed on unchanged; where no route serves it, the result is the
/// `NotFound` error that names its method and path.
pub fn resolve<'a, H>(router: &'a Router<H>, request: Request) -> (r: Routed<'a, H>)
    ensures
        match r {
            Routed::Found(handler, same) => {
                &&& router.routes().contains_key(route_key(request@))
                &&& *handler == router.routes()[route_key(request@)]
                &&& same == request
            },
            Routed::Missing(e) => {
                &&& !router.routes().contains_key(route_key(request@))
                &&& e@ == no_route(request@)
            },
        },
{
    let identifier = RequestIdentifier { method: request.method, path: request.path.clone() };
    match router.select(&identifier) {
        Some(handler) => Routed::Found(handler, request),
        None => Routed::Missing(
            HttpError::NotFound { method: identifier.method, path: identifier.path },
        ),
    }
}

/// Hands a request to the handler that the router holds for its method and
/// path, and returns what the handler produced: an answer that this handler
/// admits for this very request. Where there is no handler, the result is the
/// `NotFound` error that names the method and the path.
pub fn dispatch<H: RequestHandler>(router: &Router<H>, request: Request) -> (outcome: Result<
    Response<Box<dyn Body>>,
    HttpError,
>)
    ensures
        router.routes().contains_key(route_key(request@)) ==> router.routes()[route_key(
            request@,
        )].admits(request, outcome),
        !router.routes().contains_key(route_key(request@)) ==> (outcome matches Err(e) && e@
            == no_route(request@)),
{
    match resolve(router, request) {
        Routed::Found(handler, request) => handler.handle(request),
        Routed::Missing(e) => Err(e),
    }
}

/// Answers a request that was parsed, or one that could not be: the bytes to
/// send back. A parse error is reported as it is; a request for which no
/// route is registered is reported as not found; any other request is
/// answered by its handler, and the bytes render an answer that the handler
/// admits. In every case the bytes are a well-formed response.
pub fn respond<H: RequestHandler>(
    router: &Router<H>,
    parsed: Result<Request, HttpError>,
    config: &Config,
) -> (out: Vec<u8>)
    ensures
        is_response(out@),
        match parsed {
            Err(e) => out@ == error_wire(e@, config.auto_content_length),
            Ok(request) => if router.routes().contains_key(route_key(request@)) {
                exists|outcome: Result<Response<Box<dyn Body>>, HttpError>|
                    #[trigger] router.routes()[route_key(request@)].admits(request, outcome)
                        && out@ == reply_wire(outcome, config.auto_content_length)
            } else {
                out@ == error_wire(no_route(request@), config.auto_content_length)
            },
        },
{
    match parsed {
        Err(e) => render::<String>(Err(e), config.auto_content_length),
        Ok(request) => render(dispatch(router, request), config.auto_content_length),
    }
}

/// The stages that a connection goes through, in order.
#[derive(Debug, Clone, Copy, PartialEq, Eq, Structural)]
pub enum Phase {
    /// The connection was accepted; nothing was read yet.
    Accepted,
    /// The request is being read.
    Parsing,
    /// A request was read and awaits its handler.
    Dispatching,
    /// The answer is known and awaits rendering.
    Serializing,
    /// The bytes of the answer await sending.
    Writing,
    /// The connection is done.
    Closed,
}

impl Phase {
    /// The place of this stage in the order of stages.
    pub open spec fn rank(self) -> nat {
        match self {
            Phase::Accepted => 0,
            Phase::Parsing => 1,
            Phase::Dispatching => 2,
            Phase::Serializing => 3,
            Phase::Writing => 4,
            Phase::Closed => 5,
        }
    }
}

/// One connection, with what it holds at its stage.
///
/// A connection only moves forward: every step leaves it at the same stage or
/// a later one, and only reading can leave it where it was. A failure while a
/// request is read or dispatched leads straight to `Serializing` with the
/// error to report, so that the peer is always answered.
pub enum Connection {
    /// Nothing was read yet.
    Accepted,
    /// The request is being read by this parser.
    Parsing(RequestParser),
    /// This request awaits its handler.
    Dispatching(Request),
    /// This response, or the response that reports this error, is the answer.
    Serializing(Result<Response<Box<dyn Body>>, HttpError>),
    /// These bytes are to be sent.
    Writing(Vec<u8>),
    /// The connection is done.
    Closed,
}

impl Connection {
    /// The stage of the connection.
    pub open spec fn phase_of(self) -> Phase {
        match self {
            Connection::Accepted => Phase::Accepted,
            Connection::Parsing(_) => Phase::Parsing,
            Connection::Dispatching(_) => Phase::Dispatching,
            Connection::Serializing(_) => Phase::Serializing,
            Connection::Writing(_) => Phase::Writing,
            Connection::Closed => Phase::Closed,
        }
    }

    /// Returns the stage of the connection.
    pub fn phase(&self) -> (p: Phase)
        ensures
            p == self.phase_of(),
    {
        match self {
            Connection::Accepted => Phase::Accepted,
            Connection::Parsing(_) => Phase::Parsing,
            Connection::Dispatching(_) => Phase::Dispatching,
            Connection::Serializing(_) => Phase::Serializing,
            Connection::Writing(_) => Phase::Writing,
            Connection::Closed => Phase::Closed,
        }
    }

    /// Returns the number of bytes of the request that were received and are
    /// held while the request is being read; zero at every other stage. A
    /// server that limits the size of requests compares this with its limit.
    pub fn buffered(&self) -> (n: usize)
        ensures
            match self {
                Connection::Parsing(p) => n == p.received().len(),
                _ => n == 0,
            },
    {
        match self {
            Connection::Parsing(parser) => parser.buffered(),
            _ => 0,
        }
    }

    /// Starts reading: an accepted connection gets a parser that has received
    /// nothing and that follows the configuration. At any other stage nothing
    /// changes.
    pub fn start(self, config: &Config) -> (next: Connection)
        ensures
            match self {
                Connection::Accepted => (next matches Connection::Parsing(p) && p.received()
                    == Seq::<u8>::empty() && p.policy() == config.on_unknown_header && p.limits()
                    == config.limits),
                _ => next == self,
            },
            next.phase_of().rank() >= self.phase_of().rank(),
    {
        match self {
            Connection::Accepted => Connection::Parsing(
                RequestParser::with_limits(config.on_unknown_header, config.limits),
            ),
            other => other,
        }
    }

    /// Takes a chunk that was read from the peer. While the message is
    /// incomplete the connection keeps parsing; a request that is read goes on
    /// to `Dispatching`, and a fault of the request goes to `Serializing`. At
    /// any stage but `Parsing` nothing changes.
    pub fn receive(self, chunk: &[u8]) -> (next: Connection)
        ensures
            match self {
                Connection::Parsing(p) => match parse_within(
                    p.received() + chunk@,
                    false,
                    p.policy(),
                    p.limits(),
                ) {
                    Outcome::Incomplete => (next matches Connection::Parsing(q) && q.received()
                        == p.received() + chunk@ && q.policy() == p.policy() && q.limits()
                        == p.limits()),
                    Outcome::Complete(Ok(request)) => (next matches Connection::Dispatching(r)
                        && r@ == request),
                    Outcome::Complete(Err(e)) => (next matches Connection::Serializing(Err(x))
                        && x@ == e),
                },
                _ => next == self,
            },
            next.phase_of().rank() >= self.phase_of().rank(),
    {
        match self {
            Connection::Parsing(parser) => match parser.feed(chunk) {
                Progress::Incomplete(parser) => Connection::Parsing(parser),
                Progress::Complete(Ok(request)) => Connection::Dispatching(request),
                Progress::Complete(Err(e)) => Connection::Serializing(Err(e)),
            },
            other => other,
        }
    }

    /// Takes note that the peer has sent all it will send. What was received
    /// is read as the whole message: a request goes on to `Dispatching`, a
    /// fault to `Serializing`. At any stage but `Parsing` nothing changes.
    pub fn end_of_stream(self) -> (next: Connection)
        ensures
            match self {
                Connection::Parsing(p) => match parse_within(
                    p.received(),
                    true,
                    p.policy(),
                    p.limits(),
                ) {
                    Outcome::Incomplete => false,
                    Outcome::Complete(Ok(request)) => (next matches Connection::Dispatching(r)
                        && r@ == request),
                    Outcome::Complete(Err(e)) => (next matches Connection::Serializing(Err(x))
                        && x@ == e),
                },
                _ => next == self,
            },
            next.phase_of().rank() >= self.phase_of().rank(),
            self is Parsing ==> next.phase_of().rank() > self.phase_of().rank(),
    {
        match self {
            Connection::Parsing(parser) => match parser.finish() {
                Ok(request) => Connection::Dispatching(request),
                Err(e) => Connection::Serializing(Err(e)),
            },
            other => other,
        }
    }

    /// Takes note that the transport failed. Before an answer is known, the
    /// failure becomes the answer: the connection goes to `Serializing` with
    /// an `IoError` that carries the description, so that sending a response
    /// is still attempted. Once an answer is known, the connection is closed.
    pub fn fail(self, description: String) -> (next: Connection)
        ensures
            match self {
                Connection::Accepted | Connection::Parsing(_) | Connection::Dispatching(_) => (next
                    matches Connection::Serializing(Err(e)) && e@ == ErrorView::IoError(
                    description@,
                )),
                _ => next is Closed,
            },
            next.phase_of().rank() >= self.phase_of().rank(),
    {
        match self {
            Connection::Accepted | Connection::Parsing(_) | Connection::Dispatching(_) => {
                Connection::Serializing(Err(HttpError::IoError(description)))
            },
            _ => Connection::Closed,
        }
    }

    /// Takes note that the peer took too long. Before an answer is known, the
    /// answer is `Timeout`, which is reported with the status 408; once an
    /// answer is known, the connection is closed.
    pub fn timed_out(self) -> (next: Connection)
        ensures
            match self {
                Connection::Accepted | Connection::Parsing(_) | Connection::Dispatching(_) => (next
                    matches Connection::Serializing(Err(e)) && e@ == ErrorView::Timeout),
                _ => next is Closed,
            },
            next.phase_of().rank() >= self.phase_of().rank(),
    {
        match self {
            Connection::Accepted | Connection::Parsing(_) | Connection::Dispatching(_) => {
                Connection::Serializing(Err(HttpError::Timeout))
            },
            _ => Connection::Closed,
        }
    }

    /// Hands the request to its handler and goes on to `Serializing` with what
    /// the handler produced, an answer that the handler admits for the
    /// request, or with `NotFound` where no route serves the request. At any
    /// stage but `Dispatching` nothing changes.
    pub fn dispatch<H: RequestHandler>(self, router: &Router<H>) -> (next: Connection)
        ensures
            match self {
                Connection::Dispatching(request) => {
                    &&& next is Serializing
                    &&& router.routes().contains_key(route_key(request@)) ==> (next
                        matches Connection::Serializing(outcome) && router.routes()[route_key(
                        request@,
                    )].admits(request, outcome))
                    &&& !router.routes().contains_key(route_key(request@)) ==> (next
                        matches Connection::Serializing(Err(e)) && e@ == no_route(request@))
                },
                _ => next == self,
            },
            next.phase_of().rank() >= self.phase_of().rank(),
    {
        match self {
            Connection::Dispatching(request) => Connection::Serializing(
                dispatch(router, request),
            ),
            other => other,
        }
    }

    /// Renders the answer and goes on to `Writing` with its bytes, which are a
    /// well-formed response. At any stage but `Serializing` nothing changes.
    pub fn serialize(self, auto_content_length: bool) -> (next: Connection)
        ensures
            match self {
                Connection::Serializing(outcome) => (next matches Connection::Writing(bytes)
                    && bytes@ == reply_wire(outcome, auto_content_length) && is_response(bytes@)),
                _ => next == self,
            },
            next.phase_of().rank() >= self.phase_of().rank(),
    {
        match self {
            Connection::Serializing(outcome) => Connection::Writing(
                render(outcome, auto_content_length),
            ),
            other => other,
        }
    }

    /// Borrows the bytes that are to be sent, if the connection is at the
    /// stage `Writing`.
    pub fn output(&self) -> (bytes: Option<&Vec<u8>>)
        ensures
            match self {
                Connection::Writing(out) => bytes == Some(out),
                _ => bytes is None,
            },
    {
        match self {
            Connection::Writing(out) => Some(out),
            _ => None,
        }
    }

    /// Takes note that the bytes were sent: the connection is closed. At any
    /// stage but `Writing` nothing changes.
    pub fn written(self) -> (next: Connection)
        ensures
            match self {
                Connection::Writing(_) => next is Closed,
                _ => next == self,
            },
            next.phase_of().rank() >= self.phase_of().rank(),
    {
        match self {
            Connection::Writing(_) => Connection::Closed,
            other => other,
        }
    }
}

} // verus!
