use crate::http::bytes::{
    colon_space, crlf, find, find_colon_space, find_crlf, find_space, find_terminator,
    lemma_colon_space_at, lemma_crlf_at, lemma_find_from, lemma_find_from_skip, lemma_find_resume,
    lemma_find_stable, lemma_space_at, lemma_terminator_at, space, terminator,
};
use crate::http::config::{exceeds, is_over, Limits, UnknownHeaderPolicy};
use crate::http::error::{ErrorView, HttpError};
use crate::http::header::{header_views, HeaderName, HeaderView, HttpHeader};
use crate::http::method::Method;
use crate::http::request::{Request, RequestView};
use crate::http::response::{find_header, header_index, lemma_header_index_from};
use crate::http::text::{
    copy_range, cut_point, decimal_value, decode_range, lemma_valid_between_cuts, parse_decimal,
    Length,
};
use vstd::prelude::*;
use vstd::utf8::*;

verus! {

/// The lines of a message head: the runs of bytes between line endings, with
/// the empty runs left out.
pub open spec fn split_lines(s: Seq<u8>) -> Seq<Seq<u8>>
    decreases s.len(),
{
    match find(s, crlf()) {
        None => if s.len() == 0 {
            Seq::empty()
        } else {
            seq![s]
        },
        Some(i) => {
            proof {
                lemma_find_from(s, crlf(), 0);
            }
            let rest = split_lines(s.skip(i + 2));
            if i == 0 {
                rest
            } else {
                seq![s.take(i)] + rest
            }
        },
    }
}

/// The pieces of `s` that the index pairs in `ranges` mark out.
pub open spec fn ranges_of(s: Seq<u8>, ranges: Seq<(usize, usize)>) -> Seq<Seq<u8>> {
    Seq::new(ranges.len(), |k: int| s.subrange(ranges[k].0 as int, ranges[k].1 as int))
}

/// Splits a message head into its lines, each given by where it starts and
/// where it ends.
pub fn line_ranges(head: &[u8]) -> (r: Vec<(usize, usize)>)
    ensures
        ranges_of(head@, r@) == split_lines(head@),
        forall|k: int|
            0 <= k < r@.len() ==> {
                &&& (#[trigger] r@[k]).0 < r@[k].1 <= head@.len()
                &&& cut_point(head@, r@[k].0 as int)
                &&& cut_point(head@, r@[k].1 as int)
            },
{
    let mut r: Vec<(usize, usize)> = Vec::new();
    let mut pos: usize = 0;
    proof {
        assert(head@.skip(0) =~= head@);
        assert(ranges_of(head@, r@) + split_lines(head@.skip(0)) =~= split_lines(head@));
    }
    while pos < head.len()
        invariant
            pos <= head.len(),
            cut_point(head@, pos as int),
            split_lines(head@) == ranges_of(head@, r@) + split_lines(head@.skip(pos as int)),
            forall|k: int|
                0 <= k < r@.len() ==> {
                    &&& (#[trigger] r@[k]).0 < r@[k].1 <= head@.len()
                    &&& cut_point(head@, r@[k].0 as int)
                    &&& cut_point(head@, r@[k].1 as int)
                },
        decreases head.len() - pos,
    {
        let ghost suffix = head@.skip(pos as int);
        let ghost done = ranges_of(head@, r@);
        proof {
            lemma_find_from_skip(head@, crlf(), pos as int);
            lemma_find_from(head@, crlf(), pos as int);
        }
        match find_crlf(head, pos) {
            Some(i) => {
                proof {
                    lemma_crlf_at(head@, i as int);
                    assert(suffix.skip(i - pos + 2) =~= head@.skip(i + 2));
                    assert(suffix.take(i - pos) =~= head@.subrange(pos as int, i as int));
                }
                if i > pos {
                    r.push((pos, i));
                    proof {
                        let line = head@.subrange(pos as int, i as int);
                        assert(ranges_of(head@, r@) =~= done.push(line));
                        assert(done.push(line) + split_lines(head@.skip(i + 2)) =~= done + (
                        seq![line] + split_lines(head@.skip(i + 2))));
                    }
                }
                pos = i + 2;
            },
            None => {
                r.push((pos, head.len()));
                proof {
                    let line = head@.subrange(pos as int, head@.len() as int);
                    assert(suffix =~= line);
                    assert(ranges_of(head@, r@) =~= done.push(line));
                    let end = head@.skip(head@.len() as int);
                    assert(end.len() == 0);
                    assert(find(end, crlf()) is None);
                    assert(split_lines(end) =~= Seq::<Seq<u8>>::empty());
                    assert(done.push(line) + split_lines(end) =~= done + seq![line]);
                }
                pos = head.len();
            },
        }
    }
    proof {
        let end = head@.skip(head@.len() as int);
        assert(end.len() == 0);
        assert(find(end, crlf()) is None);
        assert(split_lines(end) =~= Seq::<Seq<u8>>::empty());
        assert(ranges_of(head@, r@) + split_lines(end) =~= ranges_of(head@, r@));
    }
    r
}

/// The first three tokens of a request line: the runs of bytes between single
/// spaces. A line with fewer than three tokens has no parts; tokens after the
/// third are not looked at.
pub open spec fn request_line_parts(line: Seq<u8>) -> Option<(Seq<u8>, Seq<u8>, Seq<u8>)> {
    match find(line, space()) {
        None => None,
        Some(a) => {
            let rest = line.skip(a + 1);
            match find(rest, space()) {
                None => None,
                Some(b) => {
                    let tail = rest.skip(b + 1);
                    let version = match find(tail, space()) {
                        Some(c) => tail.take(c),
                        None => tail,
                    };
                    Some((line.take(a), rest.take(b), version))
                },
            }
        },
    }
}

/// What a request line says: the method, the path and the version, or why it
/// says nothing.
pub open spec fn read_request_line(line: Seq<u8>) -> Result<
    (Method, Seq<char>, Seq<char>),
    ErrorView,
> {
    match request_line_parts(line) {
        None => Err(ErrorView::MalformedRequestLine),
        Some((method, path, version)) => match Method::of_token(decode_utf8(method)) {
            None => Err(ErrorView::UnknownMethod(decode_utf8(method))),
            Some(m) => Ok((m, decode_utf8(path), decode_utf8(version))),
        },
    }
}

/// The model of what [`parse_request_line`] returns.
pub open spec fn request_line_view(r: Result<(Method, String, String), HttpError>) -> Result<
    (Method, Seq<char>, Seq<char>),
    ErrorView,
> {
    match r {
        Ok((method, path, version)) => Ok((method, path@, version@)),
        Err(e) => Err(e@),
    }
}

/// Reads a request line: `METHOD path version`, separated by single spaces.
pub(crate) fn parse_request_line(line: &[u8]) -> (r: Result<(Method, String, String), HttpError>)
    requires
        valid_utf8(line@),
    ensures
        request_line_view(r) == read_request_line(line@),
{
    let ghost s = line@;
    proof {
        lemma_find_from(s, space(), 0);
    }
    let a = match find_space(line, 0) {
        Some(a) => a,
        None => {
            return Err(HttpError::MalformedRequestLine);
        },
    };
    proof {
        lemma_space_at(s, a as int);
        assert(a < line.len());
        lemma_find_from_skip(s, space(), a + 1);
        lemma_find_from(s, space(), a + 1);
    }
    let b = match find_space(line, a + 1) {
        Some(b) => b,
        None => {
            return Err(HttpError::MalformedRequestLine);
        },
    };
    proof {
        lemma_space_at(s, b as int);
        assert(b < line.len());
        lemma_find_from_skip(s, space(), b + 1);
        lemma_find_from(s, space(), b + 1);
    }
    let c = match find_space(line, b + 1) {
        Some(c) => c,
        None => line.len(),
    };
    proof {
        let rest = s.skip(a + 1);
        let tail = rest.skip(b - a);
        assert(tail =~= s.skip(b + 1));
        assert(s.take(a as int) =~= s.subrange(0, a as int));
        assert(rest.take(b - (a + 1)) =~= s.subrange(a + 1, b as int));
        if c < s.len() {
            lemma_space_at(s, c as int);
            assert(tail.take(c - (b + 1)) =~= s.subrange(b + 1, c as int));
        } else {
            assert(tail =~= s.subrange(b + 1, c as int));
        }
        lemma_valid_between_cuts(s, 0, a as int);
        lemma_valid_between_cuts(s, a + 1, b as int);
        lemma_valid_between_cuts(s, b + 1, c as int);
    }
    let token = decode_range(line, 0, a);
    match Method::from_token(token.as_str()) {
        None => Err(HttpError::UnknownMethod(token)),
        Some(method) => Ok((method, decode_range(line, a + 1, b), decode_range(line, b + 1, c))),
    }
}

/// What a header line says under a policy for unrecognized names: a header,
/// nothing (the line is skipped), or why the request is refused.
pub open spec fn read_header_line(line: Seq<u8>, policy: UnknownHeaderPolicy) -> Result<
    Option<HeaderView>,
    ErrorView,
> {
    match find(line, colon_space()) {
        None => Err(ErrorView::MalformedHeaderLine(decode_utf8(line))),
        Some(i) => {
            let name = decode_utf8(line.take(i));
            let value = decode_utf8(line.skip(i + 2));
            match HeaderName::of_text(name) {
                Some(n) => Ok(Some(HeaderView { name: n, value })),
                None => match policy {
                    UnknownHeaderPolicy::Reject => Err(ErrorView::UnknownHeader(name)),
                    UnknownHeaderPolicy::Skip => Ok(None),
                },
            }
        },
    }
}

/// The model of what [`parse_header_line`] returns.
pub open spec fn header_line_view(r: Result<Option<HttpHeader>, HttpError>) -> Result<
    Option<HeaderView>,
    ErrorView,
> {
    match r {
        Ok(Some(h)) => Ok(Some(h@)),
        Ok(None) => Ok(None),
        Err(e) => Err(e@),
    }
}

/// Reads a header line: a name, the first `": "`, and a value.
pub(crate) fn parse_header_line(line: &[u8], policy: UnknownHeaderPolicy) -> (r: Result<
    Option<HttpHeader>,
    HttpError,
>)
    requires
        valid_utf8(line@),
    ensures
        header_line_view(r) == read_header_line(line@, policy),
{
    let ghost s = line@;
    proof {
        lemma_find_from(s, colon_space(), 0);
        assert(s.subrange(0, s.len() as int) =~= s);
    }
    match find_colon_space(line, 0) {
        None => Err(HttpError::MalformedHeaderLine(decode_range(line, 0, line.len()))),
        Some(i) => {
            proof {
                lemma_colon_space_at(s, i as int);
                assert(i + 2 <= line.len());
                assert(s.take(i as int) =~= s.subrange(0, i as int));
                assert(s.skip(i + 2) =~= s.subrange(i + 2, s.len() as int));
                lemma_valid_between_cuts(s, 0, i as int);
                lemma_valid_between_cuts(s, i + 2, s.len() as int);
            }
            let name = decode_range(line, 0, i);
            match HeaderName::from_text(name.as_str()) {
                Some(n) => Ok(
                    Some(HttpHeader::from_parts(n, decode_range(line, i + 2, line.len()))),
                ),
                None => match policy {
                    UnknownHeaderPolicy::Reject => Err(HttpError::UnknownHeader(name)),
                    UnknownHeaderPolicy::Skip => Ok(None),
                },
            }
        },
    }
}

/// What a run of header lines says: the headers in order, or the reason why
/// the first faulty line has the request refused.
pub open spec fn read_headers(lines: Seq<Seq<u8>>, policy: UnknownHeaderPolicy) -> Result<
    Seq<HeaderView>,
    ErrorView,
>
    decreases lines.len(),
{
    if lines.len() == 0 {
        Ok(Seq::empty())
    } else {
        match read_header_line(lines[0], policy) {
            Err(e) => Err(e),
            Ok(first) => match read_headers(lines.skip(1), policy) {
                Err(e) => Err(e),
                Ok(rest) => Ok(
                    match first {
                        Some(h) => seq![h] + rest,
                        None => rest,
                    },
                ),
            },
        }
    }
}

/// What a message head says: a request without a body, or why it is refused.
/// The head must be valid UTF-8; its first line is the request line, and each
/// further line is a header.
pub open spec fn read_head(head: Seq<u8>, policy: UnknownHeaderPolicy) -> Result<
    RequestView,
    ErrorView,
> {
    if !valid_utf8(head) {
        Err(ErrorView::InvalidEncoding)
    } else if split_lines(head).len() == 0 {
        Err(ErrorView::MalformedRequestLine)
    } else {
        match read_request_line(split_lines(head)[0]) {
            Err(e) => Err(e),
            Ok((method, path, version)) => match read_headers(split_lines(head).skip(1), policy) {
                Err(e) => Err(e),
                Ok(headers) => Ok(
                    RequestView { method, path, http_version: version, headers, body: None },
                ),
            },
        }
    }
}

/// The model of the result of parsing.
pub open spec fn result_view(r: Result<Request, HttpError>) -> Result<RequestView, ErrorView> {
    match r {
        Ok(request) => Ok(request@),
        Err(e) => Err(e@),
    }
}

/// `acc`, followed by what the remaining lines say.
pub open spec fn prepend(acc: Seq<HeaderView>, rest: Result<Seq<HeaderView>, ErrorView>) -> Result<
    Seq<HeaderView>,
    ErrorView,
> {
    match rest {
        Ok(headers) => Ok(acc + headers),
        Err(e) => Err(e),
    }
}

/// Parses a message head: the bytes before the blank line.
pub fn parse_head(head: &[u8], policy: UnknownHeaderPolicy) -> (r: Result<Request, HttpError>)
    ensures
        result_view(r) == read_head(head@, policy),
{
    if crate::http::text::decode(head).is_none() {
        return Err(HttpError::InvalidEncoding);
    }
    let lines = line_ranges(head);
    if lines.len() == 0 {
        return Err(HttpError::MalformedRequestLine);
    }
    let ghost all = split_lines(head@);
    proof {
        assert(all.len() == lines@.len());
        assert(all[0] == head@.subrange(lines@[0].0 as int, lines@[0].1 as int));
        lemma_valid_between_cuts(head@, lines@[0].0 as int, lines@[0].1 as int);
    }
    let first = vstd::slice::slice_subrange(head, lines[0].0, lines[0].1);
    let (method, path, http_version) = match parse_request_line(first) {
        Ok(parts) => parts,
        Err(e) => {
            return Err(e);
        },
    };
    let mut headers: Vec<HttpHeader> = Vec::new();
    let mut k: usize = 1;
    proof {
        assert(prepend(header_views(headers@), read_headers(all.skip(1), policy)) == read_headers(
            all.skip(1),
            policy,
        )) by {
            match read_headers(all.skip(1), policy) {
                Ok(hs) => {
                    assert(header_views(headers@) + hs =~= hs);
                },
                Err(_) => {},
            }
        }
    }
    while k < lines.len()
        invariant
            1 <= k <= lines.len(),
            valid_utf8(head@),
            all == split_lines(head@),
            all.len() == lines@.len(),
            read_request_line(all[0]) == Ok::<(Method, Seq<char>, Seq<char>), ErrorView>(
                (method, path@, http_version@),
            ),
            ranges_of(head@, lines@) == all,
            forall|j: int|
                0 <= j < lines@.len() ==> {
                    &&& (#[trigger] lines@[j]).0 < lines@[j].1 <= head@.len()
                    &&& cut_point(head@, lines@[j].0 as int)
                    &&& cut_point(head@, lines@[j].1 as int)
                },
            read_headers(all.skip(1), policy) == prepend(
                header_views(headers@),
                read_headers(all.skip(k as int), policy),
            ),
        decreases lines.len() - k,
    {
        let ghost before = header_views(headers@);
        proof {
            assert(all.len() == lines@.len());
            assert(all[k as int] == head@.subrange(lines@[k as int].0 as int, lines@[k as int].1 as int));
            lemma_valid_between_cuts(head@, lines@[k as int].0 as int, lines@[k as int].1 as int);
            assert(all.skip(k as int)[0] == all[k as int]);
            assert(all.skip(k as int).skip(1) =~= all.skip(k + 1));
        }
        let line = vstd::slice::slice_subrange(head, lines[k].0, lines[k].1);
        match parse_header_line(line, policy) {
            Err(e) => {
                return Err(e);
            },
            Ok(None) => {},
            Ok(Some(header)) => {
                headers.push(header);
                proof {
                    assert(header_views(headers@) =~= before.push(header@));
                    match read_headers(all.skip(k + 1), policy) {
                        Ok(rest) => {
                            assert(before.push(header@) + rest =~= before + (seq![header@] + rest));
                        },
                        Err(_) => {},
                    }
                }
            },
        }
        k += 1;
    }
    proof {
        assert(all.skip(k as int).len() == 0);
        assert(header_views(headers@) + Seq::<HeaderView>::empty() =~= header_views(headers@));
    }
    Ok(Request { method, path, http_version, headers, body: None })
}

/// The length of the body that the headers declare: the number that the
/// first `Content-Length` header spells, if there is such a header and its
/// value is a number.
pub open spec fn declared_length(headers: Seq<HeaderView>) -> Option<nat> {
    match header_index(headers, HeaderName::ContentLength) {
        Some(i) => decimal_value(encode_utf8(headers[i].value)),
        None => None,
    }
}

/// Reads the length of the body that the headers declare.
pub fn content_length(headers: &Vec<HttpHeader>) -> (r: Length)
    ensures
        r == Length::of(declared_length(header_views(headers@))),
{
    match find_header(headers, HeaderName::ContentLength) {
        Some(i) => {
            proof {
                lemma_header_index_from(header_views(headers@), HeaderName::ContentLength, 0);
            }
            parse_decimal(headers[i].value_str().as_bytes())
        },
        None => Length::Invalid,
    }
}

/// How far the bytes received so far take the parser.
pub enum Outcome {
    /// More bytes are needed before anything can be said.
    Incomplete,
    /// The message is read: here is the request, or why there is none.
    Complete(Result<RequestView, ErrorView>),
}

/// The request with the given body in place of its own.
pub open spec fn with_body(r: RequestView, body: Option<Seq<u8>>) -> RequestView {
    RequestView {
        method: r.method,
        path: r.path,
        http_version: r.http_version,
        headers: r.headers,
        body,
    }
}

/// What becomes of a parsed head once `carried`, the bytes that follow the
/// blank line, are looked at. A request that declares no length, or length
/// zero, has no body. One that declares `n` bytes has the first `n` bytes of
/// `carried` as its body; while fewer have arrived it is incomplete, and it is
/// truncated if the stream has ended.
pub open spec fn attach_body(
    head: Result<RequestView, ErrorView>,
    carried: Seq<u8>,
    at_end: bool,
) -> Outcome {
    match head {
        Err(e) => Outcome::Complete(Err(e)),
        Ok(r) => match declared_length(r.headers) {
            None => Outcome::Complete(Ok(r)),
            Some(n) => if n == 0 {
                Outcome::Complete(Ok(r))
            } else if n <= carried.len() {
                Outcome::Complete(Ok(with_body(r, Some(carried.take(n as int)))))
            } else if at_end {
                Outcome::Complete(Err(ErrorView::TruncatedBody))
            } else {
                Outcome::Incomplete
            },
        },
    }
}

/// What the bytes received so far amount to. The head ends at the first blank
/// line; if the stream has ended without one, everything received is the head.
pub open spec fn parse_message(bytes: Seq<u8>, at_end: bool, policy: UnknownHeaderPolicy) -> Outcome {
    match find(bytes, terminator()) {
        Some(i) => attach_body(read_head(bytes.take(i), policy), bytes.skip(i + 4), at_end),
        None => if at_end {
            attach_body(read_head(bytes, policy), Seq::empty(), true)
        } else {
            Outcome::Incomplete
        },
    }
}

/// True when the headers declare a body that is longer than the limits allow.
pub open spec fn body_over(headers: Seq<HeaderView>, limits: Limits) -> bool {
    match declared_length(headers) {
        Some(n) => exceeds(n as int, limits.max_body_bytes),
        None => false,
    }
}

/// What becomes of a parsed head under limits: a request that declares too
/// long a body is refused at once; any other goes on as [`attach_body`] says.
pub open spec fn attach_within(
    head: Result<RequestView, ErrorView>,
    carried: Seq<u8>,
    at_end: bool,
    limits: Limits,
) -> Outcome {
    match head {
        Ok(r) => if body_over(r.headers, limits) {
            Outcome::Complete(Err(ErrorView::BodyTooLarge))
        } else {
            attach_body(head, carried, at_end)
        },
        Err(e) => Outcome::Complete(Err(e)),
    }
}

/// What the bytes received so far amount to under limits. A head that is
/// longer than allowed is refused, and so are bytes without a blank line once
/// no blank line can come early enough; a body that is declared longer than
/// allowed is refused before it is read. Apart from that the bytes amount to
/// what [`parse_message`] says.
pub open spec fn parse_within(
    bytes: Seq<u8>,
    at_end: bool,
    policy: UnknownHeaderPolicy,
    limits: Limits,
) -> Outcome {
    match find(bytes, terminator()) {
        Some(i) => if exceeds(i, limits.max_head_bytes) {
            Outcome::Complete(Err(ErrorView::HeadTooLarge))
        } else {
            attach_within(read_head(bytes.take(i), policy), bytes.skip(i + 4), at_end, limits)
        },
        None => if exceeds(bytes.len() - 3, limits.max_head_bytes) || (at_end && exceeds(
            bytes.len() as int,
            limits.max_head_bytes,
        )) {
            Outcome::Complete(Err(ErrorView::HeadTooLarge))
        } else if at_end {
            attach_within(read_head(bytes, policy), Seq::empty(), true, limits)
        } else {
            Outcome::Incomplete
        },
    }
}

/// Refuses a parsed head that declares too long a body.
pub(crate) fn check_body(request: Request, limits: Limits) -> (r: Result<Request, HttpError>)
    ensures
        match r {
            Ok(same) => same == request && !body_over(request@.headers, limits),
            Err(e) => e@ == ErrorView::BodyTooLarge && body_over(request@.headers, limits),
        },
{
    let over = match content_length(&request.headers) {
        Length::Invalid => false,
        Length::Exact(n) => is_over(n, limits.max_body_bytes),
        Length::Huge => limits.max_body_bytes.is_some(),
    };
    if over {
        Err(HttpError::BodyTooLarge)
    } else {
        Ok(request)
    }
}

/// What looking for the body of a parsed head gave.
pub(crate) enum BodyStep {
    /// The message is read.
    Done(Result<Request, HttpError>),
    /// The body has not arrived in full; the head is handed back.
    Waiting(Request),
}

impl BodyStep {
    /// The model of this step.
    pub(crate) open spec fn outcome(self) -> Outcome {
        match self {
            BodyStep::Done(result) => Outcome::Complete(result_view(result)),
            BodyStep::Waiting(_) => Outcome::Incomplete,
        }
    }
}

/// Gives a parsed head its body out of `buffer[body_start..]`.
pub(crate) fn take_body(request: Request, buffer: &[u8], body_start: usize, at_end: bool) -> (r: BodyStep)
    requires
        body_start <= buffer.len(),
        request@.body is None,
    ensures
        r.outcome() == attach_body(Ok(request@), buffer@.skip(body_start as int), at_end),
        r matches BodyStep::Waiting(same) ==> same == request,
{
    let available = buffer.len() - body_start;
    let ghost carried = buffer@.skip(body_start as int);
    match content_length(&request.headers) {
        Length::Invalid => BodyStep::Done(Ok(request)),
        Length::Exact(n) => {
            if n == 0 {
                BodyStep::Done(Ok(request))
            } else if n <= available {
                let body = copy_range(buffer, body_start, body_start + n);
                proof {
                    assert(carried.take(n as int) =~= buffer@.subrange(
                        body_start as int,
                        body_start + n,
                    ));
                }
                BodyStep::Done(
                    Ok(
                        Request {
                            method: request.method,
                            path: request.path,
                            http_version: request.http_version,
                            headers: request.headers,
                            body: Some(body),
                        },
                    ),
                )
            } else if at_end {
                BodyStep::Done(Err(HttpError::TruncatedBody))
            } else {
                BodyStep::Waiting(request)
            }
        },
        Length::Huge => {
            if at_end {
                BodyStep::Done(Err(HttpError::TruncatedBody))
            } else {
                BodyStep::Waiting(request)
            }
        },
    }
}

/// Parses a complete message: everything that the peer sent before it closed
/// the stream.
pub fn parse_bytes(bytes: &[u8], policy: UnknownHeaderPolicy) -> (r: Result<Request, HttpError>)
    ensures
        parse_message(bytes@, true, policy) == Outcome::Complete(result_view(r)),
{
    proof {
        lemma_find_from(bytes@, terminator(), 0);
    }
    let (head_end, body_start) = match find_terminator(bytes, 0) {
        Some(i) => {
            proof {
                lemma_terminator_at(bytes@, i as int);
                assert(i + 4 <= bytes.len());
            }
            (i, i + 4)
        },
        None => (bytes.len(), bytes.len()),
    };
    proof {
        assert(bytes@.take(bytes@.len() as int) =~= bytes@);
        assert(bytes@.skip(bytes@.len() as int) =~= Seq::<u8>::empty());
        assert(bytes@.take(head_end as int) =~= bytes@.subrange(0, head_end as int));
    }
    let head = vstd::slice::slice_subrange(bytes, 0, head_end);
    match parse_head(head, policy) {
        Err(e) => Err(e),
        Ok(request) => match take_body(request, bytes, body_start, true) {
            BodyStep::Done(result) => result,
            BodyStep::Waiting(_) => Err(HttpError::TruncatedBody),
        },
    }
}

/// An incremental parser: it is fed the bytes of a stream as they arrive and
/// says, after each chunk, whether the message is read.
///
/// The parser keeps what it has received. The bytes that were searched for the
/// blank line are not searched again, and a blank line that straddles two
/// chunks is found all the same.
pub struct RequestParser {
    policy: UnknownHeaderPolicy,
    limits: Limits,
    buffer: Vec<u8>,
    pending: Option<(Request, usize)>,
}

/// What a parser says after a chunk.
pub enum Progress {
    /// The message is incomplete: here is the parser to feed further.
    Incomplete(RequestParser),
    /// The message is read: here is the request, or why there is none.
    Complete(Result<Request, HttpError>),
}

impl Progress {
    /// The model of this answer.
    pub open spec fn outcome(self) -> Outcome {
        match self {
            Progress::Incomplete(_) => Outcome::Incomplete,
            Progress::Complete(result) => Outcome::Complete(result_view(result)),
        }
    }
}

impl RequestParser {
    #[verifier::type_invariant]
    spec fn well_formed(self) -> bool {
        match self.pending {
            None => find(self.buffer@, terminator()) is None,
            Some((request, body_start)) => {
                &&& 4 <= body_start <= self.buffer@.len()
                &&& find(self.buffer@, terminator()) == Some(body_start - 4)
                &&& !exceeds(body_start - 4, self.limits.max_head_bytes)
                &&& read_head(self.buffer@.take(body_start - 4), self.policy) == Ok::<
                    RequestView,
                    ErrorView,
                >(request@)
                &&& !body_over(request@.headers, self.limits)
            },
        }
    }

    /// All the bytes that the parser has been fed.
    pub closed spec fn received(&self) -> Seq<u8> {
        self.buffer@
    }

    /// What the parser does with unrecognized headers.
    pub closed spec fn policy(&self) -> UnknownHeaderPolicy {
        self.policy
    }

    /// The ceilings that the parser holds requests to.
    pub closed spec fn limits(&self) -> Limits {
        self.limits
    }

    /// Creates a parser that has received nothing yet and sets no ceiling.
    pub fn new(policy: UnknownHeaderPolicy) -> (parser: RequestParser)
        ensures
            parser.received() == Seq::<u8>::empty(),
            parser.policy() == policy,
            parser.limits() == Limits::unlimited(),
    {
        RequestParser::with_limits(policy, Limits::none())
    }

    /// Creates a parser that has received nothing yet and holds requests to
    /// the given limits.
    pub fn with_limits(policy: UnknownHeaderPolicy, limits: Limits) -> (parser: RequestParser)
        ensures
            parser.received() == Seq::<u8>::empty(),
            parser.policy() == policy,
            parser.limits() == limits,
    {
        let buffer: Vec<u8> = Vec::new();
        assert(find(buffer@, terminator()) is None);
        RequestParser { policy, limits, buffer, pending: None }
    }

    /// Returns the number of bytes received so far.
    pub fn buffered(&self) -> (n: usize)
        ensures
            n == self.received().len(),
    {
        self.buffer.len()
    }

    /// Goes on from a head that was read: looks for the body in what follows
    /// the blank line at `head_end`.
    fn resume(
        policy: UnknownHeaderPolicy,
        limits: Limits,
        buffer: Vec<u8>,
        request: Request,
        head_end: usize,
    ) -> (r: Progress)
        requires
            head_end + 4 <= buffer.len(),
            find(buffer@, terminator()) == Some(head_end as int),
            !exceeds(head_end as int, limits.max_head_bytes),
            read_head(buffer@.take(head_end as int), policy) == Ok::<RequestView, ErrorView>(
                request@,
            ),
            !body_over(request@.headers, limits),
        ensures
            r.outcome() == parse_within(buffer@, false, policy, limits),
            r matches Progress::Incomplete(next) ==> next.received() == buffer@ && next.policy()
                == policy && next.limits() == limits,
    {
        match take_body(request, buffer.as_slice(), head_end + 4, false) {
            BodyStep::Done(result) => Progress::Complete(result),
            BodyStep::Waiting(request) => Progress::Incomplete(
                RequestParser { policy, limits, buffer, pending: Some((request, head_end + 4)) },
            ),
        }
    }

    /// Goes on from a blank line that was found at `head_end`: reads the head
    /// before it, then looks for the body.
    fn read(
        policy: UnknownHeaderPolicy,
        limits: Limits,
        buffer: Vec<u8>,
        head_end: usize,
    ) -> (r: Progress)
        requires
            find(buffer@, terminator()) == Some(head_end as int),
        ensures
            r.outcome() == parse_within(buffer@, false, policy, limits),
            r matches Progress::Incomplete(next) ==> next.received() == buffer@ && next.policy()
                == policy && next.limits() == limits,
    {
        proof {
            lemma_find_from(buffer@, terminator(), 0);
            lemma_terminator_at(buffer@, head_end as int);
            assert(buffer@.take(head_end as int) =~= buffer@.subrange(0, head_end as int));
        }
        if is_over(head_end, limits.max_head_bytes) {
            return Progress::Complete(Err(HttpError::HeadTooLarge));
        }
        let head = vstd::slice::slice_subrange(buffer.as_slice(), 0, head_end);
        match parse_head(head, policy) {
            Err(e) => Progress::Complete(Err(e)),
            Ok(request) => match check_body(request, limits) {
                Err(e) => Progress::Complete(Err(e)),
                Ok(request) => RequestParser::resume(policy, limits, buffer, request, head_end),
            },
        }
    }

    /// Takes the next chunk of the stream. The answer is what all the bytes
    /// received so far amount to; while the message is incomplete, the parser
    /// comes back with the chunk added to what it holds.
    pub fn feed(self, chunk: &[u8]) -> (r: Progress)
        ensures
            r.outcome() == parse_within(
                self.received() + chunk@,
                false,
                self.policy(),
                self.limits(),
            ),
            r matches Progress::Incomplete(next) ==> next.received() == self.received() + chunk@
                && next.policy() == self.policy() && next.limits() == self.limits(),
    {
        proof {
            use_type_invariant(&self);
        }
        let ghost old_bytes = self.buffer@;
        let RequestParser { policy, limits, buffer, pending } = self;
        let mut buffer = buffer;
        let old_len = buffer.len();
        buffer.extend_from_slice(chunk);
        assert(buffer@ =~= old_bytes + chunk@);
        match pending {
            Some((request, body_start)) => {
                proof {
                    lemma_find_stable(old_bytes, chunk@, terminator());
                    assert(buffer@.take(body_start - 4) =~= old_bytes.take(body_start - 4));
                }
                RequestParser::resume(policy, limits, buffer, request, body_start - 4)
            },
            None => {
                let from = if old_len >= 3 {
                    old_len - 3
                } else {
                    0
                };
                proof {
                    assert(terminator().len() == 4);
                    lemma_find_resume(old_bytes, chunk@, terminator(), from as int);
                }
                match find_terminator(buffer.as_slice(), from) {
                    Some(head_end) => RequestParser::read(policy, limits, buffer, head_end),
                    None => {
                        if buffer.len() >= 3 && is_over(buffer.len() - 3, limits.max_head_bytes) {
                            Progress::Complete(Err(HttpError::HeadTooLarge))
                        } else {
                            Progress::Incomplete(
                                RequestParser { policy, limits, buffer, pending: None },
                            )
                        }
                    },
                }
            },
        }
    }

    /// Tells the parser that the stream has ended. The answer is what the
    /// bytes received amount to, now that no more will come.
    pub fn finish(self) -> (r: Result<Request, HttpError>)
        ensures
            parse_within(self.received(), true, self.policy(), self.limits()) == Outcome::Complete(
                result_view(r),
            ),
    {
        proof {
            use_type_invariant(&self);
        }
        let RequestParser { policy, limits, buffer, pending } = self;
        let step = match pending {
            Some((request, body_start)) => take_body(request, buffer.as_slice(), body_start, true),
            None => {
                proof {
                    assert(buffer@.subrange(0, buffer@.len() as int) =~= buffer@);
                    assert(buffer@.skip(buffer@.len() as int) =~= Seq::<u8>::empty());
                }
                if is_over(buffer.len(), limits.max_head_bytes) {
                    return Err(HttpError::HeadTooLarge);
                }
                match parse_head(buffer.as_slice(), policy) {
                    Err(e) => BodyStep::Done(Err(e)),
                    Ok(request) => match check_body(request, limits) {
                        Err(e) => BodyStep::Done(Err(e)),
                        Ok(request) => take_body(request, buffer.as_slice(), buffer.len(), true),
                    },
                }
            },
        };
        match step {
            BodyStep::Done(result) => result,
            BodyStep::Waiting(_) => Err(HttpError::TruncatedBody),
        }
    }
}

} // verus!
