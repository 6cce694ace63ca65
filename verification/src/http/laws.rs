use crate::http::bytes::{
    colon_space, crlf, find, lemma_colon_space_at, lemma_crlf_at, lemma_find_from,
    lemma_find_from_is, lemma_find_from_none, lemma_find_stable, lemma_matches_at_prefix,
    lemma_space_at, lemma_terminator_at, matches_at, space, terminator,
};
use crate::http::config::{exceeds, Limits, UnknownHeaderPolicy};
use crate::http::error::{message_of, status_of, ErrorView};
use crate::http::header::{header_line, HeaderName, HeaderView};
use crate::http::method::Method;
use crate::http::parser::{
    body_over, declared_length, parse_message, parse_within, read_head, read_header_line,
    read_headers, read_request_line, request_line_parts, split_lines, with_body, Outcome,
};
use crate::http::request::{body_bytes, request_line, request_wire, RequestView};
use crate::http::response::{
    header_block, header_index, lemma_header_index_from, message_bytes, wire_headers,
};
use crate::http::status::HttpStatus;
use crate::http::text::{
    decimal, is_ascii_bytes, lemma_ascii_bytes_decode, lemma_decimal_bytes,
    lemma_encode_lacks_byte,
};
use vstd::prelude::*;
use vstd::utf8::*;

verus! {

/// True when `text` can stand as a token of a request line: it holds no
/// space, carriage return or line feed.
pub open spec fn is_token(text: Seq<char>) -> bool {
    forall|i: int| 0 <= i < text.len() ==> text[i] != ' ' && text[i] != '\r' && text[i] != '\n'
}

/// True when `text` can stand as the value of a header: it holds no carriage
/// return and no line feed.
pub open spec fn is_field_value(text: Seq<char>) -> bool {
    forall|i: int| 0 <= i < text.len() ==> text[i] != '\r' && text[i] != '\n'
}

/// True when a request survives the wire: its path and version are tokens,
/// and the value of each header fits on a line.
pub open spec fn wire_safe(r: RequestView) -> bool {
    &&& is_token(r.path)
    &&& is_token(r.http_version)
    &&& forall|i: int| 0 <= i < r.headers.len() ==> is_field_value(#[trigger] r.headers[i].value)
}

/// True when `line` can stand between two line endings: it is not empty and
/// holds no carriage return and no line feed.
spec fn is_line(line: Seq<u8>) -> bool {
    &&& line.len() > 0
    &&& forall|i: int| 0 <= i < line.len() ==> line[i] != 13 && line[i] != 10
}

/// True when `bytes` holds no byte equal to `b`.
spec fn lacks(bytes: Seq<u8>, b: u8) -> bool {
    forall|i: int| 0 <= i < bytes.len() ==> bytes[i] != b
}

/// Bytes that encode a text lack an ASCII byte that the text lacks as a
/// character.
proof fn lemma_lacks_char(text: Seq<char>, c: char, b: u8)
    requires
        b < 128,
        c as u32 == b as u32,
        forall|i: int| 0 <= i < text.len() ==> text[i] != c,
    ensures
        lacks(encode_utf8(text), b),
{
    assert forall|i: int| 0 <= i < text.len() implies text[i] as u32 != b as u32 by {
        let d: char = text[i];
        assert(d != c);
        char_u32_cast(d, d as u32);
        char_u32_cast(c, c as u32);
    }
    lemma_encode_lacks_byte(text, b);
}

proof fn lemma_token_bytes(text: Seq<char>)
    requires
        is_token(text),
    ensures
        lacks(encode_utf8(text), 32),
        lacks(encode_utf8(text), 13),
        lacks(encode_utf8(text), 10),
        valid_utf8(encode_utf8(text)),
{
    lemma_lacks_char(text, ' ', 32);
    lemma_lacks_char(text, '\r', 13);
    lemma_lacks_char(text, '\n', 10);
    encode_utf8_valid_utf8(text);
}

proof fn lemma_value_bytes(text: Seq<char>)
    requires
        is_field_value(text),
    ensures
        lacks(encode_utf8(text), 13),
        lacks(encode_utf8(text), 10),
        valid_utf8(encode_utf8(text)),
{
    lemma_lacks_char(text, '\r', 13);
    lemma_lacks_char(text, '\n', 10);
    encode_utf8_valid_utf8(text);
}

/// True when `text` is made of ASCII letters and hyphens.
spec fn is_word(text: Seq<char>) -> bool {
    forall|i: int|
        0 <= i < text.len() ==> ('A' <= #[trigger] text[i] <= 'Z') || ('a' <= text[i] <= 'z')
            || text[i] == '-'
}

proof fn lemma_word_bytes(text: Seq<char>)
    requires
        is_word(text),
    ensures
        lacks(encode_utf8(text), 32),
        lacks(encode_utf8(text), 13),
        lacks(encode_utf8(text), 10),
        lacks(encode_utf8(text), 58),
        valid_utf8(encode_utf8(text)),
{
    assert forall|i: int| 0 <= i < text.len() implies text[i] != ' ' && text[i] != '\r' && text[i]
        != '\n' && text[i] != ':' by {
        assert(('A' <= text[i] <= 'Z') || ('a' <= text[i] <= 'z') || text[i] == '-');
    }
    lemma_lacks_char(text, ' ', 32);
    lemma_lacks_char(text, '\r', 13);
    lemma_lacks_char(text, '\n', 10);
    lemma_lacks_char(text, ':', 58);
    encode_utf8_valid_utf8(text);
}

proof fn lemma_method_token_is_word(m: Method)
    ensures
        is_word(m.token()),
{
    Method::reveal_tokens();
}

proof fn lemma_header_name_is_word(n: HeaderName)
    ensures
        is_word(n.text()),
{
    HeaderName::reveal_texts();
}

/// The lines joined by line endings, with none after the last.
spec fn join_lines(lines: Seq<Seq<u8>>) -> Seq<u8>
    decreases lines.len(),
{
    if lines.len() == 0 {
        Seq::empty()
    } else if lines.len() == 1 {
        lines[0]
    } else {
        lines[0] + crlf() + join_lines(lines.skip(1))
    }
}

/// The lines of the headers, in order, without their line endings.
spec fn header_lines(headers: Seq<HeaderView>) -> Seq<Seq<u8>> {
    Seq::new(headers.len(), |i: int| header_line(headers[i]))
}

proof fn lemma_header_block_is_joined(headers: Seq<HeaderView>)
    requires
        headers.len() > 0,
    ensures
        header_block(headers) == join_lines(header_lines(headers)) + crlf(),
    decreases headers.len(),
{
    let lines = header_lines(headers);
    assert(lines[0] == header_line(headers[0]));
    if headers.len() == 1 {
        assert(headers.skip(1).len() == 0);
        assert(header_block(headers.skip(1)) =~= Seq::<u8>::empty());
        assert(header_block(headers) =~= header_line(headers[0]) + crlf());
    } else {
        lemma_header_block_is_joined(headers.skip(1));
        assert(lines.skip(1) =~= header_lines(headers.skip(1)));
        assert(header_block(headers) =~= join_lines(lines) + crlf());
    }
}

/// A message is its lines, joined, then a blank line, then its body.
proof fn lemma_message_is_joined(first: Seq<u8>, headers: Seq<HeaderView>, body: Seq<u8>)
    ensures
        message_bytes(first, headers, body) == join_lines(seq![first] + header_lines(headers))
            + terminator() + body,
{
    let lines = seq![first] + header_lines(headers);
    if headers.len() == 0 {
        assert(lines =~= seq![first]);
        assert(header_block(headers) =~= Seq::<u8>::empty());
        assert(message_bytes(first, headers, body) =~= first + terminator() + body);
    } else {
        lemma_header_block_is_joined(headers);
        assert(lines.skip(1) =~= header_lines(headers));
        assert(lines[0] == first);
        assert(message_bytes(first, headers, body) =~= join_lines(lines) + terminator() + body);
    }
}

/// True when every carriage return in `s` begins a line ending that is
/// followed by a byte other than a carriage return.
spec fn returns_separate(s: Seq<u8>) -> bool {
    forall|j: int|
        0 <= j < s.len() && #[trigger] s[j] == 13 ==> j + 2 < s.len() && s[j + 1] == 10 && s[j + 2]
            != 13
}

proof fn lemma_join_structure(lines: Seq<Seq<u8>>)
    requires
        lines.len() > 0,
        forall|k: int| 0 <= k < lines.len() ==> is_line(#[trigger] lines[k]),
    ensures
        join_lines(lines).len() > 0,
        join_lines(lines)[0] != 13,
        returns_separate(join_lines(lines)),
    decreases lines.len(),
{
    let joined = join_lines(lines);
    let first = lines[0];
    assert(is_line(first));
    if lines.len() > 1 {
        let tail = lines.skip(1);
        assert forall|k: int| 0 <= k < tail.len() implies is_line(#[trigger] tail[k]) by {
            assert(tail[k] == lines[k + 1]);
        }
        lemma_join_structure(tail);
        let rest = join_lines(tail);
        assert(joined =~= first + crlf() + rest);
        assert forall|j: int| 0 <= j < joined.len() && #[trigger] joined[j] == 13 implies j + 2
            < joined.len() && joined[j + 1] == 10 && joined[j + 2] != 13 by {
            if j < first.len() {
                assert(joined[j] == first[j]);
            } else if j == first.len() {
                assert(joined[j + 1] == crlf()[1]);
                assert(joined[j + 2] == rest[0]);
            } else if j == first.len() + 1 {
                assert(joined[j] == crlf()[1]);
            } else {
                assert(joined[j] == rest[j - first.len() - 2]);
                assert(joined[j + 1] == rest[j + 1 - first.len() - 2]);
                assert(joined[j + 2] == rest[j + 2 - first.len() - 2]);
            }
        }
        assert(joined[0] == first[0]);
    }
}

/// The blank line that follows the joined lines is the first one.
proof fn lemma_frame(lines: Seq<Seq<u8>>, body: Seq<u8>)
    requires
        lines.len() > 0,
        forall|k: int| 0 <= k < lines.len() ==> is_line(#[trigger] lines[k]),
    ensures
        find(join_lines(lines) + terminator() + body, terminator()) == Some(
            join_lines(lines).len() as int,
        ),
{
    let head = join_lines(lines);
    let s = head + terminator() + body;
    lemma_join_structure(lines);
    let t = terminator();
    assert(t[0] == 13 && t[1] == 10 && t[2] == 13 && t[3] == 10);
    let n = head.len() as int;
    assert(s[n] == t[0] && s[n + 1] == t[1] && s[n + 2] == t[2] && s[n + 3] == t[3]);
    lemma_terminator_at(s, n);
    assert forall|j: int| 0 <= j < n implies !matches_at(s, terminator(), j) by {
        lemma_terminator_at(s, j);
        if s[j] == 13 {
            assert(s[j] == head[j]);
            assert(s[j + 2] == head[j + 2]);
        }
    }
    lemma_find_from_is(s, terminator(), 0, n);
}

proof fn lemma_line_has_no_ending(line: Seq<u8>)
    requires
        is_line(line),
    ensures
        find(line, crlf()) is None,
{
    assert forall|j: int| 0 <= j implies !matches_at(line, crlf(), j) by {
        lemma_crlf_at(line, j);
    }
    lemma_find_from_none(line, crlf(), 0);
}

proof fn lemma_first_ending(first: Seq<u8>, rest: Seq<u8>)
    requires
        is_line(first),
    ensures
        find(first + crlf() + rest, crlf()) == Some(first.len() as int),
{
    let s = first + crlf() + rest;
    let n = first.len() as int;
    assert(s[n] == crlf()[0] && s[n + 1] == crlf()[1]);
    lemma_crlf_at(s, n);
    assert forall|j: int| 0 <= j < n implies !matches_at(s, crlf(), j) by {
        lemma_crlf_at(s, j);
        assert(s[j] == first[j]);
    }
    lemma_find_from_is(s, crlf(), 0, n);
}

/// Splitting the joined lines gives the lines back.
proof fn lemma_split_joined(lines: Seq<Seq<u8>>)
    requires
        lines.len() > 0,
        forall|k: int| 0 <= k < lines.len() ==> is_line(#[trigger] lines[k]),
    ensures
        split_lines(join_lines(lines)) == lines,
    decreases lines.len(),
{
    let joined = join_lines(lines);
    let first = lines[0];
    assert(is_line(first));
    if lines.len() == 1 {
        lemma_line_has_no_ending(first);
        assert(split_lines(first) == seq![first]);
        assert(seq![first] =~= lines);
    } else {
        let tail = lines.skip(1);
        assert forall|k: int| 0 <= k < tail.len() implies is_line(#[trigger] tail[k]) by {
            assert(tail[k] == lines[k + 1]);
        }
        lemma_split_joined(tail);
        let rest = join_lines(tail);
        let n = first.len() as int;
        lemma_first_ending(first, rest);
        assert(joined == first + crlf() + rest);
        assert(joined.take(n) =~= first);
        assert(joined.skip(n + 2) =~= rest);
        assert(split_lines(joined) == seq![joined.take(n)] + split_lines(joined.skip(n + 2)));
        assert(seq![first] + tail =~= lines);
    }
}

proof fn lemma_joined_is_text(lines: Seq<Seq<u8>>)
    requires
        lines.len() > 0,
        forall|k: int| 0 <= k < lines.len() ==> valid_utf8(#[trigger] lines[k]),
    ensures
        valid_utf8(join_lines(lines)),
    decreases lines.len(),
{
    if lines.len() > 1 {
        let tail = lines.skip(1);
        assert forall|k: int| 0 <= k < tail.len() implies valid_utf8(#[trigger] tail[k]) by {
            assert(tail[k] == lines[k + 1]);
        }
        lemma_joined_is_text(tail);
        assert(is_ascii_bytes(crlf()));
        lemma_ascii_bytes_decode(crlf());
        assert(valid_utf8(lines[0]));
        valid_utf8_concat(lines[0], crlf());
        valid_utf8_concat(lines[0] + crlf(), join_lines(tail));
    } else {
        assert(valid_utf8(lines[0]));
    }
}

proof fn lemma_space_is_text()
    ensures
        valid_utf8(space()),
        valid_utf8(colon_space()),
        valid_utf8(crlf()),
{
    assert(is_ascii_bytes(space()));
    assert(is_ascii_bytes(colon_space()));
    assert(is_ascii_bytes(crlf()));
    lemma_ascii_bytes_decode(space());
    lemma_ascii_bytes_decode(colon_space());
    lemma_ascii_bytes_decode(crlf());
}

/// Where `a` holds no space, the first space of `a + " " + rest` is the one
/// after `a`.
proof fn lemma_first_space(a: Seq<u8>, rest: Seq<u8>)
    requires
        lacks(a, 32),
    ensures
        find(a + space() + rest, space()) == Some(a.len() as int),
{
    let s = a + space() + rest;
    let n = a.len() as int;
    assert(s[n] == space()[0]);
    lemma_space_at(s, n);
    assert forall|j: int| 0 <= j < n implies !matches_at(s, space(), j) by {
        lemma_space_at(s, j);
        assert(s[j] == a[j]);
    }
    lemma_find_from_is(s, space(), 0, n);
}

proof fn lemma_request_line(r: RequestView)
    requires
        is_token(r.path),
        is_token(r.http_version),
    ensures
        is_line(request_line(r)),
        valid_utf8(request_line(r)),
        read_request_line(request_line(r)) == Ok::<(Method, Seq<char>, Seq<char>), ErrorView>(
            (r.method, r.path, r.http_version),
        ),
{
    let m = encode_utf8(r.method.token());
    let p = encode_utf8(r.path);
    let v = encode_utf8(r.http_version);
    let line = request_line(r);
    lemma_method_token_is_word(r.method);
    lemma_word_bytes(r.method.token());
    lemma_token_bytes(r.path);
    lemma_token_bytes(r.http_version);
    lemma_space_is_text();
    assert(line =~= m + space() + (p + space() + v));
    assert forall|i: int| 0 <= i < line.len() implies line[i] != 13 && line[i] != 10 by {
        if i < m.len() {
            assert(line[i] == m[i]);
        } else if i == m.len() {
            assert(line[i] == space()[0]);
        } else if i < m.len() + 1 + p.len() {
            assert(line[i] == p[i - m.len() - 1]);
        } else if i == m.len() + 1 + p.len() {
            assert(line[i] == space()[0]);
        } else {
            assert(line[i] == v[i - m.len() - p.len() - 2]);
        }
    }
    assert(line.len() > 0);
    valid_utf8_concat(m, space());
    valid_utf8_concat(m + space(), p);
    valid_utf8_concat(m + space() + p, space());
    valid_utf8_concat(m + space() + p + space(), v);
    lemma_first_space(m, p + space() + v);
    let rest = line.skip(m.len() as int + 1);
    assert(rest =~= p + space() + v);
    lemma_first_space(p, v);
    let tail = rest.skip(p.len() as int + 1);
    assert(tail =~= v);
    assert forall|j: int| 0 <= j implies !matches_at(v, space(), j) by {
        lemma_space_at(v, j);
    }
    lemma_find_from_none(v, space(), 0);
    assert(line.take(m.len() as int) =~= m);
    assert(rest.take(p.len() as int) =~= p);
    assert(request_line_parts(line) == Some((m, p, v)));
    encode_utf8_decode_utf8(r.method.token());
    encode_utf8_decode_utf8(r.path);
    encode_utf8_decode_utf8(r.http_version);
    Method::law_token_round_trip(r.method);
}

proof fn lemma_header_line(h: HeaderView, policy: UnknownHeaderPolicy)
    requires
        is_field_value(h.value),
    ensures
        is_line(header_line(h)),
        valid_utf8(header_line(h)),
        read_header_line(header_line(h), policy) == Ok::<Option<HeaderView>, ErrorView>(Some(h)),
{
    let n = encode_utf8(h.name.text());
    let v = encode_utf8(h.value);
    let line = header_line(h);
    lemma_header_name_is_word(h.name);
    lemma_word_bytes(h.name.text());
    lemma_value_bytes(h.value);
    lemma_space_is_text();
    let cs = colon_space();
    assert(cs[0] == 58 && cs[1] == 32);
    assert forall|i: int| 0 <= i < line.len() implies line[i] != 13 && line[i] != 10 by {
        if i < n.len() {
            assert(line[i] == n[i]);
        } else if i < n.len() + 2 {
            assert(line[i] == cs[i - n.len()]);
        } else {
            assert(line[i] == v[i - n.len() - 2]);
        }
    }
    assert(line.len() > 0);
    valid_utf8_concat(n, cs);
    valid_utf8_concat(n + cs, v);
    let k = n.len() as int;
    assert(line[k] == cs[0] && line[k + 1] == cs[1]);
    lemma_colon_space_at(line, k);
    assert forall|j: int| 0 <= j < k implies !matches_at(line, colon_space(), j) by {
        lemma_colon_space_at(line, j);
        assert(line[j] == n[j]);
    }
    lemma_find_from_is(line, colon_space(), 0, k);
    assert(line.take(k) =~= n);
    assert(line.skip(k + 2) =~= v);
    encode_utf8_decode_utf8(h.name.text());
    encode_utf8_decode_utf8(h.value);
    HeaderName::law_text_round_trip(h.name);
}

proof fn lemma_read_headers(headers: Seq<HeaderView>, policy: UnknownHeaderPolicy)
    requires
        forall|i: int| 0 <= i < headers.len() ==> is_field_value(#[trigger] headers[i].value),
    ensures
        read_headers(header_lines(headers), policy) == Ok::<Seq<HeaderView>, ErrorView>(headers),
    decreases headers.len(),
{
    let lines = header_lines(headers);
    if headers.len() == 0 {
        assert(headers =~= Seq::<HeaderView>::empty());
    } else {
        let tail = headers.skip(1);
        assert(is_field_value(headers[0].value));
        lemma_header_line(headers[0], policy);
        assert(lines[0] == header_line(headers[0]));
        assert forall|i: int| 0 <= i < tail.len() implies is_field_value(
            #[trigger] tail[i].value,
        ) by {
            assert(tail[i] == headers[i + 1]);
        }
        lemma_read_headers(tail, policy);
        assert(lines.skip(1) =~= header_lines(tail));
        assert(seq![headers[0]] + tail =~= headers);
    }
}

/// True when the body of a request holds at least as many bytes as its
/// headers declare.
pub open spec fn body_suffices(r: RequestView) -> bool {
    match declared_length(r.headers) {
        Some(n) => n <= body_bytes(r.body).len(),
        None => true,
    }
}

/// The body that the parser finds in the bytes of a request: as many bytes
/// of the body as the headers declare, and none where they declare none.
pub open spec fn parsed_body(r: RequestView) -> Option<Seq<u8>> {
    match declared_length(r.headers) {
        Some(n) => if n == 0 {
            None
        } else {
            Some(body_bytes(r.body).take(n as int))
        },
        None => None,
    }
}

/// Round trip. A request whose path and version are tokens, whose header
/// values fit on a line, and whose body is as long as its headers declare, is
/// parsed back from its own bytes: the parser returns the same method, path,
/// version and headers, the headers in the same order, under either policy
/// for unrecognized names, and whether or not the stream has ended.
pub proof fn law_request_round_trip(r: RequestView, policy: UnknownHeaderPolicy, at_end: bool)
    requires
        wire_safe(r),
        body_suffices(r),
    ensures
        parse_message(request_wire(r), at_end, policy) == Outcome::Complete(
            Ok(with_body(r, parsed_body(r))),
        ),
{
    let first = request_line(r);
    let body = body_bytes(r.body);
    let lines = seq![first] + header_lines(r.headers);
    let wire = request_wire(r);
    lemma_request_line(r);
    assert forall|k: int| 0 <= k < lines.len() implies is_line(#[trigger] lines[k]) && valid_utf8(
        lines[k],
    ) by {
        if k > 0 {
            assert(lines[k] == header_line(r.headers[k - 1]));
            assert(is_field_value(r.headers[k - 1].value));
            lemma_header_line(r.headers[k - 1], policy);
        }
    }
    lemma_message_is_joined(first, r.headers, body);
    lemma_frame(lines, body);
    let head = join_lines(lines);
    assert(wire.take(head.len() as int) =~= head);
    assert(wire.skip(head.len() as int + 4) =~= body);
    lemma_joined_is_text(lines);
    lemma_split_joined(lines);
    assert(lines[0] == first);
    assert(lines.skip(1) =~= header_lines(r.headers));
    lemma_read_headers(r.headers, policy);
    assert(read_head(head, policy) == Ok::<RequestView, ErrorView>(with_body(r, None)));
}

/// A request whose body is exactly as long as its headers declare comes back
/// whole: the parser returns the request itself.
pub proof fn law_request_round_trip_whole(r: RequestView, policy: UnknownHeaderPolicy, at_end: bool)
    requires
        wire_safe(r),
        match declared_length(r.headers) {
            Some(n) => n > 0 && r.body == Some(body_bytes(r.body)) && body_bytes(r.body).len() == n,
            None => r.body is None,
        },
    ensures
        parse_message(request_wire(r), at_end, policy) == Outcome::Complete(Ok(r)),
{
    law_request_round_trip(r, policy, at_end);
    match r.body {
        Some(bytes) => {
            assert(bytes.take(bytes.len() as int) =~= bytes);
        },
        None => {},
    }
}

/// Content length. Where a response carries no `Content-Length` header of its
/// own, the headers that are sent end with one, and the number that it
/// declares is the length of the body. A header that the response does carry
/// is sent as it is, and none is added.
pub proof fn law_content_length(headers: Seq<HeaderView>, body: Seq<u8>)
    ensures
        header_index(headers, HeaderName::ContentLength) is None ==> {
            &&& wire_headers(headers, body.len(), true) == headers.push(
                HeaderView { name: HeaderName::ContentLength, value: decimal(body.len()) },
            )
            &&& declared_length(wire_headers(headers, body.len(), true)) == Some(body.len())
        },
        header_index(headers, HeaderName::ContentLength) is Some ==> wire_headers(
            headers,
            body.len(),
            true,
        ) == headers,
        wire_headers(headers, body.len(), false) == headers,
{
    if header_index(headers, HeaderName::ContentLength) is None {
        let added = HeaderView { name: HeaderName::ContentLength, value: decimal(body.len()) };
        let sent = headers.push(added);
        lemma_header_index_from(headers, HeaderName::ContentLength, 0);
        lemma_header_index_from(sent, HeaderName::ContentLength, 0);
        assert(sent[headers.len() as int] == added);
        assert forall|j: int| 0 <= j < headers.len() implies sent[j].name
            != HeaderName::ContentLength by {
            assert(sent[j] == headers[j]);
        }
        assert(header_index(sent, HeaderName::ContentLength) == Some(headers.len() as int));
        lemma_decimal_bytes(body.len());
    }
}

/// The response to a request that no route serves has the status 404, and its
/// body names the method and the path of the request.
pub proof fn law_not_found_names_request(method: Method, path: Seq<char>)
    ensures
        status_of(ErrorView::NotFound { method, path }) == HttpStatus::NotFound,
        HttpStatus::NotFound.code_of() == 404,
        ({
            let text = message_of(ErrorView::NotFound { method, path });
            let at = "The path "@.len() as int;
            &&& text.subrange(at, at + method.token().len()) == method.token()
            &&& text.subrange(
                at + method.token().len() + " "@.len(),
                at + method.token().len() + " "@.len() + path.len(),
            ) == path
        }),
{
    let text = message_of(ErrorView::NotFound { method, path });
    let at = "The path "@.len() as int;
    assert(text.subrange(at, at + method.token().len()) =~= method.token());
    assert(text.subrange(
        at + method.token().len() + " "@.len(),
        at + method.token().len() + " "@.len() + path.len(),
    ) =~= path);
}

/// The bytes before the first blank line, or all of them where there is none.
pub open spec fn head_of(bytes: Seq<u8>) -> Seq<u8> {
    match find(bytes, terminator()) {
        Some(i) => bytes.take(i),
        None => bytes,
    }
}

/// The bytes after the first blank line.
pub open spec fn carried_of(bytes: Seq<u8>) -> Seq<u8> {
    match find(bytes, terminator()) {
        Some(i) => bytes.skip(i + 4),
        None => Seq::empty(),
    }
}

/// Every input is answered. Once the stream has ended, parsing any bytes
/// whatsoever yields a request or an error, with or without limits: a head
/// that is not valid UTF-8 is refused as `InvalidEncoding`, and a head that
/// declares more body bytes than were received is refused as
/// `TruncatedBody`. While the stream is open, bytes without a blank line are
/// an incomplete message.
pub proof fn law_every_input_is_answered(
    bytes: Seq<u8>,
    policy: UnknownHeaderPolicy,
    limits: Limits,
)
    ensures
        parse_message(bytes, true, policy) is Complete,
        parse_within(bytes, true, policy, limits) is Complete,
        !valid_utf8(head_of(bytes)) ==> parse_message(bytes, true, policy) == Outcome::Complete(
            Err(ErrorView::InvalidEncoding),
        ),
        (read_head(head_of(bytes), policy) matches Ok(r) && declared_length(r.headers) matches Some(
            n,
        ) && n > carried_of(bytes).len()) ==> parse_message(bytes, true, policy)
            == Outcome::Complete(Err(ErrorView::TruncatedBody)),
        find(bytes, terminator()) is None ==> parse_message(bytes, false, policy) is Incomplete,
{
}

/// Without ceilings, the limits change nothing: the bytes amount to what the
/// grammar says.
pub proof fn law_unlimited(bytes: Seq<u8>, at_end: bool, policy: UnknownHeaderPolicy)
    ensures
        parse_within(bytes, at_end, policy, Limits::unlimited()) == parse_message(
            bytes,
            at_end,
            policy,
        ),
{
}

/// Limits only ever refuse. Under any limits the bytes amount to what the
/// grammar says, unless the head or the declared body passes its ceiling; and
/// a message that is refused for its size is refused with the error that
/// names the ceiling.
pub proof fn law_limits_only_refuse(
    bytes: Seq<u8>,
    at_end: bool,
    policy: UnknownHeaderPolicy,
    limits: Limits,
)
    ensures
        parse_within(bytes, at_end, policy, limits) == parse_message(bytes, at_end, policy)
            || parse_within(bytes, at_end, policy, limits) == Outcome::Complete(
            Err(ErrorView::HeadTooLarge),
        ) || parse_within(bytes, at_end, policy, limits) == Outcome::Complete(
            Err(ErrorView::BodyTooLarge),
        ),
        parse_within(bytes, at_end, policy, limits) matches Outcome::Complete(Ok(r)) ==> !exceeds(
            head_of(bytes).len() as int,
            limits.max_head_bytes,
        ) && !body_over(r.headers, limits),
{
    lemma_find_from(bytes, terminator(), 0);
    match find(bytes, terminator()) {
        Some(i) => {
            lemma_terminator_at(bytes, i);
            assert(bytes.take(i).len() == i);
        },
        None => {},
    }
}

/// Round trip under limits. A request that survives the wire is parsed back
/// from its own bytes under any limits that its head and its declared length
/// keep within.
pub proof fn law_request_round_trip_within(
    r: RequestView,
    policy: UnknownHeaderPolicy,
    limits: Limits,
    at_end: bool,
)
    requires
        wire_safe(r),
        body_suffices(r),
        !exceeds(head_of(request_wire(r)).len() as int, limits.max_head_bytes),
        !body_over(r.headers, limits),
    ensures
        parse_within(request_wire(r), at_end, policy, limits) == Outcome::Complete(
            Ok(with_body(r, parsed_body(r))),
        ),
{
    law_request_round_trip(r, policy, at_end);
    let wire = request_wire(r);
    lemma_find_from(wire, terminator(), 0);
    match find(wire, terminator()) {
        Some(i) => {
            lemma_terminator_at(wire, i);
            assert(wire.take(i).len() == i);
        },
        None => {},
    }
}

/// A complete message stays as it is. Once the bytes received amount to a
/// request or an error, no further bytes, and no end of the stream, change
/// what they amount to: the parser may stop reading, and it does not matter
/// how the stream was cut into chunks.
pub proof fn law_complete_is_final(
    bytes: Seq<u8>,
    more: Seq<u8>,
    policy: UnknownHeaderPolicy,
    limits: Limits,
    at_end: bool,
)
    requires
        parse_within(bytes, false, policy, limits) is Complete,
    ensures
        parse_within(bytes + more, at_end, policy, limits) == parse_within(
            bytes,
            false,
            policy,
            limits,
        ),
{
    lemma_find_from(bytes, terminator(), 0);
    lemma_find_from(bytes + more, terminator(), 0);
    match find(bytes, terminator()) {
        Some(i) => {
            lemma_find_stable(bytes, more, terminator());
            lemma_terminator_at(bytes, i);
            assert((bytes + more).take(i) =~= bytes.take(i));
            let carried = bytes.skip(i + 4);
            let longer = (bytes + more).skip(i + 4);
            assert(longer =~= carried + more);
            match read_head(bytes.take(i), policy) {
                Ok(r) => match declared_length(r.headers) {
                    Some(n) => {
                        if 0 < n <= carried.len() {
                            assert(longer.take(n as int) =~= carried.take(n as int));
                        }
                    },
                    None => {},
                },
                Err(_) => {},
            }
        },
        None => {
            assert(exceeds(bytes.len() - 3, limits.max_head_bytes));
            match find(bytes + more, terminator()) {
                Some(j) => {
                    if j + 4 <= bytes.len() {
                        lemma_matches_at_prefix(bytes, more, terminator(), j);
                    }
                },
                None => {},
            }
        },
    }
}

} // verus!
