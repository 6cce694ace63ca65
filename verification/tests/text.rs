use hyperion::http::bytes::{find_crlf, find_in, find_terminator, occurs_at};
use hyperion::http::text::{
    bytes_eq, decode, format_decimal, parse_decimal, push_decimal, str_eq, Length,
};

#[test]
fn decimal_numerals_are_written() {
    assert_eq!(format_decimal(0), "0");
    assert_eq!(format_decimal(7), "7");
    assert_eq!(format_decimal(10), "10");
    assert_eq!(format_decimal(2048), "2048");
    assert_eq!(format_decimal(usize::MAX), usize::MAX.to_string());
    let mut out = b"n=".to_vec();
    push_decimal(&mut out, 405);
    assert_eq!(out, b"n=405".to_vec());
}

#[test]
fn decimal_numerals_are_read() {
    assert_eq!(parse_decimal(b"0"), Length::Exact(0));
    assert_eq!(parse_decimal(b"5"), Length::Exact(5));
    assert_eq!(parse_decimal(b"007"), Length::Exact(7));
    assert_eq!(parse_decimal(b"+12"), Length::Exact(12));
    assert_eq!(parse_decimal(b"65536"), Length::Exact(65536));
    assert_eq!(parse_decimal(usize::MAX.to_string().as_bytes()), Length::Exact(usize::MAX));
    assert_eq!(parse_decimal(b"99999999999999999999999999999"), Length::Huge);
    for bad in [&b""[..], b"+", b"-1", b" 1", b"1 ", b"1a", b"0x10", b"++1", b"1+"] {
        assert_eq!(parse_decimal(bad), Length::Invalid, "{:?}", bad);
    }
}

#[test]
fn written_numerals_are_read_back() {
    for n in [0usize, 1, 9, 10, 99, 100, 12345, usize::MAX] {
        assert_eq!(parse_decimal(format_decimal(n).as_bytes()), Length::Exact(n));
    }
}

#[test]
fn strings_and_bytes_are_compared_by_content() {
    assert!(str_eq("GET", "GET"));
    assert!(!str_eq("GET", "GETS"));
    assert!(!str_eq("GET", "get"));
    assert!(str_eq("", ""));
    assert!(bytes_eq(b"ab", b"ab"));
    assert!(!bytes_eq(b"ab", b"ac"));
    assert!(!bytes_eq(b"ab", b"a"));
}

#[test]
fn bytes_are_decoded_as_utf8() {
    assert_eq!(decode(b"h\xc3\xa9"), Some("h\u{e9}".to_string()));
    assert_eq!(decode(b""), Some(String::new()));
    assert_eq!(decode(b"\xff"), None);
    assert_eq!(decode(b"\xc3"), None);
    assert_eq!(decode(b"\xed\xa0\x80"), None);
}

#[test]
fn patterns_are_found_at_their_first_occurrence() {
    assert_eq!(find_in(b"abcabc", b"bc", 0), Some(1));
    assert_eq!(find_in(b"abcabc", b"bc", 2), Some(4));
    assert_eq!(find_in(b"abcabc", b"bc", 5), None);
    assert_eq!(find_in(b"abc", b"abcd", 0), None);
    assert_eq!(find_in(b"abc", b"c", 3), None);
    assert_eq!(find_crlf(b"a\rb\nc\r\nd", 0), Some(5));
    assert_eq!(find_terminator(b"a\r\n\rb\r\n\r\nc\r\n\r\n", 0), Some(5));
    assert_eq!(find_terminator(b"\r\n\r", 0), None);
    assert!(occurs_at(b"xx\r\n", b"\r\n", 2));
    assert!(!occurs_at(b"xx\r\n", b"\r\n", 3));
    assert!(!occurs_at(b"xx\r\n", b"\r\n", 9));
}
