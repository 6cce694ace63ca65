use vstd::pervasive::unreached;
use vstd::prelude::*;
use vstd::string::*;
use vstd::utf8::*;

verus! {

/// The characters that the ASCII bytes `bytes` stand for.
pub open spec fn ascii_chars(bytes: Seq<u8>) -> Seq<char> {
    Seq::new(bytes.len(), |i: int| bytes[i] as char)
}

/// True when every byte of `bytes` is below 128.
pub open spec fn is_ascii_bytes(bytes: Seq<u8>) -> bool {
    forall|i: int| 0 <= i < bytes.len() ==> #[trigger] bytes[i] < 128
}

/// ASCII bytes are valid UTF-8, and they decode to one character per byte.
pub proof fn lemma_ascii_bytes_decode(bytes: Seq<u8>)
    requires
        is_ascii_bytes(bytes),
    ensures
        valid_utf8(bytes),
        decode_utf8(bytes) == ascii_chars(bytes),
        encode_utf8(ascii_chars(bytes)) == bytes,
{
    let chars = ascii_chars(bytes);
    assert(is_ascii_chars(chars)) by {
        assert forall|i: int| 0 <= i < chars.len() implies '\0' <= #[trigger] chars[i]
            <= '\u{7f}' by {
            assert(bytes[i] < 128);
        }
    }
    is_ascii_chars_encode_utf8(chars);
    assert(encode_utf8(chars) =~= bytes) by {
        assert forall|i: int| 0 <= i < bytes.len() implies encode_utf8(chars)[i] == bytes[i] by {
            assert(bytes[i] < 128);
            assert(chars[i] as u8 == bytes[i]);
        }
    }
    encode_utf8_valid_utf8(chars);
    encode_utf8_decode_utf8(chars);
}

/// `encode_utf8` is injective: equal encodings come from equal texts.
pub proof fn lemma_encode_injective(a: Seq<char>, b: Seq<char>)
    requires
        encode_utf8(a) == encode_utf8(b),
    ensures
        a == b,
{
    encode_utf8_decode_utf8(a);
    encode_utf8_decode_utf8(b);
}

/// Compares two byte slices.
pub fn bytes_eq(a: &[u8], b: &[u8]) -> (r: bool)
    ensures
        r == (a@ == b@),
{
    if a.len() != b.len() {
        return false;
    }
    let mut i: usize = 0;
    while i < a.len()
        invariant
            a.len() == b.len(),
            i <= a.len(),
            forall|j: int| 0 <= j < i ==> a[j] == b[j],
        decreases a.len() - i,
    {
        if a[i] != b[i] {
            return false;
        }
        i += 1;
    }
    assert(a@ =~= b@);
    true
}

/// Compares two strings character by character.
pub fn str_eq(a: &str, b: &str) -> (r: bool)
    ensures
        r == (a@ == b@),
{
    let r = bytes_eq(a.as_bytes(), b.as_bytes());
    proof {
        if r {
            lemma_encode_injective(a@, b@);
        }
    }
    r
}

/// Calls `String::from_utf8`, which checks that `bytes` is well-formed UTF-8
/// and, if so, hands the same bytes back as a `String`. The contract states
/// the documented behaviour: the call succeeds exactly on valid UTF-8, and the
/// text of the result is the decoding of `bytes`.
#[verifier::external_body]
pub(crate) fn string_from_utf8(bytes: Vec<u8>) -> (r: Option<String>)
    ensures
        r is Some <==> valid_utf8(bytes@),
        r matches Some(s) ==> s@ == decode_utf8(bytes@),
{
    String::from_utf8(bytes).ok()
}

/// Copies `bytes[from..to]` into a vector of its own.
pub(crate) fn copy_range(bytes: &[u8], from: usize, to: usize) -> (r: Vec<u8>)
    requires
        from <= to <= bytes.len(),
    ensures
        r@ == bytes@.subrange(from as int, to as int),
{
    vstd::slice::slice_to_vec(vstd::slice::slice_subrange(bytes, from, to))
}

/// Decodes `bytes[from..to]`, which the caller knows to be valid UTF-8.
pub(crate) fn decode_range(bytes: &[u8], from: usize, to: usize) -> (r: String)
    requires
        from <= to <= bytes.len(),
        valid_utf8(bytes@.subrange(from as int, to as int)),
    ensures
        r@ == decode_utf8(bytes@.subrange(from as int, to as int)),
{
    match string_from_utf8(copy_range(bytes, from, to)) {
        Some(s) => s,
        None => unreached(),
    }
}

/// Decodes `bytes` if it is valid UTF-8.
pub fn decode(bytes: &[u8]) -> (r: Option<String>)
    ensures
        r is Some <==> valid_utf8(bytes@),
        r matches Some(s) ==> s@ == decode_utf8(bytes@),
{
    let r = string_from_utf8(copy_range(bytes, 0, bytes.len()));
    assert(bytes@.subrange(0, bytes@.len() as int) =~= bytes@);
    r
}

/// Turns ASCII bytes into the string that they spell.
pub(crate) fn ascii_string(bytes: Vec<u8>) -> (r: String)
    requires
        is_ascii_bytes(bytes@),
    ensures
        r@ == ascii_chars(bytes@),
{
    proof {
        lemma_ascii_bytes_decode(bytes@);
    }
    match string_from_utf8(bytes) {
        Some(s) => s,
        None => unreached(),
    }
}

/// A place where valid UTF-8 can be cut without splitting a character: either
/// end of the sequence, or next to an ASCII byte.
pub open spec fn cut_point(s: Seq<u8>, i: int) -> bool {
    ||| i == 0
    ||| i == s.len()
    ||| (0 <= i < s.len() && s[i] < 128)
    ||| (0 < i <= s.len() && s[i - 1] < 128)
}

proof fn lemma_cut_point_is_boundary(s: Seq<u8>, i: int)
    requires
        valid_utf8(s),
        0 <= i <= s.len(),
        cut_point(s, i),
    ensures
        is_char_boundary(s, i),
{
    is_char_boundary_start_end_of_seq(s);
    if i == 0 || i == s.len() {
    } else if s[i] < 128 {
        is_char_boundary_iff_not_is_continuation_byte(s, i);
    } else {
        is_char_boundary_iff_not_is_continuation_byte(s, i - 1);
        valid_utf8_split(s, i - 1);
        let t = s.subrange(i - 1, s.len() as int);
        assert(t[0] == s[i - 1]);
        assert(is_leading_byte_width_1(t[0]));
        assert(valid_utf8(pop_first_scalar(t)));
        let u = pop_first_scalar(t);
        assert(u =~= s.subrange(i, s.len() as int));
        assert(u.len() > 0);
        assert(valid_first_scalar(u));
        assert(u[0] == s[i]);
        is_char_boundary_iff_not_is_continuation_byte(s, i);
    }
}

/// A piece of valid UTF-8 between two cut points is valid UTF-8.
pub proof fn lemma_valid_between_cuts(s: Seq<u8>, a: int, b: int)
    requires
        valid_utf8(s),
        0 <= a <= b <= s.len(),
        cut_point(s, a),
        cut_point(s, b),
    ensures
        valid_utf8(s.subrange(a, b)),
{
    lemma_cut_point_is_boundary(s, a);
    lemma_cut_point_is_boundary(s, b);
    valid_utf8_split(s, b);
    let u = s.subrange(0, b);
    if a == b {
        assert(s.subrange(a, b).len() == 0);
    } else if a == 0 {
    } else {
        is_char_boundary_iff_not_is_continuation_byte(s, a);
        assert(u[a] == s[a]);
        is_char_boundary_iff_not_is_continuation_byte(u, a);
        valid_utf8_split(u, a);
        assert(u.subrange(a, u.len() as int) =~= s.subrange(a, b));
    }
}

proof fn lemma_scalar_bytes(c: u32)
    by (bit_vector)
    ensures
        c < 0x80 ==> leading_byte_width_1(c) == c,
        c >= 0x80 ==> leading_byte_width_2(c) >= 0x80 && leading_byte_width_3(c) >= 0x80
            && leading_byte_width_4(c) >= 0x80 && last_continuation_byte(c) >= 0x80
            && second_last_continuation_byte(c) >= 0x80 && third_last_continuation_byte(c) >= 0x80,
{
}

/// An ASCII byte occurs in the encoding of a text only where the text holds
/// that very character.
pub proof fn lemma_encode_lacks_byte(s: Seq<char>, b: u8)
    requires
        b < 128,
        forall|i: int| 0 <= i < s.len() ==> s[i] as u32 != b as u32,
    ensures
        forall|j: int| 0 <= j < encode_utf8(s).len() ==> encode_utf8(s)[j] != b,
    decreases s.len(),
{
    if s.len() > 0 {
        let c = s[0] as u32;
        let head = encode_scalar(c);
        let tail = encode_utf8(s.drop_first());
        lemma_scalar_bytes(c);
        assert forall|i: int| 0 <= i < s.drop_first().len() implies s.drop_first()[i] as u32
            != b as u32 by {
            assert(s.drop_first()[i] == s[i + 1]);
        }
        lemma_encode_lacks_byte(s.drop_first(), b);
        assert forall|j: int| 0 <= j < encode_utf8(s).len() implies encode_utf8(s)[j] != b by {
            if j < head.len() {
                assert(encode_utf8(s)[j] == head[j]);
            } else {
                assert(encode_utf8(s)[j] == tail[j - head.len()]);
            }
        }
    }
}

/// The decimal digits of `n` as ASCII bytes, most significant first.
pub open spec fn decimal_bytes(n: nat) -> Seq<u8>
    decreases n,
{
    if n < 10 {
        seq![(48 + n) as u8]
    } else {
        decimal_bytes(n / 10).push((48 + n % 10) as u8)
    }
}

/// The decimal numeral of `n`.
pub open spec fn decimal(n: nat) -> Seq<char> {
    ascii_chars(decimal_bytes(n))
}

/// True when every byte of `b` is an ASCII digit.
pub open spec fn all_digits(b: Seq<u8>) -> bool {
    forall|i: int| 0 <= i < b.len() ==> 48 <= #[trigger] b[i] <= 57
}

/// The number that the ASCII digits `b` spell.
pub open spec fn digits_value(b: Seq<u8>) -> nat
    decreases b.len(),
{
    if b.len() == 0 {
        0
    } else {
        digits_value(b.drop_last()) * 10 + (b.last() - 48) as nat
    }
}

/// The non-negative integer that `b` spells: an optional `+` followed by one
/// or more ASCII digits. Anything else spells no number.
pub open spec fn decimal_value(b: Seq<u8>) -> Option<nat> {
    let digits = if b.len() > 0 && b[0] == 43 {
        b.skip(1)
    } else {
        b
    };
    if digits.len() > 0 && all_digits(digits) {
        Some(digits_value(digits))
    } else {
        None
    }
}

/// A numeral is made of digits, and spells the number it was made from.
pub proof fn lemma_decimal_bytes(n: nat)
    ensures
        decimal_bytes(n).len() > 0,
        all_digits(decimal_bytes(n)),
        is_ascii_bytes(decimal_bytes(n)),
        digits_value(decimal_bytes(n)) == n,
        decimal_value(decimal_bytes(n)) == Some(n),
        encode_utf8(decimal(n)) == decimal_bytes(n),
    decreases n,
{
    let d = decimal_bytes(n);
    if n < 10 {
        assert(d.drop_last() =~= Seq::<u8>::empty());
        assert(digits_value(d.drop_last()) == 0);
        assert(d.last() == (48 + n) as u8);
    } else {
        lemma_decimal_bytes(n / 10);
        assert(d.drop_last() =~= decimal_bytes(n / 10));
        assert(d.last() == (48 + n % 10) as u8);
        assert forall|i: int| 0 <= i < d.len() implies 48 <= #[trigger] d[i] <= 57 by {
            if i < d.len() - 1 {
                assert(d[i] == decimal_bytes(n / 10)[i]);
            }
        }
    }
    assert(d[0] != 43);
    lemma_ascii_bytes_decode(d);
}

/// Appends the decimal numeral of `n` to `out`.
pub fn push_decimal(out: &mut Vec<u8>, n: usize)
    ensures
        final(out)@ == old(out)@ + decimal_bytes(n as nat),
    decreases n,
{
    if n >= 10 {
        push_decimal(out, n / 10);
    }
    out.push(48u8 + (n % 10) as u8);
    assert(out@ =~= old(out)@ + decimal_bytes(n as nat));
}

/// Writes `n` as a decimal numeral.
pub fn format_decimal(n: usize) -> (r: String)
    ensures
        r@ == decimal(n as nat),
{
    let mut digits: Vec<u8> = Vec::new();
    push_decimal(&mut digits, n);
    proof {
        lemma_decimal_bytes(n as nat);
        assert(digits@ =~= decimal_bytes(n as nat));
    }
    ascii_string(digits)
}

/// What a run of bytes says when read as a length.
#[derive(Debug, Clone, Copy, PartialEq, Eq, Structural)]
pub enum Length {
    /// The bytes spell no number.
    Invalid,
    /// The bytes spell this number.
    Exact(usize),
    /// The bytes spell a number beyond `usize::MAX`.
    Huge,
}

impl Length {
    /// The length that `value` stands for.
    pub open spec fn of(value: Option<nat>) -> Length {
        match value {
            None => Length::Invalid,
            Some(n) => if n <= usize::MAX {
                Length::Exact(n as usize)
            } else {
                Length::Huge
            },
        }
    }
}

/// Reads `bytes` as a non-negative decimal integer.
pub fn parse_decimal(bytes: &[u8]) -> (r: Length)
    ensures
        r == Length::of(decimal_value(bytes@)),
{
    let start: usize = if bytes.len() > 0 && bytes[0] == 43 {
        1
    } else {
        0
    };
    let ghost digits = bytes@.skip(start as int);
    proof {
        assert(bytes@.skip(0) =~= bytes@);
    }
    if start == bytes.len() {
        return Length::Invalid;
    }
    let mut value: usize = 0;
    let mut huge = false;
    let mut i: usize = start;
    while i < bytes.len()
        invariant
            start <= i <= bytes.len(),
            digits == bytes@.skip(start as int),
            digits == if bytes@.len() > 0 && bytes@[0] == 43 {
                bytes@.skip(1)
            } else {
                bytes@
            },
            all_digits(digits.take(i - start)),
            !huge ==> value == digits_value(digits.take(i - start)),
            huge ==> digits_value(digits.take(i - start)) > usize::MAX,
        decreases bytes.len() - i,
    {
        let b = bytes[i];
        let ghost before = digits.take(i - start);
        let ghost after = digits.take(i + 1 - start);
        proof {
            assert(after.drop_last() =~= before);
            assert(after.last() == b);
        }
        if b < 48 || b > 57 {
            proof {
                assert(digits[i - start] == b);
                assert(!all_digits(digits));
            }
            return Length::Invalid;
        }
        proof {
            assert forall|j: int| 0 <= j < after.len() implies 48 <= #[trigger] after[j] <= 57 by {
                if j < after.len() - 1 {
                    assert(after[j] == before[j]);
                }
            }
        }
        let d = (b - 48) as usize;
        if !huge {
            if value > (usize::MAX - d) / 10 {
                proof {
                    assert(value * 10 + d > usize::MAX) by (nonlinear_arith)
                        requires
                            value > (usize::MAX - d) / 10,
                            0 <= d <= 9,
                    ;
                }
                huge = true;
            } else {
                proof {
                    assert(value * 10 + d <= usize::MAX) by (nonlinear_arith)
                        requires
                            value <= (usize::MAX - d) / 10,
                            0 <= d <= 9,
                    ;
                }
                value = value * 10 + d;
            }
        } else {
            proof {
                assert(digits_value(before) * 10 + d > usize::MAX) by (nonlinear_arith)
                    requires
                        digits_value(before) > usize::MAX,
                        d >= 0,
                ;
            }
        }
        i += 1;
    }
    proof {
        assert(digits.take(i - start) =~= digits);
    }
    if huge {
        Length::Huge
    } else {
        Length::Exact(value)
    }
}

} // verus!
