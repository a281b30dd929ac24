//! Percent-encoding of a query, and the address of the search page.

use vstd::prelude::*;
use vstd::utf8::*;

verus! {

/// The bytes that stand for themselves in a query component: ASCII letters
/// and digits, and the marks `- _ . ! ~ * ' ( )`.
pub open spec fn is_unreserved(b: u8) -> bool {
    ||| 0x61 <= b <= 0x7a  // a to z
    ||| 0x41 <= b <= 0x5a  // A to Z
    ||| 0x30 <= b <= 0x39  // 0 to 9
    ||| b == 0x2d  // -
    ||| b == 0x5f  // _
    ||| b == 0x2e  // .
    ||| b == 0x21  // !
    ||| b == 0x7e  // ~
    ||| b == 0x2a  // *
    ||| b == 0x27  // '
    ||| b == 0x28  // (
    ||| b == 0x29  // )
}

/// The upper-case hexadecimal digit of a value below 16.
pub open spec fn hex_digit(n: int) -> char
    recommends
        0 <= n < 16,
{
    if n < 10 {
        (0x30 + n) as char
    } else {
        (0x41 + n - 10) as char
    }
}

/// The escape of a byte: `%` and its two hexadecimal digits.
pub open spec fn escape(b: u8) -> Seq<char> {
    seq!['%', hex_digit(b as int / 16), hex_digit(b as int % 16)]
}

/// What one byte becomes in a query component.
pub open spec fn encode_byte(b: u8) -> Seq<char> {
    if is_unreserved(b) {
        seq![b as char]
    } else {
        escape(b)
    }
}

/// What a run of bytes becomes: the encodings of its bytes, in order.
pub open spec fn encode_bytes(bytes: Seq<u8>) -> Seq<char>
    decreases bytes.len(),
{
    if bytes.len() == 0 {
        seq![]
    } else {
        encode_bytes(bytes.drop_last()) + encode_byte(bytes.last())
    }
}

/// The percent-encoding of a text: that of its UTF-8 bytes.
pub open spec fn percent_encode(text: Seq<char>) -> Seq<char> {
    encode_bytes(encode_utf8(text))
}

/// `percent_encoding::percent_encode_byte` returns, for every byte, the
/// three characters of its escape: `%`, then the high and the low
/// hexadecimal digit in upper case.
pub assume_specification[ percent_encoding::percent_encode_byte ](byte: u8) -> (s: &'static str)
    ensures
        s@ == escape(byte),
;

/// `String::push` appends the character to the string.
pub assume_specification[ String::push ](s: &mut String, ch: char)
    ensures
        final(s)@ == old(s)@.push(ch),
;

fn unreserved(b: u8) -> (r: bool)
    ensures
        r == is_unreserved(b),
{
    (0x61 <= b && b <= 0x7a) || (0x41 <= b && b <= 0x5a) || (0x30 <= b && b <= 0x39) || b == 0x2d
        || b == 0x5f || b == 0x2e || b == 0x21 || b == 0x7e || b == 0x2a || b == 0x27 || b == 0x28
        || b == 0x29
}

/// Percent-encodes a text for use as a query component.
pub fn encode_component(text: &str) -> (out: String)
    ensures
        out@ == percent_encode(text@),
{
    let bytes = text.as_bytes();
    let mut out = String::new();
    let mut i: usize = 0;
    while i < bytes.len()
        invariant
            i <= bytes@.len(),
            out@ == encode_bytes(bytes@.take(i as int)),
        decreases bytes@.len() - i,
    {
        let b: u8 = bytes[i];
        assert(bytes@.take(i + 1).drop_last() == bytes@.take(i as int));
        if unreserved(b) {
            out.push(b as char);
        } else {
            out.append(percent_encoding::percent_encode_byte(b));
        }
        i += 1;
    }
    assert(bytes@.take(i as int) == bytes@);
    out
}

/// The value of a hexadecimal digit, in either case.
pub open spec fn hex_value(b: u8) -> Option<int> {
    if 0x30 <= b <= 0x39 {
        Some(b - 0x30)
    } else if 0x41 <= b <= 0x46 {
        Some(b - 0x41 + 10)
    } else if 0x61 <= b <= 0x66 {
        Some(b - 0x61 + 10)
    } else {
        None
    }
}

/// Whether the bytes start with an escape: `%` and two hexadecimal digits.
pub open spec fn starts_with_escape(bytes: Seq<u8>) -> bool {
    &&& bytes.len() >= 3
    &&& bytes[0] == 0x25
    &&& hex_value(bytes[1]) is Some
    &&& hex_value(bytes[2]) is Some
}

/// Percent-decoding: each escape gives the byte that it names, and every
/// other byte stands for itself.
pub open spec fn percent_decode(bytes: Seq<u8>) -> Seq<u8>
    decreases bytes.len(),
{
    if bytes.len() == 0 {
        seq![]
    } else if starts_with_escape(bytes) {
        seq![(hex_value(bytes[1])->0 * 16 + hex_value(bytes[2])->0) as u8] + percent_decode(
            bytes.skip(3),
        )
    } else {
        seq![bytes[0]] + percent_decode(bytes.skip(1))
    }
}

/// Encoding goes byte by byte, so it distributes over concatenation.
pub proof fn lemma_encode_bytes_concat(a: Seq<u8>, b: Seq<u8>)
    ensures
        encode_bytes(a + b) == encode_bytes(a) + encode_bytes(b),
    decreases b.len(),
{
    if b.len() == 0 {
        assert(a + b == a);
    } else {
        assert((a + b).drop_last() == a + b.drop_last());
        lemma_encode_bytes_concat(a, b.drop_last());
    }
}

/// The encoding of one byte is ASCII, and decodes to that byte before
/// whatever follows it.
proof fn lemma_decode_one(b: u8, rest: Seq<char>)
    requires
        is_ascii_chars(rest),
    ensures
        is_ascii_chars(encode_byte(b) + rest),
        percent_decode(encode_utf8(encode_byte(b) + rest)) == seq![b] + percent_decode(
            encode_utf8(rest),
        ),
{
    let head = encode_byte(b);
    let all = head + rest;
    assert(is_ascii_chars(all));
    is_ascii_chars_encode_utf8(all);
    is_ascii_chars_encode_utf8(rest);
    let raw = encode_utf8(all);
    if is_unreserved(b) {
        assert(raw[0] == b);
        assert(raw.skip(1) == encode_utf8(rest));
    } else {
        assert(raw[0] == 0x25);
        assert(hex_value(raw[1]) == Some(b as int / 16));
        assert(hex_value(raw[2]) == Some(b as int % 16));
        assert(raw.skip(3) == encode_utf8(rest));
    }
}

/// The encoding of any bytes is ASCII, and percent-decoding gives the
/// bytes back.
pub proof fn lemma_decode_encoded_bytes(bytes: Seq<u8>)
    ensures
        is_ascii_chars(encode_bytes(bytes)),
        percent_decode(encode_utf8(encode_bytes(bytes))) == bytes,
    decreases bytes.len(),
{
    if bytes.len() > 0 {
        let rest = bytes.drop_first();
        assert(bytes == seq![bytes[0]] + rest);
        lemma_encode_bytes_concat(seq![bytes[0]], rest);
        assert(encode_bytes(seq![bytes[0]]) == encode_byte(bytes[0])) by {
            assert(seq![bytes[0]].drop_last() == Seq::<u8>::empty());
            assert(encode_bytes(Seq::<u8>::empty()) == Seq::<char>::empty());
            assert(Seq::<char>::empty() + encode_byte(bytes[0]) == encode_byte(bytes[0]));
        }
        lemma_decode_encoded_bytes(rest);
        lemma_decode_one(bytes[0], encode_bytes(rest));
    }
}

/// Percent-encoding loses nothing: decoding the escapes of an encoded text
/// and reading the bytes as UTF-8 gives the text back.
pub proof fn lemma_percent_round_trip(text: Seq<char>)
    ensures
        is_ascii_chars(percent_encode(text)),
        decode_utf8(percent_decode(encode_utf8(percent_encode(text)))) == text,
{
    lemma_decode_encoded_bytes(encode_utf8(text));
    encode_utf8_decode_utf8(text);
}

} // verus!
