//! Percent-encoding of free text for a query parameter.
//!
//! A title is sent as the UTF-8 bytes of its text. A byte that is an ASCII
//! letter or digit stands for itself; every other byte is written as `%` and
//! two upper-case hexadecimal digits.

use percent_encoding::{utf8_percent_encode, NON_ALPHANUMERIC};
use vstd::prelude::*;
use vstd::utf8::{decode_utf8, encode_utf8, encode_utf8_decode_utf8};

verus! {

/// Whether the byte is an ASCII letter or digit, which is written as it is.
pub open spec fn is_alphanumeric(byte: u8) -> bool {
    ||| 0x30 <= byte <= 0x39
    ||| 0x41 <= byte <= 0x5a
    ||| 0x61 <= byte <= 0x7a
}

/// The upper-case hexadecimal digit for a number below 16.
pub open spec fn hex_digit(n: u8) -> char {
    if n < 10 {
        ((0x30 + n) as u8) as char
    } else {
        ((0x37 + n) as u8) as char
    }
}

/// How one byte is written.
pub open spec fn encoded_byte(byte: u8) -> Seq<char> {
    if is_alphanumeric(byte) {
        seq![byte as char]
    } else {
        seq!['%', hex_digit(byte / 16), hex_digit(byte % 16)]
    }
}

/// How a sequence of bytes is written: byte by byte, in order.
pub open spec fn percent_encoded(bytes: Seq<u8>) -> Seq<char>
    decreases bytes.len(),
{
    if bytes.len() == 0 {
        Seq::empty()
    } else {
        encoded_byte(bytes[0]) + percent_encoded(bytes.drop_first())
    }
}

/// Whether the character is a hexadecimal digit of either case.
pub open spec fn is_hex_digit(c: char) -> bool {
    ||| '0' <= c <= '9'
    ||| 'A' <= c <= 'F'
    ||| 'a' <= c <= 'f'
}

/// The number that a hexadecimal digit stands for.
pub open spec fn hex_value(c: char) -> int {
    if '0' <= c <= '9' {
        c as int - 0x30
    } else if 'A' <= c <= 'F' {
        c as int - 0x37
    } else {
        c as int - 0x57
    }
}

/// The bytes that an ASCII text stands for: `%` followed by two hexadecimal
/// digits is the byte with that number, and any other character is its own
/// byte.
pub open spec fn percent_decoded(text: Seq<char>) -> Seq<u8>
    decreases text.len(),
{
    if text.len() == 0 {
        Seq::empty()
    } else if text[0] == '%' && text.len() >= 3 && is_hex_digit(text[1]) && is_hex_digit(text[2]) {
        seq![(hex_value(text[1]) * 16 + hex_value(text[2])) as u8] + percent_decoded(text.skip(3))
    } else {
        seq![text[0] as u8] + percent_decoded(text.skip(1))
    }
}

/// Whether the character can occur in an encoded text: an ASCII letter, an
/// ASCII digit or `%`.
pub open spec fn is_encoded_char(c: char) -> bool {
    ||| '0' <= c <= '9'
    ||| 'A' <= c <= 'Z'
    ||| 'a' <= c <= 'z'
    ||| c == '%'
}

/// `percent_encoding::utf8_percent_encode` with the set `NON_ALPHANUMERIC`,
/// collected into a `String`: every byte of the text's UTF-8 form that is no
/// ASCII letter or digit is written as `%` and two upper-case hexadecimal
/// digits, and the others are kept.
#[verifier::external_body]
pub(crate) fn percent_encode(text: &str) -> (encoded: String)
    ensures
        encoded@ == percent_encoded(encode_utf8(text@)),
{
    utf8_percent_encode(text, NON_ALPHANUMERIC).to_string()
}

/// An encoded text holds nothing but ASCII letters, ASCII digits and `%`.
pub proof fn lemma_encoded_chars(bytes: Seq<u8>)
    ensures
        forall|i: int|
            0 <= i < percent_encoded(bytes).len() ==> is_encoded_char(
                #[trigger] percent_encoded(bytes)[i],
            ),
    decreases bytes.len(),
{
    if bytes.len() > 0 {
        lemma_encoded_chars(bytes.drop_first());
        let head = encoded_byte(bytes[0]);
        let tail = percent_encoded(bytes.drop_first());
        assert forall|i: int| 0 <= i < head.len() implies is_encoded_char(#[trigger] head[i]) by {
            lemma_hex_digit(bytes[0] / 16);
            lemma_hex_digit(bytes[0] % 16);
        }
        assert forall|i: int| 0 <= i < percent_encoded(bytes).len() implies is_encoded_char(
            #[trigger] percent_encoded(bytes)[i],
        ) by {
            if i < head.len() {
                assert(percent_encoded(bytes)[i] == head[i]);
            } else {
                assert(percent_encoded(bytes)[i] == tail[i - head.len()]);
            }
        }
    }
}

/// A hexadecimal digit is a digit or an upper-case letter up to `F`, and it
/// stands for the number it was made from.
pub proof fn lemma_hex_digit(n: u8)
    requires
        n < 16,
    ensures
        is_hex_digit(hex_digit(n)),
        is_encoded_char(hex_digit(n)),
        hex_value(hex_digit(n)) == n,
{
}

/// Decoding what one byte was written as, followed by anything, gives the
/// byte, followed by what the rest decodes to.
pub proof fn lemma_decode_first(byte: u8, rest: Seq<char>)
    ensures
        percent_decoded(encoded_byte(byte) + rest) == seq![byte] + percent_decoded(rest),
{
    let text = encoded_byte(byte) + rest;
    if is_alphanumeric(byte) {
        assert(text[0] == byte as char);
        assert(text.skip(1) == rest);
    } else {
        lemma_hex_digit(byte / 16);
        lemma_hex_digit(byte % 16);
        assert(text[0] == '%');
        assert(text[1] == hex_digit(byte / 16));
        assert(text[2] == hex_digit(byte % 16));
        assert(text.skip(3) == rest);
    }
}

/// Decoding an encoded sequence of bytes gives the bytes back.
pub proof fn lemma_decode_encode(bytes: Seq<u8>)
    ensures
        percent_decoded(percent_encoded(bytes)) == bytes,
    decreases bytes.len(),
{
    if bytes.len() > 0 {
        lemma_decode_encode(bytes.drop_first());
        lemma_decode_first(bytes[0], percent_encoded(bytes.drop_first()));
        assert(seq![bytes[0]] + bytes.drop_first() == bytes);
    }
}

/// Decoding the encoded form of a text, and reading the bytes as UTF-8, gives
/// the text back, whatever characters it holds.
pub proof fn lemma_round_trip(text: Seq<char>)
    ensures
        decode_utf8(percent_decoded(percent_encoded(encode_utf8(text)))) == text,
{
    lemma_decode_encode(encode_utf8(text));
    encode_utf8_decode_utf8(text);
}

} // verus!
