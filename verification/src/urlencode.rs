//! Field values on the wire: Latin-1 bytes, then percent-encoding.
use encoding::all::ISO_8859_1;
use encoding::{EncoderTrap, Encoding};
use form_urlencoded::byte_serialize;
use vstd::prelude::*;

verus! {

/// A character that ISO-8859-1 can represent: a code point up to U+00FF.
pub open spec fn latin1_char(c: char) -> bool {
    (c as u32) <= 0xFF
}

/// Every character of the text is representable in ISO-8859-1.
pub open spec fn is_latin1(s: Seq<char>) -> bool {
    forall|i: int| 0 <= i < s.len() ==> latin1_char(#[trigger] s[i])
}

/// The ISO-8859-1 bytes of a text: each code point as one byte.
pub open spec fn latin1_bytes(s: Seq<char>) -> Seq<u8> {
    Seq::new(s.len(), |i: int| s[i] as u8)
}

/// Bytes that the form serializer leaves as they are.
pub open spec fn unreserved(b: u8) -> bool {
    ||| b == 0x2A
    ||| b == 0x2D
    ||| b == 0x2E
    ||| b == 0x5F
    ||| 0x30 <= b <= 0x39
    ||| 0x41 <= b <= 0x5A
    ||| 0x61 <= b <= 0x7A
}

/// The upper-case hexadecimal digit of a value below sixteen.
pub open spec fn hex_digit(n: int) -> char {
    if n < 10 {
        (0x30 + n) as u8 as char
    } else {
        (0x41 + n - 10) as u8 as char
    }
}

/// What one byte becomes in `application/x-www-form-urlencoded` text.
pub open spec fn encoded_byte(b: u8) -> Seq<char> {
    if unreserved(b) {
        seq![b as char]
    } else if b == 0x20 {
        seq!['+']
    } else {
        seq!['%', hex_digit(b as int / 16), hex_digit(b as int % 16)]
    }
}

/// What a byte string becomes in `application/x-www-form-urlencoded` text.
pub open spec fn percent_encoded(bytes: Seq<u8>) -> Seq<char>
    decreases bytes.len(),
{
    if bytes.len() == 0 {
        Seq::empty()
    } else {
        encoded_byte(bytes[0]) + percent_encoded(bytes.skip(1))
    }
}

/// The value of a hexadecimal digit, if the character is one.
pub open spec fn hex_value(c: char) -> Option<int> {
    let n = c as u32 as int;
    if 0x30 <= n <= 0x39 {
        Some(n - 0x30)
    } else if 0x41 <= n <= 0x46 {
        Some(n - 0x41 + 10)
    } else if 0x61 <= n <= 0x66 {
        Some(n - 0x61 + 10)
    } else {
        None
    }
}

/// The bytes that `application/x-www-form-urlencoded` text stands for: `+`
/// is a space, `%` with two hexadecimal digits is the byte they spell, any
/// other character is its own code point.
pub open spec fn percent_decoded(text: Seq<char>) -> Seq<u8>
    decreases text.len(),
{
    if text.len() == 0 {
        Seq::empty()
    } else if text[0] == '+' {
        seq![0x20u8] + percent_decoded(text.skip(1))
    } else if text[0] == '%' && text.len() >= 3 && hex_value(text[1]) is Some && hex_value(
        text[2],
    ) is Some {
        seq![(hex_value(text[1])->0 * 16 + hex_value(text[2])->0) as u8] + percent_decoded(
            text.skip(3),
        )
    } else {
        seq![text[0] as u8] + percent_decoded(text.skip(1))
    }
}

/// The wire form of a field value; defined for Latin-1 text.
pub open spec fn wire_value(value: Seq<char>) -> Seq<char> {
    percent_encoded(latin1_bytes(value))
}

/// A character is its code point, which is never negative.
pub proof fn lemma_char_bounds(c: char)
    ensures
        0 <= c as int <= 0x10FFFF,
        c as u32 as int == c as int,
        latin1_char(c) ==> c as u8 as int == c as int,
{
}

proof fn lemma_hex_round_trip(n: int)
    requires
        0 <= n < 16,
    ensures
        hex_value(hex_digit(n)) == Some(n),
{
    if n < 10 {
        let b = (0x30 + n) as u8;
        assert(b as char as u32 == b as u32);
    } else {
        let b = (0x41 + n - 10) as u8;
        assert(b as char as u32 == b as u32);
    }
}

proof fn lemma_decode_one(b: u8, rest: Seq<char>)
    ensures
        percent_decoded(encoded_byte(b) + rest) == seq![b] + percent_decoded(rest),
{
    let text = encoded_byte(b) + rest;
    if unreserved(b) {
        assert(b as char as u32 == b as u32 && b as char as u8 == b);
        assert(text[0] == b as char);
        assert(text.skip(1) =~= rest);
    } else if b == 0x20 {
        assert(text[0] == '+');
        assert(text.skip(1) =~= rest);
    } else {
        let hi = b as int / 16;
        let lo = b as int % 16;
        lemma_hex_round_trip(hi);
        lemma_hex_round_trip(lo);
        assert(text[0] == '%');
        assert(text[1] == hex_digit(hi));
        assert(text[2] == hex_digit(lo));
        assert(text.skip(3) =~= rest);
        assert((hi * 16 + lo) as u8 == b);
    }
}

/// Percent-encoding loses nothing: decoding what was encoded gives the bytes
/// back.
pub proof fn lemma_percent_round_trip(bytes: Seq<u8>)
    ensures
        percent_decoded(percent_encoded(bytes)) == bytes,
    decreases bytes.len(),
{
    if bytes.len() == 0 {
        assert(percent_decoded(percent_encoded(bytes)) =~= bytes);
    } else {
        lemma_decode_one(bytes[0], percent_encoded(bytes.skip(1)));
        lemma_percent_round_trip(bytes.skip(1));
        assert(seq![bytes[0]] + bytes.skip(1) =~= bytes);
    }
}

/// A Latin-1 text survives the wire: the bytes that its wire form decodes to
/// are its ISO-8859-1 bytes, one per character, each the character's code
/// point.
pub proof fn lemma_wire_round_trip(value: Seq<char>)
    requires
        is_latin1(value),
    ensures
        percent_decoded(wire_value(value)) == latin1_bytes(value),
        latin1_bytes(value).len() == value.len(),
        forall|i: int| 0 <= i < value.len() ==> latin1_bytes(value)[i] as u32 == value[i] as u32,
{
    lemma_percent_round_trip(latin1_bytes(value));
    assert forall|i: int| 0 <= i < value.len() implies latin1_bytes(value)[i] as u32
        == value[i] as u32 by {
        let c = value[i];
        assert(latin1_char(c));
        lemma_char_bounds(c);
    }
}

/// `encoding::Encoding::encode` of `encoding::all::ISO_8859_1` with
/// `EncoderTrap::Strict`: the encoder writes every character up to U+00FF as
/// the byte of its code point and fails at the first character beyond.
#[verifier::external_body]
fn latin1_encode(value: &str) -> (r: Option<Vec<u8>>)
    ensures
        match r {
            Some(bytes) => is_latin1(value@) && bytes@ == latin1_bytes(value@),
            None => !is_latin1(value@),
        },
{
    ISO_8859_1.encode(value, EncoderTrap::Strict).ok()
}

/// `form_urlencoded::byte_serialize`, collected: letters, digits and `*-._`
/// stay, a space becomes `+`, every other byte `%` and two upper-case
/// hexadecimal digits.
#[verifier::external_body]
fn serialize_bytes(bytes: &Vec<u8>) -> (r: String)
    ensures
        r@ == percent_encoded(bytes@),
{
    byte_serialize(bytes).collect()
}

/// The wire form of one field value, or `None` where the value holds a
/// character that ISO-8859-1 lacks.
pub fn encode_value(value: &str) -> (r: Option<String>)
    ensures
        match r {
            Some(text) => is_latin1(value@) && text@ == wire_value(value@),
            None => !is_latin1(value@),
        },
{
    match latin1_encode(value) {
        Some(bytes) => Some(serialize_bytes(&bytes)),
        None => None,
    }
}

} // verus!

