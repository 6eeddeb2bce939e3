//! Hexadecimal encoding and decoding, specified exactly over character
//! sequences. The executable encode/decode calls go to the `hex` crate; the
//! spec functions here say precisely what those calls return.

use vstd::prelude::*;

verus! {

/// The character is an ASCII hexadecimal digit, either case.
pub open spec fn is_hex_digit(c: char) -> bool {
    ('0' <= c && c <= '9') || ('a' <= c && c <= 'f') || ('A' <= c && c <= 'F')
}

/// The numeric value of a hexadecimal digit (0 for a non-digit).
pub open spec fn hex_digit_val(c: char) -> u8 {
    if '0' <= c && c <= '9' {
        (c as u32 - 48) as u8
    } else if 'a' <= c && c <= 'f' {
        (c as u32 - 97 + 10) as u8
    } else if 'A' <= c && c <= 'F' {
        (c as u32 - 65 + 10) as u8
    } else {
        0
    }
}

/// The sequence is a well-formed hex string: even length, hex digits only.
pub open spec fn is_hex_seq(s: Seq<char>) -> bool {
    &&& s.len() % 2 == 0
    &&& forall|i: int| 0 <= i < s.len() ==> is_hex_digit(#[trigger] s[i])
}

/// The bytes denoted by a hex string, two digits per byte, most significant
/// nibble first. Meaningful when `is_hex_seq(s)` holds.
pub open spec fn bytes_of_hex(s: Seq<char>) -> Seq<u8> {
    Seq::new((s.len() / 2) as nat, |i: int| (16 * hex_digit_val(s[2 * i]) + hex_digit_val(s[2 * i + 1])) as u8)
}

/// The lowercase hex digit for a value below 16.
pub open spec fn hex_char_of(v: u8) -> char {
    if v < 10 {
        ((v + 48) as u8) as char
    } else {
        ((v + 87) as u8) as char
    }
}

/// The lowercase hex rendering of a byte sequence.
pub open spec fn hex_of(b: Seq<u8>) -> Seq<char> {
    Seq::new((2 * b.len()) as nat, |i: int| if i % 2 == 0 {
        hex_char_of((b[i / 2] / 16) as u8)
    } else {
        hex_char_of((b[i / 2] % 16) as u8)
    })
}

/// A hex digit produced by `hex_char_of` reads back as the value it encodes.
pub proof fn lemma_hex_digit_round_trip(v: u8)
    requires
        v < 16,
    ensures
        is_hex_digit(hex_char_of(v)),
        hex_digit_val(hex_char_of(v)) == v,
{
}

/// Rendering bytes as hex always yields a well-formed hex string.
pub proof fn lemma_hex_of_is_hex_seq(b: Seq<u8>)
    ensures
        is_hex_seq(hex_of(b)),
        hex_of(b).len() == 2 * b.len(),
{
    assert forall|i: int| 0 <= i < hex_of(b).len() implies is_hex_digit(#[trigger] hex_of(b)[i]) by {
        if i % 2 == 0 {
            lemma_hex_digit_round_trip((b[i / 2] / 16) as u8);
        } else {
            lemma_hex_digit_round_trip((b[i / 2] % 16) as u8);
        }
    }
}

/// Round trip: decoding the hex rendering of bytes yields the bytes back.
pub proof fn lemma_hex_round_trip(b: Seq<u8>)
    ensures
        is_hex_seq(hex_of(b)),
        bytes_of_hex(hex_of(b)) =~= b,
{
    lemma_hex_of_is_hex_seq(b);
    assert forall|i: int| 0 <= i < b.len() implies bytes_of_hex(hex_of(b))[i] == b[i] by {
        lemma_hex_digit_round_trip((b[i] / 16) as u8);
        lemma_hex_digit_round_trip((b[i] % 16) as u8);
        assert(hex_of(b)[2 * i] == hex_char_of((b[i] / 16) as u8));
        assert(hex_of(b)[2 * i + 1] == hex_char_of((b[i] % 16) as u8));
    }
}

/// Relies on `hex::encode`: renders bytes as lowercase hex, two digits per
/// byte, most significant nibble first.
#[verifier::external_body]
pub(crate) fn hex_encode(data: &[u8]) -> (r: String)
    ensures
        r@ == hex_of(data@),
{
    hex::encode(data)
}

/// Relies on `hex::decode`: succeeds exactly on even-length strings of ASCII
/// hex digits (either case), yielding the bytes the string denotes.
#[verifier::external_body]
pub(crate) fn hex_decode(s: &str) -> (r: Option<Vec<u8>>)
    ensures
        match r {
            Some(v) => is_hex_seq(s@) && v@ == bytes_of_hex(s@),
            None => !is_hex_seq(s@),
        },
{
    hex::decode(s).ok()
}

} // verus!
