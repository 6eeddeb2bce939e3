//! The canonical human-readable address encoding. The encoding itself (base32
//! regrouping and checksummed rendering) is done by the `bech32` crate; its
//! results are named by uninterpreted spec functions, and the address-level
//! logic on top of them is verified in `crate::address`.

use vstd::prelude::*;

verus! {

/// Whether a string may serve as a human-readable part: non-empty, at most 83
/// characters, ASCII graphic, no uppercase letters. On such a part the
/// renderer below always succeeds.
pub open spec fn valid_hrp(s: Seq<char>) -> bool {
    &&& 1 <= s.len() <= 83
    &&& forall|i: int| 0 <= i < s.len() ==> 33 <= (#[trigger] s[i]) as u32 <= 126 && !('A' <= s[i]
        && s[i] <= 'Z')
}

/// What `bech32::convert_bits(d, 8, 5, true)` returns: the bytes regrouped
/// into 5-bit values, zero-padded at the end.
pub uninterp spec fn base32_of(d: Seq<u8>) -> Seq<u8>;

/// What `bech32::convert_bits(d, 5, 8, false)` returns: the 5-bit values
/// regrouped into bytes, or nothing when the padding bits are not zero.
pub uninterp spec fn bytes_of_base32(d: Seq<u8>) -> Option<Seq<u8>>;

/// What `bech32::encode` returns: the checksummed rendering of 5-bit values
/// under a human-readable part.
pub uninterp spec fn bech32_string(hrp: Seq<char>, data: Seq<u8>) -> Seq<char>;

/// What `bech32::decode` returns: the lowercased human-readable part and the
/// 5-bit values of a well-formed checksummed string, or nothing.
pub uninterp spec fn bech32_parts(s: Seq<char>) -> Option<(Seq<char>, Seq<u8>)>;

/// Relies on `bech32::convert_bits` with `from == 8`, `to == 5`, `pad ==
/// true`: this regrouping accepts every byte sequence and every value it
/// emits fits in 5 bits.
#[verifier::external_body]
pub(crate) fn regroup_to_base32(data: &Vec<u8>) -> (r: Vec<u8>)
    ensures
        r@ == base32_of(data@),
        forall|i: int| 0 <= i < r@.len() ==> (#[trigger] r@[i]) < 32,
{
    bech32::convert_bits(data.as_slice(), 8, 5, true).unwrap()
}

/// Relies on `bech32::convert_bits` with `from == 5`, `to == 8`, `pad ==
/// false`: fails when a value does not fit in 5 bits or the padding bits are
/// not zero.
#[verifier::external_body]
pub(crate) fn regroup_from_base32(data: &Vec<u8>) -> (r: Option<Vec<u8>>)
    requires
        forall|i: int| 0 <= i < data@.len() ==> (#[trigger] data@[i]) < 32,
    ensures
        match r {
            Some(v) => bytes_of_base32(data@) == Some(v@),
            None => bytes_of_base32(data@) is None,
        },
{
    bech32::convert_bits(data.as_slice(), 5, 8, false).ok()
}

/// Relies on `bech32::encode` with the original checksum variant: it succeeds
/// on every valid human-readable part, and its result depends on the
/// arguments alone.
#[verifier::external_body]
pub(crate) fn bech32_encode(hrp: &str, data: &Vec<u8>) -> (r: String)
    requires
        valid_hrp(hrp@),
        forall|i: int| 0 <= i < data@.len() ==> (#[trigger] data@[i]) < 32,
    ensures
        r@ == bech32_string(hrp@, data@),
{
    let values: Vec<bech32::u5> = data.iter().map(|b| bech32::u5::try_from_u8(*b).unwrap()).collect();
    bech32::encode(hrp, values, bech32::Variant::Bech32).unwrap()
}

/// Relies on `bech32::decode`: accepts exactly the well-formed strings
/// checksummed under the original variant (the one the renderer above uses),
/// returns the lowercased human-readable part and the 5-bit values, and its
/// result depends on the argument alone.
#[verifier::external_body]
pub(crate) fn bech32_decode(s: &str) -> (r: Option<(String, Vec<u8>)>)
    ensures
        match r {
            Some(p) => bech32_parts(s@) == Some((p.0@, p.1@)) && forall|i: int|
                0 <= i < p.1@.len() ==> (#[trigger] p.1@[i]) < 32,
            None => bech32_parts(s@) is None,
        },
{
    match bech32::decode(s) {
        Ok((hrp, data, bech32::Variant::Bech32)) => {
            Some((hrp, data.iter().map(|v| v.to_u8()).collect()))
        },
        _ => None,
    }
}

} // verus!
