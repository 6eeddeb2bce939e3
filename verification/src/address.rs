//! Address and hash parsing: turns externally supplied strings into typed
//! identifiers, trying the fixed-width raw hex form first and the canonical
//! human-readable encoding second.

use vstd::prelude::*;

use crate::bech32codec::{
    base32_of, bech32_decode, bech32_encode, bech32_parts, bech32_string, bytes_of_base32,
    regroup_from_base32, regroup_to_base32, valid_hrp,
};
use crate::error::{ConversionError, ErrorV};
use crate::hexcodec::{bytes_of_hex, hex_decode, hex_encode, hex_of, is_hex_seq};
use crate::model::{Input, InputV};

verus! {

/// A typed 32-byte address identifier, displayable both as raw hex and in the
/// canonical human-readable encoding.
#[derive(Debug, Clone, PartialEq, Eq)]
pub struct Address {
    bytes: Vec<u8>,
}

impl View for Address {
    type V = Seq<u8>;

    closed spec fn view(&self) -> Seq<u8> {
        self.bytes@
    }
}

impl DeepView for Address {
    type V = Seq<u8>;

    open spec fn deep_view(&self) -> Seq<u8> {
        self.view()
    }
}

/// The human-readable part under which addresses are rendered.
pub open spec fn spec_hrp() -> Seq<char> {
    "iota"@
}

/// The version tag that prefixes the raw bytes of this address kind inside
/// the canonical encoding.
pub open spec fn address_version_tag() -> u8 {
    0
}

/// The canonical human-readable rendering of 32 address bytes: the version
/// tag plus the bytes, regrouped to 5-bit values and checksummed under the
/// fixed human-readable part.
pub open spec fn spec_address_bech32(a: Seq<u8>) -> Seq<char> {
    bech32_string(spec_hrp(), base32_of(seq![address_version_tag()] + a))
}

/// What a string parses to as an address, if anything: either exactly 64 hex
/// digits denoting the 32 raw bytes, or a canonically encoded string whose
/// payload is the version tag plus 32 bytes. The hex interpretation is tried
/// first.
pub open spec fn spec_parse_address(s: Seq<char>) -> Option<Seq<u8>> {
    if is_hex_seq(s) && s.len() == 64 {
        Some(bytes_of_hex(s))
    } else {
        match bech32_parts(s) {
            Some(p) => match bytes_of_base32(p.1) {
                Some(b) => if b.len() == 33 && b[0] == address_version_tag() {
                    Some(b.skip(1))
                } else {
                    None
                },
                None => None,
            },
            None => None,
        }
    }
}

/// The fixed human-readable part, with the proof that the renderer accepts it.
fn bech32_hrp() -> (r: &'static str)
    ensures
        r@ == spec_hrp(),
        valid_hrp(r@),
{
    proof {
        reveal_strlit("iota");
        assert forall|i: int| 0 <= i < spec_hrp().len() implies 33 <= (#[trigger] spec_hrp()[i]) as u32
            <= 126 && !('A' <= spec_hrp()[i] && spec_hrp()[i] <= 'Z') by {
            if i == 0 {
                assert(spec_hrp()[0] == 'i');
            } else if i == 1 {
                assert(spec_hrp()[1] == 'o');
            } else if i == 2 {
                assert(spec_hrp()[2] == 't');
            } else {
                assert(spec_hrp()[3] == 'a');
            }
        }
    }
    "iota"
}

impl Address {
    /// Exactly 32 bytes.
    pub open spec fn wf(&self) -> bool {
        self@.len() == 32
    }

    /// Builds an address from its 32 raw bytes; any other length is rejected.
    pub fn from_bytes(bytes: Vec<u8>) -> (r: Result<Address, ConversionError>)
        ensures
            match r {
                Ok(a) => bytes@.len() == 32 && a@ == bytes@ && a.wf(),
                Err(e) => bytes@.len() != 32 && e.deep_view() == ErrorV::InvalidEncoding,
            },
    {
        if bytes.len() == 32 {
            Ok(Address { bytes })
        } else {
            Err(ConversionError::InvalidEncoding)
        }
    }

    /// The raw bytes of the address.
    pub fn as_bytes(&self) -> (r: &[u8])
        ensures
            r@ == self@,
    {
        self.bytes.as_slice()
    }

    /// The raw hex form of the address.
    pub fn to_hex(&self) -> (r: String)
        ensures
            r@ == hex_of(self@),
    {
        hex_encode(self.bytes.as_slice())
    }

    /// The canonical human-readable form of the address.
    pub fn to_bech32(&self) -> (r: String)
        ensures
            r@ == spec_address_bech32(self@),
    {
        let mut data: Vec<u8> = Vec::new();
        data.push(0u8);
        assert(data@ =~= seq![address_version_tag()] + self.bytes@.take(0));
        let n = self.bytes.len();
        let mut i: usize = 0;
        while i < n
            invariant
                i <= n,
                n == self.bytes@.len(),
                data@ == seq![address_version_tag()] + self.bytes@.take(i as int),
            decreases n - i,
        {
            data.push(self.bytes[i]);
            assert(data@ =~= seq![address_version_tag()] + self.bytes@.take(i + 1));
            i += 1;
        }
        assert(self.bytes@.take(n as int) =~= self.bytes@);
        let d5 = regroup_to_base32(&data);
        let hrp = bech32_hrp();
        bech32_encode(hrp, &d5)
    }

    /// Parses an address string: 64 hex digits first, the canonical encoding
    /// second; anything else is an `InvalidFormat` failure carrying the text.
    pub fn parse(s: &str) -> (r: Result<Address, ConversionError>)
        ensures
            match r {
                Ok(a) => spec_parse_address(s@) == Some(a@) && a.wf(),
                Err(e) => spec_parse_address(s@) is None && e.deep_view() == ErrorV::InvalidFormat(
                    s@,
                ),
            },
    {
        match hex_decode(s) {
            Some(bytes) => {
                if bytes.len() == 32 {
                    return Ok(Address { bytes });
                }
                // well-formed hex of the wrong width: fall through to the
                // canonical encoding
            },
            None => {},
        }
        match bech32_decode(s) {
            Some(parts) => {
                let data5 = parts.1;
                match regroup_from_base32(&data5) {
                    Some(bytes) => {
                        if bytes.len() == 33 {
                            if bytes[0] == 0 {
                                let mut rest = bytes;
                                rest.remove(0);
                                assert(rest@ =~= bytes_of_base32(data5@).unwrap().skip(1));
                                return Ok(Address { bytes: rest });
                            }
                        }
                        Err(ConversionError::InvalidFormat(s.to_owned()))
                    },
                    None => Err(ConversionError::InvalidFormat(s.to_owned())),
                }
            },
            None => Err(ConversionError::InvalidFormat(s.to_owned())),
        }
    }
}

/// The character is an ASCII decimal digit.
pub open spec fn is_dec_digit(c: char) -> bool {
    '0' <= c && c <= '9'
}

/// The sequence is a non-empty run of decimal digits.
pub open spec fn is_dec_seq(s: Seq<char>) -> bool {
    s.len() > 0 && forall|i: int| 0 <= i < s.len() ==> is_dec_digit(#[trigger] s[i])
}

/// The number denoted by a run of decimal digits, most significant first.
pub open spec fn dec_val(s: Seq<char>) -> int
    decreases s.len(),
{
    if s.len() == 0 {
        0
    } else {
        dec_val(s.drop_last()) * 10 + (s.last() as u32 - 48)
    }
}

proof fn lemma_dec_val_nonneg(s: Seq<char>)
    requires
        forall|i: int| 0 <= i < s.len() ==> is_dec_digit(#[trigger] s[i]),
    ensures
        dec_val(s) >= 0,
    decreases s.len(),
{
    if s.len() > 0 {
        assert(forall|i: int| 0 <= i < s.drop_last().len() ==> is_dec_digit(
            #[trigger] s.drop_last()[i],
        ));
        lemma_dec_val_nonneg(s.drop_last());
    }
}

proof fn lemma_dec_val_monotone(s: Seq<char>, k: int)
    requires
        0 <= k <= s.len(),
        forall|i: int| 0 <= i < s.len() ==> is_dec_digit(#[trigger] s[i]),
    ensures
        dec_val(s.take(k)) <= dec_val(s),
    decreases s.len() - k,
{
    if k < s.len() {
        lemma_dec_val_monotone(s, k + 1);
        assert(forall|i: int| 0 <= i < s.take(k).len() ==> is_dec_digit(#[trigger] s.take(k)[i]));
        lemma_dec_val_nonneg(s.take(k));
        assert(s.take(k + 1).drop_last() =~= s.take(k));
        assert(dec_val(s.take(k + 1)) == dec_val(s.take(k)) * 10 + (s[k] as u32 - 48));
    } else {
        assert(s.take(k) =~= s);
    }
}

/// Parses a run of decimal digits into a 16-bit number; rejects empty text,
/// non-digits, and values above the 16-bit range.
fn parse_u16_decimal(s: &str) -> (r: Option<u16>)
    ensures
        match r {
            Some(v) => is_dec_seq(s@) && dec_val(s@) <= u16::MAX && v as int == dec_val(s@),
            None => !(is_dec_seq(s@) && dec_val(s@) <= u16::MAX),
        },
{
    let n = s.unicode_len();
    if n == 0 {
        return None;
    }
    let mut acc: u32 = 0;
    let mut i: usize = 0;
    while i < n
        invariant
            0 < n == s@.len(),
            i <= n,
            forall|j: int| 0 <= j < i ==> is_dec_digit(#[trigger] s@[j]),
            acc as int == dec_val(s@.take(i as int)),
            acc <= 65535,
        decreases n - i,
    {
        let c = s.get_char(i);
        let u = c as u32;
        if u < 48 || u > 57 {
            return None;
        }
        let acc2 = acc * 10 + (u - 48);
        proof {
            assert(s@.take(i + 1).drop_last() =~= s@.take(i as int));
            assert(s@.take(i + 1).last() == s@[i as int]);
        }
        if acc2 > 65535 {
            proof {
                if is_dec_seq(s@) {
                    lemma_dec_val_monotone(s@, i + 1);
                }
            }
            return None;
        }
        acc = acc2;
        i += 1;
    }
    proof {
        assert(s@.take(n as int) =~= s@);
    }
    Some(acc as u16)
}

/// What a string parses to as an input reference, if anything: 64 hex digits
/// for the transaction id, a colon, and the output index in decimal.
pub open spec fn spec_parse_input(s: Seq<char>) -> Option<InputV> {
    if s.len() >= 66 && s[64] == ':' && is_hex_seq(s.take(64)) && is_dec_seq(s.skip(65)) && dec_val(
        s.skip(65),
    ) <= u16::MAX {
        Some(
            InputV {
                transaction_id: bytes_of_hex(s.take(64)),
                output_index: dec_val(s.skip(65)) as u16,
            },
        )
    } else {
        None
    }
}

/// Parses an input reference string of the form `<transaction id>:<index>`;
/// anything else is an `InvalidFormat` failure carrying the text.
pub fn parse_input_reference(s: &str) -> (r: Result<Input, ConversionError>)
    ensures
        match r {
            Ok(inp) => spec_parse_input(s@) == Some(inp.deep_view()) && inp.wf(),
            Err(e) => spec_parse_input(s@) is None && e.deep_view() == ErrorV::InvalidFormat(s@),
        },
{
    let n = s.unicode_len();
    if n < 66 {
        return Err(ConversionError::InvalidFormat(s.to_owned()));
    }
    if s.get_char(64) != ':' {
        return Err(ConversionError::InvalidFormat(s.to_owned()));
    }
    let tid_str = s.substring_char(0, 64);
    proof {
        assert(tid_str@ =~= s@.take(64));
    }
    let tid = match hex_decode(tid_str) {
        Some(b) => b,
        None => {
            return Err(ConversionError::InvalidFormat(s.to_owned()));
        },
    };
    let digits = s.substring_char(65, n);
    proof {
        assert(digits@ =~= s@.skip(65));
    }
    let idx = match parse_u16_decimal(digits) {
        Some(v) => v,
        None => {
            return Err(ConversionError::InvalidFormat(s.to_owned()));
        },
    };
    Ok(Input { transaction_id: tid, output_index: idx })
}

} // verus!
