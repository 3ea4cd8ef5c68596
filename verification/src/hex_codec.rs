//! Hexadecimal text as printed by the packet capture tool, and its decoding.

use vstd::prelude::*;

verus! {

/// Why a hexadecimal text could not be decoded.
#[derive(Debug, Clone, Copy, PartialEq, Eq, Structural)]
pub enum HexError {
    /// A byte that is not a hexadecimal digit, and its position in the text.
    InvalidHexCharacter { c: char, index: usize },
    /// The text has an odd number of digits.
    OddLength,
    /// The text does not fit the fixed-size output it was decoded into.
    InvalidStringLength,
}

/// Value of one hexadecimal digit (either case), or `None` for any other byte.
pub open spec fn hex_digit_value(b: u8) -> Option<u8> {
    if 0x30 <= b <= 0x39 {
        Some((b - 0x30) as u8)
    } else if 0x41 <= b <= 0x46 {
        Some((b - 0x41 + 10) as u8)
    } else if 0x61 <= b <= 0x66 {
        Some((b - 0x61 + 10) as u8)
    } else {
        None
    }
}

pub open spec fn is_hex_digit(b: u8) -> bool {
    hex_digit_value(b) is Some
}

pub open spec fn all_hex_digits(s: Seq<u8>) -> bool {
    forall|i: int| 0 <= i < s.len() ==> #[trigger] is_hex_digit(s[i])
}

/// `i` is the position of the first byte of `s` that is not a hexadecimal digit.
pub open spec fn is_first_non_hex(s: Seq<u8>, i: int) -> bool {
    &&& 0 <= i < s.len()
    &&& !is_hex_digit(s[i])
    &&& forall|j: int| 0 <= j < i ==> #[trigger] is_hex_digit(s[j])
}

/// The byte written by the digits at `2 * k` and `2 * k + 1`.
pub open spec fn hex_pair_value(s: Seq<u8>, k: int) -> u8 {
    (hex_digit_value(s[2 * k]).unwrap() * 16 + hex_digit_value(s[2 * k + 1]).unwrap()) as u8
}

/// Decoding of hexadecimal text: two digits per byte, high digit first.
/// An odd length is refused first; otherwise the first non-digit is reported
/// with its position.
pub open spec fn hex_decode(s: Seq<u8>) -> Result<Seq<u8>, HexError> {
    if s.len() % 2 != 0 {
        Err(HexError::OddLength)
    } else if all_hex_digits(s) {
        Ok(Seq::new(s.len() / 2, |k: int| hex_pair_value(s, k)))
    } else {
        let i = choose|i: int| is_first_non_hex(s, i);
        Err(HexError::InvalidHexCharacter { c: s[i] as char, index: i as usize })
    }
}

/// Lower-case digit for a value below 16.
pub open spec fn hex_digit(v: u8) -> u8 {
    if v < 10 {
        (0x30 + v) as u8
    } else {
        (0x61 + v - 10) as u8
    }
}

/// Lower-case hexadecimal text of `b`, two digits per byte.
pub open spec fn hex_encode(b: Seq<u8>) -> Seq<u8> {
    Seq::new(
        2 * b.len(),
        |i: int|
            if i % 2 == 0 {
                hex_digit(b[i / 2] >> 4)
            } else {
                hex_digit(b[i / 2] & 0xf)
            },
    )
}

/// Decodes hexadecimal text with `hex::decode`.
/// Claimed of it: the result is exactly `hex_decode` of the input, odd length
/// checked first, then pairs read in order with the first bad digit reported
/// (as the byte taken for a char) with its position.
#[verifier::external_body]
pub(crate) fn decode_hex(data: &[u8]) -> (res: Result<Vec<u8>, HexError>)
    ensures
        match res {
            Ok(v) => hex_decode(data@) == Ok::<Seq<u8>, HexError>(v@),
            Err(e) => hex_decode(data@) == Err::<Seq<u8>, HexError>(e),
        },
{
    match hex::decode(data) {
        Ok(bytes) => Ok(bytes),
        Err(hex::FromHexError::InvalidHexCharacter { c, index }) => Err(
            HexError::InvalidHexCharacter { c, index },
        ),
        Err(hex::FromHexError::OddLength) => Err(HexError::OddLength),
        Err(hex::FromHexError::InvalidStringLength) => Err(HexError::InvalidStringLength),
    }
}

proof fn lemma_hex_digit_roundtrip(v: u8)
    requires
        v < 16,
    ensures
        hex_digit_value(hex_digit(v)) == Some(v),
        hex_digit(v) != 0x3a,
{
}

/// Every byte survives hexadecimal encoding followed by decoding.
pub proof fn lemma_hex_roundtrip(b: Seq<u8>)
    ensures
        hex_decode(hex_encode(b)) == Ok::<Seq<u8>, HexError>(b),
{
    let e = hex_encode(b);
    assert forall|i: int| 0 <= i < e.len() implies #[trigger] is_hex_digit(e[i]) by {
        let x = b[i / 2];
        assert(x >> 4 < 16 && x & 0xf < 16) by (bit_vector);
        lemma_hex_digit_roundtrip(x >> 4);
        lemma_hex_digit_roundtrip(x & 0xf);
    }
    assert(e.len() % 2 == 0);
    let d = Seq::new(e.len() / 2, |k: int| hex_pair_value(e, k));
    assert forall|k: int| 0 <= k < b.len() implies d[k] == b[k] by {
        let x = b[k];
        assert((2 * k) / 2 == k && (2 * k + 1) / 2 == k && (2 * k) % 2 == 0 && (2 * k + 1) % 2 == 1);
        assert(x >> 4 < 16 && x & 0xf < 16) by (bit_vector);
        lemma_hex_digit_roundtrip(x >> 4);
        lemma_hex_digit_roundtrip(x & 0xf);
        assert(((x >> 4) * 16 + (x & 0xf)) as u8 == x) by (bit_vector);
    }
    assert(d =~= b);
}

} // verus!
