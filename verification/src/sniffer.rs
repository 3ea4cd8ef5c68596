//! Decoding of outgoing WebSocket frames captured by the packet sniffer
//! (RFC 6455 client-to-server masking), and the errors of the capture side.

use vstd::prelude::*;
use vstd::string::StringSliceAdditionalSpecFns;
use vstd::utf8::*;

use crate::hex_codec::{decode_hex, hex_decode, hex_encode, lemma_hex_roundtrip, HexError};
use crate::text::string_from_utf8;

verus! {

broadcast use vstd::string::group_string_axioms;

/// Failures of the capture pipeline.
#[derive(Debug, PartialEq, Eq)]
pub enum SnifferError {
    /// The capture tool could not be started; the text of the operating system error.
    TSharkRun(String),
    /// The standard output of the capture tool could not be taken.
    Stdout,
    /// A line of the capture output could not be read; the text of the error.
    NonValidSequence(String),
    /// The capture tool closed its output.
    ProcessTerminated,
    /// Payload or masking key is not hexadecimal text.
    HexDecode(HexError),
    /// The masking key does not have four bytes; its length.
    MaskingKeyLength(usize),
    /// The unmasked payload is not UTF-8 text.
    DecodingWithMask,
}

/// The byte `:` that the capture tool puts between hexadecimal byte pairs.
pub open spec fn is_colon(b: u8) -> bool {
    b == 0x3a
}

/// `s` with every `:` byte removed.
pub open spec fn without_colons(s: Seq<u8>) -> Seq<u8>
    decreases s.len(),
{
    if s.len() == 0 {
        Seq::empty()
    } else if is_colon(s.last()) {
        without_colons(s.drop_last())
    } else {
        without_colons(s.drop_last()).push(s.last())
    }
}

/// RFC 6455 masking: byte `i` is combined by exclusive or with key byte `i % 4`.
/// The same operation masks and unmasks.
pub open spec fn apply_mask(payload: Seq<u8>, key: Seq<u8>) -> Seq<u8> {
    Seq::new(payload.len(), |i: int| payload[i] ^ key[i % 4])
}

/// What unmasking the hexadecimal `payload_hex` with the hexadecimal key
/// `mask_hex` gives: both are read with their colons removed, the key must
/// have four bytes, and the unmasked bytes must be UTF-8 text.
pub open spec fn unmask_result(payload_hex: Seq<u8>, mask_hex: Seq<u8>) -> Result<
    Seq<char>,
    SnifferError,
> {
    match hex_decode(without_colons(payload_hex)) {
        Err(e) => Err(SnifferError::HexDecode(e)),
        Ok(payload) => match hex_decode(without_colons(mask_hex)) {
            Err(e) => Err(SnifferError::HexDecode(e)),
            Ok(key) => if key.len() != 4 {
                Err(SnifferError::MaskingKeyLength(key.len() as usize))
            } else if valid_utf8(apply_mask(payload, key)) {
                Ok(decode_utf8(apply_mask(payload, key)))
            } else {
                Err(SnifferError::DecodingWithMask)
            },
        },
    }
}

/// The bytes of `text` without its `:` separators.
fn strip_colons(text: &str) -> (res: Vec<u8>)
    ensures
        res@ == without_colons(text.spec_bytes()),
{
    let bytes = text.as_bytes();
    let mut out: Vec<u8> = Vec::new();
    let mut i: usize = 0;
    while i < bytes.len()
        invariant
            i <= bytes@.len(),
            bytes@ == text.spec_bytes(),
            out@ == without_colons(bytes@.take(i as int)),
        decreases bytes@.len() - i,
    {
        assert(bytes@.take(i + 1).drop_last() =~= bytes@.take(i as int));
        if bytes[i] != 0x3a {
            out.push(bytes[i]);
        }
        i += 1;
    }
    assert(bytes@.take(bytes@.len() as int) =~= bytes@);
    out
}

/// Unmasks `payload` with the four-byte `key`.
fn mask_bytes(payload: &Vec<u8>, key: &Vec<u8>) -> (res: Vec<u8>)
    requires
        key@.len() == 4,
    ensures
        res@ == apply_mask(payload@, key@),
{
    let mut out: Vec<u8> = Vec::new();
    let mut i: usize = 0;
    while i < payload.len()
        invariant
            i <= payload@.len(),
            key@.len() == 4,
            out@.len() == i,
            forall|j: int| 0 <= j < i ==> #[trigger] out@[j] == payload@[j] ^ key@[j % 4],
        decreases payload@.len() - i,
    {
        out.push(payload[i] ^ key[i % 4]);
        i += 1;
    }
    assert(out@ =~= apply_mask(payload@, key@));
    out
}

/// Decodes an outgoing WebSocket payload (RFC 6455): the payload and the
/// masking key arrive as hexadecimal text (possibly with `:` between the byte
/// pairs), the payload is unmasked with the four-byte key and read as UTF-8.
pub fn unmask_websocket_payload(payload_hex: &str, mask_hex: &str) -> (res: Result<
    String,
    SnifferError,
>)
    ensures
        match res {
            Ok(s) => unmask_result(payload_hex.spec_bytes(), mask_hex.spec_bytes()) == Ok::<
                Seq<char>,
                SnifferError,
            >(s@),
            Err(e) => unmask_result(payload_hex.spec_bytes(), mask_hex.spec_bytes()) == Err::<
                Seq<char>,
                SnifferError,
            >(e),
        },
{
    let clean_payload = strip_colons(payload_hex);
    let clean_mask = strip_colons(mask_hex);
    let payload_bytes = match decode_hex(clean_payload.as_slice()) {
        Ok(b) => b,
        Err(e) => return Err(SnifferError::HexDecode(e)),
    };
    let mask = match decode_hex(clean_mask.as_slice()) {
        Ok(b) => b,
        Err(e) => return Err(SnifferError::HexDecode(e)),
    };
    if mask.len() != 4 {
        return Err(SnifferError::MaskingKeyLength(mask.len()));
    }
    let unmasked = mask_bytes(&payload_bytes, &mask);
    match string_from_utf8(unmasked) {
        Ok(s) => Ok(s),
        Err(_) => Err(SnifferError::DecodingWithMask),
    }
}

/// RFC 6455 masking undoes itself: masking twice with the same four-byte key
/// gives back the bytes it started from.
pub proof fn lemma_mask_involutive(payload: Seq<u8>, key: Seq<u8>)
    requires
        key.len() == 4,
    ensures
        apply_mask(apply_mask(payload, key), key) == payload,
{
    let once = apply_mask(payload, key);
    let twice = apply_mask(once, key);
    assert forall|i: int| 0 <= i < payload.len() implies twice[i] == payload[i] by {
        let a = payload[i];
        let b = key[i % 4];
        assert((a ^ b) ^ b == a) by (bit_vector);
    }
    assert(twice =~= payload);
}

/// Text with no `:` byte is left as it is by the colon removal.
pub proof fn lemma_without_colons_identity(s: Seq<u8>)
    requires
        forall|i: int| 0 <= i < s.len() ==> !is_colon(#[trigger] s[i]),
    ensures
        without_colons(s) == s,
    decreases s.len(),
{
    if s.len() > 0 {
        lemma_without_colons_identity(s.drop_last());
        assert(s.drop_last().push(s.last()) =~= s);
    }
}

/// A text that a client masked with a four-byte key and that the capture tool
/// printed as hexadecimal is recovered exactly by unmasking with that key.
pub proof fn lemma_unmask_recovers_text(text: Seq<char>, key: Seq<u8>)
    requires
        key.len() == 4,
    ensures
        unmask_result(hex_encode(apply_mask(encode_utf8(text), key)), hex_encode(key)) == Ok::<
            Seq<char>,
            SnifferError,
        >(text),
{
    let bytes = encode_utf8(text);
    let masked = apply_mask(bytes, key);
    lemma_hex_has_no_colon(masked);
    lemma_hex_has_no_colon(key);
    lemma_hex_roundtrip(masked);
    lemma_hex_roundtrip(key);
    lemma_mask_involutive(bytes, key);
    encode_utf8_valid_utf8(text);
    encode_utf8_decode_utf8(text);
}

proof fn lemma_hex_has_no_colon(b: Seq<u8>)
    ensures
        without_colons(hex_encode(b)) == hex_encode(b),
{
    let e = hex_encode(b);
    assert forall|i: int| 0 <= i < e.len() implies !is_colon(#[trigger] e[i]) by {
        let x = b[i / 2];
        assert(x >> 4 < 16 && x & 0xf < 16) by (bit_vector);
    }
    lemma_without_colons_identity(e);
}

/// Colon removal leaves no colon.
proof fn lemma_without_colons_has_none(s: Seq<u8>)
    ensures
        forall|i: int| 0 <= i < without_colons(s).len() ==> !is_colon(#[trigger] without_colons(s)[i]),
    decreases s.len(),
{
    if s.len() > 0 {
        let prev = without_colons(s.drop_last());
        lemma_without_colons_has_none(s.drop_last());
        if !is_colon(s.last()) {
            assert forall|i: int| 0 <= i < prev.push(s.last()).len() implies !is_colon(
                #[trigger] prev.push(s.last())[i],
            ) by {
                if i < prev.len() {
                    assert(prev.push(s.last())[i] == prev[i]);
                }
            }
        }
    }
}

/// The `:` separators of the capture tool do not matter: unmasking gives the
/// same result with them as without them.
pub proof fn lemma_colons_do_not_matter(payload_hex: Seq<u8>, mask_hex: Seq<u8>)
    ensures
        unmask_result(payload_hex, mask_hex) == unmask_result(
            without_colons(payload_hex),
            without_colons(mask_hex),
        ),
{
    lemma_without_colons_has_none(payload_hex);
    lemma_without_colons_has_none(mask_hex);
    lemma_without_colons_identity(without_colons(payload_hex));
    lemma_without_colons_identity(without_colons(mask_hex));
}

/// Unmasking combines payload byte `i` with key byte `i % 4`, for every `i`,
/// and keeps the payload length.
pub proof fn lemma_mask_uses_key_cyclically(payload: Seq<u8>, key: Seq<u8>)
    ensures
        apply_mask(payload, key).len() == payload.len(),
        forall|i: int| 0 <= i < payload.len() ==> #[trigger] apply_mask(payload, key)[i] == payload[i] ^ key[i % 4],
{
}

/// A client frame is recovered: the text whose UTF-8 byte `i` was combined by
/// exclusive or with key byte `i % 4`, printed as hexadecimal, unmasks with the
/// hexadecimal key to the text.
pub proof fn lemma_unmask_client_frame(text: Seq<char>, key: Seq<u8>)
    requires
        key.len() == 4,
    ensures
        unmask_result(
            hex_encode(
                Seq::new(
                    encode_utf8(text).len(),
                    |i: int| encode_utf8(text)[i] ^ key[i % 4],
                ),
            ),
            hex_encode(key),
        ) == Ok::<Seq<char>, SnifferError>(text),
{
    let frame = Seq::new(encode_utf8(text).len(), |i: int| encode_utf8(text)[i] ^ key[i % 4]);
    assert(frame =~= apply_mask(encode_utf8(text), key));
    lemma_unmask_recovers_text(text, key);
}

/// A key that does not have four bytes is refused with its length, whatever
/// the payload.
pub proof fn lemma_unmask_wrong_key_length(payload: Seq<u8>, key: Seq<u8>)
    requires
        key.len() != 4,
    ensures
        unmask_result(hex_encode(payload), hex_encode(key)) == Err::<Seq<char>, SnifferError>(
            SnifferError::MaskingKeyLength(key.len() as usize),
        ),
{
    lemma_hex_has_no_colon(payload);
    lemma_hex_has_no_colon(key);
    lemma_hex_roundtrip(payload);
    lemma_hex_roundtrip(key);
}

/// Unmasked bytes (payload byte `i` combined with key byte `i % 4`) that are
/// not UTF-8 text are refused.
pub proof fn lemma_unmask_not_text(payload: Seq<u8>, key: Seq<u8>)
    requires
        key.len() == 4,
        !valid_utf8(Seq::new(payload.len(), |i: int| payload[i] ^ key[i % 4])),
    ensures
        unmask_result(hex_encode(payload), hex_encode(key)) == Err::<Seq<char>, SnifferError>(
            SnifferError::DecodingWithMask,
        ),
{
    lemma_hex_has_no_colon(payload);
    lemma_hex_has_no_colon(key);
    lemma_hex_roundtrip(payload);
    lemma_hex_roundtrip(key);
    assert(Seq::new(payload.len(), |i: int| payload[i] ^ key[i % 4]) =~= apply_mask(payload, key));
}

/// A payload with an odd number of hexadecimal digits (colons aside) is
/// refused as such, whatever the key.
pub proof fn lemma_unmask_odd_payload(payload_hex: Seq<u8>, mask_hex: Seq<u8>)
    requires
        forall|i: int| 0 <= i < payload_hex.len() ==> !is_colon(#[trigger] payload_hex[i]),
        payload_hex.len() % 2 == 1,
    ensures
        unmask_result(payload_hex, mask_hex) == Err::<Seq<char>, SnifferError>(
            SnifferError::HexDecode(HexError::OddLength),
        ),
{
    lemma_without_colons_identity(payload_hex);
}

} // verus!
