//! Decoding of fetched bytes into typed values.

use vstd::prelude::*;

verus! {

#[verifier::external_type_specification]
#[verifier::external_body]
pub struct ExCodecError(parity_scale_codec::Error);

/// The unsigned integer whose little-endian bytes are `bytes`.
pub open spec fn le_value(bytes: Seq<u8>) -> nat
    decreases bytes.len(),
{
    if bytes.len() == 0 {
        0
    } else {
        bytes[0] as nat + 256 * le_value(bytes.drop_first())
    }
}

/// The value of a fixed-width little-endian integer of `width` bytes read from
/// the front of `bytes`, if there are enough of them; trailing bytes are ignored.
pub open spec fn le_prefix(bytes: Seq<u8>, width: nat) -> Option<nat> {
    if bytes.len() >= width {
        Some(le_value(bytes.subrange(0, width as int)))
    } else {
        None
    }
}

/// A value type that fetched bytes decode into.
pub trait DecodeValue: Sized {
    /// The value that `bytes` decode into, or `None` where they do not fit the type.
    spec fn decode_spec(bytes: Seq<u8>) -> Option<Self>;

    /// Decodes `bytes`.
    fn decode_value(bytes: &[u8]) -> (r: Option<Self>)
        ensures
            r == Self::decode_spec(bytes@),
    ;
}

/// Relies on `<u32 as parity_scale_codec::Decode>::decode` over a byte slice:
/// it reads the first 4 bytes as little-endian and fails when fewer remain.
#[verifier::external_body]
fn decode_u32(bytes: &[u8]) -> (r: Result<u32, parity_scale_codec::Error>)
    ensures
        r is Ok <==> bytes@.len() >= 4,
        r matches Ok(v) ==> le_prefix(bytes@, 4) == Some(v as nat),
{
    let mut input = bytes;
    <u32 as parity_scale_codec::Decode>::decode(&mut input)
}

/// Relies on `<u64 as parity_scale_codec::Decode>::decode` over a byte slice:
/// it reads the first 8 bytes as little-endian and fails when fewer remain.
#[verifier::external_body]
fn decode_u64(bytes: &[u8]) -> (r: Result<u64, parity_scale_codec::Error>)
    ensures
        r is Ok <==> bytes@.len() >= 8,
        r matches Ok(v) ==> le_prefix(bytes@, 8) == Some(v as nat),
{
    let mut input = bytes;
    <u64 as parity_scale_codec::Decode>::decode(&mut input)
}

/// Relies on `<u128 as parity_scale_codec::Decode>::decode` over a byte slice:
/// it reads the first 16 bytes as little-endian and fails when fewer remain.
#[verifier::external_body]
fn decode_u128(bytes: &[u8]) -> (r: Result<u128, parity_scale_codec::Error>)
    ensures
        r is Ok <==> bytes@.len() >= 16,
        r matches Ok(v) ==> le_prefix(bytes@, 16) == Some(v as nat),
{
    let mut input = bytes;
    <u128 as parity_scale_codec::Decode>::decode(&mut input)
}

impl DecodeValue for u32 {
    open spec fn decode_spec(bytes: Seq<u8>) -> Option<u32> {
        match le_prefix(bytes, 4) {
            Some(v) => Some(v as u32),
            None => None,
        }
    }

    fn decode_value(bytes: &[u8]) -> (r: Option<u32>) {
        match decode_u32(bytes) {
            Ok(v) => Some(v),
            Err(_) => None,
        }
    }
}

impl DecodeValue for u64 {
    open spec fn decode_spec(bytes: Seq<u8>) -> Option<u64> {
        match le_prefix(bytes, 8) {
            Some(v) => Some(v as u64),
            None => None,
        }
    }

    fn decode_value(bytes: &[u8]) -> (r: Option<u64>) {
        match decode_u64(bytes) {
            Ok(v) => Some(v),
            Err(_) => None,
        }
    }
}

impl DecodeValue for u128 {
    open spec fn decode_spec(bytes: Seq<u8>) -> Option<u128> {
        match le_prefix(bytes, 16) {
            Some(v) => Some(v as u128),
            None => None,
        }
    }

    fn decode_value(bytes: &[u8]) -> (r: Option<u128>) {
        match decode_u128(bytes) {
            Ok(v) => Some(v),
            Err(_) => None,
        }
    }
}

} // verus!
