//! The wire format of the primitive fields, as functions on byte sequences.
//!
//! Each `spec_unpack_*` function reads one field from the front of a buffer
//! and gives the field together with the bytes that follow it. Each
//! `spec_pack_*` function is the one encoding of a field.

use vstd::prelude::*;
use crate::error::DecodeError;
use crate::option::COption;
use crate::pubkey::PUBKEY_BYTES;
use crate::pubkey::Pubkey;

verus! {

/// Width of a little-endian `u16` field.
pub const U16_BYTES: usize = 2;

/// Width of a little-endian `u64` field.
pub const U64_BYTES: usize = 8;

/// What reading one field yields: the field and the unread bytes, or the
/// reason for the rejection.
pub type Unpacked<T> = Result<(T, Seq<u8>), DecodeError>;

/// The view of an executable decoder's result: the unread slice becomes the
/// sequence of its bytes.
pub open spec fn unpacked_view<T>(res: Result<(T, &[u8]), DecodeError>) -> Unpacked<T> {
    match res {
        Ok((value, rest)) => Ok((value, rest@)),
        Err(e) => Err(e),
    }
}

/// The number whose little-endian digits in base 256 are the first two bytes.
pub open spec fn spec_u16_le(bytes: Seq<u8>) -> u16
    recommends
        bytes.len() >= 2,
{
    (bytes[0] as int + 0x100 * (bytes[1] as int)) as u16
}

/// The number whose little-endian digits in base 256 are the first eight bytes.
pub open spec fn spec_u64_le(bytes: Seq<u8>) -> u64
    recommends
        bytes.len() >= 8,
{
    (bytes[0] as int
        + 0x100 * (bytes[1] as int)
        + 0x1_0000 * (bytes[2] as int)
        + 0x100_0000 * (bytes[3] as int)
        + 0x1_0000_0000 * (bytes[4] as int)
        + 0x100_0000_0000 * (bytes[5] as int)
        + 0x1_0000_0000_0000 * (bytes[6] as int)
        + 0x100_0000_0000_0000 * (bytes[7] as int)) as u64
}

/// One byte.
pub open spec fn spec_unpack_u8(input: Seq<u8>) -> Unpacked<u8> {
    if input.len() < 1 {
        Err(DecodeError::TruncatedInput)
    } else {
        Ok((input[0], input.skip(1)))
    }
}

/// Two bytes, little-endian.
pub open spec fn spec_unpack_u16(input: Seq<u8>) -> Unpacked<u16> {
    if input.len() < U16_BYTES {
        Err(DecodeError::TruncatedInput)
    } else {
        Ok((spec_u16_le(input), input.skip(2)))
    }
}

/// Eight bytes, little-endian.
pub open spec fn spec_unpack_u64(input: Seq<u8>) -> Unpacked<u64> {
    if input.len() < U64_BYTES {
        Err(DecodeError::TruncatedInput)
    } else {
        Ok((spec_u64_le(input), input.skip(8)))
    }
}

/// Thirty-two bytes, taken as they are.
pub open spec fn spec_unpack_pubkey(input: Seq<u8>) -> Unpacked<Pubkey> {
    if input.len() < PUBKEY_BYTES {
        Err(DecodeError::TruncatedInput)
    } else {
        Ok((Pubkey::spec_from_bytes(input.take(32)), input.skip(32)))
    }
}

/// One discriminant byte, 0 or 1, and after a 1 a key. A missing
/// discriminant is rejected like a wrong one.
pub open spec fn spec_unpack_pubkey_option(input: Seq<u8>) -> Unpacked<COption<Pubkey>> {
    if input.len() >= 1 && input[0] == 0 {
        Ok((COption::Absent, input.skip(1)))
    } else if input.len() >= 1 && input[0] == 1 {
        match spec_unpack_pubkey(input.skip(1)) {
            Ok((key, rest)) => Ok((COption::Present(key), rest)),
            Err(e) => Err(e),
        }
    } else {
        Err(DecodeError::InvalidDiscriminant)
    }
}

/// A `u64` amount and then one byte of decimals.
pub open spec fn spec_unpack_amount_decimals(input: Seq<u8>) -> Unpacked<(u64, u8)> {
    match spec_unpack_u64(input) {
        Ok((amount, rest)) => match spec_unpack_u8(rest) {
            Ok((decimals, rest)) => Ok(((amount, decimals), rest)),
            Err(e) => Err(e),
        },
        Err(e) => Err(e),
    }
}

/// The two bytes that hold a `u16`, least significant first.
pub open spec fn spec_pack_u16(value: u16) -> Seq<u8> {
    seq![(value % 0x100) as u8, (value / 0x100) as u8]
}

/// The eight bytes that hold a `u64`, least significant first.
pub open spec fn spec_pack_u64(value: u64) -> Seq<u8> {
    seq![
        (value % 0x100) as u8,
        (value / 0x100 % 0x100) as u8,
        (value / 0x1_0000 % 0x100) as u8,
        (value / 0x100_0000 % 0x100) as u8,
        (value / 0x1_0000_0000 % 0x100) as u8,
        (value / 0x100_0000_0000 % 0x100) as u8,
        (value / 0x1_0000_0000_0000 % 0x100) as u8,
        (value / 0x100_0000_0000_0000) as u8,
    ]
}

/// The discriminant byte of an optional key, then the key's bytes if there
/// is one.
pub open spec fn spec_pack_pubkey_option(key: COption<Pubkey>) -> Seq<u8> {
    match key {
        COption::Absent => seq![0u8],
        COption::Present(key) => seq![1u8] + key@,
    }
}

/// The `u16` with the given low and high byte.
pub(crate) fn u16_from_le(low: u8, high: u8) -> (value: u16)
    ensures
        value == spec_u16_le(seq![low, high]),
{
    let low_part: u16 = low as u16;
    let high_part: u16 = high as u16;
    low_part + 0x100 * high_part
}

/// The `u64` whose little-endian bytes are the first eight of the slice.
pub(crate) fn u64_from_le(bytes: &[u8]) -> (value: u64)
    requires
        bytes@.len() >= 8,
    ensures
        value == spec_u64_le(bytes@),
{
    let b0: u64 = bytes[0] as u64;
    let b1: u64 = bytes[1] as u64;
    let b2: u64 = bytes[2] as u64;
    let b3: u64 = bytes[3] as u64;
    let b4: u64 = bytes[4] as u64;
    let b5: u64 = bytes[5] as u64;
    let b6: u64 = bytes[6] as u64;
    let b7: u64 = bytes[7] as u64;
    b0 + 0x100 * b1 + 0x1_0000 * b2 + 0x100_0000 * b3 + 0x1_0000_0000 * b4 + 0x100_0000_0000 * b5
        + 0x1_0000_0000_0000 * b6 + 0x100_0000_0000_0000 * b7
}

} // verus!
