//! The ways in which a byte buffer can fail to be an instruction.

use vstd::prelude::*;

verus! {

/// Why a buffer was rejected.
#[derive(Clone, Copy, Debug, PartialEq, Eq, Structural)]
pub enum DecodeError {
    /// Fewer bytes remain than the field being read needs.
    TruncatedInput,
    /// The tag byte selects no instruction; the byte is reported.
    UnknownTag(u8),
    /// The byte in front of an optional key is neither 0 nor 1, or is missing.
    InvalidDiscriminant,
    /// An authority or extension code lies outside its closed range; the code is reported.
    InvalidEnumCode(u16),
    /// The text payload is not valid UTF-8.
    InvalidTextEncoding,
}

} // verus!
