//! The text payload: UTF-8 to the end of the buffer.

use vstd::prelude::*;
use vstd::utf8::decode_utf8;
use vstd::utf8::encode_utf8;
use vstd::utf8::encode_utf8_decode_utf8;
use vstd::utf8::valid_utf8;
use crate::error::DecodeError;

verus! {

/// The error of std for bytes that are not UTF-8. It is only told apart
/// from success; nothing is known of what it holds.
#[verifier::external_type_specification]
#[verifier::external_body]
pub struct ExUtf8Error(core::str::Utf8Error);

/// `core::str::from_utf8` succeeds exactly on well-formed UTF-8, and the
/// string slice it then returns is made of the very bytes it was given: they
/// are the UTF-8 encoding of its characters.
pub assume_specification[ core::str::from_utf8 ](v: &[u8]) -> (res: Result<
    &str,
    core::str::Utf8Error,
>)
    ensures
        res is Ok <==> valid_utf8(v@),
        res matches Ok(text) ==> encode_utf8(text@) == v@,
;

/// The text that a whole buffer spells: its characters if the bytes are
/// well-formed UTF-8, and a rejection if they are not.
pub open spec fn spec_unpack_text(input: Seq<u8>) -> Result<Seq<char>, DecodeError> {
    if valid_utf8(input) {
        Ok(decode_utf8(input))
    } else {
        Err(DecodeError::InvalidTextEncoding)
    }
}

/// The view of a decoded text: the sequence of its characters.
pub open spec fn text_view(res: Result<&str, DecodeError>) -> Result<Seq<char>, DecodeError> {
    match res {
        Ok(text) => Ok(text@),
        Err(e) => Err(e),
    }
}

/// Reads the whole buffer as text, borrowing it.
pub fn unpack_text(input: &[u8]) -> (res: Result<&str, DecodeError>)
    ensures
        text_view(res) == spec_unpack_text(input@),
{
    match core::str::from_utf8(input) {
        Ok(text) => {
            proof {
                encode_utf8_decode_utf8(text@);
            }
            Ok(text)
        },
        Err(_) => Err(DecodeError::InvalidTextEncoding),
    }
}

} // verus!
