//! What holds of the format as a whole: reading an encoding gives back what
//! was encoded, a buffer that holds an instruction starts with that
//! instruction's encoding, an encoding cut short is rejected, and a result
//! depends on the bytes alone.

use vstd::prelude::*;
use crate::error::DecodeError;
use crate::layout::TokenInstructionView;
use crate::layout::instruction_view;
use crate::token_instruction_2022::TokenInstruction;

pub mod canonical;
pub mod extension_list;
pub mod round_trip;
pub mod sequences;
pub mod truncation;

verus! {

/// Every instruction's view is well formed.
pub proof fn lemma_view_well_formed(instruction: TokenInstruction)
    ensures
        instruction@.well_formed(),
{
}

/// A result depends on the bytes alone: whatever two runs of the decoder
/// return for one buffer has the same view, and is the same rejection if it
/// is one.
pub proof fn lemma_unpack_is_a_function(
    input: Seq<u8>,
    first: Result<TokenInstruction, DecodeError>,
    second: Result<TokenInstruction, DecodeError>,
)
    requires
        instruction_view(first) == TokenInstructionView::spec_unpack(input),
        instruction_view(second) == TokenInstructionView::spec_unpack(input),
    ensures
        instruction_view(first) == instruction_view(second),
        first is Ok <==> second is Ok,
        first matches Err(e) ==> second == Err::<TokenInstruction, _>(e),
{
}

} // verus!
