//! The list of extensions, chunk by chunk.

use vstd::prelude::*;
use crate::error::DecodeError;
use crate::layout::spec_unpack_extension_types;
use crate::token_instruction_2022::ExtensionType;
use crate::token_instruction_2022::MAX_EXTENSION_CODE;
use crate::wire::spec_u16_le;

verus! {

/// The number in the `i`-th chunk of two bytes.
pub open spec fn spec_chunk_code(input: Seq<u8>, i: int) -> u16
    recommends
        0 <= i,
        2 * i + 2 <= input.len(),
{
    spec_u16_le(input.skip(2 * i))
}

/// Whether each of the first `n` chunks holds an extension's code.
pub open spec fn spec_chunks_valid(input: Seq<u8>, n: int) -> bool {
    forall|i: int| 0 <= i < n ==> #[trigger] spec_chunk_code(input, i) <= MAX_EXTENSION_CODE
}

/// The chunks behind the first are the chunks of what is behind the first.
proof fn lemma_chunks_behind_first(input: Seq<u8>)
    requires
        input.len() >= 2,
    ensures
        spec_chunk_code(input, 0) == spec_u16_le(input),
        forall|i: int|
            0 <= i && 2 * i + 2 <= input.len() ==> #[trigger] spec_chunk_code(input.skip(2), i)
                == spec_chunk_code(input, i + 1),
{
    assert(input.skip(0) =~= input);
    assert forall|i: int| 0 <= i && 2 * i + 2 <= input.len() implies #[trigger] spec_chunk_code(
        input.skip(2),
        i,
    ) == spec_chunk_code(input, i + 1) by {
        assert(input.skip(2).skip(2 * i) =~= input.skip(2 * (i + 1)));
    }
}

/// A buffer lists extensions exactly when it is made of whole chunks that
/// each hold an extension's code. The list then has one extension for each
/// chunk, in the order of the chunks.
pub proof fn lemma_extension_types_by_chunk(input: Seq<u8>)
    ensures
        spec_unpack_extension_types(input) is Ok <==> input.len() % 2 == 0 && spec_chunks_valid(
            input,
            (input.len() / 2) as int,
        ),
        spec_unpack_extension_types(input) matches Ok(extension_types) ==> {
            &&& extension_types.len() == input.len() / 2
            &&& forall|i: int|
                0 <= i < extension_types.len() ==> (#[trigger] extension_types[i]).spec_code()
                    == spec_chunk_code(input, i)
        },
    decreases input.len(),
{
    if input.len() >= 2 {
        let rest = input.skip(2);
        let code = spec_u16_le(input);
        lemma_extension_types_by_chunk(rest);
        lemma_chunks_behind_first(input);
        if code <= MAX_EXTENSION_CODE {
            ExtensionType::lemma_from_code_has_code(code);
            let first = ExtensionType::spec_from_code(code)->Ok_0;
            if spec_chunks_valid(rest, (rest.len() / 2) as int) {
                assert forall|i: int| 0 <= i < input.len() / 2 implies #[trigger] spec_chunk_code(
                    input,
                    i,
                ) <= MAX_EXTENSION_CODE by {
                    if i > 0 {
                        assert(spec_chunk_code(rest, i - 1) <= MAX_EXTENSION_CODE);
                    }
                }
            }
            if spec_chunks_valid(input, (input.len() / 2) as int) {
                assert forall|i: int| 0 <= i < rest.len() / 2 implies #[trigger] spec_chunk_code(
                    rest,
                    i,
                ) <= MAX_EXTENSION_CODE by {
                    assert(spec_chunk_code(input, i + 1) <= MAX_EXTENSION_CODE);
                }
            }
            if let Ok(others) = spec_unpack_extension_types(rest) {
                let extension_types = seq![first] + others;
                assert forall|i: int| 0 <= i < extension_types.len() implies (
                #[trigger] extension_types[i]).spec_code() == spec_chunk_code(input, i) by {
                    if i > 0 {
                        assert(extension_types[i] == others[i - 1]);
                    }
                }
            }
        } else {
            assert(spec_chunk_code(input, 0) > MAX_EXTENSION_CODE);
        }
    }
}

/// Where a buffer lists no extensions, the first chunk that holds no
/// extension's code is reported; where every whole chunk holds one, the
/// buffer ends in half a chunk and is reported as truncated.
pub proof fn lemma_extension_types_rejection(input: Seq<u8>, first_bad: int)
    requires
        0 <= first_bad <= input.len() / 2,
        spec_chunks_valid(input, first_bad),
        first_bad < input.len() / 2 ==> spec_chunk_code(input, first_bad) > MAX_EXTENSION_CODE,
        first_bad == input.len() / 2 ==> input.len() % 2 == 1,
    ensures
        first_bad < input.len() / 2 ==> spec_unpack_extension_types(input) == Err::<
            Seq<ExtensionType>,
            _,
        >(DecodeError::InvalidEnumCode(spec_chunk_code(input, first_bad))),
        first_bad == input.len() / 2 ==> spec_unpack_extension_types(input) == Err::<
            Seq<ExtensionType>,
            _,
        >(DecodeError::TruncatedInput),
    decreases input.len(),
{
    if input.len() >= 2 {
        let rest = input.skip(2);
        lemma_chunks_behind_first(input);
        if first_bad > 0 {
            assert(spec_chunk_code(input, 0) <= MAX_EXTENSION_CODE);
            assert forall|i: int| 0 <= i < first_bad - 1 implies #[trigger] spec_chunk_code(
                rest,
                i,
            ) <= MAX_EXTENSION_CODE by {
                assert(spec_chunk_code(input, i + 1) <= MAX_EXTENSION_CODE);
            }
            lemma_extension_types_rejection(rest, first_bad - 1);
        }
    }
}

} // verus!
