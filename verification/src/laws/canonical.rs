//! A buffer that holds an instruction starts with that instruction's
//! encoding: reading takes exactly the bytes of the fields.

use vstd::prelude::*;
use vstd::utf8::decode_utf8_encode_utf8;
use vstd::utf8::encode_utf8;
use crate::laws::sequences::lemma_append_assoc;
use crate::laws::sequences::lemma_behind_tag;
use crate::laws::sequences::lemma_take_append;
use crate::layout::TokenInstructionView;
use crate::layout::spec_pack_extension_types;
use crate::layout::spec_unpack_extension_types;
use crate::pubkey::Pubkey;
use crate::text::spec_unpack_text;
use crate::token_instruction_2022::AuthorityType;
use crate::token_instruction_2022::ExtensionType;
use crate::transfer_fee_instruction::TransferFeeInstruction;
use crate::wire::U16_BYTES;
use crate::wire::U64_BYTES;
use crate::wire::spec_pack_pubkey_option;
use crate::wire::spec_pack_u16;
use crate::wire::spec_pack_u64;
use crate::wire::spec_u16_le;
use crate::wire::spec_u64_le;
use crate::wire::spec_unpack_amount_decimals;
use crate::wire::spec_unpack_pubkey;
use crate::wire::spec_unpack_pubkey_option;

verus! {

/// The first two bytes of a buffer are the encoding of the `u16` read from
/// them.
pub proof fn lemma_pack_of_unpack_u16(input: Seq<u8>)
    requires
        input.len() >= U16_BYTES,
    ensures
        spec_pack_u16(spec_u16_le(input)) + input.skip(2) == input,
{
    assert(spec_pack_u16(spec_u16_le(input)) + input.skip(2) =~= input);
}

/// The base-256 digits of a sum of eight bytes, each times its power of
/// 256, are those bytes.
proof fn lemma_digits_of_u64(
    value: int,
    b0: u8,
    b1: u8,
    b2: u8,
    b3: u8,
    b4: u8,
    b5: u8,
    b6: u8,
    b7: u8,
)
    requires
        value == b0 + 0x100 * b1 + 0x1_0000 * b2 + 0x100_0000 * b3 + 0x1_0000_0000 * b4
            + 0x100_0000_0000 * b5 + 0x1_0000_0000_0000 * b6 + 0x100_0000_0000_0000 * b7,
    ensures
        0 <= value <= u64::MAX,
        value % 0x100 == b0,
        value / 0x100 % 0x100 == b1,
        value / 0x1_0000 % 0x100 == b2,
        value / 0x100_0000 % 0x100 == b3,
        value / 0x1_0000_0000 % 0x100 == b4,
        value / 0x100_0000_0000 % 0x100 == b5,
        value / 0x1_0000_0000_0000 % 0x100 == b6,
        value / 0x100_0000_0000_0000 == b7,
{
    let r7: int = b7 as int;
    let r6: int = b6 + 0x100 * r7;
    let r5: int = b5 + 0x100 * r6;
    let r4: int = b4 + 0x100 * r5;
    let r3: int = b3 + 0x100 * r4;
    let r2: int = b2 + 0x100 * r3;
    let r1: int = b1 + 0x100 * r2;
    assert(value == b0 + 0x100 * r1);
    assert(value / 0x100 == r1);
    assert(value / 0x1_0000 == r2);
    assert(value / 0x100_0000 == r3);
    assert(value / 0x1_0000_0000 == r4);
    assert(value / 0x100_0000_0000 == r5);
    assert(value / 0x1_0000_0000_0000 == r6);
    assert(value / 0x100_0000_0000_0000 == r7);
}

/// The first eight bytes of a buffer are the encoding of the `u64` read
/// from them.
pub proof fn lemma_pack_of_unpack_u64(input: Seq<u8>)
    requires
        input.len() >= U64_BYTES,
    ensures
        spec_pack_u64(spec_u64_le(input)) + input.skip(8) == input,
{
    let value = spec_u64_le(input);
    lemma_digits_of_u64(
        value as int,
        input[0],
        input[1],
        input[2],
        input[3],
        input[4],
        input[5],
        input[6],
        input[7],
    );
    assert(spec_pack_u64(value) + input.skip(8) =~= input);
}

/// A buffer from which a key was read is that key's bytes and then the
/// bytes that were left.
pub proof fn lemma_pack_of_unpack_pubkey(input: Seq<u8>)
    requires
        spec_unpack_pubkey(input) is Ok,
    ensures
        spec_unpack_pubkey(input)->Ok_0.0@ + spec_unpack_pubkey(input)->Ok_0.1 == input,
{
    Pubkey::lemma_spec_from_bytes(input.take(32));
    assert(input.take(32) + input.skip(32) =~= input);
}

/// A buffer from which an optional key was read is that key's encoding and
/// then the bytes that were left.
pub proof fn lemma_pack_of_unpack_pubkey_option(input: Seq<u8>)
    requires
        spec_unpack_pubkey_option(input) is Ok,
    ensures
        spec_pack_pubkey_option(spec_unpack_pubkey_option(input)->Ok_0.0)
            + spec_unpack_pubkey_option(input)->Ok_0.1 == input,
{
    let (key, rest) = spec_unpack_pubkey_option(input)->Ok_0;
    if input[0] == 1 {
        lemma_pack_of_unpack_pubkey(input.skip(1));
        lemma_behind_tag(1, input.skip(1));
        assert(seq![1u8] + input.skip(1) =~= input);
        lemma_append_assoc(seq![1u8], key->Present_0@, rest);
    } else {
        assert(seq![0u8] + input.skip(1) =~= input);
    }
}

/// A buffer from which a fee rate and a maximum fee were read is their
/// encoding and then the bytes that were left.
proof fn lemma_pack_of_unpack_fee(input: Seq<u8>)
    requires
        TransferFeeInstruction::spec_unpack_fee(input) is Ok,
    ensures
        ({
            let ((transfer_fee_basis_points, maximum_fee), rest) =
                TransferFeeInstruction::spec_unpack_fee(input)->Ok_0;
            spec_pack_u16(transfer_fee_basis_points) + spec_pack_u64(maximum_fee) + rest == input
        }),
{
    let ((transfer_fee_basis_points, maximum_fee), rest) = TransferFeeInstruction::spec_unpack_fee(
        input,
    )->Ok_0;
    lemma_pack_of_unpack_u16(input);
    lemma_pack_of_unpack_u64(input.skip(2));
    lemma_append_assoc(
        spec_pack_u16(transfer_fee_basis_points),
        spec_pack_u64(maximum_fee),
        rest,
    );
}

/// A buffer from which an amount and decimals were read is their encoding
/// and then the bytes that were left.
proof fn lemma_pack_of_unpack_amount_decimals(input: Seq<u8>)
    requires
        spec_unpack_amount_decimals(input) is Ok,
    ensures
        ({
            let ((amount, decimals), rest) = spec_unpack_amount_decimals(input)->Ok_0;
            spec_pack_u64(amount) + seq![decimals] + rest == input
        }),
{
    let ((amount, decimals), rest) = spec_unpack_amount_decimals(input)->Ok_0;
    lemma_pack_of_unpack_u64(input);
    assert(seq![decimals] + rest =~= input.skip(8));
    lemma_append_assoc(spec_pack_u64(amount), seq![decimals], rest);
}

/// A buffer from which the fields of `InitializeTransferFeeConfig` were
/// read is their encoding and then the bytes that were left.
proof fn lemma_pack_of_unpack_fee_config(input: Seq<u8>)
    requires
        TransferFeeInstruction::spec_unpack_payload(0, input) is Ok,
    ensures
        ({
            let (instruction, rest) = TransferFeeInstruction::spec_unpack_payload(0, input)->Ok_0;
            instruction.spec_tag() == 0 && instruction.spec_pack_fields() + rest == input
        }),
{
    let (instruction, rest) = TransferFeeInstruction::spec_unpack_payload(0, input)->Ok_0;
    let (first_key, after_first) = spec_unpack_pubkey_option(input)->Ok_0;
    let (second_key, after_second) = spec_unpack_pubkey_option(after_first)->Ok_0;
    let ((rate, fee), _) = TransferFeeInstruction::spec_unpack_fee(after_second)->Ok_0;
    let first = spec_pack_pubkey_option(first_key);
    let second = spec_pack_pubkey_option(second_key);
    lemma_pack_of_unpack_pubkey_option(input);
    lemma_pack_of_unpack_pubkey_option(after_first);
    lemma_pack_of_unpack_fee(after_second);
    lemma_append_assoc(first, second, after_second);
    lemma_append_assoc(first + second, spec_pack_u16(rate) + spec_pack_u64(fee), rest);
    lemma_append_assoc(first + second, spec_pack_u16(rate), spec_pack_u64(fee));
}

/// A buffer from which the fields of `TransferCheckedWithFee` were read is
/// their encoding and then the bytes that were left.
proof fn lemma_pack_of_unpack_checked_with_fee(input: Seq<u8>)
    requires
        TransferFeeInstruction::spec_unpack_payload(1, input) is Ok,
    ensures
        ({
            let (instruction, rest) = TransferFeeInstruction::spec_unpack_payload(1, input)->Ok_0;
            instruction.spec_tag() == 1 && instruction.spec_pack_fields() + rest == input
        }),
{
    let (instruction, rest) = TransferFeeInstruction::spec_unpack_payload(1, input)->Ok_0;
    let ((amount, decimals), after_decimals) = spec_unpack_amount_decimals(input)->Ok_0;
    lemma_pack_of_unpack_amount_decimals(input);
    lemma_pack_of_unpack_u64(after_decimals);
    lemma_append_assoc(
        spec_pack_u64(amount) + seq![decimals],
        spec_pack_u64(spec_u64_le(after_decimals)),
        rest,
    );
}

/// A buffer from which a transfer fee instruction was read is the
/// instruction's encoding and then the bytes that were left: reading takes
/// exactly the bytes of the fields, and no two buffers that differ in them
/// give the same instruction.
pub proof fn lemma_transfer_fee_pack_of_unpack(input: Seq<u8>)
    requires
        TransferFeeInstruction::spec_unpack(input) is Ok,
    ensures
        ({
            let (instruction, rest) = TransferFeeInstruction::spec_unpack(input)->Ok_0;
            instruction.spec_pack() + rest == input
        }),
{
    let (instruction, rest) = TransferFeeInstruction::spec_unpack(input)->Ok_0;
    let tag = input[0];
    let behind = input.skip(1);
    assert(seq![tag] + behind =~= input);
    if tag == 0 {
        lemma_pack_of_unpack_fee_config(behind);
    } else if tag == 1 {
        lemma_pack_of_unpack_checked_with_fee(behind);
    } else if tag == 3 {
        assert(seq![behind[0]] + behind.skip(1) =~= behind);
    } else if tag == 5 {
        lemma_pack_of_unpack_fee(behind);
    } else {
        assert(Seq::<u8>::empty() + behind =~= behind);
    }
    lemma_append_assoc(seq![tag], instruction.spec_pack_fields(), rest);
}

/// A buffer from which a list of extensions was read is the list's
/// encoding.
pub proof fn lemma_pack_of_unpack_extension_types(input: Seq<u8>)
    requires
        spec_unpack_extension_types(input) is Ok,
    ensures
        spec_pack_extension_types(spec_unpack_extension_types(input)->Ok_0) == input,
        2 * spec_unpack_extension_types(input)->Ok_0.len() == input.len(),
    decreases input.len(),
{
    let extension_types = spec_unpack_extension_types(input)->Ok_0;
    if input.len() == 0 {
        assert(spec_pack_extension_types(extension_types) =~= input);
    } else {
        let code = spec_u16_le(input);
        let first = ExtensionType::spec_from_code(code)->Ok_0;
        let others = spec_unpack_extension_types(input.skip(2))->Ok_0;
        lemma_pack_of_unpack_extension_types(input.skip(2));
        ExtensionType::lemma_from_code_has_code(code);
        lemma_pack_of_unpack_u16(input);
        assert(extension_types.skip(1) =~= others);
    }
}

/// A buffer that was read as text is the text's encoding.
pub proof fn lemma_pack_of_unpack_text(input: Seq<u8>)
    requires
        spec_unpack_text(input) is Ok,
    ensures
        encode_utf8(spec_unpack_text(input)->Ok_0) == input,
{
    decode_utf8_encode_utf8(input);
}

/// A buffer from which the fields of a mint initialization were read is
/// their encoding and then the bytes that were left.
proof fn lemma_pack_of_unpack_mint(tag: u8, input: Seq<u8>)
    requires
        tag == 0 || tag == 20,
        TokenInstructionView::spec_unpack_payload(tag, input) is Ok,
    ensures
        ({
            let (payload, rest) = TokenInstructionView::spec_unpack_payload(tag, input)->Ok_0;
            payload is Mint && payload.spec_pack() + rest == input
        }),
{
    let (payload, rest) = TokenInstructionView::spec_unpack_payload(tag, input)->Ok_0;
    let decimals = input[0];
    let (mint_authority, after_key) = spec_unpack_pubkey(input.skip(1))->Ok_0;
    let (freeze_authority, _) = spec_unpack_pubkey_option(after_key)->Ok_0;
    let freeze = spec_pack_pubkey_option(freeze_authority);
    assert(seq![decimals] + input.skip(1) =~= input);
    lemma_pack_of_unpack_pubkey(input.skip(1));
    lemma_pack_of_unpack_pubkey_option(after_key);
    lemma_append_assoc(mint_authority@, freeze, rest);
    lemma_append_assoc(seq![decimals], mint_authority@, freeze + rest);
    lemma_append_assoc(seq![decimals] + mint_authority@, freeze, rest);
}

/// A buffer from which the fields of `SetAuthority` were read is their
/// encoding and then the bytes that were left.
proof fn lemma_pack_of_unpack_authority(input: Seq<u8>)
    requires
        TokenInstructionView::spec_unpack_payload(6, input) is Ok,
    ensures
        ({
            let (payload, rest) = TokenInstructionView::spec_unpack_payload(6, input)->Ok_0;
            payload is Authority && payload.spec_pack() + rest == input
        }),
{
    let (payload, rest) = TokenInstructionView::spec_unpack_payload(6, input)->Ok_0;
    let index = input[0];
    let (new_authority, _) = spec_unpack_pubkey_option(input.skip(1))->Ok_0;
    assert(seq![index] + input.skip(1) =~= input);
    AuthorityType::lemma_from_has_code(index);
    lemma_pack_of_unpack_pubkey_option(input.skip(1));
    lemma_append_assoc(seq![index], spec_pack_pubkey_option(new_authority), rest);
}

/// A buffer from which a payload was read is the payload's encoding and
/// then the bytes that were left; the payload has the layout that the tag
/// selects, and one that runs to the end of the buffer leaves nothing.
pub proof fn lemma_pack_of_unpack_payload(tag: u8, input: Seq<u8>)
    requires
        TokenInstructionView::spec_unpack_payload(tag, input) is Ok,
    ensures
        ({
            let (payload, rest) = TokenInstructionView::spec_unpack_payload(tag, input)->Ok_0;
            &&& (TokenInstructionView { tag, payload }).well_formed()
            &&& payload.spec_pack() + rest == input
            &&& payload.is_open_ended() ==> rest.len() == 0
        }),
{
    let (payload, rest) = TokenInstructionView::spec_unpack_payload(tag, input)->Ok_0;
    if tag == 0 || tag == 20 {
        lemma_pack_of_unpack_mint(tag, input);
    } else if tag == 2 || tag == 19 {
        assert(seq![input[0]] + input.skip(1) =~= input);
    } else if tag == 3 || tag == 4 || tag == 7 || tag == 8 || tag == 23 {
        lemma_pack_of_unpack_u64(input);
    } else if tag == 6 {
        lemma_pack_of_unpack_authority(input);
    } else if 12 <= tag <= 15 {
        lemma_pack_of_unpack_amount_decimals(input);
    } else if tag == 16 || tag == 18 || tag == 35 {
        lemma_pack_of_unpack_pubkey(input);
    } else if tag == 21 || tag == 29 {
        lemma_pack_of_unpack_extension_types(input);
        assert(input + rest =~= input);
    } else if tag == 24 {
        lemma_pack_of_unpack_text(input);
        assert(input + rest =~= input);
    } else if tag == 25 {
        lemma_pack_of_unpack_pubkey_option(input);
    } else if tag == 26 {
        lemma_transfer_fee_pack_of_unpack(input);
    } else {
        assert(Seq::<u8>::empty() + input =~= input);
    }
}

/// A buffer that holds an instruction starts with the instruction's
/// encoding: reading takes exactly the bytes of the tag and the fields, and
/// a payload that runs to the end of the buffer takes all of it.
pub proof fn lemma_pack_of_unpack(input: Seq<u8>)
    requires
        TokenInstructionView::spec_unpack(input) is Ok,
    ensures
        ({
            let instruction = TokenInstructionView::spec_unpack(input)->Ok_0;
            &&& instruction.well_formed()
            &&& instruction.spec_pack().len() <= input.len()
            &&& input.take(instruction.spec_pack().len() as int) == instruction.spec_pack()
            &&& instruction.payload.is_open_ended() ==> instruction.spec_pack() == input
        }),
{
    let instruction = TokenInstructionView::spec_unpack(input)->Ok_0;
    let tag = input[0];
    let (payload, rest) = TokenInstructionView::spec_unpack_payload(tag, input.skip(1))->Ok_0;
    lemma_pack_of_unpack_payload(tag, input.skip(1));
    assert(seq![tag] + input.skip(1) =~= input);
    lemma_append_assoc(seq![tag], payload.spec_pack(), rest);
    lemma_take_append(instruction.spec_pack(), rest, instruction.spec_pack().len() as int);
    assert(instruction.spec_pack().take(instruction.spec_pack().len() as int)
        =~= instruction.spec_pack());
    if payload.is_open_ended() {
        assert(instruction.spec_pack() + rest =~= instruction.spec_pack());
    }
}

} // verus!
