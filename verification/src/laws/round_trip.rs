//! Reading an encoding gives back what was encoded.

use vstd::prelude::*;
use vstd::utf8::encode_utf8;
use vstd::utf8::encode_utf8_decode_utf8;
use vstd::utf8::encode_utf8_valid_utf8;
use crate::error::DecodeError;
use crate::laws::sequences::lemma_append_assoc;
use crate::laws::sequences::lemma_behind_tag;
use crate::layout::Payload;
use crate::layout::TokenInstructionView;
use crate::layout::spec_pack_extension_types;
use crate::layout::spec_unpack_extension_types;
use crate::option::COption;
use crate::pubkey::Pubkey;
use crate::text::spec_unpack_text;
use crate::token_instruction_2022::AuthorityType;
use crate::token_instruction_2022::ExtensionType;
use crate::transfer_fee_instruction::TransferFeeInstruction;
use crate::wire::U16_BYTES;
use crate::wire::U64_BYTES;
use crate::wire::spec_pack_pubkey_option;
use crate::wire::spec_pack_u16;
use crate::wire::spec_pack_u64;
use crate::wire::spec_unpack_amount_decimals;
use crate::wire::spec_unpack_pubkey;
use crate::wire::spec_unpack_pubkey_option;
use crate::wire::spec_unpack_u16;
use crate::wire::spec_unpack_u64;

verus! {

/// Reading a packed `u16` gives it back, with what followed it.
pub proof fn lemma_unpack_of_pack_u16(value: u16, tail: Seq<u8>)
    ensures
        spec_pack_u16(value).len() == U16_BYTES,
        spec_unpack_u16(spec_pack_u16(value) + tail) == Ok::<_, DecodeError>((value, tail)),
{
    let input = spec_pack_u16(value) + tail;
    assert(input.skip(2) =~= tail);
}

/// A `u64` is the sum of its base-256 digits, each times its power of 256.
proof fn lemma_u64_digits(value: u64)
    ensures
        value / 0x100_0000_0000_0000 < 0x100,
        value == value % 0x100
            + 0x100 * (value / 0x100 % 0x100)
            + 0x1_0000 * (value / 0x1_0000 % 0x100)
            + 0x100_0000 * (value / 0x100_0000 % 0x100)
            + 0x1_0000_0000 * (value / 0x1_0000_0000 % 0x100)
            + 0x100_0000_0000 * (value / 0x100_0000_0000 % 0x100)
            + 0x1_0000_0000_0000 * (value / 0x1_0000_0000_0000 % 0x100)
            + 0x100_0000_0000_0000 * (value / 0x100_0000_0000_0000),
{
    let q1 = value / 0x100;
    let q2 = q1 / 0x100;
    let q3 = q2 / 0x100;
    let q4 = q3 / 0x100;
    let q5 = q4 / 0x100;
    let q6 = q5 / 0x100;
    let q7 = q6 / 0x100;
    assert(q2 == value / 0x1_0000);
    assert(q3 == value / 0x100_0000);
    assert(q4 == value / 0x1_0000_0000);
    assert(q5 == value / 0x100_0000_0000);
    assert(q6 == value / 0x1_0000_0000_0000);
    assert(q7 == value / 0x100_0000_0000_0000);
}

/// Reading a packed `u64` gives it back, with what followed it.
pub proof fn lemma_unpack_of_pack_u64(value: u64, tail: Seq<u8>)
    ensures
        spec_pack_u64(value).len() == U64_BYTES,
        spec_unpack_u64(spec_pack_u64(value) + tail) == Ok::<_, DecodeError>((value, tail)),
{
    let input = spec_pack_u64(value) + tail;
    assert(input.skip(8) =~= tail);
    lemma_u64_digits(value);
}

/// Reading a key's bytes gives the key back, with what followed it.
pub proof fn lemma_unpack_of_pack_pubkey(key: Pubkey, tail: Seq<u8>)
    ensures
        key@.len() == 32,
        spec_unpack_pubkey(key@ + tail) == Ok::<_, DecodeError>((key, tail)),
{
    let input = key@ + tail;
    key.lemma_len();
    assert(input.skip(32) =~= tail);
    assert(input.take(32) =~= key@);
    key.lemma_from_own_bytes();
}

/// Reading a packed optional key gives it back, with what followed it.
pub proof fn lemma_unpack_of_pack_pubkey_option(key: COption<Pubkey>, tail: Seq<u8>)
    ensures
        spec_unpack_pubkey_option(spec_pack_pubkey_option(key) + tail) == Ok::<_, DecodeError>(
            (key, tail),
        ),
{
    let input = spec_pack_pubkey_option(key) + tail;
    match key {
        COption::Absent => {
            assert(input.skip(1) =~= tail);
        },
        COption::Present(k) => {
            assert(input.skip(1) =~= k@ + tail);
            lemma_unpack_of_pack_pubkey(k, tail);
        },
    }
}

/// Reading an encoded fee rate and maximum fee gives them back.
proof fn lemma_unpack_of_pack_fee(transfer_fee_basis_points: u16, maximum_fee: u64, tail: Seq<u8>)
    ensures
        TransferFeeInstruction::spec_unpack_fee(
            spec_pack_u16(transfer_fee_basis_points) + spec_pack_u64(maximum_fee) + tail,
        ) == Ok::<_, DecodeError>(((transfer_fee_basis_points, maximum_fee), tail)),
{
    let fee = spec_pack_u64(maximum_fee);
    lemma_append_assoc(spec_pack_u16(transfer_fee_basis_points), fee, tail);
    lemma_unpack_of_pack_u16(transfer_fee_basis_points, fee + tail);
    lemma_unpack_of_pack_u64(maximum_fee, tail);
}

/// Reading an encoded amount and decimals gives them back.
pub proof fn lemma_unpack_of_pack_amount_decimals(amount: u64, decimals: u8, tail: Seq<u8>)
    ensures
        spec_unpack_amount_decimals(spec_pack_u64(amount) + seq![decimals] + tail) == Ok::<
            _,
            DecodeError,
        >(((amount, decimals), tail)),
{
    lemma_append_assoc(spec_pack_u64(amount), seq![decimals], tail);
    lemma_unpack_of_pack_u64(amount, seq![decimals] + tail);
    lemma_behind_tag(decimals, tail);
}

/// Reading the fields of `InitializeTransferFeeConfig` gives them back.
proof fn lemma_unpack_of_pack_fee_config(
    transfer_fee_config_authority: COption<Pubkey>,
    withdraw_withheld_authority: COption<Pubkey>,
    transfer_fee_basis_points: u16,
    maximum_fee: u64,
    tail: Seq<u8>,
)
    ensures
        TransferFeeInstruction::spec_unpack_payload(
            0,
            spec_pack_pubkey_option(transfer_fee_config_authority) + spec_pack_pubkey_option(
                withdraw_withheld_authority,
            ) + spec_pack_u16(transfer_fee_basis_points) + spec_pack_u64(maximum_fee) + tail,
        ) == Ok::<_, DecodeError>(
            (
                TransferFeeInstruction::InitializeTransferFeeConfig {
                    transfer_fee_config_authority,
                    withdraw_withheld_authority,
                    transfer_fee_basis_points,
                    maximum_fee,
                },
                tail,
            ),
        ),
{
    let first = spec_pack_pubkey_option(transfer_fee_config_authority);
    let second = spec_pack_pubkey_option(withdraw_withheld_authority);
    let rate = spec_pack_u16(transfer_fee_basis_points);
    let fee = spec_pack_u64(maximum_fee);
    lemma_append_assoc(first + second, rate, fee);
    lemma_append_assoc(first + second, rate + fee, tail);
    lemma_append_assoc(first, second, rate + fee + tail);
    lemma_unpack_of_pack_pubkey_option(transfer_fee_config_authority, second + (rate + fee + tail));
    lemma_unpack_of_pack_pubkey_option(withdraw_withheld_authority, rate + fee + tail);
    lemma_unpack_of_pack_fee(transfer_fee_basis_points, maximum_fee, tail);
}

/// Reading the fields of `TransferCheckedWithFee` gives them back.
proof fn lemma_unpack_of_pack_checked_with_fee(amount: u64, decimals: u8, fee: u64, tail: Seq<u8>)
    ensures
        TransferFeeInstruction::spec_unpack_payload(
            1,
            spec_pack_u64(amount) + seq![decimals] + spec_pack_u64(fee) + tail,
        ) == Ok::<_, DecodeError>(
            (TransferFeeInstruction::TransferCheckedWithFee { amount, decimals, fee }, tail),
        ),
{
    let front = spec_pack_u64(amount) + seq![decimals];
    lemma_append_assoc(front, spec_pack_u64(fee), tail);
    lemma_unpack_of_pack_amount_decimals(amount, decimals, spec_pack_u64(fee) + tail);
    lemma_unpack_of_pack_u64(fee, tail);
}

/// Reading the encoding of a transfer fee instruction gives the instruction
/// back, and leaves exactly the bytes that followed the encoding.
pub proof fn lemma_transfer_fee_unpack_of_pack(instruction: TransferFeeInstruction, tail: Seq<u8>)
    ensures
        TransferFeeInstruction::spec_unpack(instruction.spec_pack() + tail) == Ok::<
            _,
            DecodeError,
        >((instruction, tail)),
{
    let tag = instruction.spec_tag();
    let fields = instruction.spec_pack_fields();
    lemma_append_assoc(seq![tag], fields, tail);
    lemma_behind_tag(tag, fields + tail);
    match instruction {
        TransferFeeInstruction::InitializeTransferFeeConfig {
            transfer_fee_config_authority,
            withdraw_withheld_authority,
            transfer_fee_basis_points,
            maximum_fee,
        } => {
            lemma_unpack_of_pack_fee_config(
                transfer_fee_config_authority,
                withdraw_withheld_authority,
                transfer_fee_basis_points,
                maximum_fee,
                tail,
            );
        },
        TransferFeeInstruction::TransferCheckedWithFee { amount, decimals, fee } => {
            lemma_unpack_of_pack_checked_with_fee(amount, decimals, fee, tail);
        },
        TransferFeeInstruction::WithdrawWithheldTokensFromMint => {
            assert(fields + tail =~= tail);
        },
        TransferFeeInstruction::WithdrawWithheldTokensFromAccounts { num_token_accounts } => {
            lemma_behind_tag(num_token_accounts, tail);
        },
        TransferFeeInstruction::HarvestWithheldTokensToMint => {
            assert(fields + tail =~= tail);
        },
        TransferFeeInstruction::SetTransferFee { transfer_fee_basis_points, maximum_fee } => {
            lemma_unpack_of_pack_fee(transfer_fee_basis_points, maximum_fee, tail);
        },
    }
}

/// Reading an encoded list of extensions gives the list back.
pub proof fn lemma_unpack_of_pack_extension_types(extension_types: Seq<ExtensionType>)
    ensures
        spec_pack_extension_types(extension_types).len() == 2 * extension_types.len(),
        spec_unpack_extension_types(spec_pack_extension_types(extension_types)) == Ok::<
            _,
            DecodeError,
        >(extension_types),
    decreases extension_types.len(),
{
    if extension_types.len() == 0 {
        assert(extension_types =~= Seq::empty());
    } else {
        let first = extension_types[0];
        let others = extension_types.skip(1);
        lemma_unpack_of_pack_extension_types(others);
        first.lemma_code_identifies();
        lemma_unpack_of_pack_u16(first.spec_code(), spec_pack_extension_types(others));
        assert(seq![first] + others =~= extension_types);
    }
}

/// Reading encoded text gives the text back.
pub proof fn lemma_unpack_of_pack_text(text: Seq<char>)
    ensures
        spec_unpack_text(encode_utf8(text)) == Ok::<_, DecodeError>(text),
{
    encode_utf8_valid_utf8(text);
    encode_utf8_decode_utf8(text);
}

/// Reading the fields of a mint initialization gives them back.
proof fn lemma_unpack_of_pack_mint(
    tag: u8,
    decimals: u8,
    mint_authority: Pubkey,
    freeze_authority: COption<Pubkey>,
    tail: Seq<u8>,
)
    requires
        tag == 0 || tag == 20,
    ensures
        TokenInstructionView::spec_unpack_payload(
            tag,
            seq![decimals] + mint_authority@ + spec_pack_pubkey_option(freeze_authority) + tail,
        ) == Ok::<_, DecodeError>(
            (Payload::Mint { decimals, mint_authority, freeze_authority }, tail),
        ),
{
    let freeze = spec_pack_pubkey_option(freeze_authority);
    lemma_append_assoc(seq![decimals] + mint_authority@, freeze, tail);
    lemma_append_assoc(seq![decimals], mint_authority@, freeze + tail);
    lemma_behind_tag(decimals, mint_authority@ + (freeze + tail));
    lemma_unpack_of_pack_pubkey(mint_authority, freeze + tail);
    lemma_unpack_of_pack_pubkey_option(freeze_authority, tail);
}

/// Reading the fields of `SetAuthority` gives them back.
proof fn lemma_unpack_of_pack_authority(
    authority_type: AuthorityType,
    new_authority: COption<Pubkey>,
    tail: Seq<u8>,
)
    ensures
        TokenInstructionView::spec_unpack_payload(
            6,
            seq![authority_type.spec_code()] + spec_pack_pubkey_option(new_authority) + tail,
        ) == Ok::<_, DecodeError>((Payload::Authority { authority_type, new_authority }, tail)),
{
    let key = spec_pack_pubkey_option(new_authority);
    lemma_append_assoc(seq![authority_type.spec_code()], key, tail);
    lemma_behind_tag(authority_type.spec_code(), key + tail);
    authority_type.lemma_code_identifies();
    lemma_unpack_of_pack_pubkey_option(new_authority, tail);
}

/// Reading a payload's encoding under a tag that selects its layout gives
/// the payload back. A payload of fixed width leaves exactly the bytes that
/// followed it; one that runs to the end of the buffer is read with nothing
/// behind it.
pub proof fn lemma_unpack_of_pack_payload(instruction: TokenInstructionView, tail: Seq<u8>)
    requires
        instruction.well_formed(),
        instruction.payload.is_open_ended() ==> tail.len() == 0,
    ensures
        TokenInstructionView::spec_unpack_payload(
            instruction.tag,
            instruction.payload.spec_pack() + tail,
        ) == Ok::<_, DecodeError>((instruction.payload, tail)),
{
    let fields = instruction.payload.spec_pack();
    match instruction.payload {
        Payload::Empty => {
            assert(fields + tail =~= tail);
        },
        Payload::Mint { decimals, mint_authority, freeze_authority } => {
            lemma_unpack_of_pack_mint(
                instruction.tag,
                decimals,
                mint_authority,
                freeze_authority,
                tail,
            );
        },
        Payload::Signers { m } => {
            lemma_behind_tag(m, tail);
        },
        Payload::Amount { amount } => {
            lemma_unpack_of_pack_u64(amount, tail);
        },
        Payload::Authority { authority_type, new_authority } => {
            lemma_unpack_of_pack_authority(authority_type, new_authority, tail);
        },
        Payload::AmountDecimals { amount, decimals } => {
            lemma_unpack_of_pack_amount_decimals(amount, decimals, tail);
        },
        Payload::Key { key } => {
            lemma_unpack_of_pack_pubkey(key, tail);
        },
        Payload::Extensions { extension_types } => {
            lemma_unpack_of_pack_extension_types(extension_types);
            assert(fields + tail =~= fields);
            assert(tail =~= Seq::empty());
        },
        Payload::Text { text } => {
            lemma_unpack_of_pack_text(text);
            assert(fields + tail =~= fields);
            assert(tail =~= Seq::empty());
        },
        Payload::OptionalKey { authority } => {
            lemma_unpack_of_pack_pubkey_option(authority, tail);
        },
        Payload::TransferFee { instruction } => {
            lemma_transfer_fee_unpack_of_pack(instruction, tail);
        },
    }
}

/// Reading the encoding of an instruction gives the instruction back,
/// whatever bytes follow a payload of fixed width.
pub proof fn lemma_unpack_of_pack(instruction: TokenInstructionView, tail: Seq<u8>)
    requires
        instruction.well_formed(),
        instruction.payload.is_open_ended() ==> tail.len() == 0,
    ensures
        TokenInstructionView::spec_unpack(instruction.spec_pack() + tail) == Ok::<_, DecodeError>(
            instruction,
        ),
{
    let fields = instruction.payload.spec_pack();
    lemma_append_assoc(seq![instruction.tag], fields, tail);
    lemma_behind_tag(instruction.tag, fields + tail);
    lemma_unpack_of_pack_payload(instruction, tail);
}

} // verus!
