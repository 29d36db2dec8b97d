//! An encoding that is cut short is rejected, and how.

use vstd::prelude::*;
use crate::error::DecodeError;
use crate::laws::canonical::lemma_pack_of_unpack;
use crate::laws::round_trip::lemma_unpack_of_pack;
use crate::laws::round_trip::lemma_unpack_of_pack_amount_decimals;
use crate::laws::round_trip::lemma_unpack_of_pack_extension_types;
use crate::laws::round_trip::lemma_unpack_of_pack_pubkey;
use crate::laws::round_trip::lemma_unpack_of_pack_pubkey_option;
use crate::laws::round_trip::lemma_unpack_of_pack_u16;
use crate::laws::round_trip::lemma_unpack_of_pack_u64;
use crate::laws::sequences::lemma_append_assoc;
use crate::laws::sequences::lemma_behind_tag;
use crate::laws::sequences::lemma_take_append;
use crate::layout::Payload;
use crate::layout::TokenInstructionView;
use crate::layout::spec_pack_extension_types;
use crate::layout::spec_unpack_extension_types;
use crate::option::COption;
use crate::pubkey::Pubkey;
use crate::token_instruction_2022::AuthorityType;
use crate::token_instruction_2022::ExtensionType;
use crate::transfer_fee_instruction::TransferFeeInstruction;
use crate::wire::Unpacked;
use crate::wire::spec_pack_pubkey_option;
use crate::wire::spec_pack_u16;
use crate::wire::spec_pack_u64;
use crate::wire::spec_unpack_amount_decimals;
use crate::wire::spec_unpack_pubkey_option;

verus! {

/// How an encoding that is cut short is rejected: for want of a
/// discriminant where one stood at the cut, as truncated input anywhere
/// else.
pub open spec fn spec_cut_error(discriminant_at_cut: bool) -> DecodeError {
    if discriminant_at_cut {
        DecodeError::InvalidDiscriminant
    } else {
        DecodeError::TruncatedInput
    }
}

/// What reading a field gives once its encoding is cut short.
pub open spec fn spec_cut<T>(discriminant_at_cut: bool) -> Unpacked<T> {
    Err(spec_cut_error(discriminant_at_cut))
}

/// An encoded optional key that is cut short is rejected: for want of a
/// discriminant where nothing is left, as truncated where the key is
/// incomplete.
pub proof fn lemma_cut_pubkey_option(key: COption<Pubkey>, k: int)
    requires
        0 <= k < spec_pack_pubkey_option(key).len(),
    ensures
        spec_unpack_pubkey_option(spec_pack_pubkey_option(key).take(k)) == spec_cut::<
            COption<Pubkey>,
        >(k == 0),
{
    if let COption::Present(present) = key {
        present.lemma_len();
    }
}

/// An encoded fee rate and maximum fee that are cut short are rejected as
/// truncated.
proof fn lemma_cut_fee(transfer_fee_basis_points: u16, maximum_fee: u64, k: int)
    requires
        0 <= k < 10,
    ensures
        TransferFeeInstruction::spec_unpack_fee(
            (spec_pack_u16(transfer_fee_basis_points) + spec_pack_u64(maximum_fee)).take(k),
        ) == spec_cut::<(u16, u64)>(false),
{
    let rate = spec_pack_u16(transfer_fee_basis_points);
    let fee = spec_pack_u64(maximum_fee);
    lemma_take_append(rate, fee, k);
    if k >= 2 {
        lemma_unpack_of_pack_u16(transfer_fee_basis_points, fee.take(k - 2));
    }
}

/// An encoded amount with decimals that is cut short is rejected as
/// truncated.
proof fn lemma_cut_amount_decimals(amount: u64, decimals: u8, k: int)
    requires
        0 <= k < 9,
    ensures
        spec_unpack_amount_decimals((spec_pack_u64(amount) + seq![decimals]).take(k)) == spec_cut::<
            (u64, u8),
        >(false),
{
    lemma_take_append(spec_pack_u64(amount), seq![decimals], k);
    if k >= 8 {
        lemma_unpack_of_pack_u64(amount, seq![decimals].take(0));
    }
}

/// The fields of `InitializeTransferFeeConfig`, cut short, are rejected.
proof fn lemma_cut_fee_config(
    transfer_fee_config_authority: COption<Pubkey>,
    withdraw_withheld_authority: COption<Pubkey>,
    transfer_fee_basis_points: u16,
    maximum_fee: u64,
    k: int,
)
    requires
        0 <= k < spec_pack_pubkey_option(transfer_fee_config_authority).len()
            + spec_pack_pubkey_option(withdraw_withheld_authority).len() + 10,
    ensures
        TransferFeeInstruction::spec_unpack_payload(
            0,
            (spec_pack_pubkey_option(transfer_fee_config_authority) + spec_pack_pubkey_option(
                withdraw_withheld_authority,
            ) + spec_pack_u16(transfer_fee_basis_points) + spec_pack_u64(maximum_fee)).take(k),
        ) == spec_cut::<TransferFeeInstruction>(
            k == 0 || k == spec_pack_pubkey_option(transfer_fee_config_authority).len(),
        ),
{
    let first = spec_pack_pubkey_option(transfer_fee_config_authority);
    let second = spec_pack_pubkey_option(withdraw_withheld_authority);
    let rate = spec_pack_u16(transfer_fee_basis_points);
    let fee = spec_pack_u64(maximum_fee);
    lemma_append_assoc(first + second, rate, fee);
    lemma_append_assoc(first, second, rate + fee);
    lemma_take_append(first, second + (rate + fee), k);
    if k < first.len() {
        lemma_cut_pubkey_option(transfer_fee_config_authority, k);
    } else {
        let k = k - first.len();
        lemma_unpack_of_pack_pubkey_option(
            transfer_fee_config_authority,
            (second + (rate + fee)).take(k),
        );
        lemma_take_append(second, rate + fee, k);
        if k < second.len() {
            lemma_cut_pubkey_option(withdraw_withheld_authority, k);
        } else {
            let k = k - second.len();
            lemma_unpack_of_pack_pubkey_option(withdraw_withheld_authority, (rate + fee).take(k));
            lemma_cut_fee(transfer_fee_basis_points, maximum_fee, k);
        }
    }
}

/// The fields of `TransferCheckedWithFee`, cut short, are rejected as
/// truncated.
proof fn lemma_cut_checked_with_fee(amount: u64, decimals: u8, fee: u64, k: int)
    requires
        0 <= k < 17,
    ensures
        TransferFeeInstruction::spec_unpack_payload(
            1,
            (spec_pack_u64(amount) + seq![decimals] + spec_pack_u64(fee)).take(k),
        ) == spec_cut::<TransferFeeInstruction>(false),
{
    let front = spec_pack_u64(amount) + seq![decimals];
    lemma_take_append(front, spec_pack_u64(fee), k);
    if k < 9 {
        lemma_cut_amount_decimals(amount, decimals, k);
    } else {
        lemma_unpack_of_pack_amount_decimals(amount, decimals, spec_pack_u64(fee).take(k - 9));
    }
}

/// The encoding of a transfer fee instruction, cut short anywhere, is
/// rejected: for want of a discriminant where the cut falls right in front
/// of an optional key, as truncated input anywhere else.
pub proof fn lemma_transfer_fee_cut(instruction: TransferFeeInstruction, k: int)
    requires
        0 <= k < instruction.spec_pack().len(),
    ensures
        TransferFeeInstruction::spec_unpack(instruction.spec_pack().take(k)) == spec_cut::<
            TransferFeeInstruction,
        >(instruction.spec_discriminant_at(k)),
{
    let tag = instruction.spec_tag();
    let fields = instruction.spec_pack_fields();
    lemma_take_append(seq![tag], fields, k);
    if k >= 1 {
        lemma_behind_tag(tag, fields.take(k - 1));
        match instruction {
            TransferFeeInstruction::InitializeTransferFeeConfig {
                transfer_fee_config_authority,
                withdraw_withheld_authority,
                transfer_fee_basis_points,
                maximum_fee,
            } => {
                lemma_cut_fee_config(
                    transfer_fee_config_authority,
                    withdraw_withheld_authority,
                    transfer_fee_basis_points,
                    maximum_fee,
                    k - 1,
                );
            },
            TransferFeeInstruction::TransferCheckedWithFee { amount, decimals, fee } => {
                lemma_cut_checked_with_fee(amount, decimals, fee, k - 1);
            },
            TransferFeeInstruction::WithdrawWithheldTokensFromMint => {},
            TransferFeeInstruction::WithdrawWithheldTokensFromAccounts { .. } => {},
            TransferFeeInstruction::HarvestWithheldTokensToMint => {},
            TransferFeeInstruction::SetTransferFee { transfer_fee_basis_points, maximum_fee } => {
                lemma_cut_fee(transfer_fee_basis_points, maximum_fee, k - 1);
            },
        }
    }
}

/// The fields of a mint initialization, cut short, are rejected.
proof fn lemma_cut_mint(
    tag: u8,
    decimals: u8,
    mint_authority: Pubkey,
    freeze_authority: COption<Pubkey>,
    k: int,
)
    requires
        tag == 0 || tag == 20,
        0 <= k < 33 + spec_pack_pubkey_option(freeze_authority).len(),
    ensures
        TokenInstructionView::spec_unpack_payload(
            tag,
            (seq![decimals] + mint_authority@ + spec_pack_pubkey_option(freeze_authority)).take(k),
        ) == spec_cut::<Payload>(k == 33),
{
    let freeze = spec_pack_pubkey_option(freeze_authority);
    mint_authority.lemma_len();
    lemma_append_assoc(seq![decimals], mint_authority@, freeze);
    lemma_take_append(seq![decimals], mint_authority@ + freeze, k);
    if k >= 1 {
        lemma_behind_tag(decimals, (mint_authority@ + freeze).take(k - 1));
        lemma_take_append(mint_authority@, freeze, k - 1);
        if k >= 33 {
            lemma_unpack_of_pack_pubkey(mint_authority, freeze.take(k - 33));
            lemma_cut_pubkey_option(freeze_authority, k - 33);
        }
    }
}

/// The fields of `SetAuthority`, cut short, are rejected.
proof fn lemma_cut_authority(
    authority_type: AuthorityType,
    new_authority: COption<Pubkey>,
    k: int,
)
    requires
        0 <= k < 1 + spec_pack_pubkey_option(new_authority).len(),
    ensures
        TokenInstructionView::spec_unpack_payload(
            6,
            (seq![authority_type.spec_code()] + spec_pack_pubkey_option(new_authority)).take(k),
        ) == spec_cut::<Payload>(k == 1),
{
    let key = spec_pack_pubkey_option(new_authority);
    lemma_take_append(seq![authority_type.spec_code()], key, k);
    if k >= 1 {
        lemma_behind_tag(authority_type.spec_code(), key.take(k - 1));
        authority_type.lemma_code_identifies();
        lemma_cut_pubkey_option(new_authority, k - 1);
    }
}

/// A payload of fixed width, cut short anywhere, is rejected: for want of a
/// discriminant where the cut falls right in front of an optional key, as
/// truncated input anywhere else.
pub proof fn lemma_payload_cut(instruction: TokenInstructionView, k: int)
    requires
        instruction.well_formed(),
        !instruction.payload.is_open_ended(),
        0 <= k < instruction.payload.spec_pack().len(),
    ensures
        TokenInstructionView::spec_unpack_payload(
            instruction.tag,
            instruction.payload.spec_pack().take(k),
        ) == spec_cut::<Payload>(instruction.payload.spec_discriminant_at(k)),
{
    match instruction.payload {
        Payload::Empty => {},
        Payload::Mint { decimals, mint_authority, freeze_authority } => {
            mint_authority.lemma_len();
            lemma_cut_mint(instruction.tag, decimals, mint_authority, freeze_authority, k);
        },
        Payload::Signers { .. } => {},
        Payload::Amount { .. } => {},
        Payload::Authority { authority_type, new_authority } => {
            lemma_cut_authority(authority_type, new_authority, k);
        },
        Payload::AmountDecimals { amount, decimals } => {
            lemma_cut_amount_decimals(amount, decimals, k);
        },
        Payload::Key { key } => {
            key.lemma_len();
        },
        Payload::Extensions { .. } => {},
        Payload::Text { .. } => {},
        Payload::OptionalKey { authority } => {
            lemma_cut_pubkey_option(authority, k);
        },
        Payload::TransferFee { instruction } => {
            lemma_transfer_fee_cut(instruction, k);
        },
    }
}

/// The encoding of an instruction of fixed width, cut short anywhere, is
/// rejected: for want of a discriminant where the cut falls right in front
/// of an optional key, as truncated input anywhere else.
pub proof fn lemma_unpack_cut(instruction: TokenInstructionView, k: int)
    requires
        instruction.well_formed(),
        !instruction.payload.is_open_ended(),
        0 <= k < instruction.spec_pack().len(),
    ensures
        TokenInstructionView::spec_unpack(instruction.spec_pack().take(k)) == Err::<
            TokenInstructionView,
            _,
        >(spec_cut_error(instruction.spec_discriminant_at(k))),
{
    let fields = instruction.payload.spec_pack();
    lemma_take_append(seq![instruction.tag], fields, k);
    if k >= 1 {
        lemma_behind_tag(instruction.tag, fields.take(k - 1));
        lemma_payload_cut(instruction, k - 1);
    }
}

/// A buffer that holds an instruction of fixed width, cut short anywhere
/// inside the bytes of that instruction, is rejected: for want of a
/// discriminant where the cut falls right in front of an optional key, as
/// truncated input anywhere else.
pub proof fn lemma_unpack_cut_buffer(input: Seq<u8>, k: int)
    requires
        TokenInstructionView::spec_unpack(input) is Ok,
        !TokenInstructionView::spec_unpack(input)->Ok_0.payload.is_open_ended(),
        0 <= k < TokenInstructionView::spec_unpack(input)->Ok_0.spec_pack().len(),
    ensures
        TokenInstructionView::spec_unpack(input.take(k)) == Err::<TokenInstructionView, _>(
            spec_cut_error(
                TokenInstructionView::spec_unpack(input)->Ok_0.spec_discriminant_at(k),
            ),
        ),
{
    let instruction = TokenInstructionView::spec_unpack(input)->Ok_0;
    let encoding = instruction.spec_pack();
    lemma_pack_of_unpack(input);
    assert(input.take(k) =~= input.take(encoding.len() as int).take(k));
    lemma_unpack_cut(instruction, k);
}

/// What follows an instruction of fixed width is ignored: a buffer that
/// holds one can be cut anywhere behind the bytes of that instruction and
/// still holds it.
pub proof fn lemma_unpack_ignores_what_follows(input: Seq<u8>, k: int)
    requires
        TokenInstructionView::spec_unpack(input) is Ok,
        !TokenInstructionView::spec_unpack(input)->Ok_0.payload.is_open_ended(),
        TokenInstructionView::spec_unpack(input)->Ok_0.spec_pack().len() <= k <= input.len(),
    ensures
        TokenInstructionView::spec_unpack(input.take(k)) == TokenInstructionView::spec_unpack(
            input,
        ),
{
    let instruction = TokenInstructionView::spec_unpack(input)->Ok_0;
    let encoding = instruction.spec_pack();
    let n = encoding.len() as int;
    lemma_pack_of_unpack(input);
    assert(input.take(k) =~= input.take(n) + input.subrange(n, k));
    lemma_unpack_of_pack(instruction, input.subrange(n, k));
}

/// An instruction of fixed width whose encoding is cut short, anywhere but
/// right in front of an optional key, is rejected as truncated input.
pub proof fn lemma_truncated_is_rejected(instruction: TokenInstructionView, k: int)
    requires
        instruction.well_formed(),
        !instruction.payload.is_open_ended(),
        0 <= k < instruction.spec_pack().len(),
        !instruction.spec_discriminant_at(k),
    ensures
        TokenInstructionView::spec_unpack(instruction.spec_pack().take(k)) == Err::<
            TokenInstructionView,
            _,
        >(DecodeError::TruncatedInput),
{
    lemma_unpack_cut(instruction, k);
}

/// An instruction whose encoding is cut right in front of an optional key
/// is rejected for want of the key's discriminant.
pub proof fn lemma_missing_discriminant_is_rejected(instruction: TokenInstructionView, k: int)
    requires
        instruction.well_formed(),
        !instruction.payload.is_open_ended(),
        0 <= k < instruction.spec_pack().len(),
        instruction.spec_discriminant_at(k),
    ensures
        TokenInstructionView::spec_unpack(instruction.spec_pack().take(k)) == Err::<
            TokenInstructionView,
            _,
        >(DecodeError::InvalidDiscriminant),
{
    lemma_unpack_cut(instruction, k);
}

/// An encoded list of extensions that is cut in the middle of a code is
/// rejected as truncated; cut between two codes it is the list of the codes
/// in front of the cut.
pub proof fn lemma_extension_types_cut(extension_types: Seq<ExtensionType>, k: int)
    requires
        0 <= k <= 2 * extension_types.len(),
    ensures
        k % 2 == 1 ==> spec_unpack_extension_types(
            spec_pack_extension_types(extension_types).take(k),
        ) == Err::<Seq<ExtensionType>, _>(DecodeError::TruncatedInput),
        k % 2 == 0 ==> spec_unpack_extension_types(
            spec_pack_extension_types(extension_types).take(k),
        ) == Ok::<_, DecodeError>(extension_types.take(k / 2)),
    decreases extension_types.len(),
{
    let input = spec_pack_extension_types(extension_types);
    lemma_unpack_of_pack_extension_types(extension_types);
    if k >= 2 {
        let first = extension_types[0];
        let others = extension_types.skip(1);
        let behind = spec_pack_extension_types(others);
        lemma_extension_types_cut(others, k - 2);
        lemma_take_append(first.spec_pack(), behind, k);
        first.lemma_code_identifies();
        lemma_unpack_of_pack_u16(first.spec_code(), behind.take(k - 2));
        if k % 2 == 0 {
            assert(seq![first] + others.take((k - 2) / 2) =~= extension_types.take(k / 2));
        }
    } else if k == 0 {
        assert(extension_types.take(0) =~= Seq::empty());
    }
}

/// An instruction that lists extensions and is cut in the middle of a code
/// is rejected as truncated input; cut between two codes, it lists the
/// extensions in front of the cut.
pub proof fn lemma_extension_list_cut(instruction: TokenInstructionView, k: int)
    requires
        instruction.well_formed(),
        instruction.payload is Extensions,
        1 <= k <= instruction.spec_pack().len(),
    ensures
        k % 2 == 0 ==> TokenInstructionView::spec_unpack(instruction.spec_pack().take(k)) == Err::<
            TokenInstructionView,
            _,
        >(DecodeError::TruncatedInput),
        k % 2 == 1 ==> TokenInstructionView::spec_unpack(instruction.spec_pack().take(k)) == Ok::<
            _,
            DecodeError,
        >(
            TokenInstructionView {
                tag: instruction.tag,
                payload: Payload::Extensions {
                    extension_types: instruction.payload->extension_types.take((k - 1) / 2),
                },
            },
        ),
{
    let extension_types = instruction.payload->extension_types;
    let fields = instruction.payload.spec_pack();
    lemma_unpack_of_pack_extension_types(extension_types);
    lemma_take_append(seq![instruction.tag], fields, k);
    lemma_behind_tag(instruction.tag, fields.take(k - 1));
    lemma_extension_types_cut(extension_types, k - 1);
}

} // verus!
