//! Instructions of the transfer fee extension

use vstd::prelude::*;
use crate::error::DecodeError;
use crate::option::COption;
use crate::pubkey::Pubkey;
use crate::token_instruction_2022::TokenInstruction;
use crate::wire::Unpacked;
use crate::wire::spec_pack_pubkey_option;
use crate::wire::spec_pack_u16;
use crate::wire::spec_pack_u64;
use crate::wire::spec_unpack_amount_decimals;
use crate::wire::spec_unpack_pubkey_option;
use crate::wire::spec_unpack_u16;
use crate::wire::spec_unpack_u64;
use crate::wire::spec_unpack_u8;
use crate::wire::unpacked_view;

verus! {

/// Transfer Fee extension instructions
#[derive(Clone, Copy, Debug, PartialEq)]
pub enum TransferFeeInstruction {
    /// Initialize the transfer fee on a new mint.
    ///
    /// Wire tag 0, then two optional keys, a `u16` and a `u64`.
    InitializeTransferFeeConfig {
        /// Pubkey that may update the fees
        transfer_fee_config_authority: COption<Pubkey>,
        /// Withdraw instructions must be signed by this key
        withdraw_withheld_authority: COption<Pubkey>,
        /// Amount of transfer collected as fees, expressed as basis points of the
        /// transfer amount
        transfer_fee_basis_points: u16,
        /// Maximum fee assessed on transfers
        maximum_fee: u64,
    },
    /// Transfer, providing expected mint information and fees
    ///
    /// Wire tag 1, then a `u64`, one byte and a `u64`.
    TransferCheckedWithFee {
        /// The amount of tokens to transfer.
        amount: u64,
        /// Expected number of base 10 digits to the right of the decimal place.
        decimals: u8,
        /// Expected fee assessed on this transfer, calculated off-chain based on
        /// the transfer_fee_basis_points and maximum_fee of the mint.
        fee: u64,
    },
    /// Transfer all withheld tokens in the mint to an account. Signed by the
    /// mint's withdraw withheld tokens authority.
    ///
    /// Wire tag 2, no payload.
    WithdrawWithheldTokensFromMint,
    /// Transfer all withheld tokens to an account. Signed by the mint's
    /// withdraw withheld tokens authority.
    ///
    /// Wire tag 3, then one byte.
    WithdrawWithheldTokensFromAccounts {
        /// Number of token accounts harvested
        num_token_accounts: u8,
    },
    /// Permissionless instruction to transfer all withheld tokens to the mint.
    ///
    /// Wire tag 4, no payload.
    HarvestWithheldTokensToMint,
    /// Set transfer fee. Only supported for mints that include the
    /// `TransferFeeConfig` extension.
    ///
    /// Wire tag 5, then a `u16` and a `u64`.
    SetTransferFee {
        /// Amount of transfer collected as fees, expressed as basis points of the
        /// transfer amount
        transfer_fee_basis_points: u16,
        /// Maximum fee assessed on transfers
        maximum_fee: u64,
    },
}

impl TransferFeeInstruction {
    /// Unpacks a byte buffer into a TransferFeeInstruction
    pub fn unpack(input: &[u8]) -> (res: Result<(Self, &[u8]), DecodeError>)
        ensures
            unpacked_view(res) == Self::spec_unpack(input@),
            input@.len() == 0 ==> res is Err && res->Err_0 == DecodeError::TruncatedInput,
            input@.len() > 0 && input@[0] > 5 ==> res is Err && res->Err_0
                == DecodeError::UnknownTag(input@[0]),
    {
        let (tag, rest) = TokenInstruction::unpack_u8(input)?;
        Ok(
            match tag {
                0 => {
                    let (transfer_fee_config_authority, rest) =
                        TokenInstruction::unpack_pubkey_option(rest)?;
                    let (withdraw_withheld_authority, rest) =
                        TokenInstruction::unpack_pubkey_option(rest)?;
                    let (transfer_fee_basis_points, rest) = TokenInstruction::unpack_u16(rest)?;
                    let (maximum_fee, rest) = TokenInstruction::unpack_u64(rest)?;
                    let instruction = Self::InitializeTransferFeeConfig {
                        transfer_fee_config_authority,
                        withdraw_withheld_authority,
                        transfer_fee_basis_points,
                        maximum_fee,
                    };
                    (instruction, rest)
                },
                1 => {
                    let (amount, decimals, rest) = TokenInstruction::unpack_amount_decimals(rest)?;
                    let (fee, rest) = TokenInstruction::unpack_u64(rest)?;
                    let instruction = Self::TransferCheckedWithFee { amount, decimals, fee };
                    (instruction, rest)
                },
                2 => (Self::WithdrawWithheldTokensFromMint, rest),
                3 => {
                    let (num_token_accounts, rest) = TokenInstruction::unpack_u8(rest)?;
                    let instruction = Self::WithdrawWithheldTokensFromAccounts {
                        num_token_accounts,
                    };
                    (instruction, rest)
                },
                4 => (Self::HarvestWithheldTokensToMint, rest),
                5 => {
                    let (transfer_fee_basis_points, rest) = TokenInstruction::unpack_u16(rest)?;
                    let (maximum_fee, rest) = TokenInstruction::unpack_u64(rest)?;
                    let instruction = Self::SetTransferFee {
                        transfer_fee_basis_points,
                        maximum_fee,
                    };
                    (instruction, rest)
                },
                _ => {
                    return Err(DecodeError::UnknownTag(tag));
                },
            },
        )
    }

    /// The instruction at the front of a buffer, and the bytes after it: one
    /// tag byte, then the fields of the variant that the tag selects.
    pub open spec fn spec_unpack(input: Seq<u8>) -> Unpacked<TransferFeeInstruction> {
        match spec_unpack_u8(input) {
            Ok((tag, rest)) => Self::spec_unpack_payload(tag, rest),
            Err(e) => Err(e),
        }
    }

    /// The fields that follow the tag byte.
    pub open spec fn spec_unpack_payload(tag: u8, input: Seq<u8>) -> Unpacked<
        TransferFeeInstruction,
    > {
        if tag == 0 {
            match spec_unpack_pubkey_option(input) {
                Ok((transfer_fee_config_authority, rest)) => match spec_unpack_pubkey_option(rest) {
                    Ok((withdraw_withheld_authority, rest)) => match Self::spec_unpack_fee(rest) {
                        Ok(((transfer_fee_basis_points, maximum_fee), rest)) => Ok(
                            (
                                TransferFeeInstruction::InitializeTransferFeeConfig {
                                    transfer_fee_config_authority,
                                    withdraw_withheld_authority,
                                    transfer_fee_basis_points,
                                    maximum_fee,
                                },
                                rest,
                            ),
                        ),
                        Err(e) => Err(e),
                    },
                    Err(e) => Err(e),
                },
                Err(e) => Err(e),
            }
        } else if tag == 1 {
            match spec_unpack_amount_decimals(input) {
                Ok(((amount, decimals), rest)) => match spec_unpack_u64(rest) {
                    Ok((fee, rest)) => Ok(
                        (
                            TransferFeeInstruction::TransferCheckedWithFee { amount, decimals, fee },
                            rest,
                        ),
                    ),
                    Err(e) => Err(e),
                },
                Err(e) => Err(e),
            }
        } else if tag == 2 {
            Ok((TransferFeeInstruction::WithdrawWithheldTokensFromMint, input))
        } else if tag == 3 {
            match spec_unpack_u8(input) {
                Ok((num_token_accounts, rest)) => Ok(
                    (
                        TransferFeeInstruction::WithdrawWithheldTokensFromAccounts {
                            num_token_accounts,
                        },
                        rest,
                    ),
                ),
                Err(e) => Err(e),
            }
        } else if tag == 4 {
            Ok((TransferFeeInstruction::HarvestWithheldTokensToMint, input))
        } else if tag == 5 {
            match Self::spec_unpack_fee(input) {
                Ok(((transfer_fee_basis_points, maximum_fee), rest)) => Ok(
                    (
                        TransferFeeInstruction::SetTransferFee {
                            transfer_fee_basis_points,
                            maximum_fee,
                        },
                        rest,
                    ),
                ),
                Err(e) => Err(e),
            }
        } else {
            Err(DecodeError::UnknownTag(tag))
        }
    }

    /// A fee rate in basis points as a `u16`, then a maximum fee as a `u64`.
    pub open spec fn spec_unpack_fee(input: Seq<u8>) -> Unpacked<(u16, u64)> {
        match spec_unpack_u16(input) {
            Ok((transfer_fee_basis_points, rest)) => match spec_unpack_u64(rest) {
                Ok((maximum_fee, rest)) => Ok(((transfer_fee_basis_points, maximum_fee), rest)),
                Err(e) => Err(e),
            },
            Err(e) => Err(e),
        }
    }

    /// Whether the byte at offset `k` of this instruction's encoding is the
    /// discriminant of an optional key.
    pub open spec fn spec_discriminant_at(self, k: int) -> bool {
        match self {
            TransferFeeInstruction::InitializeTransferFeeConfig {
                transfer_fee_config_authority,
                ..
            } => k == 1 || k == 1 + spec_pack_pubkey_option(transfer_fee_config_authority).len(),
            _ => false,
        }
    }

    /// The tag byte of this instruction's variant.
    pub open spec fn spec_tag(self) -> u8 {
        match self {
            TransferFeeInstruction::InitializeTransferFeeConfig { .. } => 0,
            TransferFeeInstruction::TransferCheckedWithFee { .. } => 1,
            TransferFeeInstruction::WithdrawWithheldTokensFromMint => 2,
            TransferFeeInstruction::WithdrawWithheldTokensFromAccounts { .. } => 3,
            TransferFeeInstruction::HarvestWithheldTokensToMint => 4,
            TransferFeeInstruction::SetTransferFee { .. } => 5,
        }
    }

    /// The encoding of this instruction's fields, in order.
    pub open spec fn spec_pack_fields(self) -> Seq<u8> {
        match self {
            TransferFeeInstruction::InitializeTransferFeeConfig {
                transfer_fee_config_authority,
                withdraw_withheld_authority,
                transfer_fee_basis_points,
                maximum_fee,
            } => spec_pack_pubkey_option(transfer_fee_config_authority) + spec_pack_pubkey_option(
                withdraw_withheld_authority,
            ) + spec_pack_u16(transfer_fee_basis_points) + spec_pack_u64(maximum_fee),
            TransferFeeInstruction::TransferCheckedWithFee { amount, decimals, fee } => {
                spec_pack_u64(amount) + seq![decimals] + spec_pack_u64(fee)
            },
            TransferFeeInstruction::WithdrawWithheldTokensFromMint => Seq::empty(),
            TransferFeeInstruction::WithdrawWithheldTokensFromAccounts { num_token_accounts } => {
                seq![num_token_accounts]
            },
            TransferFeeInstruction::HarvestWithheldTokensToMint => Seq::empty(),
            TransferFeeInstruction::SetTransferFee {
                transfer_fee_basis_points,
                maximum_fee,
            } => spec_pack_u16(transfer_fee_basis_points) + spec_pack_u64(maximum_fee),
        }
    }

    /// The encoding of this instruction: its tag, then its fields, and
    /// nothing after them.
    pub open spec fn spec_pack(self) -> Seq<u8> {
        seq![self.spec_tag()] + self.spec_pack_fields()
    }
}

} // verus!
