//! The layout of an instruction's data: one tag byte, then the fields of
//! the variant that the tag names.

use vstd::prelude::*;
use vstd::utf8::encode_utf8;
use crate::error::DecodeError;
use crate::option::COption;
use crate::pubkey::Pubkey;
use crate::text::spec_unpack_text;
use crate::token_instruction_2022::AuthorityType;
use crate::token_instruction_2022::ExtensionType;
use crate::token_instruction_2022::TokenInstruction;
use crate::transfer_fee_instruction::TransferFeeInstruction;
use crate::wire::Unpacked;
use crate::wire::spec_pack_pubkey_option;
use crate::wire::spec_pack_u64;
use crate::wire::spec_u16_le;
use crate::wire::spec_unpack_amount_decimals;
use crate::wire::spec_unpack_pubkey;
use crate::wire::spec_unpack_pubkey_option;
use crate::wire::spec_unpack_u64;
use crate::wire::spec_unpack_u8;

verus! {

/// What an instruction carries after its tag byte. Instructions with the
/// same fields on the wire share a layout.
pub enum Payload {
    /// Nothing.
    Empty,
    /// One byte of decimals, the mint authority's key, and an optional freeze
    /// authority.
    Mint { decimals: u8, mint_authority: Pubkey, freeze_authority: COption<Pubkey> },
    /// One byte: the number of signers required.
    Signers { m: u8 },
    /// A `u64`.
    Amount { amount: u64 },
    /// One byte that names an authority, and an optional key.
    Authority { authority_type: AuthorityType, new_authority: COption<Pubkey> },
    /// A `u64` and one byte of decimals.
    AmountDecimals { amount: u64, decimals: u8 },
    /// A key.
    Key { key: Pubkey },
    /// Extension codes of two bytes each, to the end of the buffer.
    Extensions { extension_types: Seq<ExtensionType> },
    /// UTF-8 text, to the end of the buffer.
    Text { text: Seq<char> },
    /// An optional key.
    OptionalKey { authority: COption<Pubkey> },
    /// One instruction of the transfer fee extension.
    TransferFee { instruction: TransferFeeInstruction },
}

/// An instruction as a mathematical value: the tag that names its variant,
/// and its fields.
pub struct TokenInstructionView {
    pub tag: u8,
    pub payload: Payload,
}

impl Payload {
    /// The encoding of the fields, in order.
    pub open spec fn spec_pack(self) -> Seq<u8> {
        match self {
            Payload::Empty => Seq::empty(),
            Payload::Mint { decimals, mint_authority, freeze_authority } => seq![decimals]
                + mint_authority@ + spec_pack_pubkey_option(freeze_authority),
            Payload::Signers { m } => seq![m],
            Payload::Amount { amount } => spec_pack_u64(amount),
            Payload::Authority { authority_type, new_authority } => seq![
                authority_type.spec_code(),
            ] + spec_pack_pubkey_option(new_authority),
            Payload::AmountDecimals { amount, decimals } => spec_pack_u64(amount) + seq![decimals],
            Payload::Key { key } => key@,
            Payload::Extensions { extension_types } => spec_pack_extension_types(extension_types),
            Payload::Text { text } => encode_utf8(text),
            Payload::OptionalKey { authority } => spec_pack_pubkey_option(authority),
            Payload::TransferFee { instruction } => instruction.spec_pack(),
        }
    }

    /// Whether the byte at offset `k` of the payload's encoding is the
    /// discriminant of an optional key.
    pub open spec fn spec_discriminant_at(self, k: int) -> bool {
        match self {
            Payload::Mint { .. } => k == 33,
            Payload::Authority { .. } => k == 1,
            Payload::OptionalKey { .. } => k == 0,
            Payload::TransferFee { instruction } => instruction.spec_discriminant_at(k),
            _ => false,
        }
    }

    /// Whether the payload runs to the end of the buffer, so that nothing
    /// can follow it.
    pub open spec fn is_open_ended(self) -> bool {
        self is Extensions || self is Text
    }
}

impl TokenInstructionView {
    /// The fields that follow the tag byte, and the bytes after them. Tags
    /// from 40 on name no instruction.
    pub open spec fn spec_unpack_payload(tag: u8, input: Seq<u8>) -> Unpacked<Payload> {
        if tag == 0 || tag == 20 {
            match spec_unpack_u8(input) {
                Ok((decimals, rest)) => match spec_unpack_pubkey(rest) {
                    Ok((mint_authority, rest)) => match spec_unpack_pubkey_option(rest) {
                        Ok((freeze_authority, rest)) => Ok(
                            (Payload::Mint { decimals, mint_authority, freeze_authority }, rest),
                        ),
                        Err(e) => Err(e),
                    },
                    Err(e) => Err(e),
                },
                Err(e) => Err(e),
            }
        } else if tag == 2 || tag == 19 {
            match spec_unpack_u8(input) {
                Ok((m, rest)) => Ok((Payload::Signers { m }, rest)),
                Err(e) => Err(e),
            }
        } else if tag == 3 || tag == 4 || tag == 7 || tag == 8 || tag == 23 {
            match spec_unpack_u64(input) {
                Ok((amount, rest)) => Ok((Payload::Amount { amount }, rest)),
                Err(e) => Err(e),
            }
        } else if tag == 6 {
            match spec_unpack_u8(input) {
                Ok((index, rest)) => match AuthorityType::spec_from(index) {
                    Ok(authority_type) => match spec_unpack_pubkey_option(rest) {
                        Ok((new_authority, rest)) => Ok(
                            (Payload::Authority { authority_type, new_authority }, rest),
                        ),
                        Err(e) => Err(e),
                    },
                    Err(e) => Err(e),
                },
                Err(e) => Err(e),
            }
        } else if 12 <= tag <= 15 {
            match spec_unpack_amount_decimals(input) {
                Ok(((amount, decimals), rest)) => Ok(
                    (Payload::AmountDecimals { amount, decimals }, rest),
                ),
                Err(e) => Err(e),
            }
        } else if tag == 16 || tag == 18 || tag == 35 {
            match spec_unpack_pubkey(input) {
                Ok((key, rest)) => Ok((Payload::Key { key }, rest)),
                Err(e) => Err(e),
            }
        } else if tag == 21 || tag == 29 {
            match spec_unpack_extension_types(input) {
                Ok(extension_types) => Ok((Payload::Extensions { extension_types }, Seq::empty())),
                Err(e) => Err(e),
            }
        } else if tag == 24 {
            match spec_unpack_text(input) {
                Ok(text) => Ok((Payload::Text { text }, Seq::empty())),
                Err(e) => Err(e),
            }
        } else if tag == 25 {
            match spec_unpack_pubkey_option(input) {
                Ok((authority, rest)) => Ok((Payload::OptionalKey { authority }, rest)),
                Err(e) => Err(e),
            }
        } else if tag == 26 {
            match TransferFeeInstruction::spec_unpack(input) {
                Ok((instruction, rest)) => Ok((Payload::TransferFee { instruction }, rest)),
                Err(e) => Err(e),
            }
        } else if tag < 40 {
            Ok((Payload::Empty, input))
        } else {
            Err(DecodeError::UnknownTag(tag))
        }
    }

    /// The instruction that a buffer holds: one tag byte, then the fields of
    /// the variant that the tag selects. Bytes after the fields are ignored.
    pub open spec fn spec_unpack(input: Seq<u8>) -> Result<TokenInstructionView, DecodeError> {
        match spec_unpack_u8(input) {
            Ok((tag, rest)) => match Self::spec_unpack_payload(tag, rest) {
                Ok((payload, _)) => Ok(TokenInstructionView { tag, payload }),
                Err(e) => Err(e),
            },
            Err(e) => Err(e),
        }
    }

    /// Whether the fields are those of the variant that the tag names.
    pub open spec fn well_formed(self) -> bool {
        let tag = self.tag;
        match self.payload {
            Payload::Mint { .. } => tag == 0 || tag == 20,
            Payload::Signers { .. } => tag == 2 || tag == 19,
            Payload::Amount { .. } => tag == 3 || tag == 4 || tag == 7 || tag == 8 || tag == 23,
            Payload::Authority { .. } => tag == 6,
            Payload::AmountDecimals { .. } => 12 <= tag <= 15,
            Payload::Key { .. } => tag == 16 || tag == 18 || tag == 35,
            Payload::Extensions { .. } => tag == 21 || tag == 29,
            Payload::Text { .. } => tag == 24,
            Payload::OptionalKey { .. } => tag == 25,
            Payload::TransferFee { .. } => tag == 26,
            Payload::Empty => tag == 1 || tag == 5 || 9 <= tag <= 11 || tag == 17 || tag == 22
                || tag == 27 || tag == 28 || 30 <= tag <= 34 || 36 <= tag <= 39,
        }
    }

    /// Whether the byte at offset `k` of the instruction's encoding is the
    /// discriminant of an optional key.
    pub open spec fn spec_discriminant_at(self, k: int) -> bool {
        k >= 1 && self.payload.spec_discriminant_at(k - 1)
    }

    /// The encoding of the instruction: its tag, then its fields, and
    /// nothing after them.
    pub open spec fn spec_pack(self) -> Seq<u8> {
        seq![self.tag] + self.payload.spec_pack()
    }
}

/// The extensions that a buffer lists: codes of two bytes each, back to
/// back, until the buffer ends. The first chunk that is short or holds no
/// extension's code decides the rejection.
pub open spec fn spec_unpack_extension_types(input: Seq<u8>) -> Result<
    Seq<ExtensionType>,
    DecodeError,
>
    decreases input.len(),
{
    if input.len() == 0 {
        Ok(Seq::empty())
    } else if input.len() < 2 {
        Err(DecodeError::TruncatedInput)
    } else {
        match ExtensionType::spec_from_code(spec_u16_le(input)) {
            Ok(first) => match spec_unpack_extension_types(input.skip(2)) {
                Ok(others) => Ok(seq![first] + others),
                Err(e) => Err(e),
            },
            Err(e) => Err(e),
        }
    }
}

/// The encoding of a list of extensions: their codes, two bytes each, back
/// to back.
pub open spec fn spec_pack_extension_types(extension_types: Seq<ExtensionType>) -> Seq<u8>
    decreases extension_types.len(),
{
    if extension_types.len() == 0 {
        Seq::empty()
    } else {
        extension_types[0].spec_pack() + spec_pack_extension_types(extension_types.skip(1))
    }
}

/// The view of a decoder's result.
pub open spec fn instruction_view(res: Result<TokenInstruction, DecodeError>) -> Result<
    TokenInstructionView,
    DecodeError,
> {
    match res {
        Ok(instruction) => Ok(instruction@),
        Err(e) => Err(e),
    }
}

/// The view of a decoded list: the sequence of its elements.
pub open spec fn extension_types_view(res: Result<Vec<ExtensionType>, DecodeError>) -> Result<
    Seq<ExtensionType>,
    DecodeError,
> {
    match res {
        Ok(extension_types) => Ok(extension_types@),
        Err(e) => Err(e),
    }
}

} // verus!
