//! Instruction types

use vstd::prelude::*;
use vstd::std_specs::convert::FromSpecImpl;
use vstd::std_specs::convert::TryFromSpecImpl;
use crate::error::DecodeError;
use crate::layout::Payload;
use crate::layout::TokenInstructionView;
use crate::layout::extension_types_view;
use crate::layout::instruction_view;
use crate::layout::spec_unpack_extension_types;
use crate::option::COption;
use crate::pubkey::PUBKEY_BYTES;
use crate::pubkey::Pubkey;
use crate::text::unpack_text;
use crate::transfer_fee_instruction::TransferFeeInstruction;
use crate::wire::U16_BYTES;
use crate::wire::U64_BYTES;
use crate::wire::spec_pack_u16;
use crate::wire::spec_u16_le;
use crate::wire::spec_unpack_amount_decimals;
use crate::wire::spec_unpack_pubkey;
use crate::wire::spec_unpack_pubkey_option;
use crate::wire::spec_unpack_u16;
use crate::wire::spec_unpack_u64;
use crate::wire::spec_unpack_u8;
use crate::wire::u16_from_le;
use crate::wire::u64_from_le;
use crate::wire::unpacked_view;

verus! {

/// Minimum number of multisignature signers
pub const MIN_SIGNERS: usize = 1;

/// Maximum number of multisignature signers
pub const MAX_SIGNERS: usize = 11;

/// Instructions supported by the token program.
#[derive(Clone, Debug, PartialEq)]
pub enum TokenInstruction<'a> {
    /// Initializes a new mint and optionally deposits all the newly minted
    /// tokens in an account.
    ///
    /// Wire tag 0, then one byte, a key and an optional key.
    InitializeMint {
        /// Number of base 10 digits to the right of the decimal place.
        decimals: u8,
        /// The authority/multisignature to mint tokens.
        mint_authority: Pubkey,
        /// The freeze authority/multisignature of the mint.
        freeze_authority: COption<Pubkey>,
    },
    /// Initializes a new account to hold tokens.
    ///
    /// Wire tag 1, no payload.
    InitializeAccount,
    /// Initializes a multisignature account with N provided signers.
    ///
    /// Wire tag 2, then one byte.
    InitializeMultisig {
        /// The number of signers (M) required to validate this
        /// multisignature account.
        m: u8,
    },
    /// Transfers tokens from one account to another, either directly or via
    /// a delegate. Superseded by `TransferChecked` and
    /// `TransferCheckedWithFee`.
    ///
    /// Wire tag 3, then a `u64`.
    Transfer {
        /// The amount of tokens.
        amount: u64,
    },
    /// Approves a delegate, who is authorized to transfer tokens on behalf
    /// of the source account's owner.
    ///
    /// Wire tag 4, then a `u64`.
    Approve {
        /// The amount of tokens.
        amount: u64,
    },
    /// Revokes the delegate's authority.
    ///
    /// Wire tag 5, no payload.
    Revoke,
    /// Sets a new authority of a mint or account.
    ///
    /// Wire tag 6, then one authority byte and an optional key.
    SetAuthority {
        /// The type of authority to update.
        authority_type: AuthorityType,
        /// The new authority
        new_authority: COption<Pubkey>,
    },
    /// Mints new tokens to an account.
    ///
    /// Wire tag 7, then a `u64`.
    MintTo {
        /// The amount of tokens.
        amount: u64,
    },
    /// Burns tokens by removing them from an account.
    ///
    /// Wire tag 8, then a `u64`.
    Burn {
        /// The amount of tokens.
        amount: u64,
    },
    /// Closes an account by transferring all its SOL to the destination
    /// account.
    ///
    /// Wire tag 9, no payload.
    CloseAccount,
    /// Freezes an initialized account using the mint's freeze authority, if
    /// set.
    ///
    /// Wire tag 10, no payload.
    FreezeAccount,
    /// Thaws a frozen account using the mint's freeze authority, if set.
    ///
    /// Wire tag 11, no payload.
    ThawAccount,
    /// Transfers tokens from one account to another, with the token mint
    /// and decimals asserted by the caller.
    ///
    /// Wire tag 12, then a `u64` and one byte.
    TransferChecked {
        /// The amount of tokens.
        amount: u64,
        /// Expected number of base 10 digits to the right of the decimal
        /// place.
        decimals: u8,
    },
    /// Approves a delegate, with the token mint and decimals asserted by
    /// the caller.
    ///
    /// Wire tag 13, then a `u64` and one byte.
    ApproveChecked {
        /// The amount of tokens.
        amount: u64,
        /// Expected number of base 10 digits to the right of the decimal
        /// place.
        decimals: u8,
    },
    /// Mints new tokens to an account, with the decimals asserted by the
    /// caller.
    ///
    /// Wire tag 14, then a `u64` and one byte.
    MintToChecked {
        /// The amount of tokens.
        amount: u64,
        /// Expected number of base 10 digits to the right of the decimal
        /// place.
        decimals: u8,
    },
    /// Burns tokens by removing them from an account, with the decimals
    /// asserted by the caller.
    ///
    /// Wire tag 15, then a `u64` and one byte.
    BurnChecked {
        /// The amount of tokens.
        amount: u64,
        /// Expected number of base 10 digits to the right of the decimal
        /// place.
        decimals: u8,
    },
    /// Like `InitializeAccount`, but the owner pubkey is passed via
    /// instruction data rather than the accounts list.
    ///
    /// Wire tag 16, then a key.
    InitializeAccount2 {
        /// The new account's owner/multisignature.
        owner: Pubkey,
    },
    /// Updates a native token account's amount to reflect the amount of SOL
    /// transferred to it.
    ///
    /// Wire tag 17, no payload.
    SyncNative,
    /// Like `InitializeAccount2`, but does not require the Rent sysvar to
    /// be provided.
    ///
    /// Wire tag 18, then a key.
    InitializeAccount3 {
        /// The new account's owner/multisignature.
        owner: Pubkey,
    },
    /// Like `InitializeMultisig`, but does not require the Rent sysvar to
    /// be provided.
    ///
    /// Wire tag 19, then one byte.
    InitializeMultisig2 {
        /// The number of signers (M) required to validate this
        /// multisignature account.
        m: u8,
    },
    /// Like `InitializeMint`, but does not require the Rent sysvar to be
    /// provided.
    ///
    /// Wire tag 20, then one byte, a key and an optional key.
    InitializeMint2 {
        /// Number of base 10 digits to the right of the decimal place.
        decimals: u8,
        /// The authority/multisignature to mint tokens.
        mint_authority: Pubkey,
        /// The freeze authority/multisignature of the mint.
        freeze_authority: COption<Pubkey>,
    },
    /// Gets the required size of an account for the given mint as a little-
    /// endian `u64`.
    ///
    /// Wire tag 21, then two-byte extension codes to the end of the buffer.
    GetAccountDataSize {
        /// The extensions that the account is to hold.
        extension_types: Vec<ExtensionType>,
    },
    /// Initializes the immutable owner extension for the given token
    /// account.
    ///
    /// Wire tag 22, no payload.
    InitializeImmutableOwner,
    /// Converts an amount of tokens to a UI amount string, using the given
    /// mint.
    ///
    /// Wire tag 23, then a `u64`.
    AmountToUiAmount {
        /// The amount of tokens.
        amount: u64,
    },
    /// Converts a UI amount of tokens to a little-endian `u64` raw amount,
    /// using the given mint.
    ///
    /// Wire tag 24, then UTF-8 text to the end of the buffer.
    UiAmountToAmount {
        /// The ui_amount of tokens to reformat.
        ui_amount: &'a str,
    },
    /// Initializes the close account authority on a new mint.
    ///
    /// Wire tag 25, then an optional key.
    InitializeMintCloseAuthority {
        /// Authority that must sign the `CloseAccount` instruction on a
        /// mint
        close_authority: COption<Pubkey>,
    },
    /// The common instruction prefix for transfer fee extension
    /// instructions.
    ///
    /// Wire tag 26, then one instruction of the extension.
    TransferFeeExtension(TransferFeeInstruction),
    /// The common instruction prefix for confidential transfer extension
    /// instructions.
    ///
    /// Wire tag 27, no payload.
    ConfidentialTransferExtension,
    /// The common instruction prefix for default account state extension
    /// instructions.
    ///
    /// Wire tag 28, no payload.
    DefaultAccountStateExtension,
    /// Checks whether enough space has been allocated in an account for the
    /// given extensions, and reallocates if not.
    ///
    /// Wire tag 29, then two-byte extension codes to the end of the buffer.
    Reallocate {
        /// The extensions that the account is to hold.
        extension_types: Vec<ExtensionType>,
    },
    /// The common instruction prefix for memo transfer account extension
    /// instructions.
    ///
    /// Wire tag 30, no payload.
    MemoTransferExtension,
    /// Creates the native mint.
    ///
    /// Wire tag 31, no payload.
    CreateNativeMint,
    /// Initializes the non transferable extension for the given mint
    /// account.
    ///
    /// Wire tag 32, no payload.
    InitializeNonTransferableMint,
    /// The common instruction prefix for interest bearing extension
    /// instructions.
    ///
    /// Wire tag 33, no payload.
    InterestBearingMintExtension,
    /// The common instruction prefix for CPI guard account extension
    /// instructions.
    ///
    /// Wire tag 34, no payload.
    CpiGuardExtension,
    /// Initializes the permanent delegate on a new mint.
    ///
    /// Wire tag 35, then a key.
    InitializePermanentDelegate {
        /// Authority that may sign for `Transfer`s and `Burn`s on any
        /// account
        delegate: Pubkey,
    },
    /// The common instruction prefix for transfer hook extension
    /// instructions.
    ///
    /// Wire tag 36, no payload.
    TransferHookExtension,
    /// The common instruction prefix for the confidential transfer fee
    /// extension instructions.
    ///
    /// Wire tag 37, no payload.
    ConfidentialTransferFeeExtension,
    /// Rescues SOL that was sent to a mint, token account or multisig.
    ///
    /// Wire tag 38, no payload.
    WithdrawExcessLamports,
    /// The common instruction prefix for metadata pointer extension
    /// instructions.
    ///
    /// Wire tag 39, no payload.
    MetadataPointerExtension,
}

impl<'a> TokenInstruction<'a> {
    /// The tag byte that names this instruction's variant on the wire.
    pub open spec fn spec_tag(&self) -> u8 {
        match *self {
            TokenInstruction::InitializeMint { .. } => 0,
            TokenInstruction::InitializeAccount => 1,
            TokenInstruction::InitializeMultisig { .. } => 2,
            TokenInstruction::Transfer { .. } => 3,
            TokenInstruction::Approve { .. } => 4,
            TokenInstruction::Revoke => 5,
            TokenInstruction::SetAuthority { .. } => 6,
            TokenInstruction::MintTo { .. } => 7,
            TokenInstruction::Burn { .. } => 8,
            TokenInstruction::CloseAccount => 9,
            TokenInstruction::FreezeAccount => 10,
            TokenInstruction::ThawAccount => 11,
            TokenInstruction::TransferChecked { .. } => 12,
            TokenInstruction::ApproveChecked { .. } => 13,
            TokenInstruction::MintToChecked { .. } => 14,
            TokenInstruction::BurnChecked { .. } => 15,
            TokenInstruction::InitializeAccount2 { .. } => 16,
            TokenInstruction::SyncNative => 17,
            TokenInstruction::InitializeAccount3 { .. } => 18,
            TokenInstruction::InitializeMultisig2 { .. } => 19,
            TokenInstruction::InitializeMint2 { .. } => 20,
            TokenInstruction::GetAccountDataSize { .. } => 21,
            TokenInstruction::InitializeImmutableOwner => 22,
            TokenInstruction::AmountToUiAmount { .. } => 23,
            TokenInstruction::UiAmountToAmount { .. } => 24,
            TokenInstruction::InitializeMintCloseAuthority { .. } => 25,
            TokenInstruction::TransferFeeExtension(_) => 26,
            TokenInstruction::ConfidentialTransferExtension => 27,
            TokenInstruction::DefaultAccountStateExtension => 28,
            TokenInstruction::Reallocate { .. } => 29,
            TokenInstruction::MemoTransferExtension => 30,
            TokenInstruction::CreateNativeMint => 31,
            TokenInstruction::InitializeNonTransferableMint => 32,
            TokenInstruction::InterestBearingMintExtension => 33,
            TokenInstruction::CpiGuardExtension => 34,
            TokenInstruction::InitializePermanentDelegate { .. } => 35,
            TokenInstruction::TransferHookExtension => 36,
            TokenInstruction::ConfidentialTransferFeeExtension => 37,
            TokenInstruction::WithdrawExcessLamports => 38,
            TokenInstruction::MetadataPointerExtension => 39,
        }
    }

    /// The fields of this instruction. Variants with the same fields on the
    /// wire have the same kind of payload.
    pub open spec fn spec_payload(&self) -> Payload {
        match *self {
            TokenInstruction::InitializeMint { decimals, mint_authority, freeze_authority }
            | TokenInstruction::InitializeMint2 { decimals, mint_authority, freeze_authority } => {
                Payload::Mint { decimals, mint_authority, freeze_authority }
            },
            TokenInstruction::InitializeMultisig { m }
            | TokenInstruction::InitializeMultisig2 { m } => Payload::Signers { m },
            TokenInstruction::Transfer { amount }
            | TokenInstruction::Approve { amount }
            | TokenInstruction::MintTo { amount }
            | TokenInstruction::Burn { amount }
            | TokenInstruction::AmountToUiAmount { amount } => Payload::Amount { amount },
            TokenInstruction::SetAuthority { authority_type, new_authority } => Payload::Authority {
                authority_type,
                new_authority,
            },
            TokenInstruction::TransferChecked { amount, decimals }
            | TokenInstruction::ApproveChecked { amount, decimals }
            | TokenInstruction::MintToChecked { amount, decimals }
            | TokenInstruction::BurnChecked { amount, decimals } => Payload::AmountDecimals {
                amount,
                decimals,
            },
            TokenInstruction::InitializeAccount2 { owner }
            | TokenInstruction::InitializeAccount3 { owner } => Payload::Key { key: owner },
            TokenInstruction::InitializePermanentDelegate { delegate } => Payload::Key {
                key: delegate,
            },
            TokenInstruction::GetAccountDataSize { extension_types }
            | TokenInstruction::Reallocate { extension_types } => Payload::Extensions {
                extension_types: extension_types@,
            },
            TokenInstruction::UiAmountToAmount { ui_amount } => Payload::Text { text: ui_amount@ },
            TokenInstruction::InitializeMintCloseAuthority { close_authority } => {
                Payload::OptionalKey { authority: close_authority }
            },
            TokenInstruction::TransferFeeExtension(instruction) => Payload::TransferFee {
                instruction,
            },
            _ => Payload::Empty,
        }
    }
}

impl<'a> View for TokenInstruction<'a> {
    type V = TokenInstructionView;

    /// The instruction as a tag and fields, with a list as the sequence of
    /// its elements and a text as the sequence of its characters.
    open spec fn view(&self) -> TokenInstructionView {
        TokenInstructionView { tag: self.spec_tag(), payload: self.spec_payload() }
    }
}

impl<'a> TokenInstruction<'a> {
    /// Unpacks a byte buffer into a
    /// [TokenInstruction](enum.TokenInstruction.html).
    pub fn unpack(input: &'a [u8]) -> (res: Result<Self, DecodeError>)
        ensures
            instruction_view(res) == TokenInstructionView::spec_unpack(input@),
            input@.len() == 0 ==> res is Err && res->Err_0 == DecodeError::TruncatedInput,
            input@.len() > 0 && input@[0] >= 40 ==> res is Err && res->Err_0
                == DecodeError::UnknownTag(input@[0]),
    {
        let (tag, rest) = Self::unpack_u8(input)?;
        Ok(
            match tag {
                0 => {
                    let (decimals, rest) = Self::unpack_u8(rest)?;
                    let (mint_authority, rest) = Self::unpack_pubkey(rest)?;
                    let (freeze_authority, _rest) = Self::unpack_pubkey_option(rest)?;
                    Self::InitializeMint { mint_authority, freeze_authority, decimals }
                },
                1 => Self::InitializeAccount,
                2 => {
                    let (m, _rest) = Self::unpack_u8(rest)?;
                    Self::InitializeMultisig { m }
                },
                3 | 4 | 7 | 8 => {
                    let (amount, _rest) = Self::unpack_u64(rest)?;
                    match tag {
                        3 => Self::Transfer { amount },
                        4 => Self::Approve { amount },
                        7 => Self::MintTo { amount },
                        _ => Self::Burn { amount },
                    }
                },
                5 => Self::Revoke,
                6 => {
                    let (index, rest) = Self::unpack_u8(rest)?;
                    let authority_type = AuthorityType::from(index)?;
                    let (new_authority, _rest) = Self::unpack_pubkey_option(rest)?;
                    Self::SetAuthority { authority_type, new_authority }
                },
                9 => Self::CloseAccount,
                10 => Self::FreezeAccount,
                11 => Self::ThawAccount,
                12 => {
                    let (amount, decimals, _rest) = Self::unpack_amount_decimals(rest)?;
                    Self::TransferChecked { amount, decimals }
                },
                13 => {
                    let (amount, decimals, _rest) = Self::unpack_amount_decimals(rest)?;
                    Self::ApproveChecked { amount, decimals }
                },
                14 => {
                    let (amount, decimals, _rest) = Self::unpack_amount_decimals(rest)?;
                    Self::MintToChecked { amount, decimals }
                },
                15 => {
                    let (amount, decimals, _rest) = Self::unpack_amount_decimals(rest)?;
                    Self::BurnChecked { amount, decimals }
                },
                16 => {
                    let (owner, _rest) = Self::unpack_pubkey(rest)?;
                    Self::InitializeAccount2 { owner }
                },
                17 => Self::SyncNative,
                18 => {
                    let (owner, _rest) = Self::unpack_pubkey(rest)?;
                    Self::InitializeAccount3 { owner }
                },
                19 => {
                    let (m, _rest) = Self::unpack_u8(rest)?;
                    Self::InitializeMultisig2 { m }
                },
                20 => {
                    let (decimals, rest) = Self::unpack_u8(rest)?;
                    let (mint_authority, rest) = Self::unpack_pubkey(rest)?;
                    let (freeze_authority, _rest) = Self::unpack_pubkey_option(rest)?;
                    Self::InitializeMint2 { mint_authority, freeze_authority, decimals }
                },
                21 => {
                    let extension_types = Self::unpack_extension_types(rest)?;
                    Self::GetAccountDataSize { extension_types }
                },
                22 => Self::InitializeImmutableOwner,
                23 => {
                    let (amount, _rest) = Self::unpack_u64(rest)?;
                    Self::AmountToUiAmount { amount }
                },
                24 => {
                    let ui_amount = unpack_text(rest)?;
                    Self::UiAmountToAmount { ui_amount }
                },
                25 => {
                    let (close_authority, _rest) = Self::unpack_pubkey_option(rest)?;
                    Self::InitializeMintCloseAuthority { close_authority }
                },
                26 => {
                    let (instruction, _rest) = TransferFeeInstruction::unpack(rest)?;
                    Self::TransferFeeExtension(instruction)
                },
                27 => Self::ConfidentialTransferExtension,
                28 => Self::DefaultAccountStateExtension,
                29 => {
                    let extension_types = Self::unpack_extension_types(rest)?;
                    Self::Reallocate { extension_types }
                },
                30 => Self::MemoTransferExtension,
                31 => Self::CreateNativeMint,
                32 => Self::InitializeNonTransferableMint,
                33 => Self::InterestBearingMintExtension,
                34 => Self::CpiGuardExtension,
                35 => {
                    let (delegate, _rest) = Self::unpack_pubkey(rest)?;
                    Self::InitializePermanentDelegate { delegate }
                },
                36 => Self::TransferHookExtension,
                37 => Self::ConfidentialTransferFeeExtension,
                38 => Self::WithdrawExcessLamports,
                39 => Self::MetadataPointerExtension,
                _ => {
                    return Err(DecodeError::UnknownTag(tag));
                },
            },
        )
    }

    /// Reads a key from the front of the buffer.
    pub fn unpack_pubkey(input: &[u8]) -> (res: Result<(Pubkey, &[u8]), DecodeError>)
        ensures
            unpacked_view(res) == spec_unpack_pubkey(input@),
    {
        if input.len() < PUBKEY_BYTES {
            return Err(DecodeError::TruncatedInput);
        }
        let (head, rest) = input.split_at(PUBKEY_BYTES);
        match Pubkey::try_from(head) {
            Ok(pk) => {
                proof {
                    Pubkey::lemma_spec_from_bytes(head@);
                    pk.lemma_eq_by_bytes(Pubkey::spec_from_bytes(head@));
                }
                Ok((pk, rest))
            },
            Err(_) => Err(DecodeError::TruncatedInput),
        }
    }

    /// Reads an optional key from the front of the buffer.
    pub fn unpack_pubkey_option(input: &[u8]) -> (res: Result<
        (COption<Pubkey>, &[u8]),
        DecodeError,
    >)
        ensures
            unpacked_view(res) == spec_unpack_pubkey_option(input@),
    {
        if input.len() < 1 {
            return Err(DecodeError::InvalidDiscriminant);
        }
        let (head, rest) = input.split_at(1);
        if head[0] == 0 {
            Ok((COption::Absent, rest))
        } else if head[0] == 1 {
            let (pk, rest) = Self::unpack_pubkey(rest)?;
            Ok((COption::Present(pk), rest))
        } else {
            Err(DecodeError::InvalidDiscriminant)
        }
    }

    /// Reads one byte from the front of the buffer.
    pub fn unpack_u8(input: &[u8]) -> (res: Result<(u8, &[u8]), DecodeError>)
        ensures
            unpacked_view(res) == spec_unpack_u8(input@),
    {
        if input.len() < 1 {
            return Err(DecodeError::TruncatedInput);
        }
        let (head, rest) = input.split_at(1);
        Ok((head[0], rest))
    }

    /// Reads a little-endian `u16` from the front of the buffer.
    pub fn unpack_u16(input: &[u8]) -> (res: Result<(u16, &[u8]), DecodeError>)
        ensures
            unpacked_view(res) == spec_unpack_u16(input@),
    {
        if input.len() < U16_BYTES {
            return Err(DecodeError::TruncatedInput);
        }
        let (head, rest) = input.split_at(U16_BYTES);
        let value = u16_from_le(head[0], head[1]);
        Ok((value, rest))
    }

    /// Reads a little-endian `u64` from the front of the buffer.
    pub fn unpack_u64(input: &[u8]) -> (res: Result<(u64, &[u8]), DecodeError>)
        ensures
            unpacked_view(res) == spec_unpack_u64(input@),
    {
        if input.len() < U64_BYTES {
            return Err(DecodeError::TruncatedInput);
        }
        let (head, rest) = input.split_at(U64_BYTES);
        let value = u64_from_le(head);
        Ok((value, rest))
    }

    /// Reads an amount and its decimals from the front of the buffer.
    pub fn unpack_amount_decimals(input: &[u8]) -> (res: Result<(u64, u8, &[u8]), DecodeError>)
        ensures
            match res {
                Ok((amount, decimals, rest)) => spec_unpack_amount_decimals(input@) == Ok::<
                    _,
                    DecodeError,
                >(((amount, decimals), rest@)),
                Err(e) => spec_unpack_amount_decimals(input@) == Err::<((u64, u8), Seq<u8>), _>(e),
            },
    {
        let (amount, rest) = Self::unpack_u64(input)?;
        let (decimals, rest) = Self::unpack_u8(rest)?;
        Ok((amount, decimals, rest))
    }

    /// Reads extension codes to the end of the buffer.
    pub fn unpack_extension_types(input: &[u8]) -> (res: Result<Vec<ExtensionType>, DecodeError>)
        ensures
            extension_types_view(res) == spec_unpack_extension_types(input@),
    {
        let mut extension_types: Vec<ExtensionType> = Vec::new();
        let mut rest = input;
        while rest.len() > 0
            invariant
                spec_unpack_extension_types(input@) == spec_after(
                    extension_types@,
                    spec_unpack_extension_types(rest@),
                ),
            decreases rest@.len(),
        {
            let width: usize = if rest.len() < U16_BYTES {
                rest.len()
            } else {
                U16_BYTES
            };
            let (chunk, tail) = rest.split_at(width);
            let ghost done = extension_types@;
            let extension = ExtensionType::try_from(chunk)?;
            extension_types.push(extension);
            proof {
                let others = spec_unpack_extension_types(tail@);
                if let Ok(others) = others {
                    assert(done + (seq![extension] + others) =~= done.push(extension) + others);
                }
            }
            rest = tail;
        }
        proof {
            assert(extension_types@ + Seq::<ExtensionType>::empty() =~= extension_types@);
        }
        Ok(extension_types)
    }
}

/// What a list decodes to when `done` has been read from its front and
/// reading the bytes behind it gives `rest`.
spec fn spec_after(done: Seq<ExtensionType>, rest: Result<
    Seq<ExtensionType>,
    DecodeError,
>) -> Result<Seq<ExtensionType>, DecodeError> {
    match rest {
        Ok(others) => Ok(done + others),
        Err(e) => Err(e),
    }
}

/// Specifies the authority type for `SetAuthority` instructions
#[derive(Clone, Copy, Debug, PartialEq, Eq, Structural)]
pub enum AuthorityType {
    /// Authority to mint new tokens
    MintTokens,
    /// Authority to freeze any account associated with the mint
    FreezeAccount,
    /// Owner of a given token account
    AccountOwner,
    /// Authority to close a token account
    CloseAccount,
    /// Authority to set the transfer fee
    TransferFeeConfig,
    /// Authority to withdraw withheld tokens from a mint
    WithheldWithdraw,
    /// Authority to close a mint account
    CloseMint,
    /// Authority to set the interest rate
    InterestRate,
    /// Authority to transfer or burn any tokens for a mint
    PermanentDelegate,
    /// Authority to update confidential transfer mint and approve accounts
    ConfidentialTransferMint,
    /// Authority to set the transfer hook program id
    TransferHookProgramId,
    /// Authority to set the withdraw withheld authority encryption key
    ConfidentialTransferFeeConfig,
    /// Authority to set the metadata address
    MetadataPointer,
}

impl AuthorityType {
    /// The byte that stands for this authority on the wire.
    pub open spec fn spec_code(self) -> u8 {
        match self {
            AuthorityType::MintTokens => 0,
            AuthorityType::FreezeAccount => 1,
            AuthorityType::AccountOwner => 2,
            AuthorityType::CloseAccount => 3,
            AuthorityType::TransferFeeConfig => 4,
            AuthorityType::WithheldWithdraw => 5,
            AuthorityType::CloseMint => 6,
            AuthorityType::InterestRate => 7,
            AuthorityType::PermanentDelegate => 8,
            AuthorityType::ConfidentialTransferMint => 9,
            AuthorityType::TransferHookProgramId => 10,
            AuthorityType::ConfidentialTransferFeeConfig => 11,
            AuthorityType::MetadataPointer => 12,
        }
    }

    /// The authority that a byte stands for: the one with that code, and
    /// none for a byte above 12.
    pub open spec fn spec_from(index: u8) -> Result<AuthorityType, DecodeError> {
        if index <= 12 {
            Ok(choose|authority: AuthorityType| authority.spec_code() == index)
        } else {
            Err(DecodeError::InvalidEnumCode(index as u16))
        }
    }

    /// Each authority is the only one with its code.
    pub proof fn lemma_code_identifies(self)
        ensures
            self.spec_code() <= 12,
            Self::spec_from(self.spec_code()) == Ok::<_, DecodeError>(self),
    {
    }

    /// Each byte up to 12 is the code of the authority that it stands for.
    pub proof fn lemma_from_has_code(index: u8)
        requires
            index <= 12,
        ensures
            Self::spec_from(index) is Ok,
            Self::spec_from(index)->Ok_0.spec_code() == index,
    {
        let all = seq![
            AuthorityType::MintTokens,
            AuthorityType::FreezeAccount,
            AuthorityType::AccountOwner,
            AuthorityType::CloseAccount,
            AuthorityType::TransferFeeConfig,
            AuthorityType::WithheldWithdraw,
            AuthorityType::CloseMint,
            AuthorityType::InterestRate,
            AuthorityType::PermanentDelegate,
            AuthorityType::ConfidentialTransferMint,
            AuthorityType::TransferHookProgramId,
            AuthorityType::ConfidentialTransferFeeConfig,
            AuthorityType::MetadataPointer,
        ];
        assert(all[index as int].spec_code() == index);
    }

    /// The authority with the given code.
    pub fn from(index: u8) -> (res: Result<Self, DecodeError>)
        ensures
            res == Self::spec_from(index),
            index <= 12 ==> res is Ok && res->Ok_0.spec_code() == index,
            index > 12 ==> res == Err::<Self, _>(DecodeError::InvalidEnumCode(index as u16)),
    {
        let authority = match index {
            0 => AuthorityType::MintTokens,
            1 => AuthorityType::FreezeAccount,
            2 => AuthorityType::AccountOwner,
            3 => AuthorityType::CloseAccount,
            4 => AuthorityType::TransferFeeConfig,
            5 => AuthorityType::WithheldWithdraw,
            6 => AuthorityType::CloseMint,
            7 => AuthorityType::InterestRate,
            8 => AuthorityType::PermanentDelegate,
            9 => AuthorityType::ConfidentialTransferMint,
            10 => AuthorityType::TransferHookProgramId,
            11 => AuthorityType::ConfidentialTransferFeeConfig,
            12 => AuthorityType::MetadataPointer,
            _ => {
                return Err(DecodeError::InvalidEnumCode(index as u16));
            },
        };
        proof {
            authority.lemma_code_identifies();
        }
        Ok(authority)
    }
}

/// Extensions that can be applied to mints or accounts. Mint extensions must
/// only be applied to mint accounts, and account extensions must only be
/// applied to token holding accounts.
#[derive(Clone, Copy, Debug, PartialEq, Eq, Structural)]
pub enum ExtensionType {
    /// Used as padding if the account size would otherwise be 355, same as a multisig
    Uninitialized,
    /// Includes transfer fee rate info and accompanying authorities to withdraw and set the fee
    TransferFeeConfig,
    /// Includes withheld transfer fees
    TransferFeeAmount,
    /// Includes an optional mint close authority
    MintCloseAuthority,
    /// Auditor configuration for confidential transfers
    ConfidentialTransferMint,
    /// State for confidential transfers
    ConfidentialTransferAccount,
    /// Specifies the default account state for new accounts
    DefaultAccountState,
    /// Indicates that the account owner authority cannot be changed
    ImmutableOwner,
    /// Require inbound transfers to have a memo
    MemoTransfer,
    /// Indicates that the tokens from this mint can't be transferred
    NonTransferable,
    /// Tokens accrue interest over time
    InterestBearingConfig,
    /// Locks privileged token operations from happening via CPI
    CpiGuard,
    /// Includes an optional permanent delegate
    PermanentDelegate,
    /// Indicates that the tokens in this account belong to a non-transferable mint
    NonTransferableAccount,
    /// Mint requires a CPI to a program implementing the transfer hook interface
    TransferHook,
    /// Indicates that the tokens in this account belong to a mint with a transfer hook
    TransferHookAccount,
    /// Includes encrypted withheld fees and the encryption public key that they are encrypted under
    ConfidentialTransferFeeConfig,
    /// Includes confidential withheld transfer fees
    ConfidentialTransferFeeAmount,
    /// Mint contains a pointer to another account that holds metadata
    MetadataPointer,
    /// Mint contains token-metadata
    TokenMetadata,
}

/// The highest code that names an extension.
pub const MAX_EXTENSION_CODE: u16 = 19;

impl ExtensionType {
    /// The number that stands for this extension on the wire.
    pub open spec fn spec_code(self) -> u16 {
        match self {
            ExtensionType::Uninitialized => 0,
            ExtensionType::TransferFeeConfig => 1,
            ExtensionType::TransferFeeAmount => 2,
            ExtensionType::MintCloseAuthority => 3,
            ExtensionType::ConfidentialTransferMint => 4,
            ExtensionType::ConfidentialTransferAccount => 5,
            ExtensionType::DefaultAccountState => 6,
            ExtensionType::ImmutableOwner => 7,
            ExtensionType::MemoTransfer => 8,
            ExtensionType::NonTransferable => 9,
            ExtensionType::InterestBearingConfig => 10,
            ExtensionType::CpiGuard => 11,
            ExtensionType::PermanentDelegate => 12,
            ExtensionType::NonTransferableAccount => 13,
            ExtensionType::TransferHook => 14,
            ExtensionType::TransferHookAccount => 15,
            ExtensionType::ConfidentialTransferFeeConfig => 16,
            ExtensionType::ConfidentialTransferFeeAmount => 17,
            ExtensionType::MetadataPointer => 18,
            ExtensionType::TokenMetadata => 19,
        }
    }

    /// The extension that a number stands for: the one with that code, and
    /// none for a number above the highest code.
    pub open spec fn spec_from_code(code: u16) -> Result<ExtensionType, DecodeError> {
        if code <= MAX_EXTENSION_CODE {
            Ok(choose|extension: ExtensionType| extension.spec_code() == code)
        } else {
            Err(DecodeError::InvalidEnumCode(code))
        }
    }

    /// What a slice stands for as one extension code: it has to be exactly
    /// two bytes long, and they are the code in little-endian order. A slice
    /// of any other length holds no whole code.
    pub open spec fn spec_from_bytes(bytes: Seq<u8>) -> Result<ExtensionType, DecodeError> {
        if bytes.len() != 2 {
            Err(DecodeError::TruncatedInput)
        } else {
            Self::spec_from_code(spec_u16_le(bytes))
        }
    }

    /// The two bytes of this extension's code, little-endian.
    pub open spec fn spec_pack(self) -> Seq<u8> {
        spec_pack_u16(self.spec_code())
    }

    /// Each number up to the highest code is the code of the extension that
    /// it stands for.
    pub proof fn lemma_from_code_has_code(code: u16)
        requires
            code <= MAX_EXTENSION_CODE,
        ensures
            Self::spec_from_code(code) is Ok,
            Self::spec_from_code(code)->Ok_0.spec_code() == code,
    {
        let all = seq![
            ExtensionType::Uninitialized,
            ExtensionType::TransferFeeConfig,
            ExtensionType::TransferFeeAmount,
            ExtensionType::MintCloseAuthority,
            ExtensionType::ConfidentialTransferMint,
            ExtensionType::ConfidentialTransferAccount,
            ExtensionType::DefaultAccountState,
            ExtensionType::ImmutableOwner,
            ExtensionType::MemoTransfer,
            ExtensionType::NonTransferable,
            ExtensionType::InterestBearingConfig,
            ExtensionType::CpiGuard,
            ExtensionType::PermanentDelegate,
            ExtensionType::NonTransferableAccount,
            ExtensionType::TransferHook,
            ExtensionType::TransferHookAccount,
            ExtensionType::ConfidentialTransferFeeConfig,
            ExtensionType::ConfidentialTransferFeeAmount,
            ExtensionType::MetadataPointer,
            ExtensionType::TokenMetadata,
        ];
        assert(all[code as int].spec_code() == code);
    }

    /// Each extension is the only one with its code.
    pub proof fn lemma_code_identifies(self)
        ensures
            self.spec_code() <= MAX_EXTENSION_CODE,
            Self::spec_from_code(self.spec_code()) == Ok::<_, DecodeError>(self),
    {
    }
}

impl TryFrom<u16> for ExtensionType {
    type Error = DecodeError;

    /// The extension with the given code.
    fn try_from(code: u16) -> (res: Result<Self, DecodeError>)
        ensures
            res == Self::spec_from_code(code),
            code <= MAX_EXTENSION_CODE ==> res is Ok && res->Ok_0.spec_code() == code,
            code > MAX_EXTENSION_CODE ==> res == Err::<Self, _>(DecodeError::InvalidEnumCode(code)),
    {
        let extension = match code {
            0 => ExtensionType::Uninitialized,
            1 => ExtensionType::TransferFeeConfig,
            2 => ExtensionType::TransferFeeAmount,
            3 => ExtensionType::MintCloseAuthority,
            4 => ExtensionType::ConfidentialTransferMint,
            5 => ExtensionType::ConfidentialTransferAccount,
            6 => ExtensionType::DefaultAccountState,
            7 => ExtensionType::ImmutableOwner,
            8 => ExtensionType::MemoTransfer,
            9 => ExtensionType::NonTransferable,
            10 => ExtensionType::InterestBearingConfig,
            11 => ExtensionType::CpiGuard,
            12 => ExtensionType::PermanentDelegate,
            13 => ExtensionType::NonTransferableAccount,
            14 => ExtensionType::TransferHook,
            15 => ExtensionType::TransferHookAccount,
            16 => ExtensionType::ConfidentialTransferFeeConfig,
            17 => ExtensionType::ConfidentialTransferFeeAmount,
            18 => ExtensionType::MetadataPointer,
            19 => ExtensionType::TokenMetadata,
            _ => {
                return Err(DecodeError::InvalidEnumCode(code));
            },
        };
        proof {
            extension.lemma_code_identifies();
        }
        Ok(extension)
    }
}

impl TryFromSpecImpl<u16> for ExtensionType {
    open spec fn obeys_try_from_spec() -> bool {
        true
    }

    open spec fn try_from_spec(code: u16) -> Result<Self, DecodeError> {
        Self::spec_from_code(code)
    }
}

impl From<ExtensionType> for u16 {
    /// The extension's code.
    fn from(a: ExtensionType) -> (code: u16)
        ensures
            code == a.spec_code(),
    {
        match a {
            ExtensionType::Uninitialized => 0,
            ExtensionType::TransferFeeConfig => 1,
            ExtensionType::TransferFeeAmount => 2,
            ExtensionType::MintCloseAuthority => 3,
            ExtensionType::ConfidentialTransferMint => 4,
            ExtensionType::ConfidentialTransferAccount => 5,
            ExtensionType::DefaultAccountState => 6,
            ExtensionType::ImmutableOwner => 7,
            ExtensionType::MemoTransfer => 8,
            ExtensionType::NonTransferable => 9,
            ExtensionType::InterestBearingConfig => 10,
            ExtensionType::CpiGuard => 11,
            ExtensionType::PermanentDelegate => 12,
            ExtensionType::NonTransferableAccount => 13,
            ExtensionType::TransferHook => 14,
            ExtensionType::TransferHookAccount => 15,
            ExtensionType::ConfidentialTransferFeeConfig => 16,
            ExtensionType::ConfidentialTransferFeeAmount => 17,
            ExtensionType::MetadataPointer => 18,
            ExtensionType::TokenMetadata => 19,
        }
    }
}

impl FromSpecImpl<ExtensionType> for u16 {
    open spec fn obeys_from_spec() -> bool {
        true
    }

    open spec fn from_spec(a: ExtensionType) -> u16 {
        a.spec_code()
    }
}

impl TryFrom<&[u8]> for ExtensionType {
    type Error = DecodeError;

    /// The extension whose code is written in the slice. A slice that is
    /// not exactly one code long is rejected as truncated input.
    fn try_from(a: &[u8]) -> (res: Result<Self, DecodeError>)
        ensures
            res == Self::spec_from_bytes(a@),
    {
        if a.len() != 2 {
            return Err(DecodeError::TruncatedInput);
        }
        let code: u16 = u16_from_le(a[0], a[1]);
        ExtensionType::try_from(code)
    }
}

impl TryFromSpecImpl<&[u8]> for ExtensionType {
    open spec fn obeys_try_from_spec() -> bool {
        true
    }

    open spec fn try_from_spec(a: &[u8]) -> Result<Self, DecodeError> {
        Self::spec_from_bytes(a@)
    }
}

impl From<ExtensionType> for [u8; 2] {
    /// The extension's code as two little-endian bytes.
    fn from(a: ExtensionType) -> (bytes: [u8; 2])
        ensures
            bytes@ == a.spec_pack(),
    {
        let code: u16 = u16::from(a);
        let bytes: [u8; 2] = [(code % 0x100) as u8, (code / 0x100) as u8];
        assert(bytes@ =~= a.spec_pack());
        bytes
    }
}

impl FromSpecImpl<ExtensionType> for [u8; 2] {
    open spec fn obeys_from_spec() -> bool {
        true
    }

    open spec fn from_spec(a: ExtensionType) -> [u8; 2] {
        [(a.spec_code() % 0x100) as u8, (a.spec_code() / 0x100) as u8]
    }
}

} // verus!
