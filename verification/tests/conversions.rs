use token_program_instructions::error::DecodeError;
use token_program_instructions::pubkey::Pubkey;
use token_program_instructions::pubkey::PUBKEY_BYTES;
use token_program_instructions::token_instruction_2022::AuthorityType;
use token_program_instructions::token_instruction_2022::ExtensionType;
use token_program_instructions::token_instruction_2022::TokenInstruction;
use token_program_instructions::token_instruction_2022::MAX_EXTENSION_CODE;
use token_program_instructions::token_instruction_2022::MAX_SIGNERS;
use token_program_instructions::token_instruction_2022::MIN_SIGNERS;

const AUTHORITIES: [AuthorityType; 13] = [
    AuthorityType::MintTokens,
    AuthorityType::FreezeAccount,
    AuthorityType::AccountOwner,
    AuthorityType::CloseAccount,
    AuthorityType::TransferFeeConfig,
    AuthorityType::WithheldWithdraw,
    AuthorityType::CloseMint,
    AuthorityType::InterestRate,
    AuthorityType::PermanentDelegate,
    AuthorityType::ConfidentialTransferMint,
    AuthorityType::TransferHookProgramId,
    AuthorityType::ConfidentialTransferFeeConfig,
    AuthorityType::MetadataPointer,
];

const EXTENSIONS: [ExtensionType; 20] = [
    ExtensionType::Uninitialized,
    ExtensionType::TransferFeeConfig,
    ExtensionType::TransferFeeAmount,
    ExtensionType::MintCloseAuthority,
    ExtensionType::ConfidentialTransferMint,
    ExtensionType::ConfidentialTransferAccount,
    ExtensionType::DefaultAccountState,
    ExtensionType::ImmutableOwner,
    ExtensionType::MemoTransfer,
    ExtensionType::NonTransferable,
    ExtensionType::InterestBearingConfig,
    ExtensionType::CpiGuard,
    ExtensionType::PermanentDelegate,
    ExtensionType::NonTransferableAccount,
    ExtensionType::TransferHook,
    ExtensionType::TransferHookAccount,
    ExtensionType::ConfidentialTransferFeeConfig,
    ExtensionType::ConfidentialTransferFeeAmount,
    ExtensionType::MetadataPointer,
    ExtensionType::TokenMetadata,
];

fn ascending(len: usize) -> Vec<u8> {
    (0..len).map(|i| (i + 1) as u8).collect()
}

#[test]
fn constants() {
    assert_eq!(PUBKEY_BYTES, 32);
    assert_eq!(MIN_SIGNERS, 1);
    assert_eq!(MAX_SIGNERS, 11);
    assert_eq!(MAX_EXTENSION_CODE, 19);
}

#[test]
fn pubkey_from_array_keeps_the_bytes() {
    let mut bytes = [0u8; 32];
    bytes.copy_from_slice(&ascending(32));
    let key = Pubkey::from(bytes);
    assert_eq!(key.to_bytes(), bytes);
    assert_eq!(key.as_ref(), &bytes[..]);
}

#[test]
fn pubkey_equality_is_bytewise() {
    let mut other = [7u8; 32];
    assert_eq!(Pubkey::from([7u8; 32]), Pubkey::from(other));
    other[31] = 8;
    assert_ne!(Pubkey::from([7u8; 32]), Pubkey::from(other));
}

#[test]
fn pubkey_from_slice_of_32() {
    let bytes = ascending(32);
    let key = Pubkey::try_from(&bytes[..]).unwrap();
    assert_eq!(key.to_bytes().to_vec(), bytes);
}

#[test]
fn pubkey_from_slice_of_other_lengths_fails() {
    for len in [0usize, 1, 31, 33, 64] {
        assert!(Pubkey::try_from(&ascending(len)[..]).is_err());
    }
}

#[test]
fn pubkey_from_vec_of_32() {
    let key = Pubkey::try_from(ascending(32)).unwrap();
    assert_eq!(key.as_ref(), &ascending(32)[..]);
}

#[test]
fn pubkey_from_vec_of_other_lengths_gives_the_vec_back() {
    for len in [0usize, 31, 33] {
        assert_eq!(Pubkey::try_from(ascending(len)), Err(ascending(len)));
    }
}

#[test]
fn authority_type_of_each_code() {
    for (code, authority) in AUTHORITIES.iter().enumerate() {
        assert_eq!(AuthorityType::from(code as u8), Ok(*authority));
    }
}

#[test]
fn authority_type_12_is_metadata_pointer() {
    assert_eq!(AuthorityType::from(12), Ok(AuthorityType::MetadataPointer));
}

#[test]
fn authority_type_13_is_invalid() {
    assert_eq!(AuthorityType::from(13), Err(DecodeError::InvalidEnumCode(13)));
}

#[test]
fn authority_type_above_12_is_invalid() {
    for code in 13..=255u8 {
        assert_eq!(
            AuthorityType::from(code),
            Err(DecodeError::InvalidEnumCode(code as u16))
        );
    }
}

#[test]
fn extension_type_of_each_code() {
    for (code, extension) in EXTENSIONS.iter().enumerate() {
        assert_eq!(ExtensionType::try_from(code as u16), Ok(*extension));
        assert_eq!(u16::from(*extension), code as u16);
    }
}

#[test]
fn extension_type_above_19_is_invalid() {
    for code in [20u16, 21, 255, 256, u16::MAX - 2, u16::MAX - 1, u16::MAX] {
        assert_eq!(
            ExtensionType::try_from(code),
            Err(DecodeError::InvalidEnumCode(code))
        );
    }
}

#[test]
fn extension_type_as_two_bytes() {
    for (code, extension) in EXTENSIONS.iter().enumerate() {
        assert_eq!(<[u8; 2]>::from(*extension), [code as u8, 0]);
    }
}

#[test]
fn extension_type_from_two_bytes() {
    assert_eq!(
        ExtensionType::try_from(&[0x12u8, 0x00][..]),
        Ok(ExtensionType::MetadataPointer)
    );
    assert_eq!(
        ExtensionType::try_from(&[0x00u8, 0x01][..]),
        Err(DecodeError::InvalidEnumCode(256))
    );
}

#[test]
fn extension_type_from_another_width_fails() {
    assert_eq!(ExtensionType::try_from(&[][..]), Err(DecodeError::TruncatedInput));
    assert_eq!(ExtensionType::try_from(&[1u8][..]), Err(DecodeError::TruncatedInput));
    assert_eq!(
        ExtensionType::try_from(&[1u8, 0, 0][..]),
        Err(DecodeError::TruncatedInput)
    );
}

#[test]
fn extension_type_bytes_go_there_and_back() {
    for extension in EXTENSIONS {
        let bytes: [u8; 2] = extension.into();
        assert_eq!(ExtensionType::try_from(&bytes[..]), Ok(extension));
    }
}

#[test]
fn extension_list_of_nothing_is_empty() {
    assert_eq!(TokenInstruction::unpack_extension_types(&[]), Ok(vec![]));
}

#[test]
fn extension_list_of_two_codes() {
    assert_eq!(
        TokenInstruction::unpack_extension_types(&[0x01, 0x00, 0x03, 0x00]),
        Ok(vec![ExtensionType::TransferFeeConfig, ExtensionType::MintCloseAuthority])
    );
}

#[test]
fn extension_list_of_every_code() {
    let mut input = Vec::new();
    for code in 0..20u8 {
        input.push(code);
        input.push(0);
    }
    assert_eq!(TokenInstruction::unpack_extension_types(&input), Ok(EXTENSIONS.to_vec()));
}

#[test]
fn extension_list_with_a_short_last_chunk_is_truncated() {
    assert_eq!(
        TokenInstruction::unpack_extension_types(&[0x01, 0x00, 0x03]),
        Err(DecodeError::TruncatedInput)
    );
    assert_eq!(
        TokenInstruction::unpack_extension_types(&[0x01]),
        Err(DecodeError::TruncatedInput)
    );
}

#[test]
fn extension_list_with_an_unknown_code_is_invalid() {
    assert_eq!(
        TokenInstruction::unpack_extension_types(&[0x01, 0x00, 0x14, 0x00, 0x02, 0x00]),
        Err(DecodeError::InvalidEnumCode(20))
    );
    assert_eq!(
        TokenInstruction::unpack_extension_types(&[0xfd, 0xff]),
        Err(DecodeError::InvalidEnumCode(0xfffd))
    );
}

#[test]
fn extension_list_reports_the_first_bad_chunk() {
    assert_eq!(
        TokenInstruction::unpack_extension_types(&[0x63, 0x00, 0x01]),
        Err(DecodeError::InvalidEnumCode(99))
    );
    assert_eq!(
        TokenInstruction::unpack_extension_types(&[0x01, 0x00, 0x63, 0x00, 0x00, 0x02]),
        Err(DecodeError::InvalidEnumCode(99))
    );
}
