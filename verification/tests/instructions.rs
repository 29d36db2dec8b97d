use token_program_instructions::error::DecodeError;
use token_program_instructions::option::COption;
use token_program_instructions::pubkey::Pubkey;
use token_program_instructions::token_instruction_2022::AuthorityType;
use token_program_instructions::token_instruction_2022::ExtensionType;
use token_program_instructions::token_instruction_2022::TokenInstruction;
use token_program_instructions::transfer_fee_instruction::TransferFeeInstruction;

/// The bytes 0xa0, 0xa1, ... as a key.
fn key_bytes() -> [u8; 32] {
    let mut bytes = [0u8; 32];
    for (i, byte) in bytes.iter_mut().enumerate() {
        *byte = 0xa0 + i as u8;
    }
    bytes
}

fn key() -> Pubkey {
    Pubkey::from(key_bytes())
}

/// A buffer that starts with `head` and goes on with each of `parts`.
fn buffer(head: &[u8], parts: &[&[u8]]) -> Vec<u8> {
    let mut bytes = head.to_vec();
    for part in parts {
        bytes.extend_from_slice(part);
    }
    bytes
}

/// Every proper prefix of `input` that still holds the tag.
fn cut_short(input: &[u8]) -> Vec<Vec<u8>> {
    (1..input.len()).map(|len| input[..len].to_vec()).collect()
}

#[test]
fn tag_0_is_initialize_mint() {
    let input = buffer(&[0, 6], &[&key_bytes(), &[0]]);
    assert_eq!(
        TokenInstruction::unpack(&input),
        Ok(TokenInstruction::InitializeMint {
            decimals: 6,
            mint_authority: key(),
            freeze_authority: COption::Absent,
        })
    );
}

#[test]
fn tag_0_with_a_freeze_authority() {
    let input = buffer(&[0, 9], &[&key_bytes(), &[1], &[0x22; 32], &[0xff]]);
    assert_eq!(
        TokenInstruction::unpack(&input),
        Ok(TokenInstruction::InitializeMint {
            decimals: 9,
            mint_authority: key(),
            freeze_authority: COption::Present(Pubkey::from([0x22; 32])),
        })
    );
}

#[test]
fn tag_0_cut_short_is_rejected() {
    let input = buffer(&[0, 6], &[&key_bytes(), &[0]]);
    for short in cut_short(&input) {
        let expected = if short.len() == 34 {
            DecodeError::InvalidDiscriminant
        } else {
            DecodeError::TruncatedInput
        };
        assert_eq!(TokenInstruction::unpack(&short), Err(expected));
    }
}

#[test]
fn tag_0_with_a_freeze_authority_cut_short_is_rejected() {
    let input = buffer(&[0, 6], &[&key_bytes(), &[1], &[0x22; 32]]);
    for short in cut_short(&input) {
        let expected = if short.len() == 34 {
            DecodeError::InvalidDiscriminant
        } else {
            DecodeError::TruncatedInput
        };
        assert_eq!(TokenInstruction::unpack(&short), Err(expected));
    }
}

#[test]
fn tag_0_with_a_bad_discriminant_is_invalid() {
    let input = buffer(&[0, 6], &[&key_bytes(), &[2]]);
    assert_eq!(TokenInstruction::unpack(&input), Err(DecodeError::InvalidDiscriminant));
}

#[test]
fn tag_1_is_initialize_account() {
    assert_eq!(TokenInstruction::unpack(&[1]), Ok(TokenInstruction::InitializeAccount));
}

#[test]
fn tag_1_ignores_what_follows() {
    assert_eq!(
        TokenInstruction::unpack(&[1, 0xff, 0x00, 0x7f]),
        Ok(TokenInstruction::InitializeAccount)
    );
}

#[test]
fn tag_2_is_initialize_multisig() {
    assert_eq!(
        TokenInstruction::unpack(&[2, 3]),
        Ok(TokenInstruction::InitializeMultisig { m: 3 })
    );
}

#[test]
fn tag_2_ignores_what_follows() {
    assert_eq!(
        TokenInstruction::unpack(&[2, 11, 0xff]),
        Ok(TokenInstruction::InitializeMultisig { m: 11 })
    );
}

#[test]
fn tag_2_cut_short_is_truncated() {
    assert_eq!(TokenInstruction::unpack(&[2]), Err(DecodeError::TruncatedInput));
}

#[test]
fn tag_3_is_transfer() {
    let input = [3, 0x15, 0xcd, 0x5b, 0x07, 0, 0, 0, 0];
    assert_eq!(
        TokenInstruction::unpack(&input),
        Ok(TokenInstruction::Transfer { amount: 123_456_789 })
    );
}

#[test]
fn tag_3_ignores_what_follows() {
    let input = [3, 0xff, 0xff, 0xff, 0xff, 0xff, 0xff, 0xff, 0xff, 0x01];
    assert_eq!(
        TokenInstruction::unpack(&input),
        Ok(TokenInstruction::Transfer { amount: u64::MAX })
    );
}

#[test]
fn tag_3_cut_short_is_truncated() {
    for short in cut_short(&[3, 0x15, 0xcd, 0x5b, 0x07, 0, 0, 0, 0]) {
        assert_eq!(TokenInstruction::unpack(&short), Err(DecodeError::TruncatedInput));
    }
}

#[test]
fn tag_4_is_approve() {
    let input = [4, 0x15, 0xcd, 0x5b, 0x07, 0, 0, 0, 0];
    assert_eq!(
        TokenInstruction::unpack(&input),
        Ok(TokenInstruction::Approve { amount: 123_456_789 })
    );
}

#[test]
fn tag_4_ignores_what_follows() {
    let input = [4, 0xff, 0xff, 0xff, 0xff, 0xff, 0xff, 0xff, 0xff, 0x01];
    assert_eq!(
        TokenInstruction::unpack(&input),
        Ok(TokenInstruction::Approve { amount: u64::MAX })
    );
}

#[test]
fn tag_4_cut_short_is_truncated() {
    for short in cut_short(&[4, 0x15, 0xcd, 0x5b, 0x07, 0, 0, 0, 0]) {
        assert_eq!(TokenInstruction::unpack(&short), Err(DecodeError::TruncatedInput));
    }
}

#[test]
fn tag_5_is_revoke() {
    assert_eq!(TokenInstruction::unpack(&[5]), Ok(TokenInstruction::Revoke));
}

#[test]
fn tag_5_ignores_what_follows() {
    assert_eq!(
        TokenInstruction::unpack(&[5, 0xff, 0x00, 0x7f]),
        Ok(TokenInstruction::Revoke)
    );
}

#[test]
fn tag_6_is_set_authority() {
    assert_eq!(
        TokenInstruction::unpack(&[6, 2, 0]),
        Ok(TokenInstruction::SetAuthority {
            authority_type: AuthorityType::AccountOwner,
            new_authority: COption::Absent,
        })
    );
}

#[test]
fn tag_6_with_a_new_authority() {
    let input = buffer(&[6, 12, 1], &[&key_bytes(), &[0xff]]);
    assert_eq!(
        TokenInstruction::unpack(&input),
        Ok(TokenInstruction::SetAuthority {
            authority_type: AuthorityType::MetadataPointer,
            new_authority: COption::Present(key()),
        })
    );
}

#[test]
fn tag_6_with_authority_13_is_invalid() {
    assert_eq!(
        TokenInstruction::unpack(&[6, 13, 0]),
        Err(DecodeError::InvalidEnumCode(13))
    );
}

#[test]
fn tag_6_checks_the_authority_before_the_key() {
    assert_eq!(TokenInstruction::unpack(&[6, 200]), Err(DecodeError::InvalidEnumCode(200)));
    assert_eq!(
        TokenInstruction::unpack(&[6, 200, 7]),
        Err(DecodeError::InvalidEnumCode(200))
    );
}

#[test]
fn tag_6_cut_short_is_rejected() {
    assert_eq!(TokenInstruction::unpack(&[6]), Err(DecodeError::TruncatedInput));
    assert_eq!(TokenInstruction::unpack(&[6, 2]), Err(DecodeError::InvalidDiscriminant));
    let input = buffer(&[6, 2, 1], &[&key_bytes()]);
    for short in cut_short(&input) {
        let expected = if short.len() == 2 {
            DecodeError::InvalidDiscriminant
        } else {
            DecodeError::TruncatedInput
        };
        assert_eq!(TokenInstruction::unpack(&short), Err(expected));
    }
}

#[test]
fn tag_7_is_mint_to() {
    let input = [7, 0x15, 0xcd, 0x5b, 0x07, 0, 0, 0, 0];
    assert_eq!(
        TokenInstruction::unpack(&input),
        Ok(TokenInstruction::MintTo { amount: 123_456_789 })
    );
}

#[test]
fn tag_7_ignores_what_follows() {
    let input = [7, 0xff, 0xff, 0xff, 0xff, 0xff, 0xff, 0xff, 0xff, 0x01];
    assert_eq!(
        TokenInstruction::unpack(&input),
        Ok(TokenInstruction::MintTo { amount: u64::MAX })
    );
}

#[test]
fn tag_7_cut_short_is_truncated() {
    for short in cut_short(&[7, 0x15, 0xcd, 0x5b, 0x07, 0, 0, 0, 0]) {
        assert_eq!(TokenInstruction::unpack(&short), Err(DecodeError::TruncatedInput));
    }
}

#[test]
fn tag_8_is_burn() {
    let input = [8, 0x15, 0xcd, 0x5b, 0x07, 0, 0, 0, 0];
    assert_eq!(
        TokenInstruction::unpack(&input),
        Ok(TokenInstruction::Burn { amount: 123_456_789 })
    );
}

#[test]
fn tag_8_ignores_what_follows() {
    let input = [8, 0xff, 0xff, 0xff, 0xff, 0xff, 0xff, 0xff, 0xff, 0x01];
    assert_eq!(
        TokenInstruction::unpack(&input),
        Ok(TokenInstruction::Burn { amount: u64::MAX })
    );
}

#[test]
fn tag_8_cut_short_is_truncated() {
    for short in cut_short(&[8, 0x15, 0xcd, 0x5b, 0x07, 0, 0, 0, 0]) {
        assert_eq!(TokenInstruction::unpack(&short), Err(DecodeError::TruncatedInput));
    }
}

#[test]
fn tag_9_is_close_account() {
    assert_eq!(TokenInstruction::unpack(&[9]), Ok(TokenInstruction::CloseAccount));
}

#[test]
fn tag_9_ignores_what_follows() {
    assert_eq!(
        TokenInstruction::unpack(&[9, 0xff, 0x00, 0x7f]),
        Ok(TokenInstruction::CloseAccount)
    );
}

#[test]
fn tag_10_is_freeze_account() {
    assert_eq!(TokenInstruction::unpack(&[10]), Ok(TokenInstruction::FreezeAccount));
}

#[test]
fn tag_10_ignores_what_follows() {
    assert_eq!(
        TokenInstruction::unpack(&[10, 0xff, 0x00, 0x7f]),
        Ok(TokenInstruction::FreezeAccount)
    );
}

#[test]
fn tag_11_is_thaw_account() {
    assert_eq!(TokenInstruction::unpack(&[11]), Ok(TokenInstruction::ThawAccount));
}

#[test]
fn tag_11_ignores_what_follows() {
    assert_eq!(
        TokenInstruction::unpack(&[11, 0xff, 0x00, 0x7f]),
        Ok(TokenInstruction::ThawAccount)
    );
}

#[test]
fn tag_12_is_transfer_checked() {
    let input = [12, 0x40, 0x42, 0x0f, 0, 0, 0, 0, 0, 9];
    assert_eq!(
        TokenInstruction::unpack(&input),
        Ok(TokenInstruction::TransferChecked { amount: 1_000_000, decimals: 9 })
    );
}

#[test]
fn tag_12_ignores_what_follows() {
    let input = [12, 1, 0, 0, 0, 0, 0, 0, 0, 2, 3, 4];
    assert_eq!(
        TokenInstruction::unpack(&input),
        Ok(TokenInstruction::TransferChecked { amount: 1, decimals: 2 })
    );
}

#[test]
fn tag_12_cut_short_is_truncated() {
    for short in cut_short(&[12, 0x40, 0x42, 0x0f, 0, 0, 0, 0, 0, 9]) {
        assert_eq!(TokenInstruction::unpack(&short), Err(DecodeError::TruncatedInput));
    }
}

#[test]
fn tag_13_is_approve_checked() {
    let input = [13, 0x40, 0x42, 0x0f, 0, 0, 0, 0, 0, 9];
    assert_eq!(
        TokenInstruction::unpack(&input),
        Ok(TokenInstruction::ApproveChecked { amount: 1_000_000, decimals: 9 })
    );
}

#[test]
fn tag_13_ignores_what_follows() {
    let input = [13, 1, 0, 0, 0, 0, 0, 0, 0, 2, 3, 4];
    assert_eq!(
        TokenInstruction::unpack(&input),
        Ok(TokenInstruction::ApproveChecked { amount: 1, decimals: 2 })
    );
}

#[test]
fn tag_13_cut_short_is_truncated() {
    for short in cut_short(&[13, 0x40, 0x42, 0x0f, 0, 0, 0, 0, 0, 9]) {
        assert_eq!(TokenInstruction::unpack(&short), Err(DecodeError::TruncatedInput));
    }
}

#[test]
fn tag_14_is_mint_to_checked() {
    let input = [14, 0x40, 0x42, 0x0f, 0, 0, 0, 0, 0, 9];
    assert_eq!(
        TokenInstruction::unpack(&input),
        Ok(TokenInstruction::MintToChecked { amount: 1_000_000, decimals: 9 })
    );
}

#[test]
fn tag_14_ignores_what_follows() {
    let input = [14, 1, 0, 0, 0, 0, 0, 0, 0, 2, 3, 4];
    assert_eq!(
        TokenInstruction::unpack(&input),
        Ok(TokenInstruction::MintToChecked { amount: 1, decimals: 2 })
    );
}

#[test]
fn tag_14_cut_short_is_truncated() {
    for short in cut_short(&[14, 0x40, 0x42, 0x0f, 0, 0, 0, 0, 0, 9]) {
        assert_eq!(TokenInstruction::unpack(&short), Err(DecodeError::TruncatedInput));
    }
}

#[test]
fn tag_15_is_burn_checked() {
    let input = [15, 0x40, 0x42, 0x0f, 0, 0, 0, 0, 0, 9];
    assert_eq!(
        TokenInstruction::unpack(&input),
        Ok(TokenInstruction::BurnChecked { amount: 1_000_000, decimals: 9 })
    );
}

#[test]
fn tag_15_ignores_what_follows() {
    let input = [15, 1, 0, 0, 0, 0, 0, 0, 0, 2, 3, 4];
    assert_eq!(
        TokenInstruction::unpack(&input),
        Ok(TokenInstruction::BurnChecked { amount: 1, decimals: 2 })
    );
}

#[test]
fn tag_15_cut_short_is_truncated() {
    for short in cut_short(&[15, 0x40, 0x42, 0x0f, 0, 0, 0, 0, 0, 9]) {
        assert_eq!(TokenInstruction::unpack(&short), Err(DecodeError::TruncatedInput));
    }
}

#[test]
fn tag_16_is_initialize_account2() {
    let input = buffer(&[16], &[&key_bytes()]);
    assert_eq!(
        TokenInstruction::unpack(&input),
        Ok(TokenInstruction::InitializeAccount2 { owner: key() })
    );
}

#[test]
fn tag_16_ignores_what_follows() {
    let input = buffer(&[16], &[&key_bytes(), &[1, 2, 3]]);
    assert_eq!(
        TokenInstruction::unpack(&input),
        Ok(TokenInstruction::InitializeAccount2 { owner: key() })
    );
}

#[test]
fn tag_16_cut_short_is_truncated() {
    for short in cut_short(&buffer(&[16], &[&key_bytes()])) {
        assert_eq!(TokenInstruction::unpack(&short), Err(DecodeError::TruncatedInput));
    }
}

#[test]
fn tag_17_is_sync_native() {
    assert_eq!(TokenInstruction::unpack(&[17]), Ok(TokenInstruction::SyncNative));
}

#[test]
fn tag_17_ignores_what_follows() {
    assert_eq!(
        TokenInstruction::unpack(&[17, 0xff, 0x00, 0x7f]),
        Ok(TokenInstruction::SyncNative)
    );
}

#[test]
fn tag_18_is_initialize_account3() {
    let input = buffer(&[18], &[&key_bytes()]);
    assert_eq!(
        TokenInstruction::unpack(&input),
        Ok(TokenInstruction::InitializeAccount3 { owner: key() })
    );
}

#[test]
fn tag_18_ignores_what_follows() {
    let input = buffer(&[18], &[&key_bytes(), &[1, 2, 3]]);
    assert_eq!(
        TokenInstruction::unpack(&input),
        Ok(TokenInstruction::InitializeAccount3 { owner: key() })
    );
}

#[test]
fn tag_18_cut_short_is_truncated() {
    for short in cut_short(&buffer(&[18], &[&key_bytes()])) {
        assert_eq!(TokenInstruction::unpack(&short), Err(DecodeError::TruncatedInput));
    }
}

#[test]
fn tag_19_is_initialize_multisig2() {
    assert_eq!(
        TokenInstruction::unpack(&[19, 3]),
        Ok(TokenInstruction::InitializeMultisig2 { m: 3 })
    );
}

#[test]
fn tag_19_ignores_what_follows() {
    assert_eq!(
        TokenInstruction::unpack(&[19, 11, 0xff]),
        Ok(TokenInstruction::InitializeMultisig2 { m: 11 })
    );
}

#[test]
fn tag_19_cut_short_is_truncated() {
    assert_eq!(TokenInstruction::unpack(&[19]), Err(DecodeError::TruncatedInput));
}

#[test]
fn tag_20_is_initialize_mint2() {
    let input = buffer(&[20, 6], &[&key_bytes(), &[0]]);
    assert_eq!(
        TokenInstruction::unpack(&input),
        Ok(TokenInstruction::InitializeMint2 {
            decimals: 6,
            mint_authority: key(),
            freeze_authority: COption::Absent,
        })
    );
}

#[test]
fn tag_20_with_a_freeze_authority() {
    let input = buffer(&[20, 9], &[&key_bytes(), &[1], &[0x22; 32], &[0xff]]);
    assert_eq!(
        TokenInstruction::unpack(&input),
        Ok(TokenInstruction::InitializeMint2 {
            decimals: 9,
            mint_authority: key(),
            freeze_authority: COption::Present(Pubkey::from([0x22; 32])),
        })
    );
}

#[test]
fn tag_20_cut_short_is_rejected() {
    let input = buffer(&[20, 6], &[&key_bytes(), &[0]]);
    for short in cut_short(&input) {
        let expected = if short.len() == 34 {
            DecodeError::InvalidDiscriminant
        } else {
            DecodeError::TruncatedInput
        };
        assert_eq!(TokenInstruction::unpack(&short), Err(expected));
    }
}

#[test]
fn tag_20_with_a_freeze_authority_cut_short_is_rejected() {
    let input = buffer(&[20, 6], &[&key_bytes(), &[1], &[0x22; 32]]);
    for short in cut_short(&input) {
        let expected = if short.len() == 34 {
            DecodeError::InvalidDiscriminant
        } else {
            DecodeError::TruncatedInput
        };
        assert_eq!(TokenInstruction::unpack(&short), Err(expected));
    }
}

#[test]
fn tag_20_with_a_bad_discriminant_is_invalid() {
    let input = buffer(&[20, 6], &[&key_bytes(), &[2]]);
    assert_eq!(TokenInstruction::unpack(&input), Err(DecodeError::InvalidDiscriminant));
}

#[test]
fn tag_21_is_get_account_data_size() {
    assert_eq!(
        TokenInstruction::unpack(&[21]),
        Ok(TokenInstruction::GetAccountDataSize { extension_types: vec![] })
    );
}

#[test]
fn tag_21_lists_extensions() {
    assert_eq!(
        TokenInstruction::unpack(&[21, 0x01, 0x00, 0x03, 0x00, 0x13, 0x00]),
        Ok(TokenInstruction::GetAccountDataSize {
            extension_types: vec![
                ExtensionType::TransferFeeConfig,
                ExtensionType::MintCloseAuthority,
                ExtensionType::TokenMetadata,
            ],
        })
    );
}

#[test]
fn tag_21_with_half_a_code_is_truncated() {
    assert_eq!(TokenInstruction::unpack(&[21, 0x01]), Err(DecodeError::TruncatedInput));
    assert_eq!(
        TokenInstruction::unpack(&[21, 0x01, 0x00, 0x03]),
        Err(DecodeError::TruncatedInput)
    );
}

#[test]
fn tag_21_with_an_unknown_extension_is_invalid() {
    assert_eq!(
        TokenInstruction::unpack(&[21, 0x01, 0x00, 0x14, 0x00]),
        Err(DecodeError::InvalidEnumCode(20))
    );
    assert_eq!(
        TokenInstruction::unpack(&[21, 0xff, 0xff]),
        Err(DecodeError::InvalidEnumCode(u16::MAX))
    );
}

#[test]
fn tag_22_is_initialize_immutable_owner() {
    assert_eq!(TokenInstruction::unpack(&[22]), Ok(TokenInstruction::InitializeImmutableOwner));
}

#[test]
fn tag_22_ignores_what_follows() {
    assert_eq!(
        TokenInstruction::unpack(&[22, 0xff, 0x00, 0x7f]),
        Ok(TokenInstruction::InitializeImmutableOwner)
    );
}

#[test]
fn tag_23_is_amount_to_ui_amount() {
    let input = [23, 0x15, 0xcd, 0x5b, 0x07, 0, 0, 0, 0];
    assert_eq!(
        TokenInstruction::unpack(&input),
        Ok(TokenInstruction::AmountToUiAmount { amount: 123_456_789 })
    );
}

#[test]
fn tag_23_ignores_what_follows() {
    let input = [23, 0xff, 0xff, 0xff, 0xff, 0xff, 0xff, 0xff, 0xff, 0x01];
    assert_eq!(
        TokenInstruction::unpack(&input),
        Ok(TokenInstruction::AmountToUiAmount { amount: u64::MAX })
    );
}

#[test]
fn tag_23_cut_short_is_truncated() {
    for short in cut_short(&[23, 0x15, 0xcd, 0x5b, 0x07, 0, 0, 0, 0]) {
        assert_eq!(TokenInstruction::unpack(&short), Err(DecodeError::TruncatedInput));
    }
}

#[test]
fn tag_24_is_ui_amount_to_amount() {
    assert_eq!(
        TokenInstruction::unpack(&[24]),
        Ok(TokenInstruction::UiAmountToAmount { ui_amount: "" })
    );
}

#[test]
fn tag_24_reads_text_to_the_end() {
    assert_eq!(
        TokenInstruction::unpack(&[24, b'1', b'2', b'.', b'5']),
        Ok(TokenInstruction::UiAmountToAmount { ui_amount: "12.5" })
    );
}

#[test]
fn tag_24_reads_text_of_several_bytes_per_character() {
    let input = buffer(&[24], &["1\u{a0}000,5 \u{20ac} \u{1f600}".as_bytes()]);
    assert_eq!(
        TokenInstruction::unpack(&input),
        Ok(TokenInstruction::UiAmountToAmount { ui_amount: "1\u{a0}000,5 \u{20ac} \u{1f600}" })
    );
}

#[test]
fn tag_24_borrows_the_text() {
    let input = [24, b'7', b'7'];
    match TokenInstruction::unpack(&input) {
        Ok(TokenInstruction::UiAmountToAmount { ui_amount }) => {
            assert_eq!(ui_amount.as_ptr(), input[1..].as_ptr());
            assert_eq!(ui_amount.len(), 2);
        }
        other => panic!("unexpected result: {:?}", other),
    }
}

#[test]
fn tag_24_with_invalid_text_is_rejected() {
    assert_eq!(
        TokenInstruction::unpack(&[24, 0xff]),
        Err(DecodeError::InvalidTextEncoding)
    );
    assert_eq!(
        TokenInstruction::unpack(&[24, b'1', 0xc3]),
        Err(DecodeError::InvalidTextEncoding)
    );
    assert_eq!(
        TokenInstruction::unpack(&[24, 0xed, 0xa0, 0x80]),
        Err(DecodeError::InvalidTextEncoding)
    );
    assert_eq!(
        TokenInstruction::unpack(&[24, 0xc0, 0x80]),
        Err(DecodeError::InvalidTextEncoding)
    );
}

#[test]
fn tag_25_is_initialize_mint_close_authority() {
    assert_eq!(
        TokenInstruction::unpack(&[25, 0]),
        Ok(TokenInstruction::InitializeMintCloseAuthority { close_authority: COption::Absent })
    );
}

#[test]
fn tag_25_with_a_close_authority() {
    let input = buffer(&[25, 1], &[&key_bytes(), &[0xff]]);
    assert_eq!(
        TokenInstruction::unpack(&input),
        Ok(TokenInstruction::InitializeMintCloseAuthority {
            close_authority: COption::Present(key()),
        })
    );
}

#[test]
fn tag_25_cut_short_is_rejected() {
    assert_eq!(TokenInstruction::unpack(&[25]), Err(DecodeError::InvalidDiscriminant));
    for short in cut_short(&buffer(&[25, 1], &[&key_bytes()])) {
        let expected = if short.len() == 1 {
            DecodeError::InvalidDiscriminant
        } else {
            DecodeError::TruncatedInput
        };
        assert_eq!(TokenInstruction::unpack(&short), Err(expected));
    }
}

#[test]
fn tag_25_with_a_bad_discriminant_is_invalid() {
    assert_eq!(TokenInstruction::unpack(&[25, 2]), Err(DecodeError::InvalidDiscriminant));
}

#[test]
fn tag_26_is_transfer_fee_extension() {
    assert_eq!(
        TokenInstruction::unpack(&[26, 2]),
        Ok(TokenInstruction::TransferFeeExtension(
            TransferFeeInstruction::WithdrawWithheldTokensFromMint
        ))
    );
}

#[test]
fn tag_26_with_transfer_checked_with_fee() {
    let input = [26, 1, 0x10, 0, 0, 0, 0, 0, 0, 0, 6, 0x05, 0, 0, 0, 0, 0, 0, 0];
    assert_eq!(
        TokenInstruction::unpack(&input),
        Ok(TokenInstruction::TransferFeeExtension(
            TransferFeeInstruction::TransferCheckedWithFee { amount: 16, decimals: 6, fee: 5 }
        ))
    );
}

#[test]
fn tag_26_without_a_sub_instruction_is_truncated() {
    assert_eq!(TokenInstruction::unpack(&[26]), Err(DecodeError::TruncatedInput));
}

#[test]
fn tag_26_with_an_unknown_sub_instruction_is_rejected() {
    assert_eq!(TokenInstruction::unpack(&[26, 6]), Err(DecodeError::UnknownTag(6)));
    assert_eq!(TokenInstruction::unpack(&[26, 40]), Err(DecodeError::UnknownTag(40)));
}

#[test]
fn tag_26_cut_short_is_truncated() {
    let input = [26, 1, 0x10, 0, 0, 0, 0, 0, 0, 0, 6, 0x05, 0, 0, 0, 0, 0, 0, 0];
    for short in cut_short(&input) {
        assert_eq!(TokenInstruction::unpack(&short), Err(DecodeError::TruncatedInput));
    }
}

#[test]
fn tag_27_is_confidential_transfer_extension() {
    assert_eq!(
        TokenInstruction::unpack(&[27]),
        Ok(TokenInstruction::ConfidentialTransferExtension)
    );
}

#[test]
fn tag_27_ignores_what_follows() {
    assert_eq!(
        TokenInstruction::unpack(&[27, 0xff, 0x00, 0x7f]),
        Ok(TokenInstruction::ConfidentialTransferExtension)
    );
}

#[test]
fn tag_28_is_default_account_state_extension() {
    assert_eq!(TokenInstruction::unpack(&[28]), Ok(TokenInstruction::DefaultAccountStateExtension));
}

#[test]
fn tag_28_ignores_what_follows() {
    assert_eq!(
        TokenInstruction::unpack(&[28, 0xff, 0x00, 0x7f]),
        Ok(TokenInstruction::DefaultAccountStateExtension)
    );
}

#[test]
fn tag_29_is_reallocate() {
    assert_eq!(
        TokenInstruction::unpack(&[29]),
        Ok(TokenInstruction::Reallocate { extension_types: vec![] })
    );
}

#[test]
fn tag_29_lists_extensions() {
    assert_eq!(
        TokenInstruction::unpack(&[29, 0x01, 0x00, 0x03, 0x00, 0x13, 0x00]),
        Ok(TokenInstruction::Reallocate {
            extension_types: vec![
                ExtensionType::TransferFeeConfig,
                ExtensionType::MintCloseAuthority,
                ExtensionType::TokenMetadata,
            ],
        })
    );
}

#[test]
fn tag_29_with_half_a_code_is_truncated() {
    assert_eq!(TokenInstruction::unpack(&[29, 0x01]), Err(DecodeError::TruncatedInput));
    assert_eq!(
        TokenInstruction::unpack(&[29, 0x01, 0x00, 0x03]),
        Err(DecodeError::TruncatedInput)
    );
}

#[test]
fn tag_29_with_an_unknown_extension_is_invalid() {
    assert_eq!(
        TokenInstruction::unpack(&[29, 0x01, 0x00, 0x14, 0x00]),
        Err(DecodeError::InvalidEnumCode(20))
    );
    assert_eq!(
        TokenInstruction::unpack(&[29, 0xff, 0xff]),
        Err(DecodeError::InvalidEnumCode(u16::MAX))
    );
}

#[test]
fn tag_30_is_memo_transfer_extension() {
    assert_eq!(TokenInstruction::unpack(&[30]), Ok(TokenInstruction::MemoTransferExtension));
}

#[test]
fn tag_30_ignores_what_follows() {
    assert_eq!(
        TokenInstruction::unpack(&[30, 0xff, 0x00, 0x7f]),
        Ok(TokenInstruction::MemoTransferExtension)
    );
}

#[test]
fn tag_31_is_create_native_mint() {
    assert_eq!(TokenInstruction::unpack(&[31]), Ok(TokenInstruction::CreateNativeMint));
}

#[test]
fn tag_31_ignores_what_follows() {
    assert_eq!(
        TokenInstruction::unpack(&[31, 0xff, 0x00, 0x7f]),
        Ok(TokenInstruction::CreateNativeMint)
    );
}

#[test]
fn tag_32_is_initialize_non_transferable_mint() {
    assert_eq!(
        TokenInstruction::unpack(&[32]),
        Ok(TokenInstruction::InitializeNonTransferableMint)
    );
}

#[test]
fn tag_32_ignores_what_follows() {
    assert_eq!(
        TokenInstruction::unpack(&[32, 0xff, 0x00, 0x7f]),
        Ok(TokenInstruction::InitializeNonTransferableMint)
    );
}

#[test]
fn tag_33_is_interest_bearing_mint_extension() {
    assert_eq!(TokenInstruction::unpack(&[33]), Ok(TokenInstruction::InterestBearingMintExtension));
}

#[test]
fn tag_33_ignores_what_follows() {
    assert_eq!(
        TokenInstruction::unpack(&[33, 0xff, 0x00, 0x7f]),
        Ok(TokenInstruction::InterestBearingMintExtension)
    );
}

#[test]
fn tag_34_is_cpi_guard_extension() {
    assert_eq!(TokenInstruction::unpack(&[34]), Ok(TokenInstruction::CpiGuardExtension));
}

#[test]
fn tag_34_ignores_what_follows() {
    assert_eq!(
        TokenInstruction::unpack(&[34, 0xff, 0x00, 0x7f]),
        Ok(TokenInstruction::CpiGuardExtension)
    );
}

#[test]
fn tag_35_is_initialize_permanent_delegate() {
    let input = buffer(&[35], &[&key_bytes()]);
    assert_eq!(
        TokenInstruction::unpack(&input),
        Ok(TokenInstruction::InitializePermanentDelegate { delegate: key() })
    );
}

#[test]
fn tag_35_ignores_what_follows() {
    let input = buffer(&[35], &[&key_bytes(), &[1, 2, 3]]);
    assert_eq!(
        TokenInstruction::unpack(&input),
        Ok(TokenInstruction::InitializePermanentDelegate { delegate: key() })
    );
}

#[test]
fn tag_35_cut_short_is_truncated() {
    for short in cut_short(&buffer(&[35], &[&key_bytes()])) {
        assert_eq!(TokenInstruction::unpack(&short), Err(DecodeError::TruncatedInput));
    }
}

#[test]
fn tag_36_is_transfer_hook_extension() {
    assert_eq!(TokenInstruction::unpack(&[36]), Ok(TokenInstruction::TransferHookExtension));
}

#[test]
fn tag_36_ignores_what_follows() {
    assert_eq!(
        TokenInstruction::unpack(&[36, 0xff, 0x00, 0x7f]),
        Ok(TokenInstruction::TransferHookExtension)
    );
}

#[test]
fn tag_37_is_confidential_transfer_fee_extension() {
    assert_eq!(
        TokenInstruction::unpack(&[37]),
        Ok(TokenInstruction::ConfidentialTransferFeeExtension)
    );
}

#[test]
fn tag_37_ignores_what_follows() {
    assert_eq!(
        TokenInstruction::unpack(&[37, 0xff, 0x00, 0x7f]),
        Ok(TokenInstruction::ConfidentialTransferFeeExtension)
    );
}

#[test]
fn tag_38_is_withdraw_excess_lamports() {
    assert_eq!(TokenInstruction::unpack(&[38]), Ok(TokenInstruction::WithdrawExcessLamports));
}

#[test]
fn tag_38_ignores_what_follows() {
    assert_eq!(
        TokenInstruction::unpack(&[38, 0xff, 0x00, 0x7f]),
        Ok(TokenInstruction::WithdrawExcessLamports)
    );
}

#[test]
fn tag_39_is_metadata_pointer_extension() {
    assert_eq!(TokenInstruction::unpack(&[39]), Ok(TokenInstruction::MetadataPointerExtension));
}

#[test]
fn tag_39_ignores_what_follows() {
    assert_eq!(
        TokenInstruction::unpack(&[39, 0xff, 0x00, 0x7f]),
        Ok(TokenInstruction::MetadataPointerExtension)
    );
}

#[test]
fn empty_buffer_is_truncated() {
    assert_eq!(TokenInstruction::unpack(&[]), Err(DecodeError::TruncatedInput));
}

#[test]
fn tag_40_is_unknown() {
    assert_eq!(TokenInstruction::unpack(&[40]), Err(DecodeError::UnknownTag(40)));
}

#[test]
fn tags_from_40_on_are_unknown() {
    for tag in 40..=255u8 {
        assert_eq!(TokenInstruction::unpack(&[tag]), Err(DecodeError::UnknownTag(tag)));
        assert_eq!(
            TokenInstruction::unpack(&[tag, 0, 1, 2, 3, 4, 5, 6, 7, 8]),
            Err(DecodeError::UnknownTag(tag))
        );
    }
}

#[test]
fn every_tag_below_40_names_an_instruction() {
    // Long enough, and shaped so, that every layout finds its fields:
    // the byte after the tag is a valid sub-tag, authority and discriminant.
    let mut input = vec![0u8; 81];
    for tag in 0..40u8 {
        input[0] = tag;
        input[1] = if tag == 0 || tag == 20 { 6 } else { 0 };
        assert!(TokenInstruction::unpack(&input).is_ok(), "tag {}", tag);
    }
}

#[test]
fn initialize_mint_end_to_end() {
    let mint_authority = [0x42u8; 32];
    let input = buffer(&[0, 6], &[&mint_authority, &[0]]);
    assert_eq!(
        TokenInstruction::unpack(&input),
        Ok(TokenInstruction::InitializeMint {
            decimals: 6,
            mint_authority: Pubkey::from(mint_authority),
            freeze_authority: COption::Absent,
        })
    );
}

#[test]
fn legacy_transfer_end_to_end() {
    let input = [3u8, 0x64, 0, 0, 0, 0, 0, 0, 0];
    assert_eq!(
        TokenInstruction::unpack(&input),
        Ok(TokenInstruction::Transfer { amount: 100 })
    );
}

#[test]
fn transfer_checked_with_fee_end_to_end() {
    let input = [26u8, 1, 0x10, 0, 0, 0, 0, 0, 0, 0, 6, 0x05, 0, 0, 0, 0, 0, 0, 0];
    assert_eq!(
        TokenInstruction::unpack(&input),
        Ok(TokenInstruction::TransferFeeExtension(
            TransferFeeInstruction::TransferCheckedWithFee { amount: 16, decimals: 6, fee: 5 }
        ))
    );
}

#[test]
fn decoding_twice_gives_equal_results() {
    let inputs: Vec<Vec<u8>> = vec![
        vec![],
        vec![3, 0x64, 0, 0, 0, 0, 0, 0, 0],
        vec![3, 0x64],
        vec![6, 13, 0],
        vec![21, 1, 0, 3, 0],
        vec![24, b'4', b'2'],
        vec![24, 0xff],
        vec![25, 2],
        vec![26, 1, 0x10, 0, 0, 0, 0, 0, 0, 0, 6, 0x05, 0, 0, 0, 0, 0, 0, 0],
        vec![99],
        buffer(&[0, 6], &[&key_bytes(), &[1], &key_bytes()]),
    ];
    for input in &inputs {
        let first = TokenInstruction::unpack(input);
        let second = TokenInstruction::unpack(input);
        assert_eq!(first, second);
        let copy = input.clone();
        let third = TokenInstruction::unpack(&copy);
        assert_eq!(first, third);
    }
}
