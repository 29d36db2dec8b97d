use token_program_instructions::error::DecodeError;
use token_program_instructions::option::COption;
use token_program_instructions::pubkey::Pubkey;
use token_program_instructions::transfer_fee_instruction::TransferFeeInstruction;

fn join(parts: &[&[u8]]) -> Vec<u8> {
    let mut bytes = Vec::new();
    for part in parts {
        bytes.extend_from_slice(part);
    }
    bytes
}

/// The configuration with both authorities set, basis points 250 and
/// maximum fee 5000, and its encoding.
fn full_config() -> (TransferFeeInstruction, Vec<u8>) {
    let instruction = TransferFeeInstruction::InitializeTransferFeeConfig {
        transfer_fee_config_authority: COption::Present(Pubkey::from([0x33; 32])),
        withdraw_withheld_authority: COption::Present(Pubkey::from([0x44; 32])),
        transfer_fee_basis_points: 250,
        maximum_fee: 5000,
    };
    let bytes = join(&[
        &[0, 1],
        &[0x33; 32],
        &[1],
        &[0x44; 32],
        &[0xfa, 0x00],
        &[0x88, 0x13, 0, 0, 0, 0, 0, 0],
    ]);
    (instruction, bytes)
}

#[test]
fn sub_tag_0_without_authorities() {
    let input = [0u8, 0, 0, 0x64, 0x00, 0xe8, 0x03, 0, 0, 0, 0, 0, 0];
    let (instruction, rest) = TransferFeeInstruction::unpack(&input).unwrap();
    assert_eq!(
        instruction,
        TransferFeeInstruction::InitializeTransferFeeConfig {
            transfer_fee_config_authority: COption::Absent,
            withdraw_withheld_authority: COption::Absent,
            transfer_fee_basis_points: 100,
            maximum_fee: 1000,
        }
    );
    assert!(rest.is_empty());
}

#[test]
fn sub_tag_0_with_both_authorities() {
    let (instruction, mut input) = full_config();
    input.extend_from_slice(&[0xde, 0xad]);
    assert_eq!(
        TransferFeeInstruction::unpack(&input),
        Ok((instruction, &[0xde, 0xad][..]))
    );
}

#[test]
fn sub_tag_0_with_one_authority() {
    let input = join(&[&[0, 0, 1], &[0x44; 32], &[0xff, 0xff], &[0xff; 8]]);
    assert_eq!(
        TransferFeeInstruction::unpack(&input),
        Ok((
            TransferFeeInstruction::InitializeTransferFeeConfig {
                transfer_fee_config_authority: COption::Absent,
                withdraw_withheld_authority: COption::Present(Pubkey::from([0x44; 32])),
                transfer_fee_basis_points: u16::MAX,
                maximum_fee: u64::MAX,
            },
            &[][..]
        ))
    );
}

#[test]
fn sub_tag_0_cut_short_is_rejected() {
    let (_, input) = full_config();
    for len in 1..input.len() {
        let expected = if len == 1 || len == 34 {
            DecodeError::InvalidDiscriminant
        } else {
            DecodeError::TruncatedInput
        };
        assert_eq!(TransferFeeInstruction::unpack(&input[..len]), Err(expected));
    }
}

#[test]
fn sub_tag_0_without_authorities_cut_short_is_rejected() {
    let input = [0u8, 0, 0, 0x64, 0x00, 0xe8, 0x03, 0, 0, 0, 0, 0, 0];
    for len in 1..input.len() {
        let expected = if len == 1 || len == 2 {
            DecodeError::InvalidDiscriminant
        } else {
            DecodeError::TruncatedInput
        };
        assert_eq!(TransferFeeInstruction::unpack(&input[..len]), Err(expected));
    }
}

#[test]
fn sub_tag_0_with_a_bad_discriminant_is_invalid() {
    assert_eq!(
        TransferFeeInstruction::unpack(&[0, 2]),
        Err(DecodeError::InvalidDiscriminant)
    );
    assert_eq!(
        TransferFeeInstruction::unpack(&[0, 0, 0xff, 0, 0, 0, 0, 0, 0, 0, 0, 0, 0]),
        Err(DecodeError::InvalidDiscriminant)
    );
}

#[test]
fn sub_tag_1_is_transfer_checked_with_fee() {
    let input = [1u8, 0x10, 0, 0, 0, 0, 0, 0, 0, 6, 0x05, 0, 0, 0, 0, 0, 0, 0, 0x99];
    assert_eq!(
        TransferFeeInstruction::unpack(&input),
        Ok((
            TransferFeeInstruction::TransferCheckedWithFee { amount: 16, decimals: 6, fee: 5 },
            &[0x99][..]
        ))
    );
}

#[test]
fn sub_tag_1_cut_short_is_truncated() {
    let input = [1u8, 0x10, 0, 0, 0, 0, 0, 0, 0, 6, 0x05, 0, 0, 0, 0, 0, 0, 0];
    for len in 1..input.len() {
        assert_eq!(
            TransferFeeInstruction::unpack(&input[..len]),
            Err(DecodeError::TruncatedInput)
        );
    }
}

#[test]
fn sub_tag_2_is_withdraw_from_mint() {
    assert_eq!(
        TransferFeeInstruction::unpack(&[2]),
        Ok((TransferFeeInstruction::WithdrawWithheldTokensFromMint, &[][..]))
    );
    assert_eq!(
        TransferFeeInstruction::unpack(&[2, 7, 8]),
        Ok((TransferFeeInstruction::WithdrawWithheldTokensFromMint, &[7, 8][..]))
    );
}

#[test]
fn sub_tag_3_is_withdraw_from_accounts() {
    assert_eq!(
        TransferFeeInstruction::unpack(&[3, 4, 0xaa]),
        Ok((
            TransferFeeInstruction::WithdrawWithheldTokensFromAccounts { num_token_accounts: 4 },
            &[0xaa][..]
        ))
    );
}

#[test]
fn sub_tag_3_without_a_count_is_truncated() {
    assert_eq!(TransferFeeInstruction::unpack(&[3]), Err(DecodeError::TruncatedInput));
}

#[test]
fn sub_tag_4_is_harvest_to_mint() {
    assert_eq!(
        TransferFeeInstruction::unpack(&[4, 1]),
        Ok((TransferFeeInstruction::HarvestWithheldTokensToMint, &[1][..]))
    );
}

#[test]
fn sub_tag_5_is_set_transfer_fee() {
    let input = [5u8, 0x2c, 0x01, 0x00, 0xca, 0x9a, 0x3b, 0, 0, 0, 0];
    assert_eq!(
        TransferFeeInstruction::unpack(&input),
        Ok((
            TransferFeeInstruction::SetTransferFee {
                transfer_fee_basis_points: 300,
                maximum_fee: 1_000_000_000,
            },
            &[][..]
        ))
    );
}

#[test]
fn sub_tag_5_cut_short_is_truncated() {
    let input = [5u8, 0x2c, 0x01, 0x00, 0xca, 0x9a, 0x3b, 0, 0, 0, 0];
    for len in 1..input.len() {
        assert_eq!(
            TransferFeeInstruction::unpack(&input[..len]),
            Err(DecodeError::TruncatedInput)
        );
    }
}

#[test]
fn sub_tags_from_6_on_are_unknown() {
    for tag in 6..=255u8 {
        assert_eq!(
            TransferFeeInstruction::unpack(&[tag, 0, 0, 0]),
            Err(DecodeError::UnknownTag(tag))
        );
    }
}

#[test]
fn sub_instruction_of_nothing_is_truncated() {
    assert_eq!(TransferFeeInstruction::unpack(&[]), Err(DecodeError::TruncatedInput));
}
