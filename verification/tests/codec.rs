//! The byte codecs: instruction buffers and record layouts.

use token_metadata::address::Address;
use token_metadata::instruction::{decode_instruction, MetadataInstruction};
use token_metadata::state::{
    decode_asset_record, decode_state_record, AssetRecord, ProgrammableConfig, StateRecord,
    TokenDelegateRole, TokenStandard, TokenState, ASSET_RECORD_KEY, DISCRIMINATOR_INDEX,
    STATE_RECORD_KEY, TOKEN_STATE_INDEX,
};

fn addr(fill: u8) -> Address {
    Address::new(vec![fill; 32]).unwrap()
}

#[test]
fn instruction_round_trips() {
    let cases = vec![
        MetadataInstruction::Transfer { amount: 10 },
        MetadataInstruction::Mint { amount: 500 },
        MetadataInstruction::Burn { amount: u64::MAX },
        MetadataInstruction::Unlock,
        MetadataInstruction::Lock,
        MetadataInstruction::Update,
        MetadataInstruction::SignMetadata,
        MetadataInstruction::CreateMetadataAccountV3 { is_mutable: true },
        MetadataInstruction::CreateMetadataAccount { is_mutable: false },
        MetadataInstruction::CreateMasterEdition { max_supply: None },
        MetadataInstruction::CreateMasterEditionV3 {
            max_supply: Some(77),
        },
        MetadataInstruction::MintNewEditionFromMasterEditionViaToken { edition: 3 },
        MetadataInstruction::Utilize { number_of_uses: 1 },
        MetadataInstruction::SetCollectionSize { size: 9 },
        MetadataInstruction::TransferOutOfEscrow { amount: 42 },
        MetadataInstruction::DeprecatedCreateMasterEdition,
        MetadataInstruction::ThawDelegatedAccount,
        MetadataInstruction::CloseEscrowAccount,
    ];
    for case in cases {
        let bytes = case.encode();
        assert_eq!(decode_instruction(&bytes), Some(case));
    }
}

#[test]
fn instruction_transfer_layout_is_exact() {
    let bytes = MetadataInstruction::Transfer { amount: 10 }.encode();
    assert_eq!(bytes.len(), 9);
    assert_eq!(bytes[0], 48);
    assert_eq!(&bytes[1..], &[10, 0, 0, 0, 0, 0, 0, 0]);
}

#[test]
fn instruction_amount_is_little_endian() {
    let bytes = MetadataInstruction::Mint { amount: 0x0102_0304_0506_0708 }.encode();
    assert_eq!(bytes.len(), 9);
    assert_eq!(bytes[0], 42);
    assert_eq!(&bytes[1..], &[8, 7, 6, 5, 4, 3, 2, 1]);
}

#[test]
fn malformed_instructions_do_not_decode() {
    // Empty buffer.
    assert_eq!(decode_instruction(&vec![]), None);
    // Unknown tag.
    assert_eq!(decode_instruction(&vec![200]), None);
    // Transfer with a truncated amount.
    assert_eq!(decode_instruction(&vec![48, 1, 2]), None);
    // A unit instruction with trailing bytes.
    assert_eq!(decode_instruction(&vec![7, 0]), None);
    // An optional amount with a bad option tag.
    assert_eq!(decode_instruction(&vec![10, 9]), None);
}

#[test]
fn asset_record_round_trips() {
    let record = AssetRecord {
        update_authority: addr(1),
        name: b"Programmable NFT".to_vec(),
        is_mutable: true,
        token_standard: Some(TokenStandard::ProgrammableNonFungible),
        programmable_config: Some(ProgrammableConfig { rule_set: addr(2) }),
    };
    let bytes = record.encode();
    assert_eq!(bytes[DISCRIMINATOR_INDEX], ASSET_RECORD_KEY);
    let back = decode_asset_record(&bytes).unwrap();
    assert_eq!(back.update_authority, addr(1));
    assert_eq!(back.name, b"Programmable NFT".to_vec());
    assert!(back.is_mutable);
    assert_eq!(back.token_standard, Some(TokenStandard::ProgrammableNonFungible));
    assert_eq!(back.programmable_config.unwrap().rule_set, addr(2));
}

#[test]
fn asset_record_round_trips_bare() {
    let record = AssetRecord {
        update_authority: addr(3),
        name: vec![],
        is_mutable: false,
        token_standard: None,
        programmable_config: None,
    };
    let bytes = record.encode();
    let back = decode_asset_record(&bytes).unwrap();
    assert_eq!(back.update_authority, addr(3));
    assert!(back.name.is_empty());
    assert!(!back.is_mutable);
    assert_eq!(back.token_standard, None);
    assert!(back.programmable_config.is_none());
}

#[test]
fn malformed_asset_records_do_not_decode() {
    // Too short.
    assert!(decode_asset_record(&vec![ASSET_RECORD_KEY; 10]).is_none());
    // Wrong discriminator.
    let good = AssetRecord {
        update_authority: addr(1),
        name: vec![],
        is_mutable: true,
        token_standard: None,
        programmable_config: None,
    }
    .encode();
    let mut wrong_tag = good.clone();
    wrong_tag[0] = STATE_RECORD_KEY;
    assert!(decode_asset_record(&wrong_tag).is_none());
    // A mutability byte that is neither 0 nor 1.
    let mut bad_flag = good.clone();
    bad_flag[33] = 2;
    assert!(decode_asset_record(&bad_flag).is_none());
    // An unknown token-standard tag.
    let mut bad_standard = good.clone();
    bad_standard[34] = 1;
    bad_standard.insert(35, 9);
    assert!(decode_asset_record(&bad_standard).is_none());
    // A truncated name length field.
    let mut truncated = good.clone();
    truncated.truncate(good.len() - 1);
    assert!(decode_asset_record(&truncated).is_none());
    // Trailing garbage.
    let mut trailing = good;
    trailing.push(0);
    assert!(decode_asset_record(&trailing).is_none());
}

#[test]
fn state_record_round_trips() {
    let record = StateRecord {
        bump: 254,
        state: TokenState::Locked,
        delegate: Some(addr(5)),
        delegate_role: Some(TokenDelegateRole::Transfer),
    };
    let bytes = record.encode();
    assert_eq!(bytes[DISCRIMINATOR_INDEX], STATE_RECORD_KEY);
    // The lock guard's fast path reads this byte; it matches the decode.
    assert_eq!(bytes[TOKEN_STATE_INDEX], 1);
    let back = decode_state_record(&bytes).unwrap();
    assert_eq!(back.bump, 254);
    assert_eq!(back.state, TokenState::Locked);
    assert_eq!(back.delegate, Some(addr(5)));
    assert_eq!(back.delegate_role, Some(TokenDelegateRole::Transfer));
}

#[test]
fn state_record_round_trips_bare() {
    let record = StateRecord {
        bump: 0,
        state: TokenState::Unlocked,
        delegate: None,
        delegate_role: None,
    };
    let bytes = record.encode();
    assert_eq!(bytes[TOKEN_STATE_INDEX], 0);
    let back = decode_state_record(&bytes).unwrap();
    assert_eq!(back.state, TokenState::Unlocked);
    assert_eq!(back.delegate, None);
    assert_eq!(back.delegate_role, None);
}

#[test]
fn malformed_state_records_do_not_decode() {
    // Too short.
    assert!(decode_state_record(&vec![STATE_RECORD_KEY, 0, 0]).is_none());
    // An unknown lock-state tag.
    assert!(decode_state_record(&vec![STATE_RECORD_KEY, 0, 7, 0, 0]).is_none());
    // Wrong discriminator.
    assert!(decode_state_record(&vec![ASSET_RECORD_KEY, 0, 0, 0, 0]).is_none());
    // Trailing garbage.
    assert!(decode_state_record(&vec![STATE_RECORD_KEY, 0, 0, 0, 0, 0]).is_none());
}
