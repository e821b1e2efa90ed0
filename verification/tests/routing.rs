//! The router: the global lock guard, the classifier, and dispatch.

use token_metadata::account::{
    next_optional_account_info, try_get_account_info, try_get_optional_account_info, Account,
};
use token_metadata::address::Address;
use token_metadata::error::MetadataError;
use token_metadata::instruction::MetadataInstruction;
use token_metadata::processor::{
    has_programmable_metadata, is_locked, process_instruction, process_legacy_instruction,
    LegacyHandler, Routing,
};
use token_metadata::state::{
    AssetRecord, ProgrammableConfig, StateRecord, TokenDelegateRole, TokenStandard, TokenState,
};

fn addr(fill: u8) -> Address {
    Address::new(vec![fill; 32]).unwrap()
}

fn engine() -> Address {
    addr(11)
}

fn locked_record_account() -> Account {
    let record = StateRecord {
        bump: 255,
        state: TokenState::Locked,
        delegate: Some(addr(8)),
        delegate_role: Some(TokenDelegateRole::Sale),
    };
    Account { key: addr(40), owner: engine(), data: record.encode() }
}

fn unlocked_record_account() -> Account {
    let record = StateRecord { bump: 255, state: TokenState::Unlocked, delegate: None, delegate_role: None };
    Account { key: addr(41), owner: engine(), data: record.encode() }
}

fn asset_account(standard: Option<TokenStandard>) -> Account {
    let record = AssetRecord {
        update_authority: addr(1),
        name: b"asset".to_vec(),
        is_mutable: true,
        token_standard: standard,
        programmable_config: Some(ProgrammableConfig { rule_set: addr(2) }),
    };
    Account { key: addr(42), owner: engine(), data: record.encode() }
}

#[test]
fn locked_record_blocks_every_instruction_but_unlock() {
    let accounts = vec![Some(locked_record_account())];
    // A modern instruction is blocked.
    let transfer = MetadataInstruction::Transfer { amount: 10 }.encode();
    assert_eq!(
        process_instruction(&engine(), &accounts, &transfer),
        Err(MetadataError::LockedToken)
    );
    // A legacy instruction is blocked too: the guard is global.
    let legacy = MetadataInstruction::SignMetadata.encode();
    assert_eq!(
        process_instruction(&engine(), &accounts, &legacy),
        Err(MetadataError::LockedToken)
    );
    // Even a withdrawn instruction is blocked before its own error.
    let removed = MetadataInstruction::DeprecatedCreateMasterEdition.encode();
    assert_eq!(
        process_instruction(&engine(), &accounts, &removed),
        Err(MetadataError::LockedToken)
    );
    // Unlock alone goes through.
    let unlock = MetadataInstruction::Unlock.encode();
    assert_eq!(
        process_instruction(&engine(), &accounts, &unlock),
        Ok(Routing::Modern(MetadataInstruction::Unlock))
    );
}

#[test]
fn lock_guard_reads_owner_and_bytes() {
    // Locked record, but owned by another program: ignored.
    let mut foreign = locked_record_account();
    foreign.owner = addr(99);
    assert!(!is_locked(&engine(), &vec![Some(foreign)]));
    // Unlocked record of the engine: not locked.
    assert!(!is_locked(&engine(), &vec![Some(unlocked_record_account())]));
    // Vacant positions and empty accounts: not locked.
    let empty = Account { key: addr(43), owner: engine(), data: vec![] };
    assert!(!is_locked(&engine(), &vec![None, Some(empty)]));
    // A locked record anywhere in the list is found.
    assert!(is_locked(
        &engine(),
        &vec![None, Some(unlocked_record_account()), Some(locked_record_account())]
    ));
}

#[test]
fn modern_instruction_routes_directly() {
    let accounts = vec![Some(asset_account(Some(TokenStandard::ProgrammableNonFungible)))];
    let transfer = MetadataInstruction::Transfer { amount: 10 }.encode();
    assert_eq!(
        process_instruction(&engine(), &accounts, &transfer),
        Ok(Routing::Modern(MetadataInstruction::Transfer { amount: 10 }))
    );
}

#[test]
fn legacy_instruction_rejected_against_programmable_asset() {
    let accounts = vec![Some(asset_account(Some(TokenStandard::ProgrammableNonFungible)))];
    let legacy = MetadataInstruction::SignMetadata.encode();
    assert_eq!(
        process_instruction(&engine(), &accounts, &legacy),
        Err(MetadataError::InstructionNotSupported)
    );
}

#[test]
fn legacy_instruction_forwarded_without_programmable_asset() {
    let accounts = vec![Some(asset_account(Some(TokenStandard::NonFungible)))];
    let legacy = MetadataInstruction::CreateMetadataAccountV3 { is_mutable: true }.encode();
    assert_eq!(
        process_instruction(&engine(), &accounts, &legacy),
        Ok(Routing::Legacy(LegacyHandler::CreateMetadataAccountsV3 { is_mutable: true }))
    );
}

#[test]
fn classifier_ignores_foreign_and_empty_accounts() {
    let mut foreign = asset_account(Some(TokenStandard::ProgrammableNonFungible));
    foreign.owner = addr(99);
    let empty = Account { key: addr(44), owner: engine(), data: vec![] };
    let accounts = vec![Some(foreign), Some(empty), None];
    assert_eq!(has_programmable_metadata(&engine(), &accounts), Ok(false));
}

#[test]
fn classifier_fails_closed_on_malformed_asset_record() {
    let mut account = asset_account(Some(TokenStandard::ProgrammableNonFungible));
    // Corrupt the record behind its discriminator: ambiguity must fail,
    // not pass as "not programmable".
    account.data.truncate(20);
    let accounts = vec![Some(account)];
    assert_eq!(
        has_programmable_metadata(&engine(), &accounts),
        Err(MetadataError::MalformedAssetRecord)
    );
    let legacy = MetadataInstruction::SignMetadata.encode();
    assert_eq!(
        process_instruction(&engine(), &accounts, &legacy),
        Err(MetadataError::MalformedAssetRecord)
    );
}

#[test]
fn classifier_needs_programmable_standard() {
    for standard in [
        None,
        Some(TokenStandard::NonFungible),
        Some(TokenStandard::Fungible),
        Some(TokenStandard::FungibleAsset),
        Some(TokenStandard::NonFungibleEdition),
    ] {
        let accounts = vec![Some(asset_account(standard))];
        assert_eq!(has_programmable_metadata(&engine(), &accounts), Ok(false));
    }
    let accounts = vec![Some(asset_account(Some(TokenStandard::ProgrammableNonFungible)))];
    assert_eq!(has_programmable_metadata(&engine(), &accounts), Ok(true));
}

#[test]
fn malformed_instruction_is_rejected_first() {
    assert_eq!(
        process_instruction(&engine(), &vec![], &vec![]),
        Err(MetadataError::MalformedInstruction)
    );
    assert_eq!(
        process_instruction(&engine(), &vec![], &vec![222]),
        Err(MetadataError::MalformedInstruction)
    );
}

#[test]
fn decoding_precedes_the_lock_guard() {
    // A malformed buffer fails as malformed even while an asset is
    // locked: nothing undecodable reaches the guard or a handler.
    let accounts = vec![Some(locked_record_account())];
    assert_eq!(
        process_instruction(&engine(), &accounts, &vec![222]),
        Err(MetadataError::MalformedInstruction)
    );
}

#[test]
fn withdrawn_legacy_instructions_fail_with_removed() {
    for removed in [
        MetadataInstruction::DeprecatedCreateMasterEdition,
        MetadataInstruction::DeprecatedMintNewEditionFromMasterEditionViaPrintingToken,
        MetadataInstruction::DeprecatedSetReservationList,
        MetadataInstruction::DeprecatedCreateReservationList,
        MetadataInstruction::DeprecatedMintPrintingTokensViaToken,
        MetadataInstruction::DeprecatedMintPrintingTokens,
        MetadataInstruction::MintNewEditionFromMasterEditionViaVaultProxy,
    ] {
        assert_eq!(process_legacy_instruction(removed), Err(MetadataError::Removed));
        let bytes = removed.encode();
        assert_eq!(
            process_instruction(&engine(), &vec![], &bytes),
            Err(MetadataError::Removed)
        );
    }
}

#[test]
fn legacy_dispatch_forwards_plain_values() {
    assert_eq!(
        process_legacy_instruction(MetadataInstruction::Utilize { number_of_uses: 4 }),
        Ok(LegacyHandler::Utilize { number_of_uses: 4 })
    );
    assert_eq!(
        process_legacy_instruction(MetadataInstruction::CreateMasterEditionV3 {
            max_supply: Some(5)
        }),
        Ok(LegacyHandler::CreateMasterEdition { max_supply: Some(5) })
    );
    assert_eq!(
        process_legacy_instruction(MetadataInstruction::TransferOutOfEscrow { amount: 6 }),
        Ok(LegacyHandler::TransferOutOfEscrow { amount: 6 })
    );
    // A modern instruction reaching the legacy dispatcher is invalid.
    assert_eq!(
        process_legacy_instruction(MetadataInstruction::Transfer { amount: 1 }),
        Err(MetadataError::InvalidInstructionData)
    );
}

#[test]
fn positional_accounts_with_first_class_absence() {
    let account = unlocked_record_account();
    let accounts = vec![Some(account), None];

    let got = try_get_account_info(&accounts, 0).unwrap();
    assert_eq!(got.key, addr(41));
    assert_eq!(
        try_get_account_info(&accounts, 1),
        Err(MetadataError::NotEnoughAccountKeys)
    );
    assert_eq!(
        try_get_account_info(&accounts, 2),
        Err(MetadataError::NotEnoughAccountKeys)
    );

    assert!(try_get_optional_account_info(&accounts, 0).unwrap().is_some());
    assert!(try_get_optional_account_info(&accounts, 1).unwrap().is_none());
    assert_eq!(
        try_get_optional_account_info(&accounts, 2),
        Err(MetadataError::NotEnoughAccountKeys)
    );

    let mut cursor = 0;
    assert!(next_optional_account_info(&accounts, &mut cursor).unwrap().is_some());
    assert_eq!(cursor, 1);
    assert!(next_optional_account_info(&accounts, &mut cursor).unwrap().is_none());
    assert_eq!(cursor, 2);
    assert_eq!(
        next_optional_account_info(&accounts, &mut cursor),
        Err(MetadataError::NotEnoughAccountKeys)
    );
    assert_eq!(cursor, 2);
}
