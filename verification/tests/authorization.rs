//! The policy oracle client and the payload it assembles.

use token_metadata::address::Address;
use token_metadata::error::MetadataError;
use token_metadata::oracle::{
    assert_valid_authorization, auth_rules_validate, validate, AuthRulesValidateParams, Operation,
};
use token_metadata::payload::{AuthorizationData, Payload, PayloadKey, PayloadValue};
use token_metadata::state::ProgrammableConfig;

fn addr(fill: u8) -> Address {
    Address::new(vec![fill; 32]).unwrap()
}

fn transfer_params(
    config: Option<ProgrammableConfig>,
    auth_rules: Option<Address>,
) -> AuthRulesValidateParams {
    AuthRulesValidateParams {
        mint: addr(1),
        target: Some(addr(2)),
        authority: Some(addr(3)),
        owner: Some(addr(4)),
        programmable_config: config,
        amount: 10,
        auth_data: None,
        auth_rules,
        operation: Operation::Transfer,
    }
}

#[test]
fn no_programmable_config_authorizes_trivially() {
    // A transfer of amount 10 against an asset with no programmable
    // configuration succeeds outright: no oracle call is assembled.
    let params = transfer_params(None, None);
    assert!(matches!(auth_rules_validate(params), Ok(None)));
}

#[test]
fn mismatched_rule_set_fails_before_any_payload() {
    // The asset configures rule set addr(7); the caller supplies a
    // different account.
    let config = ProgrammableConfig { rule_set: addr(7) };
    let params = transfer_params(Some(config), Some(addr(8)));
    assert!(matches!(
        auth_rules_validate(params),
        Err(MetadataError::InvalidAuthorizationRules)
    ));
}

#[test]
fn missing_rule_set_account_fails() {
    let config = ProgrammableConfig { rule_set: addr(7) };
    let params = transfer_params(Some(config), None);
    assert!(matches!(
        auth_rules_validate(params),
        Err(MetadataError::InvalidAuthorizationRules)
    ));
}

#[test]
fn transfer_payload_holds_exactly_the_three_facts() {
    let config = ProgrammableConfig { rule_set: addr(7) };
    let params = transfer_params(Some(config), Some(addr(7)));
    let req = auth_rules_validate(params).unwrap().unwrap();

    assert_eq!(req.rule_set, addr(7));
    assert_eq!(req.mint, addr(1));
    assert_eq!(req.operation, Operation::Transfer);
    assert!(!req.update_rule_state);
    // Target, authority, then the holder.
    assert_eq!(req.additional_accounts, vec![addr(2), addr(3), addr(4)]);

    assert_eq!(req.payload.len(), 3);
    assert!(matches!(
        req.payload.get(PayloadKey::Amount),
        Some(PayloadValue::Number(10))
    ));
    match req.payload.get(PayloadKey::Target) {
        Some(PayloadValue::Pubkey(k)) => assert_eq!(*k, addr(2)),
        other => panic!("target fact missing: {:?}", other),
    }
    match req.payload.get(PayloadKey::Authority) {
        Some(PayloadValue::Pubkey(k)) => assert_eq!(*k, addr(3)),
        other => panic!("authority fact missing: {:?}", other),
    }
    assert!(req.payload.get(PayloadKey::Holder).is_none());
}

#[test]
fn caller_facts_are_kept_and_overridden() {
    let mut payload = Payload::new();
    payload.insert(PayloadKey::Holder, PayloadValue::Pubkey(addr(9)));
    // A stale amount the caller supplied; the operation's own value wins.
    payload.insert(PayloadKey::Amount, PayloadValue::Number(999));
    let config = ProgrammableConfig { rule_set: addr(7) };
    let mut params = transfer_params(Some(config), Some(addr(7)));
    params.auth_data = Some(AuthorizationData::new(payload));

    let req = auth_rules_validate(params).unwrap().unwrap();
    assert_eq!(req.payload.len(), 4);
    assert!(matches!(
        req.payload.get(PayloadKey::Amount),
        Some(PayloadValue::Number(10))
    ));
    match req.payload.get(PayloadKey::Holder) {
        Some(PayloadValue::Pubkey(k)) => assert_eq!(*k, addr(9)),
        other => panic!("holder fact missing: {:?}", other),
    }
}

#[test]
fn transfer_without_target_or_authority_is_invalid() {
    let config = ProgrammableConfig { rule_set: addr(7) };
    let mut no_target = transfer_params(Some(config.clone()), Some(addr(7)));
    no_target.target = None;
    assert!(matches!(
        auth_rules_validate(no_target),
        Err(MetadataError::InvalidOperation)
    ));

    let mut no_authority = transfer_params(Some(config), Some(addr(7)));
    no_authority.authority = None;
    assert!(matches!(
        auth_rules_validate(no_authority),
        Err(MetadataError::InvalidOperation)
    ));
}

#[test]
fn other_operations_are_rejected_in_this_version() {
    for operation in [Operation::Delegate, Operation::Sale] {
        let config = ProgrammableConfig { rule_set: addr(7) };
        let mut params = transfer_params(Some(config), Some(addr(7)));
        params.operation = operation;
        assert!(matches!(
            auth_rules_validate(params),
            Err(MetadataError::InvalidOperation)
        ));
    }
}

#[test]
fn owner_is_optional_in_additional_accounts() {
    let config = ProgrammableConfig { rule_set: addr(7) };
    let mut params = transfer_params(Some(config), Some(addr(7)));
    params.owner = None;
    let req = auth_rules_validate(params).unwrap().unwrap();
    assert_eq!(req.additional_accounts, vec![addr(2), addr(3)]);
}

#[test]
fn assert_valid_authorization_checks_presence_and_identity() {
    let config = ProgrammableConfig { rule_set: addr(7) };
    assert!(assert_valid_authorization(Some(&addr(7)), &config).is_ok());
    assert_eq!(
        assert_valid_authorization(Some(&addr(8)), &config),
        Err(MetadataError::InvalidAuthorizationRules)
    );
    assert_eq!(
        assert_valid_authorization(None, &config),
        Err(MetadataError::InvalidAuthorizationRules)
    );
}

#[test]
fn validate_assembles_the_request_verbatim() {
    let mut payload = Payload::new();
    payload.insert(PayloadKey::Amount, PayloadValue::Number(5));
    let data = AuthorizationData::new(payload);
    let req = validate(&addr(7), Operation::Transfer, &addr(1), vec![addr(2)], data);
    assert_eq!(req.rule_set, addr(7));
    assert_eq!(req.mint, addr(1));
    assert_eq!(req.additional_accounts, vec![addr(2)]);
    assert_eq!(req.operation, Operation::Transfer);
    assert!(!req.update_rule_state);
    assert!(matches!(
        req.payload.get(PayloadKey::Amount),
        Some(PayloadValue::Number(5))
    ));
}

#[test]
fn payload_insert_and_get() {
    let mut payload = Payload::new();
    assert_eq!(payload.len(), 0);
    assert!(payload.get(PayloadKey::Amount).is_none());
    payload.insert(PayloadKey::Amount, PayloadValue::Number(1));
    payload.insert(PayloadKey::Target, PayloadValue::Pubkey(addr(1)));
    assert_eq!(payload.len(), 2);
    payload.insert(PayloadKey::Amount, PayloadValue::Number(2));
    assert_eq!(payload.len(), 2);
    assert!(matches!(
        payload.get(PayloadKey::Amount),
        Some(PayloadValue::Number(2))
    ));
    let data = AuthorizationData::new_empty();
    assert_eq!(data.payload.len(), 0);
}
