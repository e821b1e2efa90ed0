//! The freeze/thaw transitioner and the derivation check that guards it.

use token_metadata::address::Address;
use token_metadata::derivation::assert_derivation;
use token_metadata::error::MetadataError;
use token_metadata::transition::{
    edition_seeds, freeze, frozen_transfer, thaw, TokenLedgerAction, TokenTransferParams,
};

use solana_program::pubkey::Pubkey;

fn addr(fill: u8) -> Address {
    Address::new(vec![fill; 32]).unwrap()
}

fn engine() -> Address {
    addr(11)
}

/// The edition address the ledger derives for a mint, computed directly
/// with the outside derivation function, together with its bump seed.
fn derived_edition(program_fill: u8, mint_fill: u8) -> (Address, u8) {
    let pid = Pubkey::new_from_array([program_fill; 32]);
    let mint = Pubkey::new_from_array([mint_fill; 32]);
    let (edition, bump) = Pubkey::find_program_address(
        &[b"metadata", pid.as_ref(), mint.as_ref(), b"edition"],
        &pid,
    );
    (Address::new(edition.to_bytes().to_vec()).unwrap(), bump)
}

fn transfer_params() -> TokenTransferParams {
    TokenTransferParams {
        mint: addr(9),
        source: addr(21),
        destination: addr(22),
        amount: 10,
        authority: addr(23),
        token_program: addr(24),
    }
}

#[test]
fn derivation_check_accepts_the_derived_address_only() {
    let (edition, bump) = derived_edition(11, 9);
    let seeds = edition_seeds(&engine(), &addr(9));
    // The true derived address passes and yields the ledger's bump seed.
    assert_eq!(assert_derivation(&engine(), &edition, &seeds), Ok(bump));
    // Any other account fails the check. Were the derivation wrapper
    // merely echoing its input, this address would pass too.
    assert_eq!(
        assert_derivation(&engine(), &addr(50), &seeds),
        Err(MetadataError::DerivedKeyInvalid)
    );
}

#[test]
fn freeze_and_thaw_need_the_derived_edition() {
    let (edition, bump) = derived_edition(11, 9);
    match freeze(&engine(), &addr(9), &addr(21), &edition, &addr(24)) {
        Ok(TokenLedgerAction::Freeze { mint, token, edition: e, token_program, bump: b }) => {
            assert_eq!(mint, addr(9));
            assert_eq!(token, addr(21));
            assert_eq!(e, edition);
            assert_eq!(token_program, addr(24));
            assert_eq!(b, bump);
        },
        other => panic!("freeze was not planned: {:?}", fmt(&other)),
    }
    match thaw(&engine(), &addr(9), &addr(21), &edition, &addr(24)) {
        Ok(TokenLedgerAction::Thaw { bump: b, .. }) => assert_eq!(b, bump),
        other => panic!("thaw was not planned: {:?}", fmt(&other)),
    }
}

#[test]
fn wrong_edition_account_plans_no_ledger_call() {
    // An edition account that is not the derived address fails the
    // derivation check; no token-ledger mutation is planned.
    let r = freeze(&engine(), &addr(9), &addr(21), &addr(50), &addr(24));
    assert!(matches!(r, Err(MetadataError::DerivedKeyInvalid)));
    let r = thaw(&engine(), &addr(9), &addr(21), &addr(50), &addr(24));
    assert!(matches!(r, Err(MetadataError::DerivedKeyInvalid)));
    let r = frozen_transfer(transfer_params(), Some(&addr(50)), &engine());
    assert!(matches!(r, Err(MetadataError::DerivedKeyInvalid)));
}

#[test]
fn missing_edition_account_is_rejected_first() {
    let r = frozen_transfer(transfer_params(), None, &engine());
    assert!(matches!(r, Err(MetadataError::MissingEditionAccount)));
}

#[test]
fn frozen_transfer_plans_thaw_transfer_freeze() {
    let (edition, bump) = derived_edition(11, 9);
    let plan = frozen_transfer(transfer_params(), Some(&edition), &engine()).unwrap();
    assert_eq!(plan.len(), 3);
    match &plan[0] {
        TokenLedgerAction::Thaw { mint, token, edition: e, token_program, bump: b } => {
            assert_eq!(*mint, addr(9));
            assert_eq!(*token, addr(21));
            assert_eq!(*e, edition);
            assert_eq!(*token_program, addr(24));
            assert_eq!(*b, bump);
        },
        _ => panic!("the plan does not start with a thaw"),
    }
    match &plan[1] {
        TokenLedgerAction::Transfer { mint, source, destination, authority, token_program, amount } => {
            assert_eq!(*mint, addr(9));
            assert_eq!(*source, addr(21));
            assert_eq!(*destination, addr(22));
            assert_eq!(*authority, addr(23));
            assert_eq!(*token_program, addr(24));
            assert_eq!(*amount, 10);
        },
        _ => panic!("the plan does not transfer second"),
    }
    match &plan[2] {
        TokenLedgerAction::Freeze { token, bump: b, .. } => {
            assert_eq!(*token, addr(21));
            assert_eq!(*b, bump);
        },
        _ => panic!("the plan does not end with a freeze"),
    }
}

/// A tiny shape description, since the action type prints nothing.
fn fmt(r: &Result<TokenLedgerAction, MetadataError>) -> String {
    match r {
        Ok(TokenLedgerAction::Thaw { .. }) => "thaw".to_string(),
        Ok(TokenLedgerAction::Freeze { .. }) => "freeze".to_string(),
        Ok(TokenLedgerAction::Transfer { .. }) => "transfer".to_string(),
        Err(e) => format!("{:?}", e),
    }
}
