//! The engine's view of the accounts supplied with a request.
//!
//! An account is borrowed state: an address, the owning program and the
//! raw record bytes. The account list is positional, and a position may
//! be explicitly vacant; absence is a first-class value rather than a
//! sentinel address.

use vstd::prelude::*;

use crate::address::Address;
use crate::error::MetadataError;

verus! {

/// One account as supplied with a request: its address, the program that
/// owns it, and its record bytes.
#[derive(Debug, PartialEq, Eq)]
pub struct Account {
    pub key: Address,
    pub owner: Address,
    pub data: Vec<u8>,
}

/// The mathematical image of an [`Account`].
pub ghost struct AccountView {
    pub key: Seq<u8>,
    pub owner: Seq<u8>,
    pub data: Seq<u8>,
}

impl View for Account {
    type V = AccountView;

    open spec fn view(&self) -> AccountView {
        AccountView { key: self.key@, owner: self.owner@, data: self.data@ }
    }
}

/// Returns the account at `index`, where a vacant position is `Ok(None)`
/// and an index past the end of the list is an error.
pub fn try_get_optional_account_info<'a>(
    accounts: &'a Vec<Option<Account>>,
    index: usize,
) -> (r: Result<Option<&'a Account>, MetadataError>)
    ensures
        match r {
            Ok(Some(a)) => index < accounts@.len() && accounts@[index as int] == Some(*a),
            Ok(None) => index < accounts@.len() && accounts@[index as int] is None,
            Err(e) => e == MetadataError::NotEnoughAccountKeys && index >= accounts@.len(),
        },
{
    if index < accounts.len() {
        Ok(accounts[index].as_ref())
    } else {
        Err(MetadataError::NotEnoughAccountKeys)
    }
}

/// Returns the account at `index`, treating both a vacant position and an
/// index past the end of the list as a missing account.
pub fn try_get_account_info<'a>(
    accounts: &'a Vec<Option<Account>>,
    index: usize,
) -> (r: Result<&'a Account, MetadataError>)
    ensures
        match r {
            Ok(a) => index < accounts@.len() && accounts@[index as int] == Some(*a),
            Err(e) => e == MetadataError::NotEnoughAccountKeys && (index >= accounts@.len()
                || accounts@[index as int] is None),
        },
{
    match try_get_optional_account_info(accounts, index)? {
        Some(account) => Ok(account),
        None => Err(MetadataError::NotEnoughAccountKeys),
    }
}

/// Advances the cursor past the next position and returns what it held,
/// `Ok(None)` for a vacant position; an exhausted list is an error.
pub fn next_optional_account_info<'a>(
    accounts: &'a Vec<Option<Account>>,
    cursor: &mut usize,
) -> (r: Result<Option<&'a Account>, MetadataError>)
    ensures
        match r {
            Ok(Some(a)) => *old(cursor) < accounts@.len()
                && accounts@[*old(cursor) as int] == Some(*a)
                && *final(cursor) == *old(cursor) + 1,
            Ok(None) => *old(cursor) < accounts@.len()
                && accounts@[*old(cursor) as int] is None
                && *final(cursor) == *old(cursor) + 1,
            Err(e) => e == MetadataError::NotEnoughAccountKeys
                && *old(cursor) >= accounts@.len() && *final(cursor) == *old(cursor),
        },
{
    if *cursor < accounts.len() {
        let entry = accounts[*cursor].as_ref();
        *cursor = *cursor + 1;
        Ok(entry)
    } else {
        Err(MetadataError::NotEnoughAccountKeys)
    }
}

} // verus!
