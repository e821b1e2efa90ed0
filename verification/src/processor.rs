//! The instruction router.
//!
//! Every request enters here: the raw instruction is decoded, the lock
//! guard vetoes anything but an unlock while a supplied state record is
//! locked, modern instructions go straight to their handler, and legacy
//! instructions are forwarded only after the classifier has shown that
//! no supplied account is a programmable asset record. Nothing here
//! mutates state: the result names the handler the surrounding program
//! must run, or the typed error that aborts the whole instruction.

use vstd::prelude::*;

use crate::account::Account;
use crate::address::Address;
use crate::error::MetadataError;
use crate::instruction::{
    decode_instruction, is_modern, spec_decode_instruction, spec_is_modern, MetadataInstruction,
};
use crate::state::{
    decode_asset_record, spec_decode_asset_record, spec_state_tag, state_tag, TokenStandard,
    TokenState, ASSET_RECORD_KEY, DISCRIMINATOR_INDEX, STATE_RECORD_KEY, TOKEN_STATE_INDEX,
};

verus! {

/// Whether one supplied account is a locked state record of this engine:
/// owned by the engine, non-empty, carrying the state-record
/// discriminator, and holding the locked tag at the lock-state offset.
pub open spec fn spec_entry_locked(program_id: Seq<u8>, e: Option<Account>) -> bool {
    &&& e is Some
    &&& e->0.owner@ == program_id
    &&& e->0.data@.len() > TOKEN_STATE_INDEX
    &&& e->0.data@[DISCRIMINATOR_INDEX as int] == STATE_RECORD_KEY
    &&& e->0.data@[TOKEN_STATE_INDEX as int] == spec_state_tag(TokenState::Locked)
}

/// Whether any supplied account is a locked state record.
pub open spec fn spec_is_locked(program_id: Seq<u8>, accounts: Seq<Option<Account>>) -> bool {
    exists|i: int| 0 <= i < accounts.len() && spec_entry_locked(program_id, #[trigger] accounts[i])
}

/// The lock guard: scans the supplied accounts for a locked state
/// record. It reads the two fixed-offset bytes only, never a full
/// decode, because it runs on every instruction.
pub fn is_locked(program_id: &Address, accounts: &Vec<Option<Account>>) -> (r: bool)
    ensures
        r == spec_is_locked(program_id@, accounts@),
{
    let n = accounts.len();
    let mut i: usize = 0;
    while i < n
        invariant
            n == accounts@.len(),
            i <= n,
            forall|j: int| 0 <= j < i ==> !spec_entry_locked(program_id@, #[trigger] accounts@[j]),
        decreases n - i,
    {
        match &accounts[i] {
            None => {},
            Some(account) => {
                if account.owner.eq_address(program_id) && account.data.len() > TOKEN_STATE_INDEX {
                    let discriminator = account.data[DISCRIMINATOR_INDEX];
                    let lock_byte = account.data[TOKEN_STATE_INDEX];
                    if discriminator == STATE_RECORD_KEY && lock_byte == state_tag(
                        TokenState::Locked,
                    ) {
                        return true;
                    }
                }
            },
        }
        i = i + 1;
    }
    false
}

/// How the classifier answers for one supplied account: an account of
/// another program, a vacant position, an empty account, or one without
/// the asset-record discriminator is simply not programmable; an account
/// that carries the discriminator but does not decode fails closed.
pub open spec fn spec_classify_entry(program_id: Seq<u8>, e: Option<Account>) -> Result<
    bool,
    MetadataError,
> {
    match e {
        None => Ok(false),
        Some(a) => {
            if a.owner@ == program_id && a.data@.len() > 0 && a.data@[DISCRIMINATOR_INDEX as int]
                == ASSET_RECORD_KEY {
                match spec_decode_asset_record(a.data@) {
                    None => Err(MetadataError::MalformedAssetRecord),
                    Some(rec) => Ok(
                        rec.token_standard == Some(TokenStandard::ProgrammableNonFungible),
                    ),
                }
            } else {
                Ok(false)
            }
        },
    }
}

/// The classifier's scan, in account order: the first decode failure
/// aborts, the first programmable asset record answers true.
pub open spec fn spec_scan_programmable(program_id: Seq<u8>, accounts: Seq<Option<Account>>)
    -> Result<bool, MetadataError>
    decreases accounts.len(),
{
    if accounts.len() == 0 {
        Ok(false)
    } else {
        match spec_classify_entry(program_id, accounts[0]) {
            Err(e) => Err(e),
            Ok(true) => Ok(true),
            Ok(false) => spec_scan_programmable(program_id, accounts.drop_first()),
        }
    }
}

fn classify_entry(program_id: &Address, e: &Option<Account>) -> (r: Result<bool, MetadataError>)
    ensures
        r == spec_classify_entry(program_id@, *e),
{
    match e {
        None => Ok(false),
        Some(account) => {
            if account.owner.eq_address(program_id) && account.data.len() > 0
                && account.data[DISCRIMINATOR_INDEX] == ASSET_RECORD_KEY {
                match decode_asset_record(&account.data) {
                    None => Err(MetadataError::MalformedAssetRecord),
                    Some(rec) => Ok(rec.is_programmable()),
                }
            } else {
                Ok(false)
            }
        },
    }
}

/// The classifier: scans the supplied accounts for a programmable asset
/// record of this engine, failing closed on one that carries the
/// asset-record discriminator but does not decode.
pub fn has_programmable_metadata(program_id: &Address, accounts: &Vec<Option<Account>>) -> (r:
    Result<bool, MetadataError>)
    ensures
        r == spec_scan_programmable(program_id@, accounts@),
{
    let n = accounts.len();
    let mut i: usize = 0;
    proof {
        assert(accounts@.skip(0) =~= accounts@);
    }
    while i < n
        invariant
            n == accounts@.len(),
            i <= n,
            spec_scan_programmable(program_id@, accounts@) == spec_scan_programmable(
                program_id@,
                accounts@.skip(i as int),
            ),
        decreases n - i,
    {
        let step = classify_entry(program_id, &accounts[i]);
        proof {
            assert(accounts@.skip(i as int)[0] == accounts@[i as int]);
            assert(accounts@.skip(i as int).drop_first() =~= accounts@.skip(i + 1));
        }
        match step {
            Err(e) => { return Err(e); },
            Ok(true) => { return Ok(true); },
            Ok(false) => {},
        }
        i = i + 1;
    }
    proof {
        assert(accounts@.skip(n as int) =~= Seq::<Option<Account>>::empty());
    }
    Ok(false)
}

/// Law: for an account this engine owns that is non-empty, the
/// classifier answers true exactly when the bytes decode to an asset
/// record whose token standard is the programmable variant; a record
/// that carries the asset-record discriminator but does not decode fails
/// closed, and any other discriminator is not programmable.
pub proof fn lemma_classifier_exact(program_id: Seq<u8>, a: Account)
    requires
        a.owner@ == program_id,
        a.data@.len() > 0,
    ensures
        a.data@[DISCRIMINATOR_INDEX as int] != ASSET_RECORD_KEY ==> spec_classify_entry(
            program_id,
            Some(a),
        ) == Ok::<bool, MetadataError>(false),
        a.data@[DISCRIMINATOR_INDEX as int] == ASSET_RECORD_KEY && spec_decode_asset_record(
            a.data@,
        ) is None ==> spec_classify_entry(program_id, Some(a)) == Err::<bool, MetadataError>(
            MetadataError::MalformedAssetRecord,
        ),
        forall|rec: crate::state::AssetRecordView|
            spec_decode_asset_record(a.data@) == Some(rec) ==> (spec_classify_entry(
                program_id,
                Some(a),
            ) == Ok::<bool, MetadataError>(true) <==> rec.token_standard == Some(
                TokenStandard::ProgrammableNonFungible,
            )),
{
    if spec_decode_asset_record(a.data@) is Some {
        assert(a.data@[DISCRIMINATOR_INDEX as int] == ASSET_RECORD_KEY);
    }
}

/// Where the router sends an admitted instruction.
#[derive(Clone, Copy, Debug, PartialEq, Eq, Structural)]
pub enum Routing {
    /// A modern instruction, dispatched directly to its handler.
    Modern(MetadataInstruction),
    /// A legacy instruction, admitted because no supplied account is a
    /// programmable asset record.
    Legacy(LegacyHandler),
}

/// The handlers of the legacy processor, each carrying the plain values
/// the router forwards to it.
#[derive(Clone, Copy, Debug, PartialEq, Eq, Structural)]
pub enum LegacyHandler {
    CreateMetadataAccounts { is_mutable: bool },
    UpdateMetadataAccounts,
    CreateMetadataAccountsV2 { is_mutable: bool },
    CreateMetadataAccountsV3 { is_mutable: bool },
    UpdateMetadataAccountsV2,
    UpdatePrimarySaleHappenedViaToken,
    SignMetadata,
    RemoveCreatorVerification,
    CreateMasterEdition { max_supply: Option<u64> },
    MintNewEditionFromMasterEditionViaToken { edition: u64 },
    ConvertMasterEditionV1ToV2,
    PuffMetadata,
    VerifyCollection,
    SetAndVerifyCollection,
    UnverifyCollection,
    Utilize { number_of_uses: u64 },
    ApproveUseAuthority { number_of_uses: u64 },
    RevokeUseAuthority,
    ApproveCollectionAuthority,
    RevokeCollectionAuthority,
    FreezeDelegatedAccount,
    ThawDelegatedAccount,
    BurnNft,
    BurnEditionNft,
    VerifySizedCollectionItem,
    SetAndVerifySizedCollectionItem,
    UnverifySizedCollectionItem,
    SetCollectionSize { size: u64 },
    SetTokenStandard,
    BubblegumSetCollectionSize { size: u64 },
    CreateEscrowAccount,
    CloseEscrowAccount,
    TransferOutOfEscrow { amount: u64 },
}

/// Which legacy handler serves an instruction: withdrawn instructions
/// fail with the removal error, and a modern instruction reaching the
/// legacy dispatcher is invalid rather than silently served.
pub open spec fn spec_legacy_route(i: MetadataInstruction) -> Result<LegacyHandler, MetadataError> {
    match i {
        MetadataInstruction::CreateMetadataAccount { is_mutable } => Ok(
            LegacyHandler::CreateMetadataAccounts { is_mutable },
        ),
        MetadataInstruction::UpdateMetadataAccount => Ok(LegacyHandler::UpdateMetadataAccounts),
        MetadataInstruction::CreateMetadataAccountV2 { is_mutable } => Ok(
            LegacyHandler::CreateMetadataAccountsV2 { is_mutable },
        ),
        MetadataInstruction::CreateMetadataAccountV3 { is_mutable } => Ok(
            LegacyHandler::CreateMetadataAccountsV3 { is_mutable },
        ),
        MetadataInstruction::UpdateMetadataAccountV2 => Ok(LegacyHandler::UpdateMetadataAccountsV2),
        MetadataInstruction::DeprecatedCreateMasterEdition => Err(MetadataError::Removed),
        MetadataInstruction::DeprecatedMintNewEditionFromMasterEditionViaPrintingToken => Err(
            MetadataError::Removed,
        ),
        MetadataInstruction::UpdatePrimarySaleHappenedViaToken => Ok(
            LegacyHandler::UpdatePrimarySaleHappenedViaToken,
        ),
        MetadataInstruction::DeprecatedSetReservationList => Err(MetadataError::Removed),
        MetadataInstruction::DeprecatedCreateReservationList => Err(MetadataError::Removed),
        MetadataInstruction::SignMetadata => Ok(LegacyHandler::SignMetadata),
        MetadataInstruction::RemoveCreatorVerification => Ok(
            LegacyHandler::RemoveCreatorVerification,
        ),
        MetadataInstruction::DeprecatedMintPrintingTokensViaToken => Err(MetadataError::Removed),
        MetadataInstruction::DeprecatedMintPrintingTokens => Err(MetadataError::Removed),
        MetadataInstruction::CreateMasterEdition { max_supply } => Ok(
            LegacyHandler::CreateMasterEdition { max_supply },
        ),
        MetadataInstruction::CreateMasterEditionV3 { max_supply } => Ok(
            LegacyHandler::CreateMasterEdition { max_supply },
        ),
        MetadataInstruction::MintNewEditionFromMasterEditionViaToken { edition } => Ok(
            LegacyHandler::MintNewEditionFromMasterEditionViaToken { edition },
        ),
        MetadataInstruction::ConvertMasterEditionV1ToV2 => Ok(
            LegacyHandler::ConvertMasterEditionV1ToV2,
        ),
        MetadataInstruction::MintNewEditionFromMasterEditionViaVaultProxy => Err(
            MetadataError::Removed,
        ),
        MetadataInstruction::PuffMetadata => Ok(LegacyHandler::PuffMetadata),
        MetadataInstruction::VerifyCollection => Ok(LegacyHandler::VerifyCollection),
        MetadataInstruction::SetAndVerifyCollection => Ok(LegacyHandler::SetAndVerifyCollection),
        MetadataInstruction::UnverifyCollection => Ok(LegacyHandler::UnverifyCollection),
        MetadataInstruction::Utilize { number_of_uses } => Ok(
            LegacyHandler::Utilize { number_of_uses },
        ),
        MetadataInstruction::ApproveUseAuthority { number_of_uses } => Ok(
            LegacyHandler::ApproveUseAuthority { number_of_uses },
        ),
        MetadataInstruction::RevokeUseAuthority => Ok(LegacyHandler::RevokeUseAuthority),
        MetadataInstruction::ApproveCollectionAuthority => Ok(
            LegacyHandler::ApproveCollectionAuthority,
        ),
        MetadataInstruction::RevokeCollectionAuthority => Ok(
            LegacyHandler::RevokeCollectionAuthority,
        ),
        MetadataInstruction::FreezeDelegatedAccount => Ok(LegacyHandler::FreezeDelegatedAccount),
        MetadataInstruction::ThawDelegatedAccount => Ok(LegacyHandler::ThawDelegatedAccount),
        MetadataInstruction::BurnNft => Ok(LegacyHandler::BurnNft),
        MetadataInstruction::BurnEditionNft => Ok(LegacyHandler::BurnEditionNft),
        MetadataInstruction::VerifySizedCollectionItem => Ok(
            LegacyHandler::VerifySizedCollectionItem,
        ),
        MetadataInstruction::SetAndVerifySizedCollectionItem => Ok(
            LegacyHandler::SetAndVerifySizedCollectionItem,
        ),
        MetadataInstruction::UnverifySizedCollectionItem => Ok(
            LegacyHandler::UnverifySizedCollectionItem,
        ),
        MetadataInstruction::SetCollectionSize { size } => Ok(
            LegacyHandler::SetCollectionSize { size },
        ),
        MetadataInstruction::SetTokenStandard => Ok(LegacyHandler::SetTokenStandard),
        MetadataInstruction::BubblegumSetCollectionSize { size } => Ok(
            LegacyHandler::BubblegumSetCollectionSize { size },
        ),
        MetadataInstruction::CreateEscrowAccount => Ok(LegacyHandler::CreateEscrowAccount),
        MetadataInstruction::CloseEscrowAccount => Ok(LegacyHandler::CloseEscrowAccount),
        MetadataInstruction::TransferOutOfEscrow { amount } => Ok(
            LegacyHandler::TransferOutOfEscrow { amount },
        ),
        _ => Err(MetadataError::InvalidInstructionData),
    }
}

/// The legacy dispatcher: names the legacy handler that serves the
/// instruction, or the error that withdraws it.
pub fn process_legacy_instruction(instruction: MetadataInstruction) -> (r: Result<
    LegacyHandler,
    MetadataError,
>)
    ensures
        r == spec_legacy_route(instruction),
{
    match instruction {
        MetadataInstruction::CreateMetadataAccount { is_mutable } => Ok(
            LegacyHandler::CreateMetadataAccounts { is_mutable },
        ),
        MetadataInstruction::UpdateMetadataAccount => Ok(LegacyHandler::UpdateMetadataAccounts),
        MetadataInstruction::CreateMetadataAccountV2 { is_mutable } => Ok(
            LegacyHandler::CreateMetadataAccountsV2 { is_mutable },
        ),
        MetadataInstruction::CreateMetadataAccountV3 { is_mutable } => Ok(
            LegacyHandler::CreateMetadataAccountsV3 { is_mutable },
        ),
        MetadataInstruction::UpdateMetadataAccountV2 => Ok(LegacyHandler::UpdateMetadataAccountsV2),
        MetadataInstruction::DeprecatedCreateMasterEdition => Err(MetadataError::Removed),
        MetadataInstruction::DeprecatedMintNewEditionFromMasterEditionViaPrintingToken => Err(
            MetadataError::Removed,
        ),
        MetadataInstruction::UpdatePrimarySaleHappenedViaToken => Ok(
            LegacyHandler::UpdatePrimarySaleHappenedViaToken,
        ),
        MetadataInstruction::DeprecatedSetReservationList => Err(MetadataError::Removed),
        MetadataInstruction::DeprecatedCreateReservationList => Err(MetadataError::Removed),
        MetadataInstruction::SignMetadata => Ok(LegacyHandler::SignMetadata),
        MetadataInstruction::RemoveCreatorVerification => Ok(
            LegacyHandler::RemoveCreatorVerification,
        ),
        MetadataInstruction::DeprecatedMintPrintingTokensViaToken => Err(MetadataError::Removed),
        MetadataInstruction::DeprecatedMintPrintingTokens => Err(MetadataError::Removed),
        MetadataInstruction::CreateMasterEdition { max_supply } => Ok(
            LegacyHandler::CreateMasterEdition { max_supply },
        ),
        MetadataInstruction::CreateMasterEditionV3 { max_supply } => Ok(
            LegacyHandler::CreateMasterEdition { max_supply },
        ),
        MetadataInstruction::MintNewEditionFromMasterEditionViaToken { edition } => Ok(
            LegacyHandler::MintNewEditionFromMasterEditionViaToken { edition },
        ),
        MetadataInstruction::ConvertMasterEditionV1ToV2 => Ok(
            LegacyHandler::ConvertMasterEditionV1ToV2,
        ),
        MetadataInstruction::MintNewEditionFromMasterEditionViaVaultProxy => Err(
            MetadataError::Removed,
        ),
        MetadataInstruction::PuffMetadata => Ok(LegacyHandler::PuffMetadata),
        MetadataInstruction::VerifyCollection => Ok(LegacyHandler::VerifyCollection),
        MetadataInstruction::SetAndVerifyCollection => Ok(LegacyHandler::SetAndVerifyCollection),
        MetadataInstruction::UnverifyCollection => Ok(LegacyHandler::UnverifyCollection),
        MetadataInstruction::Utilize { number_of_uses } => Ok(
            LegacyHandler::Utilize { number_of_uses },
        ),
        MetadataInstruction::ApproveUseAuthority { number_of_uses } => Ok(
            LegacyHandler::ApproveUseAuthority { number_of_uses },
        ),
        MetadataInstruction::RevokeUseAuthority => Ok(LegacyHandler::RevokeUseAuthority),
        MetadataInstruction::ApproveCollectionAuthority => Ok(
            LegacyHandler::ApproveCollectionAuthority,
        ),
        MetadataInstruction::RevokeCollectionAuthority => Ok(
            LegacyHandler::RevokeCollectionAuthority,
        ),
        MetadataInstruction::FreezeDelegatedAccount => Ok(LegacyHandler::FreezeDelegatedAccount),
        MetadataInstruction::ThawDelegatedAccount => Ok(LegacyHandler::ThawDelegatedAccount),
        MetadataInstruction::BurnNft => Ok(LegacyHandler::BurnNft),
        MetadataInstruction::BurnEditionNft => Ok(LegacyHandler::BurnEditionNft),
        MetadataInstruction::VerifySizedCollectionItem => Ok(
            LegacyHandler::VerifySizedCollectionItem,
        ),
        MetadataInstruction::SetAndVerifySizedCollectionItem => Ok(
            LegacyHandler::SetAndVerifySizedCollectionItem,
        ),
        MetadataInstruction::UnverifySizedCollectionItem => Ok(
            LegacyHandler::UnverifySizedCollectionItem,
        ),
        MetadataInstruction::SetCollectionSize { size } => Ok(
            LegacyHandler::SetCollectionSize { size },
        ),
        MetadataInstruction::SetTokenStandard => Ok(LegacyHandler::SetTokenStandard),
        MetadataInstruction::BubblegumSetCollectionSize { size } => Ok(
            LegacyHandler::BubblegumSetCollectionSize { size },
        ),
        MetadataInstruction::CreateEscrowAccount => Ok(LegacyHandler::CreateEscrowAccount),
        MetadataInstruction::CloseEscrowAccount => Ok(LegacyHandler::CloseEscrowAccount),
        MetadataInstruction::TransferOutOfEscrow { amount } => Ok(
            LegacyHandler::TransferOutOfEscrow { amount },
        ),
        _ => Err(MetadataError::InvalidInstructionData),
    }
}

/// The router's whole decision, as one function of its inputs.
pub open spec fn spec_route(
    program_id: Seq<u8>,
    accounts: Seq<Option<Account>>,
    input: Seq<u8>,
) -> Result<Routing, MetadataError> {
    match spec_decode_instruction(input) {
        None => Err(MetadataError::MalformedInstruction),
        Some(i) => {
            if spec_is_locked(program_id, accounts) && !(i is Unlock) {
                Err(MetadataError::LockedToken)
            } else if spec_is_modern(i) {
                Ok(Routing::Modern(i))
            } else {
                match spec_scan_programmable(program_id, accounts) {
                    Err(e) => Err(e),
                    Ok(true) => Err(MetadataError::InstructionNotSupported),
                    Ok(false) => match spec_legacy_route(i) {
                        Ok(h) => Ok(Routing::Legacy(h)),
                        Err(e) => Err(e),
                    },
                }
            }
        },
    }
}

/// The single entry point: decodes the raw instruction, applies the lock
/// guard globally, dispatches modern instructions directly, and forwards
/// a legacy instruction only when no supplied account is a programmable
/// asset record.
///
/// Law: whenever a supplied account is a locked state record and the
/// decoded instruction is not the unlock instruction, the whole request
/// fails with the locked-asset error, whatever the instruction was.
pub fn process_instruction(
    program_id: &Address,
    accounts: &Vec<Option<Account>>,
    input: &Vec<u8>,
) -> (r: Result<Routing, MetadataError>)
    ensures
        r == spec_route(program_id@, accounts@, input@),
        spec_decode_instruction(input@) is None ==> r == Err::<Routing, MetadataError>(
            MetadataError::MalformedInstruction,
        ),
        (spec_decode_instruction(input@) matches Some(i) && spec_is_locked(program_id@, accounts@)
            && !(i is Unlock)) ==> r == Err::<Routing, MetadataError>(MetadataError::LockedToken),
{
    let instruction = match decode_instruction(input) {
        None => { return Err(MetadataError::MalformedInstruction); },
        Some(i) => i,
    };

    let unlock = match instruction {
        MetadataInstruction::Unlock => true,
        _ => false,
    };
    if is_locked(program_id, accounts) && !unlock {
        return Err(MetadataError::LockedToken);
    }

    if is_modern(&instruction) {
        return Ok(Routing::Modern(instruction));
    }

    match has_programmable_metadata(program_id, accounts) {
        Err(e) => Err(e),
        Ok(true) => Err(MetadataError::InstructionNotSupported),
        Ok(false) => match process_legacy_instruction(instruction) {
            Ok(h) => Ok(Routing::Legacy(h)),
            Err(e) => Err(e),
        },
    }
}

} // verus!
