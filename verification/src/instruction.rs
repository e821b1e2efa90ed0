//! The instruction set and its byte decoder.
//!
//! An instruction arrives as a raw byte buffer: a one-byte kind tag
//! followed by the fields the engine itself reads. Argument bundles that
//! only the dispatched handler interprets are left behind the tag as
//! opaque trailing bytes. The kinds form a closed sum type: an
//! unrecognised tag never decodes, so nothing downstream sees it.

use vstd::prelude::*;

use crate::bytes::{from_le, lemma_from_le_bound, lemma_pow256_values, push_le_uint, read_le_uint};

verus! {

/// Every instruction kind the engine recognises, modern and legacy,
/// carrying only the fields the engine itself reads or forwards as
/// plain values.
#[derive(Clone, Copy, Debug, PartialEq, Eq, Structural)]
pub enum MetadataInstruction {
    // The legacy, pre-programmable instruction set.
    CreateMetadataAccount { is_mutable: bool },
    UpdateMetadataAccount,
    DeprecatedCreateMasterEdition,
    DeprecatedMintNewEditionFromMasterEditionViaPrintingToken,
    UpdatePrimarySaleHappenedViaToken,
    DeprecatedSetReservationList,
    DeprecatedCreateReservationList,
    SignMetadata,
    DeprecatedMintPrintingTokensViaToken,
    DeprecatedMintPrintingTokens,
    CreateMasterEdition { max_supply: Option<u64> },
    MintNewEditionFromMasterEditionViaToken { edition: u64 },
    ConvertMasterEditionV1ToV2,
    MintNewEditionFromMasterEditionViaVaultProxy,
    PuffMetadata,
    UpdateMetadataAccountV2,
    CreateMetadataAccountV2 { is_mutable: bool },
    CreateMetadataAccountV3 { is_mutable: bool },
    VerifyCollection,
    Utilize { number_of_uses: u64 },
    ApproveUseAuthority { number_of_uses: u64 },
    RevokeUseAuthority,
    UnverifyCollection,
    ApproveCollectionAuthority,
    RevokeCollectionAuthority,
    SetAndVerifyCollection,
    FreezeDelegatedAccount,
    ThawDelegatedAccount,
    RemoveCreatorVerification,
    BurnNft,
    VerifySizedCollectionItem,
    UnverifySizedCollectionItem,
    SetAndVerifySizedCollectionItem,
    SetCollectionSize { size: u64 },
    SetTokenStandard,
    BubblegumSetCollectionSize { size: u64 },
    BurnEditionNft,
    CreateEscrowAccount,
    CloseEscrowAccount,
    TransferOutOfEscrow { amount: u64 },
    // The modern, programmable-aware instruction set.
    Burn { amount: u64 },
    Create,
    Mint { amount: u64 },
    Delegate,
    Revoke,
    Lock,
    Unlock,
    Migrate,
    Transfer { amount: u64 },
    Update,
    Verify,
    // A late addition to the legacy set, so its tag follows the rest.
    CreateMasterEditionV3 { max_supply: Option<u64> },
}

/// Whether an instruction belongs to the modern, programmable-aware set.
pub open spec fn spec_is_modern(i: MetadataInstruction) -> bool {
    ||| i is Burn
    ||| i is Create
    ||| i is Mint
    ||| i is Delegate
    ||| i is Revoke
    ||| i is Lock
    ||| i is Unlock
    ||| i is Migrate
    ||| i is Transfer
    ||| i is Update
    ||| i is Verify
}

pub fn is_modern(i: &MetadataInstruction) -> (r: bool)
    ensures
        r == spec_is_modern(*i),
{
    match i {
        MetadataInstruction::Burn { .. } => true,
        MetadataInstruction::Create => true,
        MetadataInstruction::Mint { .. } => true,
        MetadataInstruction::Delegate => true,
        MetadataInstruction::Revoke => true,
        MetadataInstruction::Lock => true,
        MetadataInstruction::Unlock => true,
        MetadataInstruction::Migrate => true,
        MetadataInstruction::Transfer { .. } => true,
        MetadataInstruction::Update => true,
        MetadataInstruction::Verify => true,
        _ => false,
    }
}

/// A one-byte flag: only 0 and 1 decode.
pub open spec fn spec_dec_flag(b: Seq<u8>) -> Option<bool> {
    if b.len() >= 2 && (b[1] == 0 || b[1] == 1) {
        Some(b[1] == 1)
    } else {
        None
    }
}

/// An eight-byte little-endian number after the tag.
pub open spec fn spec_dec_u64(b: Seq<u8>) -> Option<u64> {
    if b.len() >= 9 {
        Some(from_le(b.subrange(1, 9)) as u64)
    } else {
        None
    }
}

/// An optional eight-byte number after the tag, exact length.
pub open spec fn spec_dec_opt_u64(b: Seq<u8>) -> Option<Option<u64>> {
    if b.len() < 2 {
        None
    } else if b[1] == 0 {
        if b.len() == 2 {
            Some(None)
        } else {
            None
        }
    } else if b[1] == 1 {
        if b.len() == 10 {
            Some(Some(from_le(b.subrange(2, 10)) as u64))
        } else {
            None
        }
    } else {
        None
    }
}

/// A kind with no fields at all: the tag stands alone.
pub open spec fn spec_dec_unit(b: Seq<u8>) -> bool {
    b.len() == 1
}

fn dec_flag(b: &Vec<u8>) -> (r: Option<bool>)
    requires
        b@.len() >= 1,
    ensures
        r == spec_dec_flag(b@),
{
    if b.len() >= 2 && (b[1] == 0 || b[1] == 1) {
        Some(b[1] == 1)
    } else {
        None
    }
}

fn dec_u64(b: &Vec<u8>) -> (r: Option<u64>)
    requires
        b@.len() >= 1,
    ensures
        r == spec_dec_u64(b@),
{
    if b.len() >= 9 {
        let v = read_le_uint(b, 1, 8);
        proof {
            lemma_from_le_bound(b@.subrange(1, 9));
            lemma_pow256_values();
        }
        Some(v)
    } else {
        None
    }
}

fn dec_opt_u64(b: &Vec<u8>) -> (r: Option<Option<u64>>)
    requires
        b@.len() >= 1,
    ensures
        r == spec_dec_opt_u64(b@),
{
    if b.len() < 2 {
        None
    } else if b[1] == 0 {
        if b.len() == 2 {
            Some(None)
        } else {
            None
        }
    } else if b[1] == 1 {
        if b.len() == 10 {
            let v = read_le_uint(b, 2, 8);
            proof {
                lemma_from_le_bound(b@.subrange(2, 10));
                lemma_pow256_values();
            }
            Some(Some(v))
        } else {
            None
        }
    } else {
        None
    }
}

/// Decodes a raw instruction buffer; `None` is a malformed instruction.
pub open spec fn spec_decode_instruction(b: Seq<u8>) -> Option<MetadataInstruction> {
    if b.len() < 1 {
        None
    } else {
        let t = b[0];
        if t == 0 {
            match spec_dec_flag(b) {
                Some(m) => Some(MetadataInstruction::CreateMetadataAccount { is_mutable: m }),
                None => None,
            }
        } else if t == 1 {
            Some(MetadataInstruction::UpdateMetadataAccount)
        } else if t == 2 {
            Some(MetadataInstruction::DeprecatedCreateMasterEdition)
        } else if t == 3 {
            if spec_dec_unit(b) {
                Some(MetadataInstruction::DeprecatedMintNewEditionFromMasterEditionViaPrintingToken)
            } else {
                None
            }
        } else if t == 4 {
            if spec_dec_unit(b) {
                Some(MetadataInstruction::UpdatePrimarySaleHappenedViaToken)
            } else {
                None
            }
        } else if t == 5 {
            Some(MetadataInstruction::DeprecatedSetReservationList)
        } else if t == 6 {
            if spec_dec_unit(b) {
                Some(MetadataInstruction::DeprecatedCreateReservationList)
            } else {
                None
            }
        } else if t == 7 {
            if spec_dec_unit(b) {
                Some(MetadataInstruction::SignMetadata)
            } else {
                None
            }
        } else if t == 8 {
            Some(MetadataInstruction::DeprecatedMintPrintingTokensViaToken)
        } else if t == 9 {
            Some(MetadataInstruction::DeprecatedMintPrintingTokens)
        } else if t == 10 {
            match spec_dec_opt_u64(b) {
                Some(ms) => Some(MetadataInstruction::CreateMasterEdition { max_supply: ms }),
                None => None,
            }
        } else if t == 11 {
            match spec_dec_u64(b) {
                Some(v) => Some(
                    MetadataInstruction::MintNewEditionFromMasterEditionViaToken { edition: v },
                ),
                None => None,
            }
        } else if t == 12 {
            if spec_dec_unit(b) {
                Some(MetadataInstruction::ConvertMasterEditionV1ToV2)
            } else {
                None
            }
        } else if t == 13 {
            Some(MetadataInstruction::MintNewEditionFromMasterEditionViaVaultProxy)
        } else if t == 14 {
            if spec_dec_unit(b) {
                Some(MetadataInstruction::PuffMetadata)
            } else {
                None
            }
        } else if t == 15 {
            Some(MetadataInstruction::UpdateMetadataAccountV2)
        } else if t == 16 {
            match spec_dec_flag(b) {
                Some(m) => Some(MetadataInstruction::CreateMetadataAccountV2 { is_mutable: m }),
                None => None,
            }
        } else if t == 17 {
            match spec_dec_flag(b) {
                Some(m) => Some(MetadataInstruction::CreateMetadataAccountV3 { is_mutable: m }),
                None => None,
            }
        } else if t == 18 {
            if spec_dec_unit(b) {
                Some(MetadataInstruction::VerifyCollection)
            } else {
                None
            }
        } else if t == 19 {
            match spec_dec_u64(b) {
                Some(v) => Some(MetadataInstruction::Utilize { number_of_uses: v }),
                None => None,
            }
        } else if t == 20 {
            match spec_dec_u64(b) {
                Some(v) => Some(MetadataInstruction::ApproveUseAuthority { number_of_uses: v }),
                None => None,
            }
        } else if t == 21 {
            if spec_dec_unit(b) {
                Some(MetadataInstruction::RevokeUseAuthority)
            } else {
                None
            }
        } else if t == 22 {
            if spec_dec_unit(b) {
                Some(MetadataInstruction::UnverifyCollection)
            } else {
                None
            }
        } else if t == 23 {
            if spec_dec_unit(b) {
                Some(MetadataInstruction::ApproveCollectionAuthority)
            } else {
                None
            }
        } else if t == 24 {
            if spec_dec_unit(b) {
                Some(MetadataInstruction::RevokeCollectionAuthority)
            } else {
                None
            }
        } else if t == 25 {
            if spec_dec_unit(b) {
                Some(MetadataInstruction::SetAndVerifyCollection)
            } else {
                None
            }
        } else if t == 26 {
            if spec_dec_unit(b) {
                Some(MetadataInstruction::FreezeDelegatedAccount)
            } else {
                None
            }
        } else if t == 27 {
            if spec_dec_unit(b) {
                Some(MetadataInstruction::ThawDelegatedAccount)
            } else {
                None
            }
        } else if t == 28 {
            if spec_dec_unit(b) {
                Some(MetadataInstruction::RemoveCreatorVerification)
            } else {
                None
            }
        } else if t == 29 {
            if spec_dec_unit(b) {
                Some(MetadataInstruction::BurnNft)
            } else {
                None
            }
        } else if t == 30 {
            if spec_dec_unit(b) {
                Some(MetadataInstruction::VerifySizedCollectionItem)
            } else {
                None
            }
        } else if t == 31 {
            if spec_dec_unit(b) {
                Some(MetadataInstruction::UnverifySizedCollectionItem)
            } else {
                None
            }
        } else if t == 32 {
            if spec_dec_unit(b) {
                Some(MetadataInstruction::SetAndVerifySizedCollectionItem)
            } else {
                None
            }
        } else if t == 33 {
            match spec_dec_u64(b) {
                Some(v) => Some(MetadataInstruction::SetCollectionSize { size: v }),
                None => None,
            }
        } else if t == 34 {
            if spec_dec_unit(b) {
                Some(MetadataInstruction::SetTokenStandard)
            } else {
                None
            }
        } else if t == 35 {
            match spec_dec_u64(b) {
                Some(v) => Some(MetadataInstruction::BubblegumSetCollectionSize { size: v }),
                None => None,
            }
        } else if t == 36 {
            if spec_dec_unit(b) {
                Some(MetadataInstruction::BurnEditionNft)
            } else {
                None
            }
        } else if t == 37 {
            if spec_dec_unit(b) {
                Some(MetadataInstruction::CreateEscrowAccount)
            } else {
                None
            }
        } else if t == 38 {
            if spec_dec_unit(b) {
                Some(MetadataInstruction::CloseEscrowAccount)
            } else {
                None
            }
        } else if t == 39 {
            match spec_dec_u64(b) {
                Some(v) => Some(MetadataInstruction::TransferOutOfEscrow { amount: v }),
                None => None,
            }
        } else if t == 40 {
            match spec_dec_u64(b) {
                Some(v) => Some(MetadataInstruction::Burn { amount: v }),
                None => None,
            }
        } else if t == 41 {
            Some(MetadataInstruction::Create)
        } else if t == 42 {
            match spec_dec_u64(b) {
                Some(v) => Some(MetadataInstruction::Mint { amount: v }),
                None => None,
            }
        } else if t == 43 {
            Some(MetadataInstruction::Delegate)
        } else if t == 44 {
            Some(MetadataInstruction::Revoke)
        } else if t == 45 {
            Some(MetadataInstruction::Lock)
        } else if t == 46 {
            Some(MetadataInstruction::Unlock)
        } else if t == 47 {
            Some(MetadataInstruction::Migrate)
        } else if t == 48 {
            match spec_dec_u64(b) {
                Some(v) => Some(MetadataInstruction::Transfer { amount: v }),
                None => None,
            }
        } else if t == 49 {
            Some(MetadataInstruction::Update)
        } else if t == 50 {
            Some(MetadataInstruction::Verify)
        } else if t == 51 {
            match spec_dec_opt_u64(b) {
                Some(ms) => Some(MetadataInstruction::CreateMasterEditionV3 { max_supply: ms }),
                None => None,
            }
        } else {
            None
        }
    }
}

/// Decodes a raw instruction buffer; `None` is a malformed instruction.
pub fn decode_instruction(b: &Vec<u8>) -> (r: Option<MetadataInstruction>)
    ensures
        r == spec_decode_instruction(b@),
{
    if b.len() < 1 {
        return None;
    }
    let t = b[0];
    if t == 0 {
        match dec_flag(b) {
            Some(m) => Some(MetadataInstruction::CreateMetadataAccount { is_mutable: m }),
            None => None,
        }
    } else if t == 1 {
        Some(MetadataInstruction::UpdateMetadataAccount)
    } else if t == 2 {
        Some(MetadataInstruction::DeprecatedCreateMasterEdition)
    } else if t == 3 {
        if b.len() == 1 {
            Some(MetadataInstruction::DeprecatedMintNewEditionFromMasterEditionViaPrintingToken)
        } else {
            None
        }
    } else if t == 4 {
        if b.len() == 1 {
            Some(MetadataInstruction::UpdatePrimarySaleHappenedViaToken)
        } else {
            None
        }
    } else if t == 5 {
        Some(MetadataInstruction::DeprecatedSetReservationList)
    } else if t == 6 {
        if b.len() == 1 {
            Some(MetadataInstruction::DeprecatedCreateReservationList)
        } else {
            None
        }
    } else if t == 7 {
        if b.len() == 1 {
            Some(MetadataInstruction::SignMetadata)
        } else {
            None
        }
    } else if t == 8 {
        Some(MetadataInstruction::DeprecatedMintPrintingTokensViaToken)
    } else if t == 9 {
        Some(MetadataInstruction::DeprecatedMintPrintingTokens)
    } else if t == 10 {
        match dec_opt_u64(b) {
            Some(ms) => Some(MetadataInstruction::CreateMasterEdition { max_supply: ms }),
            None => None,
        }
    } else if t == 11 {
        match dec_u64(b) {
            Some(v) => Some(MetadataInstruction::MintNewEditionFromMasterEditionViaToken {
                edition: v,
            }),
            None => None,
        }
    } else if t == 12 {
        if b.len() == 1 {
            Some(MetadataInstruction::ConvertMasterEditionV1ToV2)
        } else {
            None
        }
    } else if t == 13 {
        Some(MetadataInstruction::MintNewEditionFromMasterEditionViaVaultProxy)
    } else if t == 14 {
        if b.len() == 1 {
            Some(MetadataInstruction::PuffMetadata)
        } else {
            None
        }
    } else if t == 15 {
        Some(MetadataInstruction::UpdateMetadataAccountV2)
    } else if t == 16 {
        match dec_flag(b) {
            Some(m) => Some(MetadataInstruction::CreateMetadataAccountV2 { is_mutable: m }),
            None => None,
        }
    } else if t == 17 {
        match dec_flag(b) {
            Some(m) => Some(MetadataInstruction::CreateMetadataAccountV3 { is_mutable: m }),
            None => None,
        }
    } else if t == 18 {
        if b.len() == 1 {
            Some(MetadataInstruction::VerifyCollection)
        } else {
            None
        }
    } else if t == 19 {
        match dec_u64(b) {
            Some(v) => Some(MetadataInstruction::Utilize { number_of_uses: v }),
            None => None,
        }
    } else if t == 20 {
        match dec_u64(b) {
            Some(v) => Some(MetadataInstruction::ApproveUseAuthority { number_of_uses: v }),
            None => None,
        }
    } else if t == 21 {
        if b.len() == 1 {
            Some(MetadataInstruction::RevokeUseAuthority)
        } else {
            None
        }
    } else if t == 22 {
        if b.len() == 1 {
            Some(MetadataInstruction::UnverifyCollection)
        } else {
            None
        }
    } else if t == 23 {
        if b.len() == 1 {
            Some(MetadataInstruction::ApproveCollectionAuthority)
        } else {
            None
        }
    } else if t == 24 {
        if b.len() == 1 {
            Some(MetadataInstruction::RevokeCollectionAuthority)
        } else {
            None
        }
    } else if t == 25 {
        if b.len() == 1 {
            Some(MetadataInstruction::SetAndVerifyCollection)
        } else {
            None
        }
    } else if t == 26 {
        if b.len() == 1 {
            Some(MetadataInstruction::FreezeDelegatedAccount)
        } else {
            None
        }
    } else if t == 27 {
        if b.len() == 1 {
            Some(MetadataInstruction::ThawDelegatedAccount)
        } else {
            None
        }
    } else if t == 28 {
        if b.len() == 1 {
            Some(MetadataInstruction::RemoveCreatorVerification)
        } else {
            None
        }
    } else if t == 29 {
        if b.len() == 1 {
            Some(MetadataInstruction::BurnNft)
        } else {
            None
        }
    } else if t == 30 {
        if b.len() == 1 {
            Some(MetadataInstruction::VerifySizedCollectionItem)
        } else {
            None
        }
    } else if t == 31 {
        if b.len() == 1 {
            Some(MetadataInstruction::UnverifySizedCollectionItem)
        } else {
            None
        }
    } else if t == 32 {
        if b.len() == 1 {
            Some(MetadataInstruction::SetAndVerifySizedCollectionItem)
        } else {
            None
        }
    } else if t == 33 {
        match dec_u64(b) {
            Some(v) => Some(MetadataInstruction::SetCollectionSize { size: v }),
            None => None,
        }
    } else if t == 34 {
        if b.len() == 1 {
            Some(MetadataInstruction::SetTokenStandard)
        } else {
            None
        }
    } else if t == 35 {
        match dec_u64(b) {
            Some(v) => Some(MetadataInstruction::BubblegumSetCollectionSize { size: v }),
            None => None,
        }
    } else if t == 36 {
        if b.len() == 1 {
            Some(MetadataInstruction::BurnEditionNft)
        } else {
            None
        }
    } else if t == 37 {
        if b.len() == 1 {
            Some(MetadataInstruction::CreateEscrowAccount)
        } else {
            None
        }
    } else if t == 38 {
        if b.len() == 1 {
            Some(MetadataInstruction::CloseEscrowAccount)
        } else {
            None
        }
    } else if t == 39 {
        match dec_u64(b) {
            Some(v) => Some(MetadataInstruction::TransferOutOfEscrow { amount: v }),
            None => None,
        }
    } else if t == 40 {
        match dec_u64(b) {
            Some(v) => Some(MetadataInstruction::Burn { amount: v }),
            None => None,
        }
    } else if t == 41 {
        Some(MetadataInstruction::Create)
    } else if t == 42 {
        match dec_u64(b) {
            Some(v) => Some(MetadataInstruction::Mint { amount: v }),
            None => None,
        }
    } else if t == 43 {
        Some(MetadataInstruction::Delegate)
    } else if t == 44 {
        Some(MetadataInstruction::Revoke)
    } else if t == 45 {
        Some(MetadataInstruction::Lock)
    } else if t == 46 {
        Some(MetadataInstruction::Unlock)
    } else if t == 47 {
        Some(MetadataInstruction::Migrate)
    } else if t == 48 {
        match dec_u64(b) {
            Some(v) => Some(MetadataInstruction::Transfer { amount: v }),
            None => None,
        }
    } else if t == 49 {
        Some(MetadataInstruction::Update)
    } else if t == 50 {
        Some(MetadataInstruction::Verify)
    } else if t == 51 {
        match dec_opt_u64(b) {
            Some(ms) => Some(MetadataInstruction::CreateMasterEditionV3 { max_supply: ms }),
            None => None,
        }
    } else {
        None
    }
}

fn enc_unit(tag: u8) -> (out: Vec<u8>)
    ensures
        out@ =~= seq![tag],
{
    let mut out: Vec<u8> = Vec::new();
    out.push(tag);
    out
}

fn enc_u64(tag: u8, v: u64) -> (out: Vec<u8>)
    ensures
        out@.len() == 9,
        out@[0] == tag,
        from_le(out@.subrange(1, 9)) == v,
{
    let mut out: Vec<u8> = Vec::new();
    out.push(tag);
    push_le_uint(&mut out, v, 8);
    proof {
        lemma_pow256_values();
        lemma_le_round_trip_u64(v);
        assert(out@.subrange(1, 9) =~= crate::bytes::le_bytes(v as int, 8));
    }
    out
}

fn enc_flag(tag: u8, m: bool) -> (out: Vec<u8>)
    ensures
        out@ =~= seq![tag, (if m { 1u8 } else { 0u8 })],
{
    let mut out: Vec<u8> = Vec::new();
    out.push(tag);
    out.push(if m {
        1
    } else {
        0
    });
    out
}

fn enc_opt_u64(tag: u8, v: Option<u64>) -> (out: Vec<u8>)
    ensures
        out@[0] == tag,
        spec_dec_opt_u64(out@) == Some(v),
{
    let mut out: Vec<u8> = Vec::new();
    out.push(tag);
    match v {
        None => {
            out.push(0);
        },
        Some(x) => {
            out.push(1);
            push_le_uint(&mut out, x, 8);
            proof {
                lemma_pow256_values();
                lemma_le_round_trip_u64(x);
                assert(out@.subrange(2, 10) =~= crate::bytes::le_bytes(x as int, 8));
            }
        },
    }
    out
}

proof fn lemma_le_round_trip_u64(v: u64)
    ensures
        from_le(crate::bytes::le_bytes(v as int, 8)) == v,
        crate::bytes::le_bytes(v as int, 8).len() == 8,
{
    lemma_pow256_values();
    crate::bytes::lemma_le_round_trip(v as int, 8);
    crate::bytes::lemma_le_bytes_len(v as int, 8);
}

impl MetadataInstruction {
    /// Serialises the instruction; the bytes decode back to it.
    pub fn encode(&self) -> (out: Vec<u8>)
        ensures
            spec_decode_instruction(out@) == Some(*self),
    {
        match self {
            MetadataInstruction::CreateMetadataAccount { is_mutable } => enc_flag(0, *is_mutable),
            MetadataInstruction::UpdateMetadataAccount => enc_unit(1),
            MetadataInstruction::DeprecatedCreateMasterEdition => enc_unit(2),
            MetadataInstruction::DeprecatedMintNewEditionFromMasterEditionViaPrintingToken => enc_unit(
                3,
            ),
            MetadataInstruction::UpdatePrimarySaleHappenedViaToken => enc_unit(4),
            MetadataInstruction::DeprecatedSetReservationList => enc_unit(5),
            MetadataInstruction::DeprecatedCreateReservationList => enc_unit(6),
            MetadataInstruction::SignMetadata => enc_unit(7),
            MetadataInstruction::DeprecatedMintPrintingTokensViaToken => enc_unit(8),
            MetadataInstruction::DeprecatedMintPrintingTokens => enc_unit(9),
            MetadataInstruction::CreateMasterEdition { max_supply } => enc_opt_u64(10, *max_supply),
            MetadataInstruction::MintNewEditionFromMasterEditionViaToken { edition } => enc_u64(
                11,
                *edition,
            ),
            MetadataInstruction::ConvertMasterEditionV1ToV2 => enc_unit(12),
            MetadataInstruction::MintNewEditionFromMasterEditionViaVaultProxy => enc_unit(13),
            MetadataInstruction::PuffMetadata => enc_unit(14),
            MetadataInstruction::UpdateMetadataAccountV2 => enc_unit(15),
            MetadataInstruction::CreateMetadataAccountV2 { is_mutable } => enc_flag(
                16,
                *is_mutable,
            ),
            MetadataInstruction::CreateMetadataAccountV3 { is_mutable } => enc_flag(
                17,
                *is_mutable,
            ),
            MetadataInstruction::VerifyCollection => enc_unit(18),
            MetadataInstruction::Utilize { number_of_uses } => enc_u64(19, *number_of_uses),
            MetadataInstruction::ApproveUseAuthority { number_of_uses } => enc_u64(
                20,
                *number_of_uses,
            ),
            MetadataInstruction::RevokeUseAuthority => enc_unit(21),
            MetadataInstruction::UnverifyCollection => enc_unit(22),
            MetadataInstruction::ApproveCollectionAuthority => enc_unit(23),
            MetadataInstruction::RevokeCollectionAuthority => enc_unit(24),
            MetadataInstruction::SetAndVerifyCollection => enc_unit(25),
            MetadataInstruction::FreezeDelegatedAccount => enc_unit(26),
            MetadataInstruction::ThawDelegatedAccount => enc_unit(27),
            MetadataInstruction::RemoveCreatorVerification => enc_unit(28),
            MetadataInstruction::BurnNft => enc_unit(29),
            MetadataInstruction::VerifySizedCollectionItem => enc_unit(30),
            MetadataInstruction::UnverifySizedCollectionItem => enc_unit(31),
            MetadataInstruction::SetAndVerifySizedCollectionItem => enc_unit(32),
            MetadataInstruction::SetCollectionSize { size } => enc_u64(33, *size),
            MetadataInstruction::SetTokenStandard => enc_unit(34),
            MetadataInstruction::BubblegumSetCollectionSize { size } => enc_u64(35, *size),
            MetadataInstruction::BurnEditionNft => enc_unit(36),
            MetadataInstruction::CreateEscrowAccount => enc_unit(37),
            MetadataInstruction::CloseEscrowAccount => enc_unit(38),
            MetadataInstruction::TransferOutOfEscrow { amount } => enc_u64(39, *amount),
            MetadataInstruction::Burn { amount } => enc_u64(40, *amount),
            MetadataInstruction::Create => enc_unit(41),
            MetadataInstruction::Mint { amount } => enc_u64(42, *amount),
            MetadataInstruction::Delegate => enc_unit(43),
            MetadataInstruction::Revoke => enc_unit(44),
            MetadataInstruction::Lock => enc_unit(45),
            MetadataInstruction::Unlock => enc_unit(46),
            MetadataInstruction::Migrate => enc_unit(47),
            MetadataInstruction::Transfer { amount } => enc_u64(48, *amount),
            MetadataInstruction::Update => enc_unit(49),
            MetadataInstruction::Verify => enc_unit(50),
            MetadataInstruction::CreateMasterEditionV3 { max_supply } => enc_opt_u64(
                51,
                *max_supply,
            ),
        }
    }
}

} // verus!
