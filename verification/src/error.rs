//! The typed failures that abort an instruction.
//!
//! Every failure aborts the whole instruction: there is no local recovery,
//! no partial commit and no retry. Checks fail closed, so malformed or
//! ambiguous state surfaces as an error rather than as a default answer.

use vstd::prelude::*;

verus! {

/// One typed error code per invocation.
#[derive(Clone, Copy, Debug, PartialEq, Eq, Structural)]
pub enum MetadataError {
    /// The raw instruction bytes do not decode to any known instruction.
    MalformedInstruction,
    /// A supplied state record is locked and the instruction is not Unlock.
    LockedToken,
    /// A legacy instruction was requested against a programmable asset.
    InstructionNotSupported,
    /// An account carries the asset-record tag but its bytes do not decode.
    MalformedAssetRecord,
    /// A required account is missing from the account list.
    NotEnoughAccountKeys,
    /// A legacy instruction that this engine has withdrawn.
    Removed,
    /// An instruction reached the legacy dispatcher that it cannot serve.
    InvalidInstructionData,
    /// The supplied rule-set account is absent or does not match the
    /// configured rule set.
    InvalidAuthorizationRules,
    /// The operation kind is unsupported, or a fact it requires is missing.
    InvalidOperation,
    /// No edition account was supplied where one anchors the derived signer.
    MissingEditionAccount,
    /// A supplied account does not match its expected derived address.
    DerivedKeyInvalid,
}

} // verus!
