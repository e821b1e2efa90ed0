//! Program-derived addresses.
//!
//! A derived address binds an authority to (engine id, seed components)
//! deterministically, with no private key. The engine never computes the
//! derivation itself; it asks the ledger's derivation function and
//! checks the supplied account against the answer, so a spoofed account
//! fails closed before any signer is used.

use vstd::prelude::*;

use crate::address::Address;
use crate::error::MetadataError;

verus! {

/// What the ledger's address derivation returns for the given seeds and
/// program id: a derived address with its bump seed, or nothing when no
/// bump seed yields a valid address. The result is a deterministic
/// function of the seeds and the program id alone.
pub uninterp spec fn spec_derived_address(seeds: Seq<Seq<u8>>, program_id: Seq<u8>) -> Option<
    (Seq<u8>, u8),
>;

/// The seed views of a seed list.
pub open spec fn spec_seed_views(seeds: Seq<Vec<u8>>) -> Seq<Seq<u8>> {
    seeds.map(|i: int, s: Vec<u8>| s@)
}

/// Relies on solana_program's `Pubkey::try_find_program_address`: the
/// derivation is a deterministic function of the seeds and the program
/// id, a found address is 32 bytes, and no input makes it panic.
#[verifier::external_body]
fn try_find_derived_address(seeds: &Vec<Vec<u8>>, program_id: &Address) -> (r: Option<
    (Address, u8),
>)
    requires
        program_id.wf(),
    ensures
        match r {
            Some(p) => spec_derived_address(spec_seed_views(seeds@), program_id@) == Some(
                (p.0@, p.1),
            ) && p.0.wf(),
            None => spec_derived_address(spec_seed_views(seeds@), program_id@) is None,
        },
{
    let seed_refs: Vec<&[u8]> = seeds.iter().map(|s| s.as_slice()).collect();
    let mut id = [0u8; 32];
    id.copy_from_slice(&program_id.bytes);
    let pid = solana_program::pubkey::Pubkey::new_from_array(id);
    solana_program::pubkey::Pubkey::try_find_program_address(&seed_refs, &pid).map(
        |(addr, bump)| (Address { bytes: addr.to_bytes().to_vec() }, bump),
    )
}

/// Checks that `account` is exactly the address derived from `seeds` for
/// `program_id`, returning the bump seed; anything else is a
/// derivation mismatch.
pub fn assert_derivation(program_id: &Address, account: &Address, seeds: &Vec<Vec<u8>>) -> (r:
    Result<u8, MetadataError>)
    requires
        program_id.wf(),
    ensures
        match r {
            Ok(bump) => spec_derived_address(spec_seed_views(seeds@), program_id@) == Some(
                (account@, bump),
            ),
            Err(e) => e == MetadataError::DerivedKeyInvalid && (match spec_derived_address(
                spec_seed_views(seeds@),
                program_id@,
            ) {
                Some(p) => p.0 != account@,
                None => true,
            }),
        },
{
    match try_find_derived_address(seeds, program_id) {
        Some((derived, bump)) => {
            if derived.eq_address(account) {
                Ok(bump)
            } else {
                Err(MetadataError::DerivedKeyInvalid)
            }
        },
        None => Err(MetadataError::DerivedKeyInvalid),
    }
}

} // verus!
