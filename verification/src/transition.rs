//! The freeze/thaw transitioner.
//!
//! A programmable asset's holder account is kept in the held state; the
//! sanctioned transfer path thaws it, moves the balance, and freezes it
//! again within one atomic instruction, authorized by a program-derived
//! signer scoped to (engine, asset mint, edition suffix). This module
//! validates the edition account against its expected derivation and
//! plans the exact sequence of ledger calls; the surrounding program
//! performs them in order and aborts the instruction on the first
//! failure.

use vstd::prelude::*;

use crate::address::Address;
use crate::derivation::{assert_derivation, spec_derived_address, spec_seed_views};
use crate::error::MetadataError;

verus! {

/// The seed prefix every record of this engine derives under: the ASCII
/// bytes of "metadata".
pub open spec fn spec_seed_prefix() -> Seq<u8> {
    seq![109u8, 101u8, 116u8, 97u8, 100u8, 97u8, 116u8, 97u8]
}

/// The seed suffix scoping the derived signer to the edition: the ASCII
/// bytes of "edition".
pub open spec fn spec_edition_suffix() -> Seq<u8> {
    seq![101u8, 100u8, 105u8, 116u8, 105u8, 111u8, 110u8]
}

/// The seeds of the edition account derived for `mint` under the engine.
pub open spec fn spec_edition_seeds(program_id: Seq<u8>, mint: Seq<u8>) -> Seq<Seq<u8>> {
    seq![spec_seed_prefix(), program_id, mint, spec_edition_suffix()]
}

fn seed_prefix() -> (r: Vec<u8>)
    ensures
        r@ == spec_seed_prefix(),
{
    let mut r: Vec<u8> = Vec::new();
    r.push(109);
    r.push(101);
    r.push(116);
    r.push(97);
    r.push(100);
    r.push(97);
    r.push(116);
    r.push(97);
    proof {
        assert(r@ =~= spec_seed_prefix());
    }
    r
}

fn edition_suffix() -> (r: Vec<u8>)
    ensures
        r@ == spec_edition_suffix(),
{
    let mut r: Vec<u8> = Vec::new();
    r.push(101);
    r.push(100);
    r.push(105);
    r.push(116);
    r.push(105);
    r.push(111);
    r.push(110);
    proof {
        assert(r@ =~= spec_edition_suffix());
    }
    r
}

/// Builds the edition derivation seeds for `mint`.
pub fn edition_seeds(program_id: &Address, mint: &Address) -> (r: Vec<Vec<u8>>)
    ensures
        spec_seed_views(r@) == spec_edition_seeds(program_id@, mint@),
{
    let mut r: Vec<Vec<u8>> = Vec::new();
    r.push(seed_prefix());
    r.push(crate::address::clone_bytes(&program_id.bytes));
    r.push(crate::address::clone_bytes(&mint.bytes));
    r.push(edition_suffix());
    proof {
        assert(spec_seed_views(r@) =~= spec_edition_seeds(program_id@, mint@));
    }
    r
}

/// One call into the token ledger, ready to be performed.
pub enum TokenLedgerAction {
    /// Thaw `token` for `mint`, signed by the derived edition signer.
    Thaw { mint: Address, token: Address, edition: Address, token_program: Address, bump: u8 },
    /// Freeze `token` for `mint`, signed by the derived edition signer.
    Freeze { mint: Address, token: Address, edition: Address, token_program: Address, bump: u8 },
    /// Move `amount` of `mint` from `source` to `destination`.
    Transfer {
        mint: Address,
        source: Address,
        destination: Address,
        authority: Address,
        token_program: Address,
        amount: u64,
    },
}

/// Whether the edition account is the one derived for `mint`, with
/// `bump` its bump seed.
pub open spec fn spec_edition_checked(
    program_id: Seq<u8>,
    mint: Seq<u8>,
    edition: Seq<u8>,
    bump: u8,
) -> bool {
    spec_derived_address(spec_edition_seeds(program_id, mint), program_id) == Some((edition, bump))
}

/// Whether the supplied edition account fails the derivation check.
pub open spec fn spec_edition_mismatch(program_id: Seq<u8>, mint: Seq<u8>, edition: Seq<u8>) -> bool {
    match spec_derived_address(spec_edition_seeds(program_id, mint), program_id) {
        Some(p) => p.0 != edition,
        None => true,
    }
}

/// Plans a freeze of `token`: the edition account must match its
/// expected derived address, or nothing is done.
pub fn freeze(
    program_id: &Address,
    mint: &Address,
    token: &Address,
    edition: &Address,
    token_program: &Address,
) -> (r: Result<TokenLedgerAction, MetadataError>)
    requires
        program_id.wf(),
    ensures
        match r {
            Ok(a) => a matches TokenLedgerAction::Freeze { mint: m, token: t, edition: e, token_program: p, bump }
                && m@ == mint@ && t@ == token@ && e@ == edition@ && p@ == token_program@
                && spec_edition_checked(program_id@, mint@, edition@, bump),
            Err(e) => e == MetadataError::DerivedKeyInvalid && spec_edition_mismatch(
                program_id@,
                mint@,
                edition@,
            ),
        },
{
    let seeds = edition_seeds(program_id, mint);
    let bump = match assert_derivation(program_id, edition, &seeds) {
        Ok(bump) => bump,
        Err(e) => { return Err(e); },
    };
    Ok(
        TokenLedgerAction::Freeze {
            mint: mint.clone(),
            token: token.clone(),
            edition: edition.clone(),
            token_program: token_program.clone(),
            bump,
        },
    )
}

/// Plans a thaw of `token`: the edition account must match its expected
/// derived address, or nothing is done.
pub fn thaw(
    program_id: &Address,
    mint: &Address,
    token: &Address,
    edition: &Address,
    token_program: &Address,
) -> (r: Result<TokenLedgerAction, MetadataError>)
    requires
        program_id.wf(),
    ensures
        match r {
            Ok(a) => a matches TokenLedgerAction::Thaw { mint: m, token: t, edition: e, token_program: p, bump }
                && m@ == mint@ && t@ == token@ && e@ == edition@ && p@ == token_program@
                && spec_edition_checked(program_id@, mint@, edition@, bump),
            Err(e) => e == MetadataError::DerivedKeyInvalid && spec_edition_mismatch(
                program_id@,
                mint@,
                edition@,
            ),
        },
{
    let seeds = edition_seeds(program_id, mint);
    let bump = match assert_derivation(program_id, edition, &seeds) {
        Ok(bump) => bump,
        Err(e) => { return Err(e); },
    };
    Ok(
        TokenLedgerAction::Thaw {
            mint: mint.clone(),
            token: token.clone(),
            edition: edition.clone(),
            token_program: token_program.clone(),
            bump,
        },
    )
}

/// What one balance transfer needs from the token ledger.
pub struct TokenTransferParams {
    /// The asset mint.
    pub mint: Address,
    /// The holder account the balance leaves.
    pub source: Address,
    /// The account the balance arrives at.
    pub destination: Address,
    /// The amount to move.
    pub amount: u64,
    /// The authority signing the transfer.
    pub authority: Address,
    /// The token ledger program.
    pub token_program: Address,
}

/// Plans a transfer that bypasses the held state: thaw the source, move
/// the balance, freeze the source again, all under the same derived
/// signer. An absent edition account is rejected before anything else,
/// and a derivation mismatch plans no ledger call at all.
pub fn frozen_transfer(params: TokenTransferParams, edition_opt: Option<&Address>, program_id: &Address)
    -> (r: Result<Vec<TokenLedgerAction>, MetadataError>)
    requires
        program_id.wf(),
    ensures
        edition_opt is None ==> r == Err::<Vec<TokenLedgerAction>, MetadataError>(
            MetadataError::MissingEditionAccount,
        ),
        edition_opt matches Some(e) && spec_edition_mismatch(program_id@, params.mint@, e@) ==> r
            == Err::<Vec<TokenLedgerAction>, MetadataError>(MetadataError::DerivedKeyInvalid),
        edition_opt matches Some(e) && !spec_edition_mismatch(program_id@, params.mint@, e@) ==> r
            is Ok,
        match r {
            Ok(plan) => {
                &&& edition_opt is Some
                &&& plan@.len() == 3
                &&& spec_is_frozen_transfer_plan(plan@)
                &&& (plan@[0] matches TokenLedgerAction::Thaw { mint, token, edition, token_program, bump }
                    && mint@ == params.mint@ && token@ == params.source@
                    && edition@ == edition_opt->0@ && token_program@ == params.token_program@
                    && spec_edition_checked(program_id@, params.mint@, edition@, bump))
                &&& (plan@[1] matches TokenLedgerAction::Transfer { mint, source, destination, authority, token_program, amount }
                    && mint@ == params.mint@ && source@ == params.source@ && destination@
                    == params.destination@
                    && authority@ == params.authority@ && token_program@ == params.token_program@
                    && amount == params.amount)
                &&& (plan@[2] matches TokenLedgerAction::Freeze { mint, token, edition, token_program, bump }
                    && mint@ == params.mint@ && token@ == params.source@
                    && edition@ == edition_opt->0@ && token_program@ == params.token_program@
                    && spec_edition_checked(program_id@, params.mint@, edition@, bump))
            },
            Err(e) => e == MetadataError::MissingEditionAccount || e
                == MetadataError::DerivedKeyInvalid,
        },
{
    let master_edition = match edition_opt {
        None => { return Err(MetadataError::MissingEditionAccount); },
        Some(e) => e,
    };

    let thaw_action = match thaw(
        program_id,
        &params.mint,
        &params.source,
        master_edition,
        &params.token_program,
    ) {
        Ok(a) => a,
        Err(e) => { return Err(e); },
    };

    let transfer_action = TokenLedgerAction::Transfer {
        mint: params.mint.clone(),
        source: params.source.clone(),
        destination: params.destination.clone(),
        authority: params.authority.clone(),
        token_program: params.token_program.clone(),
        amount: params.amount,
    };

    let freeze_action = match freeze(
        program_id,
        &params.mint,
        &params.source,
        master_edition,
        &params.token_program,
    ) {
        Ok(a) => a,
        Err(e) => { return Err(e); },
    };

    let mut plan: Vec<TokenLedgerAction> = Vec::new();
    plan.push(thaw_action);
    plan.push(transfer_action);
    plan.push(freeze_action);
    Ok(plan)
}

/// The two states a holder account can be in.
#[derive(Clone, Copy, Debug, PartialEq, Eq, Structural)]
pub enum HolderState {
    /// Frozen: no path can move the balance.
    Held,
    /// Thawed: the balance can move.
    Spendable,
}

/// How the token ledger answers one action: the state after it, or
/// nothing when the ledger rejects the call (thawing a spendable
/// account, freezing a held one, or transferring from a held one).
pub open spec fn spec_apply_action(s: HolderState, a: TokenLedgerAction) -> Option<HolderState> {
    match a {
        TokenLedgerAction::Thaw { .. } => if s is Held {
            Some(HolderState::Spendable)
        } else {
            None
        },
        TokenLedgerAction::Freeze { .. } => if s is Spendable {
            Some(HolderState::Held)
        } else {
            None
        },
        TokenLedgerAction::Transfer { .. } => if s is Spendable {
            Some(HolderState::Spendable)
        } else {
            None
        },
    }
}

/// The states visited after each action of a plan, or nothing when the
/// ledger rejects one of the calls.
pub open spec fn spec_run_plan(s: HolderState, actions: Seq<TokenLedgerAction>) -> Option<
    Seq<HolderState>,
>
    decreases actions.len(),
{
    if actions.len() == 0 {
        Some(Seq::empty())
    } else {
        match spec_apply_action(s, actions[0]) {
            None => None,
            Some(s1) => match spec_run_plan(s1, actions.drop_first()) {
                None => None,
                Some(t) => Some(seq![s1] + t),
            },
        }
    }
}

/// The shape every plan of [`frozen_transfer`] has: thaw, transfer,
/// freeze, in that order.
pub open spec fn spec_is_frozen_transfer_plan(p: Seq<TokenLedgerAction>) -> bool {
    &&& p.len() == 3
    &&& p[0] is Thaw
    &&& p[1] is Transfer
    &&& p[2] is Freeze
}

/// Law: starting from a held account, a frozen-transfer plan runs to
/// completion, ends held, and is spendable only across the underlying
/// transfer call.
pub proof fn lemma_frozen_transfer_trace(p: Seq<TokenLedgerAction>)
    requires
        spec_is_frozen_transfer_plan(p),
    ensures
        spec_run_plan(HolderState::Held, p) == Some(
            seq![HolderState::Spendable, HolderState::Spendable, HolderState::Held],
        ),
{
    let s1 = HolderState::Spendable;
    assert(p.drop_first() =~= seq![p[1], p[2]]);
    assert(p.drop_first().drop_first() =~= seq![p[2]]);
    assert(seq![p[2]].drop_first() =~= Seq::<TokenLedgerAction>::empty());
    assert(spec_run_plan(HolderState::Held, Seq::<TokenLedgerAction>::empty()) == Some(
        Seq::<HolderState>::empty(),
    ));
    assert(seq![HolderState::Held] + Seq::<HolderState>::empty() =~= seq![HolderState::Held]);
    assert(spec_run_plan(s1, seq![p[2]]) == Some(seq![HolderState::Held]));
    assert(spec_run_plan(s1, p.drop_first()) == Some(
        seq![HolderState::Spendable] + seq![HolderState::Held],
    ));
    assert(spec_run_plan(HolderState::Held, p) == Some(
        seq![s1] + (seq![HolderState::Spendable] + seq![HolderState::Held]),
    ));
    assert(seq![s1] + (seq![HolderState::Spendable] + seq![HolderState::Held])
        =~= seq![HolderState::Spendable, HolderState::Spendable, HolderState::Held]);
}

/// Running one plan after another visits the first plan's states, then
/// the second's from where the first ended.
pub proof fn lemma_run_plan_concat(
    s: HolderState,
    a: Seq<TokenLedgerAction>,
    b: Seq<TokenLedgerAction>,
    t: Seq<HolderState>,
    mid: HolderState,
)
    requires
        spec_run_plan(s, a) == Some(t),
        a.len() > 0 ==> t.len() > 0 && t.last() == mid,
        a.len() == 0 ==> mid == s,
    ensures
        spec_run_plan(s, a + b) == match spec_run_plan(mid, b) {
            Some(u) => Some(t + u),
            None => None::<Seq<HolderState>>,
        },
    decreases a.len(),
{
    if a.len() == 0 {
        assert(a + b =~= b);
        assert(t =~= Seq::<HolderState>::empty());
        match spec_run_plan(mid, b) {
            Some(u) => {
                assert(t + u =~= u);
            },
            None => {},
        }
    } else {
        let s1 = spec_apply_action(s, a[0])->0;
        let t1 = spec_run_plan(s1, a.drop_first())->0;
        assert(t == seq![s1] + t1);
        if a.len() == 1 {
            assert(a.drop_first() =~= Seq::<TokenLedgerAction>::empty());
            assert(t1 =~= Seq::<HolderState>::empty());
            assert(t =~= seq![s1]);
            assert(mid == s1);
            lemma_run_plan_concat(s1, a.drop_first(), b, t1, s1);
        } else {
            assert(t1.len() > 0 && t1.last() == mid) by {
                assert(t.last() == (seq![s1] + t1).last());
            }
            lemma_run_plan_concat(s1, a.drop_first(), b, t1, mid);
        }
        assert((a + b).drop_first() =~= a.drop_first() + b);
        assert((a + b)[0] == a[0]);
        match spec_run_plan(mid, b) {
            Some(u) => {
                assert(spec_run_plan(s1, a.drop_first() + b) == Some(t1 + u));
                assert(seq![s1] + (t1 + u) =~= t + u);
            },
            None => {},
        }
    }
}

/// Law: two frozen transfers in sequence on the same holder account
/// leave it held at both instruction boundaries; it is spendable only
/// while each underlying transfer call is in flight, never across a
/// boundary.
pub proof fn lemma_frozen_transfer_twice(p1: Seq<TokenLedgerAction>, p2: Seq<TokenLedgerAction>)
    requires
        spec_is_frozen_transfer_plan(p1),
        spec_is_frozen_transfer_plan(p2),
    ensures
        spec_run_plan(HolderState::Held, p1 + p2) == Some(
            seq![
                HolderState::Spendable,
                HolderState::Spendable,
                HolderState::Held,
                HolderState::Spendable,
                HolderState::Spendable,
                HolderState::Held,
            ],
        ),
{
    let trace = seq![HolderState::Spendable, HolderState::Spendable, HolderState::Held];
    lemma_frozen_transfer_trace(p1);
    lemma_frozen_transfer_trace(p2);
    lemma_run_plan_concat(HolderState::Held, p1, p2, trace, HolderState::Held);
    assert(trace + trace =~= seq![
        HolderState::Spendable,
        HolderState::Spendable,
        HolderState::Held,
        HolderState::Spendable,
        HolderState::Spendable,
        HolderState::Held,
    ]);
}

} // verus!
