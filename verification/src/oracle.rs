//! The policy oracle client.
//!
//! For a programmable asset, no mutation proceeds unless the external
//! rule evaluator approves it. This module decides whether an oracle
//! call is owed at all, checks the caller-supplied rule-set account
//! against the one the asset record configures, assembles the fact
//! payload, and hands back the fully assembled validation call for the
//! surrounding program to dispatch. A failure from the dispatched call
//! is authoritative and never retried.

use vstd::prelude::*;

use crate::address::Address;
use crate::error::MetadataError;
use crate::payload::{AuthorizationData, Payload, PayloadKey, PayloadValue, PayloadValueView};
use crate::state::ProgrammableConfig;

verus! {

/// The operation kinds rule sets can be asked about.
#[derive(Clone, Copy, Debug, PartialEq, Eq, Structural)]
pub enum Operation {
    Transfer,
    Delegate,
    Sale,
}

/// One fully assembled validation call: everything the external rule
/// evaluator is handed.
pub struct ValidateRequest {
    /// The rule-set account the rules live in.
    pub rule_set: Address,
    /// The asset the operation concerns.
    pub mint: Address,
    /// Extra accounts rule predicates may inspect, forwarded opaquely.
    pub additional_accounts: Vec<Address>,
    /// The operation kind being validated.
    pub operation: Operation,
    /// The fact payload describing the operation.
    pub payload: Payload,
    /// Whether rule-evaluation state should be persisted.
    pub update_rule_state: bool,
}

/// The address views of an address list.
pub open spec fn spec_address_views(l: Seq<Address>) -> Seq<Seq<u8>> {
    l.map(|i: int, a: Address| a@)
}

/// Assembles the validation call carrying the rule set, the asset, the
/// additional accounts, the operation tag and the payload; evaluation
/// state is never persisted on this path.
pub fn validate(
    ruleset: &Address,
    operation: Operation,
    mint: &Address,
    additional_rule_accounts: Vec<Address>,
    auth_data: AuthorizationData,
) -> (r: ValidateRequest)
    ensures
        r.rule_set@ == ruleset@,
        r.mint@ == mint@,
        spec_address_views(r.additional_accounts@) == spec_address_views(
            additional_rule_accounts@,
        ),
        r.operation == operation,
        r.payload@ == auth_data.payload@,
        r.update_rule_state == false,
{
    ValidateRequest {
        rule_set: ruleset.clone(),
        mint: mint.clone(),
        additional_accounts: additional_rule_accounts,
        operation,
        payload: auth_data.payload,
        update_rule_state: false,
    }
}

/// The caller-supplied rule-set account must be present and must be the
/// rule set the asset record configures.
pub fn assert_valid_authorization(auth_rules: Option<&Address>, config: &ProgrammableConfig) -> (r:
    Result<(), MetadataError>)
    ensures
        match r {
            Ok(_) => auth_rules is Some && auth_rules->0@ == config@,
            Err(e) => e == MetadataError::InvalidAuthorizationRules && !(auth_rules is Some
                && auth_rules->0@ == config@),
        },
{
    match auth_rules {
        None => Err(MetadataError::InvalidAuthorizationRules),
        Some(rules) => {
            if rules.eq_address(&config.rule_set) {
                Ok(())
            } else {
                Err(MetadataError::InvalidAuthorizationRules)
            }
        },
    }
}

/// Everything one authorization decision is made from.
pub struct AuthRulesValidateParams {
    /// The asset the operation concerns.
    pub mint: Address,
    /// The account the operation is directed at, if supplied.
    pub target: Option<Address>,
    /// The authority that initiated the operation, if supplied.
    pub authority: Option<Address>,
    /// The current holder, if supplied.
    pub owner: Option<Address>,
    /// The programmable configuration on the asset record, if any.
    pub programmable_config: Option<ProgrammableConfig>,
    /// The amount being moved.
    pub amount: u64,
    /// Caller-supplied facts, if any.
    pub auth_data: Option<AuthorizationData>,
    /// The caller-supplied rule-set account, if any.
    pub auth_rules: Option<Address>,
    /// The operation kind.
    pub operation: Operation,
}

/// The facts the caller supplied ahead of time, or none.
pub open spec fn spec_base_facts(params: AuthRulesValidateParams) -> Map<
    PayloadKey,
    PayloadValueView,
> {
    match params.auth_data {
        Some(ad) => ad.payload.facts(),
        None => Map::empty(),
    }
}

/// Whether the caller supplied exactly the configured rule set.
pub open spec fn spec_rules_match(params: AuthRulesValidateParams) -> bool {
    &&& params.programmable_config is Some
    &&& params.auth_rules is Some
    &&& params.auth_rules->0@ == params.programmable_config->0@
}

/// The payload owed to the oracle for a transfer: the caller's facts
/// with Amount, Target and Authority set to the supplied values.
pub open spec fn spec_transfer_facts(params: AuthRulesValidateParams) -> Map<
    PayloadKey,
    PayloadValueView,
> {
    spec_base_facts(params).insert(
        PayloadKey::Amount,
        PayloadValueView::Number(params.amount),
    ).insert(PayloadKey::Target, PayloadValueView::Pubkey(params.target->0@)).insert(
        PayloadKey::Authority,
        PayloadValueView::Pubkey(params.authority->0@),
    )
}

/// The additional accounts owed to the oracle for a transfer: target,
/// authority, then the holder when one was supplied.
pub open spec fn spec_transfer_additional(params: AuthRulesValidateParams) -> Seq<Seq<u8>> {
    let base = seq![params.target->0@, params.authority->0@];
    match params.owner {
        Some(o) => base + seq![o@],
        None => base,
    }
}

/// Law: when the caller supplied no facts of their own, the payload
/// handed to the oracle for a transfer holds exactly the Amount, Target
/// and Authority facts, set to the supplied values.
pub proof fn lemma_transfer_facts_exact(params: AuthRulesValidateParams)
    requires
        params.auth_data is None,
        params.target is Some,
        params.authority is Some,
    ensures
        spec_transfer_facts(params).dom() == set![
            PayloadKey::Amount,
            PayloadKey::Target,
            PayloadKey::Authority,
        ],
        spec_transfer_facts(params)[PayloadKey::Amount] == PayloadValueView::Number(params.amount),
        spec_transfer_facts(params)[PayloadKey::Target] == PayloadValueView::Pubkey(
            params.target->0@,
        ),
        spec_transfer_facts(params)[PayloadKey::Authority] == PayloadValueView::Pubkey(
            params.authority->0@,
        ),
{
    assert(spec_transfer_facts(params).dom() =~= set![
        PayloadKey::Amount,
        PayloadKey::Target,
        PayloadKey::Authority,
    ]);
}

/// Decides one authorization request.
///
/// With no programmable configuration the operation is authorized
/// outright and no oracle call is made. Otherwise the caller-supplied
/// rule set must match the configured one, the operation must be a
/// transfer with both target and authority supplied, and the result is
/// the assembled oracle call the surrounding program must dispatch.
pub fn auth_rules_validate(params: AuthRulesValidateParams) -> (r: Result<
    Option<ValidateRequest>,
    MetadataError,
>)
    requires
        params.auth_data matches Some(ad) ==> ad.payload.wf(),
    ensures
        params.programmable_config is None ==> r == Ok::<Option<ValidateRequest>, MetadataError>(
            None,
        ),
        params.programmable_config is Some && !spec_rules_match(params) ==> r == Err::<
            Option<ValidateRequest>,
            MetadataError,
        >(MetadataError::InvalidAuthorizationRules),
        spec_rules_match(params) && !(params.operation is Transfer) ==> r == Err::<
            Option<ValidateRequest>,
            MetadataError,
        >(MetadataError::InvalidOperation),
        spec_rules_match(params) && params.operation is Transfer && (params.target is None
            || params.authority is None) ==> r == Err::<Option<ValidateRequest>, MetadataError>(
            MetadataError::InvalidOperation,
        ),
        spec_rules_match(params) && params.operation is Transfer && params.target is Some
            && params.authority is Some ==> (r matches Ok(Some(req)) && {
            &&& req.rule_set@ == params.auth_rules->0@
            &&& req.mint@ == params.mint@
            &&& spec_address_views(req.additional_accounts@) == spec_transfer_additional(params)
            &&& req.operation == params.operation
            &&& req.update_rule_state == false
            &&& req.payload.wf()
            &&& req.payload.facts() == spec_transfer_facts(params)
        }),
{
    let AuthRulesValidateParams {
        mint,
        target,
        authority,
        owner,
        programmable_config,
        amount,
        auth_data,
        auth_rules,
        operation,
    } = params;

    let config = match programmable_config {
        None => { return Ok(None); },
        Some(config) => config,
    };

    let rules_key = match &auth_rules {
        None => { return Err(MetadataError::InvalidAuthorizationRules); },
        Some(rules) => rules,
    };
    if !rules_key.eq_address(&config.rule_set) {
        return Err(MetadataError::InvalidAuthorizationRules);
    }

    let mut data = match auth_data {
        Some(ad) => ad,
        None => AuthorizationData::new_empty(),
    };

    match operation {
        Operation::Transfer => {
            let target_key = match &target {
                None => { return Err(MetadataError::InvalidOperation); },
                Some(t) => t,
            };
            let authority_key = match &authority {
                None => { return Err(MetadataError::InvalidOperation); },
                Some(a) => a,
            };

            let mut additional_rule_accounts: Vec<Address> = Vec::new();
            additional_rule_accounts.push(target_key.clone());
            additional_rule_accounts.push(authority_key.clone());
            match &owner {
                Some(o) => additional_rule_accounts.push(o.clone()),
                None => {},
            }

            data.payload.insert(PayloadKey::Amount, PayloadValue::Number(amount));
            data.payload.insert(PayloadKey::Target, PayloadValue::Pubkey(target_key.clone()));
            data.payload.insert(
                PayloadKey::Authority,
                PayloadValue::Pubkey(authority_key.clone()),
            );

            let req = validate(rules_key, operation, &mint, additional_rule_accounts, data);
            proof {
                assert(spec_address_views(req.additional_accounts@) =~= spec_transfer_additional(
                    params,
                ));
            }
            Ok(Some(req))
        },
        _ => Err(MetadataError::InvalidOperation),
    }
}

} // verus!
