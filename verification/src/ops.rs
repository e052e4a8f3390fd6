//! The four governance operations: each resolves its fee-independent data
//! once, then drives the convergence engine over a pure builder.

use vstd::prelude::*;
use crate::bridge;
use crate::compose::{
    has_single_token, same_assets, AssignStakeContext, DelegateContext, RedelegateContext,
    VoteContext,
};
use crate::engine::{run_convergence, OperationContext, PricedTransaction};
use crate::error::Error;
use crate::params::{params_wf, ProtocolParameters};
use crate::rules::{
    byte_views, encode_rules, is_rules_term_for, recover_rules, rules_asset_name, spec_asset_name,
    spec_recover,
};
use crate::tx::{spec_input_eq, CertAction, GovAction, InputRef, RedeemerEntry, VoteChoice};
use crate::tx::TxOutput;
use crate::value::{
    find_contract_token, spec_find_token, spec_lovelace_of, value_wf, AssetEntry, PolicyEntry,
    Value,
};

verus! {

/// Builds the minimum-value contract output carrying one state token:
/// first sized with a placeholder coin of 1, then rebuilt with
/// `(serialized size + overhead) * per-byte coefficient` as its real coin.
/// The fixed overhead covers the protocol's output encoding overhead plus
/// headroom for the final coin's own encoded width.
pub fn new_min_value_output(
    per_byte: u64,
    address: &Vec<u8>,
    policy: &Vec<u8>,
    asset_name: &Vec<u8>,
) -> (r: Result<TxOutput, Error>)
    requires
        policy@.len() == 28,
    ensures
        ({
            let size = bridge::cbor_token_output_of(address@, 1, policy@, asset_name@, 1).len()
                as int;
            &&& ((size + 164) * per_byte <= u64::MAX ==> (r matches Ok(o) && o.address@ == address@
                && value_wf(o.value) && has_single_token(o.value, policy@, asset_name@)
                && spec_lovelace_of(o.value) == (size + 164) * per_byte))
            &&& ((size + 164) * per_byte > u64::MAX ==> r == Err::<TxOutput, Error>(
                Error::NumericOverflow,
            ))
            &&& (r is Err ==> r == Err::<TxOutput, Error>(Error::NumericOverflow))
        }),
{
    let bytes = bridge::px_token_output_bytes(address, 1, policy, asset_name, 1);
    let size_term: u128 = bytes.len() as u128 + 164;
    let lovelace: u128 = match size_term.checked_mul(per_byte as u128) {
        Some(v) => v,
        None => { return Err(Error::NumericOverflow) },
    };
    if lovelace > u64::MAX as u128 {
        return Err(Error::NumericOverflow);
    }
    let mut assets2: Vec<AssetEntry> = Vec::new();
    assets2.push(AssetEntry { name: asset_name.clone(), amount: 1 });
    let policies2 = match crate::value::aggregate_assets(policy.clone(), assets2) {
        Ok(ps) => ps,
        Err(e) => { return Err(e) },
    };
    let value = Value::Multiasset(lovelace as u64, policies2);
    proof {
        assert(spec_lovelace_of(value) == (bytes@.len() + 164) * per_byte) by (nonlinear_arith)
            requires
                lovelace == (bytes@.len() + 164) * per_byte,
                spec_lovelace_of(value) == lovelace,
        ;
    }
    Ok(TxOutput { address: address.clone(), value })
}

/// Assigns all stake of the fuel input to the validator script: resolves
/// the fuel owner's key, then converges on a transaction with one change
/// output and one vote-registration-delegation certificate. No scripts
/// run, so the external evaluator is never consulted.
pub fn assign_stake(
    params: &ProtocolParameters,
    validator: Vec<u8>,
    fuel: InputRef,
    fuel_address: Vec<u8>,
    fuel_value: Value,
) -> (r: Result<PricedTransaction, Error>)
    requires
        params_wf(*params),
        fuel.transaction_id@.len() == 32,
        value_wf(fuel_value),
    ensures
        r == Err::<PricedTransaction, Error>(Error::UnsupportedAddress) <==> bridge::owner_parts_of(
            fuel_address@,
        ) is None,
        r matches Ok(p) ==> {
            &&& p.tx.fee == p.fee
            &&& 1 <= p.attempts <= 3
            &&& p.fee >= crate::engine::spec_estimated_fee(
                *params,
                p.ex_units@.len() as int,
                p.tx.inputs@.len() as int,
                p.tx.required_signers@.len() as int,
                p.bytes@.len() as int,
                p.ex_units@,
            )
            &&& crate::engine::spec_units_match(p.measured@, p.ex_units@)
            &&& p.bytes@ == bridge::cbor_tx_of(p.tx)
            &&& p.tx.inputs@.len() == 1 && spec_input_eq(p.tx.inputs@[0], fuel)
            &&& p.tx.outputs@.len() == 1
            &&& same_assets(p.tx.outputs@[0].value, fuel_value)
            &&& spec_lovelace_of(p.tx.outputs@[0].value) == spec_lovelace_of(fuel_value) - (p.fee
                + crate::compose::STAKE_DEPOSIT)
            &&& (bridge::owner_parts_of(fuel_address@) matches Some(parts)
                ==> p.tx.outputs@[0].address@ == parts.1)
            &&& p.tx.certificates@.len() == 1
            &&& (p.tx.certificates@[0] matches CertAction::VoteRegDeleg {
                stake_key,
                drep_script,
                deposit,
            } && drep_script@ == bridge::script_hash_of(validator@) && deposit
                == crate::compose::STAKE_DEPOSIT && (bridge::owner_parts_of(fuel_address@) matches
                Some(parts) ==> stake_key@ == parts.0))
            &&& p.tx.mint is None
            &&& p.tx.redeemers@.len() == 0
            &&& p.tx.reference_inputs@.len() == 0
            &&& p.tx.votes@.len() == 0
            &&& p.tx.collateral@.len() == 0
            &&& p.tx.collateral_return is None
            &&& p.tx.total_collateral is None
            &&& p.tx.required_signers@.len() == 0
            &&& p.tx.script_data_hash is None
            &&& p.tx.network_mainnet is None
            &&& p.tx.script is None
        },
{
    let validator_hash = bridge::hash_validator(&validator);
    let (owner_key, owner_address) = match bridge::owner_key_address(&fuel_address) {
        Some(p) => p,
        None => { return Err(Error::UnsupportedAddress) },
    };
    let ctx = AssignStakeContext {
        fuel,
        fuel_value,
        owner_key,
        owner_address,
        validator_hash,
    };
    let resolved: Vec<uplc::tx::ResolvedInput> = Vec::new();
    run_convergence(params, &OperationContext::AssignStake(ctx), &resolved)
}

/// Hands voting rights over to the validator script under fresh quorum
/// rules: encodes the rules, derives the state-token name, sizes the
/// contract output, and converges on the minting transaction. Input
/// errors — an empty delegate list or a quorum outside its range — are
/// detected before any build attempt.
pub fn delegate(
    params: &ProtocolParameters,
    validator: Vec<u8>,
    administrators: Vec<Vec<u8>>,
    delegates: Vec<Vec<u8>>,
    quorum: u64,
    fuel: InputRef,
    fuel_address: Vec<u8>,
    fuel_value: Value,
    mainnet: bool,
) -> (r: Result<PricedTransaction, Error>)
    requires
        params_wf(*params),
        fuel.transaction_id@.len() == 32,
        value_wf(fuel_value),
        forall|i: int| 0 <= i < administrators@.len() ==> (#[trigger] administrators@[i])@.len()
            == 28,
    ensures
        delegates@.len() == 0 ==> r == Err::<PricedTransaction, Error>(Error::NoDelegates),
        delegates@.len() > 0 && !(1 <= quorum <= delegates@.len()) ==> r == Err::<
            PricedTransaction,
            Error,
        >(Error::QuorumOutOfRange),
        r == Err::<PricedTransaction, Error>(Error::NoDelegates) ==> delegates@.len() == 0,
        r == Err::<PricedTransaction, Error>(Error::QuorumOutOfRange) ==> !(1 <= quorum
            <= delegates@.len()),
        r == Err::<PricedTransaction, Error>(Error::UnsupportedAddress)
            ==> !bridge::address_parses(fuel_address@),
        r matches Ok(p) ==> ({
            let vhash = bridge::script_hash_of(validator@);
            let vaddr = bridge::script_address_of(vhash, mainnet);
            let token = spec_asset_name(byte_views(delegates@), quorum);
            let size = bridge::cbor_token_output_of(vaddr, 1, vhash, token, 1).len() as int;
            let collateral = crate::params::spec_ceil_mul(p.fee, params.collateral_percent);
            &&& p.tx.fee == p.fee
            &&& 1 <= p.attempts <= 3
            &&& p.fee >= crate::engine::spec_estimated_fee(
                *params,
                p.ex_units@.len() as int,
                p.tx.inputs@.len() as int,
                p.tx.required_signers@.len() as int,
                p.bytes@.len() as int,
                p.ex_units@,
            )
            &&& crate::engine::spec_units_match(p.measured@, p.ex_units@)
            &&& p.bytes@ == bridge::cbor_tx_of(p.tx)
            &&& p.tx.inputs@.len() == 1 && spec_input_eq(p.tx.inputs@[0], fuel)
            &&& p.tx.reference_inputs@.len() == 0 && p.tx.votes@.len() == 0
            &&& p.tx.outputs@.len() == 2
            &&& p.tx.outputs@[0].address@ == vaddr
            &&& has_single_token(p.tx.outputs@[0].value, vhash, token)
            &&& spec_lovelace_of(p.tx.outputs@[0].value) == (size + 164)
                * params.min_utxo_deposit_coefficient
            &&& p.tx.outputs@[1].address@ == fuel_address@
            &&& same_assets(p.tx.outputs@[1].value, fuel_value)
            &&& spec_lovelace_of(p.tx.outputs@[1].value) == spec_lovelace_of(fuel_value) - (
            params.drep_deposit + spec_lovelace_of(p.tx.outputs@[0].value) + p.fee)
            &&& (p.tx.mint matches Some(m) && m.policy@ == vhash && m.assets@.len() == 1
                && m.assets@[0].name@ == token && m.assets@[0].amount == 1)
            &&& p.tx.certificates@.len() == 1
            &&& (p.tx.certificates@[0] matches CertAction::RegDRep { script_hash, deposit }
                && script_hash@ == vhash && deposit == params.drep_deposit)
            &&& p.tx.redeemers@.len() == 2
            &&& p.tx.redeemers@[0].purpose is Mint && p.tx.redeemers@[0].index == 0
                && crate::rules::is_void_term(p.tx.redeemers@[0].data)
            &&& p.tx.redeemers@[1].purpose is Cert && p.tx.redeemers@[1].index == 0
                && is_rules_term_for(p.tx.redeemers@[1].data, byte_views(delegates@), quorum)
            &&& p.tx.collateral@.len() == 1 && spec_input_eq(p.tx.collateral@[0], fuel)
            &&& p.tx.total_collateral == Some(collateral as u64)
            &&& (p.tx.collateral_return matches Some(o) && o.address@ == fuel_address@
                && same_assets(o.value, fuel_value) && spec_lovelace_of(o.value)
                == spec_lovelace_of(fuel_value) - collateral)
            &&& byte_views(p.tx.required_signers@) == byte_views(administrators@)
            &&& p.tx.network_mainnet == Some(mainnet)
            &&& (p.tx.script matches Some(sc) && sc@ == validator@)
        }),
{
    let rules = match encode_rules(&delegates, quorum) {
        Ok(t) => t,
        Err(e) => { return Err(e) },
    };
    if quorum > 0x7fff_ffff_ffff_ffff {
        return Err(Error::NumericOverflow);
    }
    let asset_name = rules_asset_name(&rules);
    let validator_hash = bridge::hash_validator(&validator);
    let validator_address = bridge::script_address(&validator_hash, mainnet);
    let contract_output = match new_min_value_output(
        params.min_utxo_deposit_coefficient,
        &validator_address,
        &validator_hash,
        &asset_name,
    ) {
        Ok(o) => o,
        Err(e) => { return Err(e) },
    };
    if !bridge::check_address(&fuel_address) {
        return Err(Error::UnsupportedAddress);
    }
    let mut resolved: Vec<uplc::tx::ResolvedInput> = Vec::new();
    resolved.push(
        bridge::px_resolved(
            bridge::px_input(&fuel.transaction_id, fuel.index),
            &fuel_address,
            &fuel_value,
        ),
    );
    let ctx = DelegateContext {
        fuel,
        fuel_address,
        fuel_value,
        validator,
        validator_hash,
        administrators,
        delegates,
        quorum,
        asset_name,
        contract_output,
        drep_deposit: params.drep_deposit,
        collateral_percent: params.collateral_percent,
        cost_model: params.cost_model_v3.clone(),
        mainnet,
    };
    let result = run_convergence(params, &OperationContext::Delegate(ctx), &resolved);
    proof {
        match &result {
            Ok(p) => lemma_token_transport(
                p.tx.outputs@[0].value,
                ctx.contract_output.value,
                ctx.validator_hash@,
                ctx.asset_name@,
            ),
            Err(_) => (),
        }
    }
    result
}

/// Re-delegates to an updated rule set: spends the current contract
/// output, burns its state token while minting the new one, re-registers
/// the voting entity, and converges on the result. The old token's name is
/// read from the contract value before any build attempt.
pub fn redelegate(
    params: &ProtocolParameters,
    validator: Vec<u8>,
    administrators: Vec<Vec<u8>>,
    delegates: Vec<Vec<u8>>,
    quorum: u64,
    contract: InputRef,
    contract_address: Vec<u8>,
    contract_value: Value,
    fuel: InputRef,
    fuel_address: Vec<u8>,
    fuel_value: Value,
    mainnet: bool,
) -> (r: Result<PricedTransaction, Error>)
    requires
        params_wf(*params),
        fuel.transaction_id@.len() == 32,
        contract.transaction_id@.len() == 32,
        value_wf(fuel_value),
        value_wf(contract_value),
        forall|i: int| 0 <= i < administrators@.len() ==> (#[trigger] administrators@[i])@.len()
            == 28,
    ensures
        delegates@.len() == 0 ==> r == Err::<PricedTransaction, Error>(Error::NoDelegates),
        delegates@.len() > 0 && !(1 <= quorum <= delegates@.len()) ==> r == Err::<
            PricedTransaction,
            Error,
        >(Error::QuorumOutOfRange),
        delegates@.len() > 0 && 1 <= quorum <= delegates@.len() && spec_find_token(contract_value)
            is None ==> r == Err::<PricedTransaction, Error>(Error::NoStateToken),
        r == Err::<PricedTransaction, Error>(Error::NoDelegates) ==> delegates@.len() == 0,
        r == Err::<PricedTransaction, Error>(Error::QuorumOutOfRange) ==> !(1 <= quorum
            <= delegates@.len()),
        r == Err::<PricedTransaction, Error>(Error::NoStateToken) ==> spec_find_token(
            contract_value,
        ) is None,
        r == Err::<PricedTransaction, Error>(Error::UnsupportedAddress)
            ==> !bridge::address_parses(contract_address@) || !bridge::address_parses(
            fuel_address@,
        ),
        r matches Ok(p) ==> ({
            let vhash = bridge::script_hash_of(validator@);
            let vaddr = bridge::script_address_of(vhash, mainnet);
            let token = spec_asset_name(byte_views(delegates@), quorum);
            let size = bridge::cbor_token_output_of(vaddr, 1, vhash, token, 1).len() as int;
            let collateral = crate::params::spec_ceil_mul(p.fee, params.collateral_percent);
            let pair = crate::compose::sorted_input_pair(contract, fuel);
            &&& p.tx.fee == p.fee
            &&& 1 <= p.attempts <= 3
            &&& p.fee >= crate::engine::spec_estimated_fee(
                *params,
                p.ex_units@.len() as int,
                p.tx.inputs@.len() as int,
                p.tx.required_signers@.len() as int,
                p.bytes@.len() as int,
                p.ex_units@,
            )
            &&& crate::engine::spec_units_match(p.measured@, p.ex_units@)
            &&& p.bytes@ == bridge::cbor_tx_of(p.tx)
            &&& p.tx.inputs@.len() == 2
            &&& spec_input_eq(p.tx.inputs@[0], pair.0[0]) && spec_input_eq(
                p.tx.inputs@[1],
                pair.0[1],
            )
            &&& p.tx.reference_inputs@.len() == 0 && p.tx.votes@.len() == 0
            &&& p.tx.outputs@.len() == 2
            &&& p.tx.outputs@[0].address@ == vaddr
            &&& has_single_token(p.tx.outputs@[0].value, vhash, token)
            &&& spec_lovelace_of(p.tx.outputs@[0].value) == (size + 164)
                * params.min_utxo_deposit_coefficient
            &&& p.tx.outputs@[1].address@ == fuel_address@
            &&& same_assets(p.tx.outputs@[1].value, fuel_value)
            &&& spec_lovelace_of(p.tx.outputs@[1].value) == spec_lovelace_of(fuel_value) - (
            spec_lovelace_of(p.tx.outputs@[0].value) + p.fee - spec_lovelace_of(contract_value))
            &&& (p.tx.mint matches Some(m) && m.policy@ == vhash && m.assets@.len() == 2
                && m.assets@[0].name@ == token && m.assets@[0].amount == 1 && Some(
                m.assets@[1].name@,
            ) == spec_find_token(contract_value) && m.assets@[1].amount == -1)
            &&& p.tx.certificates@.len() == 2
            &&& (p.tx.certificates@[0] matches CertAction::UnRegDRep { script_hash, deposit }
                && script_hash@ == vhash && deposit == params.drep_deposit)
            &&& (p.tx.certificates@[1] matches CertAction::RegDRep { script_hash, deposit }
                && script_hash@ == vhash && deposit == params.drep_deposit)
            &&& p.tx.redeemers@.len() == 4
            &&& p.tx.redeemers@[0].purpose is Mint && p.tx.redeemers@[0].index == 0
                && crate::rules::is_void_term(p.tx.redeemers@[0].data)
            &&& p.tx.redeemers@[1].purpose is Spend && p.tx.redeemers@[1].index == pair.1
                && crate::rules::is_void_term(p.tx.redeemers@[1].data)
            &&& p.tx.redeemers@[2].purpose is Cert && p.tx.redeemers@[2].index == 0
                && crate::rules::is_void_term(p.tx.redeemers@[2].data)
            &&& p.tx.redeemers@[3].purpose is Cert && p.tx.redeemers@[3].index == 1
                && is_rules_term_for(p.tx.redeemers@[3].data, byte_views(delegates@), quorum)
            &&& p.tx.collateral@.len() == 1 && spec_input_eq(p.tx.collateral@[0], fuel)
            &&& p.tx.total_collateral == Some(collateral as u64)
            &&& (p.tx.collateral_return matches Some(o) && o.address@ == fuel_address@
                && same_assets(o.value, fuel_value) && spec_lovelace_of(o.value)
                == spec_lovelace_of(fuel_value) - collateral)
            &&& byte_views(p.tx.required_signers@) == byte_views(administrators@)
            &&& p.tx.network_mainnet == Some(mainnet)
            &&& (p.tx.script matches Some(sc) && sc@ == validator@)
        }),
{
    let rules = match encode_rules(&delegates, quorum) {
        Ok(t) => t,
        Err(e) => { return Err(e) },
    };
    let old_asset_name = match find_contract_token(&contract_value) {
        Some(n) => n,
        None => { return Err(Error::NoStateToken) },
    };
    if quorum > 0x7fff_ffff_ffff_ffff {
        return Err(Error::NumericOverflow);
    }
    let asset_name = rules_asset_name(&rules);
    let validator_hash = bridge::hash_validator(&validator);
    let validator_address = bridge::script_address(&validator_hash, mainnet);
    let contract_output = match new_min_value_output(
        params.min_utxo_deposit_coefficient,
        &validator_address,
        &validator_hash,
        &asset_name,
    ) {
        Ok(o) => o,
        Err(e) => { return Err(e) },
    };
    if !bridge::check_address(&contract_address) || !bridge::check_address(&fuel_address) {
        return Err(Error::UnsupportedAddress);
    }
    let mut resolved: Vec<uplc::tx::ResolvedInput> = Vec::new();
    resolved.push(
        bridge::px_resolved(
            bridge::px_input(&contract.transaction_id, contract.index),
            &contract_address,
            &contract_value,
        ),
    );
    resolved.push(
        bridge::px_resolved(
            bridge::px_input(&fuel.transaction_id, fuel.index),
            &fuel_address,
            &fuel_value,
        ),
    );
    let base = DelegateContext {
        fuel,
        fuel_address,
        fuel_value,
        validator,
        validator_hash,
        administrators,
        delegates,
        quorum,
        asset_name,
        contract_output,
        drep_deposit: params.drep_deposit,
        collateral_percent: params.collateral_percent,
        cost_model: params.cost_model_v3.clone(),
        mainnet,
    };
    let ctx = RedelegateContext { base, contract, contract_value, old_asset_name };
    let result = run_convergence(params, &OperationContext::Redelegate(ctx), &resolved);
    proof {
        match &result {
            Ok(p) => lemma_token_transport(
                p.tx.outputs@[0].value,
                ctx.base.contract_output.value,
                ctx.base.validator_hash@,
                ctx.base.asset_name@,
            ),
            Err(_) => (),
        }
    }
    result
}

/// Votes on a governance action with the authority of the contract's
/// current rules: recovers the quorum rules from the state token's minting
/// witness, optionally hashes a fetched rationale document into an anchor,
/// references the contract output, and converges on the vote transaction.
pub fn vote(
    params: &ProtocolParameters,
    validator: Vec<u8>,
    delegates: Vec<Vec<u8>>,
    choice: VoteChoice,
    anchor: Option<(String, Vec<u8>)>,
    proposal: GovAction,
    contract: InputRef,
    contract_address: Vec<u8>,
    contract_value: Value,
    fuel: InputRef,
    fuel_address: Vec<u8>,
    fuel_value: Value,
    minting_redeemers: Vec<RedeemerEntry>,
    mainnet: bool,
) -> (r: Result<PricedTransaction, Error>)
    requires
        params_wf(*params),
        fuel.transaction_id@.len() == 32,
        contract.transaction_id@.len() == 32,
        value_wf(fuel_value),
        value_wf(contract_value),
        proposal.transaction_id@.len() == 32,
        forall|i: int| 0 <= i < delegates@.len() ==> (#[trigger] delegates@[i])@.len() == 28,
    ensures
        spec_find_token(contract_value) is None ==> r == Err::<PricedTransaction, Error>(
            Error::NoStateToken,
        ),
        spec_find_token(contract_value) is Some && spec_recover(minting_redeemers@) is None ==> r
            == Err::<PricedTransaction, Error>(Error::NoMintingRedeemer),
        r == Err::<PricedTransaction, Error>(Error::NoStateToken) ==> spec_find_token(
            contract_value,
        ) is None,
        spec_recover(minting_redeemers@) matches Some(rules) ==> (r == Err::<
            PricedTransaction,
            Error,
        >(Error::NoMintingRedeemer) ==> forall|ds: Seq<Seq<u8>>, q: u64|
            !(is_rules_term_for(rules, ds, q) && 1 <= q <= ds.len())),
        r == Err::<PricedTransaction, Error>(Error::UnsupportedAddress)
            ==> !bridge::address_parses(contract_address@) || !bridge::address_parses(
            fuel_address@,
        ),
        r matches Ok(p) ==> ({
            let collateral = crate::params::spec_ceil_mul(p.fee, params.collateral_percent);
            &&& p.tx.fee == p.fee
            &&& 1 <= p.attempts <= 3
            &&& p.fee >= crate::engine::spec_estimated_fee(
                *params,
                p.ex_units@.len() as int,
                p.tx.inputs@.len() as int,
                p.tx.required_signers@.len() as int,
                p.bytes@.len() as int,
                p.ex_units@,
            )
            &&& crate::engine::spec_units_match(p.measured@, p.ex_units@)
            &&& p.bytes@ == bridge::cbor_tx_of(p.tx)
            &&& p.tx.inputs@.len() == 1 && spec_input_eq(p.tx.inputs@[0], fuel)
            &&& p.tx.reference_inputs@.len() == 1 && spec_input_eq(
                p.tx.reference_inputs@[0],
                contract,
            )
            &&& p.tx.outputs@.len() == 1
            &&& p.tx.outputs@[0].address@ == fuel_address@
            &&& same_assets(p.tx.outputs@[0].value, fuel_value)
            &&& spec_lovelace_of(p.tx.outputs@[0].value) == spec_lovelace_of(fuel_value) - p.fee
            &&& p.tx.mint is None
            &&& p.tx.certificates@.len() == 0
            &&& p.tx.votes@.len() == 1
            &&& p.tx.votes@[0].voter_script@ == bridge::script_hash_of(validator@)
            &&& p.tx.votes@[0].action.transaction_id@ == proposal.transaction_id@
            &&& p.tx.votes@[0].action.action_index == proposal.action_index
            &&& p.tx.votes@[0].choice == choice
            &&& (anchor matches Some(a) ==> (p.tx.votes@[0].anchor matches Some(b)
                && b.content_hash@ == bridge::blake2b256_of(a.1@)))
            &&& (anchor is None ==> p.tx.votes@[0].anchor is None)
            &&& p.tx.redeemers@.len() == 1
            &&& p.tx.redeemers@[0].purpose is Vote && p.tx.redeemers@[0].index == 0
            &&& (spec_recover(minting_redeemers@) matches Some(rules) ==> exists|
                ds: Seq<Seq<u8>>,
                q: u64,
            |
                is_rules_term_for(rules, ds, q) && is_rules_term_for(
                    #[trigger] p.tx.redeemers@[0].data,
                    ds,
                    q,
                ))
            &&& p.tx.collateral@.len() == 1 && spec_input_eq(p.tx.collateral@[0], fuel)
            &&& p.tx.total_collateral == Some(collateral as u64)
            &&& (p.tx.collateral_return matches Some(o) && o.address@ == fuel_address@
                && same_assets(o.value, fuel_value) && spec_lovelace_of(o.value)
                == spec_lovelace_of(fuel_value) - collateral)
            &&& byte_views(p.tx.required_signers@) == byte_views(delegates@)
            &&& p.tx.network_mainnet == Some(mainnet)
            &&& (p.tx.script matches Some(sc) && sc@ == validator@)
        }),
{
    let (rules_delegates, rules_quorum, _token_name) = match recover_rules(
        &contract_value,
        &minting_redeemers,
    ) {
        Ok(t) => t,
        Err(e) => { return Err(e) },
    };
    if rules_quorum > 0x7fff_ffff_ffff_ffff {
        return Err(Error::NumericOverflow);
    }
    let validator_hash = bridge::hash_validator(&validator);
    let anchor_info = match anchor {
        Some((url, content)) => Some(
            crate::tx::AnchorInfo { url, content_hash: bridge::blake2b_256(&content) },
        ),
        None => None,
    };
    if !bridge::check_address(&contract_address) || !bridge::check_address(&fuel_address) {
        return Err(Error::UnsupportedAddress);
    }
    let mut resolved: Vec<uplc::tx::ResolvedInput> = Vec::new();
    resolved.push(
        bridge::px_resolved(
            bridge::px_input(&contract.transaction_id, contract.index),
            &contract_address,
            &contract_value,
        ),
    );
    resolved.push(
        bridge::px_resolved(
            bridge::px_input(&fuel.transaction_id, fuel.index),
            &fuel_address,
            &fuel_value,
        ),
    );
    let ctx = VoteContext {
        fuel,
        fuel_address,
        fuel_value,
        contract,
        validator,
        validator_hash,
        delegates,
        rules_delegates,
        rules_quorum,
        proposal,
        choice,
        anchor: anchor_info,
        collateral_percent: params.collateral_percent,
        cost_model: params.cost_model_v3.clone(),
        mainnet,
    };
    run_convergence(params, &OperationContext::Vote(ctx), &resolved)
}

/// Carries the single-token shape of a contract value across a view-level
/// value equality.
proof fn lemma_token_transport(a: Value, b: Value, policy: Seq<u8>, name: Seq<u8>)
    requires
        crate::compose::value_matches(a, b),
        has_single_token(b, policy, name),
    ensures
        has_single_token(a, policy, name),
{
    assert(a is Multiasset);
    let ps = a->Multiasset_1@;
    let qs = b->Multiasset_1@;
    assert(crate::compose::policies_match(ps, qs));
    assert(ps[0].policy@ == qs[0].policy@);
    assert(crate::compose::assets_match(ps[0].assets@, qs[0].assets@));
    assert(ps[0].assets@[0].name@ == qs[0].assets@[0].name@);
    assert(ps[0].assets@[0].amount == qs[0].assets@[0].amount);
}

} // verus!
