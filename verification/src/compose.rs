//! Transaction body composer: one assembly function per governance
//! operation, each a pure function of the fee and execution units handed to
//! it by the convergence engine.

use vstd::prelude::*;
use crate::error::Error;
use crate::rules::{byte_views, encode_rules, is_rules_term_for, is_void_term, void};
use crate::tx::{
    cert_wf, spec_input_eq, spec_input_le, term_encodable, tx_wf, CertAction, ExUnitsPair,
    InputRef, RedeemerEntry, RedeemerPurpose, Transaction, TxOutput, VoteEntry,
};
use crate::value::{
    lovelace_of, spec_lovelace_of, subtract, value_wf, AssetEntry, PolicyEntry, Value,
};

verus! {

/// The deposit a stake-key vote-registration certificate carries.
pub const STAKE_DEPOSIT: u64 = 2_000_000;

/// View-level equality of two values: same coin, same policies, same
/// assets, same quantities.
pub open spec fn value_matches(a: Value, b: Value) -> bool {
    &&& spec_lovelace_of(a) == spec_lovelace_of(b)
    &&& same_assets(a, b)
}

/// Whether two values carry the same multi-asset map, compared by view.
pub open spec fn same_assets(a: Value, b: Value) -> bool {
    match (a, b) {
        (Value::Coin(_), Value::Coin(_)) => true,
        (Value::Multiasset(_, ps), Value::Multiasset(_, qs)) => policies_match(ps@, qs@),
        _ => false,
    }
}

/// View-level equality of two policy lists.
pub open spec fn policies_match(ps: Seq<PolicyEntry>, qs: Seq<PolicyEntry>) -> bool {
    &&& ps.len() == qs.len()
    &&& forall|i: int| #![trigger ps[i], qs[i]]
        0 <= i < ps.len() ==> ps[i].policy@ == qs[i].policy@ && assets_match(
            ps[i].assets@,
            qs[i].assets@,
        )
}

/// View-level equality of two asset lists.
pub open spec fn assets_match(xs: Seq<AssetEntry>, ys: Seq<AssetEntry>) -> bool {
    &&& xs.len() == ys.len()
    &&& forall|i: int| #![trigger xs[i], ys[i]]
        0 <= i < xs.len() ==> xs[i].name@ == ys[i].name@ && xs[i].amount == ys[i].amount
}

/// Copies a byte vector.
pub fn clone_bytes(b: &Vec<u8>) -> (r: Vec<u8>)
    ensures
        r@ == b@,
{
    b.clone()
}

/// Copies an input reference.
pub fn clone_input(i: &InputRef) -> (r: InputRef)
    ensures
        spec_input_eq(r, *i),
{
    InputRef { transaction_id: i.transaction_id.clone(), index: i.index }
}

/// Copies a value, preserving its view.
pub fn clone_value(v: &Value) -> (r: Value)
    ensures
        value_matches(r, *v),
        value_wf(*v) ==> value_wf(r),
{
    match v {
        Value::Coin(c) => Value::Coin(*c),
        Value::Multiasset(c, policies) => {
            let mut ps: Vec<PolicyEntry> = Vec::new();
            let mut i: usize = 0;
            while i < policies.len()
                invariant
                    i <= policies@.len(),
                    ps@.len() == i,
                    forall|j: int| #![trigger ps@[j]]
                        0 <= j < i ==> ps@[j].policy@ == policies@[j].policy@ && assets_match(
                            ps@[j].assets@,
                            policies@[j].assets@,
                        ),
                decreases policies@.len() - i,
            {
                let p = &policies[i];
                let mut assets: Vec<AssetEntry> = Vec::new();
                let mut j: usize = 0;
                while j < p.assets.len()
                    invariant
                        j <= p.assets@.len(),
                        assets@.len() == j,
                        forall|k: int| #![trigger assets@[k]]
                            0 <= k < j ==> assets@[k].name@ == p.assets@[k].name@
                                && assets@[k].amount == p.assets@[k].amount,
                    decreases p.assets@.len() - j,
                {
                    assets.push(
                        AssetEntry { name: p.assets[j].name.clone(), amount: p.assets[j].amount },
                    );
                    j = j + 1;
                }
                ps.push(PolicyEntry { policy: p.policy.clone(), assets });
                i = i + 1;
            }
            proof {
                assert(policies_match(ps@, policies@));
                if value_wf(*v) {
                    assert forall|k: int| 0 <= k < ps@.len() implies {
                        &&& (#[trigger] ps@[k]).policy@.len() == 28
                        &&& ps@[k].assets@.len() > 0
                        &&& forall|j: int|
                            0 <= j < ps@[k].assets@.len() ==> (#[trigger] ps@[k].assets@[j]).amount
                                >= 1
                    } by {
                        assert(policies@[k].policy@.len() == 28);
                        assert(policies@[k].assets@.len() > 0);
                        assert(assets_match(ps@[k].assets@, policies@[k].assets@));
                        assert forall|j: int|
                            0 <= j < ps@[k].assets@.len() implies (
                        #[trigger] ps@[k].assets@[j]).amount >= 1 by {
                            assert(policies@[k].assets@[j].amount >= 1);
                        }
                    }
                }
            }
            Value::Multiasset(*c, ps)
        },
    }
}

/// Adds two coin amounts, failing fast when the sum leaves 64 bits.
pub fn checked_add(a: u64, b: u64) -> (r: Result<u64, Error>)
    ensures
        a + b <= u64::MAX ==> r == Ok::<u64, Error>((a + b) as u64),
        a + b > u64::MAX ==> r == Err::<u64, Error>(Error::NumericOverflow),
{
    if a <= u64::MAX - b {
        Ok(a + b)
    } else {
        Err(Error::NumericOverflow)
    }
}

/// What the context of the stake-assignment operation must satisfy.
pub open spec fn assign_stake_ctx_wf(ctx: AssignStakeContext) -> bool {
    &&& ctx.fuel.transaction_id@.len() == 32
    &&& value_wf(ctx.fuel_value)
    &&& ctx.owner_key@.len() == 28
    &&& ctx.validator_hash@.len() == 28
    &&& crate::bridge::address_parses(ctx.owner_address@)
}

/// The resolved, fee-independent data the stake-assignment builder reads.
pub struct AssignStakeContext {
    /// The fuel input being spent.
    pub fuel: InputRef,
    /// The value the fuel input carries.
    pub fuel_value: Value,
    /// The verification-key hash of the fuel owner's payment credential.
    pub owner_key: Vec<u8>,
    /// The owner's address with delegation redirected to the owner key.
    pub owner_address: Vec<u8>,
    /// The validator script hash receiving the vote delegation.
    pub validator_hash: Vec<u8>,
}

/// Exactly what the stake-assignment builder produces for a given fee.
pub open spec fn assign_stake_built(ctx: AssignStakeContext, fee: u64, t: Transaction) -> bool {
    &&& t.inputs@.len() == 1 && spec_input_eq(t.inputs@[0], ctx.fuel)
    &&& t.reference_inputs@.len() == 0
    &&& t.outputs@.len() == 1
    &&& t.outputs@[0].address@ == ctx.owner_address@
    &&& spec_lovelace_of(t.outputs@[0].value) == spec_lovelace_of(ctx.fuel_value) - (fee
        + STAKE_DEPOSIT)
    &&& same_assets(t.outputs@[0].value, ctx.fuel_value)
    &&& t.fee == fee
    &&& t.certificates@.len() == 1
    &&& t.certificates@[0] matches CertAction::VoteRegDeleg { stake_key, drep_script, deposit }
        && stake_key@ == ctx.owner_key@ && drep_script@ == ctx.validator_hash@ && deposit
        == STAKE_DEPOSIT
    &&& t.mint is None
    &&& t.votes@.len() == 0
    &&& t.collateral@.len() == 0
    &&& t.collateral_return is None
    &&& t.total_collateral is None
    &&& t.required_signers@.len() == 0
    &&& t.script_data_hash is None
    &&& t.network_mainnet is None
    &&& t.redeemers@.len() == 0
    &&& t.script is None
    &&& t.success == true
    &&& tx_wf(t)
}

/// Assembles the stake-assignment transaction for a given fee: the single
/// fuel input, one change output back to the owner with delegation
/// redirected to the validator script, and one vote-registration
/// certificate carrying the stake deposit. No scripts run, so execution
/// units play no part. Fails exactly when the fuel cannot cover the fee
/// plus the deposit with a positive remainder, or when that sum leaves
/// 64 bits.
pub fn build_assign_stake(ctx: &AssignStakeContext, fee: u64) -> (r: Result<Transaction, Error>)
    requires
        assign_stake_ctx_wf(*ctx),
    ensures
        fee + STAKE_DEPOSIT > u64::MAX ==> r == Err::<Transaction, Error>(Error::NumericOverflow),
        fee + STAKE_DEPOSIT <= u64::MAX && spec_lovelace_of(ctx.fuel_value) <= fee + STAKE_DEPOSIT
            ==> r == Err::<Transaction, Error>(Error::InsufficientFunds),
        fee + STAKE_DEPOSIT <= u64::MAX && spec_lovelace_of(ctx.fuel_value) > fee + STAKE_DEPOSIT
            ==> (r matches Ok(t) && assign_stake_built(*ctx, fee, t)),
{
    let total_cost = match checked_add(fee, STAKE_DEPOSIT) {
        Ok(v) => v,
        Err(e) => { return Err(e) },
    };
    let change_value = match subtract(clone_value(&ctx.fuel_value), total_cost) {
        Some(v) => v,
        None => { return Err(Error::InsufficientFunds) },
    };
    let mut inputs: Vec<InputRef> = Vec::new();
    inputs.push(clone_input(&ctx.fuel));
    let mut outputs: Vec<TxOutput> = Vec::new();
    outputs.push(TxOutput { address: clone_bytes(&ctx.owner_address), value: change_value });
    let mut certificates: Vec<CertAction> = Vec::new();
    certificates.push(
        CertAction::VoteRegDeleg {
            stake_key: clone_bytes(&ctx.owner_key),
            drep_script: clone_bytes(&ctx.validator_hash),
            deposit: STAKE_DEPOSIT,
        },
    );
    Ok(
        Transaction {
            inputs,
            reference_inputs: Vec::new(),
            outputs,
            fee,
            certificates,
            mint: None,
            votes: Vec::new(),
            collateral: Vec::new(),
            collateral_return: None,
            total_collateral: None,
            required_signers: Vec::new(),
            script_data_hash: None,
            network_mainnet: None,
            redeemers: Vec::new(),
            script: None,
            success: true,
        },
    )
}

/// Whether `h` is the script-integrity commitment for redeemers `rs` and
/// the single third-language cost model `cost_model`, with no datums.
pub open spec fn commits_to(h: Seq<u8>, rs: Seq<RedeemerEntry>, cost_model: Seq<i64>) -> bool {
    exists|sv: Seq<crate::integrity::LanguageView>|
        sv.len() == 1 && sv[0].language == 2 && sv[0].cost_model@ == cost_model && h
            == crate::bridge::blake2b256_of(
            crate::integrity::spec_preimage(
                crate::bridge::cbor_redeemers_of(rs),
                Seq::empty(),
                crate::bridge::cbor_views_of(sv),
            ),
        )
}

proof fn lemma_singleton_multiset_witness(
    sv: Seq<crate::integrity::LanguageView>,
    s: Seq<crate::integrity::LanguageView>,
)
    requires
        s.len() == 1,
        sv.to_multiset() == s.to_multiset(),
    ensures
        sv == s,
{
    broadcast use vstd::multiset::group_multiset_axioms;

    vstd::seq_lib::to_multiset_len(sv);
    vstd::seq_lib::to_multiset_len(s);
    assert(sv.len() == 1);
    vstd::seq_lib::to_multiset_contains(sv, sv[0]);
    vstd::seq_lib::to_multiset_contains(s, sv[0]);
    assert(sv.contains(sv[0]));
    assert(s.contains(sv[0]));
    assert(sv[0] == s[0]);
    assert(sv =~= s);
}

/// Computes the script-integrity hash over the given redeemers and the
/// single third-language cost model, with no datums.
fn commitment_for(redeemers: &Vec<RedeemerEntry>, cost_model: &Vec<i64>) -> (r: Vec<u8>)
    requires
        redeemers@.len() > 0,
        forall|i: int| 0 <= i < redeemers@.len() ==> term_encodable(
            (#[trigger] redeemers@[i]).data,
        ),
    ensures
        r@.len() == 32,
        commits_to(r@, redeemers@, cost_model@),
{
    let mut views: Vec<crate::integrity::LanguageView> = Vec::new();
    views.push(
        crate::integrity::LanguageView { language: 2, cost_model: cost_model.clone() },
    );
    let ghost views_snapshot = views@;
    let hash = match crate::integrity::script_integrity_hash(Some(redeemers), None, views) {
        Some(h) => h,
        None => {
            proof {
                assert(false);
            }
            return Vec::new();
        },
    };
    proof {
        let sv = choose|sv: Seq<crate::integrity::LanguageView>|
            sv.to_multiset() == views_snapshot.to_multiset() && crate::integrity::views_sorted(sv)
                && hash@ == crate::bridge::blake2b256_of(
                crate::integrity::spec_preimage(
                    crate::integrity::spec_redeemers_part(Some(redeemers)),
                    crate::integrity::spec_datums_part(None),
                    if views_snapshot.len() == 0 {
                        Seq::<u8>::empty()
                    } else {
                        crate::bridge::cbor_views_of(sv)
                    },
                ),
            );
        lemma_singleton_multiset_witness(sv, views_snapshot);
        assert(sv.len() == 1 && sv[0].language == 2 && sv[0].cost_model@ == cost_model@);
        assert(commits_to(hash@, redeemers@, cost_model@));
    }
    hash
}

/// The resolved, fee-independent data the delegation builder reads.
pub struct DelegateContext {
    /// The fuel input being spent.
    pub fuel: InputRef,
    /// The address the fuel output sits at; change returns there.
    pub fuel_address: Vec<u8>,
    /// The value the fuel input carries.
    pub fuel_value: Value,
    /// The validator bytecode attached to the witness set.
    pub validator: Vec<u8>,
    /// The validator script hash: mint policy and voting credential.
    pub validator_hash: Vec<u8>,
    /// The administrator key hashes that will sign the transaction.
    pub administrators: Vec<Vec<u8>>,
    /// The ordered delegate identities the rules commit to.
    pub delegates: Vec<Vec<u8>>,
    /// The quorum threshold the rules commit to.
    pub quorum: u64,
    /// The state-token asset name derived from the rules.
    pub asset_name: Vec<u8>,
    /// The sized contract output carrying the state token.
    pub contract_output: TxOutput,
    /// The protocol deposit for registering the voting entity.
    pub drep_deposit: u64,
    /// The collateral requirement as a fraction of the fee.
    pub collateral_percent: crate::params::Ratio,
    /// The cost model committed to by the integrity hash.
    pub cost_model: Vec<i64>,
    /// Whether the transaction is for the main network.
    pub mainnet: bool,
}

/// What the context of the delegation operation must satisfy.
pub open spec fn delegate_ctx_wf(ctx: DelegateContext) -> bool {
    &&& ctx.fuel.transaction_id@.len() == 32
    &&& value_wf(ctx.fuel_value)
    &&& ctx.validator_hash@.len() == 28
    &&& forall|i: int| 0 <= i < ctx.administrators@.len() ==> (
    #[trigger] ctx.administrators@[i])@.len() == 28
    &&& ctx.delegates@.len() > 0
    &&& 1 <= ctx.quorum <= ctx.delegates@.len()
    &&& ctx.quorum <= 0x7fff_ffff_ffff_ffff
    &&& value_wf(ctx.contract_output.value)
    &&& has_single_token(ctx.contract_output.value, ctx.validator_hash@, ctx.asset_name@)
    &&& ctx.collateral_percent.den > 0
    &&& crate::bridge::address_parses(ctx.fuel_address@)
    &&& crate::bridge::address_parses(ctx.contract_output.address@)
}

/// Whether a value carries exactly one unit of exactly one asset under
/// exactly one policy.
pub open spec fn has_single_token(v: Value, policy: Seq<u8>, name: Seq<u8>) -> bool {
    &&& v is Multiasset
    &&& v->Multiasset_1@.len() == 1
    &&& v->Multiasset_1@[0].policy@ == policy
    &&& v->Multiasset_1@[0].assets@.len() == 1
    &&& v->Multiasset_1@[0].assets@[0].name@ == name
    &&& v->Multiasset_1@[0].assets@[0].amount == 1
}

/// The collateral pieces every script-running transaction carries:
/// collateral is the fuel input, the return is the fuel value minus the
/// requirement, and the declared total is the rounded-up fraction of the
/// fee.
pub open spec fn collateral_built(
    t: Transaction,
    fuel: InputRef,
    fuel_address: Vec<u8>,
    fuel_value: Value,
    fee: u64,
    percent: crate::params::Ratio,
) -> bool {
    &&& t.collateral@.len() == 1 && spec_input_eq(t.collateral@[0], fuel)
    &&& t.total_collateral == Some(crate::params::spec_ceil_mul(fee, percent) as u64)
    &&& t.collateral_return matches Some(o) && o.address@ == fuel_address@ && same_assets(
        o.value,
        fuel_value,
    ) && spec_lovelace_of(o.value) == spec_lovelace_of(fuel_value) - crate::params::spec_ceil_mul(
        fee,
        percent,
    )
}

/// Exactly what the delegation builder produces for a given fee and
/// execution units.
pub open spec fn delegate_built(
    ctx: DelegateContext,
    fee: u64,
    units: Seq<ExUnitsPair>,
    t: Transaction,
) -> bool {
    let total_cost = ctx.drep_deposit + spec_lovelace_of(ctx.contract_output.value) + fee;
    &&& t.inputs@.len() == 1 && spec_input_eq(t.inputs@[0], ctx.fuel)
    &&& t.reference_inputs@.len() == 0
    &&& t.outputs@.len() == 2
    &&& t.outputs@[0].address@ == ctx.contract_output.address@
    &&& value_matches(t.outputs@[0].value, ctx.contract_output.value)
    &&& t.outputs@[1].address@ == ctx.fuel_address@
    &&& same_assets(t.outputs@[1].value, ctx.fuel_value)
    &&& spec_lovelace_of(t.outputs@[1].value) == spec_lovelace_of(ctx.fuel_value) - total_cost
    &&& t.fee == fee
    &&& t.certificates@.len() == 1
    &&& t.certificates@[0] matches CertAction::RegDRep { script_hash, deposit } && script_hash@
        == ctx.validator_hash@ && deposit == ctx.drep_deposit
    &&& t.mint matches Some(m) && m.policy@ == ctx.validator_hash@ && m.assets@.len() == 1
        && m.assets@[0].name@ == ctx.asset_name@ && m.assets@[0].amount == 1
    &&& t.votes@.len() == 0
    &&& collateral_built(t, ctx.fuel, ctx.fuel_address, ctx.fuel_value, fee, ctx.collateral_percent)
    &&& byte_views(t.required_signers@) == byte_views(ctx.administrators@)
    &&& t.redeemers@.len() == 2
    &&& t.redeemers@[0].purpose is Mint && t.redeemers@[0].index == 0 && is_void_term(
        t.redeemers@[0].data,
    ) && t.redeemers@[0].ex_units == units[0]
    &&& t.redeemers@[1].purpose is Cert && t.redeemers@[1].index == 0 && is_rules_term_for(
        t.redeemers@[1].data,
        byte_views(ctx.delegates@),
        ctx.quorum,
    ) && t.redeemers@[1].ex_units == units[1]
    &&& t.script_data_hash matches Some(h) && commits_to(h@, t.redeemers@, ctx.cost_model@)
    &&& t.network_mainnet == Some(ctx.mainnet)
    &&& t.script matches Some(s) && s@ == ctx.validator@
    &&& t.success == true
    &&& tx_wf(t)
}

/// Assembles the delegation transaction for a given fee and execution
/// units: mints the state token named by the rules, pays it into the sized
/// contract output, returns change to the fuel owner, registers the
/// voting entity with the protocol deposit, and attaches the mint and
/// certificate redeemers. Fails exactly when the cost or collateral
/// arithmetic leaves 64 bits, or when the fuel cannot cover the total cost
/// or the collateral with a positive remainder.
pub fn build_delegate(
    ctx: &DelegateContext,
    fee: u64,
    ex_units: &Vec<ExUnitsPair>,
) -> (r: Result<Transaction, Error>)
    requires
        delegate_ctx_wf(*ctx),
        ex_units@.len() >= 4,
    ensures
        ({
            let collateral = crate::params::spec_ceil_mul(fee, ctx.collateral_percent);
            let total_cost = ctx.drep_deposit + spec_lovelace_of(ctx.contract_output.value) + fee;
            let fuel = spec_lovelace_of(ctx.fuel_value);
            &&& (r matches Ok(t) ==> delegate_built(*ctx, fee, ex_units@, t))
            &&& (collateral <= u64::MAX && total_cost <= u64::MAX && fuel > total_cost && fuel
                > collateral ==> r is Ok)
            &&& (r == Err::<Transaction, Error>(Error::NumericOverflow) ==> collateral > u64::MAX
                || total_cost > u64::MAX)
            &&& (r == Err::<Transaction, Error>(Error::InsufficientFunds) ==> fuel <= total_cost
                || fuel <= collateral)
            &&& (r is Err ==> r == Err::<Transaction, Error>(Error::NumericOverflow) || r == Err::<
                Transaction,
                Error,
            >(Error::InsufficientFunds))
        }),
{
    let total_collateral = match crate::params::ceil_mul(fee, &ctx.collateral_percent) {
        Ok(v) => v,
        Err(e) => { return Err(e) },
    };
    let deposit_and_token = match checked_add(
        ctx.drep_deposit,
        lovelace_of(&ctx.contract_output.value),
    ) {
        Ok(v) => v,
        Err(e) => { return Err(e) },
    };
    let total_cost = match checked_add(deposit_and_token, fee) {
        Ok(v) => v,
        Err(e) => { return Err(e) },
    };
    let change_value = match subtract(clone_value(&ctx.fuel_value), total_cost) {
        Some(v) => v,
        None => { return Err(Error::InsufficientFunds) },
    };
    let collateral_value = match subtract(clone_value(&ctx.fuel_value), total_collateral) {
        Some(v) => v,
        None => { return Err(Error::InsufficientFunds) },
    };
    let rules = match encode_rules(&ctx.delegates, ctx.quorum) {
        Ok(t) => t,
        Err(e) => { return Err(e) },
    };
    let mut redeemers: Vec<RedeemerEntry> = Vec::new();
    redeemers.push(
        RedeemerEntry {
            purpose: RedeemerPurpose::Mint,
            index: 0,
            data: void(),
            ex_units: ex_units[0],
        },
    );
    redeemers.push(
        RedeemerEntry { purpose: RedeemerPurpose::Cert, index: 0, data: rules, ex_units: ex_units[1] },
    );
    let script_data_hash = commitment_for(&redeemers, &ctx.cost_model);
    let mut inputs: Vec<InputRef> = Vec::new();
    inputs.push(clone_input(&ctx.fuel));
    let mut outputs: Vec<TxOutput> = Vec::new();
    outputs.push(
        TxOutput {
            address: clone_bytes(&ctx.contract_output.address),
            value: clone_value(&ctx.contract_output.value),
        },
    );
    outputs.push(TxOutput { address: clone_bytes(&ctx.fuel_address), value: change_value });
    let mut certificates: Vec<CertAction> = Vec::new();
    certificates.push(
        CertAction::RegDRep {
            script_hash: clone_bytes(&ctx.validator_hash),
            deposit: ctx.drep_deposit,
        },
    );
    let mut mint_assets: Vec<crate::tx::MintAsset> = Vec::new();
    mint_assets.push(crate::tx::MintAsset { name: clone_bytes(&ctx.asset_name), amount: 1 });
    let mut collateral: Vec<InputRef> = Vec::new();
    collateral.push(clone_input(&ctx.fuel));
    let mut signers: Vec<Vec<u8>> = Vec::new();
    let mut i: usize = 0;
    while i < ctx.administrators.len()
        invariant
            i <= ctx.administrators@.len(),
            signers@.len() == i,
            forall|j: int| 0 <= j < i ==> (#[trigger] signers@[j])@ == ctx.administrators@[j]@,
        decreases ctx.administrators@.len() - i,
    {
        signers.push(ctx.administrators[i].clone());
        i = i + 1;
    }
    proof {
        assert(byte_views(signers@) =~= byte_views(ctx.administrators@));
    }
    Ok(
        Transaction {
            inputs,
            reference_inputs: Vec::new(),
            outputs,
            fee,
            certificates,
            mint: Some(
                crate::tx::MintBundle {
                    policy: clone_bytes(&ctx.validator_hash),
                    assets: mint_assets,
                },
            ),
            votes: Vec::new(),
            collateral,
            collateral_return: Some(
                TxOutput { address: clone_bytes(&ctx.fuel_address), value: collateral_value },
            ),
            total_collateral: Some(total_collateral),
            required_signers: signers,
            script_data_hash: Some(script_data_hash),
            network_mainnet: Some(ctx.mainnet),
            redeemers,
            script: Some(clone_bytes(&ctx.validator)),
            success: true,
        },
    )
}

/// The resolved, fee-independent data the re-delegation builder reads: the
/// delegation context plus the contract input being spent, its value, and
/// the name of the state token being burned.
pub struct RedelegateContext {
    /// The delegation pieces: fuel, rules, new token, deposits.
    pub base: DelegateContext,
    /// The contract input holding the current state token.
    pub contract: InputRef,
    /// The value the contract input carries.
    pub contract_value: Value,
    /// The asset name of the state token being burned.
    pub old_asset_name: Vec<u8>,
}

/// What the context of the re-delegation operation must satisfy.
pub open spec fn redelegate_ctx_wf(ctx: RedelegateContext) -> bool {
    &&& delegate_ctx_wf(ctx.base)
    &&& ctx.contract.transaction_id@.len() == 32
    &&& value_wf(ctx.contract_value)
    &&& crate::value::spec_find_token(ctx.contract_value) == Some(ctx.old_asset_name@)
}

/// The canonically sorted input pair of a re-delegation, and the position
/// of the contract input within it.
pub open spec fn sorted_input_pair(contract: InputRef, fuel: InputRef) -> (Seq<InputRef>, int) {
    if spec_input_le(contract, fuel) {
        (seq![contract, fuel], 0int)
    } else {
        (seq![fuel, contract], 1int)
    }
}

/// Exactly what the re-delegation builder produces for a given fee and
/// execution units.
pub open spec fn redelegate_built(
    ctx: RedelegateContext,
    fee: u64,
    units: Seq<ExUnitsPair>,
    t: Transaction,
) -> bool {
    let total_cost = spec_lovelace_of(ctx.base.contract_output.value) + fee - spec_lovelace_of(
        ctx.contract_value,
    );
    let pair = sorted_input_pair(ctx.contract, ctx.base.fuel);
    &&& t.inputs@.len() == 2 && spec_input_eq(t.inputs@[0], pair.0[0]) && spec_input_eq(
        t.inputs@[1],
        pair.0[1],
    )
    &&& t.reference_inputs@.len() == 0
    &&& t.outputs@.len() == 2
    &&& t.outputs@[0].address@ == ctx.base.contract_output.address@
    &&& value_matches(t.outputs@[0].value, ctx.base.contract_output.value)
    &&& t.outputs@[1].address@ == ctx.base.fuel_address@
    &&& same_assets(t.outputs@[1].value, ctx.base.fuel_value)
    &&& spec_lovelace_of(t.outputs@[1].value) == spec_lovelace_of(ctx.base.fuel_value) - total_cost
    &&& t.fee == fee
    &&& t.certificates@.len() == 2
    &&& t.certificates@[0] matches CertAction::UnRegDRep { script_hash, deposit } && script_hash@
        == ctx.base.validator_hash@ && deposit == ctx.base.drep_deposit
    &&& t.certificates@[1] matches CertAction::RegDRep { script_hash, deposit } && script_hash@
        == ctx.base.validator_hash@ && deposit == ctx.base.drep_deposit
    &&& t.mint matches Some(m) && m.policy@ == ctx.base.validator_hash@ && m.assets@.len() == 2
        && m.assets@[0].name@ == ctx.base.asset_name@ && m.assets@[0].amount == 1
        && m.assets@[1].name@ == ctx.old_asset_name@ && m.assets@[1].amount == -1
    &&& t.votes@.len() == 0
    &&& collateral_built(
        t,
        ctx.base.fuel,
        ctx.base.fuel_address,
        ctx.base.fuel_value,
        fee,
        ctx.base.collateral_percent,
    )
    &&& byte_views(t.required_signers@) == byte_views(ctx.base.administrators@)
    &&& t.redeemers@.len() == 4
    &&& t.redeemers@[0].purpose is Mint && t.redeemers@[0].index == 0 && is_void_term(
        t.redeemers@[0].data,
    ) && t.redeemers@[0].ex_units == units[0]
    &&& t.redeemers@[1].purpose is Spend && t.redeemers@[1].index == pair.1 && is_void_term(
        t.redeemers@[1].data,
    ) && t.redeemers@[1].ex_units == units[1]
    &&& t.redeemers@[2].purpose is Cert && t.redeemers@[2].index == 0 && is_void_term(
        t.redeemers@[2].data,
    ) && t.redeemers@[2].ex_units == units[2]
    &&& t.redeemers@[3].purpose is Cert && t.redeemers@[3].index == 1 && is_rules_term_for(
        t.redeemers@[3].data,
        byte_views(ctx.base.delegates@),
        ctx.base.quorum,
    ) && t.redeemers@[3].ex_units == units[3]
    &&& t.script_data_hash matches Some(h) && commits_to(h@, t.redeemers@, ctx.base.cost_model@)
    &&& t.network_mainnet == Some(ctx.base.mainnet)
    &&& t.script matches Some(s) && s@ == ctx.base.validator@
    &&& t.success == true
    &&& tx_wf(t)
}

/// Assembles the re-delegation transaction for a given fee and execution
/// units: spends the contract output, burns its old state token while
/// minting the new one in the same mint map, re-registers the voting
/// entity with an unregister-then-register certificate pair, and returns
/// change to the fuel owner. Inputs are sorted canonically before the
/// spend redeemer's index is assigned from the contract input's position
/// within that order. Fails exactly when the cost or collateral arithmetic
/// leaves 64 bits, or when the fuel cannot cover the net cost or the
/// collateral with a positive remainder.
pub fn build_redelegate(
    ctx: &RedelegateContext,
    fee: u64,
    ex_units: &Vec<ExUnitsPair>,
) -> (r: Result<Transaction, Error>)
    requires
        redelegate_ctx_wf(*ctx),
        ex_units@.len() >= 4,
    ensures
        ({
            let collateral = crate::params::spec_ceil_mul(fee, ctx.base.collateral_percent);
            let gross = spec_lovelace_of(ctx.base.contract_output.value) + fee;
            let old = spec_lovelace_of(ctx.contract_value);
            let fuel = spec_lovelace_of(ctx.base.fuel_value);
            &&& (r matches Ok(t) ==> redelegate_built(*ctx, fee, ex_units@, t))
            &&& (collateral <= u64::MAX && gross <= u64::MAX && gross >= old && fuel > gross - old
                && fuel > collateral ==> r is Ok)
            &&& (r == Err::<Transaction, Error>(Error::NumericOverflow) ==> collateral > u64::MAX
                || gross > u64::MAX || gross < old)
            &&& (r == Err::<Transaction, Error>(Error::InsufficientFunds) ==> gross <= u64::MAX
                && gross >= old && (fuel <= gross - old || fuel <= collateral))
            &&& (r is Err ==> r == Err::<Transaction, Error>(Error::NumericOverflow) || r == Err::<
                Transaction,
                Error,
            >(Error::InsufficientFunds))
        }),
{
    let total_collateral = match crate::params::ceil_mul(fee, &ctx.base.collateral_percent) {
        Ok(v) => v,
        Err(e) => { return Err(e) },
    };
    let gross = match checked_add(lovelace_of(&ctx.base.contract_output.value), fee) {
        Ok(v) => v,
        Err(e) => { return Err(e) },
    };
    let old_lovelace = lovelace_of(&ctx.contract_value);
    if gross < old_lovelace {
        return Err(Error::NumericOverflow);
    }
    let total_cost = gross - old_lovelace;
    let change_value = match subtract(clone_value(&ctx.base.fuel_value), total_cost) {
        Some(v) => v,
        None => { return Err(Error::InsufficientFunds) },
    };
    let collateral_value = match subtract(clone_value(&ctx.base.fuel_value), total_collateral) {
        Some(v) => v,
        None => { return Err(Error::InsufficientFunds) },
    };
    let rules = match encode_rules(&ctx.base.delegates, ctx.base.quorum) {
        Ok(t) => t,
        Err(e) => { return Err(e) },
    };
    let mut inputs: Vec<InputRef> = Vec::new();
    let spend_index: u32 = if crate::tx::input_le(&ctx.contract, &ctx.base.fuel) {
        inputs.push(clone_input(&ctx.contract));
        inputs.push(clone_input(&ctx.base.fuel));
        0
    } else {
        inputs.push(clone_input(&ctx.base.fuel));
        inputs.push(clone_input(&ctx.contract));
        1
    };
    let mut redeemers: Vec<RedeemerEntry> = Vec::new();
    redeemers.push(
        RedeemerEntry {
            purpose: RedeemerPurpose::Mint,
            index: 0,
            data: void(),
            ex_units: ex_units[0],
        },
    );
    redeemers.push(
        RedeemerEntry {
            purpose: RedeemerPurpose::Spend,
            index: spend_index,
            data: void(),
            ex_units: ex_units[1],
        },
    );
    redeemers.push(
        RedeemerEntry {
            purpose: RedeemerPurpose::Cert,
            index: 0,
            data: void(),
            ex_units: ex_units[2],
        },
    );
    redeemers.push(
        RedeemerEntry {
            purpose: RedeemerPurpose::Cert,
            index: 1,
            data: rules,
            ex_units: ex_units[3],
        },
    );
    let script_data_hash = commitment_for(&redeemers, &ctx.base.cost_model);
    let mut outputs: Vec<TxOutput> = Vec::new();
    outputs.push(
        TxOutput {
            address: clone_bytes(&ctx.base.contract_output.address),
            value: clone_value(&ctx.base.contract_output.value),
        },
    );
    outputs.push(TxOutput { address: clone_bytes(&ctx.base.fuel_address), value: change_value });
    let mut certificates: Vec<CertAction> = Vec::new();
    certificates.push(
        CertAction::UnRegDRep {
            script_hash: clone_bytes(&ctx.base.validator_hash),
            deposit: ctx.base.drep_deposit,
        },
    );
    certificates.push(
        CertAction::RegDRep {
            script_hash: clone_bytes(&ctx.base.validator_hash),
            deposit: ctx.base.drep_deposit,
        },
    );
    let mut mint_assets: Vec<crate::tx::MintAsset> = Vec::new();
    mint_assets.push(crate::tx::MintAsset { name: clone_bytes(&ctx.base.asset_name), amount: 1 });
    mint_assets.push(crate::tx::MintAsset { name: clone_bytes(&ctx.old_asset_name), amount: -1 });
    let mut collateral: Vec<InputRef> = Vec::new();
    collateral.push(clone_input(&ctx.base.fuel));
    let mut signers: Vec<Vec<u8>> = Vec::new();
    let mut i: usize = 0;
    while i < ctx.base.administrators.len()
        invariant
            i <= ctx.base.administrators@.len(),
            signers@.len() == i,
            forall|j: int| 0 <= j < i ==> (#[trigger] signers@[j])@ == ctx.base.administrators@[j]@,
        decreases ctx.base.administrators@.len() - i,
    {
        signers.push(ctx.base.administrators[i].clone());
        i = i + 1;
    }
    proof {
        assert(byte_views(signers@) =~= byte_views(ctx.base.administrators@));
    }
    Ok(
        Transaction {
            inputs,
            reference_inputs: Vec::new(),
            outputs,
            fee,
            certificates,
            mint: Some(
                crate::tx::MintBundle {
                    policy: clone_bytes(&ctx.base.validator_hash),
                    assets: mint_assets,
                },
            ),
            votes: Vec::new(),
            collateral,
            collateral_return: Some(
                TxOutput { address: clone_bytes(&ctx.base.fuel_address), value: collateral_value },
            ),
            total_collateral: Some(total_collateral),
            required_signers: signers,
            script_data_hash: Some(script_data_hash),
            network_mainnet: Some(ctx.base.mainnet),
            redeemers,
            script: Some(clone_bytes(&ctx.base.validator)),
            success: true,
        },
    )
}

/// Law: the rules recovered later from a delegation's minting witness are
/// structurally the rules the delegation encoded. The delegation's first
/// rules-bearing redeemer is its certificate redeemer, and its data term
/// is a rule term for exactly the delegate list and quorum that were
/// handed to the delegation.
pub proof fn lemma_recover_after_delegate(
    ctx: DelegateContext,
    fee: u64,
    units: Seq<ExUnitsPair>,
    t: Transaction,
)
    requires
        delegate_built(ctx, fee, units, t),
    ensures
        crate::rules::spec_recover(t.redeemers@) matches Some(rules) && is_rules_term_for(
            rules,
            byte_views(ctx.delegates@),
            ctx.quorum,
        ),
{
    let rs = t.redeemers@;
    assert(!crate::rules::is_rules_bearing(rs[0]));
    assert(crate::rules::is_rules_bearing(rs[1]));
    assert(rs.skip(1)[0] == rs[1]);
    assert(crate::rules::spec_recover(rs.skip(1)) == Some(rs[1].data));
    assert(crate::rules::spec_recover(rs) == Some(rs[1].data));
}

/// The resolved, fee-independent data the vote builder reads.
pub struct VoteContext {
    /// The fuel input being spent.
    pub fuel: InputRef,
    /// The address the fuel output sits at; change returns there.
    pub fuel_address: Vec<u8>,
    /// The value the fuel input carries.
    pub fuel_value: Value,
    /// The contract input referenced, not spent, for its state token.
    pub contract: InputRef,
    /// The validator bytecode attached to the witness set.
    pub validator: Vec<u8>,
    /// The validator script hash: the voting credential.
    pub validator_hash: Vec<u8>,
    /// The delegate key hashes that will sign the transaction.
    pub delegates: Vec<Vec<u8>>,
    /// The delegate identities recovered from the minting transaction.
    pub rules_delegates: Vec<Vec<u8>>,
    /// The quorum recovered from the minting transaction.
    pub rules_quorum: u64,
    /// The governance action voted on.
    pub proposal: crate::tx::GovAction,
    /// The vote being cast.
    pub choice: crate::tx::VoteChoice,
    /// The optional rationale document anchor.
    pub anchor: Option<crate::tx::AnchorInfo>,
    /// The collateral requirement as a fraction of the fee.
    pub collateral_percent: crate::params::Ratio,
    /// The cost model committed to by the integrity hash.
    pub cost_model: Vec<i64>,
    /// Whether the transaction is for the main network.
    pub mainnet: bool,
}

/// What the context of the vote operation must satisfy.
pub open spec fn vote_ctx_wf(ctx: VoteContext) -> bool {
    &&& ctx.fuel.transaction_id@.len() == 32
    &&& ctx.contract.transaction_id@.len() == 32
    &&& value_wf(ctx.fuel_value)
    &&& ctx.validator_hash@.len() == 28
    &&& forall|i: int| 0 <= i < ctx.delegates@.len() ==> (#[trigger] ctx.delegates@[i])@.len()
        == 28
    &&& ctx.rules_delegates@.len() > 0
    &&& 1 <= ctx.rules_quorum <= ctx.rules_delegates@.len()
    &&& ctx.rules_quorum <= 0x7fff_ffff_ffff_ffff
    &&& ctx.proposal.transaction_id@.len() == 32
    &&& (ctx.anchor matches Some(a) ==> a.content_hash@.len() == 32)
    &&& ctx.collateral_percent.den > 0
    &&& crate::bridge::address_parses(ctx.fuel_address@)
}

/// View-level equality of two optional anchors.
pub open spec fn anchor_matches(a: Option<crate::tx::AnchorInfo>, b: Option<crate::tx::AnchorInfo>) -> bool {
    match (a, b) {
        (Some(x), Some(y)) => x.url@ == y.url@ && x.content_hash@ == y.content_hash@,
        (None, None) => true,
        _ => false,
    }
}

/// Exactly what the vote builder produces for a given fee and execution
/// units.
pub open spec fn vote_built(
    ctx: VoteContext,
    fee: u64,
    units: Seq<ExUnitsPair>,
    t: Transaction,
) -> bool {
    &&& t.inputs@.len() == 1 && spec_input_eq(t.inputs@[0], ctx.fuel)
    &&& t.reference_inputs@.len() == 1 && spec_input_eq(t.reference_inputs@[0], ctx.contract)
    &&& t.outputs@.len() == 1
    &&& t.outputs@[0].address@ == ctx.fuel_address@
    &&& same_assets(t.outputs@[0].value, ctx.fuel_value)
    &&& spec_lovelace_of(t.outputs@[0].value) == spec_lovelace_of(ctx.fuel_value) - fee
    &&& t.fee == fee
    &&& t.certificates@.len() == 0
    &&& t.mint is None
    &&& t.votes@.len() == 1
    &&& t.votes@[0].voter_script@ == ctx.validator_hash@
    &&& t.votes@[0].action.transaction_id@ == ctx.proposal.transaction_id@
    &&& t.votes@[0].action.action_index == ctx.proposal.action_index
    &&& t.votes@[0].choice == ctx.choice
    &&& anchor_matches(t.votes@[0].anchor, ctx.anchor)
    &&& collateral_built(t, ctx.fuel, ctx.fuel_address, ctx.fuel_value, fee, ctx.collateral_percent)
    &&& byte_views(t.required_signers@) == byte_views(ctx.delegates@)
    &&& t.redeemers@.len() == 1
    &&& t.redeemers@[0].purpose is Vote && t.redeemers@[0].index == 0 && is_rules_term_for(
        t.redeemers@[0].data,
        byte_views(ctx.rules_delegates@),
        ctx.rules_quorum,
    ) && t.redeemers@[0].ex_units == units[0]
    &&& t.script_data_hash matches Some(h) && commits_to(h@, t.redeemers@, ctx.cost_model@)
    &&& t.network_mainnet == Some(ctx.mainnet)
    &&& t.script matches Some(s) && s@ == ctx.validator@
    &&& t.success == true
    &&& tx_wf(t)
}

/// Assembles the vote transaction for a given fee and execution units:
/// spends the fuel input, references (does not spend) the contract output,
/// records exactly one vote of the script voter on the proposal with the
/// optional rationale anchor, and attaches one vote redeemer carrying the
/// recovered rules. Fails exactly when the collateral arithmetic leaves
/// 64 bits, or when the fuel cannot cover the fee or the collateral with a
/// positive remainder.
pub fn build_vote(
    ctx: &VoteContext,
    fee: u64,
    ex_units: &Vec<ExUnitsPair>,
) -> (r: Result<Transaction, Error>)
    requires
        vote_ctx_wf(*ctx),
        ex_units@.len() >= 4,
    ensures
        ({
            let collateral = crate::params::spec_ceil_mul(fee, ctx.collateral_percent);
            let fuel = spec_lovelace_of(ctx.fuel_value);
            &&& (r matches Ok(t) ==> vote_built(*ctx, fee, ex_units@, t))
            &&& (collateral <= u64::MAX && fuel > fee && fuel > collateral ==> r is Ok)
            &&& (r == Err::<Transaction, Error>(Error::NumericOverflow) ==> collateral > u64::MAX)
            &&& (r == Err::<Transaction, Error>(Error::InsufficientFunds) ==> fuel <= fee || fuel
                <= collateral)
            &&& (r is Err ==> r == Err::<Transaction, Error>(Error::NumericOverflow) || r == Err::<
                Transaction,
                Error,
            >(Error::InsufficientFunds))
        }),
{
    let total_collateral = match crate::params::ceil_mul(fee, &ctx.collateral_percent) {
        Ok(v) => v,
        Err(e) => { return Err(e) },
    };
    let change_value = match subtract(clone_value(&ctx.fuel_value), fee) {
        Some(v) => v,
        None => { return Err(Error::InsufficientFunds) },
    };
    let collateral_value = match subtract(clone_value(&ctx.fuel_value), total_collateral) {
        Some(v) => v,
        None => { return Err(Error::InsufficientFunds) },
    };
    let rules = match encode_rules(&ctx.rules_delegates, ctx.rules_quorum) {
        Ok(t) => t,
        Err(e) => { return Err(e) },
    };
    let mut redeemers: Vec<RedeemerEntry> = Vec::new();
    redeemers.push(
        RedeemerEntry {
            purpose: RedeemerPurpose::Vote,
            index: 0,
            data: rules,
            ex_units: ex_units[0],
        },
    );
    let script_data_hash = commitment_for(&redeemers, &ctx.cost_model);
    let mut inputs: Vec<InputRef> = Vec::new();
    inputs.push(clone_input(&ctx.fuel));
    let mut reference_inputs: Vec<InputRef> = Vec::new();
    reference_inputs.push(clone_input(&ctx.contract));
    let mut outputs: Vec<TxOutput> = Vec::new();
    outputs.push(TxOutput { address: clone_bytes(&ctx.fuel_address), value: change_value });
    let anchor = match &ctx.anchor {
        Some(a) => Some(
            crate::tx::AnchorInfo {
                url: a.url.clone(),
                content_hash: clone_bytes(&a.content_hash),
            },
        ),
        None => None,
    };
    let mut votes: Vec<VoteEntry> = Vec::new();
    votes.push(
        VoteEntry {
            voter_script: clone_bytes(&ctx.validator_hash),
            action: crate::tx::GovAction {
                transaction_id: clone_bytes(&ctx.proposal.transaction_id),
                action_index: ctx.proposal.action_index,
            },
            choice: ctx.choice,
            anchor,
        },
    );
    let mut collateral: Vec<InputRef> = Vec::new();
    collateral.push(clone_input(&ctx.fuel));
    let mut signers: Vec<Vec<u8>> = Vec::new();
    let mut i: usize = 0;
    while i < ctx.delegates.len()
        invariant
            i <= ctx.delegates@.len(),
            signers@.len() == i,
            forall|j: int| 0 <= j < i ==> (#[trigger] signers@[j])@ == ctx.delegates@[j]@,
        decreases ctx.delegates@.len() - i,
    {
        signers.push(ctx.delegates[i].clone());
        i = i + 1;
    }
    proof {
        assert(byte_views(signers@) =~= byte_views(ctx.delegates@));
    }
    Ok(
        Transaction {
            inputs,
            reference_inputs,
            outputs,
            fee,
            certificates: Vec::new(),
            mint: None,
            votes,
            collateral,
            collateral_return: Some(
                TxOutput { address: clone_bytes(&ctx.fuel_address), value: collateral_value },
            ),
            total_collateral: Some(total_collateral),
            required_signers: signers,
            script_data_hash: Some(script_data_hash),
            network_mainnet: Some(ctx.mainnet),
            redeemers,
            script: Some(clone_bytes(&ctx.validator)),
            success: true,
        },
    )
}

} // verus!
