//! Fee / execution-unit convergence engine: repeatedly re-composes the
//! transaction, measures it, and re-estimates the fee until the declared
//! fee covers the estimate and the measured execution units repeat.

use vstd::prelude::*;
use crate::bridge;
use crate::compose::{
    assign_stake_built, assign_stake_ctx_wf, build_assign_stake, build_delegate, build_redelegate,
    build_vote, delegate_built, delegate_ctx_wf, redelegate_built, redelegate_ctx_wf, vote_built,
    vote_ctx_wf, AssignStakeContext, DelegateContext, RedelegateContext, VoteContext,
};
use crate::error::Error;
use crate::params::{params_wf, spec_ceil_mul, ceil_mul, ProtocolParameters};
use crate::tx::{purpose_code, term_encodable, tx_wf, ExUnitsPair, Transaction};

verus! {

/// One governance operation's resolved context: what the builder reads
/// besides the fee and execution units.
pub enum OperationContext {
    AssignStake(AssignStakeContext),
    Delegate(DelegateContext),
    Redelegate(RedelegateContext),
    Vote(VoteContext),
}

/// Well-formedness of an operation context.
pub open spec fn operation_ctx_wf(ctx: OperationContext) -> bool {
    match ctx {
        OperationContext::AssignStake(c) => assign_stake_ctx_wf(c),
        OperationContext::Delegate(c) => delegate_ctx_wf(c),
        OperationContext::Redelegate(c) => redelegate_ctx_wf(c),
        OperationContext::Vote(c) => vote_ctx_wf(c),
    }
}

/// Exactly what the operation's builder produces for a given fee and
/// execution units.
pub open spec fn built_for(
    ctx: OperationContext,
    fee: u64,
    units: Seq<ExUnitsPair>,
    t: Transaction,
) -> bool {
    match ctx {
        OperationContext::AssignStake(c) => assign_stake_built(c, fee, t),
        OperationContext::Delegate(c) => delegate_built(c, fee, units, t),
        OperationContext::Redelegate(c) => redelegate_built(c, fee, units, t),
        OperationContext::Vote(c) => vote_built(c, fee, units, t),
    }
}

/// Builds the operation's transaction for the given fee and execution
/// units: a pure dispatch over the resolved context, identical in every
/// iteration of the convergence search.
pub fn build_with(
    ctx: &OperationContext,
    fee: u64,
    ex_units: &Vec<ExUnitsPair>,
) -> (r: Result<Transaction, Error>)
    requires
        operation_ctx_wf(*ctx),
        ex_units@.len() >= 4,
    ensures
        r matches Ok(t) ==> built_for(*ctx, fee, ex_units@, t),
        r is Err ==> r == Err::<Transaction, Error>(Error::NumericOverflow) || r == Err::<
            Transaction,
            Error,
        >(Error::InsufficientFunds),
{
    match ctx {
        OperationContext::AssignStake(c) => build_assign_stake(c, fee),
        OperationContext::Delegate(c) => build_delegate(c, fee, ex_units),
        OperationContext::Redelegate(c) => build_redelegate(c, fee, ex_units),
        OperationContext::Vote(c) => build_vote(c, fee, ex_units),
    }
}

/// Whether every address the transaction itself carries decodes: its
/// outputs' and its collateral return's. The external evaluator aborts on
/// an address that does not parse.
pub open spec fn tx_addresses_parse(t: Transaction) -> bool {
    &&& forall|i: int|
        0 <= i < t.outputs@.len() ==> bridge::address_parses((#[trigger] t.outputs@[i]).address@)
    &&& (t.collateral_return matches Some(o) ==> bridge::address_parses(o.address@))
}

/// The structural coupling the wire encoding needs: collateral fields come
/// together, and at most one vote is recorded.
pub open spec fn tx_coherent(t: Transaction) -> bool {
    &&& t.collateral@.len() > 0 ==> (t.collateral_return is Some && t.total_collateral is Some
        && t.script_data_hash is Some && t.network_mainnet is Some)
    &&& t.votes@.len() <= 1
}

/// Converts a transaction into its host body and witness set through the
/// trusted constructors. Total on well-formed, coherent transactions; the
/// serializer unwraps it.
pub fn convert_transaction(t: &Transaction) -> (r: Option<(bridge::SealedBody, bridge::SealedWitness)>)
    requires
        tx_wf(*t),
        tx_coherent(*t),
    ensures
        r is Some,
{
    let mut p_inputs: Vec<pallas_primitives::conway::TransactionInput> = Vec::new();
    let mut i: usize = 0;
    while i < t.inputs.len()
        invariant
            tx_wf(*t),
        decreases t.inputs@.len() - i,
    {
        p_inputs.push(bridge::px_input(&t.inputs[i].transaction_id, t.inputs[i].index));
        i = i + 1;
    }
    let mut p_outputs: Vec<bridge::SealedOutput> = Vec::new();
    i = 0;
    while i < t.outputs.len()
        invariant
            tx_wf(*t),
        decreases t.outputs@.len() - i,
    {
        p_outputs.push(bridge::px_output(&t.outputs[i].address, &t.outputs[i].value));
        i = i + 1;
    }
    let p_certs: Option<Vec<pallas_primitives::conway::Certificate>> = if t.certificates.len()
        == 0 {
        None
    } else {
        let mut cs: Vec<pallas_primitives::conway::Certificate> = Vec::new();
        i = 0;
        while i < t.certificates.len()
            invariant
                tx_wf(*t),
                t.certificates@.len() > 0,
                cs@.len() == i,
            decreases t.certificates@.len() - i,
        {
            cs.push(bridge::px_cert(&t.certificates[i]));
            i = i + 1;
        }
        Some(cs)
    };
    let mut body = bridge::px_body_core(p_inputs, p_outputs, t.fee, p_certs);
    if t.collateral.len() > 0 {
        let p_refs: Option<Vec<pallas_primitives::conway::TransactionInput>> = if
            t.reference_inputs.len() == 0 {
            None
        } else {
            let mut rs: Vec<pallas_primitives::conway::TransactionInput> = Vec::new();
            i = 0;
            while i < t.reference_inputs.len()
                invariant
                    tx_wf(*t),
                    t.reference_inputs@.len() > 0,
                    rs@.len() == i,
                decreases t.reference_inputs@.len() - i,
            {
                rs.push(
                    bridge::px_input(
                        &t.reference_inputs[i].transaction_id,
                        t.reference_inputs[i].index,
                    ),
                );
                i = i + 1;
            }
            Some(rs)
        };
        let p_mint: Option<(Vec<u8>, Vec<(Vec<u8>, i64)>)> = match &t.mint {
            Some(m) => {
                let mut assets: Vec<(Vec<u8>, i64)> = Vec::new();
                i = 0;
                while i < m.assets.len()
                    invariant
                        tx_wf(*t),
                        t.mint matches Some(mm) && mm.assets@ == m.assets@ && mm.policy@
                            == m.policy@,
                        assets@.len() == i,
                        i <= m.assets@.len(),
                        forall|j: int| 0 <= j < i ==> (#[trigger] assets@[j]).1 != 0,
                    decreases m.assets@.len() - i,
                {
                    assets.push((m.assets[i].name.clone(), m.assets[i].amount));
                    i = i + 1;
                }
                Some((m.policy.clone(), assets))
            },
            None => None,
        };
        let mut p_collateral: Vec<pallas_primitives::conway::TransactionInput> = Vec::new();
        i = 0;
        while i < t.collateral.len()
            invariant
                tx_wf(*t),
                p_collateral@.len() == i,
                i <= t.collateral@.len(),
            decreases t.collateral@.len() - i,
        {
            p_collateral.push(
                bridge::px_input(&t.collateral[i].transaction_id, t.collateral[i].index),
            );
            i = i + 1;
        }
        let p_col_ret = match &t.collateral_return {
            Some(o) => bridge::px_output(&o.address, &o.value),
            None => {
                proof {
                    assert(false);
                }
                return None;
            },
        };
        let p_total = match t.total_collateral {
            Some(v) => v,
            None => {
                proof {
                    assert(false);
                }
                return None;
            },
        };
        let p_sdh = match &t.script_data_hash {
            Some(h) => h.clone(),
            None => {
                proof {
                    assert(false);
                }
                return None;
            },
        };
        let p_mainnet = match t.network_mainnet {
            Some(b) => b,
            None => {
                proof {
                    assert(false);
                }
                return None;
            },
        };
        let p_signers: Option<Vec<Vec<u8>>> = if t.required_signers.len() == 0 {
            None
        } else {
            let mut ss: Vec<Vec<u8>> = Vec::new();
            i = 0;
            while i < t.required_signers.len()
                invariant
                    tx_wf(*t),
                    t.required_signers@.len() > 0,
                    ss@.len() == i,
                    i <= t.required_signers@.len(),
                    forall|j: int| 0 <= j < i ==> (#[trigger] ss@[j])@.len() == 28,
                decreases t.required_signers@.len() - i,
            {
                ss.push(t.required_signers[i].clone());
                i = i + 1;
            }
            Some(ss)
        };
        if let Some(refs) = p_refs {
            body = bridge::px_body_refs(body, refs);
        }
        if let Some((policy, assets)) = p_mint {
            body = bridge::px_body_mint(body, &policy, assets);
        }
        body = bridge::px_body_collateral(body, p_collateral, p_col_ret, p_total);
        if let Some(ss) = p_signers {
            body = bridge::px_body_signers(body, ss);
        }
        body = bridge::px_body_commit(body, &p_sdh, p_mainnet);
    }
    if t.votes.len() > 0 {
        let v = &t.votes[0];
        let choice_code: u8 = match v.choice {
            crate::tx::VoteChoice::Yes => 0,
            crate::tx::VoteChoice::No => 1,
            crate::tx::VoteChoice::Abstain => 2,
        };
        let anchor: Option<(String, Vec<u8>)> = match &v.anchor {
            Some(a) => Some((a.url.clone(), a.content_hash.clone())),
            None => None,
        };
        body = bridge::px_body_vote(
            body,
            &v.voter_script,
            &v.action.transaction_id,
            v.action.action_index,
            choice_code,
            bridge::px_anchor(anchor),
        );
    }
    let p_redeemers: Option<Vec<(u8, u32, pallas_primitives::conway::PlutusData, u64, u64)>> = if
        t.redeemers.len() == 0 {
        None
    } else {
        let mut rs: Vec<(u8, u32, pallas_primitives::conway::PlutusData, u64, u64)> = Vec::new();
        i = 0;
        while i < t.redeemers.len()
            invariant
                tx_wf(*t),
                t.redeemers@.len() > 0,
                rs@.len() == i,
                i <= t.redeemers@.len(),
                forall|j: int| 0 <= j < i ==> (#[trigger] rs@[j]).0 <= 5,
            decreases t.redeemers@.len() - i,
        {
            let e = &t.redeemers[i];
            let data = match bridge::term_to_pallas(&e.data) {
                Ok(d) => d,
                Err(_) => {
                    proof {
                        assert(term_encodable(t.redeemers@[i as int].data));
                        assert(false);
                    }
                    return None;
                },
            };
            let code = purpose_code(e.purpose);
            rs.push((code, e.index, data, e.ex_units.mem, e.ex_units.steps));
            i = i + 1;
        }
        Some(rs)
    };
    let p_script: Option<Vec<u8>> = match &t.script {
        Some(s) => Some(s.clone()),
        None => None,
    };
    let witness = bridge::px_witness(p_redeemers, p_script);
    Some((body, witness))
}

/// The execution cost of a redeemer collection: each budget priced and
/// rounded up, then summed.
pub open spec fn spec_exec_cost(p: ProtocolParameters, units: Seq<ExUnitsPair>) -> int
    decreases units.len(),
{
    if units.len() == 0 {
        0
    } else {
        spec_ceil_mul(units[0].mem, p.price_mem) + spec_ceil_mul(units[0].steps, p.price_steps)
            + spec_exec_cost(p, units.skip(1))
    }
}

proof fn lemma_exec_cost_nonneg(p: ProtocolParameters, units: Seq<ExUnitsPair>)
    requires
        params_wf(p),
    ensures
        spec_exec_cost(p, units) >= 0,
    decreases units.len(),
{
    if units.len() > 0 {
        lemma_exec_cost_nonneg(p, units.skip(1));
        assert(units[0].mem * p.price_mem.num >= 0) by (nonlinear_arith);
        assert(units[0].steps * p.price_steps.num >= 0) by (nonlinear_arith);
        assert(spec_ceil_mul(units[0].mem, p.price_mem) >= 0) by (nonlinear_arith)
            requires
                units[0].mem * p.price_mem.num >= 0,
                p.price_mem.den >= 1,
        ;
        assert(spec_ceil_mul(units[0].steps, p.price_steps) >= 0) by (nonlinear_arith)
            requires
                units[0].steps * p.price_steps.num >= 0,
                p.price_steps.den >= 1,
        ;
    }
}

proof fn lemma_exec_cost_step(p: ProtocolParameters, units: Seq<ExUnitsPair>, i: int)
    requires
        0 <= i < units.len(),
    ensures
        spec_exec_cost(p, units.take(i + 1)) == spec_exec_cost(p, units.take(i)) + spec_ceil_mul(
            units[i].mem,
            p.price_mem,
        ) + spec_ceil_mul(units[i].steps, p.price_steps),
    decreases i,
{
    if i == 0 {
        assert(units.take(1).skip(1) =~= units.take(0));
        assert(units.take(1)[0] == units[0]);
        assert(spec_exec_cost(p, units.take(0)) == 0);
    } else {
        lemma_exec_cost_step(p, units.skip(1), i - 1);
        assert(units.take(i + 1)[0] == units[0]);
        assert(units.take(i)[0] == units[0]);
        assert(units.take(i + 1).skip(1) =~= units.skip(1).take(i));
        assert(units.take(i).skip(1) =~= units.skip(1).take(i - 1));
        assert(units.skip(1)[i - 1] == units[i]);
    }
}

/// Sums the priced, rounded-up execution budgets of every redeemer slot.
/// Fails exactly when the total leaves 64 bits.
pub fn total_execution_cost(p: &ProtocolParameters, units: &Vec<ExUnitsPair>) -> (r: Result<
    u64,
    Error,
>)
    requires
        params_wf(*p),
    ensures
        r matches Ok(v) ==> v == spec_exec_cost(*p, units@),
        r is Err ==> spec_exec_cost(*p, units@) > u64::MAX && r == Err::<u64, Error>(
            Error::NumericOverflow,
        ),
{
    let mut acc: u64 = 0;
    let mut i: usize = 0;
    while i < units.len()
        invariant
            params_wf(*p),
            i <= units@.len(),
            acc == spec_exec_cost(*p, units@.take(i as int)),
        decreases units@.len() - i,
    {
        let mem_cost = match ceil_mul(units[i].mem, &p.price_mem) {
            Ok(v) => v,
            Err(_) => {
                proof {
                    overflow_implies_total(p, units@, i as int, acc);
                }
                return Err(Error::NumericOverflow);
            },
        };
        let steps_cost = match ceil_mul(units[i].steps, &p.price_steps) {
            Ok(v) => v,
            Err(_) => {
                proof {
                    overflow_implies_total(p, units@, i as int, acc);
                }
                return Err(Error::NumericOverflow);
            },
        };
        let step_sum: u128 = acc as u128 + mem_cost as u128 + steps_cost as u128;
        if step_sum > u64::MAX as u128 {
            proof {
                overflow_implies_total(p, units@, i as int, acc);
            }
            return Err(Error::NumericOverflow);
        }
        proof {
            lemma_exec_cost_step(*p, units@, i as int);
        }
        acc = (acc as u128 + mem_cost as u128 + steps_cost as u128) as u64;
        i = i + 1;
    }
    proof {
        assert(units@.take(units@.len() as int) =~= units@);
    }
    Ok(acc)
}

proof fn overflow_implies_total(p: &ProtocolParameters, units: Seq<ExUnitsPair>, i: int, acc: u64)
    requires
        params_wf(*p),
        0 <= i < units.len(),
        acc == spec_exec_cost(*p, units.take(i)),
        acc + spec_ceil_mul(units[i].mem, p.price_mem) + spec_ceil_mul(units[i].steps, p.price_steps)
            > u64::MAX,
    ensures
        spec_exec_cost(*p, units) > u64::MAX,
{
    lemma_exec_cost_step(*p, units, i);
    lemma_exec_cost_suffix(*p, units, i + 1);
}

proof fn lemma_exec_cost_suffix(p: ProtocolParameters, units: Seq<ExUnitsPair>, i: int)
    requires
        params_wf(p),
        0 <= i <= units.len(),
    ensures
        spec_exec_cost(p, units) >= spec_exec_cost(p, units.take(i)),
    decreases units.len() - i,
{
    if i == units.len() {
        assert(units.take(i) =~= units);
    } else {
        lemma_exec_cost_step(p, units, i);
        lemma_exec_cost_suffix(p, units, i + 1);
        assert(units[i].mem * p.price_mem.num >= 0) by (nonlinear_arith);
        assert(units[i].steps * p.price_steps.num >= 0) by (nonlinear_arith);
        assert(spec_ceil_mul(units[i].mem, p.price_mem) >= 0) by (nonlinear_arith)
            requires
                units[i].mem * p.price_mem.num >= 0,
                p.price_mem.den >= 1,
        ;
        assert(spec_ceil_mul(units[i].steps, p.price_steps) >= 0) by (nonlinear_arith)
            requires
                units[i].steps * p.price_steps.num >= 0,
                p.price_steps.den >= 1,
        ;
    }
}

/// The fee estimate for one candidate transaction: the linear fee rule
/// applied to the serialized size plus fixed allowances for each redeemer
/// slot and each expected signature, plus the priced execution cost.
pub open spec fn spec_estimated_fee(
    p: ProtocolParameters,
    slots: int,
    inputs_len: int,
    signers_len: int,
    size: int,
    units: Seq<ExUnitsPair>,
) -> int {
    p.fee_constant + p.fee_coefficient * (5 + slots * 16 + (inputs_len + signers_len) * 102 + size)
        + spec_exec_cost(p, units)
}

/// Computes the fee estimate. Fails exactly when it leaves 64 bits.
pub fn estimate_fee(
    p: &ProtocolParameters,
    slots: usize,
    inputs_len: usize,
    signers_len: usize,
    size: usize,
    units: &Vec<ExUnitsPair>,
) -> (r: Result<u64, Error>)
    requires
        params_wf(*p),
        slots == units@.len(),
    ensures
        r matches Ok(v) ==> v == spec_estimated_fee(
            *p,
            slots as int,
            inputs_len as int,
            signers_len as int,
            size as int,
            units@,
        ),
        r is Err ==> r == Err::<u64, Error>(Error::NumericOverflow) && spec_estimated_fee(
            *p,
            slots as int,
            inputs_len as int,
            signers_len as int,
            size as int,
            units@,
        ) > u64::MAX,
{
    let exec_cost = match total_execution_cost(p, units) {
        Ok(v) => v,
        Err(_) => {
            proof {
                nonneg_size_terms(p, slots as int, inputs_len as int, signers_len as int, size as int);
            }
            return Err(Error::NumericOverflow);
        },
    };
    let inner: u128 = 5u128 + (slots as u128) * 16 + ((inputs_len as u128) + (signers_len as u128))
        * 102 + (size as u128);
    let scaled: u128 = match (p.fee_coefficient as u128).checked_mul(inner) {
        Some(v) => v,
        None => {
            proof {
                lemma_exec_cost_nonneg(*p, units@);
            }
            return Err(Error::NumericOverflow);
        },
    };
    let total: u128 = match (p.fee_constant as u128).checked_add(scaled) {
        Some(v) => match v.checked_add(exec_cost as u128) {
            Some(w) => w,
            None => {
                proof {
                    lemma_exec_cost_nonneg(*p, units@);
                }
                return Err(Error::NumericOverflow);
            },
        },
        None => {
            proof {
                lemma_exec_cost_nonneg(*p, units@);
            }
            return Err(Error::NumericOverflow);
        },
    };
    if total > u64::MAX as u128 {
        return Err(Error::NumericOverflow);
    }
    Ok(total as u64)
}

proof fn nonneg_size_terms(p: &ProtocolParameters, slots: int, inputs_len: int, signers_len: int, size: int)
    requires
        params_wf(*p),
        slots >= 0,
        inputs_len >= 0,
        signers_len >= 0,
        size >= 0,
    ensures
        p.fee_coefficient * (5 + slots * 16 + (inputs_len + signers_len) * 102 + size) >= 0,
{
    assert(5 + slots * 16 + (inputs_len + signers_len) * 102 + size >= 0) by (nonlinear_arith)
        requires
            slots >= 0,
            inputs_len >= 0,
            signers_len >= 0,
            size >= 0,
    ;
    assert(p.fee_coefficient * (5 + slots * 16 + (inputs_len + signers_len) * 102 + size) >= 0)
        by (nonlinear_arith)
        requires
            p.fee_coefficient >= 0,
            5 + slots * 16 + (inputs_len + signers_len) * 102 + size >= 0,
    ;
}

/// Whether the measured execution units repeat the units the candidate was
/// built with, compared pairwise over the shorter of the two collections.
pub open spec fn spec_units_match(calculated: Seq<ExUnitsPair>, used: Seq<ExUnitsPair>) -> bool {
    forall|i: int|
        0 <= i < calculated.len() && i < used.len() ==> (#[trigger] calculated[i]) == used[i]
}

/// Decides whether the measured execution units repeat the units used.
pub fn units_match(calculated: &Vec<ExUnitsPair>, used: &Vec<ExUnitsPair>) -> (r: bool)
    ensures
        r == spec_units_match(calculated@, used@),
{
    let mut i: usize = 0;
    while i < calculated.len() && i < used.len()
        invariant
            i <= calculated@.len(),
            i <= used@.len(),
            forall|j: int| 0 <= j < i ==> (#[trigger] calculated@[j]) == used@[j],
        decreases calculated@.len() - i,
    {
        if !(calculated[i].mem == used[i].mem && calculated[i].steps == used[i].steps) {
            return false;
        }
        i = i + 1;
    }
    true
}

/// The convergence test: the declared fee covers the estimate, and the
/// measured execution units repeat the units the candidate was built with.
pub open spec fn spec_converged(
    fee: u64,
    estimated: u64,
    used: Seq<ExUnitsPair>,
    calculated: Seq<ExUnitsPair>,
) -> bool {
    fee >= estimated && spec_units_match(calculated, used)
}

/// Law: when the first estimate is positive, the search cannot stop at the
/// first iteration (the initial fee is zero); and when the second estimate
/// does not exceed the first while the measured units repeat, the search
/// stops exactly at the second iteration, with the first estimate as the
/// final fee and the second iteration's transaction as the result.
pub proof fn lemma_second_iteration_convergence(
    first_estimate: u64,
    second_estimate: u64,
    initial_units: Seq<ExUnitsPair>,
    first_measured: Seq<ExUnitsPair>,
    second_measured: Seq<ExUnitsPair>,
)
    requires
        first_estimate > 0,
        second_estimate <= first_estimate,
        spec_units_match(second_measured, first_measured),
    ensures
        !spec_converged(0, first_estimate, initial_units, first_measured),
        spec_converged(first_estimate, second_estimate, first_measured, second_measured),
{
}

/// Four zeroed execution-unit slots: the initial budget of every search.
pub fn empty_ex_units() -> (r: Vec<ExUnitsPair>)
    ensures
        r@.len() == 4,
        forall|i: int| 0 <= i < 4 ==> (#[trigger] r@[i]) == (ExUnitsPair { mem: 0, steps: 0 }),
{
    let mut v: Vec<ExUnitsPair> = Vec::new();
    v.push(ExUnitsPair { mem: 0, steps: 0 });
    v.push(ExUnitsPair { mem: 0, steps: 0 });
    v.push(ExUnitsPair { mem: 0, steps: 0 });
    v.push(ExUnitsPair { mem: 0, steps: 0 });
    v
}

/// The result of a converged search: the final transaction, the fee and
/// execution units it was built with, its serialized size, and how many
/// iterations were spent.
pub struct PricedTransaction {
    pub tx: Transaction,
    pub fee: u64,
    pub ex_units: Vec<ExUnitsPair>,
    /// The execution units the evaluator measured for `bytes`, padded with
    /// zeroed slots.
    pub measured: Vec<ExUnitsPair>,
    /// The canonical serialization of `tx`: the exact bytes that were
    /// measured and priced.
    pub bytes: Vec<u8>,
    pub attempts: usize,
}

/// Drives the fixed-point search: builds a candidate with the current fee
/// and execution units, serializes it, measures its execution units
/// through the external evaluator when script-locked inputs are present,
/// re-estimates the fee from the size and cost, and stops when the fee
/// covers the estimate and the measured units repeat. The returned
/// transaction is exactly the one whose serialized bytes were measured.
/// Gives up after three attempts without convergence.
pub fn run_convergence(
    params: &ProtocolParameters,
    ctx: &OperationContext,
    resolved: &Vec<uplc::tx::ResolvedInput>,
) -> (r: Result<PricedTransaction, Error>)
    requires
        params_wf(*params),
        operation_ctx_wf(*ctx),
    ensures
        r matches Ok(p) ==> {
            &&& built_for(*ctx, p.fee, p.ex_units@, p.tx)
            &&& p.ex_units@.len() >= 4
            &&& p.fee >= spec_estimated_fee(
                *params,
                p.ex_units@.len() as int,
                p.tx.inputs@.len() as int,
                p.tx.required_signers@.len() as int,
                p.bytes@.len() as int,
                p.ex_units@,
            )
            &&& spec_units_match(p.measured@, p.ex_units@)
            &&& p.bytes@ == bridge::cbor_tx_of(p.tx)
            &&& 1 <= p.attempts <= 3
        },
        r is Err ==> r == Err::<PricedTransaction, Error>(Error::NumericOverflow) || r == Err::<
            PricedTransaction,
            Error,
        >(Error::InsufficientFunds) || r == Err::<PricedTransaction, Error>(
            Error::EvaluationFailed,
        ) || r == Err::<PricedTransaction, Error>(Error::DidNotConverge),
        r == Err::<PricedTransaction, Error>(Error::EvaluationFailed) ==> resolved@.len() > 0,
{
    let mut fee: u64 = 0;
    let mut ex_units: Vec<ExUnitsPair> = empty_ex_units();
    let mut attempts: usize = 0;
    loop
        invariant
            params_wf(*params),
            operation_ctx_wf(*ctx),
            ex_units@.len() >= 4,
            attempts <= 2,
        decreases 3 - attempts,
    {
        let t = match build_with(ctx, fee, &ex_units) {
            Ok(t) => t,
            Err(e) => { return Err(e) },
        };
        proof {
            assert(tx_coherent(t));
        }
        let bytes = bridge::px_seal_transaction(&t);
        let mut calculated: Vec<ExUnitsPair> = if resolved.len() == 0 {
            empty_ex_units()
        } else {
            proof {
                assert(tx_addresses_parse(t));
            }
            match bridge::px_evaluate(&bytes, resolved) {
                Some(measured) => {
                    let mut pairs: Vec<ExUnitsPair> = Vec::new();
                    let mut i: usize = 0;
                    while i < measured.len()
                        decreases measured@.len() - i,
                    {
                        pairs.push(
                            ExUnitsPair { mem: measured[i].0, steps: measured[i].1 },
                        );
                        i = i + 1;
                    }
                    pairs
                },
                None => { return Err(Error::EvaluationFailed) },
            }
        };
        calculated.push(ExUnitsPair { mem: 0, steps: 0 });
        calculated.push(ExUnitsPair { mem: 0, steps: 0 });
        calculated.push(ExUnitsPair { mem: 0, steps: 0 });
        calculated.push(ExUnitsPair { mem: 0, steps: 0 });
        attempts = attempts + 1;
        let estimated = match estimate_fee(
            params,
            ex_units.len(),
            t.inputs.len(),
            t.required_signers.len(),
            bytes.len(),
            &ex_units,
        ) {
            Ok(v) => v,
            Err(e) => { return Err(e) },
        };
        if fee >= estimated && units_match(&calculated, &ex_units) {
            return Ok(
                PricedTransaction { tx: t, fee, ex_units, measured: calculated, bytes, attempts },
            );
        } else if attempts >= 3 {
            return Err(Error::DidNotConverge);
        } else {
            ex_units = calculated;
            fee = estimated;
        }
    }
}

} // verus!
