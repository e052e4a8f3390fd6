//! Tests for the composers, the integrity hash, the fee rules and the
//! convergence engine, including an end-to-end stake assignment.

use drep_builder::bridge::{blake2b_256, hash_validator, script_address};
use drep_builder::compose::{
    build_assign_stake, build_redelegate, build_vote, AssignStakeContext, DelegateContext,
    RedelegateContext, VoteContext, STAKE_DEPOSIT,
};
use drep_builder::engine::{estimate_fee, units_match};
use drep_builder::error::Error;
use drep_builder::integrity::{script_integrity_hash, sort_language_views, LanguageView};
use drep_builder::ops;
use drep_builder::params::{ceil_mul, ProtocolParameters, Ratio};
use drep_builder::rules::{encode_rules, rules_asset_name, void};
use drep_builder::tx::{
    bytes_lt, input_le, CertAction, ExUnitsPair, GovAction, InputRef, RedeemerEntry,
    RedeemerPurpose, Transaction, TxOutput, VoteChoice,
};
use drep_builder::value::{lovelace_of, AssetEntry, PolicyEntry, Value};

fn sample_hash(fill: u8) -> Vec<u8> {
    vec![fill; 28]
}

fn sample_id(fill: u8) -> Vec<u8> {
    vec![fill; 32]
}

fn sample_params() -> ProtocolParameters {
    ProtocolParameters {
        fee_constant: 155_381,
        fee_coefficient: 44,
        price_mem: Ratio { num: 577, den: 10_000 },
        price_steps: Ratio { num: 721, den: 10_000_000 },
        collateral_percent: Ratio { num: 150, den: 100 },
        min_utxo_deposit_coefficient: 4_310,
        drep_deposit: 500_000_000,
        cost_model_v3: vec![1, 2, 3, 4, 5],
    }
}

fn zero_units() -> Vec<ExUnitsPair> {
    vec![ExUnitsPair { mem: 0, steps: 0 }; 4]
}

#[test]
fn ceil_mul_rounds_up() {
    let r = Ratio { num: 150, den: 100 };
    assert_eq!(ceil_mul(0, &r), Ok(0));
    assert_eq!(ceil_mul(100, &r), Ok(150));
    assert_eq!(ceil_mul(101, &r), Ok(152));
    assert_eq!(ceil_mul(1, &Ratio { num: 1, den: 3 }), Ok(1));
    assert_eq!(ceil_mul(u64::MAX, &Ratio { num: u64::MAX, den: 1 }), Err(Error::NumericOverflow));
}

#[test]
fn hash_wrappers_produce_fresh_digests() {
    let script = vec![0x51, 0x01, 0x01];
    let h = hash_validator(&script);
    assert_eq!(h.len(), 28);
    assert_ne!(&h[..3], &script[..]);
    let other = hash_validator(&vec![0x51, 0x01, 0x02]);
    assert_ne!(h, other);
    let d = blake2b_256(&script);
    assert_eq!(d.len(), 32);
    assert_ne!(&d[..3], &script[..]);
}

#[test]
fn script_address_depends_on_network() {
    let h = sample_hash(3);
    let main = script_address(&h, true);
    let test = script_address(&h, false);
    assert_ne!(main, test);
    assert!(main.len() > 28);
}

#[test]
fn language_views_sort_canonically() {
    let v1 = || LanguageView { language: 0, cost_model: vec![10] };
    let v2 = || LanguageView { language: 1, cost_model: vec![20] };
    let v3 = || LanguageView { language: 2, cost_model: vec![30] };
    let sorted = sort_language_views(vec![v3(), v1(), v2()]);
    let languages: Vec<u8> = sorted.iter().map(|v| v.language).collect();
    assert_eq!(languages, vec![0, 1, 2]);
}

#[test]
fn integrity_hash_ignores_view_order() {
    let redeemers = vec![RedeemerEntry {
        purpose: RedeemerPurpose::Mint,
        index: 0,
        data: void(),
        ex_units: ExUnitsPair { mem: 0, steps: 0 },
    }];
    let v1 = || LanguageView { language: 0, cost_model: vec![10, 11] };
    let v2 = || LanguageView { language: 1, cost_model: vec![20] };
    let v3 = || LanguageView { language: 2, cost_model: vec![30, 31, 32] };
    let h1 = script_integrity_hash(Some(&redeemers), None, vec![v1(), v2(), v3()]).unwrap();
    let h2 = script_integrity_hash(Some(&redeemers), None, vec![v3(), v1(), v2()]).unwrap();
    let h3 = script_integrity_hash(Some(&redeemers), None, vec![v2(), v3(), v1()]).unwrap();
    assert_eq!(h1, h2);
    assert_eq!(h1, h3);
    assert_eq!(h1.len(), 32);
    // A different cost model commits differently.
    let h4 = script_integrity_hash(
        Some(&redeemers),
        None,
        vec![LanguageView { language: 2, cost_model: vec![99] }],
    )
    .unwrap();
    assert_ne!(h1, h4);
}

#[test]
fn integrity_hash_absent_when_nothing_committed() {
    assert!(script_integrity_hash(None, None, vec![]).is_none());
}

#[test]
fn assign_stake_composer_balances_exactly() {
    let ctx = AssignStakeContext {
        fuel: InputRef { transaction_id: sample_id(1), index: 0 },
        fuel_value: Value::Coin(10_000_000),
        owner_key: sample_hash(2),
        owner_address: vec![0x61; 29],
        validator_hash: sample_hash(3),
    };
    let tx = build_assign_stake(&ctx, 170_000).expect("enough fuel");
    assert_eq!(tx.fee, 170_000);
    assert_eq!(tx.outputs.len(), 1);
    assert_eq!(lovelace_of(&tx.outputs[0].value), 10_000_000 - 170_000 - 2_000_000);
    assert_eq!(tx.certificates.len(), 1);
    match &tx.certificates[0] {
        CertAction::VoteRegDeleg { stake_key, drep_script, deposit } => {
            assert_eq!(stake_key, &sample_hash(2));
            assert_eq!(drep_script, &sample_hash(3));
            assert_eq!(*deposit, STAKE_DEPOSIT);
        }
        other => panic!("unexpected certificate: {:?}", std::mem::discriminant(other)),
    }
    assert!(tx.redeemers.is_empty());
    assert!(tx.mint.is_none());
}

#[test]
fn assign_stake_composer_rejects_deficient_fuel() {
    let ctx = AssignStakeContext {
        fuel: InputRef { transaction_id: sample_id(1), index: 0 },
        fuel_value: Value::Coin(2_000_000),
        owner_key: sample_hash(2),
        owner_address: vec![0x61; 29],
        validator_hash: sample_hash(3),
    };
    assert!(matches!(build_assign_stake(&ctx, 170_000), Err(Error::InsufficientFunds)));
}

fn delegate_ctx() -> DelegateContext {
    let params = sample_params();
    let delegates = vec![sample_hash(10), sample_hash(11)];
    let rules = encode_rules(&delegates, 2).unwrap();
    let asset_name = rules_asset_name(&rules);
    DelegateContext {
        fuel: InputRef { transaction_id: sample_id(1), index: 1 },
        fuel_address: vec![0x61; 29],
        fuel_value: Value::Coin(1_000_000_000),
        validator: vec![0x51, 0x01, 0x01],
        validator_hash: sample_hash(3),
        administrators: vec![sample_hash(20)],
        delegates,
        quorum: 2,
        asset_name: asset_name.clone(),
        contract_output: TxOutput {
            address: vec![0x71; 29],
            value: Value::Multiasset(
                2_000_000,
                vec![PolicyEntry {
                    policy: sample_hash(3),
                    assets: vec![AssetEntry { name: asset_name, amount: 1 }],
                }],
            ),
        },
        drep_deposit: params.drep_deposit,
        collateral_percent: params.collateral_percent,
        cost_model: params.cost_model_v3,
        mainnet: false,
    }
}

#[test]
fn redelegate_composer_burns_old_and_mints_new() {
    let base = delegate_ctx();
    let new_name = base.asset_name.clone();
    let old_name = b"gov_old-token-name".to_vec();
    let ctx = RedelegateContext {
        contract: InputRef { transaction_id: sample_id(9), index: 0 },
        contract_value: Value::Multiasset(
            2_000_000,
            vec![PolicyEntry {
                policy: sample_hash(3),
                assets: vec![AssetEntry { name: old_name.clone(), amount: 1 }],
            }],
        ),
        old_asset_name: old_name.clone(),
        base,
    };
    let tx = build_redelegate(&ctx, 400_000, &zero_units()).expect("enough fuel");
    let mint = tx.mint.expect("mint present");
    assert_eq!(mint.policy, sample_hash(3));
    assert_eq!(mint.assets.len(), 2);
    assert_eq!(mint.assets[0].name, new_name);
    assert_eq!(mint.assets[0].amount, 1);
    assert_eq!(mint.assets[1].name, old_name);
    assert_eq!(mint.assets[1].amount, -1);
    // Two certificates: unregister then register.
    assert_eq!(tx.certificates.len(), 2);
    assert!(matches!(tx.certificates[0], CertAction::UnRegDRep { .. }));
    assert!(matches!(tx.certificates[1], CertAction::RegDRep { .. }));
    // The spend redeemer's index is the contract's position among sorted inputs.
    assert_eq!(tx.inputs.len(), 2);
    let spend = &tx.redeemers[1];
    assert!(matches!(spend.purpose, RedeemerPurpose::Spend));
    let at = spend.index as usize;
    assert_eq!(tx.inputs[at].transaction_id, sample_id(9));
}

#[test]
fn vote_composer_records_single_vote() {
    let params = sample_params();
    let ctx = VoteContext {
        fuel: InputRef { transaction_id: sample_id(1), index: 0 },
        fuel_address: vec![0x61; 29],
        fuel_value: Value::Coin(50_000_000),
        contract: InputRef { transaction_id: sample_id(2), index: 0 },
        validator: vec![0x51, 0x01, 0x01],
        validator_hash: sample_hash(3),
        delegates: vec![sample_hash(10)],
        rules_delegates: vec![sample_hash(10), sample_hash(11)],
        rules_quorum: 1,
        proposal: GovAction { transaction_id: sample_id(7), action_index: 3 },
        choice: VoteChoice::Yes,
        anchor: None,
        collateral_percent: params.collateral_percent,
        cost_model: params.cost_model_v3,
        mainnet: false,
    };
    let tx = build_vote(&ctx, 200_000, &zero_units()).expect("enough fuel");
    assert_eq!(tx.votes.len(), 1);
    assert_eq!(tx.votes[0].voter_script, sample_hash(3));
    assert_eq!(tx.votes[0].action.transaction_id, sample_id(7));
    assert_eq!(tx.votes[0].action.action_index, 3);
    assert!(matches!(tx.votes[0].choice, VoteChoice::Yes));
    assert!(tx.votes[0].anchor.is_none());
    assert_eq!(tx.reference_inputs.len(), 1);
    assert_eq!(tx.reference_inputs[0].transaction_id, sample_id(2));
    assert_eq!(tx.inputs.len(), 1);
    assert_eq!(lovelace_of(&tx.outputs[0].value), 50_000_000 - 200_000);
    assert_eq!(tx.redeemers.len(), 1);
    assert!(matches!(tx.redeemers[0].purpose, RedeemerPurpose::Vote));
}

#[test]
fn fee_estimate_matches_formula() {
    let params = sample_params();
    // No execution units: fee_constant + fee_coefficient * (5 + slots*16
    // + signers*102 + size).
    let units = zero_units();
    let estimated = estimate_fee(&params, 4, 1, 2, 300, &units).unwrap();
    assert_eq!(estimated, 155_381 + 44 * (5 + 4 * 16 + 3 * 102 + 300));
    // Execution units are priced and rounded up per redeemer.
    let units = vec![ExUnitsPair { mem: 1, steps: 1 }];
    let estimated = estimate_fee(&params, 1, 1, 0, 0, &units).unwrap();
    assert_eq!(estimated, 155_381 + 44 * (5 + 16 + 102) + 1 + 1);
}

#[test]
fn convergence_decision_accepts_second_iteration() {
    // The initial fee of zero never covers a positive first estimate, and a
    // non-increasing second estimate with repeating units converges.
    let first_estimate: u64 = 170_000;
    let second_estimate: u64 = 169_000;
    let used = zero_units();
    let measured = zero_units();
    assert!(!(0 >= first_estimate));
    assert!(first_estimate >= second_estimate);
    assert!(units_match(&measured, &used));
}

#[test]
fn assign_stake_operation_converges() {
    // End to end without scripts: resolve a key-locked fuel address, then
    // converge on a fully priced transaction within three attempts.
    let params = sample_params();
    let vkh = pallas_crypto::hash::Hash::<28>::from(&sample_hash(8)[..]);
    let fuel_address = pallas_addresses::ShelleyAddress::new(
        pallas_addresses::Network::Testnet,
        pallas_addresses::ShelleyPaymentPart::Key(vkh),
        pallas_addresses::ShelleyDelegationPart::Key(vkh),
    )
    .to_vec();
    let fuel = InputRef { transaction_id: sample_id(5), index: 0 };
    let priced = ops::assign_stake(
        &params,
        vec![0x51, 0x01, 0x01],
        fuel,
        fuel_address,
        Value::Coin(10_000_000_000),
    )
    .expect("converges");
    assert!(priced.attempts >= 1 && priced.attempts <= 3);
    assert_eq!(priced.tx.fee, priced.fee);
    assert!(priced.fee >= params.fee_constant);
    // The change output balances the fuel against fee and deposit exactly.
    assert_eq!(
        lovelace_of(&priced.tx.outputs[0].value),
        10_000_000_000 - priced.fee - 2_000_000
    );
    // The serialized transaction is reported as hex by the caller.
    let hex = drep_builder::hexcode::hex_encode(&priced.bytes);
    assert_eq!(hex.len(), priced.bytes.len() * 2);
    assert!(hex.iter().all(|b| b.is_ascii_hexdigit()));
}

#[test]
fn min_value_output_scales_with_size() {
    let out = ops::new_min_value_output(4_310, &vec![0x71; 29], &sample_hash(3), &vec![0xaa; 32])
        .expect("sized");
    let lovelace = lovelace_of(&out.value);
    assert!(lovelace > 0);
    assert_eq!(lovelace % 4_310, 0);
    match &out.value {
        Value::Multiasset(_, policies) => {
            assert_eq!(policies.len(), 1);
            assert_eq!(policies[0].assets.len(), 1);
            assert_eq!(policies[0].assets[0].amount, 1);
        }
        _ => panic!("expected a multi-asset value"),
    }
}

#[test]
fn delegate_operation_reports_input_errors() {
    let params = sample_params();
    let fuel = InputRef { transaction_id: sample_id(5), index: 0 };
    let r = ops::delegate(
        &params,
        vec![0x51, 0x01, 0x01],
        vec![sample_hash(20)],
        vec![],
        1,
        fuel,
        vec![0x61; 29],
        Value::Coin(1_000_000_000),
        false,
    );
    assert!(matches!(r, Err(Error::NoDelegates)));
    let fuel = InputRef { transaction_id: sample_id(5), index: 0 };
    let r = ops::delegate(
        &params,
        vec![0x51, 0x01, 0x01],
        vec![sample_hash(20)],
        vec![sample_hash(1)],
        2,
        fuel,
        vec![0x61; 29],
        Value::Coin(1_000_000_000),
        false,
    );
    assert!(matches!(r, Err(Error::QuorumOutOfRange)));
}

fn _type_checks(t: &Transaction) -> usize {
    t.inputs.len()
}

#[test]
fn delegate_composer_prices_collateral_and_cost() {
    let ctx = delegate_ctx();
    let fee: u64 = 400_000;
    let tx = drep_builder::compose::build_delegate(&ctx, fee, &zero_units()).expect("enough fuel");
    // Collateral is ceil(fee * 150%).
    assert_eq!(tx.total_collateral, Some(600_000));
    // Change is fuel minus deposit, contract coin and fee.
    let total_cost = ctx.drep_deposit + 2_000_000 + fee;
    assert_eq!(lovelace_of(&tx.outputs[1].value), 1_000_000_000 - total_cost);
    // The state token is minted exactly once under the validator policy.
    let mint = tx.mint.expect("mint present");
    assert_eq!(mint.policy, sample_hash(3));
    assert_eq!(mint.assets.len(), 1);
    assert_eq!(mint.assets[0].name, ctx.asset_name);
    assert_eq!(mint.assets[0].amount, 1);
    // One registration certificate with the protocol deposit.
    assert_eq!(tx.certificates.len(), 1);
    match &tx.certificates[0] {
        CertAction::RegDRep { script_hash, deposit } => {
            assert_eq!(script_hash, &sample_hash(3));
            assert_eq!(*deposit, ctx.drep_deposit);
        }
        _ => panic!("expected a registration certificate"),
    }
    assert!(tx.script_data_hash.map(|h| h.len()) == Some(32));
}

#[test]
fn rules_survive_delegation_round_trip() {
    // The rules recovered from a delegation's own witness are exactly the
    // rules the delegation encoded.
    let ctx = delegate_ctx();
    let tx = drep_builder::compose::build_delegate(&ctx, 400_000, &zero_units()).unwrap();
    let (rds, rq, name) =
        drep_builder::rules::recover_rules(&tx.outputs[0].value, &tx.redeemers)
            .expect("recoverable");
    assert_eq!(rds, ctx.delegates);
    assert_eq!(rq, ctx.quorum);
    assert_eq!(name, ctx.asset_name);
}

#[test]
fn vote_operation_requires_state_token() {
    let params = sample_params();
    let r = ops::vote(
        &params,
        vec![0x51, 0x01, 0x01],
        vec![sample_hash(10)],
        VoteChoice::Yes,
        None,
        GovAction { transaction_id: sample_id(7), action_index: 0 },
        InputRef { transaction_id: sample_id(2), index: 0 },
        vec![0x71; 29],
        Value::Coin(2_000_000),
        InputRef { transaction_id: sample_id(1), index: 0 },
        vec![0x61; 29],
        Value::Coin(50_000_000),
        vec![],
        false,
    );
    assert!(matches!(r, Err(Error::NoStateToken)));
}

#[test]
fn input_order_is_lexicographic_then_by_index() {
    assert!(bytes_lt(&[1, 2], &[1, 3]));
    assert!(bytes_lt(&[1, 2], &[1, 2, 0]));
    assert!(!bytes_lt(&[1, 3], &[1, 2]));
    assert!(!bytes_lt(&[1, 2], &[1, 2]));
    let a = InputRef { transaction_id: sample_id(1), index: 4 };
    let b = InputRef { transaction_id: sample_id(1), index: 5 };
    let c = InputRef { transaction_id: sample_id(2), index: 0 };
    assert!(input_le(&a, &b));
    assert!(!input_le(&b, &a));
    assert!(input_le(&b, &c));
}

#[test]
fn redelegate_operation_requires_state_token() {
    let params = sample_params();
    let r = ops::redelegate(
        &params,
        vec![0x51, 0x01, 0x01],
        vec![sample_hash(20)],
        vec![sample_hash(10)],
        1,
        InputRef { transaction_id: sample_id(9), index: 0 },
        vec![0x71; 29],
        Value::Coin(2_000_000),
        InputRef { transaction_id: sample_id(1), index: 0 },
        vec![0x61; 29],
        Value::Coin(1_000_000_000),
        false,
    );
    assert!(matches!(r, Err(Error::NoStateToken)));
}

#[test]
fn integrity_hash_commits_to_datums() {
    let datums1 = vec![(vec![0x11; 32], void())];
    let datums2 = vec![(vec![0x22; 32], void())];
    let h1 = script_integrity_hash(None, Some(&datums1), vec![]).unwrap();
    let h2 = script_integrity_hash(None, Some(&datums2), vec![]).unwrap();
    assert_eq!(h1.len(), 32);
    assert_ne!(h1, h2);
}
