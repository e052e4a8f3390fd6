//! Tests for the hex codec, the output-reference parser, value arithmetic
//! and the quorum-rule codec.

use drep_builder::error::{Error, Field};
use drep_builder::hexcode::{hex_decode, hex_encode};
use drep_builder::parse::{parse_decimal, parse_output_reference};
use drep_builder::rules::{
    decode_rules, encode_rules, is_void, recover_rules, rules_asset_name, void,
};
use drep_builder::tx::{ExUnitsPair, RedeemerEntry, RedeemerPurpose};
use drep_builder::value::{
    aggregate_assets, find_contract_token, lovelace_of, subtract, AssetEntry, PolicyEntry, Value,
};

fn sample_hash(fill: u8) -> Vec<u8> {
    vec![fill; 28]
}

#[test]
fn hex_decode_round_trip() {
    let text = b"00ff10abcdef".to_vec();
    let bytes = hex_decode(&text).expect("valid hex");
    assert_eq!(bytes, vec![0x00, 0xff, 0x10, 0xab, 0xcd, 0xef]);
    assert_eq!(hex_encode(&bytes), text);
}

#[test]
fn hex_decode_rejects_odd_length_and_bad_digits() {
    assert!(hex_decode(b"abc").is_none());
    assert!(hex_decode(b"zz").is_none());
    assert!(hex_decode(b"AB").is_some());
}

#[test]
fn parse_decimal_values_and_limits() {
    assert_eq!(parse_decimal(b"0"), Some(0));
    assert_eq!(parse_decimal(b"1234567890"), Some(1_234_567_890));
    assert_eq!(parse_decimal(b"18446744073709551615"), Some(u64::MAX));
    assert_eq!(parse_decimal(b"18446744073709551616"), None);
    assert_eq!(parse_decimal(b""), None);
    assert_eq!(parse_decimal(b"12x"), None);
}

#[test]
fn parse_output_reference_accepts_well_formed() {
    let mut text = b"ab".repeat(32);
    text.extend_from_slice(b"#14");
    let r = parse_output_reference(&text).expect("well-formed reference");
    assert_eq!(r.transaction_id, vec![0xab; 32]);
    assert_eq!(r.index, 14);
}

#[test]
fn parse_output_reference_rejects_malformed() {
    assert!(matches!(
        parse_output_reference(b"abcd"),
        Err(Error::MalformedOutputReference)
    ));
    let mut two = b"ab".repeat(32);
    two.extend_from_slice(b"#1#2");
    assert!(matches!(
        parse_output_reference(&two),
        Err(Error::MalformedOutputReference)
    ));
    let mut short = b"ab".repeat(4);
    short.extend_from_slice(b"#1");
    assert!(matches!(
        parse_output_reference(&short),
        Err(Error::FailedToDecodeHexString(Field::TransactionId))
    ));
    let mut bad_ix = b"ab".repeat(32);
    bad_ix.extend_from_slice(b"#x");
    assert!(matches!(
        parse_output_reference(&bad_ix),
        Err(Error::FailedToDecodeInt(Field::OutputIndex))
    ));
}

#[test]
fn subtract_requires_strict_surplus() {
    assert!(matches!(subtract(Value::Coin(100), 40), Some(Value::Coin(60))));
    assert!(subtract(Value::Coin(100), 100).is_none());
    assert!(subtract(Value::Coin(100), 150).is_none());
}

#[test]
fn subtract_preserves_assets() {
    let v = Value::Multiasset(
        5_000_000,
        vec![PolicyEntry {
            policy: sample_hash(1),
            assets: vec![AssetEntry { name: b"state".to_vec(), amount: 1 }],
        }],
    );
    match subtract(v, 1_000_000) {
        Some(Value::Multiasset(coin, policies)) => {
            assert_eq!(coin, 4_000_000);
            assert_eq!(policies.len(), 1);
            assert_eq!(policies[0].policy, sample_hash(1));
            assert_eq!(policies[0].assets[0].name, b"state".to_vec());
            assert_eq!(policies[0].assets[0].amount, 1);
        }
        other => panic!("unexpected result: {:?}", other.map(|v| lovelace_of(&v))),
    }
}

#[test]
fn aggregate_assets_requires_positive_quantities() {
    let ok = aggregate_assets(
        sample_hash(1),
        vec![AssetEntry { name: b"a".to_vec(), amount: 2 }],
    )
    .expect("positive quantity");
    assert_eq!(ok.len(), 1);
    assert_eq!(ok[0].policy, sample_hash(1));
    assert_eq!(ok[0].assets[0].amount, 2);
    assert!(matches!(
        aggregate_assets(sample_hash(1), vec![AssetEntry { name: b"a".to_vec(), amount: 0 }]),
        Err(Error::NumericOverflow)
    ));
}

#[test]
fn find_contract_token_reads_first_asset() {
    let v = Value::Multiasset(
        2_000_000,
        vec![PolicyEntry {
            policy: sample_hash(9),
            assets: vec![AssetEntry { name: b"tok".to_vec(), amount: 1 }],
        }],
    );
    assert_eq!(find_contract_token(&v), Some(b"tok".to_vec()));
    assert_eq!(find_contract_token(&Value::Coin(5)), None);
}

#[test]
fn rule_codec_round_trip() {
    let delegates = vec![sample_hash(1), sample_hash(2), sample_hash(3)];
    let term = encode_rules(&delegates, 2).expect("valid rules");
    let (decoded, quorum) = decode_rules(&term).expect("decodable");
    assert_eq!(decoded, delegates);
    assert_eq!(quorum, 2);
}

#[test]
fn rule_codec_rejects_bad_input() {
    assert!(matches!(encode_rules(&vec![], 1), Err(Error::NoDelegates)));
    assert!(matches!(
        encode_rules(&vec![sample_hash(1)], 2),
        Err(Error::QuorumOutOfRange)
    ));
    assert!(matches!(
        encode_rules(&vec![sample_hash(1)], 0),
        Err(Error::QuorumOutOfRange)
    ));
}

#[test]
fn asset_name_is_deterministic_and_prefixed() {
    let delegates = vec![sample_hash(4), sample_hash(5)];
    let t1 = encode_rules(&delegates, 1).unwrap();
    let t2 = encode_rules(&delegates, 1).unwrap();
    let n1 = rules_asset_name(&t1);
    let n2 = rules_asset_name(&t2);
    assert_eq!(n1, n2);
    assert_eq!(n1.len(), 32);
    assert_eq!(&n1[..4], b"gov_");
    // The digest depends on the rules: a different quorum changes the name.
    let t3 = encode_rules(&delegates, 2).unwrap();
    let n3 = rules_asset_name(&t3);
    assert_ne!(n1, n3);
    // And it is not the encoded bytes themselves.
    assert_ne!(&n1[4..], &sample_hash(4)[..]);
}

#[test]
fn void_term_is_void() {
    let t = void();
    assert!(is_void(&t));
    let rules = encode_rules(&vec![sample_hash(7)], 1).unwrap();
    assert!(!is_void(&rules));
}

#[test]
fn recover_rules_round_trip() {
    let delegates = vec![sample_hash(1), sample_hash(2)];
    let rules = encode_rules(&delegates, 2).unwrap();
    let token = rules_asset_name(&rules);
    let contract_value = Value::Multiasset(
        2_000_000,
        vec![PolicyEntry {
            policy: sample_hash(0),
            assets: vec![AssetEntry { name: token.clone(), amount: 1 }],
        }],
    );
    let minting_redeemers = vec![
        RedeemerEntry {
            purpose: RedeemerPurpose::Mint,
            index: 0,
            data: void(),
            ex_units: ExUnitsPair { mem: 0, steps: 0 },
        },
        RedeemerEntry {
            purpose: RedeemerPurpose::Cert,
            index: 0,
            data: rules,
            ex_units: ExUnitsPair { mem: 0, steps: 0 },
        },
    ];
    let (rds, rq, name) = recover_rules(&contract_value, &minting_redeemers).expect("recoverable");
    assert_eq!(rds, delegates);
    assert_eq!(rq, 2);
    assert_eq!(name, token);
}

#[test]
fn recover_rules_reports_missing_pieces() {
    let rules = encode_rules(&vec![sample_hash(1)], 1).unwrap();
    let no_token = Value::Coin(7);
    assert_eq!(
        recover_rules(&no_token, &vec![]),
        Err(Error::NoStateToken)
    );
    let with_token = Value::Multiasset(
        1,
        vec![PolicyEntry {
            policy: sample_hash(0),
            assets: vec![AssetEntry { name: b"tok".to_vec(), amount: 1 }],
        }],
    );
    assert_eq!(
        recover_rules(&with_token, &vec![]),
        Err(Error::NoMintingRedeemer)
    );
    let only_void = vec![RedeemerEntry {
        purpose: RedeemerPurpose::Cert,
        index: 0,
        data: void(),
        ex_units: ExUnitsPair { mem: 0, steps: 0 },
    }];
    assert_eq!(
        recover_rules(&with_token, &only_void),
        Err(Error::NoMintingRedeemer)
    );
    let _ = rules;
}
