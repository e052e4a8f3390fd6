//! The trusted boundary to the host libraries: hashing, address encoding,
//! the canonical wire codec, and the script evaluator. Every item here
//! either declares an outside type or wraps one outside call; the logic
//! around them is verified.

use vstd::prelude::*;
use crate::error::Error;
use crate::rules::{is_rules_term_for, DataTerm};
use crate::tx::{purpose_code, term_encodable, tx_wf, RedeemerEntry, Transaction};
use crate::value::value_wf;
use pallas_codec::minicbor as cbor;
use pallas_codec::utils as pcu;
use pallas_crypto::hash as pch;
use pallas_primitives::conway as pw;

verus! {

// ------------------------------------------------------------------------
// Outside types that cross the boundary.
// ------------------------------------------------------------------------

#[verifier::external_type_specification]
#[verifier::external_body]
pub struct ExPlutusData(pw::PlutusData);

#[verifier::external_type_specification]
#[verifier::external_body]
pub struct ExTransactionInput(pw::TransactionInput);

#[verifier::external_type_specification]
#[verifier::external_body]
pub struct ExCertificate(pw::Certificate);

#[verifier::external_type_specification]
#[verifier::external_body]
pub struct ExResolvedInput(uplc::tx::ResolvedInput);

#[verifier::external_type_specification]
#[verifier::external_body]
pub struct ExRedeemerTag(pw::RedeemerTag);

#[verifier::external_type_specification]
#[verifier::external_body]
pub struct ExRedeemer(pw::Redeemer);

/// Carries one converted ledger value, held opaquely.
#[verifier::external_body]
pub struct SealedValue {
    inner: pw::Value,
}

/// Carries one converted optional anchor, held opaquely.
#[verifier::external_body]
pub struct SealedAnchor {
    inner: pcu::Nullable<pw::Anchor>,
}

/// Carries one assembled ledger output. The alias behind it threads through
/// several generic host types, so it is held opaquely.
#[verifier::external_body]
pub struct SealedOutput {
    inner: pw::PostAlonzoTransactionOutput,
}

/// Carries an assembled ledger transaction body, held opaquely.
#[verifier::external_body]
pub struct SealedBody {
    inner: pw::TransactionBody,
}

/// Carries an assembled ledger witness set, held opaquely.
#[verifier::external_body]
pub struct SealedWitness {
    inner: pw::WitnessSet,
}

// ------------------------------------------------------------------------
// Named results of outside computations.
// ------------------------------------------------------------------------

/// The digest of the canonical encoding of the rule term for `ds` and `q`.
pub uninterp spec fn rules_digest_of(ds: Seq<Seq<u8>>, q: u64) -> Seq<u8>;

/// The tagged script hash of validator bytecode `b`.
pub uninterp spec fn script_hash_of(b: Seq<u8>) -> Seq<u8>;

/// The encoded script address for script hash `h` on the given network.
pub uninterp spec fn script_address_of(h: Seq<u8>, mainnet: bool) -> Seq<u8>;

/// The 32-byte cryptographic digest of `bytes`.
pub uninterp spec fn blake2b256_of(bytes: Seq<u8>) -> Seq<u8>;

/// The canonical encoding of a redeemer collection.
pub uninterp spec fn cbor_redeemers_of(rs: Seq<RedeemerEntry>) -> Seq<u8>;

/// The canonical encoding of a datum collection.
pub uninterp spec fn cbor_datums_of(ds: Seq<(Vec<u8>, DataTerm)>) -> Seq<u8>;

/// The canonical encoding of a language-views collection.
pub uninterp spec fn cbor_views_of(vs: Seq<crate::integrity::LanguageView>) -> Seq<u8>;

/// The canonical serialization of a whole transaction.
pub uninterp spec fn cbor_tx_of(t: Transaction) -> Seq<u8>;

/// The canonical encoding of an output at `address` carrying `coin` plus
/// `amount` units of the single asset `name` under `policy`.
pub uninterp spec fn cbor_token_output_of(
    address: Seq<u8>,
    coin: u64,
    policy: Seq<u8>,
    name: Seq<u8>,
    amount: u64,
) -> Seq<u8>;

/// The decomposition of a key-locked payment address: its verification-key
/// hash and the same address with delegation redirected to that key, or
/// nothing for any other address shape.
pub uninterp spec fn owner_parts_of(address: Seq<u8>) -> Option<(Seq<u8>, Seq<u8>)>;

/// Whether the bytes decode as a ledger address.
pub uninterp spec fn address_parses(address: Seq<u8>) -> bool;

// ------------------------------------------------------------------------
// Hashing and addresses.
// ------------------------------------------------------------------------

/// Relies on pallas_crypto `Hasher::<224>::hash_tagged`: the validator
/// hash is the tagged digest of the script bytecode, 28 bytes long.
#[verifier::external_body]
pub fn hash_validator(script: &Vec<u8>) -> (r: Vec<u8>)
    ensures
        r@ == script_hash_of(script@),
        r@.len() == 28,
{
    pch::Hasher::<224>::hash_tagged(script.as_slice(), 3).to_vec()
}

/// Relies on pallas_addresses `ShelleyAddress::new` and `to_vec`: the
/// payment-and-delegation script address is a function of the script hash
/// and the network alone, and the produced bytes decode back as an
/// address.
#[verifier::external_body]
pub fn script_address(hash: &Vec<u8>, mainnet: bool) -> (r: Vec<u8>)
    requires
        hash@.len() == 28,
    ensures
        r@ == script_address_of(hash@, mainnet),
        address_parses(r@),
{
    let h = pch::Hash::<28>::from(hash.as_slice());
    let network = if mainnet {
        pallas_addresses::Network::Mainnet
    } else {
        pallas_addresses::Network::Testnet
    };
    pallas_addresses::ShelleyAddress::new(
        network,
        pallas_addresses::ShelleyPaymentPart::script_hash(h),
        pallas_addresses::ShelleyDelegationPart::script_hash(h),
    ).to_vec()
}

/// Relies on pallas_addresses `Address::from_bytes`: splits a key-locked
/// payment address into its verification-key hash and the same address
/// with delegation redirected to that key. Returns nothing for any other
/// address shape. The decomposition is a function of the bytes alone.
#[verifier::external_body]
pub fn owner_key_address(address: &Vec<u8>) -> (r: Option<(Vec<u8>, Vec<u8>)>)
    ensures
        r is Some <==> owner_parts_of(address@) is Some,
        r matches Some(p) ==> owner_parts_of(address@) == Some((p.0@, p.1@)) && p.0@.len() == 28
            && address_parses(p.1@),
{
    match pallas_addresses::Address::from_bytes(address.as_slice()) {
        Ok(pallas_addresses::Address::Shelley(src)) => match src.payment() {
            pallas_addresses::ShelleyPaymentPart::Key(vkh) => {
                let addr = pallas_addresses::ShelleyAddress::new(
                    src.network(),
                    src.payment().clone(),
                    pallas_addresses::ShelleyDelegationPart::Key(*vkh),
                );
                Some((vkh.to_vec(), addr.to_vec()))
            },
            _ => None,
        },
        _ => None,
    }
}

/// Relies on pallas_crypto `Hasher::<256>::hash`: a single-pass 32-byte
/// digest, a function of the input bytes alone.
#[verifier::external_body]
pub fn blake2b_256(bytes: &Vec<u8>) -> (r: Vec<u8>)
    ensures
        r@ == blake2b256_of(bytes@),
        r@.len() == 32,
{
    pch::Hasher::<256>::hash(bytes.as_slice()).to_vec()
}

/// Relies on pallas_addresses `Address::from_bytes`: decides whether the
/// bytes decode as an address, a function of the bytes alone. The external
/// evaluator aborts on resolved outputs whose address does not decode, so
/// the boundary validates every resolved address first.
#[verifier::external_body]
pub fn check_address(address: &Vec<u8>) -> (r: bool)
    ensures
        r == address_parses(address@),
{
    pallas_addresses::Address::from_bytes(address.as_slice()).is_ok()
}

// ------------------------------------------------------------------------
// Data-term construction.
// ------------------------------------------------------------------------

/// Relies on pallas `PlutusData::BoundedBytes`: wraps bytes as a term.
#[verifier::external_body]
fn px_term_bytes(b: &Vec<u8>) -> pw::PlutusData {
    pw::PlutusData::BoundedBytes(b.clone().into())
}

/// Relies on pallas `PlutusData::BigInt`: wraps an integer as a term.
#[verifier::external_body]
fn px_term_int(i: u64) -> pw::PlutusData
    requires
        i <= 0x7fff_ffff_ffff_ffff,
{
    pw::PlutusData::BigInt(pw::BigInt::Int((i as i64).into()))
}

/// Relies on pallas `PlutusData::Constr`: wraps fields under a constructor
/// tag, with the host convention of a definite array only when empty.
#[verifier::external_body]
fn px_term_constr(tag: u64, fields: Vec<pw::PlutusData>) -> pw::PlutusData {
    pw::PlutusData::Constr(pw::Constr {
        tag,
        any_constructor: None,
        fields: if fields.is_empty() {
            pcu::MaybeIndefArray::Def(fields)
        } else {
            pcu::MaybeIndefArray::Indef(fields)
        },
    })
}

/// Relies on pallas `PlutusData::Array`: wraps terms as a list term.
#[verifier::external_body]
fn px_term_list(items: Vec<pw::PlutusData>) -> pw::PlutusData
    requires
        items@.len() > 0,
{
    pw::PlutusData::Array(pcu::MaybeIndefArray::Indef(items))
}

/// Converts a library data term into the host representation. Handles the
/// void term and well-formed rule terms; anything else is rejected.
pub fn term_to_pallas(t: &DataTerm) -> (r: Result<pw::PlutusData, Error>)
    ensures
        term_encodable(*t) ==> r is Ok,
{
    if crate::rules::is_void(t) {
        return Ok(px_term_constr(121, Vec::new()));
    }
    let (delegates, quorum) = match crate::rules::decode_rules(t) {
        Ok(p) => p,
        Err(e) => { return Err(e) },
    };
    if quorum > 0x7fff_ffff_ffff_ffff {
        proof {
            if term_encodable(*t) {
                let (ds, q): (Seq<Seq<u8>>, u64) = choose|ds: Seq<Seq<u8>>, q: u64|
                    is_rules_term_for(*t, ds, q) && 1 <= q <= ds.len() && q
                        <= 0x7fff_ffff_ffff_ffff;
                crate::rules::lemma_rules_term_inverse(
                    *t,
                    ds,
                    q,
                    crate::rules::byte_views(delegates@),
                    quorum,
                );
            }
        }
        return Err(Error::NumericOverflow);
    }
    let mut entries: Vec<pw::PlutusData> = Vec::new();
    let mut i: usize = 0;
    while i < delegates.len()
        invariant
            quorum <= 0x7fff_ffff_ffff_ffff,
            delegates@.len() > 0,
            entries@.len() == i,
        decreases delegates@.len() - i,
    {
        let mut wrapper: Vec<pw::PlutusData> = Vec::new();
        wrapper.push(px_term_bytes(&delegates[i]));
        entries.push(px_term_constr(121, wrapper));
        i = i + 1;
    }
    let mut fields: Vec<pw::PlutusData> = Vec::new();
    fields.push(px_term_list(entries));
    fields.push(px_term_int(quorum));
    Ok(px_term_constr(123, fields))
}

/// Relies on pallas_crypto `Hasher::<224>::hash_cbor`: the digest of the
/// canonical encoding of a rule term, a function of the delegates and
/// quorum the term encodes, and of nothing else.
#[verifier::external_body]
pub fn rules_term_digest(t: &DataTerm) -> (r: Vec<u8>)
    requires
        exists|ds: Seq<Seq<u8>>, q: u64|
            is_rules_term_for(*t, ds, q) && 1 <= q <= ds.len() && q <= 0x7fff_ffff_ffff_ffff,
    ensures
        r@.len() == 28,
        forall|ds: Seq<Seq<u8>>, q: u64|
            is_rules_term_for(*t, ds, q) ==> r@ == rules_digest_of(ds, q),
{
    let data = term_to_pallas(t).unwrap();
    pch::Hasher::<224>::hash_cbor(&data).to_vec()
}

// ------------------------------------------------------------------------
// Canonical encodings for the script-integrity preimage.
// ------------------------------------------------------------------------

/// Relies on pallas_codec `minicbor::encode` over the redeemer map: the
/// canonical bytes are a function of the redeemer entries alone.
#[verifier::external_body]
pub fn cbor_redeemers(rs: &Vec<RedeemerEntry>) -> (r: Vec<u8>)
    requires
        rs@.len() > 0,
        forall|i: int| 0 <= i < rs@.len() ==> term_encodable((#[trigger] rs@[i]).data),
    ensures
        r@ == cbor_redeemers_of(rs@),
{
    let pairs = rs.iter().map(|e| (
        pw::RedeemersKey { tag: redeemer_tag(purpose_code(e.purpose)), index: e.index },
        pw::RedeemersValue {
            data: term_to_pallas(&e.data).unwrap(),
            ex_units: pw::ExUnits { mem: e.ex_units.mem, steps: e.ex_units.steps },
        },
    )).collect();
    let map = pcu::NonEmptyKeyValuePairs::Def(pairs);
    let mut buf = Vec::new();
    cbor::encode(&map, &mut buf).unwrap();
    buf
}

/// Relies on pallas_codec `minicbor::encode` over the datum map: the
/// canonical bytes are a function of the datum entries alone.
#[verifier::external_body]
pub fn cbor_datums(ds: &Vec<(Vec<u8>, DataTerm)>) -> (r: Vec<u8>)
    requires
        ds@.len() > 0,
        forall|i: int| 0 <= i < ds@.len() ==> (#[trigger] ds@[i]).0@.len() == 32,
        forall|i: int| 0 <= i < ds@.len() ==> term_encodable((#[trigger] ds@[i]).1),
    ensures
        r@ == cbor_datums_of(ds@),
{
    let pairs = ds.iter().map(|(hash, term)| (
        pch::Hash::<32>::from(hash.as_slice()),
        term_to_pallas(term).unwrap(),
    )).collect();
    let map = pcu::NonEmptyKeyValuePairs::Def(pairs);
    let mut buf = Vec::new();
    cbor::encode(&map, &mut buf).unwrap();
    buf
}

/// Relies on pallas_codec `minicbor::encode` over the language-views map:
/// the canonical bytes are a function of the ordered view entries alone.
#[verifier::external_body]
pub fn cbor_language_views(vs: &Vec<crate::integrity::LanguageView>) -> (r: Vec<u8>)
    requires
        vs@.len() > 0,
        forall|i: int| 0 <= i < vs@.len() ==> (#[trigger] vs@[i]).language <= 2,
    ensures
        r@ == cbor_views_of(vs@),
{
    let pairs = vs.iter().map(|v| (
        match v.language {
            0 => pw::Language::PlutusV1,
            1 => pw::Language::PlutusV2,
            _ => pw::Language::PlutusV3,
        },
        v.cost_model.clone(),
    )).collect();
    let map = pcu::NonEmptyKeyValuePairs::Def(pairs);
    let mut buf = Vec::new();
    cbor::encode(&map, &mut buf).unwrap();
    buf
}

// ------------------------------------------------------------------------
// Transaction assembly and serialization.
// ------------------------------------------------------------------------

/// Relies on pallas `TransactionInput`: pairs a 32-byte id with an index.
#[verifier::external_body]
pub fn px_input(id: &Vec<u8>, index: u64) -> pw::TransactionInput
    requires
        id@.len() == 32,
{
    pw::TransactionInput { transaction_id: pch::Hash::<32>::from(id.as_slice()), index }
}

/// Relies on pallas `Value`: converts a library value, policy by policy.
#[verifier::external_body]
pub fn px_value(value: &crate::value::Value) -> SealedValue
    requires
        value_wf(*value),
{
    let inner = match value {
        crate::value::Value::Coin(c) => pw::Value::Coin(*c),
        crate::value::Value::Multiasset(c, ps) => pw::Value::Multiasset(
            *c,
            pcu::NonEmptyKeyValuePairs::Def(ps.iter().map(|p| (
                pch::Hash::<28>::from(p.policy.as_slice()),
                pcu::NonEmptyKeyValuePairs::Def(p.assets.iter().map(|a| (
                    pcu::Bytes::from(a.name.clone()),
                    pcu::PositiveCoin::try_from(a.amount).unwrap(),
                )).collect()),
            )).collect()),
        ),
    };
    SealedValue { inner }
}

/// Relies on pallas `PostAlonzoTransactionOutput`: an address and a
/// converted value, with no datum and no script reference.
#[verifier::external_body]
pub fn px_output_from(address: &Vec<u8>, value: SealedValue) -> SealedOutput {
    SealedOutput {
        inner: pw::PostAlonzoTransactionOutput {
            address: pcu::Bytes::from(address.clone()),
            value: value.inner,
            datum_option: None,
            script_ref: None,
        },
    }
}

/// Converts one library output: its address and its value.
pub fn px_output(address: &Vec<u8>, value: &crate::value::Value) -> SealedOutput
    requires
        value_wf(*value),
{
    px_output_from(address, px_value(value))
}

/// Relies on pallas_codec `minicbor::encode` over one output: the
/// canonical encoding of a single-token output, a function of its address,
/// coin, policy, asset name and quantity alone. The minimum-value rule
/// reads its length.
#[verifier::external_body]
pub fn px_token_output_bytes(
    address: &Vec<u8>,
    coin: u64,
    policy: &Vec<u8>,
    name: &Vec<u8>,
    amount: u64,
) -> (r: Vec<u8>)
    requires
        policy@.len() == 28,
        amount >= 1,
    ensures
        r@ == cbor_token_output_of(address@, coin, policy@, name@, amount),
{
    let assets = vec![crate::value::AssetEntry { name: name.clone(), amount }];
    let policies = vec![crate::value::PolicyEntry { policy: policy.clone(), assets }];
    let output = px_output(address, &crate::value::Value::Multiasset(coin, policies));
    let mut buf = Vec::new();
    cbor::encode(&output.inner, &mut buf).unwrap();
    buf
}

/// Relies on pallas `Certificate::VoteRegDeleg`: registers a stake key and
/// delegates its vote to a script.
#[verifier::external_body]
fn px_cert_vote_reg_deleg(stake_key: &Vec<u8>, drep_script: &Vec<u8>, deposit: u64) -> pw::Certificate
    requires
        stake_key@.len() == 28,
        drep_script@.len() == 28,
{
    pw::Certificate::VoteRegDeleg(
        pw::StakeCredential::AddrKeyhash(pch::Hash::<28>::from(stake_key.as_slice())),
        pw::DRep::Script(pch::Hash::<28>::from(drep_script.as_slice())),
        deposit,
    )
}

/// Relies on pallas `Certificate::RegDRepCert`: registers a script voting
/// entity, with no anchor.
#[verifier::external_body]
fn px_cert_reg_drep(script_hash: &Vec<u8>, deposit: u64) -> pw::Certificate
    requires
        script_hash@.len() == 28,
{
    pw::Certificate::RegDRepCert(
        pw::StakeCredential::ScriptHash(pch::Hash::<28>::from(script_hash.as_slice())),
        deposit,
        pcu::Nullable::Null,
    )
}

/// Relies on pallas `Certificate::UnRegDRepCert`: unregisters a script
/// voting entity.
#[verifier::external_body]
fn px_cert_unreg_drep(script_hash: &Vec<u8>, deposit: u64) -> pw::Certificate
    requires
        script_hash@.len() == 28,
{
    pw::Certificate::UnRegDRepCert(
        pw::StakeCredential::ScriptHash(pch::Hash::<28>::from(script_hash.as_slice())),
        deposit,
    )
}

/// Converts one library certificate by dispatching on its kind.
pub fn px_cert(c: &crate::tx::CertAction) -> pw::Certificate
    requires
        crate::tx::cert_wf(*c),
{
    match c {
        crate::tx::CertAction::VoteRegDeleg { stake_key, drep_script, deposit } =>
            px_cert_vote_reg_deleg(stake_key, drep_script, *deposit),
        crate::tx::CertAction::RegDRep { script_hash, deposit } => px_cert_reg_drep(
            script_hash,
            *deposit,
        ),
        crate::tx::CertAction::UnRegDRep { script_hash, deposit } => px_cert_unreg_drep(
            script_hash,
            *deposit,
        ),
    }
}

/// Relies on pallas `TransactionBody`: the base body, holding inputs,
/// outputs, the fee and any certificates; every other field empty.
#[verifier::external_body]
pub fn px_body_core(
    inputs: Vec<pw::TransactionInput>,
    outputs: Vec<SealedOutput>,
    fee: u64,
    certificates: Option<Vec<pw::Certificate>>,
) -> SealedBody
    requires
        certificates matches Some(cs) ==> cs@.len() > 0,
{
    SealedBody {
        inner: pw::TransactionBody {
            inputs: pcu::Set::from(inputs),
            outputs: outputs.into_iter().map(|o| pw::PseudoTransactionOutput::PostAlonzo(o.inner)).collect(),
            fee,
            certificates: certificates.map(|cs| pcu::NonEmptySet::try_from(cs).unwrap()),
            ttl: None, withdrawals: None, auxiliary_data_hash: None, validity_interval_start: None,
            mint: None, script_data_hash: None, collateral: None, required_signers: None,
            network_id: None, collateral_return: None, total_collateral: None,
            reference_inputs: None, voting_procedures: None, proposal_procedures: None,
            treasury_value: None, donation: None,
        },
    }
}

/// Relies on pallas `TransactionBody`: records the reference inputs.
#[verifier::external_body]
pub fn px_body_refs(body: SealedBody, reference_inputs: Vec<pw::TransactionInput>) -> SealedBody
    requires
        reference_inputs@.len() > 0,
{
    let mut inner = body.inner;
    inner.reference_inputs = Some(pcu::NonEmptySet::try_from(reference_inputs).unwrap());
    SealedBody { inner }
}

/// Relies on pallas `Multiasset`: records the single-policy mint map, with
/// positive quantities minting and negative ones burning.
#[verifier::external_body]
pub fn px_body_mint(body: SealedBody, policy: &Vec<u8>, assets: Vec<(Vec<u8>, i64)>) -> SealedBody
    requires
        policy@.len() == 28,
        assets@.len() > 0,
        forall|i: int| 0 <= i < assets@.len() ==> (#[trigger] assets@[i]).1 != 0,
{
    let mut inner = body.inner;
    inner.mint = Some(pcu::NonEmptyKeyValuePairs::Def(vec![(
        pch::Hash::<28>::from(policy.as_slice()),
        pcu::NonEmptyKeyValuePairs::Def(assets.into_iter().map(|(name, amount)|
            (pcu::Bytes::from(name), pcu::NonZeroInt::try_from(amount).unwrap())).collect()),
    )]));
    SealedBody { inner }
}

/// Relies on pallas `TransactionBody`: records the collateral input set,
/// the collateral return output and the declared total collateral.
#[verifier::external_body]
pub fn px_body_collateral(
    body: SealedBody,
    collateral: Vec<pw::TransactionInput>,
    collateral_return: SealedOutput,
    total_collateral: u64,
) -> SealedBody
    requires
        collateral@.len() > 0,
{
    let mut inner = body.inner;
    inner.collateral = Some(pcu::NonEmptySet::try_from(collateral).unwrap());
    inner.collateral_return = Some(pw::PseudoTransactionOutput::PostAlonzo(collateral_return.inner));
    inner.total_collateral = Some(total_collateral);
    SealedBody { inner }
}

/// Relies on pallas `RequiredSigners`: records the extra signatories.
#[verifier::external_body]
pub fn px_body_signers(body: SealedBody, signers: Vec<Vec<u8>>) -> SealedBody
    requires
        signers@.len() > 0,
        forall|i: int| 0 <= i < signers@.len() ==> (#[trigger] signers@[i])@.len() == 28,
{
    let mut inner = body.inner;
    inner.required_signers = pcu::NonEmptySet::try_from(
        signers.into_iter().map(|s| pch::Hash::<28>::from(s.as_slice())).collect::<Vec<_>>(),
    ).ok();
    SealedBody { inner }
}

/// Relies on pallas `TransactionBody`: records the script-integrity hash
/// and the declared network id.
#[verifier::external_body]
pub fn px_body_commit(body: SealedBody, script_data_hash: &Vec<u8>, mainnet: bool) -> SealedBody
    requires
        script_data_hash@.len() == 32,
{
    let mut inner = body.inner;
    inner.script_data_hash = Some(pch::Hash::<32>::from(script_data_hash.as_slice()));
    inner.network_id = Some(if mainnet { pw::NetworkId::Mainnet } else { pw::NetworkId::Testnet });
    SealedBody { inner }
}

/// Relies on pallas `Anchor`: converts an optional rationale anchor.
#[verifier::external_body]
pub fn px_anchor(anchor: Option<(String, Vec<u8>)>) -> SealedAnchor
    requires
        anchor matches Some(a) ==> a.1@.len() == 32,
{
    let inner = match anchor {
        Some((url, content_hash)) => pcu::Nullable::Some(pw::Anchor {
            url,
            content_hash: pch::Hash::<32>::from(content_hash.as_slice()),
        }),
        None => pcu::Nullable::Null,
    };
    SealedAnchor { inner }
}

/// Relies on pallas `VotingProcedures`: records one vote of the script
/// voter on one governance action, with an optional anchor.
#[verifier::external_body]
pub fn px_body_vote(
    body: SealedBody,
    voter_script: &Vec<u8>,
    action_id: &Vec<u8>,
    action_index: u32,
    choice: u8,
    anchor: SealedAnchor,
) -> SealedBody
    requires
        voter_script@.len() == 28,
        action_id@.len() == 32,
        choice <= 2,
{
    let mut inner = body.inner;
    let vote = match choice { 0 => pw::Vote::Yes, 1 => pw::Vote::No, _ => pw::Vote::Abstain };
    inner.voting_procedures = Some(pcu::NonEmptyKeyValuePairs::Def(vec![(
        pw::Voter::DRepScript(pch::Hash::<28>::from(voter_script.as_slice())),
        pcu::NonEmptyKeyValuePairs::Def(vec![(
            pw::GovActionId {
                transaction_id: pch::Hash::<32>::from(action_id.as_slice()),
                action_index,
            },
            pw::VotingProcedure { vote, anchor: anchor.inner },
        )]),
    )]));
    SealedBody { inner }
}

/// Relies on pallas `WitnessSet`: attaches the redeemer map and the
/// validator bytecode; every other field empty.
#[verifier::external_body]
pub fn px_witness(
    redeemers: Option<Vec<(u8, u32, pw::PlutusData, u64, u64)>>,
    script: Option<Vec<u8>>,
) -> SealedWitness
    requires
        redeemers matches Some(rs) ==> rs@.len() > 0 && forall|i: int|
            0 <= i < rs@.len() ==> (#[trigger] rs@[i]).0 <= 5,
{
    SealedWitness {
        inner: pw::WitnessSet {
            redeemer: redeemers.map(|rs| pcu::NonEmptyKeyValuePairs::Def(rs.into_iter().map(
                |(tag, index, data, mem, steps)| (
                    pw::RedeemersKey { tag: redeemer_tag(tag), index },
                    pw::RedeemersValue { data, ex_units: pw::ExUnits { mem, steps } },
                )).collect()).into()),
            plutus_v3_script: script.map(|s| pcu::NonEmptySet::try_from(
                vec![pw::PlutusScript::<3>(s.into())]).unwrap()),
            vkeywitness: None, native_script: None, bootstrap_witness: None,
            plutus_v1_script: None, plutus_data: None, plutus_v2_script: None,
        },
    }
}

/// Relies on pallas `RedeemerTag`: decodes a redeemer purpose wire code.
#[verifier::external_body]
fn redeemer_tag(code: u8) -> pw::RedeemerTag
    requires
        code <= 5,
{
    match code {
        0 => pw::RedeemerTag::Spend,
        1 => pw::RedeemerTag::Mint,
        2 => pw::RedeemerTag::Cert,
        3 => pw::RedeemerTag::Reward,
        4 => pw::RedeemerTag::Vote,
        _ => pw::RedeemerTag::Propose,
    }
}

/// Relies on pallas `Tx` and pallas_codec `minicbor::encode`: converts a
/// library transaction through the verified converter, seals it as a
/// successful transaction, and serializes it. The bytes are a function of
/// the transaction alone.
#[verifier::external_body]
pub fn px_seal_transaction(t: &Transaction) -> (r: Vec<u8>)
    requires
        tx_wf(*t),
        crate::engine::tx_coherent(*t),
    ensures
        r@ == cbor_tx_of(*t),
{
    let (body, witness) = crate::engine::convert_transaction(t).unwrap();
    let tx = pw::Tx {
        transaction_body: body.inner,
        transaction_witness_set: witness.inner,
        success: true,
        auxiliary_data: pcu::Nullable::Null,
    };
    let mut buf = Vec::new();
    cbor::encode(&tx, &mut buf).unwrap();
    buf
}

/// Relies on uplc `ResolvedInput`: pairs an input with its resolved output
/// for the evaluator. The evaluator decodes every resolved address and
/// aborts when one does not parse, so the address must decode.
#[verifier::external_body]
pub fn px_resolved(
    input: pw::TransactionInput,
    address: &Vec<u8>,
    value: &crate::value::Value,
) -> uplc::tx::ResolvedInput
    requires
        address_parses(address@),
        value_wf(*value),
{
    uplc::tx::ResolvedInput {
        input,
        output: pw::PseudoTransactionOutput::PostAlonzo(px_output(address, value).inner),
    }
}

/// The no-op observer handed to the evaluator for each spent redeemer.
#[verifier::external_body]
fn discard_redeemer(_redeemer: &pw::Redeemer) {
}

/// Relies on uplc `eval_phase_two`: measures the execution units of every
/// redeemer of the serialized transaction against the resolved inputs.
/// Returns nothing when the transaction cannot be decoded, its redeemers
/// cannot be resolved, or a script rejects it; the caller treats that as a
/// fatal evaluation failure. The evaluator decodes every address it meets
/// and aborts on one that does not parse: resolved addresses are excluded
/// by `px_resolved`, and the requires excludes the candidate's own output
/// addresses.
#[verifier::external_body]
pub fn px_evaluate(
    tx_bytes: &Vec<u8>,
    resolved: &Vec<uplc::tx::ResolvedInput>,
) -> Option<Vec<(u64, u64)>>
    requires
        exists|t: Transaction|
            tx_bytes@ == #[trigger] cbor_tx_of(t) && tx_wf(t)
                && crate::engine::tx_addresses_parse(t),
{
    let minted_tx = match cbor::decode(tx_bytes.as_slice()) {
        Ok(tx) => tx,
        Err(_) => { return None },
    };
    let slots = uplc::tx::SlotConfig::default();
    let outcome = uplc::tx::eval_phase_two(
        &minted_tx, resolved.as_slice(), None, None, &slots, false, discard_redeemer);
    match outcome {
        Ok(results) => Some(results.into_iter().map(|(r, _)| (r.ex_units.mem, r.ex_units.steps)).collect()),
        Err(_) => None,
    }
}

} // verus!
