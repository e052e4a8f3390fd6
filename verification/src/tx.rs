//! The transaction model: the entities the composer assembles and the
//! convergence engine re-prices.

use vstd::prelude::*;
use crate::rules::DataTerm;
use crate::value::Value;

verus! {

/// A reference to an unspent transaction output: a 32-byte transaction id
/// and an output index.
pub struct InputRef {
    pub transaction_id: Vec<u8>,
    pub index: u64,
}

/// A transaction output: an address (opaque encoded bytes) and a value.
pub struct TxOutput {
    pub address: Vec<u8>,
    pub value: Value,
}

/// The certificate kinds the governance operations issue.
pub enum CertAction {
    /// Registers stake-key `stake_key` and delegates its vote to the script.
    VoteRegDeleg { stake_key: Vec<u8>, drep_script: Vec<u8>, deposit: u64 },
    /// Registers the validator script as a voting entity.
    RegDRep { script_hash: Vec<u8>, deposit: u64 },
    /// Unregisters the validator script as a voting entity.
    UnRegDRep { script_hash: Vec<u8>, deposit: u64 },
}

/// The purpose a redeemer justifies.
#[derive(Clone, Copy, PartialEq, Eq, Structural, Debug)]
pub enum RedeemerPurpose {
    Spend,
    Mint,
    Cert,
    Vote,
    Propose,
}

/// A script execution budget: memory units and step units.
#[derive(Clone, Copy, PartialEq, Eq, Structural, Debug)]
pub struct ExUnitsPair {
    pub mem: u64,
    pub steps: u64,
}

/// A redeemer: keyed by (purpose, index within that purpose), carrying a
/// data term and an execution budget.
pub struct RedeemerEntry {
    pub purpose: RedeemerPurpose,
    pub index: u32,
    pub data: DataTerm,
    pub ex_units: ExUnitsPair,
}

/// One minted or burned asset under the validator policy: positive
/// quantities mint, negative quantities burn.
pub struct MintAsset {
    pub name: Vec<u8>,
    pub amount: i64,
}

/// The mint field of a transaction: a single policy with its asset deltas.
pub struct MintBundle {
    pub policy: Vec<u8>,
    pub assets: Vec<MintAsset>,
}

/// A governance vote choice.
#[derive(Clone, Copy, PartialEq, Eq, Structural, Debug)]
pub enum VoteChoice {
    Yes,
    No,
    Abstain,
}

/// The governance action being voted on: the proposal transaction and the
/// action index within it.
pub struct GovAction {
    pub transaction_id: Vec<u8>,
    pub action_index: u32,
}

/// An off-chain rationale document: its URL and the hash of its content.
pub struct AnchorInfo {
    pub url: String,
    pub content_hash: Vec<u8>,
}

/// One voting-procedure entry: the script voter, the targeted action, the
/// choice, and an optional rationale anchor.
pub struct VoteEntry {
    pub voter_script: Vec<u8>,
    pub action: GovAction,
    pub choice: VoteChoice,
    pub anchor: Option<AnchorInfo>,
}

/// The transaction the core produces: body fields, attached script and
/// redeemers, and the validity flag.
pub struct Transaction {
    pub inputs: Vec<InputRef>,
    pub reference_inputs: Vec<InputRef>,
    pub outputs: Vec<TxOutput>,
    pub fee: u64,
    pub certificates: Vec<CertAction>,
    pub mint: Option<MintBundle>,
    pub votes: Vec<VoteEntry>,
    pub collateral: Vec<InputRef>,
    pub collateral_return: Option<TxOutput>,
    pub total_collateral: Option<u64>,
    pub required_signers: Vec<Vec<u8>>,
    pub script_data_hash: Option<Vec<u8>>,
    /// `Some(true)` on mainnet, `Some(false)` on a test network, `None`
    /// when the body does not declare a network.
    pub network_mainnet: Option<bool>,
    pub redeemers: Vec<RedeemerEntry>,
    /// The attached validator bytecode, when scripts run.
    pub script: Option<Vec<u8>>,
    pub success: bool,
}

/// The wire code of a redeemer purpose.
pub open spec fn spec_purpose_code(p: RedeemerPurpose) -> u8 {
    match p {
        RedeemerPurpose::Spend => 0,
        RedeemerPurpose::Mint => 1,
        RedeemerPurpose::Cert => 2,
        RedeemerPurpose::Vote => 4,
        RedeemerPurpose::Propose => 5,
    }
}

/// Returns the wire code of a redeemer purpose.
pub fn purpose_code(p: RedeemerPurpose) -> (r: u8)
    ensures
        r == spec_purpose_code(p),
{
    match p {
        RedeemerPurpose::Spend => 0,
        RedeemerPurpose::Mint => 1,
        RedeemerPurpose::Cert => 2,
        RedeemerPurpose::Vote => 4,
        RedeemerPurpose::Propose => 5,
    }
}

/// Whether a data term can be carried into the wire encoding: the void
/// term, or a well-formed rule term with a representable quorum.
pub open spec fn term_encodable(t: DataTerm) -> bool {
    ||| crate::rules::is_void_term(t)
    ||| exists|ds: Seq<Seq<u8>>, q: u64|
        crate::rules::is_rules_term_for(t, ds, q) && 1 <= q <= ds.len() && q
            <= 0x7fff_ffff_ffff_ffff
}

/// Well-formedness of a certificate: its credential hashes are 28 bytes.
pub open spec fn cert_wf(c: CertAction) -> bool {
    match c {
        CertAction::VoteRegDeleg { stake_key, drep_script, deposit } => stake_key@.len() == 28
            && drep_script@.len() == 28,
        CertAction::RegDRep { script_hash, deposit } => script_hash@.len() == 28,
        CertAction::UnRegDRep { script_hash, deposit } => script_hash@.len() == 28,
    }
}

/// Well-formedness of a transaction as the wire encoding accepts it:
/// 32-byte transaction ids, 28-byte credential hashes, well-formed values,
/// and redeemer data the codec can carry.
pub open spec fn tx_wf(t: Transaction) -> bool {
    &&& forall|i: int| 0 <= i < t.inputs@.len() ==> (#[trigger] t.inputs@[i]).transaction_id@.len()
        == 32
    &&& forall|i: int|
        0 <= i < t.reference_inputs@.len() ==> (
        #[trigger] t.reference_inputs@[i]).transaction_id@.len() == 32
    &&& forall|i: int|
        0 <= i < t.collateral@.len() ==> (#[trigger] t.collateral@[i]).transaction_id@.len() == 32
    &&& forall|i: int|
        0 <= i < t.outputs@.len() ==> crate::value::value_wf((#[trigger] t.outputs@[i]).value)
    &&& t.collateral_return matches Some(o) ==> crate::value::value_wf(o.value)
    &&& forall|i: int| 0 <= i < t.certificates@.len() ==> cert_wf(#[trigger] t.certificates@[i])
    &&& t.mint matches Some(m) ==> m.policy@.len() == 28 && m.assets@.len() > 0 && forall|i: int|
        0 <= i < m.assets@.len() ==> (#[trigger] m.assets@[i]).amount != 0
    &&& forall|i: int| 0 <= i < t.required_signers@.len() ==> (
    #[trigger] t.required_signers@[i])@.len() == 28
    &&& t.script_data_hash matches Some(h) ==> h@.len() == 32
    &&& forall|i: int|
        0 <= i < t.votes@.len() ==> {
            let v = #[trigger] t.votes@[i];
            &&& v.voter_script@.len() == 28
            &&& v.action.transaction_id@.len() == 32
            &&& (v.anchor matches Some(a) ==> a.content_hash@.len() == 32)
        }
    &&& forall|i: int| 0 <= i < t.redeemers@.len() ==> term_encodable((#[trigger] t.redeemers@[i]).data)
}

/// Canonical order on input references: by transaction id bytes
/// (lexicographically), then by index.
pub open spec fn spec_input_le(a: InputRef, b: InputRef) -> bool {
    if a.transaction_id@ == b.transaction_id@ {
        a.index <= b.index
    } else {
        spec_bytes_lt(a.transaction_id@, b.transaction_id@)
    }
}

/// Lexicographic strict order on byte strings: either `a` is a proper
/// prefix of `b`, or the byte at the first differing position is smaller.
pub open spec fn spec_bytes_lt(a: Seq<u8>, b: Seq<u8>) -> bool {
    ||| (a.len() < b.len() && a == b.take(a.len() as int))
    ||| exists|i: int|
        0 <= i < a.len() && i < b.len() && a.take(i) == b.take(i) && a[i] < b[i]
}

/// Compares two byte strings lexicographically.
pub fn bytes_lt(a: &[u8], b: &[u8]) -> (r: bool)
    ensures
        r == spec_bytes_lt(a@, b@),
{
    let mut i: usize = 0;
    while i < a.len() && i < b.len()
        invariant
            i <= a.len(),
            i <= b.len(),
            forall|j: int| 0 <= j < i ==> a@[j] == b@[j],
        decreases a.len() - i,
    {
        if a[i] < b[i] {
            assert(a@.take(i as int) =~= b@.take(i as int));
            return true;
        }
        if a[i] > b[i] {
            assert forall|k: int|
                !(0 <= k < a@.len() && k < b@.len() && a@.take(k) == b@.take(k) && a@[k]
                    < b@[k]) by {
                if 0 <= k < a@.len() && k < b@.len() && a@.take(k) == b@.take(k) {
                    if k > i {
                        assert(a@.take(k)[i as int] == b@.take(k)[i as int]);
                    }
                }
            }
            assert(!(a@.len() < b@.len() && a@ == b@.take(a@.len() as int))) by {
                if a@.len() < b@.len() && a@ == b@.take(a@.len() as int) {
                    assert(b@.take(a@.len() as int)[i as int] == b@[i as int]);
                }
            }
            return false;
        }
        i = i + 1;
    }
    if a.len() < b.len() {
        assert(a@ =~= b@.take(a@.len() as int));
        true
    } else {
        assert forall|k: int|
            !(0 <= k < a@.len() && k < b@.len() && a@.take(k) == b@.take(k) && a@[k] < b@[k]) by {
            if 0 <= k < b@.len() {
                assert(a@[k] == b@[k]);
            }
        }
        false
    }
}

/// Compares two byte strings for equality.
pub fn bytes_eq(a: &[u8], b: &[u8]) -> (r: bool)
    ensures
        r == (a@ == b@),
{
    if a.len() != b.len() {
        return false;
    }
    let mut i: usize = 0;
    while i < a.len()
        invariant
            i <= a.len(),
            a@.len() == b@.len(),
            forall|j: int| 0 <= j < i ==> a@[j] == b@[j],
        decreases a.len() - i,
    {
        if a[i] != b[i] {
            return false;
        }
        i = i + 1;
    }
    assert(a@ =~= b@);
    true
}

/// Decides the canonical order on input references.
pub fn input_le(a: &InputRef, b: &InputRef) -> (r: bool)
    ensures
        r == spec_input_le(*a, *b),
{
    if bytes_eq(a.transaction_id.as_slice(), b.transaction_id.as_slice()) {
        a.index <= b.index
    } else {
        bytes_lt(a.transaction_id.as_slice(), b.transaction_id.as_slice())
    }
}

/// Whether two input references denote the same output.
pub open spec fn spec_input_eq(a: InputRef, b: InputRef) -> bool {
    a.transaction_id@ == b.transaction_id@ && a.index == b.index
}

/// Decides whether two input references denote the same output.
pub fn input_eq(a: &InputRef, b: &InputRef) -> (r: bool)
    ensures
        r == spec_input_eq(*a, *b),
{
    bytes_eq(a.transaction_id.as_slice(), b.transaction_id.as_slice()) && a.index == b.index
}

} // verus!
