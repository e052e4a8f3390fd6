//! Coin / multi-asset value representation and safe arithmetic.

use vstd::prelude::*;

verus! {

/// One asset held under a policy: a name (up to 32 bytes on chain) and a
/// strictly positive quantity.
pub struct AssetEntry {
    pub name: Vec<u8>,
    pub amount: u64,
}

/// All assets of a value that share one policy id (a 28-byte script hash).
pub struct PolicyEntry {
    pub policy: Vec<u8>,
    pub assets: Vec<AssetEntry>,
}

/// A ledger value: either a pure coin amount, or a coin amount together with
/// a multi-asset map grouped by policy.
pub enum Value {
    Coin(u64),
    Multiasset(u64, Vec<PolicyEntry>),
}

/// The coin component of a value, regardless of representation.
pub open spec fn spec_lovelace_of(v: Value) -> u64 {
    match v {
        Value::Coin(lovelace) => lovelace,
        Value::Multiasset(lovelace, _) => lovelace,
    }
}

/// Returns the coin component of `v`.
pub fn lovelace_of(v: &Value) -> (r: u64)
    ensures
        r == spec_lovelace_of(*v),
{
    match v {
        Value::Coin(lovelace) => *lovelace,
        Value::Multiasset(lovelace, _) => *lovelace,
    }
}

/// Subtracts `cost` from the coin component of `total_value`, keeping the
/// multi-asset map unchanged. Succeeds only when the coin component strictly
/// exceeds `cost`, so every derived output keeps a positive coin remainder.
pub fn subtract(total_value: Value, cost: u64) -> (r: Option<Value>)
    ensures
        spec_lovelace_of(total_value) <= cost ==> r is None,
        spec_lovelace_of(total_value) > cost ==> match total_value {
            Value::Coin(total) => r == Some(Value::Coin((total - cost) as u64)),
            Value::Multiasset(total, assets) => r == Some(
                Value::Multiasset((total - cost) as u64, assets),
            ),
        },
{
    match total_value {
        Value::Coin(total) => {
            if total > cost {
                Some(Value::Coin(total - cost))
            } else {
                None
            }
        },
        Value::Multiasset(total, assets) => {
            if total > cost {
                Some(Value::Multiasset(total - cost, assets))
            } else {
                None
            }
        },
    }
}

/// Well-formedness of a value as the ledger accepts it: policy ids are
/// 28-byte hashes, every policy holds at least one asset, and custody
/// quantities are strictly positive.
pub open spec fn value_wf(v: Value) -> bool {
    match v {
        Value::Coin(_) => true,
        Value::Multiasset(_, policies) => {
            &&& policies@.len() > 0
            &&& forall|i: int|
                0 <= i < policies@.len() ==> {
                    &&& (#[trigger] policies@[i]).policy@.len() == 28
                    &&& policies@[i].assets@.len() > 0
                    &&& forall|j: int|
                        0 <= j < policies@[i].assets@.len() ==> (#[trigger] policies@[i].assets@[j]).amount
                            >= 1
                }
        },
    }
}

/// Builds a single-policy multi-asset map from a list of (asset-name,
/// quantity) pairs for custody in an output. Quantities must be strictly
/// positive; a zero quantity fails fast rather than producing an
/// unrepresentable entry.
pub fn aggregate_assets(policy: Vec<u8>, pairs: Vec<AssetEntry>) -> (r: Result<
    Vec<PolicyEntry>,
    crate::error::Error,
>)
    ensures
        r matches Ok(ps) ==> {
            &&& ps@.len() == 1
            &&& ps@[0].policy == policy
            &&& ps@[0].assets == pairs
            &&& forall|i: int| 0 <= i < pairs@.len() ==> (#[trigger] pairs@[i]).amount >= 1
        },
        r is Err ==> (exists|i: int| 0 <= i < pairs@.len() && (#[trigger] pairs@[i]).amount == 0)
            && r == Err::<Vec<PolicyEntry>, crate::error::Error>(
            crate::error::Error::NumericOverflow,
        ),
{
    let mut i: usize = 0;
    while i < pairs.len()
        invariant
            i <= pairs@.len(),
            forall|j: int| 0 <= j < i ==> (#[trigger] pairs@[j]).amount >= 1,
        decreases pairs@.len() - i,
    {
        if pairs[i].amount == 0 {
            return Err(crate::error::Error::NumericOverflow);
        }
        i = i + 1;
    }
    let mut out: Vec<PolicyEntry> = Vec::new();
    out.push(PolicyEntry { policy, assets: pairs });
    Ok(out)
}

/// The state-token asset name of a contract-custodied value: the first
/// asset name under the first policy of its multi-asset map, if any.
pub open spec fn spec_find_token(v: Value) -> Option<Seq<u8>> {
    match v {
        Value::Coin(_) => None,
        Value::Multiasset(_, policies) => if policies@.len() > 0 && policies@[0].assets@.len()
            > 0 {
            Some(policies@[0].assets@[0].name@)
        } else {
            None
        },
    }
}

/// Extracts the state-token asset name of a contract-custodied value.
pub fn find_contract_token(v: &Value) -> (r: Option<Vec<u8>>)
    ensures
        match spec_find_token(*v) {
            Some(name) => r matches Some(n) && n@ == name,
            None => r is None,
        },
{
    match v {
        Value::Coin(_) => None,
        Value::Multiasset(_, policies) => {
            if policies.len() > 0 {
                let first = &policies[0];
                if first.assets.len() > 0 {
                    Some(first.assets[0].name.clone())
                } else {
                    None
                }
            } else {
                None
            }
        },
    }
}

} // verus!
