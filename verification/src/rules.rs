//! Quorum-rule codec: encodes a delegate list and a quorum threshold into a
//! structured data term, derives the content-addressed state-token name, and
//! recovers rules from a minting transaction's witness.

use vstd::prelude::*;
use crate::error::Error;

verus! {

/// A structured data term, as interpreted by the on-chain validator: tagged
/// constructors over lists, byte strings and integers.
#[verifier::ext_equal]
pub enum DataTerm {
    Constr { tag: u64, fields: Vec<DataTerm> },
    List(Vec<DataTerm>),
    Bytes(Vec<u8>),
    Int(u64),
}

/// The views of a sequence of byte vectors.
pub open spec fn byte_views(ds: Seq<Vec<u8>>) -> Seq<Seq<u8>> {
    ds.map_values(|d: Vec<u8>| d@)
}

/// Whether `t` is the void term: an empty constructor with the base tag.
pub open spec fn is_void_term(t: DataTerm) -> bool {
    &&& t is Constr
    &&& t->tag == 121
    &&& t->fields@.len() == 0
}

/// Whether `t` wraps the single delegate identity `d` in a tagged
/// byte-string constructor.
pub open spec fn is_delegate_entry_for(t: DataTerm, d: Seq<u8>) -> bool {
    &&& t is Constr
    &&& t->tag == 121
    &&& t->fields@.len() == 1
    &&& t->fields@[0] is Bytes
    &&& (t->fields@[0]->Bytes_0)@ == d
}

/// Whether `t` is the rule term for delegate identities `ds` and quorum `q`:
/// a tagged constructor holding the ordered list of wrapped delegates and
/// the quorum threshold.
pub open spec fn is_rules_term_for(t: DataTerm, ds: Seq<Seq<u8>>, q: u64) -> bool {
    &&& t is Constr
    &&& t->tag == 123
    &&& t->fields@.len() == 2
    &&& t->fields@[0] is List
    &&& (t->fields@[0]->List_0)@.len() == ds.len()
    &&& forall|i: int|
        0 <= i < ds.len() ==> is_delegate_entry_for(#[trigger] (t->fields@[0]->List_0)@[i], ds[i])
    &&& t->fields@[1] == DataTerm::Int(q)
}

/// Returns the void data term.
pub fn void() -> (r: DataTerm)
    ensures
        is_void_term(r),
{
    DataTerm::Constr { tag: 121, fields: Vec::new() }
}

/// Decides whether `t` is the void term.
pub fn is_void(t: &DataTerm) -> (r: bool)
    ensures
        r == is_void_term(*t),
{
    match t {
        DataTerm::Constr { tag, fields } => *tag == 121 && fields.len() == 0,
        _ => false,
    }
}

/// Encodes the ordered delegate list and quorum into a rule term. The order
/// of the delegates is preserved: it is part of the identity the state-token
/// name commits to. Fails exactly on an empty delegate list or a quorum
/// outside `1 ..= delegates.len()`.
pub fn encode_rules(delegates: &Vec<Vec<u8>>, quorum: u64) -> (r: Result<DataTerm, Error>)
    ensures
        delegates@.len() == 0 ==> r == Err::<DataTerm, Error>(Error::NoDelegates),
        delegates@.len() > 0 && !(1 <= quorum <= delegates@.len()) ==> r == Err::<
            DataTerm,
            Error,
        >(Error::QuorumOutOfRange),
        delegates@.len() > 0 && 1 <= quorum <= delegates@.len() ==> (r matches Ok(t)
            && is_rules_term_for(t, byte_views(delegates@), quorum)),
{
    if delegates.len() == 0 {
        return Err(Error::NoDelegates);
    }
    if quorum < 1 || quorum > delegates.len() as u64 {
        return Err(Error::QuorumOutOfRange);
    }
    let mut entries: Vec<DataTerm> = Vec::new();
    let mut i: usize = 0;
    while i < delegates.len()
        invariant
            i <= delegates@.len(),
            entries@.len() == i,
            forall|j: int|
                0 <= j < i ==> is_delegate_entry_for(
                    #[trigger] entries@[j],
                    byte_views(delegates@)[j],
                ),
        decreases delegates@.len() - i,
    {
        let mut wrapper: Vec<DataTerm> = Vec::new();
        wrapper.push(DataTerm::Bytes(delegates[i].clone()));
        entries.push(DataTerm::Constr { tag: 121, fields: wrapper });
        i = i + 1;
    }
    let mut fields: Vec<DataTerm> = Vec::new();
    fields.push(DataTerm::List(entries));
    fields.push(DataTerm::Int(quorum));
    Ok(DataTerm::Constr { tag: 123, fields })
}

/// Decodes a rule term back into its delegate list and quorum. Succeeds
/// exactly on well-formed rule terms whose quorum lies in
/// `1 ..= delegates.len()`.
pub fn decode_rules(t: &DataTerm) -> (r: Result<(Vec<Vec<u8>>, u64), Error>)
    ensures
        r matches Ok(p) ==> is_rules_term_for(*t, byte_views(p.0@), p.1) && 1 <= p.1 <= p.0@.len(),
        r is Err ==> forall|ds: Seq<Seq<u8>>, q: u64|
            !(is_rules_term_for(*t, ds, q) && 1 <= q <= ds.len()),
        r is Err ==> r == Err::<(Vec<Vec<u8>>, u64), Error>(Error::NoMintingRedeemer) || r == Err::<
            (Vec<Vec<u8>>, u64),
            Error,
        >(Error::QuorumOutOfRange),
{
    match t {
        DataTerm::Constr { tag, fields } => {
            if *tag != 123 || fields.len() != 2 {
                return Err(Error::NoMintingRedeemer);
            }
            let quorum: u64 = match &fields[1] {
                DataTerm::Int(q) => *q,
                _ => { return Err(Error::NoMintingRedeemer) },
            };
            let entries: &Vec<DataTerm> = match &fields[0] {
                DataTerm::List(es) => es,
                _ => { return Err(Error::NoMintingRedeemer) },
            };
            let mut delegates: Vec<Vec<u8>> = Vec::new();
            let mut i: usize = 0;
            while i < entries.len()
                invariant
                    i <= entries@.len(),
                    delegates@.len() == i,
                    t->fields@[0]->List_0 == *entries,
                    forall|j: int|
                        0 <= j < i ==> is_delegate_entry_for(
                            #[trigger] entries@[j],
                            byte_views(delegates@)[j],
                        ),
                decreases entries@.len() - i,
            {
                let entry_ok: bool = match &entries[i] {
                    DataTerm::Constr { tag: etag, fields: efields } => {
                        if *etag != 121 || efields.len() != 1 {
                            false
                        } else {
                            match &efields[0] {
                                DataTerm::Bytes(b) => {
                                    delegates.push(b.clone());
                                    true
                                },
                                _ => false,
                            }
                        }
                    },
                    _ => false,
                };
                if !entry_ok {
                    proof {
                        assert forall|ds: Seq<Seq<u8>>, q: u64|
                            !(is_rules_term_for(*t, ds, q) && 1 <= q <= ds.len()) by {
                            if is_rules_term_for(*t, ds, q) {
                                assert(is_delegate_entry_for(
                                    (t->fields@[0]->List_0)@[i as int],
                                    ds[i as int],
                                ));
                            }
                        }
                    }
                    return Err(Error::NoMintingRedeemer);
                }
                i = i + 1;
            }
            if quorum < 1 || quorum > delegates.len() as u64 || delegates.len() == 0 {
                proof {
                    assert forall|ds: Seq<Seq<u8>>, q: u64|
                        !(is_rules_term_for(*t, ds, q) && 1 <= q <= ds.len()) by {
                        if is_rules_term_for(*t, ds, q) {
                            assert(ds.len() == entries@.len());
                            assert(q == quorum);
                        }
                    }
                }
                return Err(Error::QuorumOutOfRange);
            }
            assert(is_rules_term_for(*t, byte_views(delegates@), quorum));
            Ok((delegates, quorum))
        },
        _ => Err(Error::NoMintingRedeemer),
    }
}

/// Law: a rule term pins its delegate list and quorum. Decoding can only
/// ever return the pair that was encoded into the term.
pub proof fn lemma_rules_term_inverse(
    t: DataTerm,
    ds1: Seq<Seq<u8>>,
    q1: u64,
    ds2: Seq<Seq<u8>>,
    q2: u64,
)
    requires
        is_rules_term_for(t, ds1, q1),
        is_rules_term_for(t, ds2, q2),
    ensures
        ds1 == ds2,
        q1 == q2,
{
    assert forall|i: int| 0 <= i < ds1.len() implies ds1[i] == ds2[i] by {
        let entries = t->fields@[0]->List_0;
        assert(is_delegate_entry_for(entries@[i], ds1[i]));
        assert(is_delegate_entry_for(entries@[i], ds2[i]));
    }
    assert(ds1 =~= ds2);
}

/// The state-token asset name for rules over `ds` and `q`: a fixed literal
/// prefix followed by the digest of the canonical encoding of the rule
/// term. The prefix distinguishes the naming scheme from unrelated
/// policies sharing the same validator hash.
pub open spec fn spec_asset_name(ds: Seq<Seq<u8>>, q: u64) -> Seq<u8> {
    seq![0x67u8, 0x6fu8, 0x76u8, 0x5fu8] + crate::bridge::rules_digest_of(ds, q)
}

/// Derives the state-token asset name from a rule term. The name is a pure
/// function of the delegates and quorum the term encodes: encoding the
/// same pair twice always yields the same asset name.
pub fn rules_asset_name(t: &DataTerm) -> (r: Vec<u8>)
    requires
        exists|ds: Seq<Seq<u8>>, q: u64|
            is_rules_term_for(*t, ds, q) && 1 <= q <= ds.len() && q <= 0x7fff_ffff_ffff_ffff,
    ensures
        r@.len() == 32,
        forall|ds: Seq<Seq<u8>>, q: u64| is_rules_term_for(*t, ds, q) ==> r@ == spec_asset_name(
            ds,
            q,
        ),
{
    let digest = crate::bridge::rules_term_digest(t);
    let mut name: Vec<u8> = Vec::new();
    name.push(0x67);
    name.push(0x6f);
    name.push(0x76);
    name.push(0x5f);
    let mut i: usize = 0;
    while i < digest.len()
        invariant
            i <= digest@.len(),
            name@.len() == 4 + i,
            name@[0] == 0x67u8 && name@[1] == 0x6fu8 && name@[2] == 0x76u8 && name@[3] == 0x5fu8,
            forall|j: int| 0 <= j < i ==> name@[4 + j] == digest@[j],
        decreases digest@.len() - i,
    {
        name.push(digest[i]);
        i = i + 1;
    }
    proof {
        assert forall|ds: Seq<Seq<u8>>, q: u64| is_rules_term_for(*t, ds, q) implies name@
            == spec_asset_name(ds, q) by {
            assert(digest@ == crate::bridge::rules_digest_of(ds, q));
            assert(name@ =~= spec_asset_name(ds, q));
        }
    }
    name
}

/// Whether a redeemer entry carries quorum rules: a certificate redeemer
/// whose data is not the void term.
pub open spec fn is_rules_bearing(e: crate::tx::RedeemerEntry) -> bool {
    &&& e.purpose is Cert
    &&& !is_void_term(e.data)
}

/// The data of the first rules-bearing redeemer of a witness, if any.
pub open spec fn spec_recover(rs: Seq<crate::tx::RedeemerEntry>) -> Option<DataTerm>
    decreases rs.len(),
{
    if rs.len() == 0 {
        None
    } else if is_rules_bearing(rs[0]) {
        Some(rs[0].data)
    } else {
        spec_recover(rs.skip(1))
    }
}

proof fn lemma_spec_recover_step(rs: Seq<crate::tx::RedeemerEntry>, i: int)
    requires
        0 <= i <= rs.len(),
        forall|j: int| 0 <= j < i ==> !is_rules_bearing(#[trigger] rs[j]),
    ensures
        spec_recover(rs) == spec_recover(rs.skip(i)),
    decreases i,
{
    if i > 0 {
        lemma_spec_recover_step(rs, i - 1);
        assert(rs.skip(i - 1).len() > 0);
        assert(rs.skip(i - 1)[0] == rs[i - 1]);
        assert(!is_rules_bearing(rs.skip(i - 1)[0]));
        assert(rs.skip(i - 1).skip(1) =~= rs.skip(i));
    } else {
        assert(rs.skip(0) =~= rs);
    }
}

/// Recovers the quorum rules committed to by a contract-custodied value:
/// extracts its state-token asset name, pulls the rule term from the first
/// non-void certificate redeemer of the transaction that minted the token,
/// and decodes it. Returns the delegate list, the quorum, and the token
/// name.
pub fn recover_rules(
    contract_value: &crate::value::Value,
    minting_redeemers: &Vec<crate::tx::RedeemerEntry>,
) -> (r: Result<(Vec<Vec<u8>>, u64, Vec<u8>), Error>)
    ensures
        crate::value::spec_find_token(*contract_value) is None ==> r == Err::<
            (Vec<Vec<u8>>, u64, Vec<u8>),
            Error,
        >(Error::NoStateToken),
        crate::value::spec_find_token(*contract_value) is Some && spec_recover(minting_redeemers@)
            is None ==> r == Err::<(Vec<Vec<u8>>, u64, Vec<u8>), Error>(Error::NoMintingRedeemer),
        spec_recover(minting_redeemers@) matches Some(rules)
            ==> crate::value::spec_find_token(*contract_value) matches Some(name) ==> match r {
            Ok(p) => is_rules_term_for(rules, byte_views(p.0@), p.1) && 1 <= p.1 <= p.0@.len()
                && p.2@ == name,
            Err(e) => (e == Error::NoMintingRedeemer || e == Error::QuorumOutOfRange) && forall|
                ds: Seq<Seq<u8>>,
                q: u64,
            | !(is_rules_term_for(rules, ds, q) && 1 <= q <= ds.len()),
        },
        r is Err ==> r == Err::<(Vec<Vec<u8>>, u64, Vec<u8>), Error>(Error::NoStateToken) || r
            == Err::<(Vec<Vec<u8>>, u64, Vec<u8>), Error>(Error::NoMintingRedeemer) || r == Err::<
            (Vec<Vec<u8>>, u64, Vec<u8>),
            Error,
        >(Error::QuorumOutOfRange),
{
    let asset_name = match crate::value::find_contract_token(contract_value) {
        Some(name) => name,
        None => { return Err(Error::NoStateToken) },
    };
    let mut i: usize = 0;
    while i < minting_redeemers.len()
        invariant
            i <= minting_redeemers@.len(),
            crate::value::spec_find_token(*contract_value) matches Some(name) && asset_name@
                == name,
            forall|j: int| 0 <= j < i ==> !is_rules_bearing(#[trigger] minting_redeemers@[j]),
        decreases minting_redeemers@.len() - i,
    {
        let e = &minting_redeemers[i];
        let bearing = match e.purpose {
            crate::tx::RedeemerPurpose::Cert => !is_void(&e.data),
            _ => false,
        };
        if bearing {
            proof {
                lemma_spec_recover_step(minting_redeemers@, i as int);
                assert(minting_redeemers@.skip(i as int)[0] == minting_redeemers@[i as int]);
                assert(is_rules_bearing(minting_redeemers@[i as int]));
                assert(spec_recover(minting_redeemers@.skip(i as int)) == Some(
                    minting_redeemers@[i as int].data,
                ));
                assert(spec_recover(minting_redeemers@) == Some(e.data));
            }
            let (delegates, quorum) = match decode_rules(&e.data) {
                Ok(p) => p,
                Err(err) => { return Err(err) },
            };
            return Ok((delegates, quorum, asset_name));
        }
        i = i + 1;
    }
    proof {
        lemma_spec_recover_step(minting_redeemers@, minting_redeemers@.len() as int);
        assert(minting_redeemers@.skip(minting_redeemers@.len() as int).len() == 0);
    }
    Err(Error::NoMintingRedeemer)
}

} // verus!
