//! Script-integrity hash: canonical preimage construction over redeemers,
//! datums and sorted language-cost-model views, and the committed digest.

use vstd::prelude::*;
use crate::bridge;
use crate::rules::DataTerm;
use crate::tx::{term_encodable, RedeemerEntry};

verus! {

/// One (scripting language, cost model) pair. Languages are numbered by
/// version: 0, 1 and 2 for the first, second and third language.
pub struct LanguageView {
    pub language: u8,
    pub cost_model: Vec<i64>,
}

/// Whether the views are ordered by the protocol's fixed rule: the third
/// language sorts after everything else, the second after the first.
pub open spec fn views_sorted(vs: Seq<LanguageView>) -> bool {
    forall|i: int, j: int| 0 <= i < j < vs.len() ==> vs[i].language <= vs[j].language
}

/// Whether no language occurs twice.
pub open spec fn distinct_languages(vs: Seq<LanguageView>) -> bool {
    forall|i: int, j: int| #![trigger vs[i], vs[j]]
        0 <= i < j < vs.len() ==> vs[i].language != vs[j].language
}

/// Sorts language views into the protocol's fixed, non-lexical order. The
/// result holds exactly the given entries.
pub fn sort_language_views(views: Vec<LanguageView>) -> (r: Vec<LanguageView>)
    ensures
        r@.to_multiset() == views@.to_multiset(),
        r@.len() == views@.len(),
        views_sorted(r@),
        forall|i: int| 0 <= i < r@.len() ==> views@.contains(#[trigger] r@[i]),
{
    broadcast use vstd::seq_lib::group_to_multiset_ensures;
    broadcast use vstd::multiset::group_multiset_axioms;

    let mut rest = views;
    let ghost orig = rest@;
    let mut out: Vec<LanguageView> = Vec::new();
    while rest.len() > 0
        invariant
            out@.to_multiset().add(rest@.to_multiset()) == orig.to_multiset(),
            out@.len() + rest@.len() == orig.len(),
            views_sorted(out@),
            forall|i: int, j: int| #![trigger out@[i], rest@[j]]
                0 <= i < out@.len() && 0 <= j < rest@.len() ==> out@[i].language
                    <= rest@[j].language,
        decreases rest@.len(),
    {
        let mut m: usize = 0;
        let mut k: usize = 1;
        while k < rest.len()
            invariant
                m < k <= rest@.len(),
                rest@.len() > 0,
                forall|j: int| 0 <= j < k ==> rest@[m as int].language <= (
                #[trigger] rest@[j]).language,
            decreases rest@.len() - k,
        {
            if rest[k].language < rest[m].language {
                m = k;
            }
            k = k + 1;
        }
        let ghost old_out = out@;
        let ghost old_rest = rest@;
        let e = rest.remove(m);
        out.push(e);
        proof {
            broadcast use vstd::seq_lib::group_to_multiset_ensures;
            broadcast use vstd::multiset::group_multiset_axioms;

            vstd::seq_lib::to_multiset_remove(old_rest, m as int);
            vstd::seq_lib::to_multiset_build(old_out, e);
            vstd::seq_lib::to_multiset_contains(old_rest, e);
            assert(old_rest.remove(m as int).to_multiset() =~= old_rest.to_multiset().remove(e));
            assert(old_out.push(e).to_multiset() =~= old_out.to_multiset().insert(e));
            assert(old_rest.contains(e));
            assert(old_rest.to_multiset().contains(e));
            assert(out@.to_multiset().add(rest@.to_multiset()) =~= old_out.to_multiset().add(
                old_rest.to_multiset(),
            ));
            assert forall|i: int, j: int| #![trigger out@[i], rest@[j]]
                0 <= i < out@.len() && 0 <= j < rest@.len() implies out@[i].language
                <= rest@[j].language by {
                if j < m {
                    assert(rest@[j] == old_rest[j]);
                } else {
                    assert(rest@[j] == old_rest[j + 1]);
                }
            }
        }
    }
    proof {
        assert forall|i: int| 0 <= i < out@.len() implies orig.contains(#[trigger] out@[i]) by {
            vstd::seq_lib::to_multiset_contains(out@, out@[i]);
            vstd::seq_lib::to_multiset_contains(orig, out@[i]);
            assert(out@.contains(out@[i]));
            assert(out@.to_multiset().count(out@[i]) > 0);
            assert(orig.to_multiset().count(out@[i]) > 0);
        }
        assert(rest@.to_multiset() =~= vstd::multiset::Multiset::<LanguageView>::empty());
        assert(out@.to_multiset() =~= orig.to_multiset());
    }
    out
}

/// Law: the canonical order is unique. Two sorted view lists holding the
/// same entries, with no language repeated, are equal — so the integrity
/// preimage, hence the hash, does not depend on the order in which the
/// views were supplied.
pub proof fn lemma_sorted_views_unique(a: Seq<LanguageView>, b: Seq<LanguageView>)
    requires
        a.to_multiset() == b.to_multiset(),
        views_sorted(a),
        views_sorted(b),
        distinct_languages(a),
    ensures
        a == b,
    decreases a.len(),
{
    broadcast use vstd::seq_lib::group_to_multiset_ensures;
    broadcast use vstd::multiset::group_multiset_axioms;

    vstd::seq_lib::to_multiset_len(a);
    vstd::seq_lib::to_multiset_len(b);
    if a.len() == 0 {
        assert(a.to_multiset().len() == 0);
        assert(b.len() == 0);
        assert(a =~= b);
    } else {
        assert(a.to_multiset().len() == b.to_multiset().len());
        assert(b.len() == a.len());
        vstd::seq_lib::to_multiset_contains(a, a[0]);
        vstd::seq_lib::to_multiset_contains(b, a[0]);
        vstd::seq_lib::to_multiset_contains(a, b[0]);
        vstd::seq_lib::to_multiset_contains(b, b[0]);
        assert(a.contains(a[0]));
        assert(a.to_multiset().count(a[0]) > 0);
        assert(b.to_multiset().count(a[0]) > 0);
        assert(b.contains(a[0]));
        let j = choose|j: int| 0 <= j < b.len() && b[j] == a[0];
        assert(b.contains(b[0]));
        assert(b.to_multiset().count(b[0]) > 0);
        assert(a.to_multiset().count(b[0]) > 0);
        assert(a.contains(b[0]));
        let k = choose|k: int| 0 <= k < a.len() && a[k] == b[0];
        assert(b[0].language <= b[j].language);
        assert(a[0].language <= a[k].language);
        assert(a[0].language == b[0].language);
        if k != 0 {
            assert(a[0].language != a[k].language);
        }
        assert(a[0] == b[0]);
        let a1 = a.remove(0);
        let b1 = b.remove(0);
        vstd::seq_lib::to_multiset_remove(a, 0);
        vstd::seq_lib::to_multiset_remove(b, 0);
        assert(a1.to_multiset() =~= a.to_multiset().remove(a[0]));
        assert(b1.to_multiset() =~= b.to_multiset().remove(b[0]));
        assert(a1.to_multiset() == b1.to_multiset());
        assert(views_sorted(a1));
        assert(views_sorted(b1));
        assert(distinct_languages(a1));
        lemma_sorted_views_unique(a1, b1);
        assert(a =~= b) by {
            assert(forall|i: int| 0 < i < a.len() ==> a[i] == a1[i - 1] && b[i] == b1[i - 1]);
        }
    }
}

/// The three preimage segments concatenated in order: redeemers, datums,
/// sorted language views.
pub open spec fn spec_preimage(rbytes: Seq<u8>, dbytes: Seq<u8>, vbytes: Seq<u8>) -> Seq<u8> {
    rbytes + dbytes + vbytes
}

/// The bytes a redeemer collection contributes to the preimage.
pub open spec fn spec_redeemers_part(redeemers: Option<&Vec<RedeemerEntry>>) -> Seq<u8> {
    match redeemers {
        Some(rs) => bridge::cbor_redeemers_of(rs@),
        None => Seq::empty(),
    }
}

/// The bytes a datum collection contributes to the preimage.
pub open spec fn spec_datums_part(datums: Option<&Vec<(Vec<u8>, DataTerm)>>) -> Seq<u8> {
    match datums {
        Some(ds) => bridge::cbor_datums_of(ds@),
        None => Seq::empty(),
    }
}

/// Computes the script-integrity hash: the single-pass digest over the
/// canonical preimage of the redeemers, the datums, and the language views
/// in their fixed order. Returns nothing exactly when all three are absent,
/// since there is then nothing to commit to.
pub fn script_integrity_hash(
    redeemers: Option<&Vec<RedeemerEntry>>,
    datums: Option<&Vec<(Vec<u8>, DataTerm)>>,
    language_views: Vec<LanguageView>,
) -> (r: Option<Vec<u8>>)
    requires
        redeemers matches Some(rs) ==> rs@.len() > 0 && forall|i: int|
            0 <= i < rs@.len() ==> term_encodable((#[trigger] rs@[i]).data),
        datums matches Some(ds) ==> ds@.len() > 0 && (forall|i: int|
            0 <= i < ds@.len() ==> (#[trigger] ds@[i]).0@.len() == 32) && (forall|i: int|
            0 <= i < ds@.len() ==> term_encodable((#[trigger] ds@[i]).1)),
        forall|i: int| 0 <= i < language_views@.len() ==> (#[trigger] language_views@[i]).language
            <= 2,
    ensures
        (redeemers is None && datums is None && language_views@.len() == 0) <==> r is None,
        r matches Some(h) ==> h@.len() == 32 && exists|sv: Seq<LanguageView>|
            sv.to_multiset() == language_views@.to_multiset() && views_sorted(sv) && h@
                == bridge::blake2b256_of(
                spec_preimage(
                    spec_redeemers_part(redeemers),
                    spec_datums_part(datums),
                    if language_views@.len() == 0 {
                        Seq::<u8>::empty()
                    } else {
                        bridge::cbor_views_of(sv)
                    },
                ),
            ),
{
    broadcast use vstd::seq_lib::group_to_multiset_ensures;
    broadcast use vstd::multiset::group_multiset_axioms;

    let no_views = language_views.len() == 0;
    if redeemers.is_none() && datums.is_none() && no_views {
        return None;
    }
    let mut preimage: Vec<u8> = Vec::new();
    if let Some(rs) = redeemers {
        let mut bytes = bridge::cbor_redeemers(rs);
        preimage.append(&mut bytes);
    }
    if let Some(ds) = datums {
        let mut bytes = bridge::cbor_datums(ds);
        preimage.append(&mut bytes);
    }
    let ghost views_before = language_views@;
    if language_views.len() > 0 {
        let sorted_views = sort_language_views(language_views);
        proof {
            assert forall|i: int| 0 <= i < sorted_views@.len() implies (
            #[trigger] sorted_views@[i]).language <= 2 by {
                assert(views_before.contains(sorted_views@[i]));
                let j = choose|j: int| 0 <= j < views_before.len() && views_before[j]
                    == sorted_views@[i];
                assert(views_before[j].language <= 2);
            }
        }
        let mut bytes = bridge::cbor_language_views(&sorted_views);
        preimage.append(&mut bytes);
        proof {
            assert(preimage@ =~= spec_preimage(
                spec_redeemers_part(redeemers),
                spec_datums_part(datums),
                bridge::cbor_views_of(sorted_views@),
            ));
        }
        let digest = bridge::blake2b_256(&preimage);
        proof {
            let sv = sorted_views@;
            assert(sv.to_multiset() == views_before.to_multiset() && views_sorted(sv) && digest@
                == bridge::blake2b256_of(
                spec_preimage(
                    spec_redeemers_part(redeemers),
                    spec_datums_part(datums),
                    bridge::cbor_views_of(sv),
                ),
            ));
        }
        Some(digest)
    } else {
        proof {
            assert(preimage@ =~= spec_preimage(
                spec_redeemers_part(redeemers),
                spec_datums_part(datums),
                Seq::<u8>::empty(),
            ));
        }
        let digest = bridge::blake2b_256(&preimage);
        proof {
            let sv = Seq::<LanguageView>::empty();
            vstd::seq_lib::to_multiset_len(views_before);
            vstd::seq_lib::to_multiset_len(sv);
            assert(views_before.to_multiset().len() == 0);
            assert(sv.to_multiset() =~= views_before.to_multiset());
            assert(sv.to_multiset() == views_before.to_multiset() && views_sorted(sv) && digest@
                == bridge::blake2b256_of(
                spec_preimage(
                    spec_redeemers_part(redeemers),
                    spec_datums_part(datums),
                    Seq::<u8>::empty(),
                ),
            ));
        }
        Some(digest)
    }
}

} // verus!
