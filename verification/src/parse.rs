//! Parsing of command-line values: output references of the form
//! `transaction_id#index`, with the transaction id in hexadecimal and the
//! index in decimal.

use vstd::prelude::*;
use crate::error::{Error, Field};
use crate::hexcode::{hex_decode, is_hex_text, spec_hex_decode};
use crate::tx::InputRef;

verus! {

/// Whether `b` is the ASCII code of a decimal digit.
pub open spec fn is_dec_digit(b: u8) -> bool {
    0x30 <= b <= 0x39
}

/// Whether `s` is non-empty decimal text.
pub open spec fn is_dec_text(s: Seq<u8>) -> bool {
    s.len() > 0 && forall|i: int| 0 <= i < s.len() ==> is_dec_digit(#[trigger] s[i])
}

/// The unbounded value denoted by decimal text `s`.
pub open spec fn spec_dec_value(s: Seq<u8>) -> int
    decreases s.len(),
{
    if s.len() == 0 {
        0
    } else {
        spec_dec_value(s.take(s.len() - 1)) * 10 + (s[s.len() - 1] - 0x30)
    }
}

proof fn lemma_dec_value_nonneg(s: Seq<u8>)
    requires
        forall|i: int| 0 <= i < s.len() ==> is_dec_digit(#[trigger] s[i]),
    ensures
        spec_dec_value(s) >= 0,
    decreases s.len(),
{
    if s.len() > 0 {
        lemma_dec_value_nonneg(s.take(s.len() - 1));
        assert(spec_dec_value(s.take(s.len() - 1)) * 10 >= 0) by (nonlinear_arith)
            requires
                spec_dec_value(s.take(s.len() - 1)) >= 0,
        ;
    }
}

proof fn lemma_dec_value_monotone(s: Seq<u8>, i: int)
    requires
        forall|k: int| 0 <= k < s.len() ==> is_dec_digit(#[trigger] s[k]),
        0 <= i <= s.len(),
    ensures
        spec_dec_value(s.take(i)) <= spec_dec_value(s),
    decreases s.len() - i,
{
    if i < s.len() {
        lemma_dec_value_monotone(s, i + 1);
        let p = s.take(i + 1);
        assert(p.take(p.len() - 1) =~= s.take(i));
        assert(p[p.len() - 1] == s[i]);
        lemma_dec_value_nonneg(s.take(i));
        assert(spec_dec_value(s.take(i)) * 10 + (s[i] - 0x30) >= spec_dec_value(s.take(i)))
            by (nonlinear_arith)
            requires
                spec_dec_value(s.take(i)) >= 0,
                s[i] >= 0x30,
        ;
    } else {
        assert(s.take(i) =~= s);
    }
}

/// Parses non-empty decimal text into an unsigned 64-bit integer. Fails
/// exactly when the text is empty, holds a non-digit, or denotes a value
/// beyond 64 bits.
pub fn parse_decimal(s: &[u8]) -> (r: Option<u64>)
    ensures
        (is_dec_text(s@) && spec_dec_value(s@) <= u64::MAX) <==> r is Some,
        r matches Some(v) ==> v == spec_dec_value(s@),
{
    if s.len() == 0 {
        return None;
    }
    let mut value: u64 = 0;
    let mut i: usize = 0;
    while i < s.len()
        invariant
            i <= s@.len(),
            s@.len() > 0,
            forall|k: int| 0 <= k < i ==> is_dec_digit(#[trigger] s@[k]),
            value == spec_dec_value(s@.take(i as int)),
        decreases s@.len() - i,
    {
        let b = s[i];
        if b < 0x30 || b > 0x39 {
            return None;
        }
        let d = (b - 0x30) as u64;
        let wide: u128 = (value as u128) * 10 + (d as u128);
        proof {
            assert(s@.take(i + 1).take(i as int) =~= s@.take(i as int));
            assert(s@.take(i + 1)[i as int] == s@[i as int]);
        }
        if wide > u64::MAX as u128 {
            proof {
                if is_dec_text(s@) {
                    lemma_dec_value_monotone(s@, i + 1);
                }
            }
            return None;
        }
        value = wide as u64;
        i = i + 1;
    }
    proof {
        assert(s@.take(s@.len() as int) =~= s@);
    }
    Some(value)
}

/// Whether position `k` holds the single separator of `s`.
pub open spec fn is_separator_at(s: Seq<u8>, k: int) -> bool {
    &&& 0 <= k < s.len()
    &&& s[k] == 0x23
    &&& forall|j: int| 0 <= j < s.len() && j != k ==> s[j] != 0x23
}

/// Whether `s` is a well-formed output reference: a single separator, a
/// 64-digit hexadecimal transaction id before it, and a decimal index
/// within 64 bits after it.
pub open spec fn is_output_reference(s: Seq<u8>, k: int) -> bool {
    &&& is_separator_at(s, k)
    &&& k == 64
    &&& is_hex_text(s.take(k))
    &&& is_dec_text(s.skip(k + 1))
    &&& spec_dec_value(s.skip(k + 1)) <= u64::MAX
}

/// Parses an output reference of the form `transaction_id#index`. Succeeds
/// exactly on text with a single separator whose id part is 64 hexadecimal
/// digits and whose index part is decimal and fits 64 bits; the reference
/// then denotes exactly the decoded id and index. Each malformation yields
/// its own error, naming the offending field.
pub fn parse_output_reference(s: &[u8]) -> (r: Result<InputRef, Error>)
    ensures
        r matches Ok(inp) ==> exists|k: int|
            #[trigger] is_output_reference(s@, k) && inp.transaction_id@ == spec_hex_decode(
                s@.take(k),
            ) && inp.index == spec_dec_value(s@.skip(k + 1)),
        r is Err ==> forall|k: int| !is_output_reference(s@, k),
        r == Err::<InputRef, Error>(Error::MalformedOutputReference) <==> (forall|k: int|
            !is_separator_at(s@, k)),
        r == Err::<InputRef, Error>(Error::FailedToDecodeHexString(Field::TransactionId))
            <==> exists|k: int|
            #[trigger] is_separator_at(s@, k) && !(k == 64 && is_hex_text(s@.take(k))),
        r == Err::<InputRef, Error>(Error::FailedToDecodeInt(Field::OutputIndex)) <==> exists|
            k: int,
        |
            #[trigger] is_separator_at(s@, k) && k == 64 && is_hex_text(s@.take(k)) && !(
            is_dec_text(s@.skip(k + 1)) && spec_dec_value(s@.skip(k + 1)) <= u64::MAX),
{
    // Find the single separator.
    let mut sep: usize = 0;
    let mut found: bool = false;
    let mut i: usize = 0;
    while i < s.len()
        invariant
            i <= s@.len(),
            found ==> sep < i && s@[sep as int] == 0x23 && forall|j: int|
                0 <= j < i && j != sep ==> s@[j] != 0x23,
            !found ==> forall|j: int| 0 <= j < i ==> s@[j] != 0x23,
        decreases s@.len() - i,
    {
        if s[i] == 0x23 {
            if found {
                // A second separator: malformed.
                proof {
                    assert forall|k: int| !is_separator_at(s@, k) by {
                        if is_separator_at(s@, k) {
                            if k != sep {
                                assert(s@[sep as int] != 0x23);
                            } else {
                                assert(s@[i as int] != 0x23);
                            }
                        }
                    }
                }
                return Err(Error::MalformedOutputReference);
            }
            sep = i;
            found = true;
        }
        i = i + 1;
    }
    if !found {
        proof {
            assert forall|k: int| !is_separator_at(s@, k) by {
                if is_separator_at(s@, k) {
                    assert(s@[k] != 0x23);
                }
            }
        }
        return Err(Error::MalformedOutputReference);
    }
    proof {
        assert(is_separator_at(s@, sep as int));
        assert forall|k: int| #[trigger] is_separator_at(s@, k) implies k == sep as int by {
            if k != sep {
                assert(s@[k] != 0x23);
            }
        }
    }
    // The id part must be 64 hexadecimal digits.
    let id_part: &[u8] = s.split_at(sep).0;
    proof {
        assert(id_part@ =~= s@.take(sep as int));
    }
    if sep != 64 {
        return Err(Error::FailedToDecodeHexString(Field::TransactionId));
    }
    let transaction_id = match hex_decode(id_part) {
        Some(v) => v,
        None => { return Err(Error::FailedToDecodeHexString(Field::TransactionId)) },
    };
    // The index part must be decimal within 64 bits.
    let index_part: &[u8] = s.split_at(sep + 1).1;
    proof {
        assert(index_part@ =~= s@.skip(sep + 1));
    }
    let index = match parse_decimal(index_part) {
        Some(v) => v,
        None => { return Err(Error::FailedToDecodeInt(Field::OutputIndex)) },
    };
    proof {
        assert(is_output_reference(s@, sep as int));
    }
    Ok(InputRef { transaction_id, index })
}

} // verus!
