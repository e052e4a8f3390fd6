//! Protocol parameters: the immutable economic snapshot every build reads,
//! and the exact rational arithmetic the fee rules require.

use vstd::prelude::*;
use crate::error::Error;

verus! {

/// A non-negative rational coefficient, held as numerator / denominator.
#[derive(Clone, Copy, PartialEq, Eq, Structural, Debug)]
pub struct Ratio {
    pub num: u64,
    pub den: u64,
}

/// The snapshot of economic constants read once per operation.
pub struct ProtocolParameters {
    /// The constant term of the linear fee rule.
    pub fee_constant: u64,
    /// The per-byte coefficient of the linear fee rule.
    pub fee_coefficient: u64,
    /// The price of one script memory unit.
    pub price_mem: Ratio,
    /// The price of one script step unit.
    pub price_steps: Ratio,
    /// The collateral requirement as a fraction of the fee.
    pub collateral_percent: Ratio,
    /// The per-byte coefficient of the minimum-value output rule.
    pub min_utxo_deposit_coefficient: u64,
    /// The deposit a voting-entity registration certificate carries.
    pub drep_deposit: u64,
    /// The cost model for the scripting language in use.
    pub cost_model_v3: Vec<i64>,
}

/// Well-formedness of the snapshot: rational coefficients have non-zero
/// denominators.
pub open spec fn params_wf(p: ProtocolParameters) -> bool {
    &&& p.price_mem.den > 0
    &&& p.price_steps.den > 0
    &&& p.collateral_percent.den > 0
}

/// `ceil(x * r)` over the rationals, as an unbounded integer.
pub open spec fn spec_ceil_mul(x: u64, r: Ratio) -> int
    recommends
        r.den > 0,
{
    (x * r.num + r.den - 1) / (r.den as int)
}

/// Multiplies `x` by the rational `r` and rounds up. Fails exactly when the
/// result does not fit in 64 bits.
pub fn ceil_mul(x: u64, r: &Ratio) -> (res: Result<u64, Error>)
    requires
        r.den > 0,
    ensures
        spec_ceil_mul(x, *r) <= u64::MAX ==> (res matches Ok(v) && v == spec_ceil_mul(x, *r)),
        spec_ceil_mul(x, *r) > u64::MAX ==> res == Err::<u64, Error>(Error::NumericOverflow),
{
    proof {
        assert((x as int) * (r.num as int) + (r.den as int) - 1 <= u64::MAX * u64::MAX + u64::MAX
            - 1) by (nonlinear_arith)
            requires
                x <= u64::MAX,
                r.num <= u64::MAX,
                r.den <= u64::MAX,
        ;
        assert(u64::MAX * u64::MAX + u64::MAX - 1 < u128::MAX) by (nonlinear_arith);
        assert((x as int) * (r.num as int) >= 0) by (nonlinear_arith);
    }
    let prod: u128 = (x as u128) * (r.num as u128);
    let c: u128 = (prod + (r.den as u128) - 1) / (r.den as u128);
    proof {
        assert(c == spec_ceil_mul(x, *r));
    }
    if c <= u64::MAX as u128 {
        Ok(c as u64)
    } else {
        Err(Error::NumericOverflow)
    }
}

} // verus!
