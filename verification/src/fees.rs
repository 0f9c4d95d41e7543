use vstd::prelude::*;
use crate::errors::CoreError;

verus! {

/// Fee rates are integer basis points: 1/10000 of a gross amount.
pub const BPS_DENOMINATOR: u16 = 10000;

/// How a gross amount splits into the protocol fee and the net principal.
/// Derived on demand, never stored.
#[derive(Clone, Copy, Debug, PartialEq, Eq, Structural)]
pub struct FeeSplit {
    pub fee: u64,
    pub net: u64,
}

/// The fee owed on `gross` at `rate_bps`: floor(gross * rate / 10000).
pub open spec fn spec_fee(gross: u64, rate_bps: u16) -> int {
    (gross * rate_bps) / (BPS_DENOMINATOR as int)
}

/// What remains of `gross` once the fee is taken.
pub open spec fn spec_net(gross: u64, rate_bps: u16) -> int {
    gross - spec_fee(gross, rate_bps)
}

/// Splitting loses nothing: at any admissible rate the fee and the net
/// principal recombine to exactly the gross amount, and the fee never
/// exceeds it. This is what lets a settlement route the two parts to two
/// parties and still conserve the total.
pub proof fn lemma_fee_split_exact(gross: u64, rate_bps: u16)
    requires
        rate_bps <= BPS_DENOMINATOR,
    ensures
        spec_fee(gross, rate_bps) + spec_net(gross, rate_bps) == gross,
        0 <= spec_fee(gross, rate_bps) <= gross,
{
    vstd::arithmetic::mul::lemma_mul_inequality(rate_bps as int, 10000, gross as int);
    assert(gross * rate_bps == rate_bps * gross) by (nonlinear_arith);
    assert(gross * 10000 == 10000 * gross) by (nonlinear_arith);
    vstd::arithmetic::div_mod::lemma_div_is_ordered(gross * rate_bps, gross * 10000, 10000);
    vstd::arithmetic::div_mod::lemma_div_multiples_vanish(gross as int, 10000);
    assert(gross * rate_bps >= 0) by (nonlinear_arith);
    vstd::arithmetic::div_mod::lemma_div_pos_is_pos(gross * rate_bps, 10000);
}

/// Computes the fee split with checked arithmetic: scaling the gross amount
/// by the rate stays in 64 bits or the split fails, it never wraps.
pub fn fee_split(gross: u64, rate_bps: u16) -> (r: Result<FeeSplit, CoreError>)
    requires
        rate_bps <= BPS_DENOMINATOR,
    ensures
        r is Ok <==> gross * rate_bps <= u64::MAX,
        r matches Ok(fs) ==> {
            &&& fs.fee == spec_fee(gross, rate_bps)
            &&& fs.net == spec_net(gross, rate_bps)
            &&& fs.fee + fs.net == gross
            &&& fs.fee <= gross
        },
        r is Err ==> r == Err::<FeeSplit, CoreError>(CoreError::ArithmeticError),
{
    match gross.checked_mul(rate_bps as u64) {
        Some(scaled) => {
            proof {
                lemma_fee_split_exact(gross, rate_bps);
            }
            let fee = scaled / (BPS_DENOMINATOR as u64);
            Ok(FeeSplit { fee, net: gross - fee })
        }
        None => Err(CoreError::ArithmeticError),
    }
}

} // verus!
