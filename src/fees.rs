//! The fee taken on the payment leg of every trade.

use crate::decimal::{dec_mul, dec_mul_spec, fits_dec, Dec};
use vstd::prelude::*;

verus! {

/// A fee rate is a fraction in `[0, 1)`, in attos.
pub open spec fn valid_rate(rate: int) -> bool {
    0 <= rate < crate::decimal::unit()
}

/// The fee on `gross` at `rate`, as the ledger multiplies: `gross * rate`
/// truncated to 18 places.
pub open spec fn fee_spec(gross: int, rate: int) -> Option<int> {
    dec_mul_spec(gross, rate)
}

/// Splits `gross` into `(net, fee)` with `fee = gross * rate` and
/// `net = gross - fee`.
pub fn split(gross: Dec, rate: Dec) -> (r: Option<(Dec, Dec)>)
    ensures
        r matches Some((net, fee)) ==> fee_spec(gross@, rate@) == Some(fee@) && net@ == gross@
            - fee@,
        r is None <==> (fee_spec(gross@, rate@) matches Some(f) ==> !fits_dec(gross@ - f)),
{
    match dec_mul(gross, rate) {
        Some(fee) => match gross.checked_sub(fee) {
            Some(net) => Some((net, fee)),
            None => None,
        },
        None => None,
    }
}

/// For a non-negative amount and a valid rate the fee is a part of the
/// amount: `0 <= fee <= gross`.
pub proof fn lemma_fee_within(gross: int, rate: int)
    requires
        0 <= gross,
        fits_dec(gross),
        valid_rate(rate),
    ensures
        fee_spec(gross, rate) matches Some(f) && 0 <= f <= gross,
{
    let u = crate::decimal::unit();
    assert(0 <= gross * rate <= gross * u) by (nonlinear_arith)
        requires
            0 <= gross,
            0 <= rate < u,
    ;
    assert((gross * u) / u == gross) by (nonlinear_arith)
        requires
            u > 0,
    ;
    assert((gross * rate) / u <= (gross * u) / u) by (nonlinear_arith)
        requires
            0 <= gross * rate <= gross * u,
            u > 0,
    ;
}

} // verus!
