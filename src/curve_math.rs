//! The cubic bonding curve `price(s) = m * s^2`, where `m` is the slope, and
//! the integrals of it that price a mint or a burn.
//!
//! Each function computes in the ledger's 36-place precise decimals and
//! comes back to 18 places only at the end. The `*_spec` functions give the
//! exact value, step by step in that arithmetic; `None` marks a step that
//! leaves the representable range.

use crate::decimal::{
    dec_from_precise, dec_opt, fits_precise, is_floor_cbrt, pdiv_spec, pmul_spec, ppow_spec,
    precise_add, precise_cbrt, precise_div, precise_from_dec, precise_is_negative, precise_mul,
    precise_opt, precise_powi, precise_round, precise_sub, precise_unit, pround_spec, to_dec_spec,
    unit, Dec, Precise,
};
use crate::error::CurveError;
use vstd::prelude::*;

verus! {

/// `3` at 36 places.
pub open spec fn three() -> int {
    3 * unit() * unit()
}

/// The marginal price at `supply`: `m * supply^2`, truncated to 18 places.
pub open spec fn price_spec(supply: int, m: int) -> Option<int> {
    match ppow_spec(supply * unit(), 2) {
        Some(sq) => match pmul_spec(m, sq) {
            Some(p) => to_dec_spec(p),
            None => None,
        },
        None => None,
    }
}

/// With no tokens out the price is zero, whatever the slope.
pub proof fn lemma_price_at_zero(m: int)
    ensures
        price_spec(0, m) == Some(0int),
{
    assert(0 * unit() == 0);
    assert(ppow_spec(0, 2) == Some(0int));
    assert(m * 0 == 0);
    assert(pmul_spec(m, 0) == Some(0int));
}

/// A precise value rounded to the nearest atto and brought to 18 places.
pub open spec fn rounded_dec_spec(v: Option<int>) -> Option<int> {
    match v {
        Some(x) => match pround_spec(x) {
            Some(y) => to_dec_spec(y),
            None => None,
        },
        None => None,
    }
}

/// `m/3 * (hi^3 - lo^3)`: the area under the curve between two supplies.
pub open spec fn area_spec(hi: int, lo: int, m: int) -> Option<int> {
    match (pdiv_spec(m, three()), ppow_spec(hi, 3), ppow_spec(lo, 3)) {
        (Some(third), Some(hc), Some(lc)) => if fits_precise(hc - lc) {
            pmul_spec(third, hc - lc)
        } else {
            None
        },
        _ => None,
    }
}

/// Payment owed for minting `n` tokens on top of `supply`.
pub open spec fn buy_price_spec(n: int, supply: int, m: int) -> Option<int> {
    if n <= 0 {
        Some(0)
    } else if !fits_precise(supply * unit() + n * unit()) {
        None
    } else {
        rounded_dec_spec(area_spec(supply * unit() + n * unit(), supply * unit(), m))
    }
}

/// Payment released by burning `n` tokens out of `supply`; `None` for more
/// tokens than the supply.
pub open spec fn sell_price_spec(n: int, supply: int, m: int) -> Option<int> {
    if n <= 0 {
        Some(0)
    } else if n > supply || !fits_precise(supply * unit() - n * unit()) {
        None
    } else {
        rounded_dec_spec(area_spec(supply * unit(), supply * unit() - n * unit(), m))
    }
}

/// The truncated cube root at 36 places, as the ledger takes it: of
/// `|v| * 10^72`, with the sign of `v`.
pub open spec fn pcbrt_spec(v: int) -> int {
    if v >= 0 {
        choose|r: int| #[trigger] is_floor_cbrt(v * precise_unit() * precise_unit(), r)
    } else {
        -(choose|r: int| #[trigger] is_floor_cbrt(-v * precise_unit() * precise_unit(), r))
    }
}

/// A quantity, or `None` where it came out negative.
pub open spec fn non_negative(v: Option<int>) -> Option<int> {
    match v {
        Some(x) => if x >= 0 { Some(x) } else { None },
        None => None,
    }
}

/// Tokens minted for a payment `x` on top of `supply`: the root of
/// `3x/m + supply^3`, less `supply`; `None` where that comes out negative,
/// which truncation can bring about at a steep slope.
pub open spec fn tokens_received_spec(x: int, supply: int, m: int) -> Option<int> {
    if x <= 0 {
        Some(0)
    } else {
        match (pdiv_spec(x * unit(), m), ppow_spec(supply * unit(), 3)) {
            (Some(q), Some(cube)) => match pmul_spec(q, three()) {
                Some(q3) => if !fits_precise(q3 + cube) || !fits_precise(
                    pcbrt_spec(q3 + cube) - supply * unit(),
                ) {
                    None
                } else {
                    non_negative(rounded_dec_spec(Some(pcbrt_spec(q3 + cube) - supply * unit())))
                },
                None => None,
            },
            _ => None,
        }
    }
}

/// Whether a payment `x` asks for more than burning the whole `supply`
/// releases: the radicand `supply^3 - 3x/m` is negative.
pub open spec fn burn_exceeds_spec(x: int, supply: int, m: int) -> bool {
    x > 0 && match pmul_spec(x * unit(), three()) {
        Some(x3) => match (pdiv_spec(x3, m), ppow_spec(supply * unit(), 3)) {
            (Some(q), Some(cube)) => fits_precise(cube - q) && cube - q < 0,
            _ => false,
        },
        None => false,
    }
}

/// Tokens to burn out of `supply` to release a payment `x`: `supply` less the
/// root of `supply^3 - 3x/m`; `None` when that radicand is negative.
pub open spec fn tokens_to_sell_spec(x: int, supply: int, m: int) -> Option<int> {
    if x <= 0 {
        Some(0)
    } else {
        match pmul_spec(x * unit(), three()) {
            Some(x3) => match (pdiv_spec(x3, m), ppow_spec(supply * unit(), 3)) {
                (Some(q), Some(cube)) => if !fits_precise(cube - q) || cube - q < 0 || !fits_precise(
                    supply * unit() - pcbrt_spec(cube - q),
                ) {
                    None
                } else {
                    rounded_dec_spec(Some(supply * unit() - pcbrt_spec(cube - q)))
                },
                _ => None,
            },
            None => None,
        }
    }
}

/// The slope that makes the curve raise `cap` by the time `max_supply` is
/// traded: `cap / max_supply^3`.
pub open spec fn multiplier_spec(cap: int, max_supply: int) -> Option<int> {
    match ppow_spec(max_supply * unit(), 3) {
        Some(cube) => pdiv_spec(cap * unit(), cube),
        None => None,
    }
}

/// The payment collected by the time `max_supply` is traded:
/// `m/3 * max_supply^3`, truncated to 18 places.
pub open spec fn max_xrd_spec(m: int, max_supply: int) -> Option<int> {
    match (pdiv_spec(m, three()), ppow_spec(max_supply * unit(), 3)) {
        (Some(third), Some(cube)) => match pmul_spec(third, cube) {
            Some(p) => to_dec_spec(p),
            None => None,
        },
        _ => None,
    }
}

/// Two values that the truncated cube root relates to one radicand are equal.
pub proof fn lemma_floor_cbrt_unique(x: int, r1: int, r2: int)
    requires
        is_floor_cbrt(x, r1),
        is_floor_cbrt(x, r2),
    ensures
        r1 == r2,
{
    if r1 < r2 {
        lemma_cube_le(r1 + 1, r2);
    } else if r2 < r1 {
        lemma_cube_le(r2 + 1, r1);
    }
}

/// Cubing keeps the order of non-negative values.
pub proof fn lemma_cube_le(a: int, b: int)
    requires
        0 <= a <= b,
    ensures
        a * a * a <= b * b * b,
{
    assert(a * a * a <= b * b * b) by (nonlinear_arith)
        requires
            0 <= a <= b,
    ;
}

/// What the ledger's cube root returned is `pcbrt_spec` of its argument.
proof fn lemma_cbrt_result(v: int, r: int)
    requires
        v >= 0 ==> is_floor_cbrt(v * precise_unit() * precise_unit(), r),
        v < 0 ==> is_floor_cbrt(-v * precise_unit() * precise_unit(), -r),
    ensures
        pcbrt_spec(v) == r,
{
    if v >= 0 {
        let x = v * precise_unit() * precise_unit();
        lemma_floor_cbrt_unique(x, r, choose|c: int| is_floor_cbrt(x, c));
    } else {
        let x = -v * precise_unit() * precise_unit();
        lemma_floor_cbrt_unique(x, -r, choose|c: int| is_floor_cbrt(x, c));
    }
}

/// The price at `supply` on the curve with slope `multiplier`.
pub fn calculate_price(supply: Dec, multiplier: Precise) -> (r: Option<Dec>)
    ensures
        dec_opt(r) == price_spec(supply@, multiplier@),
{
    let sq = match precise_powi(precise_from_dec(supply), 2) {
        Some(v) => v,
        None => return None,
    };
    match precise_mul(multiplier, sq) {
        Some(p) => dec_from_precise(p),
        None => None,
    }
}

/// Rounds a precise value to the nearest atto and brings it to 18 places.
fn round_to_dec(v: Precise) -> (r: Option<Dec>)
    ensures
        dec_opt(r) == rounded_dec_spec(Some(v@)),
{
    match precise_round(v) {
        Some(p) => dec_from_precise(p),
        None => None,
    }
}

/// `m/3 * (hi^3 - lo^3)` in precise arithmetic.
fn area(hi: Precise, lo: Precise, multiplier: Precise) -> (r: Option<Precise>)
    ensures
        precise_opt(r) == area_spec(hi@, lo@, multiplier@),
{
    let third = precise_div(multiplier, precise_from_dec(Dec::units(3)));
    let hc = precise_powi(hi, 3);
    let lc = precise_powi(lo, 3);
    match (third, hc, lc) {
        (Some(third), Some(hc), Some(lc)) => match precise_sub(hc, lc) {
            Some(diff) => precise_mul(third, diff),
            None => None,
        },
        _ => None,
    }
}

/// The payment owed for minting `new_tokens` on top of `supply`.
pub fn calculate_buy_price(new_tokens: Dec, supply: Dec, multiplier: Precise) -> (r: Option<Dec>)
    ensures
        dec_opt(r) == buy_price_spec(new_tokens@, supply@, multiplier@),
{
    if !new_tokens.is_positive() {
        return Some(Dec::zero());
    }
    let ps = precise_from_dec(supply);
    let hi = match precise_add(ps, precise_from_dec(new_tokens)) {
        Some(v) => v,
        None => return None,
    };
    match area(hi, ps, multiplier) {
        Some(a) => round_to_dec(a),
        None => None,
    }
}

/// The payment released by burning `sell_tokens` out of `supply`; `None`
/// for more tokens than the supply.
pub fn calculate_sell_price(sell_tokens: Dec, supply: Dec, multiplier: Precise) -> (r: Option<Dec>)
    ensures
        dec_opt(r) == sell_price_spec(sell_tokens@, supply@, multiplier@),
{
    if !sell_tokens.is_positive() {
        return Some(Dec::zero());
    }
    if sell_tokens.gt(supply) {
        return None;
    }
    let ps = precise_from_dec(supply);
    let lo = match precise_sub(ps, precise_from_dec(sell_tokens)) {
        Some(v) => v,
        None => return None,
    };
    match area(ps, lo, multiplier) {
        Some(a) => round_to_dec(a),
        None => None,
    }
}

/// The tokens minted for a payment `xrd_received` on top of `supply`.
pub fn calculate_tokens_received(xrd_received: Dec, supply: Dec, multiplier: Precise) -> (r: Option<
    Dec,
>)
    ensures
        dec_opt(r) == tokens_received_spec(xrd_received@, supply@, multiplier@),
        r matches Some(t) ==> t@ >= 0,
{
    if !xrd_received.is_positive() {
        return Some(Dec::zero());
    }
    let ps = precise_from_dec(supply);
    let q = precise_div(precise_from_dec(xrd_received), multiplier);
    let cube = precise_powi(ps, 3);
    let (q, cube) = match (q, cube) {
        (Some(q), Some(cube)) => (q, cube),
        _ => return None,
    };
    let q3 = match precise_mul(q, precise_from_dec(Dec::units(3))) {
        Some(v) => v,
        None => return None,
    };
    let radicand = match precise_add(q3, cube) {
        Some(v) => v,
        None => return None,
    };
    let root = precise_cbrt(radicand);
    proof {
        lemma_cbrt_result(radicand@, root@);
    }
    let minted = match precise_sub(root, ps) {
        Some(v) => round_to_dec(v),
        None => None,
    };
    match minted {
        Some(t) => if t.attos < 0 { None } else { Some(t) },
        None => None,
    }
}

/// The tokens to burn out of `supply` to release a payment `xrd_required`.
/// Asking for more than burning the whole supply releases is refused with
/// `CapacityExceeded`, a value out of range with `Overflow`.
pub fn calculate_tokens_to_sell(xrd_required: Dec, supply: Dec, multiplier: Precise) -> (r: Result<
    Dec,
    CurveError,
>)
    ensures
        r matches Ok(t) ==> tokens_to_sell_spec(xrd_required@, supply@, multiplier@) == Some(t@),
        r is Err ==> tokens_to_sell_spec(xrd_required@, supply@, multiplier@) is None,
        r is Err ==> r == Err::<Dec, CurveError>(
            if burn_exceeds_spec(xrd_required@, supply@, multiplier@) {
                CurveError::CapacityExceeded
            } else {
                CurveError::Overflow
            },
        ),
{
    if !xrd_required.is_positive() {
        return Ok(Dec::zero());
    }
    let ps = precise_from_dec(supply);
    let x3 = match precise_mul(precise_from_dec(xrd_required), precise_from_dec(Dec::units(3))) {
        Some(v) => v,
        None => return Err(CurveError::Overflow),
    };
    let q = precise_div(x3, multiplier);
    let cube = precise_powi(ps, 3);
    let (q, cube) = match (q, cube) {
        (Some(q), Some(cube)) => (q, cube),
        _ => return Err(CurveError::Overflow),
    };
    let radicand = match precise_sub(cube, q) {
        Some(v) => v,
        None => return Err(CurveError::Overflow),
    };
    if precise_is_negative(radicand) {
        return Err(CurveError::CapacityExceeded);
    }
    let root = precise_cbrt(radicand);
    proof {
        lemma_cbrt_result(radicand@, root@);
    }
    let out = match precise_sub(ps, root) {
        Some(v) => round_to_dec(v),
        None => None,
    };
    match out {
        Some(t) => Ok(t),
        None => Err(CurveError::Overflow),
    }
}

/// The slope `max_xrd_market_cap / max_token_supply_to_trade^3`.
pub fn calculate_multiplier(max_xrd_market_cap: Dec, max_token_supply_to_trade: Dec) -> (r: Option<
    Precise,
>)
    ensures
        precise_opt(r) == multiplier_spec(max_xrd_market_cap@, max_token_supply_to_trade@),
{
    match precise_powi(precise_from_dec(max_token_supply_to_trade), 3) {
        Some(divisor) => precise_div(precise_from_dec(max_xrd_market_cap), divisor),
        None => None,
    }
}

/// The payment held once `max_token_supply_to_trade` tokens are out:
/// `multiplier/3 * max_token_supply_to_trade^3`.
pub fn calculate_max_xrd(multiplier: Precise, max_token_supply_to_trade: Dec) -> (r: Option<Dec>)
    ensures
        dec_opt(r) == max_xrd_spec(multiplier@, max_token_supply_to_trade@),
{
    let third = precise_div(multiplier, precise_from_dec(Dec::units(3)));
    let cube = precise_powi(precise_from_dec(max_token_supply_to_trade), 3);
    match (third, cube) {
        (Some(third), Some(cube)) => match precise_mul(third, cube) {
            Some(p) => dec_from_precise(p),
            None => None,
        },
        _ => None,
    }
}

} // verus!
