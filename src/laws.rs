//! Properties that relate the curve's functions to one another, stated over
//! their exact specifications and proved.

use crate::bucket::{Bucket, Minted};
use crate::curve_math::{
    area_spec, buy_price_spec, price_spec, rounded_dec_spec, sell_price_spec, three,
};
use crate::decimal::{pdiv_spec, pmul_spec, ppow_spec, precise_unit, round_half_away, tdiv, unit};
use crate::fees::fee_spec;
use crate::radix_meme_token_curve::RadixMemeTokenCurve;
use vstd::arithmetic::div_mod::{
    lemma_fundamental_div_mod, lemma_fundamental_div_mod_converse, lemma_mod_bound,
};
use vstd::prelude::*;

verus! {

/// Truncating division by a positive divisor keeps the order of
/// non-negative values.
pub proof fn lemma_tdiv_monotone(a: int, b: int, d: int)
    requires
        0 <= a <= b,
        d > 0,
    ensures
        0 <= tdiv(a, d) <= tdiv(b, d),
{
    assert(a / d <= b / d) by (nonlinear_arith)
        requires
            0 <= a <= b,
            d > 0,
    ;
    assert(0 <= a / d) by (nonlinear_arith)
        requires
            0 <= a,
            d > 0,
    ;
}

/// The precise square and cube keep the order of non-negative values.
pub proof fn lemma_ppow_monotone(a: int, b: int, exp: int)
    requires
        0 <= a <= b,
        exp == 2 || exp == 3,
        ppow_spec(a, exp) is Some,
        ppow_spec(b, exp) is Some,
    ensures
        0 <= ppow_spec(a, exp).unwrap() <= ppow_spec(b, exp).unwrap(),
{
    let k = precise_unit();
    assert(0 <= a * a <= b * b) by (nonlinear_arith)
        requires
            0 <= a <= b,
    ;
    lemma_tdiv_monotone(a * a, b * b, k);
    let sa = tdiv(a * a, k);
    let sb = tdiv(b * b, k);
    if exp == 3 {
        assert(0 <= a * sa <= b * sb) by (nonlinear_arith)
            requires
                0 <= a <= b,
                0 <= sa <= sb,
        ;
        lemma_tdiv_monotone(a * sa, b * sb, k);
    }
}

/// The price never falls as the supply grows: for a non-negative slope and
/// supplies `0 <= s1 <= s2`, `price(s1) <= price(s2)`.
pub proof fn lemma_price_monotone(s1: int, s2: int, m: int)
    requires
        0 <= s1 <= s2,
        m >= 0,
        price_spec(s1, m) is Some,
        price_spec(s2, m) is Some,
    ensures
        price_spec(s1, m).unwrap() <= price_spec(s2, m).unwrap(),
{
    let u = unit();
    assert(0 <= s1 * u <= s2 * u) by (nonlinear_arith)
        requires
            0 <= s1 <= s2,
            u > 0,
    ;
    lemma_ppow_monotone(s1 * u, s2 * u, 2);
    let q1 = ppow_spec(s1 * u, 2).unwrap();
    let q2 = ppow_spec(s2 * u, 2).unwrap();
    assert(0 <= m * q1 <= m * q2) by (nonlinear_arith)
        requires
            0 <= q1 <= q2,
            m >= 0,
    ;
    lemma_tdiv_monotone(m * q1, m * q2, precise_unit());
    let pa = pmul_spec(m, q1).unwrap();
    let pb = pmul_spec(m, q2).unwrap();
    lemma_tdiv_monotone(pa, pb, u);
}

/// Buying up to the cap: a purchase that pays at least the payment still
/// fitting under the cap keeps exactly that much, takes the fee out of it,
/// gives the rest back, and lists the token.
pub proof fn lemma_buy_to_cap_lists(
    c: RadixMemeTokenCurve,
    new: RadixMemeTokenCurve,
    gross: int,
    now: int,
    minted: Minted,
    change: Bucket,
)
    requires
        c.wf(),
        !c.listed(),
        c.bought(new, gross, now, minted, change),
        gross >= c.available(),
    ensures
        fee_spec(c.available(), c.tx_fee_perc@) is Some,
        new.xrd_vault@ == c.max_xrd@ - fee_spec(c.available(), c.tx_fee_perc@).unwrap(),
        new.fee_vault@ == c.fee_vault@ + fee_spec(c.available(), c.tx_fee_perc@).unwrap(),
        change.amount@ == gross - c.available(),
        new.target_reached == Some(now as i64),
{
    crate::fees::lemma_fee_within(c.available(), c.tx_fee_perc@);
}

/// The payment that a curve holds by rights at supply `s`: the area under
/// the curve from no tokens to `s`, rounded as a purchase of `s` tokens from
/// an empty curve is.
pub open spec fn curve_value(s: int, m: int) -> Option<int> {
    buy_price_spec(s, 0, m)
}

/// Flooring a difference loses at most one against the difference of the
/// floors.
proof fn lemma_floor_split(x: int, y: int, k: int)
    requires
        0 <= y <= x,
        k > 0,
    ensures
        x / k - y / k - 1 <= (x - y) / k <= x / k - y / k,
        0 <= y / k,
        0 <= (x - y) / k,
{
    lemma_fundamental_div_mod(x, k);
    lemma_fundamental_div_mod(y, k);
    lemma_mod_bound(x, k);
    lemma_mod_bound(y, k);
    let qx = x / k;
    let qy = y / k;
    let rx = x % k;
    let ry = y % k;
    assert((qx - qy) * k == k * qx - k * qy) by (nonlinear_arith);
    assert((qx - qy - 1) * k == k * qx - k * qy - k) by (nonlinear_arith);
    if rx >= ry {
        lemma_fundamental_div_mod_converse(x - y, k, qx - qy, rx - ry);
    } else {
        lemma_fundamental_div_mod_converse(x - y, k, qx - qy - 1, rx - ry + k);
    }
    lemma_tdiv_monotone(0, y, k);
    lemma_tdiv_monotone(0, x - y, k);
}

/// Rounding a non-negative value to the nearest atto moves it by at most
/// half an atto and lands on a whole number of attos.
proof fn lemma_round_near(x: int)
    requires
        x >= 0,
    ensures
        ({
            let r = round_half_away(x);
            &&& 0 <= r
            &&& x - unit() / 2 <= r <= x + unit() / 2
            &&& tdiv(r, unit()) * unit() == r
        }),
{
    let u = unit();
    lemma_fundamental_div_mod(x, u);
    lemma_mod_bound(x, u);
    let q = x / u;
    let rem = x % u;
    let r = round_half_away(x);
    lemma_tdiv_monotone(0, x, u);
    if r == x - rem {
        lemma_fundamental_div_mod_converse(r, u, q, 0);
        assert(u * q == q * u) by (nonlinear_arith);
    } else {
        assert(r == x - rem + u);
        assert((q + 1) * u == u * q + u) by (nonlinear_arith);
        lemma_fundamental_div_mod_converse(r, u, q + 1, 0);
    }
}

/// The rounded area between two supplies, given in precise units, differs
/// by at most one atto from the difference of the rounded areas from zero.
proof fn lemma_area_split(hi: int, lo: int, m: int)
    requires
        0 <= lo <= hi,
        m >= 0,
        rounded_dec_spec(area_spec(hi, lo, m)) is Some,
        rounded_dec_spec(area_spec(hi, 0, m)) is Some,
        lo == 0 || rounded_dec_spec(area_spec(lo, 0, m)) is Some,
    ensures
        ({
            let b = if lo == 0 { 0 } else { rounded_dec_spec(area_spec(lo, 0, m)).unwrap() };
            let d = rounded_dec_spec(area_spec(hi, lo, m)).unwrap() - (rounded_dec_spec(
                area_spec(hi, 0, m),
            ).unwrap() - b);
            -1 <= d <= 1
        }),
{
    let k = precise_unit();
    let u = unit();
    let t = pdiv_spec(m, three()).unwrap();
    assert(0 <= m * k) by (nonlinear_arith)
        requires
            m >= 0,
            k > 0,
    ;
    lemma_tdiv_monotone(0, m * k, three());
    assert(ppow_spec(0, 3) == Some(0int));
    lemma_ppow_monotone(lo, hi, 3);
    lemma_ppow_monotone(0, lo, 3);
    let a = ppow_spec(hi, 3).unwrap();
    let b = ppow_spec(lo, 3).unwrap();
    assert(t * (a - b) == t * a - t * b) by (nonlinear_arith);
    assert(0 <= t * b <= t * a) by (nonlinear_arith)
        requires
            0 <= t,
            0 <= b <= a,
    ;
    assert(t * (a - 0) == t * a);
    lemma_floor_split(t * a, t * b, k);
    let xa = tdiv(t * a, k);
    let xb = tdiv(t * b, k);
    let x = tdiv(t * a - t * b, k);
    lemma_round_near(x);
    lemma_round_near(xa);
    lemma_round_near(xb);
    let rx = tdiv(round_half_away(x), u);
    let ra = tdiv(round_half_away(xa), u);
    let rb = tdiv(round_half_away(xb), u);
    assert(rounded_dec_spec(area_spec(hi, lo, m)) == Some(rx));
    assert(rounded_dec_spec(area_spec(hi, 0, m)) == Some(ra));
    if lo == 0 {
        assert(t * b == 0) by (nonlinear_arith)
            requires
                b == 0,
        ;
        assert(round_half_away(0) == 0);
    } else {
        assert(area_spec(lo, 0, m) == pmul_spec(t, b - 0));
        assert(rounded_dec_spec(area_spec(lo, 0, m)) == Some(rb));
    }
    let dd = rx - ra + rb;
    assert(dd * u == rx * u - ra * u + rb * u) by (nonlinear_arith)
        requires
            dd == rx - ra + rb,
    ;
    assert(-1 <= dd <= 1) by (nonlinear_arith)
        requires
            u == 1_000_000_000_000_000_000,
            -2 * u < dd * u < 2 * u,
    ;
}

/// Trading an exact amount with no fee keeps the payment held in step with
/// the curve's value: a purchase of `n` tokens on top of `s` costs the
/// value at `s + n` less the value at `s`, to within one atto. Over any
/// sequence of such trades from an empty curve the payment held therefore
/// stays within one atto per trade of the value at the supply reached.
pub proof fn lemma_buy_price_conserves(n: int, s: int, m: int)
    requires
        n > 0,
        s >= 0,
        m >= 0,
        buy_price_spec(n, s, m) is Some,
        curve_value(s + n, m) is Some,
        curve_value(s, m) is Some,
    ensures
        -1 <= buy_price_spec(n, s, m).unwrap() - (curve_value(s + n, m).unwrap() - curve_value(
            s,
            m,
        ).unwrap()) <= 1,
{
    let u = unit();
    assert((s + n) * u == s * u + n * u) by (nonlinear_arith);
    assert(0 <= s * u <= s * u + n * u) by (nonlinear_arith)
        requires
            s >= 0,
            n > 0,
            u > 0,
    ;
    assert(0 * u == 0);
    if s > 0 {
        assert(curve_value(s, m) == rounded_dec_spec(area_spec(s * u, 0, m)));
    } else {
        assert(s * u == 0);
    }
    lemma_area_split(s * u + n * u, s * u, m);
}

/// The same for a sale: burning `n` of `s` tokens releases the value at `s`
/// less the value at `s - n`, to within one atto.
pub proof fn lemma_sell_price_conserves(n: int, s: int, m: int)
    requires
        0 < n <= s,
        m >= 0,
        sell_price_spec(n, s, m) is Some,
        curve_value(s, m) is Some,
        curve_value(s - n, m) is Some,
    ensures
        -1 <= sell_price_spec(n, s, m).unwrap() - (curve_value(s, m).unwrap() - curve_value(
            s - n,
            m,
        ).unwrap()) <= 1,
{
    let u = unit();
    assert((s - n) * u == s * u - n * u) by (nonlinear_arith);
    assert(0 <= s * u - n * u <= s * u) by (nonlinear_arith)
        requires
            0 < n <= s,
            u > 0,
    ;
    assert(0 * u == 0);
    assert(curve_value(s, m) == rounded_dec_spec(area_spec(s * u, 0, m)));
    if s - n > 0 {
        assert(curve_value(s - n, m) == rounded_dec_spec(area_spec(s * u - n * u, 0, m)));
    }
    lemma_area_split(s * u, s * u - n * u, m);
}

/// How far the payment a curve holds stands from the curve's value at its
/// supply.
pub open spec fn value_gap(c: RadixMemeTokenCurve) -> int {
    c.xrd_vault@ - curve_value(c.current_supply@, c.multiplier@).unwrap()
}

/// With no trading fee, a purchase of an exact amount moves the payment held
/// and the curve's value together, to within one atto.
pub proof fn lemma_buy_amount_keeps_value(
    c: RadixMemeTokenCurve,
    new: RadixMemeTokenCurve,
    amount: int,
    gross: int,
    now: int,
    minted: Minted,
    change: Bucket,
)
    requires
        c.wf(),
        c.tx_fee_perc@ == 0,
        c.bought_amount(new, amount, gross, now, minted, change),
        curve_value(c.current_supply@, c.multiplier@) is Some,
        curve_value(new.current_supply@, c.multiplier@) is Some,
    ensures
        new.multiplier == c.multiplier,
        -1 <= value_gap(new) - value_gap(c) <= 1,
{
    if amount > 0 {
        let req = buy_price_spec(amount, c.current_supply@, c.multiplier@).unwrap();
        assert(fee_spec(req, 0) == Some(0int));
        lemma_buy_price_conserves(amount, c.current_supply@, c.multiplier@);
    }
}

/// With no trading fee, a sale of an exact amount moves the payment held
/// and the curve's value together, to within one atto.
pub proof fn lemma_sell_keeps_value(
    c: RadixMemeTokenCurve,
    new: RadixMemeTokenCurve,
    n: int,
    now: int,
    out: Bucket,
    rest: Bucket,
)
    requires
        c.wf(),
        c.tx_fee_perc@ == 0,
        0 <= n <= c.current_supply@,
        c.sold(new, n, now, out, rest),
        curve_value(c.current_supply@, c.multiplier@) is Some,
        curve_value(new.current_supply@, c.multiplier@) is Some,
    ensures
        new.multiplier == c.multiplier,
        -1 <= value_gap(new) - value_gap(c) <= 1,
{
    if n > 0 {
        let x = sell_price_spec(n, c.current_supply@, c.multiplier@).unwrap();
        assert(fee_spec(x, 0) == Some(0int));
        lemma_sell_price_conserves(n, c.current_supply@, c.multiplier@);
    }
}

/// One trade of an exact amount, a purchase or a sale, took `c` to `d`.
pub open spec fn exact_trade(c: RadixMemeTokenCurve, d: RadixMemeTokenCurve) -> bool {
    ||| exists|amount: int, gross: int, now: int, minted: Minted, change: Bucket|
        #[trigger] c.bought_amount(d, amount, gross, now, minted, change)
    ||| exists|n: int, now: int, out: Bucket, rest: Bucket|
        0 <= n <= c.current_supply@ && #[trigger] c.sold(d, n, now, out, rest)
}

/// Conservation over a run of trades: with no trading fee, along any
/// sequence of purchases and sales of exact amounts the payment held stays
/// within one atto per trade of where the curve's value puts it.
pub proof fn lemma_exact_trades_keep_value(trace: Seq<RadixMemeTokenCurve>)
    requires
        trace.len() >= 1,
        forall|i: int|
            0 <= i < trace.len() ==> {
                &&& (#[trigger] trace[i]).wf()
                &&& trace[i].tx_fee_perc@ == 0
                &&& curve_value(trace[i].current_supply@, trace[i].multiplier@) is Some
            },
        forall|i: int| 0 <= i < trace.len() - 1 ==> exact_trade(#[trigger] trace[i], trace[i + 1]),
    ensures
        -(trace.len() - 1) <= value_gap(trace.last()) - value_gap(trace[0]) <= trace.len() - 1,
    decreases trace.len(),
{
    if trace.len() > 1 {
        let front = trace.drop_last();
        assert forall|i: int| 0 <= i < front.len() implies {
            &&& (#[trigger] front[i]).wf()
            &&& front[i].tx_fee_perc@ == 0
            &&& curve_value(front[i].current_supply@, front[i].multiplier@) is Some
        } by {
            assert(front[i] == trace[i]);
        }
        assert forall|i: int| 0 <= i < front.len() - 1 implies exact_trade(
            #[trigger] front[i],
            front[i + 1],
        ) by {
            assert(front[i] == trace[i]);
            assert(front[i + 1] == trace[i + 1]);
        }
        lemma_exact_trades_keep_value(front);
        let k = trace.len() - 2;
        let c = trace[k];
        let d = trace[k + 1];
        assert(front.last() == c);
        assert(exact_trade(c, d));
        assert(d.wf() && curve_value(d.current_supply@, d.multiplier@) is Some);
        if exists|amount: int, gross: int, now: int, minted: Minted, change: Bucket|
            #[trigger] c.bought_amount(d, amount, gross, now, minted, change) {
            let (amount, gross, now, minted, change) = choose|
                amount: int,
                gross: int,
                now: int,
                minted: Minted,
                change: Bucket,
            | #[trigger] c.bought_amount(d, amount, gross, now, minted, change);
            lemma_buy_amount_keeps_value(c, d, amount, gross, now, minted, change);
        } else {
            let (n, now, out, rest) = choose|n: int, now: int, out: Bucket, rest: Bucket|
                0 <= n <= c.current_supply@ && #[trigger] c.sold(d, n, now, out, rest);
            lemma_sell_keeps_value(c, d, n, now, out, rest);
        }
    }
}

} // verus!
