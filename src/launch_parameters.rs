//! The default parameters that a launcher hands to each new curve, and
//! their update by name.

use crate::decimal::{fits_dec, parse_dec, parsed_decimal, Dec};
use crate::error::CurveError;
use crate::fees::valid_rate;
use vstd::prelude::*;
use vstd::string::StrSliceExecFns;

verus! {

/// The parameters of the curves a launcher creates.
#[derive(Clone, Copy, Debug, PartialEq, Eq, Structural)]
pub struct LaunchParameters {
    pub max_token_supply: Dec,
    pub max_token_supply_to_trade: Dec,
    pub max_xrd_market_cap: Dec,
    pub tx_fee_perc: Dec,
    pub listing_fee_perc: Dec,
    pub creator_fee_perc: Dec,
}

/// Whether two strings hold the same characters.
pub fn str_eq(a: &str, b: &str) -> (r: bool)
    ensures
        r == (a@ == b@),
{
    let n = a.unicode_len();
    if n != b.unicode_len() {
        return false;
    }
    let mut i: usize = 0;
    while i < n
        invariant
            n == a@.len(),
            n == b@.len(),
            i <= n,
            forall|j: int| 0 <= j < i ==> a@[j] == b@[j],
        decreases n - i,
    {
        if a.get_char(i) != b.get_char(i) {
            return false;
        }
        i = i + 1;
    }
    assert(a@ =~= b@);
    true
}

/// The parameter that a name selects: 0 to 5 in the order of the fields
/// of `LaunchParameters`, -1 for none. Without `creator_fee` the creator's
/// fee is not among the names.
pub open spec fn param_index(name: Seq<char>, creator_fee: bool) -> int {
    if name == "max_token_supply"@ {
        0
    } else if name == "max_token_supply_to_trade"@ {
        1
    } else if name == "max_xrd_market_cap"@ {
        2
    } else if name == "tx_fee_perc"@ {
        3
    } else if name == "listing_fee_perc"@ {
        4
    } else if creator_fee && name == "creator_fee_perc"@ {
        5
    } else {
        -1
    }
}

/// The parameters with the one at index `k` set to `v`.
pub open spec fn with_param(p: LaunchParameters, k: int, v: Dec) -> LaunchParameters {
    if k == 0 {
        LaunchParameters { max_token_supply: v, ..p }
    } else if k == 1 {
        LaunchParameters { max_token_supply_to_trade: v, ..p }
    } else if k == 2 {
        LaunchParameters { max_xrd_market_cap: v, ..p }
    } else if k == 3 {
        LaunchParameters { tx_fee_perc: v, ..p }
    } else if k == 4 {
        LaunchParameters { listing_fee_perc: v, ..p }
    } else {
        LaunchParameters { creator_fee_perc: v, ..p }
    }
}

/// Setting the parameter `name` to the decimal written in `value`: the
/// name must be known, the value must parse, and a fee must lie in `[0, 1)`.
pub open spec fn update_spec(
    p: LaunchParameters,
    name: Seq<char>,
    value: Seq<char>,
    creator_fee: bool,
) -> Result<LaunchParameters, CurveError> {
    let k = param_index(name, creator_fee);
    if k < 0 {
        Err(CurveError::InvalidParameter)
    } else {
        match parsed_decimal(value) {
            Some(v) => if !fits_dec(v) || (k >= 3 && !valid_rate(v)) {
                Err(CurveError::InvalidParameter)
            } else {
                Ok(with_param(p, k, Dec { attos: v as i128 }))
            },
            None => Err(CurveError::InvalidParameter),
        }
    }
}

/// Sets the parameter `name` to the decimal written in `value`.
pub fn change_parameter(p: &mut LaunchParameters, name: &str, value: &str, creator_fee: bool) -> (r:
    Result<(), CurveError>)
    ensures
        match update_spec(*old(p), name@, value@, creator_fee) {
            Ok(q) => r is Ok && *final(p) == q,
            Err(e) => r == Err::<(), CurveError>(e) && *final(p) == *old(p),
        },
{
    let k: u8 = if str_eq(name, "max_token_supply") {
        0
    } else if str_eq(name, "max_token_supply_to_trade") {
        1
    } else if str_eq(name, "max_xrd_market_cap") {
        2
    } else if str_eq(name, "tx_fee_perc") {
        3
    } else if str_eq(name, "listing_fee_perc") {
        4
    } else if creator_fee && str_eq(name, "creator_fee_perc") {
        5
    } else {
        return Err(CurveError::InvalidParameter);
    };
    assert(param_index(name@, creator_fee) == k as int);
    let v = match parse_dec(value) {
        Some(v) => v,
        None => return Err(CurveError::InvalidParameter),
    };
    if k >= 3 && (v.attos < 0 || v.ge(Dec::units(1))) {
        return Err(CurveError::InvalidParameter);
    }
    if k == 0 {
        p.max_token_supply = v;
    } else if k == 1 {
        p.max_token_supply_to_trade = v;
    } else if k == 2 {
        p.max_xrd_market_cap = v;
    } else if k == 3 {
        p.tx_fee_perc = v;
    } else if k == 4 {
        p.listing_fee_perc = v;
    } else {
        p.creator_fee_perc = v;
    }
    Ok(())
}

/// Setting each named parameter in turn; the first refusal refuses all.
pub open spec fn updates_spec(
    p: LaunchParameters,
    pairs: Seq<(String, String)>,
    creator_fee: bool,
) -> Result<LaunchParameters, CurveError>
    decreases pairs.len(),
{
    if pairs.len() == 0 {
        Ok(p)
    } else {
        match updates_spec(p, pairs.drop_last(), creator_fee) {
            Ok(q) => update_spec(q, pairs.last().0@, pairs.last().1@, creator_fee),
            Err(e) => Err(e),
        }
    }
}

/// Once a prefix of the pairs is refused, the whole list is refused alike.
proof fn lemma_updates_err_extends(
    p: LaunchParameters,
    pairs: Seq<(String, String)>,
    creator_fee: bool,
    j: int,
)
    requires
        0 <= j <= pairs.len(),
        updates_spec(p, pairs.take(j), creator_fee) is Err,
    ensures
        updates_spec(p, pairs, creator_fee) == updates_spec(p, pairs.take(j), creator_fee),
    decreases pairs.len() - j,
{
    if j < pairs.len() {
        assert(pairs.take(j + 1).drop_last() =~= pairs.take(j));
        lemma_updates_err_extends(p, pairs, creator_fee, j + 1);
    } else {
        assert(pairs.take(j) =~= pairs);
    }
}

/// Sets each named parameter of `param_values` in turn. All of them are set,
/// or, on the first refusal, none.
pub fn change_parameters(
    p: &mut LaunchParameters,
    param_values: &Vec<(String, String)>,
    creator_fee: bool,
) -> (r: Result<(), CurveError>)
    ensures
        match updates_spec(*old(p), param_values@, creator_fee) {
            Ok(q) => r is Ok && *final(p) == q,
            Err(e) => r == Err::<(), CurveError>(e) && *final(p) == *old(p),
        },
{
    let mut q = *p;
    let mut i: usize = 0;
    assert(param_values@.take(0) =~= Seq::<(String, String)>::empty());
    while i < param_values.len()
        invariant
            i <= param_values@.len(),
            updates_spec(*old(p), param_values@.take(i as int), creator_fee) == Ok::<
                LaunchParameters,
                CurveError,
            >(q),
            *p == *old(p),
        decreases param_values@.len() - i,
    {
        assert(param_values@.take(i + 1).drop_last() =~= param_values@.take(i as int));
        let pair = &param_values[i];
        match change_parameter(&mut q, pair.0.as_str(), pair.1.as_str(), creator_fee) {
            Ok(()) => {},
            Err(e) => {
                proof {
                    lemma_updates_err_extends(*old(p), param_values@, creator_fee, i + 1);
                }
                return Err(e);
            },
        }
        i = i + 1;
    }
    assert(param_values@.take(param_values@.len() as int) =~= param_values@);
    *p = q;
    Ok(())
}

} // verus!
