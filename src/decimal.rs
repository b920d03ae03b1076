//! Fixed-point amounts as the ledger sees them, and the wide intermediate
//! values used by the curve arithmetic.
//!
//! `Dec` counts attos (10^-18 of a unit) in an `i128`. `Precise` is a 256-bit
//! two's-complement count of 10^-36 subunits, split into four little-endian
//! limbs. Every multiplication, division, power, root and rounding on these
//! values is carried out by the ledger library's decimal types; the functions
//! below state exactly what each of those calls returns.

use scrypto::prelude::{
    CheckedAdd, CheckedDiv, CheckedMul, CheckedSub, Decimal as LedgerDecimal, PreciseDecimal,
    RoundingMode, I192, I256,
};
use vstd::prelude::*;

verus! {

/// Attos in one whole unit.
pub const ATTOS_PER_UNIT: i128 = 1_000_000_000_000_000_000;

/// 10^18, the number of attos in one unit.
pub open spec fn unit() -> int {
    1_000_000_000_000_000_000
}

/// A decimal amount with 18 fractional digits, stored as a count of attos.
#[derive(Clone, Copy, Debug, PartialEq, Eq, Structural)]
pub struct Dec {
    pub attos: i128,
}

impl View for Dec {
    type V = int;

    open spec fn view(&self) -> int {
        self.attos as int
    }
}

/// Truncating division: the quotient rounded toward zero, as Rust and the
/// ledger's wide integers divide.
pub open spec fn tdiv(a: int, b: int) -> int
    recommends
        b != 0,
{
    let q = if a >= 0 { a } else { -a } / if b >= 0 { b } else { -b };
    if (a >= 0) == (b > 0) || a == 0 { q } else { -q }
}

/// Whether a value fits the attos of a `Dec`.
pub open spec fn fits_dec(v: int) -> bool {
    i128::MIN <= v <= i128::MAX
}

/// The ledger's decimal product: `a * b` at 18 places, truncated toward zero.
pub open spec fn dec_mul_spec(a: int, b: int) -> Option<int> {
    let c = tdiv(a * b, unit());
    if fits_dec(c) { Some(c) } else { None }
}

/// Relies on `CheckedMul for Decimal`: the product computed in 256 bits,
/// divided by 10^18 toward zero.
#[verifier::external_body]
pub(crate) fn dec_mul(a: Dec, b: Dec) -> (r: Option<Dec>)
    ensures
        r matches Some(c) ==> dec_mul_spec(a@, b@) == Some(c@),
        r is None ==> dec_mul_spec(a@, b@) is None,
{
    let x = LedgerDecimal::from_attos(I192::from(a.attos));
    let y = LedgerDecimal::from_attos(I192::from(b.attos));
    let c = x.checked_mul(y)?;
    let attos = i128::try_from(c.attos()).ok()?;
    Some(Dec { attos })
}


/// The ledger's decimal quotient: `a / b` at 18 places, truncated toward zero.
pub open spec fn dec_div_spec(a: int, b: int) -> Option<int> {
    if b == 0 {
        None
    } else {
        let c = tdiv(a * unit(), b);
        if fits_dec(c) { Some(c) } else { None }
    }
}

/// Relies on `CheckedDiv for Decimal`: `a * 10^18` in 256 bits, divided by `b`
/// toward zero; `None` for a zero divisor or a quotient out of range.
#[verifier::external_body]
pub(crate) fn dec_div(a: Dec, b: Dec) -> (r: Option<Dec>)
    ensures
        r matches Some(c) ==> dec_div_spec(a@, b@) == Some(c@),
        r is None ==> dec_div_spec(a@, b@) is None,
{
    let x = LedgerDecimal::from_attos(I192::from(a.attos));
    let y = LedgerDecimal::from_attos(I192::from(b.attos));
    let c = x.checked_div(y)?;
    let attos = i128::try_from(c.attos()).ok()?;
    Some(Dec { attos })
}

/// The value held by an optional amount.
pub open spec fn dec_opt(o: Option<Dec>) -> Option<int> {
    match o {
        Some(d) => Some(d@),
        None => None,
    }
}

/// The value held by an optional precise value.
pub open spec fn precise_opt(o: Option<Precise>) -> Option<int> {
    match o {
        Some(p) => Some(p@),
        None => None,
    }
}

impl Dec {
    /// The amount `0`.
    pub fn zero() -> (r: Dec)
        ensures
            r@ == 0,
    {
        Dec { attos: 0 }
    }

    /// The amount with the given number of attos.
    pub fn from_attos(attos: i128) -> (r: Dec)
        ensures
            r@ == attos,
    {
        Dec { attos }
    }

    /// The whole amount `n`.
    pub fn units(n: i64) -> (r: Dec)
        ensures
            r@ == n * unit(),
    {
        assert(fits_dec(n * unit())) by (nonlinear_arith)
            requires
                i64::MIN <= n <= i64::MAX,
        ;
        Dec { attos: n as i128 * ATTOS_PER_UNIT }
    }

    /// The sum, or `None` when it leaves the range of `Dec`.
    pub fn checked_add(self, other: Dec) -> (r: Option<Dec>)
        ensures
            r matches Some(c) ==> c@ == self@ + other@,
            r is None <==> !fits_dec(self@ + other@),
    {
        match self.attos.checked_add(other.attos) {
            Some(attos) => Some(Dec { attos }),
            None => None,
        }
    }

    /// The difference, or `None` when it leaves the range of `Dec`.
    pub fn checked_sub(self, other: Dec) -> (r: Option<Dec>)
        ensures
            r matches Some(c) ==> c@ == self@ - other@,
            r is None <==> !fits_dec(self@ - other@),
    {
        match self.attos.checked_sub(other.attos) {
            Some(attos) => Some(Dec { attos }),
            None => None,
        }
    }

    pub fn is_positive(self) -> (r: bool)
        ensures
            r == (self@ > 0),
    {
        self.attos > 0
    }

    pub fn gt(self, other: Dec) -> (r: bool)
        ensures
            r == (self@ > other@),
    {
        self.attos > other.attos
    }

    pub fn ge(self, other: Dec) -> (r: bool)
        ensures
            r == (self@ >= other@),
    {
        self.attos >= other.attos
    }

    /// The smaller of the two amounts.
    pub fn min(self, other: Dec) -> (r: Dec)
        ensures
            r@ == if self@ <= other@ { self@ } else { other@ },
    {
        if self.attos <= other.attos { self } else { other }
    }
}

/// 2^64, the weight of one limb of a `Precise`.
pub open spec fn limb() -> int {
    18446744073709551616
}

/// 10^36, the number of precise subunits in one unit.
pub open spec fn precise_unit() -> int {
    1_000_000_000_000_000_000_000_000_000_000_000_000
}

/// Whether a value fits the 256-bit signed range of a `Precise`.
pub open spec fn fits_precise(v: int) -> bool {
    -(limb() * limb() * limb() * limb()) / 2 <= v < (limb() * limb() * limb() * limb()) / 2
}

/// A decimal value with 36 fractional digits: a 256-bit two's-complement
/// count of 10^-36 subunits, least significant limb first.
#[derive(Clone, Copy, Debug, PartialEq, Eq, Structural)]
pub struct Precise {
    pub l0: u64,
    pub l1: u64,
    pub l2: u64,
    pub l3: u64,
}

impl View for Precise {
    type V = int;

    open spec fn view(&self) -> int {
        let u = self.l0 + self.l1 * limb() + self.l2 * limb() * limb() + self.l3 * limb() * limb()
            * limb();
        if self.l3 >= limb() / 2 {
            u - limb() * limb() * limb() * limb()
        } else {
            u
        }
    }
}

/// Relies on `PreciseDecimal::from(Decimal)`: the same value at 36 places.
#[verifier::external_body]
pub(crate) fn precise_from_dec(d: Dec) -> (r: Precise)
    ensures
        r@ == d@ * unit(),
{
    let p = PreciseDecimal::from(LedgerDecimal::from_attos(I192::from(d.attos)));
    let l = p.precise_subunits().to_digits();
    Precise { l0: l[0], l1: l[1], l2: l[2], l3: l[3] }
}

/// Relies on `CheckedAdd for PreciseDecimal`: the exact sum, `None` on overflow.
#[verifier::external_body]
pub(crate) fn precise_add(a: Precise, b: Precise) -> (r: Option<Precise>)
    ensures
        r matches Some(c) ==> c@ == a@ + b@,
        r is None <==> !fits_precise(a@ + b@),
{
    let x = PreciseDecimal::from_precise_subunits(I256::from_digits([a.l0, a.l1, a.l2, a.l3]));
    let y = PreciseDecimal::from_precise_subunits(I256::from_digits([b.l0, b.l1, b.l2, b.l3]));
    let l = x.checked_add(y)?.precise_subunits().to_digits();
    Some(Precise { l0: l[0], l1: l[1], l2: l[2], l3: l[3] })
}

/// Relies on `CheckedSub for PreciseDecimal`: the exact difference, `None` on overflow.
#[verifier::external_body]
pub(crate) fn precise_sub(a: Precise, b: Precise) -> (r: Option<Precise>)
    ensures
        r matches Some(c) ==> c@ == a@ - b@,
        r is None <==> !fits_precise(a@ - b@),
{
    let x = PreciseDecimal::from_precise_subunits(I256::from_digits([a.l0, a.l1, a.l2, a.l3]));
    let y = PreciseDecimal::from_precise_subunits(I256::from_digits([b.l0, b.l1, b.l2, b.l3]));
    let l = x.checked_sub(y)?.precise_subunits().to_digits();
    Some(Precise { l0: l[0], l1: l[1], l2: l[2], l3: l[3] })
}

/// The ledger's precise product: `a * b` at 36 places, truncated toward zero.
pub open spec fn pmul_spec(a: int, b: int) -> Option<int> {
    let c = tdiv(a * b, precise_unit());
    if fits_precise(c) { Some(c) } else { None }
}

/// Relies on `CheckedMul for PreciseDecimal`: the product in 384 bits divided
/// by 10^36 toward zero; `None` when it does not fit 256 bits.
#[verifier::external_body]
pub(crate) fn precise_mul(a: Precise, b: Precise) -> (r: Option<Precise>)
    ensures
        r matches Some(c) ==> pmul_spec(a@, b@) == Some(c@),
        r is None ==> pmul_spec(a@, b@) is None,
{
    let x = PreciseDecimal::from_precise_subunits(I256::from_digits([a.l0, a.l1, a.l2, a.l3]));
    let y = PreciseDecimal::from_precise_subunits(I256::from_digits([b.l0, b.l1, b.l2, b.l3]));
    let l = x.checked_mul(y)?.precise_subunits().to_digits();
    Some(Precise { l0: l[0], l1: l[1], l2: l[2], l3: l[3] })
}

/// The ledger's precise quotient: `a / b` at 36 places, truncated toward zero.
pub open spec fn pdiv_spec(a: int, b: int) -> Option<int> {
    if b == 0 {
        None
    } else {
        let c = tdiv(a * precise_unit(), b);
        if fits_precise(c) { Some(c) } else { None }
    }
}

/// Relies on `CheckedDiv for PreciseDecimal`: `a * 10^36` in 384 bits divided
/// by `b` toward zero; `None` for a zero divisor or a quotient out of range.
#[verifier::external_body]
pub(crate) fn precise_div(a: Precise, b: Precise) -> (r: Option<Precise>)
    ensures
        r matches Some(c) ==> pdiv_spec(a@, b@) == Some(c@),
        r is None ==> pdiv_spec(a@, b@) is None,
{
    let x = PreciseDecimal::from_precise_subunits(I256::from_digits([a.l0, a.l1, a.l2, a.l3]));
    let y = PreciseDecimal::from_precise_subunits(I256::from_digits([b.l0, b.l1, b.l2, b.l3]));
    let l = x.checked_div(y)?.precise_subunits().to_digits();
    Some(Precise { l0: l[0], l1: l[1], l2: l[2], l3: l[3] })
}

/// The ledger's integer power by squaring, for the exponents 2 and 3: the
/// square is truncated to 36 places, and the cube is the value times that square.
pub open spec fn ppow_spec(a: int, exp: int) -> Option<int> {
    let sq = tdiv(a * a, precise_unit());
    if !fits_precise(sq) {
        None
    } else if exp == 2 {
        Some(sq)
    } else {
        pmul_spec(a, sq)
    }
}

/// Relies on `PreciseDecimal::checked_powi` for the exponents 2 and 3.
#[verifier::external_body]
pub(crate) fn precise_powi(a: Precise, exp: i64) -> (r: Option<Precise>)
    requires
        exp == 2 || exp == 3,
    ensures
        r matches Some(c) ==> ppow_spec(a@, exp as int) == Some(c@),
        r is None ==> ppow_spec(a@, exp as int) is None,
{
    let x = PreciseDecimal::from_precise_subunits(I256::from_digits([a.l0, a.l1, a.l2, a.l3]));
    let l = x.checked_powi(exp)?.precise_subunits().to_digits();
    Some(Precise { l0: l[0], l1: l[1], l2: l[2], l3: l[3] })
}

/// `r` is the truncated cube root of the non-negative `x`.
pub open spec fn is_floor_cbrt(x: int, r: int) -> bool {
    0 <= r && r * r * r <= x && x < (r + 1) * (r + 1) * (r + 1)
}

/// Relies on `PreciseDecimal::checked_nth_root` with `n == 3`, which takes the
/// integer cube root of `a * 10^72` rounding toward zero and is defined for
/// every value of an odd degree.
#[verifier::external_body]
pub(crate) fn precise_cbrt(a: Precise) -> (r: Precise)
    ensures
        a@ >= 0 ==> is_floor_cbrt(a@ * precise_unit() * precise_unit(), r@),
        a@ < 0 ==> is_floor_cbrt(-a@ * precise_unit() * precise_unit(), -r@),
{
    let x = PreciseDecimal::from_precise_subunits(I256::from_digits([a.l0, a.l1, a.l2, a.l3]));
    let l = x.checked_nth_root(3).expect("an odd root is always defined").precise_subunits();
    let l = l.to_digits();
    Precise { l0: l[0], l1: l[1], l2: l[2], l3: l[3] }
}

/// Rounding to 18 places, to the nearest and half away from zero.
pub open spec fn round_half_away(v: int) -> int {
    let rem = v % unit();
    if rem == 0 {
        v
    } else if rem < unit() / 2 || (rem == unit() / 2 && v < 0) {
        v - rem
    } else {
        v - rem + unit()
    }
}

/// The ledger's `checked_round(18, ToNearestMidpointAwayFromZero)`.
pub open spec fn pround_spec(v: int) -> Option<int> {
    if fits_precise(round_half_away(v)) { Some(round_half_away(v)) } else { None }
}

/// Relies on `PreciseDecimal::checked_round` to 18 places with
/// `RoundingMode::ToNearestMidpointAwayFromZero`.
#[verifier::external_body]
pub(crate) fn precise_round(a: Precise) -> (r: Option<Precise>)
    ensures
        r matches Some(c) ==> pround_spec(a@) == Some(c@),
        r is None ==> pround_spec(a@) is None,
{
    let x = PreciseDecimal::from_precise_subunits(I256::from_digits([a.l0, a.l1, a.l2, a.l3]));
    let y = x.checked_round(18, RoundingMode::ToNearestMidpointAwayFromZero)?;
    let l = y.precise_subunits().to_digits();
    Some(Precise { l0: l[0], l1: l[1], l2: l[2], l3: l[3] })
}

/// The ledger's conversion of a precise value to 18 places: truncation toward zero.
pub open spec fn to_dec_spec(v: int) -> Option<int> {
    let c = tdiv(v, unit());
    if fits_dec(c) { Some(c) } else { None }
}

/// Relies on `TryFrom<PreciseDecimal> for Decimal`, which truncates toward
/// zero; `None` when the result does not fit a `Dec`.
#[verifier::external_body]
pub(crate) fn dec_from_precise(a: Precise) -> (r: Option<Dec>)
    ensures
        r matches Some(c) ==> to_dec_spec(a@) == Some(c@),
        r is None ==> to_dec_spec(a@) is None,
{
    let x = PreciseDecimal::from_precise_subunits(I256::from_digits([a.l0, a.l1, a.l2, a.l3]));
    let d = LedgerDecimal::try_from(x).ok()?;
    let attos = i128::try_from(d.attos()).ok()?;
    Some(Dec { attos })
}

/// The value, in attos, that the ledger's decimal parser reads from a
/// string; `None` for a string it does not accept.
pub uninterp spec fn parsed_decimal(s: Seq<char>) -> Option<int>;

/// Relies on `TryFrom<&str> for Decimal` (the ledger's `Decimal::from_str`):
/// `None` when the string does not parse, or parses to a value out of the
/// range of `Dec`.
#[verifier::external_body]
pub(crate) fn parse_dec(s: &str) -> (r: Option<Dec>)
    ensures
        r matches Some(d) ==> parsed_decimal(s@) == Some(d@),
        r is None ==> (parsed_decimal(s@) matches Some(v) ==> !fits_dec(v)),
{
    let d = LedgerDecimal::try_from(s).ok()?;
    let attos = i128::try_from(d.attos()).ok()?;
    Some(Dec { attos })
}

/// Whether a precise value is below zero: the sign bit of its top limb.
pub fn precise_is_negative(a: Precise) -> (r: bool)
    ensures
        r == (a@ < 0),
{
    a.l3 >= 0x8000_0000_0000_0000
}

} // verus!
