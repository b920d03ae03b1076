//! The plain bonding curve: no fees, no fair launch and no listing. Buyers
//! pay into the curve for newly minted tokens until the payment cap is
//! reached, and sellers burn tokens for payment out of it.

use crate::bucket::{AssetId, Bucket};
use crate::curve_math::{
    buy_price_spec, calculate_buy_price, calculate_price, calculate_sell_price,
    calculate_tokens_received, calculate_tokens_to_sell, price_spec, sell_price_spec,
    tokens_received_spec, tokens_to_sell_spec, burn_exceeds_spec,
};
use crate::decimal::{Dec, Precise};
use crate::error::CurveError;
use vstd::prelude::*;

verus! {

/// The state of a plain bonding curve.
pub struct TokenCurve {
    /// The asset that pays for tokens.
    pub payment_resource: AssetId,
    /// The token traded on this curve.
    pub token_resource: AssetId,
    /// The most tokens the curve puts out.
    pub max_supply: Dec,
    /// The most payment the curve takes in.
    pub max_xrd: Dec,
    /// The slope `m` of `price(s) = m * s^2`.
    pub multiplier: Precise,
    /// The payment held against the tokens out.
    pub xrd_vault: Dec,
    /// The price after the last trade.
    pub last_price: Dec,
    /// The tokens out on the curve.
    pub current_supply: Dec,
}

impl TokenCurve {
    /// The bounds that every operation keeps, and the price that belongs
    /// to the supply.
    pub open spec fn wf(&self) -> bool {
        &&& 0 <= self.current_supply@ <= self.max_supply@
        &&& 0 <= self.xrd_vault@ <= self.max_xrd@
        &&& price_spec(self.current_supply@, self.multiplier@) == Some(self.last_price@)
    }

    /// `new` differs from this curve in supply, vault and price alone, and
    /// its price is the curve's price at its supply.
    pub open spec fn traded_to(&self, new: Self, supply: int, vault: int) -> bool {
        &&& new == (TokenCurve {
            current_supply: new.current_supply,
            xrd_vault: new.xrd_vault,
            last_price: new.last_price,
            ..*self
        })
        &&& new.current_supply@ == supply
        &&& new.xrd_vault@ == vault
        &&& price_spec(supply, self.multiplier@) == Some(new.last_price@)
    }

    /// Creates a curve with no tokens out, the given bounds and slope.
    pub fn new(
        max_supply: Dec,
        max_xrd: Dec,
        multiplier: Precise,
        payment_resource: AssetId,
        token_resource: AssetId,
    ) -> (r: Result<TokenCurve, CurveError>)
        ensures
            r is Err <==> max_supply@ < 0 || max_xrd@ < 0,
            r is Err ==> r == Err::<TokenCurve, CurveError>(CurveError::InvalidParameter),
            r matches Ok(c) ==> c.wf() && c == (TokenCurve {
                payment_resource,
                token_resource,
                max_supply,
                max_xrd,
                multiplier,
                xrd_vault: Dec { attos: 0 },
                last_price: Dec { attos: 0 },
                current_supply: Dec { attos: 0 },
            }),
    {
        if max_supply.attos < 0 || max_xrd.attos < 0 {
            return Err(CurveError::InvalidParameter);
        }
        proof {
            crate::curve_math::lemma_price_at_zero(multiplier@);
        }
        Ok(TokenCurve {
            payment_resource,
            token_resource,
            max_supply,
            max_xrd,
            multiplier,
            xrd_vault: Dec::zero(),
            last_price: Dec::zero(),
            current_supply: Dec::zero(),
        })
    }

    /// The payment of `gross` that the curve takes: all of it, or what still
    /// fits under the cap.
    pub open spec fn taken(&self, gross: int) -> int {
        if self.xrd_vault@ + gross > self.max_xrd@ {
            self.max_xrd@ - self.xrd_vault@
        } else {
            gross
        }
    }

    /// Whether a purchase paying with `bucket` goes through: the right asset,
    /// a non-negative payment, and tokens within the supply cap.
    pub open spec fn buy_ok(&self, bucket: Bucket) -> bool {
        let x = self.taken(bucket.amount@);
        let t = tokens_received_spec(x, self.current_supply@, self.multiplier@);
        &&& bucket.resource == self.payment_resource
        &&& bucket.amount@ >= 0
        &&& x > 0 ==> {
            &&& t is Some && 0 <= t.unwrap()
            &&& self.current_supply@ + t.unwrap() <= self.max_supply@
            &&& t.unwrap() != 0 ==> price_spec(self.current_supply@ + t.unwrap(), self.multiplier@) is Some
        }
    }

    /// Whether a purchase of exactly `amount` tokens paying with `bucket`
    /// goes through: the right asset, amounts that are not negative, tokens
    /// within the supply cap, a payment that covers the price, and a payment
    /// held within the cap.
    pub open spec fn buy_amount_ok(&self, amount: int, bucket: Bucket) -> bool {
        let req = buy_price_spec(amount, self.current_supply@, self.multiplier@);
        &&& bucket.resource == self.payment_resource
        &&& amount >= 0
        &&& bucket.amount@ >= 0
        &&& self.current_supply@ + amount <= self.max_supply@
        &&& amount > 0 ==> {
            &&& req is Some && 0 <= req.unwrap() <= bucket.amount@
            &&& self.xrd_vault@ + req.unwrap() <= self.max_xrd@
            &&& price_spec(self.current_supply@ + amount, self.multiplier@) is Some
        }
    }

    /// Whether a sale of the tokens in `bucket` goes through: the right
    /// asset, no more tokens than are out, and a payment the vault covers.
    pub open spec fn sell_ok(&self, bucket: Bucket) -> bool {
        let n = bucket.amount@;
        let x = sell_price_spec(n, self.current_supply@, self.multiplier@);
        &&& bucket.resource == self.token_resource
        &&& 0 <= n <= self.current_supply@
        &&& n > 0 ==> {
            &&& x is Some && 0 <= x.unwrap() <= self.xrd_vault@
            &&& price_spec(self.current_supply@ - n, self.multiplier@) is Some
        }
    }

    /// Whether a sale for a payment of `amount` from the tokens in `bucket`
    /// goes through: the right asset, amounts that are not negative, a
    /// payment the vault covers, and enough tokens sent and out.
    pub open spec fn sell_for_ok(&self, amount: int, bucket: Bucket) -> bool {
        let t = tokens_to_sell_spec(amount, self.current_supply@, self.multiplier@);
        &&& bucket.resource == self.token_resource
        &&& amount >= 0
        &&& bucket.amount@ >= 0
        &&& amount <= self.xrd_vault@
        &&& amount > 0 ==> {
            &&& t is Some && t.unwrap() <= bucket.amount@
            &&& 0 <= t.unwrap() <= self.current_supply@
            &&& t.unwrap() != 0 ==> price_spec(self.current_supply@ - t.unwrap(), self.multiplier@) is Some
        }
    }

    /// Buys tokens with the payment in `in_bucket`; a payment past the cap
    /// is cut to what fits and the rest comes back.
    pub fn buy(&mut self, in_bucket: Bucket) -> (r: Result<(Bucket, Bucket), CurveError>)
        requires
            old(self).wf(),
        ensures
            final(self).wf(),
            r is Err ==> *final(self) == *old(self),
            in_bucket.resource != old(self).payment_resource ==> r == Err::<(Bucket, Bucket), CurveError>(
                CurveError::InvalidAsset,
            ),
            in_bucket.resource == old(self).payment_resource && in_bucket.amount@ < 0 ==> r == Err::<
                (Bucket, Bucket),
                CurveError,
            >(CurveError::InsufficientFunds),
            r is Ok <==> old(self).buy_ok(in_bucket),
            r matches Ok((out, change)) ==> {
                let x = old(self).taken(in_bucket.amount@);
                let t = if x > 0 {
                    tokens_received_spec(x, old(self).current_supply@, old(self).multiplier@).unwrap()
                } else {
                    0
                };
                &&& x > 0 ==> tokens_received_spec(
                    x,
                    old(self).current_supply@,
                    old(self).multiplier@,
                ) is Some
                &&& old(self).traded_to(
                    *final(self),
                    old(self).current_supply@ + t,
                    old(self).xrd_vault@ + if x > 0 { x } else { 0 },
                )
                &&& out.resource == old(self).token_resource && out.amount@ == t
                &&& change.resource == old(self).payment_resource
                &&& change.amount@ == in_bucket.amount@ - if x > 0 { x } else { 0 }
            },
            r == Err::<(Bucket, Bucket), CurveError>(CurveError::InternalInvariantViolation) <==> {
                let x = old(self).taken(in_bucket.amount@);
                &&& in_bucket.resource == old(self).payment_resource && in_bucket.amount@ >= 0
                &&& x > 0
                &&& tokens_received_spec(x, old(self).current_supply@, old(self).multiplier@) matches Some(t)
                &&& (t < 0 || old(self).current_supply@ + t > old(self).max_supply@)
            },
    {
        if in_bucket.resource != self.payment_resource {
            return Err(CurveError::InvalidAsset);
        }
        let gross = in_bucket.amount;
        if gross.attos < 0 {
            return Err(CurveError::InsufficientFunds);
        }
        let room = self.max_xrd.attos - self.xrd_vault.attos;
        let x = if gross.attos > room { Dec::from_attos(room) } else { gross };
        let change = Bucket::new(self.payment_resource, Dec::from_attos(gross.attos - x.attos));
        if !x.is_positive() {
            return Ok((Bucket::new(self.token_resource, Dec::zero()), Bucket::new(self.payment_resource, gross)));
        }
        let supply = self.current_supply;
        let tokens = match calculate_tokens_received(x, supply, self.multiplier) {
            Some(t) => t,
            None => return Err(CurveError::Overflow),
        };
        if tokens.attos < 0 || tokens.attos > self.max_supply.attos - supply.attos {
            return Err(CurveError::InternalInvariantViolation);
        }
        let new_supply = Dec::from_attos(supply.attos + tokens.attos);
        let price = if tokens.attos == 0 {
            self.last_price
        } else {
            match calculate_price(new_supply, self.multiplier) {
                Some(p) => p,
                None => return Err(CurveError::Overflow),
            }
        };
        self.current_supply = new_supply;
        self.xrd_vault = Dec::from_attos(self.xrd_vault.attos + x.attos);
        self.last_price = price;
        Ok((Bucket::new(self.token_resource, tokens), change))
    }

    /// Buys exactly `amount` tokens, paying from `in_bucket` the area under
    /// the curve over them; the rest of the payment comes back. Refused when
    /// the tokens would pass the supply cap, when the payment is short, or
    /// when the payment held would pass the cap.
    pub fn buy_amount(&mut self, amount: Dec, in_bucket: Bucket) -> (r: Result<(Bucket, Bucket), CurveError>)
        requires
            old(self).wf(),
        ensures
            final(self).wf(),
            r is Err ==> *final(self) == *old(self),
            in_bucket.resource != old(self).payment_resource ==> r == Err::<(Bucket, Bucket), CurveError>(
                CurveError::InvalidAsset,
            ),
            in_bucket.resource == old(self).payment_resource && amount@ < 0 ==> r == Err::<
                (Bucket, Bucket),
                CurveError,
            >(CurveError::InvalidParameter),
            in_bucket.resource == old(self).payment_resource && amount@ >= 0 && in_bucket.amount@ < 0
                ==> r == Err::<(Bucket, Bucket), CurveError>(CurveError::InsufficientFunds),
            in_bucket.resource == old(self).payment_resource && amount@ >= 0 && in_bucket.amount@ >= 0
                && old(self).current_supply@ + amount@ > old(self).max_supply@ ==> r == Err::<
                (Bucket, Bucket),
                CurveError,
            >(CurveError::CapacityExceeded),
            r is Ok <==> old(self).buy_amount_ok(amount@, in_bucket),
            r matches Ok((out, change)) ==> {
                let req = buy_price_spec(amount@, old(self).current_supply@, old(self).multiplier@).unwrap();
                &&& buy_price_spec(amount@, old(self).current_supply@, old(self).multiplier@) is Some
                &&& old(self).traded_to(
                    *final(self),
                    old(self).current_supply@ + amount@,
                    old(self).xrd_vault@ + req,
                )
                &&& out.resource == old(self).token_resource && out.amount == amount
                &&& change.resource == old(self).payment_resource
                &&& change.amount@ == in_bucket.amount@ - req
            },
            in_bucket.resource == old(self).payment_resource && amount@ > 0 && in_bucket.amount@ >= 0
                && old(self).current_supply@ + amount@ <= old(self).max_supply@ ==> (buy_price_spec(
                amount@,
                old(self).current_supply@,
                old(self).multiplier@,
            ) matches Some(req) ==> (req >= 0 ==> {
                &&& req > in_bucket.amount@ ==> r == Err::<(Bucket, Bucket), CurveError>(
                    CurveError::InsufficientFunds,
                )
                &&& req <= in_bucket.amount@ && old(self).xrd_vault@ + req > old(self).max_xrd@ ==> r
                    == Err::<(Bucket, Bucket), CurveError>(CurveError::CapacityExceeded)
            })),
    {
        if in_bucket.resource != self.payment_resource {
            return Err(CurveError::InvalidAsset);
        }
        if amount.attos < 0 {
            return Err(CurveError::InvalidParameter);
        }
        let gross = in_bucket.amount;
        if gross.attos < 0 {
            return Err(CurveError::InsufficientFunds);
        }
        let supply = self.current_supply;
        if amount.attos > self.max_supply.attos - supply.attos {
            return Err(CurveError::CapacityExceeded);
        }
        if !amount.is_positive() {
            return Ok((Bucket::new(self.token_resource, amount), Bucket::new(self.payment_resource, gross)));
        }
        let required = match calculate_buy_price(amount, supply, self.multiplier) {
            Some(v) => v,
            None => return Err(CurveError::Overflow),
        };
        if required.attos < 0 {
            return Err(CurveError::InternalInvariantViolation);
        }
        if required.gt(gross) {
            return Err(CurveError::InsufficientFunds);
        }
        if required.attos > self.max_xrd.attos - self.xrd_vault.attos {
            return Err(CurveError::CapacityExceeded);
        }
        let new_supply = Dec::from_attos(supply.attos + amount.attos);
        let price = match calculate_price(new_supply, self.multiplier) {
            Some(p) => p,
            None => return Err(CurveError::Overflow),
        };
        self.current_supply = new_supply;
        self.xrd_vault = Dec::from_attos(self.xrd_vault.attos + required.attos);
        self.last_price = price;
        Ok((
            Bucket::new(self.token_resource, amount),
            Bucket::new(self.payment_resource, Dec::from_attos(gross.attos - required.attos)),
        ))
    }

    /// Sells all the tokens in `in_bucket`: they are burnt and the area under
    /// the curve over them is paid out. Refused for more tokens than are out.
    pub fn sell(&mut self, in_bucket: Bucket) -> (r: Result<(Bucket, Bucket), CurveError>)
        requires
            old(self).wf(),
        ensures
            final(self).wf(),
            r is Err ==> *final(self) == *old(self),
            in_bucket.resource != old(self).token_resource ==> r == Err::<(Bucket, Bucket), CurveError>(
                CurveError::InvalidAsset,
            ),
            in_bucket.resource == old(self).token_resource && in_bucket.amount@ < 0 ==> r == Err::<
                (Bucket, Bucket),
                CurveError,
            >(CurveError::InsufficientTokens),
            in_bucket.resource == old(self).token_resource && in_bucket.amount@
                > old(self).current_supply@ ==> r == Err::<(Bucket, Bucket), CurveError>(
                CurveError::CapacityExceeded,
            ),
            r is Ok <==> old(self).sell_ok(in_bucket),
            r matches Ok((out, rest)) ==> {
                let n = in_bucket.amount@;
                let x = if n > 0 {
                    sell_price_spec(n, old(self).current_supply@, old(self).multiplier@).unwrap()
                } else {
                    0
                };
                &&& n > 0 ==> sell_price_spec(n, old(self).current_supply@, old(self).multiplier@) is Some
                &&& old(self).traded_to(
                    *final(self),
                    old(self).current_supply@ - n,
                    old(self).xrd_vault@ - x,
                )
                &&& out.resource == old(self).payment_resource && out.amount@ == x
                &&& rest == Bucket { resource: old(self).token_resource, amount: Dec { attos: 0 } }
            },
            r == Err::<(Bucket, Bucket), CurveError>(CurveError::InternalInvariantViolation) <==> {
                &&& in_bucket.resource == old(self).token_resource
                &&& 0 < in_bucket.amount@ <= old(self).current_supply@
                &&& sell_price_spec(in_bucket.amount@, old(self).current_supply@, old(self).multiplier@) matches Some(x)
                &&& (x < 0 || x > old(self).xrd_vault@)
            },
    {
        if in_bucket.resource != self.token_resource {
            return Err(CurveError::InvalidAsset);
        }
        let n = in_bucket.amount;
        if n.attos < 0 {
            return Err(CurveError::InsufficientTokens);
        }
        let supply = self.current_supply;
        if n.gt(supply) {
            return Err(CurveError::CapacityExceeded);
        }
        let rest = Bucket::new(self.token_resource, Dec::zero());
        if !n.is_positive() {
            return Ok((Bucket::new(self.payment_resource, Dec::zero()), rest));
        }
        let receive = match calculate_sell_price(n, supply, self.multiplier) {
            Some(v) => v,
            None => return Err(CurveError::Overflow),
        };
        if receive.attos < 0 || receive.gt(self.xrd_vault) {
            return Err(CurveError::InternalInvariantViolation);
        }
        let new_supply = Dec::from_attos(supply.attos - n.attos);
        let price = match calculate_price(new_supply, self.multiplier) {
            Some(p) => p,
            None => return Err(CurveError::Overflow),
        };
        self.current_supply = new_supply;
        self.xrd_vault = Dec::from_attos(self.xrd_vault.attos - receive.attos);
        self.last_price = price;
        Ok((Bucket::new(self.payment_resource, receive), rest))
    }

    /// Sells tokens from `in_bucket` for a payment of exactly `amount`: the
    /// tokens burnt are those that release `amount`, and the rest of the
    /// bucket comes back. Refused when `amount` passes what the curve holds
    /// and when the bucket holds too few tokens.
    pub fn sell_for_xrd_amount(&mut self, amount: Dec, in_bucket: Bucket) -> (r: Result<
        (Bucket, Bucket),
        CurveError,
    >)
        requires
            old(self).wf(),
        ensures
            final(self).wf(),
            r is Err ==> *final(self) == *old(self),
            in_bucket.resource != old(self).token_resource ==> r == Err::<(Bucket, Bucket), CurveError>(
                CurveError::InvalidAsset,
            ),
            in_bucket.resource == old(self).token_resource && amount@ < 0 ==> r == Err::<
                (Bucket, Bucket),
                CurveError,
            >(CurveError::InvalidParameter),
            in_bucket.resource == old(self).token_resource && amount@ >= 0 && in_bucket.amount@ < 0
                ==> r == Err::<(Bucket, Bucket), CurveError>(CurveError::InsufficientTokens),
            in_bucket.resource == old(self).token_resource && amount@ >= 0 && in_bucket.amount@ >= 0
                && amount@ > old(self).xrd_vault@ ==> r == Err::<(Bucket, Bucket), CurveError>(
                CurveError::CapacityExceeded,
            ),
            in_bucket.resource == old(self).token_resource && 0 < amount@ <= old(self).xrd_vault@
                && in_bucket.amount@ >= 0 ==> (tokens_to_sell_spec(
                amount@,
                old(self).current_supply@,
                old(self).multiplier@,
            ) matches Some(t) ==> (t > in_bucket.amount@ ==> r == Err::<(Bucket, Bucket), CurveError>(
                CurveError::InsufficientTokens,
            ))),
            in_bucket.resource == old(self).token_resource && 0 < amount@ <= old(self).xrd_vault@
                && in_bucket.amount@ >= 0 ==> (tokens_to_sell_spec(
                amount@,
                old(self).current_supply@,
                old(self).multiplier@,
            ) matches Some(t) ==> (t <= in_bucket.amount@ && t > old(self).current_supply@ ==> r
                == Err::<(Bucket, Bucket), CurveError>(CurveError::CapacityExceeded))),
            in_bucket.resource == old(self).token_resource && 0 < amount@ <= old(self).xrd_vault@
                && in_bucket.amount@ >= 0 && burn_exceeds_spec(
                amount@,
                old(self).current_supply@,
                old(self).multiplier@,
            ) ==> r == Err::<(Bucket, Bucket), CurveError>(CurveError::CapacityExceeded),
            r is Ok <==> old(self).sell_for_ok(amount@, in_bucket),
            r matches Ok((out, rest)) ==> {
                let t = if amount@ > 0 {
                    tokens_to_sell_spec(amount@, old(self).current_supply@, old(self).multiplier@).unwrap()
                } else {
                    0
                };
                &&& amount@ > 0 ==> tokens_to_sell_spec(
                    amount@,
                    old(self).current_supply@,
                    old(self).multiplier@,
                ) is Some
                &&& old(self).traded_to(
                    *final(self),
                    old(self).current_supply@ - t,
                    old(self).xrd_vault@ - amount@,
                )
                &&& out == Bucket { resource: old(self).payment_resource, amount }
                &&& rest.resource == old(self).token_resource && rest.amount@ == in_bucket.amount@ - t
            },
    {
        if in_bucket.resource != self.token_resource {
            return Err(CurveError::InvalidAsset);
        }
        if amount.attos < 0 {
            return Err(CurveError::InvalidParameter);
        }
        let sent = in_bucket.amount;
        if sent.attos < 0 {
            return Err(CurveError::InsufficientTokens);
        }
        if amount.gt(self.xrd_vault) {
            return Err(CurveError::CapacityExceeded);
        }
        if !amount.is_positive() {
            return Ok((Bucket::new(self.payment_resource, amount), Bucket::new(self.token_resource, sent)));
        }
        let supply = self.current_supply;
        let tokens = match calculate_tokens_to_sell(amount, supply, self.multiplier) {
            Ok(t) => t,
            Err(e) => return Err(e),
        };
        if tokens.gt(sent) {
            return Err(CurveError::InsufficientTokens);
        }
        if tokens.gt(supply) {
            return Err(CurveError::CapacityExceeded);
        }
        if tokens.attos < 0 {
            return Err(CurveError::InternalInvariantViolation);
        }
        let new_supply = Dec::from_attos(supply.attos - tokens.attos);
        let price = if tokens.attos == 0 {
            self.last_price
        } else {
            match calculate_price(new_supply, self.multiplier) {
                Some(p) => p,
                None => return Err(CurveError::Overflow),
            }
        };
        self.current_supply = new_supply;
        self.xrd_vault = Dec::from_attos(self.xrd_vault.attos - amount.attos);
        self.last_price = price;
        Ok((
            Bucket::new(self.payment_resource, amount),
            Bucket::new(self.token_resource, Dec::from_attos(sent.attos - tokens.attos)),
        ))
    }
}

} // verus!
