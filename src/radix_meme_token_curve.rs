//! A token launched on a bonding curve with trading fees and an optional
//! fair-launch period.
//!
//! Buyers pay into the curve and receive newly minted tokens; sellers burn
//! tokens and are paid out of it. During the fair launch every purchase is
//! held in escrow against a receipt, and the receipts are redeemed pro rata
//! once the period is over. When the payment held reaches the cap the token
//! is listed and the curve stops trading.
//!
//! Every operation first settles the fair-launch phase against the time
//! given to it, and only a successful operation stores the outcome: a
//! refused one leaves the curve exactly as it was.

use crate::bucket::{AssetId, Bucket, Minted, ReceiptBucket};
use crate::curve_math::{
    buy_price_spec, calculate_buy_price, calculate_max_xrd, calculate_multiplier, calculate_price,
    calculate_sell_price, calculate_tokens_received, calculate_tokens_to_sell, max_xrd_spec,
    multiplier_spec, price_spec, sell_price_spec, tokens_received_spec, tokens_to_sell_spec, burn_exceeds_spec,
};
use crate::decimal::{fits_dec, Dec, Precise};
use crate::error::CurveError;
use crate::fair_launch::{
    copy_receipts, ids_below, ids_distinct, lemma_redeem_keeps, lemma_total_push, redeem_receipts, redeem_spec,
    total_contributed, FairLaunchReceipt,
};
use crate::fees::{fee_spec, lemma_fee_within, split, valid_rate};
use vstd::prelude::*;

verus! {

/// The state of one token's bonding curve.
pub struct RadixMemeTokenCurve {
    /// The asset that pays for tokens.
    pub payment_resource: AssetId,
    /// The token traded on this curve.
    pub token_resource: AssetId,
    /// The fair-launch receipts of this curve.
    pub receipt_resource: AssetId,
    /// The supply the token is meant to reach once listed elsewhere.
    pub max_token_supply: Dec,
    /// The most tokens that the curve itself puts out.
    pub max_token_supply_to_trade: Dec,
    /// The market cap that the curve is built to reach.
    pub max_xrd_market_cap: Dec,
    /// The most payment the curve takes in; reaching it lists the token.
    pub max_xrd: Dec,
    /// The fee on the payment leg of every trade, as a fraction.
    pub tx_fee_perc: Dec,
    /// The fee taken when the token is listed, as a fraction.
    pub listing_fee_perc: Dec,
    /// The creator's fee taken when the token is listed, as a fraction.
    pub creator_fee_perc: Dec,
    /// The slope `m` of `price(s) = m * s^2`.
    pub multiplier: Precise,
    /// The payment held against the tokens out.
    pub xrd_vault: Dec,
    /// The trading fees collected.
    pub fee_vault: Dec,
    /// The creator's fees collected.
    pub creator_fee_vault: Dec,
    /// The price after the last trade.
    pub last_price: Dec,
    /// The tokens out on the curve, escrowed ones included.
    pub current_supply: Dec,
    /// The length of the fair launch in minutes; zero for none.
    pub fair_launch_period_mins: u32,
    /// Whether the fair launch was still running at the last operation.
    pub in_fair_launch_period: bool,
    /// The tokens bought during the fair launch and not yet claimed.
    pub fair_launch_tokens: Dec,
    /// The net payment behind the receipts not yet redeemed.
    pub fair_launch_xrd: Dec,
    /// The receipts not yet redeemed.
    pub receipts: Vec<FairLaunchReceipt>,
    /// The id that the next receipt gets.
    pub next_receipt_id: u64,
    /// When the curve was created, in seconds.
    pub time_created: i64,
    /// When the payment cap was reached, once it has been.
    pub target_reached: Option<i64>,
}

/// How a payment of `gross` is spent when `available` more payment fits
/// under the cap: the payment is cut to what fits, the fee is taken out of
/// it and the rest is the net payment into the curve. Returns the net
/// payment, the fee, and whether the payment reaches the cap.
pub open spec fn buy_split_spec(available: int, gross: int, rate: int) -> Option<(int, int, bool)> {
    let clipped = if gross > available { available } else { gross };
    match fee_spec(clipped, rate) {
        Some(f) => Some((clipped - f, f, gross >= available)),
        None => None,
    }
}

/// Whether a curve with these fees, tradable supply and market cap can be
/// created: fees in `[0, 1)`, a positive supply, a market cap that is not
/// negative, and a slope and payment cap within range.
pub open spec fn creation_ok(
    tx_fee: int,
    listing_fee: int,
    creator_fee: int,
    max_supply: int,
    cap: int,
) -> bool {
    let m = multiplier_spec(cap, max_supply);
    let x = max_xrd_spec(m.unwrap(), max_supply);
    &&& valid_rate(tx_fee) && valid_rate(listing_fee) && valid_rate(creator_fee)
    &&& max_supply > 0 && cap >= 0
    &&& m is Some
    &&& x is Some && x.unwrap() >= 0
}

impl RadixMemeTokenCurve {
    /// The bounds that every operation keeps, and the price that belongs
    /// to the supply.
    pub open spec fn wf(&self) -> bool {
        &&& 0 <= self.current_supply@ <= self.max_token_supply_to_trade@
        &&& 0 <= self.xrd_vault@ <= self.max_xrd@ + 1
        &&& self.xrd_vault@ > self.max_xrd@ ==> self.listed()
        &&& 0 <= self.fee_vault@
        &&& 0 <= self.fair_launch_tokens@
        &&& self.receipts@.len() == 0 ==> self.fair_launch_tokens@ == 0
        &&& valid_rate(self.tx_fee_perc@)
        &&& self.multiplier@ >= 0
        &&& price_spec(self.current_supply@, self.multiplier@) == Some(self.last_price@)
        &&& self.fair_launch_xrd@ == total_contributed(self.receipts@)
        &&& ids_distinct(self.receipts@)
        &&& ids_below(self.receipts@, self.next_receipt_id)
    }

    /// Whether the fair launch still runs at time `now`: it ends once `now`
    /// is past its deadline.
    pub open spec fn fair_launch_at(&self, now: int) -> bool {
        self.in_fair_launch_period && now <= self.time_created + self.fair_launch_period_mins * 60
    }

    /// Whether the token has been listed, which closes the curve.
    pub open spec fn listed(&self) -> bool {
        self.target_reached is Some
    }

    /// The payment that still fits under the cap.
    pub open spec fn available(&self) -> int {
        self.max_xrd@ - self.xrd_vault@
    }

    /// Creates a curve with no tokens out. The slope and the payment cap are
    /// derived from the tradable supply and the market cap. A nonzero
    /// `fair_launch_period_mins` starts the curve in its fair launch.
    pub fn new(
        max_token_supply: Dec,
        max_token_supply_to_trade: Dec,
        max_xrd_market_cap: Dec,
        tx_fee_perc: Dec,
        listing_fee_perc: Dec,
        creator_fee_perc: Dec,
        fair_launch_period_mins: u32,
        time_created: i64,
        payment_resource: AssetId,
        token_resource: AssetId,
        receipt_resource: AssetId,
    ) -> (r: Result<RadixMemeTokenCurve, CurveError>)
        ensures
            !(valid_rate(tx_fee_perc@) && valid_rate(listing_fee_perc@) && valid_rate(
                creator_fee_perc@,
            ) && max_token_supply_to_trade@ > 0 && max_xrd_market_cap@ >= 0) ==> r == Err::<
                RadixMemeTokenCurve,
                CurveError,
            >(CurveError::InvalidParameter),
            r is Err ==> r == Err::<RadixMemeTokenCurve, CurveError>(CurveError::InvalidParameter)
                || r == Err::<RadixMemeTokenCurve, CurveError>(CurveError::Overflow),
            r is Ok <==> creation_ok(
                tx_fee_perc@,
                listing_fee_perc@,
                creator_fee_perc@,
                max_token_supply_to_trade@,
                max_xrd_market_cap@,
            ),
            r matches Ok(c) ==> {
                &&& c.wf()
                &&& multiplier_spec(max_xrd_market_cap@, max_token_supply_to_trade@) == Some(
                    c.multiplier@,
                )
                &&& max_xrd_spec(c.multiplier@, max_token_supply_to_trade@) == Some(c.max_xrd@)
                &&& c.current_supply@ == 0 && c.xrd_vault@ == 0 && c.fee_vault@ == 0
                &&& c.last_price@ == 0 && c.fair_launch_tokens@ == 0 && c.receipts@.len() == 0
                &&& c.in_fair_launch_period == (fair_launch_period_mins > 0)
                &&& c.target_reached is None && c.time_created == time_created
                &&& c.max_token_supply == max_token_supply
                &&& c.max_token_supply_to_trade == max_token_supply_to_trade
                &&& c.max_xrd_market_cap == max_xrd_market_cap
                &&& c.tx_fee_perc == tx_fee_perc && c.listing_fee_perc == listing_fee_perc
                &&& c.creator_fee_perc == creator_fee_perc
                &&& c.fair_launch_period_mins == fair_launch_period_mins
                &&& c.payment_resource == payment_resource && c.token_resource == token_resource
                &&& c.receipt_resource == receipt_resource
            },
    {
        let one = Dec::units(1);
        if tx_fee_perc.attos < 0 || tx_fee_perc.ge(one) || listing_fee_perc.attos < 0
            || listing_fee_perc.ge(one) || creator_fee_perc.attos < 0 || creator_fee_perc.ge(one)
            || !max_token_supply_to_trade.is_positive() || max_xrd_market_cap.attos < 0 {
            return Err(CurveError::InvalidParameter);
        }
        let multiplier = match calculate_multiplier(max_xrd_market_cap, max_token_supply_to_trade) {
            Some(m) => m,
            None => return Err(CurveError::Overflow),
        };
        proof {
            let u = crate::decimal::unit();
            let k = crate::decimal::precise_unit();
            let supply = max_token_supply_to_trade@ * u;
            assert(supply >= 0) by (nonlinear_arith)
                requires
                    max_token_supply_to_trade@ > 0,
                    u > 0,
                    supply == max_token_supply_to_trade@ * u,
            ;
            assert(crate::decimal::ppow_spec(0, 3) == Some(0int));
            crate::laws::lemma_ppow_monotone(0, supply, 3);
            let num = max_xrd_market_cap@ * u * k;
            assert(num >= 0) by (nonlinear_arith)
                requires
                    max_xrd_market_cap@ >= 0,
                    u > 0,
                    k > 0,
                    num == max_xrd_market_cap@ * u * k,
            ;
            crate::laws::lemma_tdiv_monotone(0, num, crate::decimal::ppow_spec(supply, 3).unwrap());
        }
        let max_xrd = match calculate_max_xrd(multiplier, max_token_supply_to_trade) {
            Some(x) => x,
            None => return Err(CurveError::Overflow),
        };
        if max_xrd.attos < 0 {
            return Err(CurveError::Overflow);
        }
        proof {
            crate::curve_math::lemma_price_at_zero(multiplier@);
        }
        Ok(RadixMemeTokenCurve {
            payment_resource,
            token_resource,
            receipt_resource,
            max_token_supply,
            max_token_supply_to_trade,
            max_xrd_market_cap,
            max_xrd,
            tx_fee_perc,
            listing_fee_perc,
            creator_fee_perc,
            multiplier,
            xrd_vault: Dec::zero(),
            fee_vault: Dec::zero(),
            creator_fee_vault: Dec::zero(),
            last_price: Dec::zero(),
            current_supply: Dec::zero(),
            fair_launch_period_mins,
            in_fair_launch_period: fair_launch_period_mins > 0,
            fair_launch_tokens: Dec::zero(),
            fair_launch_xrd: Dec::zero(),
            receipts: Vec::new(),
            next_receipt_id: 0,
            time_created,
            target_reached: None,
        })
    }

    /// Whether the fair launch still runs at time `now`.
    pub fn fair_launch_active_at(&self, now: i64) -> (r: bool)
        ensures
            r == self.fair_launch_at(now as int),
    {
        self.in_fair_launch_period && (now as i128) <= (self.time_created as i128) + (
        self.fair_launch_period_mins as i128) * 60
    }

    /// Ends the fair launch if its deadline has passed by `now`.
    pub fn check_in_fair_launch_period(&mut self, now: i64)
        requires
            old(self).wf(),
        ensures
            final(self).wf(),
            *final(self) == (RadixMemeTokenCurve {
                in_fair_launch_period: old(self).fair_launch_at(now as int),
                ..*old(self)
            }),
    {
        if self.in_fair_launch_period && !self.fair_launch_active_at(now) {
            self.end_fair_launch_period();
        }
    }

    /// Ends the fair launch.
    pub fn end_fair_launch_period(&mut self)
        requires
            old(self).wf(),
        ensures
            final(self).wf(),
            *final(self) == (RadixMemeTokenCurve { in_fair_launch_period: false, ..*old(self) }),
    {
        self.in_fair_launch_period = false;
    }

    /// Lists the token: records that the payment cap was reached at `now`,
    /// which closes the curve to trading.
    pub fn list_token(&mut self, now: i64)
        requires
            old(self).wf(),
        ensures
            final(self).wf(),
            *final(self) == (RadixMemeTokenCurve { target_reached: Some(now), ..*old(self) }),
    {
        self.target_reached = Some(now);
    }

    /// Hands out all collected trading fees.
    pub fn claim_all_fees(&mut self) -> (r: Bucket)
        requires
            old(self).wf(),
        ensures
            final(self).wf(),
            r.resource == old(self).payment_resource,
            r.amount == old(self).fee_vault,
            *final(self) == (RadixMemeTokenCurve { fee_vault: Dec { attos: 0 }, ..*old(self) }),
    {
        let out = Bucket::new(self.payment_resource, self.fee_vault);
        self.fee_vault = Dec::zero();
        out
    }

    /// `new` differs from this curve in its trading state alone: supply,
    /// vaults, price, phase, escrow, receipts and listing.
    pub open spec fn same_setup(&self, new: Self) -> bool {
        new == (RadixMemeTokenCurve {
            current_supply: new.current_supply,
            xrd_vault: new.xrd_vault,
            fee_vault: new.fee_vault,
            last_price: new.last_price,
            in_fair_launch_period: new.in_fair_launch_period,
            fair_launch_tokens: new.fair_launch_tokens,
            fair_launch_xrd: new.fair_launch_xrd,
            receipts: new.receipts,
            next_receipt_id: new.next_receipt_id,
            target_reached: new.target_reached,
            ..*self
        })
    }

    /// The net payment, fee and cap flag of a purchase paying `gross`.
    pub open spec fn buy_plan(&self, gross: int) -> Option<(int, int, bool)> {
        buy_split_spec(self.available(), gross, self.tx_fee_perc@)
    }

    /// How `tokens` newly minted for a net payment `net` reach the buyer at
    /// time `now`: directly, or in the fair launch into escrow against a
    /// new receipt for `net`.
    pub open spec fn minted_to(&self, new: Self, now: int, tokens: int, net: int, minted: Minted) -> bool {
        if self.fair_launch_at(now) {
            &&& minted matches Minted::Receipts(b)
            &&& b.resource == self.receipt_resource
            &&& if net > 0 || tokens > 0 {
                &&& b.ids@ == seq![self.next_receipt_id]
                &&& new.receipts@ == self.receipts@.push(
                    FairLaunchReceipt { id: self.next_receipt_id, xrd_amount: Dec { attos: net as i128 } },
                )
                &&& new.next_receipt_id == self.next_receipt_id + 1
                &&& new.fair_launch_tokens@ == self.fair_launch_tokens@ + tokens
                &&& new.fair_launch_xrd@ == self.fair_launch_xrd@ + net
            } else {
                &&& b.ids@.len() == 0
                &&& new.receipts == self.receipts && new.next_receipt_id == self.next_receipt_id
                &&& new.fair_launch_tokens == self.fair_launch_tokens
                &&& new.fair_launch_xrd == self.fair_launch_xrd
            }
        } else {
            &&& minted == Minted::Tokens(
                Bucket { resource: self.token_resource, amount: Dec { attos: tokens as i128 } },
            )
            &&& new.receipts == self.receipts && new.next_receipt_id == self.next_receipt_id
            &&& new.fair_launch_tokens == self.fair_launch_tokens
            &&& new.fair_launch_xrd == self.fair_launch_xrd
        }
    }

    /// A purchase paying `gross` at time `now` took this curve to `new`,
    /// handed out `minted` and gave back `change`.
    pub open spec fn bought(&self, new: Self, gross: int, now: int, minted: Minted, change: Bucket) -> bool {
        let (net, fee, capped) = self.buy_plan(gross).unwrap();
        let tokens = if net > 0 {
            tokens_received_spec(net, self.current_supply@, self.multiplier@).unwrap()
        } else {
            0
        };
        let spent = if net > 0 { net } else { 0 };
        &&& self.buy_plan(gross) is Some
        &&& net > 0 ==> tokens_received_spec(net, self.current_supply@, self.multiplier@) is Some
        &&& self.same_setup(new)
        &&& new.current_supply@ == self.current_supply@ + tokens
        &&& new.xrd_vault@ == self.xrd_vault@ + spent
        &&& new.fee_vault@ == self.fee_vault@ + fee
        &&& change.resource == self.payment_resource
        &&& change.amount@ == gross - fee - spent
        &&& price_spec(new.current_supply@, self.multiplier@) == Some(new.last_price@)
        &&& new.in_fair_launch_period == self.fair_launch_at(now)
        &&& new.target_reached == if capped || new.xrd_vault@ >= self.max_xrd@ {
            Some(now as i64)
        } else {
            None
        }
        &&& self.minted_to(new, now, tokens, net, minted)
    }

    /// Whether putting `tokens` bought for `net` into escrow at time `now`
    /// would pass the range of the amounts or run out of receipt ids.
    pub open spec fn escrow_overflows(&self, now: int, tokens: int, net: int) -> bool {
        &&& self.fair_launch_at(now)
        &&& net > 0 || tokens > 0
        &&& self.next_receipt_id == u64::MAX || !fits_dec(self.fair_launch_tokens@ + tokens)
            || !fits_dec(self.fair_launch_xrd@ + net)
    }

    /// Whether a purchase paying with `bucket` at time `now` goes through:
    /// the right asset, an open curve, a non-negative payment, tokens that
    /// stay within the tradable supply, and every amount within range.
    pub open spec fn buy_ok(&self, bucket: Bucket, now: int) -> bool {
        let gross = bucket.amount@;
        let (net, fee, capped) = self.buy_plan(gross).unwrap();
        let tokens = tokens_received_spec(net, self.current_supply@, self.multiplier@);
        let t = if net > 0 { tokens.unwrap() } else { 0 };
        &&& bucket.resource == self.payment_resource
        &&& !self.listed()
        &&& gross >= 0
        &&& self.buy_plan(gross) is Some
        &&& net > 0 ==> tokens is Some
        &&& 0 <= t && self.current_supply@ + t <= self.max_token_supply_to_trade@
        &&& fits_dec(self.fee_vault@ + fee)
        &&& net > 0 ==> price_spec(self.current_supply@ + t, self.multiplier@) is Some
        &&& !self.escrow_overflows(now, t, if net > 0 { net } else { 0 })
    }

    /// Whether a purchase of exactly `amount` tokens paying with `bucket` at
    /// time `now` goes through: the right asset, an open curve, amounts that
    /// are not negative, tokens within the tradable supply, a payment that
    /// covers the price and its fee, a payment held within the cap, and
    /// every amount within range.
    pub open spec fn buy_amount_ok(&self, amount: int, bucket: Bucket, now: int) -> bool {
        let req = buy_price_spec(amount, self.current_supply@, self.multiplier@);
        let fee = fee_spec(req.unwrap(), self.tx_fee_perc@);
        &&& bucket.resource == self.payment_resource
        &&& !self.listed()
        &&& amount >= 0
        &&& bucket.amount@ >= 0
        &&& self.current_supply@ + amount <= self.max_token_supply_to_trade@
        &&& amount > 0 ==> {
            &&& req is Some && req.unwrap() >= 0 && fee is Some
            &&& req.unwrap() + fee.unwrap() <= bucket.amount@
            &&& self.xrd_vault@ + req.unwrap() <= self.max_xrd@ + 1
            &&& fits_dec(self.xrd_vault@ + req.unwrap())
            &&& fits_dec(self.fee_vault@ + fee.unwrap())
            &&& price_spec(self.current_supply@ + amount, self.multiplier@) is Some
            &&& !self.escrow_overflows(now, amount, req.unwrap())
        }
    }

    /// Whether a sale of the tokens in `bucket` at time `now` goes through:
    /// the right asset, an open curve past its fair launch, no more tokens
    /// than are out, a payment the vault covers, and every amount within
    /// range.
    pub open spec fn sell_ok(&self, bucket: Bucket, now: int) -> bool {
        let n = bucket.amount@;
        let x = sell_price_spec(n, self.current_supply@, self.multiplier@);
        &&& bucket.resource == self.token_resource
        &&& !self.listed()
        &&& !self.fair_launch_at(now)
        &&& 0 <= n <= self.current_supply@
        &&& n > 0 ==> {
            &&& x is Some && 0 <= x.unwrap() <= self.xrd_vault@
            &&& fee_spec(x.unwrap(), self.tx_fee_perc@) is Some
            &&& fits_dec(self.fee_vault@ + fee_spec(x.unwrap(), self.tx_fee_perc@).unwrap())
            &&& price_spec(self.current_supply@ - n, self.multiplier@) is Some
        }
    }

    /// Whether a sale for a payment of `amount` from the tokens in `bucket`
    /// at time `now` goes through: the right asset, an open curve past its
    /// fair launch, amounts that are not negative, a payment and fee the
    /// vault covers, enough tokens sent and out, and every amount within
    /// range.
    pub open spec fn sell_for_ok(&self, amount: int, bucket: Bucket, now: int) -> bool {
        let f = fee_spec(amount, self.tx_fee_perc@);
        let t = tokens_to_sell_spec(amount + f.unwrap(), self.current_supply@, self.multiplier@);
        &&& bucket.resource == self.token_resource
        &&& !self.listed()
        &&& !self.fair_launch_at(now)
        &&& amount >= 0
        &&& bucket.amount@ >= 0
        &&& f is Some
        &&& amount + f.unwrap() <= self.xrd_vault@
        &&& amount > 0 ==> {
            &&& t is Some
            &&& t.unwrap() <= bucket.amount@
            &&& 0 <= t.unwrap() <= self.current_supply@
            &&& fits_dec(self.fee_vault@ + f.unwrap())
            &&& price_spec(self.current_supply@ - t.unwrap(), self.multiplier@) is Some
        }
    }

    /// Takes the tokens minted for a net payment `net` into account: in the
    /// fair launch into escrow against a new receipt, else to the buyer.
    fn hand_out(&mut self, fair: bool, tokens: Dec, net: Dec, now: i64) -> (r: Result<Minted, CurveError>)
        requires
            old(self).wf(),
            fair == old(self).fair_launch_at(now as int),
            0 <= tokens@,
        ensures
            r is Err ==> r == Err::<Minted, CurveError>(CurveError::Overflow) && *final(self) == *old(self),
            r is Err <==> old(self).escrow_overflows(now as int, tokens@, net@),
            r matches Ok(minted) ==> old(self).minted_to(*final(self), now as int, tokens@, net@, minted),
            r is Ok ==> *final(self) == (RadixMemeTokenCurve {
                receipts: final(self).receipts,
                next_receipt_id: final(self).next_receipt_id,
                fair_launch_tokens: final(self).fair_launch_tokens,
                fair_launch_xrd: final(self).fair_launch_xrd,
                ..*old(self)
            }),
            r is Ok ==> {
                &&& ids_distinct(final(self).receipts@)
                &&& ids_below(final(self).receipts@, final(self).next_receipt_id)
                &&& final(self).fair_launch_xrd@ == total_contributed(final(self).receipts@)
                &&& 0 <= final(self).fair_launch_tokens@
            },
    {
        if !fair {
            return Ok(Minted::Tokens(Bucket::new(self.token_resource, tokens)));
        }
        if !net.is_positive() && !tokens.is_positive() {
            return Ok(Minted::Receipts(ReceiptBucket { resource: self.receipt_resource, ids: Vec::new() }));
        }
        if self.next_receipt_id == u64::MAX {
            return Err(CurveError::Overflow);
        }
        let escrow = match self.fair_launch_tokens.checked_add(tokens) {
            Some(v) => v,
            None => return Err(CurveError::Overflow),
        };
        let outstanding = match self.fair_launch_xrd.checked_add(net) {
            Some(v) => v,
            None => return Err(CurveError::Overflow),
        };
        let id = self.next_receipt_id;
        let receipt = FairLaunchReceipt { id, xrd_amount: net };
        proof {
            lemma_total_push(self.receipts@, receipt);
        }
        self.receipts.push(receipt);
        self.next_receipt_id = id + 1;
        self.fair_launch_tokens = escrow;
        self.fair_launch_xrd = outstanding;
        let ids = vec![id];
        assert(ids@ =~= seq![id]);
        assert forall|i: int, j: int| 0 <= i < j < self.receipts@.len() implies self.receipts@[i].id
            != self.receipts@[j].id by {
            if j == self.receipts@.len() - 1 {
                assert(self.receipts@[i] == old(self).receipts@[i]);
            } else {
                assert(self.receipts@[i] == old(self).receipts@[i]);
                assert(self.receipts@[j] == old(self).receipts@[j]);
            }
        }
        assert forall|i: int| 0 <= i < self.receipts@.len() implies #[trigger] self.receipts@[i].id
            < self.next_receipt_id by {
            if i < self.receipts@.len() - 1 {
                assert(self.receipts@[i] == old(self).receipts@[i]);
            }
        }
        Ok(Minted::Receipts(ReceiptBucket { resource: self.receipt_resource, ids }))
    }

    /// Buys tokens with the payment in `in_bucket` at time `now`.
    ///
    /// A payment past the cap is cut to what fits and the rest comes back as
    /// change; the fee is taken out of the payment that is kept and goes to
    /// the fee vault, and the net payment buys tokens on the curve. In the
    /// fair launch the tokens go into escrow and the buyer gets a receipt for
    /// the net payment. A payment that reaches the cap lists the token.
    pub fn buy(&mut self, in_bucket: Bucket, now: i64) -> (r: Result<(Minted, Bucket), CurveError>)
        requires
            old(self).wf(),
        ensures
            final(self).wf(),
            r is Err ==> *final(self) == *old(self),
            in_bucket.resource != old(self).payment_resource ==> r == Err::<(Minted, Bucket), CurveError>(
                CurveError::InvalidAsset,
            ),
            in_bucket.resource == old(self).payment_resource && old(self).listed() ==> r == Err::<
                (Minted, Bucket),
                CurveError,
            >(CurveError::InvalidPhase),
            in_bucket.resource == old(self).payment_resource && !old(self).listed()
                && in_bucket.amount@ < 0 ==> r == Err::<(Minted, Bucket), CurveError>(
                CurveError::InsufficientFunds,
            ),
            r is Ok <==> old(self).buy_ok(in_bucket, now as int),
            r matches Ok((minted, change)) ==> old(self).bought(
                *final(self),
                in_bucket.amount@,
                now as int,
                minted,
                change,
            ),
            r == Err::<(Minted, Bucket), CurveError>(CurveError::InternalInvariantViolation) <==> {
                &&& in_bucket.resource == old(self).payment_resource && !old(self).listed()
                &&& in_bucket.amount@ >= 0
                &&& old(self).buy_plan(in_bucket.amount@) matches Some((net, fee, capped))
                &&& net > 0
                &&& tokens_received_spec(net, old(self).current_supply@, old(self).multiplier@) matches Some(t)
                &&& (t < 0 || old(self).current_supply@ + t > old(self).max_token_supply_to_trade@)
            },
    {
        if in_bucket.resource != self.payment_resource {
            return Err(CurveError::InvalidAsset);
        }
        if self.target_reached.is_some() {
            return Err(CurveError::InvalidPhase);
        }
        let gross = in_bucket.amount;
        if gross.attos < 0 {
            return Err(CurveError::InsufficientFunds);
        }
        let fair = self.fair_launch_active_at(now);
        let available = Dec::from_attos(self.max_xrd.attos - self.xrd_vault.attos);
        let rate = self.tx_fee_perc;
        let clipped = if gross.gt(available) { available } else { gross };
        proof {
            lemma_fee_within(clipped@, rate@);
        }
        let (net, fee) = match split(clipped, rate) {
            Some(v) => v,
            None => return Err(CurveError::Overflow),
        };
        let capped = gross.ge(available);
        assert(self.buy_plan(gross@) == Some((net@, fee@, capped)));
        let supply = self.current_supply;
        let mut tokens = Dec::zero();
        let mut spent = Dec::zero();
        if net.is_positive() {
            tokens = match calculate_tokens_received(net, supply, self.multiplier) {
                Some(t) => t,
                None => return Err(CurveError::Overflow),
            };
            if tokens.attos < 0 || tokens.attos > self.max_token_supply_to_trade.attos - supply.attos {
                return Err(CurveError::InternalInvariantViolation);
            }
            spent = net;
        }
        let fee_vault = match self.fee_vault.checked_add(fee) {
            Some(v) => v,
            None => return Err(CurveError::Overflow),
        };
        let new_supply = Dec::from_attos(supply.attos + tokens.attos);
        let price = if net.is_positive() {
            match calculate_price(new_supply, self.multiplier) {
                Some(p) => p,
                None => return Err(CurveError::Overflow),
            }
        } else {
            self.last_price
        };
        let new_vault = Dec::from_attos(self.xrd_vault.attos + spent.attos);
        let change = Bucket::new(self.payment_resource, Dec::from_attos(gross.attos - fee.attos - spent.attos));
        let minted = match self.hand_out(fair, tokens, spent, now) {
            Ok(m) => m,
            Err(e) => return Err(e),
        };
        if capped || new_vault.ge(self.max_xrd) {
            self.list_token(now);
        }
        self.current_supply = new_supply;
        self.xrd_vault = new_vault;
        self.fee_vault = fee_vault;
        self.last_price = price;
        self.in_fair_launch_period = fair;
        Ok((minted, change))
    }

    /// A purchase of exactly `amount` tokens, paying from `gross` at time
    /// `now`, took this curve to `new`, handed out `minted` and gave back
    /// `change`: the payment is the area under the curve over the new tokens,
    /// and the fee is charged on top of it.
    pub open spec fn bought_amount(
        &self,
        new: Self,
        amount: int,
        gross: int,
        now: int,
        minted: Minted,
        change: Bucket,
    ) -> bool {
        let required = buy_price_spec(amount, self.current_supply@, self.multiplier@).unwrap();
        let fee = fee_spec(required, self.tx_fee_perc@).unwrap();
        &&& self.same_setup(new)
        &&& new.in_fair_launch_period == self.fair_launch_at(now)
        &&& change.resource == self.payment_resource
        &&& if amount > 0 {
            &&& buy_price_spec(amount, self.current_supply@, self.multiplier@) is Some
            &&& fee_spec(required, self.tx_fee_perc@) is Some
            &&& new.current_supply@ == self.current_supply@ + amount
            &&& new.xrd_vault@ == self.xrd_vault@ + required
            &&& new.fee_vault@ == self.fee_vault@ + fee
            &&& change.amount@ == gross - required - fee
            &&& price_spec(new.current_supply@, self.multiplier@) == Some(new.last_price@)
            &&& new.target_reached == if new.xrd_vault@ >= self.max_xrd@ {
                Some(now as i64)
            } else {
                None
            }
            &&& self.minted_to(new, now, amount, required, minted)
        } else {
            &&& new.current_supply == self.current_supply && new.xrd_vault == self.xrd_vault
            &&& new.fee_vault == self.fee_vault && new.last_price == self.last_price
            &&& new.target_reached == self.target_reached
            &&& change.amount@ == gross
            &&& self.minted_to(new, now, 0, 0, minted)
        }
    }

    /// Buys exactly `amount` tokens at time `now`, paying from `in_bucket`
    /// the area under the curve over them plus the fee on that; the rest of
    /// the payment comes back as change. Refused when the tokens would pass
    /// the tradable supply, when the payment sent is short, or when the
    /// payment held would pass the cap by more than one atto, the rounding
    /// that separates the price of the last tokens from the cap; reaching
    /// the cap lists the token.
    pub fn buy_amount(&mut self, amount: Dec, in_bucket: Bucket, now: i64) -> (r: Result<
        (Minted, Bucket),
        CurveError,
    >)
        requires
            old(self).wf(),
        ensures
            final(self).wf(),
            r is Err ==> *final(self) == *old(self),
            in_bucket.resource != old(self).payment_resource ==> r == Err::<(Minted, Bucket), CurveError>(
                CurveError::InvalidAsset,
            ),
            in_bucket.resource == old(self).payment_resource && old(self).listed() ==> r == Err::<
                (Minted, Bucket),
                CurveError,
            >(CurveError::InvalidPhase),
            in_bucket.resource == old(self).payment_resource && !old(self).listed() && amount@ < 0
                ==> r == Err::<(Minted, Bucket), CurveError>(CurveError::InvalidParameter),
            in_bucket.resource == old(self).payment_resource && !old(self).listed() && amount@ >= 0
                && in_bucket.amount@ < 0 ==> r == Err::<(Minted, Bucket), CurveError>(
                CurveError::InsufficientFunds,
            ),
            in_bucket.resource == old(self).payment_resource && !old(self).listed() && amount@ >= 0
                && in_bucket.amount@ >= 0 && old(self).current_supply@ + amount@
                > old(self).max_token_supply_to_trade@ ==> r == Err::<(Minted, Bucket), CurveError>(
                CurveError::CapacityExceeded,
            ),
            r is Ok <==> old(self).buy_amount_ok(amount@, in_bucket, now as int),
            r matches Ok((minted, change)) ==> old(self).bought_amount(
                *final(self),
                amount@,
                in_bucket.amount@,
                now as int,
                minted,
                change,
            ),
            ({
                let required = buy_price_spec(
                    amount@,
                    old(self).current_supply@,
                    old(self).multiplier@,
                );
                in_bucket.resource == old(self).payment_resource && !old(self).listed() && amount@ > 0
                    && in_bucket.amount@ >= 0 && old(self).current_supply@ + amount@
                    <= old(self).max_token_supply_to_trade@ ==> (required matches Some(req) ==> (req
                    >= 0 ==> (fee_spec(req, old(self).tx_fee_perc@) matches Some(fee) ==> {
                    &&& req + fee > in_bucket.amount@ ==> r == Err::<(Minted, Bucket), CurveError>(
                        CurveError::InsufficientFunds,
                    )
                    &&& req + fee <= in_bucket.amount@ && old(self).xrd_vault@ + req
                        > old(self).max_xrd@ + 1 ==> r == Err::<(Minted, Bucket), CurveError>(
                        CurveError::CapacityExceeded,
                    )
                })))
            }),
    {
        if in_bucket.resource != self.payment_resource {
            return Err(CurveError::InvalidAsset);
        }
        if self.target_reached.is_some() {
            return Err(CurveError::InvalidPhase);
        }
        if amount.attos < 0 {
            return Err(CurveError::InvalidParameter);
        }
        let gross = in_bucket.amount;
        if gross.attos < 0 {
            return Err(CurveError::InsufficientFunds);
        }
        let supply = self.current_supply;
        if amount.attos > self.max_token_supply_to_trade.attos - supply.attos {
            return Err(CurveError::CapacityExceeded);
        }
        let fair = self.fair_launch_active_at(now);
        if !amount.is_positive() {
            let minted = match self.hand_out(fair, Dec::zero(), Dec::zero(), now) {
                Ok(m) => m,
                Err(e) => return Err(e),
            };
            self.in_fair_launch_period = fair;
            return Ok((minted, Bucket::new(self.payment_resource, gross)));
        }
        let required = match calculate_buy_price(amount, supply, self.multiplier) {
            Some(v) => v,
            None => return Err(CurveError::Overflow),
        };
        if required.attos < 0 {
            return Err(CurveError::InternalInvariantViolation);
        }
        proof {
            lemma_fee_within(required@, self.tx_fee_perc@);
        }
        let fee = match split(required, self.tx_fee_perc) {
            Some((_, f)) => f,
            None => return Err(CurveError::Overflow),
        };
        if required.attos > gross.attos - fee.attos {
            return Err(CurveError::InsufficientFunds);
        }
        if required.attos - 1 > self.max_xrd.attos - self.xrd_vault.attos {
            return Err(CurveError::CapacityExceeded);
        }
        let fee_vault = match self.fee_vault.checked_add(fee) {
            Some(v) => v,
            None => return Err(CurveError::Overflow),
        };
        let new_supply = Dec::from_attos(supply.attos + amount.attos);
        let price = match calculate_price(new_supply, self.multiplier) {
            Some(p) => p,
            None => return Err(CurveError::Overflow),
        };
        let new_vault = match self.xrd_vault.checked_add(required) {
            Some(v) => v,
            None => return Err(CurveError::Overflow),
        };
        let change = Bucket::new(self.payment_resource, Dec::from_attos(gross.attos - required.attos - fee.attos));
        let minted = match self.hand_out(fair, amount, required, now) {
            Ok(m) => m,
            Err(e) => return Err(e),
        };
        if new_vault.ge(self.max_xrd) {
            self.list_token(now);
        }
        self.current_supply = new_supply;
        self.xrd_vault = new_vault;
        self.fee_vault = fee_vault;
        self.last_price = price;
        self.in_fair_launch_period = fair;
        Ok((minted, change))
    }

    /// A sale of `n` tokens at time `now` took this curve to `new` and paid
    /// out `out`, with `rest` the tokens left over: the payment released is
    /// the area under the curve over the burnt tokens, less the fee on it.
    pub open spec fn sold(&self, new: Self, n: int, now: int, out: Bucket, rest: Bucket) -> bool {
        let receive = sell_price_spec(n, self.current_supply@, self.multiplier@).unwrap();
        let fee = fee_spec(receive, self.tx_fee_perc@).unwrap();
        &&& new == (RadixMemeTokenCurve {
            current_supply: new.current_supply,
            xrd_vault: new.xrd_vault,
            fee_vault: new.fee_vault,
            last_price: new.last_price,
            in_fair_launch_period: false,
            ..*self
        })
        &&& out.resource == self.payment_resource
        &&& rest == Bucket { resource: self.token_resource, amount: Dec { attos: 0 } }
        &&& if n > 0 {
            &&& sell_price_spec(n, self.current_supply@, self.multiplier@) is Some
            &&& fee_spec(receive, self.tx_fee_perc@) is Some
            &&& new.current_supply@ == self.current_supply@ - n
            &&& new.xrd_vault@ == self.xrd_vault@ - receive
            &&& new.fee_vault@ == self.fee_vault@ + fee
            &&& out.amount@ == receive - fee
            &&& price_spec(new.current_supply@, self.multiplier@) == Some(new.last_price@)
        } else {
            &&& new.current_supply == self.current_supply && new.xrd_vault == self.xrd_vault
            &&& new.fee_vault == self.fee_vault && new.last_price == self.last_price
            &&& out.amount@ == 0
        }
    }

    /// Sells all the tokens in `in_bucket` at time `now`: they are burnt and
    /// the area under the curve over them, less the fee, is paid out.
    /// Refused during the fair launch and once listed, and for more tokens
    /// than are out.
    pub fn sell(&mut self, in_bucket: Bucket, now: i64) -> (r: Result<(Bucket, Bucket), CurveError>)
        requires
            old(self).wf(),
        ensures
            final(self).wf(),
            r is Err ==> *final(self) == *old(self),
            in_bucket.resource != old(self).token_resource ==> r == Err::<(Bucket, Bucket), CurveError>(
                CurveError::InvalidAsset,
            ),
            in_bucket.resource == old(self).token_resource && (old(self).listed() || old(
                self,
            ).fair_launch_at(now as int)) ==> r == Err::<(Bucket, Bucket), CurveError>(
                CurveError::InvalidPhase,
            ),
            in_bucket.resource == old(self).token_resource && !old(self).listed() && !old(
                self,
            ).fair_launch_at(now as int) && in_bucket.amount@ < 0 ==> r == Err::<
                (Bucket, Bucket),
                CurveError,
            >(CurveError::InsufficientTokens),
            in_bucket.resource == old(self).token_resource && !old(self).listed() && !old(
                self,
            ).fair_launch_at(now as int) && in_bucket.amount@ > old(self).current_supply@ ==> r
                == Err::<(Bucket, Bucket), CurveError>(CurveError::CapacityExceeded),
            r is Ok <==> old(self).sell_ok(in_bucket, now as int),
            r matches Ok((out, rest)) ==> old(self).sold(
                *final(self),
                in_bucket.amount@,
                now as int,
                out,
                rest,
            ),
            r == Err::<(Bucket, Bucket), CurveError>(CurveError::InternalInvariantViolation) <==> {
                &&& in_bucket.resource == old(self).token_resource && !old(self).listed()
                &&& !old(self).fair_launch_at(now as int)
                &&& 0 < in_bucket.amount@ <= old(self).current_supply@
                &&& sell_price_spec(in_bucket.amount@, old(self).current_supply@, old(self).multiplier@) matches Some(x)
                &&& (x < 0 || x > old(self).xrd_vault@)
            },
    {
        if in_bucket.resource != self.token_resource {
            return Err(CurveError::InvalidAsset);
        }
        if self.target_reached.is_some() || self.fair_launch_active_at(now) {
            return Err(CurveError::InvalidPhase);
        }
        let n = in_bucket.amount;
        if n.attos < 0 {
            return Err(CurveError::InsufficientTokens);
        }
        let supply = self.current_supply;
        if n.gt(supply) {
            return Err(CurveError::CapacityExceeded);
        }
        let rest = Bucket::new(self.token_resource, Dec::zero());
        if !n.is_positive() {
            self.in_fair_launch_period = false;
            return Ok((Bucket::new(self.payment_resource, Dec::zero()), rest));
        }
        let receive = match calculate_sell_price(n, supply, self.multiplier) {
            Some(v) => v,
            None => return Err(CurveError::Overflow),
        };
        if receive.attos < 0 || receive.gt(self.xrd_vault) {
            return Err(CurveError::InternalInvariantViolation);
        }
        proof {
            lemma_fee_within(receive@, self.tx_fee_perc@);
        }
        let (paid, fee) = match split(receive, self.tx_fee_perc) {
            Some(v) => v,
            None => return Err(CurveError::Overflow),
        };
        let fee_vault = match self.fee_vault.checked_add(fee) {
            Some(v) => v,
            None => return Err(CurveError::Overflow),
        };
        let new_supply = Dec::from_attos(supply.attos - n.attos);
        let price = match calculate_price(new_supply, self.multiplier) {
            Some(p) => p,
            None => return Err(CurveError::Overflow),
        };
        self.current_supply = new_supply;
        self.xrd_vault = Dec::from_attos(self.xrd_vault.attos - receive.attos);
        self.fee_vault = fee_vault;
        self.last_price = price;
        self.in_fair_launch_period = false;
        Ok((Bucket::new(self.payment_resource, paid), rest))
    }

    /// A sale for a payment of `amount` at time `now`, burning from
    /// `tokens_sent`, took this curve to `new`, paid out `out` and gave back
    /// `rest`: the tokens burnt release `amount` plus the fee on it.
    pub open spec fn sold_for(
        &self,
        new: Self,
        amount: int,
        tokens_sent: int,
        now: int,
        out: Bucket,
        rest: Bucket,
    ) -> bool {
        let fee = fee_spec(amount, self.tx_fee_perc@).unwrap();
        let tokens = tokens_to_sell_spec(amount + fee, self.current_supply@, self.multiplier@).unwrap();
        &&& new == (RadixMemeTokenCurve {
            current_supply: new.current_supply,
            xrd_vault: new.xrd_vault,
            fee_vault: new.fee_vault,
            last_price: new.last_price,
            in_fair_launch_period: false,
            ..*self
        })
        &&& fee_spec(amount, self.tx_fee_perc@) is Some
        &&& out.resource == self.payment_resource
        &&& rest.resource == self.token_resource
        &&& if amount > 0 {
            &&& tokens_to_sell_spec(amount + fee, self.current_supply@, self.multiplier@) is Some
            &&& new.current_supply@ == self.current_supply@ - tokens
            &&& new.xrd_vault@ == self.xrd_vault@ - amount - fee
            &&& new.fee_vault@ == self.fee_vault@ + fee
            &&& out.amount@ == amount
            &&& rest.amount@ == tokens_sent - tokens
            &&& price_spec(new.current_supply@, self.multiplier@) == Some(new.last_price@)
        } else {
            &&& new.current_supply == self.current_supply && new.xrd_vault == self.xrd_vault
            &&& new.fee_vault == self.fee_vault && new.last_price == self.last_price
            &&& out.amount@ == 0
            &&& rest.amount@ == tokens_sent
        }
    }

    /// Sells tokens from `in_bucket` at time `now` for a payment of exactly
    /// `amount`: the tokens burnt are those that release `amount` plus the
    /// fee on it, and the rest of the bucket comes back. Refused during the
    /// fair launch and once listed, when the payment and its fee pass what
    /// the curve holds, and when the bucket holds too few tokens.
    pub fn sell_for_xrd_amount(&mut self, amount: Dec, in_bucket: Bucket, now: i64) -> (r: Result<
        (Bucket, Bucket),
        CurveError,
    >)
        requires
            old(self).wf(),
        ensures
            final(self).wf(),
            r is Err ==> *final(self) == *old(self),
            in_bucket.resource != old(self).token_resource ==> r == Err::<(Bucket, Bucket), CurveError>(
                CurveError::InvalidAsset,
            ),
            in_bucket.resource == old(self).token_resource && (old(self).listed() || old(
                self,
            ).fair_launch_at(now as int)) ==> r == Err::<(Bucket, Bucket), CurveError>(
                CurveError::InvalidPhase,
            ),
            in_bucket.resource == old(self).token_resource && !old(self).listed() && !old(
                self,
            ).fair_launch_at(now as int) && amount@ < 0 ==> r == Err::<(Bucket, Bucket), CurveError>(
                CurveError::InvalidParameter,
            ),
            in_bucket.resource == old(self).token_resource && !old(self).listed() && !old(
                self,
            ).fair_launch_at(now as int) && amount@ >= 0 && in_bucket.amount@ < 0 ==> r == Err::<
                (Bucket, Bucket),
                CurveError,
            >(CurveError::InsufficientTokens),
            ({
                let fee = fee_spec(amount@, old(self).tx_fee_perc@);
                in_bucket.resource == old(self).token_resource && !old(self).listed() && !old(
                    self,
                ).fair_launch_at(now as int) && amount@ >= 0 && in_bucket.amount@ >= 0 ==> (
                fee matches Some(f) ==> {
                    &&& amount@ + f > old(self).xrd_vault@ ==> r == Err::<
                        (Bucket, Bucket),
                        CurveError,
                    >(CurveError::CapacityExceeded)
                    &&& amount@ + f <= old(self).xrd_vault@ && amount@ > 0 ==> (tokens_to_sell_spec(
                        amount@ + f,
                        old(self).current_supply@,
                        old(self).multiplier@,
                    ) matches Some(t) ==> (t > in_bucket.amount@ ==> r == Err::<
                        (Bucket, Bucket),
                        CurveError,
                    >(CurveError::InsufficientTokens)))
                    &&& amount@ + f <= old(self).xrd_vault@ && amount@ > 0 ==> (tokens_to_sell_spec(
                        amount@ + f,
                        old(self).current_supply@,
                        old(self).multiplier@,
                    ) matches Some(t) ==> (t <= in_bucket.amount@ && t > old(self).current_supply@
                        ==> r == Err::<(Bucket, Bucket), CurveError>(CurveError::CapacityExceeded)))
                    &&& amount@ + f <= old(self).xrd_vault@ && amount@ > 0 && burn_exceeds_spec(
                        amount@ + f,
                        old(self).current_supply@,
                        old(self).multiplier@,
                    ) ==> r == Err::<(Bucket, Bucket), CurveError>(CurveError::CapacityExceeded)
                })
            }),
            r is Ok <==> old(self).sell_for_ok(amount@, in_bucket, now as int),
            r matches Ok((out, rest)) ==> old(self).sold_for(
                *final(self),
                amount@,
                in_bucket.amount@,
                now as int,
                out,
                rest,
            ),
    {
        if in_bucket.resource != self.token_resource {
            return Err(CurveError::InvalidAsset);
        }
        if self.target_reached.is_some() || self.fair_launch_active_at(now) {
            return Err(CurveError::InvalidPhase);
        }
        if amount.attos < 0 {
            return Err(CurveError::InvalidParameter);
        }
        let sent = in_bucket.amount;
        if sent.attos < 0 {
            return Err(CurveError::InsufficientTokens);
        }
        proof {
            lemma_fee_within(amount@, self.tx_fee_perc@);
        }
        let fee = match split(amount, self.tx_fee_perc) {
            Some((_, f)) => f,
            None => return Err(CurveError::Overflow),
        };
        if amount.attos > self.xrd_vault.attos - fee.attos {
            return Err(CurveError::CapacityExceeded);
        }
        if !amount.is_positive() {
            self.in_fair_launch_period = false;
            return Ok((
                Bucket::new(self.payment_resource, Dec::zero()),
                Bucket::new(self.token_resource, sent),
            ));
        }
        let supply = self.current_supply;
        let gross = Dec::from_attos(amount.attos + fee.attos);
        let tokens = match calculate_tokens_to_sell(gross, supply, self.multiplier) {
            Ok(t) => t,
            Err(e) => return Err(e),
        };
        if tokens.gt(sent) {
            return Err(CurveError::InsufficientTokens);
        }
        if tokens.gt(supply) {
            return Err(CurveError::CapacityExceeded);
        }
        if tokens.attos < 0 {
            return Err(CurveError::InternalInvariantViolation);
        }
        let fee_vault = match self.fee_vault.checked_add(fee) {
            Some(v) => v,
            None => return Err(CurveError::Overflow),
        };
        let new_supply = Dec::from_attos(supply.attos - tokens.attos);
        let price = match calculate_price(new_supply, self.multiplier) {
            Some(p) => p,
            None => return Err(CurveError::Overflow),
        };
        self.current_supply = new_supply;
        self.xrd_vault = Dec::from_attos(self.xrd_vault.attos - gross.attos);
        self.fee_vault = fee_vault;
        self.last_price = price;
        self.in_fair_launch_period = false;
        Ok((
            Bucket::new(self.payment_resource, amount),
            Bucket::new(self.token_resource, Dec::from_attos(sent.attos - tokens.attos)),
        ))
    }

    /// Redeems fair-launch receipts at time `now`, once the fair launch is
    /// over. Each receipt in turn claims the escrow times its contribution
    /// over the contributions still outstanding, capped at the escrow left,
    /// and is then void. Refused for receipts of another asset, receipts
    /// unknown to the curve or named twice, and before the fair launch ends.
    pub fn claim_fair_launch_tokens(&mut self, receipts: ReceiptBucket, now: i64) -> (r: Result<
        Bucket,
        CurveError,
    >)
        requires
            old(self).wf(),
        ensures
            final(self).wf(),
            r is Err ==> *final(self) == *old(self),
            old(self).fair_launch_at(now as int) ==> r == Err::<Bucket, CurveError>(
                CurveError::PhaseNotEnded,
            ),
            !old(self).fair_launch_at(now as int) && receipts.resource != old(self).receipt_resource
                ==> r == Err::<Bucket, CurveError>(CurveError::UnknownOrForeignReceipt),
            r matches Ok(b) ==> b.amount@ + final(self).fair_launch_tokens@ == old(
                self,
            ).fair_launch_tokens@ && final(self).fair_launch_tokens@ >= 0,
            !old(self).fair_launch_at(now as int) && receipts.resource == old(self).receipt_resource
                ==> match redeem_spec(
                old(self).receipts@,
                old(self).fair_launch_tokens@,
                old(self).fair_launch_xrd@,
                receipts.ids@,
            ) {
                Ok((t, e, o, rs)) => {
                    &&& r == Ok::<Bucket, CurveError>(
                        Bucket { resource: old(self).token_resource, amount: Dec { attos: t as i128 } },
                    )
                    &&& final(self).fair_launch_tokens@ == e
                    &&& final(self).fair_launch_xrd@ == o
                    &&& final(self).receipts@ == rs
                    &&& *final(self) == (RadixMemeTokenCurve {
                        fair_launch_tokens: final(self).fair_launch_tokens,
                        fair_launch_xrd: final(self).fair_launch_xrd,
                        receipts: final(self).receipts,
                        in_fair_launch_period: false,
                        ..*old(self)
                    })
                },
                Err(err) => r == Err::<Bucket, CurveError>(err),
            },
    {
        if self.fair_launch_active_at(now) {
            return Err(CurveError::PhaseNotEnded);
        }
        if receipts.resource != self.receipt_resource {
            return Err(CurveError::UnknownOrForeignReceipt);
        }
        let ghost before = self.receipts@;
        let mut left = copy_receipts(&self.receipts);
        match redeem_receipts(&mut left, self.fair_launch_tokens, self.fair_launch_xrd, &receipts.ids) {
            Ok((total, escrow, outstanding)) => {
                proof {
                    lemma_redeem_keeps(
                        before,
                        old(self).fair_launch_tokens@,
                        old(self).fair_launch_xrd@,
                        receipts.ids@,
                        self.next_receipt_id,
                    );
                }
                self.receipts = left;
                self.fair_launch_tokens = escrow;
                self.fair_launch_xrd = outstanding;
                self.in_fair_launch_period = false;
                Ok(Bucket::new(self.token_resource, total))
            },
            Err(e) => Err(e),
        }
    }
}

} // verus!
