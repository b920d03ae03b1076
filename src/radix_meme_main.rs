//! The launcher: it holds the default parameters, creates a curve for each
//! new token and keeps the fees that are paid over to it.

use crate::bucket::{AssetId, Bucket};
use crate::decimal::{fits_dec, Dec};
use crate::error::CurveError;
use crate::launch_parameters::{change_parameters, updates_spec, LaunchParameters};
use crate::fees::valid_rate;
use crate::radix_meme_token_curve::{creation_ok, RadixMemeTokenCurve};
use vstd::prelude::*;

verus! {

/// The launcher of fair-launch bonding curves.
pub struct RadixMemeMain {
    /// The asset that pays for tokens and fees.
    pub payment_resource: AssetId,
    /// The parameters of each new curve.
    pub params: LaunchParameters,
    /// The length of each new curve's fair launch, in minutes.
    pub fair_launch_period_mins: u32,
    /// The tokens launched, in order.
    pub tokens: Vec<AssetId>,
    /// The fees paid over to the launcher.
    pub fees_vault: Dec,
    /// The identity the next new asset gets.
    pub next_asset_id: u64,
}

impl RadixMemeMain {
    /// The launcher's fee vault never holds a negative amount.
    pub open spec fn wf(&self) -> bool {
        self.fees_vault@ >= 0
    }

    /// Creates a launcher with the given defaults, no tokens and no fees.
    /// New assets get identities after the payment asset's.
    pub fn new(
        max_token_supply: Dec,
        max_token_supply_to_trade: Dec,
        max_xrd_market_cap: Dec,
        tx_fee_perc: Dec,
        listing_fee_perc: Dec,
        creator_fee_perc: Dec,
        fair_launch_period_mins: u32,
        payment_resource: AssetId,
    ) -> (r: RadixMemeMain)
        ensures
            r.wf(),
            r.payment_resource == payment_resource,
            r.params == (LaunchParameters {
                max_token_supply,
                max_token_supply_to_trade,
                max_xrd_market_cap,
                tx_fee_perc,
                listing_fee_perc,
                creator_fee_perc,
            }),
            r.fair_launch_period_mins == fair_launch_period_mins,
            r.tokens@.len() == 0,
            r.fees_vault@ == 0,
            r.next_asset_id as int == (payment_resource.id as int + 1) % 0x1_0000_0000_0000_0000,
    {
        RadixMemeMain {
            payment_resource,
            params: LaunchParameters {
                max_token_supply,
                max_token_supply_to_trade,
                max_xrd_market_cap,
                tx_fee_perc,
                listing_fee_perc,
                creator_fee_perc,
            },
            fair_launch_period_mins,
            tokens: Vec::new(),
            fees_vault: Dec::zero(),
            next_asset_id: if payment_resource.id < u64::MAX { payment_resource.id + 1 } else { 0 },
        }
    }

    /// Launches a token at time `now`: a new curve built from the defaults,
    /// with a new token asset and a new receipt asset.
    pub fn new_token_curve_simple(&mut self, now: i64) -> (r: Result<RadixMemeTokenCurve, CurveError>)
        requires
            old(self).wf(),
        ensures
            final(self).wf(),
            r is Err ==> *final(self) == *old(self),
            old(self).next_asset_id >= u64::MAX - 1 ==> r == Err::<RadixMemeTokenCurve, CurveError>(
                CurveError::Overflow,
            ),
            old(self).next_asset_id < u64::MAX - 1 && !(valid_rate(old(self).params.tx_fee_perc@)
                && valid_rate(old(self).params.listing_fee_perc@) && valid_rate(
                old(self).params.creator_fee_perc@,
            ) && old(self).params.max_token_supply_to_trade@ > 0
                && old(self).params.max_xrd_market_cap@ >= 0) ==> r == Err::<
                RadixMemeTokenCurve,
                CurveError,
            >(CurveError::InvalidParameter),
            r is Ok <==> old(self).next_asset_id < u64::MAX - 1 && creation_ok(
                old(self).params.tx_fee_perc@,
                old(self).params.listing_fee_perc@,
                old(self).params.creator_fee_perc@,
                old(self).params.max_token_supply_to_trade@,
                old(self).params.max_xrd_market_cap@,
            ),
            r matches Ok(c) ==> {
                let token = AssetId { id: old(self).next_asset_id };
                &&& c.wf()
                &&& c.token_resource == token
                &&& c.receipt_resource == (AssetId { id: (old(self).next_asset_id + 1) as u64 })
                &&& c.payment_resource == old(self).payment_resource
                &&& c.max_token_supply == old(self).params.max_token_supply
                &&& c.max_token_supply_to_trade == old(self).params.max_token_supply_to_trade
                &&& c.max_xrd_market_cap == old(self).params.max_xrd_market_cap
                &&& c.tx_fee_perc == old(self).params.tx_fee_perc
                &&& c.listing_fee_perc == old(self).params.listing_fee_perc
                &&& c.creator_fee_perc == old(self).params.creator_fee_perc
                &&& c.fair_launch_period_mins == old(self).fair_launch_period_mins
                &&& c.in_fair_launch_period == (old(self).fair_launch_period_mins > 0)
                &&& c.time_created == now
                &&& c.current_supply@ == 0 && c.xrd_vault@ == 0 && c.target_reached is None
                &&& final(self).tokens@ == old(self).tokens@.push(token)
                &&& final(self).next_asset_id == old(self).next_asset_id + 2
                &&& final(self).params == old(self).params
                &&& final(self).fees_vault == old(self).fees_vault
                &&& final(self).payment_resource == old(self).payment_resource
                &&& final(self).fair_launch_period_mins == old(self).fair_launch_period_mins
            },
    {
        if self.next_asset_id >= u64::MAX - 1 {
            return Err(CurveError::Overflow);
        }
        let token = AssetId { id: self.next_asset_id };
        let receipt = AssetId { id: self.next_asset_id + 1 };
        let p = self.params;
        let curve = match RadixMemeTokenCurve::new(
            p.max_token_supply,
            p.max_token_supply_to_trade,
            p.max_xrd_market_cap,
            p.tx_fee_perc,
            p.listing_fee_perc,
            p.creator_fee_perc,
            self.fair_launch_period_mins,
            now,
            self.payment_resource,
            token,
            receipt,
        ) {
            Ok(c) => c,
            Err(e) => return Err(e),
        };
        self.tokens.push(token);
        self.next_asset_id = self.next_asset_id + 2;
        Ok(curve)
    }

    /// Sets the named default parameters, each to the decimal written beside
    /// it: all of them, or on the first unknown name, unreadable value or fee
    /// outside `[0, 1)`, none.
    pub fn change_default_parameters(&mut self, param_values: Vec<(String, String)>) -> (r: Result<
        (),
        CurveError,
    >)
        requires
            old(self).wf(),
        ensures
            final(self).wf(),
            match updates_spec(old(self).params, param_values@, true) {
                Ok(q) => r is Ok && *final(self) == (RadixMemeMain { params: q, ..*old(self) }),
                Err(e) => r == Err::<(), CurveError>(e) && *final(self) == *old(self),
            },
    {
        change_parameters(&mut self.params, &param_values, true)
    }

    /// Hands out `amount` of the fees held.
    pub fn claim_fee_amount(&mut self, amount: Dec) -> (r: Result<Bucket, CurveError>)
        requires
            old(self).wf(),
        ensures
            final(self).wf(),
            amount@ < 0 ==> r == Err::<Bucket, CurveError>(CurveError::InvalidParameter),
            0 <= amount@ && amount@ > old(self).fees_vault@ ==> r == Err::<Bucket, CurveError>(
                CurveError::InsufficientFunds,
            ),
            r is Err ==> *final(self) == *old(self),
            0 <= amount@ <= old(self).fees_vault@ ==> {
                &&& r == Ok::<Bucket, CurveError>(
                    Bucket { resource: old(self).payment_resource, amount },
                )
                &&& final(self).fees_vault@ == old(self).fees_vault@ - amount@
                &&& *final(self) == (RadixMemeMain { fees_vault: final(self).fees_vault, ..*old(self) })
            },
    {
        if amount.attos < 0 {
            return Err(CurveError::InvalidParameter);
        }
        if amount.gt(self.fees_vault) {
            return Err(CurveError::InsufficientFunds);
        }
        self.fees_vault = Dec::from_attos(self.fees_vault.attos - amount.attos);
        Ok(Bucket::new(self.payment_resource, amount))
    }

    /// Hands out all the fees held.
    pub fn claim_all_fees(&mut self) -> (r: Bucket)
        requires
            old(self).wf(),
        ensures
            final(self).wf(),
            r == (Bucket { resource: old(self).payment_resource, amount: old(self).fees_vault }),
            *final(self) == (RadixMemeMain { fees_vault: Dec { attos: 0 }, ..*old(self) }),
    {
        let out = Bucket::new(self.payment_resource, self.fees_vault);
        self.fees_vault = Dec::zero();
        out
    }

    /// Takes fees paid over in `in_bucket` into the fee vault.
    pub fn transfer_fees(&mut self, in_bucket: Bucket) -> (r: Result<(), CurveError>)
        requires
            old(self).wf(),
        ensures
            final(self).wf(),
            r is Err ==> *final(self) == *old(self),
            in_bucket.resource != old(self).payment_resource ==> r == Err::<(), CurveError>(
                CurveError::InvalidAsset,
            ),
            in_bucket.resource == old(self).payment_resource && in_bucket.amount@ < 0 ==> r == Err::<
                (),
                CurveError,
            >(CurveError::InvalidParameter),
            r is Ok ==> final(self).fees_vault@ == old(self).fees_vault@ + in_bucket.amount@
                && *final(self) == (RadixMemeMain { fees_vault: final(self).fees_vault, ..*old(self) }),
            in_bucket.resource == old(self).payment_resource && in_bucket.amount@ >= 0 ==> (r is Ok
                <==> fits_dec(old(self).fees_vault@ + in_bucket.amount@)),
    {
        if in_bucket.resource != self.payment_resource {
            return Err(CurveError::InvalidAsset);
        }
        if in_bucket.amount.attos < 0 {
            return Err(CurveError::InvalidParameter);
        }
        match self.fees_vault.checked_add(in_bucket.amount) {
            Some(v) => {
                self.fees_vault = v;
                Ok(())
            },
            None => Err(CurveError::Overflow),
        }
    }
}

} // verus!
