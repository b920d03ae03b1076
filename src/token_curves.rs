//! The launcher of plain bonding curves: it holds the default parameters
//! and creates a curve for each new token.

use crate::bucket::AssetId;
use crate::curve_math::{calculate_max_xrd, calculate_multiplier, max_xrd_spec, multiplier_spec};
use crate::decimal::Dec;
use crate::error::CurveError;
use crate::launch_parameters::{change_parameters, updates_spec, LaunchParameters};
use crate::token_curve::TokenCurve;
use vstd::prelude::*;

verus! {

/// The launcher of plain bonding curves.
pub struct TokenCurves {
    /// The asset that pays for tokens.
    pub payment_resource: AssetId,
    /// The parameters of each new curve; the creator's fee is not used.
    pub params: LaunchParameters,
    /// The tokens launched, in order.
    pub tokens: Vec<AssetId>,
    /// The identity the next new asset gets.
    pub next_asset_id: u64,
}

impl TokenCurves {
    /// Creates a launcher with the given defaults and no tokens. New assets
    /// get identities after the payment asset's.
    pub fn new(
        max_token_supply: Dec,
        max_token_supply_to_trade: Dec,
        max_xrd_market_cap: Dec,
        tx_fee_perc: Dec,
        listing_fee_perc: Dec,
        payment_resource: AssetId,
    ) -> (r: TokenCurves)
        ensures
            r.payment_resource == payment_resource,
            r.params == (LaunchParameters {
                max_token_supply,
                max_token_supply_to_trade,
                max_xrd_market_cap,
                tx_fee_perc,
                listing_fee_perc,
                creator_fee_perc: Dec { attos: 0 },
            }),
            r.tokens@.len() == 0,
            r.next_asset_id as int == (payment_resource.id as int + 1) % 0x1_0000_0000_0000_0000,
    {
        TokenCurves {
            payment_resource,
            params: LaunchParameters {
                max_token_supply,
                max_token_supply_to_trade,
                max_xrd_market_cap,
                tx_fee_perc,
                listing_fee_perc,
                creator_fee_perc: Dec::zero(),
            },
            tokens: Vec::new(),
            next_asset_id: if payment_resource.id < u64::MAX { payment_resource.id + 1 } else { 0 },
        }
    }

    /// Launches a token: a new plain curve whose slope makes it raise the
    /// default market cap by the time the default tradable supply is out, and
    /// whose payment cap is what that supply brings in.
    pub fn new_token_curve_simple(&mut self) -> (r: Result<TokenCurve, CurveError>)
        ensures
            r is Err ==> *final(self) == *old(self),
            old(self).next_asset_id == u64::MAX ==> r == Err::<TokenCurve, CurveError>(
                CurveError::Overflow,
            ),
            old(self).next_asset_id < u64::MAX && old(self).params.max_token_supply_to_trade@ < 0
                ==> r == Err::<TokenCurve, CurveError>(CurveError::InvalidParameter),
            r is Ok <==> ({
                let m = multiplier_spec(
                    old(self).params.max_xrd_market_cap@,
                    old(self).params.max_token_supply_to_trade@,
                );
                let x = max_xrd_spec(m.unwrap(), old(self).params.max_token_supply_to_trade@);
                &&& old(self).next_asset_id < u64::MAX
                &&& old(self).params.max_token_supply_to_trade@ >= 0
                &&& m is Some
                &&& x is Some && x.unwrap() >= 0
            }),
            r matches Ok(c) ==> {
                let token = AssetId { id: old(self).next_asset_id };
                &&& c.wf()
                &&& multiplier_spec(
                    old(self).params.max_xrd_market_cap@,
                    old(self).params.max_token_supply_to_trade@,
                ) == Some(c.multiplier@)
                &&& max_xrd_spec(c.multiplier@, old(self).params.max_token_supply_to_trade@) == Some(
                    c.max_xrd@,
                )
                &&& c.max_supply == old(self).params.max_token_supply_to_trade
                &&& c.current_supply@ == 0 && c.xrd_vault@ == 0 && c.last_price@ == 0
                &&& c.token_resource == token
                &&& c.payment_resource == old(self).payment_resource
                &&& final(self).tokens@ == old(self).tokens@.push(token)
                &&& final(self).next_asset_id == old(self).next_asset_id + 1
                &&& final(self).params == old(self).params
                &&& final(self).payment_resource == old(self).payment_resource
            },
    {
        if self.next_asset_id == u64::MAX {
            return Err(CurveError::Overflow);
        }
        let p = self.params;
        if p.max_token_supply_to_trade.attos < 0 {
            return Err(CurveError::InvalidParameter);
        }
        let multiplier = match calculate_multiplier(p.max_xrd_market_cap, p.max_token_supply_to_trade) {
            Some(m) => m,
            None => return Err(CurveError::Overflow),
        };
        let max_xrd = match calculate_max_xrd(multiplier, p.max_token_supply_to_trade) {
            Some(x) => x,
            None => return Err(CurveError::Overflow),
        };
        let token = AssetId { id: self.next_asset_id };
        let curve = match TokenCurve::new(
            p.max_token_supply_to_trade,
            max_xrd,
            multiplier,
            self.payment_resource,
            token,
        ) {
            Ok(c) => c,
            Err(e) => return Err(e),
        };
        self.tokens.push(token);
        self.next_asset_id = self.next_asset_id + 1;
        Ok(curve)
    }

    /// Sets the named default parameters, each to the decimal written beside
    /// it: all of them, or on the first unknown name, unreadable value or fee
    /// outside `[0, 1)`, none.
    pub fn change_default_parameters(&mut self, param_values: Vec<(String, String)>) -> (r: Result<
        (),
        CurveError,
    >)
        ensures
            match updates_spec(old(self).params, param_values@, false) {
                Ok(q) => r is Ok && *final(self) == (TokenCurves { params: q, ..*old(self) }),
                Err(e) => r == Err::<(), CurveError>(e) && *final(self) == *old(self),
            },
    {
        change_parameters(&mut self.params, &param_values, false)
    }
}

} // verus!
