//! Oracle value conversion and the parametric fee formulas, together with
//! the collateralization-threshold predicate they feed. A fee is the rate
//! times the amount, rounded to the nearest unit; oracle conversion rounds
//! down.

use vstd::prelude::*;
use crate::bridge::Bridge;
use crate::errors::Error;
use crate::fixed_point::{FIXED_POINT_HALF, UnsignedFixedPoint};
use crate::types::Amount;

verus! {

impl Bridge {
    /// DOT value of a BTC amount at the current oracle rate, rounded down.
    pub open spec fn spec_value_of(self, btc: int) -> int {
        self.exchange_rate.spec_mul_floor_i(btc)
    }

    /// Collateral a position of `btc` tokens needs at threshold `t`.
    pub open spec fn spec_required_collateral(self, t: UnsignedFixedPoint, btc: int) -> int {
        t.spec_mul_round_i(self.spec_value_of(btc))
    }

    pub open spec fn spec_below_threshold(self, collateral: int, btc: int, t: UnsignedFixedPoint)
        -> bool {
        collateral < self.spec_required_collateral(t, btc)
    }

    /// Whether the two scaled products in the threshold computation fit.
    pub open spec fn threshold_computable(self, t: UnsignedFixedPoint, btc: int) -> bool {
        &&& self.exchange_rate.inner * btc <= u128::MAX
        &&& t.inner * self.spec_value_of(btc) + FIXED_POINT_HALF <= u128::MAX
    }

    /// Converts a backing-chain amount into DOT at the current rate.
    pub fn btc_to_dots(&self, amount: Amount) -> (r: Result<Amount, Error>)
        ensures
            match r {
                Ok(v) => self.exchange_rate.inner * amount <= u128::MAX
                    && v == self.spec_value_of(amount as int),
                Err(e) => e == Error::ArithmeticOverflow
                    && self.exchange_rate.inner * amount > u128::MAX,
            },
    {
        self.exchange_rate.mul_floor(amount)
    }

    /// Whether `collateral` backing a position of `btc_amount` tokens is
    /// below threshold `t`.
    pub fn is_collateral_below_threshold(
        &self,
        collateral: Amount,
        btc_amount: Amount,
        t: UnsignedFixedPoint,
    ) -> (r: Result<bool, Error>)
        ensures
            match r {
                Ok(b) => self.threshold_computable(t, btc_amount as int)
                    && b == self.spec_below_threshold(collateral as int, btc_amount as int, t),
                Err(e) => e == Error::ArithmeticOverflow
                    && !self.threshold_computable(t, btc_amount as int),
            },
    {
        let value = self.exchange_rate.mul_floor(btc_amount)?;
        let required = t.mul_round(value)?;
        Ok(collateral < required)
    }

    /// Whether `collateral` would be below the secure threshold for a
    /// position of `btc_amount` tokens.
    pub fn is_collateral_below_secure_threshold(
        &self,
        collateral: Amount,
        btc_amount: Amount,
    ) -> (r: Result<bool, Error>)
        ensures
            match r {
                Ok(b) => self.threshold_computable(
                    self.params.secure_collateral_threshold,
                    btc_amount as int,
                ) && b == self.spec_below_threshold(
                    collateral as int,
                    btc_amount as int,
                    self.params.secure_collateral_threshold,
                ),
                Err(e) => e == Error::ArithmeticOverflow && !self.threshold_computable(
                    self.params.secure_collateral_threshold,
                    btc_amount as int,
                ),
            },
    {
        self.is_collateral_below_threshold(collateral, btc_amount,
            self.params.secure_collateral_threshold)
    }

    /// Collateral needed at the secure threshold to back `amount_btc`
    /// tokens.
    pub fn get_required_collateral_for_polkabtc(&self, amount_btc: Amount) -> (r: Result<
        Amount,
        Error,
    >)
        ensures
            match r {
                Ok(v) => self.threshold_computable(
                    self.params.secure_collateral_threshold,
                    amount_btc as int,
                ) && v == self.spec_required_collateral(
                    self.params.secure_collateral_threshold,
                    amount_btc as int,
                ),
                Err(e) => e == Error::ArithmeticOverflow && !self.threshold_computable(
                    self.params.secure_collateral_threshold,
                    amount_btc as int,
                ),
            },
    {
        let value = self.exchange_rate.mul_floor(amount_btc)?;
        self.params.secure_collateral_threshold.mul_round(value)
    }

    pub fn is_over_minimum_collateral(&self, collateral: Amount) -> (r: bool)
        ensures
            r == (collateral > self.params.minimum_collateral_vault),
    {
        collateral > self.params.minimum_collateral_vault
    }

    // ----- fee formulas ---------------------------------------------------

    pub fn get_issue_fee(&self, amount: Amount) -> (r: Result<Amount, Error>)
        ensures
            match r {
                Ok(v) => self.params.issue_fee.inner * amount + FIXED_POINT_HALF <= u128::MAX
                    && v == self.params.issue_fee.spec_mul_round(amount),
                Err(e) => e == Error::ArithmeticOverflow
                    && self.params.issue_fee.inner * amount + FIXED_POINT_HALF > u128::MAX,
            },
    {
        self.params.issue_fee.mul_round(amount)
    }

    pub fn get_issue_griefing_collateral(&self, amount_dot: Amount) -> (r: Result<Amount, Error>)
        ensures
            match r {
                Ok(v) => self.params.issue_griefing_collateral.inner * amount_dot
                    + FIXED_POINT_HALF <= u128::MAX
                    && v == self.params.issue_griefing_collateral.spec_mul_round(amount_dot),
                Err(e) => e == Error::ArithmeticOverflow
                    && self.params.issue_griefing_collateral.inner * amount_dot
                        + FIXED_POINT_HALF > u128::MAX,
            },
    {
        self.params.issue_griefing_collateral.mul_round(amount_dot)
    }

    pub fn get_redeem_fee(&self, amount: Amount) -> (r: Result<Amount, Error>)
        ensures
            match r {
                Ok(v) => self.params.redeem_fee.inner * amount + FIXED_POINT_HALF <= u128::MAX
                    && v == self.params.redeem_fee.spec_mul_round(amount),
                Err(e) => e == Error::ArithmeticOverflow
                    && self.params.redeem_fee.inner * amount + FIXED_POINT_HALF > u128::MAX,
            },
    {
        self.params.redeem_fee.mul_round(amount)
    }

    pub fn get_premium_redeem_fee(&self, amount_dot: Amount) -> (r: Result<Amount, Error>)
        ensures
            match r {
                Ok(v) => self.params.premium_redeem_fee.inner * amount_dot + FIXED_POINT_HALF
                    <= u128::MAX
                    && v == self.params.premium_redeem_fee.spec_mul_round(amount_dot),
                Err(e) => e == Error::ArithmeticOverflow
                    && self.params.premium_redeem_fee.inner * amount_dot + FIXED_POINT_HALF
                        > u128::MAX,
            },
    {
        self.params.premium_redeem_fee.mul_round(amount_dot)
    }

    pub fn get_auction_redeem_fee(&self, amount_dot: Amount) -> (r: Result<Amount, Error>)
        ensures
            match r {
                Ok(v) => self.params.auction_redeem_fee.inner * amount_dot + FIXED_POINT_HALF
                    <= u128::MAX
                    && v == self.params.auction_redeem_fee.spec_mul_round(amount_dot),
                Err(e) => e == Error::ArithmeticOverflow
                    && self.params.auction_redeem_fee.inner * amount_dot + FIXED_POINT_HALF
                        > u128::MAX,
            },
    {
        self.params.auction_redeem_fee.mul_round(amount_dot)
    }

    pub fn get_punishment_fee(&self, amount_dot: Amount) -> (r: Result<Amount, Error>)
        ensures
            match r {
                Ok(v) => self.params.punishment_fee.inner * amount_dot + FIXED_POINT_HALF
                    <= u128::MAX
                    && v == self.params.punishment_fee.spec_mul_round(amount_dot),
                Err(e) => e == Error::ArithmeticOverflow
                    && self.params.punishment_fee.inner * amount_dot + FIXED_POINT_HALF
                        > u128::MAX,
            },
    {
        self.params.punishment_fee.mul_round(amount_dot)
    }

    pub fn get_replace_griefing_collateral(&self, amount_dot: Amount) -> (r: Result<
        Amount,
        Error,
    >)
        ensures
            match r {
                Ok(v) => self.params.replace_griefing_collateral.inner * amount_dot
                    + FIXED_POINT_HALF <= u128::MAX
                    && v == self.params.replace_griefing_collateral.spec_mul_round(amount_dot),
                Err(e) => e == Error::ArithmeticOverflow
                    && self.params.replace_griefing_collateral.inner * amount_dot
                        + FIXED_POINT_HALF > u128::MAX,
            },
    {
        self.params.replace_griefing_collateral.mul_round(amount_dot)
    }

    /// The issue-fee percentage of the total paid: since the fee rate `x`
    /// applies to the amount before the fee, the fee inside a total is the
    /// fraction `x / (1 + x)` of it.
    pub open spec fn spec_issue_fee_from_total(self, amount: int) -> int {
        let percentage = UnsignedFixedPoint {
            inner: ((self.params.issue_fee.inner * crate::fixed_point::FIXED_POINT_DIV)
                / (self.params.issue_fee.inner + crate::fixed_point::FIXED_POINT_DIV)) as u128,
        };
        percentage.spec_mul_round_i(amount)
    }

    /// Whether the scaled products in `get_issue_fee_from_total` fit.
    pub open spec fn spec_issue_fee_from_total_computable(self, amount: int) -> bool {
        let pinner = (self.params.issue_fee.inner * crate::fixed_point::FIXED_POINT_DIV)
            / (self.params.issue_fee.inner + crate::fixed_point::FIXED_POINT_DIV);
        &&& self.params.issue_fee.inner + crate::fixed_point::FIXED_POINT_DIV <= u128::MAX
        &&& self.params.issue_fee.inner * crate::fixed_point::FIXED_POINT_DIV <= u128::MAX
        &&& pinner * amount + FIXED_POINT_HALF <= u128::MAX
    }

    pub fn get_issue_fee_from_total(&self, amount: Amount) -> (r: Result<Amount, Error>)
        ensures
            r is Ok <==> self.spec_issue_fee_from_total_computable(amount as int),
            r matches Ok(v) ==> v == self.spec_issue_fee_from_total(amount as int),
            r matches Err(e) ==> e == Error::ArithmeticOverflow,
    {
        let one = UnsignedFixedPoint::one();
        let denom = self.params.issue_fee.checked_add(&one)?;
        let percentage = self.params.issue_fee.checked_div(&denom)?;
        percentage.mul_round(amount)
    }
}

} // verus!
