//! The unstake liquidity pool.
//!
//! Providers deposit tokens and receive LP tokens; holders of the staked
//! token swap it for tokens at a fixed price, less a fee that grows as the
//! token reserve shrinks. The fee stays in the pool and accrues to the
//! holders of LP tokens.
//!
//! Every operation either succeeds and commits all its changes, or reports
//! an error and leaves the pool as it was.

use core::convert::Infallible;
use vstd::prelude::*;

use crate::error::{AddLiquidityError, RemoveLiquidityError, SwapError};
use crate::fixed_point::{mul_scaled_wide, Uint};
use crate::pool_state::{pro_rata, PoolState};
use crate::types::{LpTokenAmount, Percentage, Price, StakedTokenAmount, TokenAmount};

verus! {

/// Unstake liquidity pool.
#[derive(Debug)]
pub struct LpPool {
    price: Price,
    token_amount: TokenAmount,
    st_token_amount: StakedTokenAmount,
    lp_token_amount: LpTokenAmount,
    liquidity_target: TokenAmount,
    min_fee: Percentage,
    max_fee: Percentage,
}

impl View for LpPool {
    type V = PoolState;

    closed spec fn view(&self) -> PoolState {
        PoolState {
            price: self.price@,
            token_amount: self.token_amount@,
            st_token_amount: self.st_token_amount@,
            lp_token_amount: self.lp_token_amount@,
            liquidity_target: self.liquidity_target@,
            min_fee: self.min_fee@,
            max_fee: self.max_fee@,
        }
    }
}

/// The share of a reserve that `lp_out` of `lp_total` LP tokens redeem, or
/// the overflow error where the product of reserve and `lp_out` exceeds the
/// integer width.
fn calculate_raw_out(raw_amount: Uint, lp_out: Uint, lp_total: Uint) -> (r: Result<
    Uint,
    RemoveLiquidityError,
>)
    requires
        lp_total > 0,
    ensures
        match r {
            Ok(share) => {
                &&& raw_amount * lp_out <= Uint::MAX
                &&& share == pro_rata(raw_amount as nat, lp_out as nat, lp_total as nat)
            },
            Err(e) => {
                &&& raw_amount * lp_out > Uint::MAX
                &&& e == RemoveLiquidityError::WithdrawCalculationOverflow
            },
        },
{
    match raw_amount.checked_mul(lp_out) {
        Some(product) => Ok(product / lp_total),
        None => Err(RemoveLiquidityError::WithdrawCalculationOverflow),
    }
}

impl LpPool {
    /// Whether the balances of the pool are those of a pool in which every
    /// LP token is backed.
    pub open spec fn wf(&self) -> bool {
        self@.inv()
    }

    /// Two pools with one view are one pool: what the operations say of the
    /// view of a pool, they say of the pool.
    pub proof fn lemma_view_determines(self, other: Self)
        requires
            self@ == other@,
        ensures
            self == other,
    {
        broadcast use
            Price::lemma_view,
            TokenAmount::lemma_view,
            StakedTokenAmount::lemma_view,
            LpTokenAmount::lemma_view,
            Percentage::lemma_view,
        ;

    }

    /// Each value of a pool fits the integer width.
    pub proof fn lemma_view_fits(self)
        ensures
            self@.price <= Uint::MAX,
            self@.token_amount <= Uint::MAX,
            self@.st_token_amount <= Uint::MAX,
            self@.lp_token_amount <= Uint::MAX,
            self@.liquidity_target <= Uint::MAX,
            self@.min_fee <= Uint::MAX,
            self@.max_fee <= Uint::MAX,
    {
        broadcast use
            Price::lemma_view,
            TokenAmount::lemma_view,
            StakedTokenAmount::lemma_view,
            LpTokenAmount::lemma_view,
            Percentage::lemma_view,
        ;

    }

    /// Returns a pool with the given parameters and no balance. It never
    /// fails.
    ///
    /// The parameters are taken as they are. A pool whose fees are not sane
    /// takes deposits and withdrawals, but no swap that its reserve covers.
    pub fn init(
        price: Price,
        min_fee: Percentage,
        max_fee: Percentage,
        liquidity_target: TokenAmount,
    ) -> (r: Result<Self, Infallible>)
        ensures
            r matches Ok(pool) && pool.wf() && pool@ == PoolState::initial(
                price@,
                min_fee@,
                max_fee@,
                liquidity_target@,
            ),
    {
        Ok(
            Self {
                price,
                token_amount: TokenAmount::from_raw_amount(0),
                st_token_amount: StakedTokenAmount::from_raw_amount(0),
                lp_token_amount: LpTokenAmount::from_raw_amount(0),
                min_fee,
                max_fee,
                liquidity_target,
            },
        )
    }

    /// Takes `token_amount_in` tokens into the reserve and returns the LP
    /// tokens minted for them.
    ///
    /// Fails, leaving the pool as it was, where no tokens are provided, or
    /// where LP tokens are outstanding and their number times
    /// `token_amount_in` exceeds the integer width.
    pub fn add_liquidity(&mut self, token_amount_in: TokenAmount) -> (r: Result<
        LpTokenAmount,
        AddLiquidityError,
    >)
        requires
            old(self).wf(),
            old(self)@.add_liquidity_fits(token_amount_in@),
        ensures
            final(self).wf(),
            token_amount_in@ == 0 ==> r matches Err(AddLiquidityError::NoTokensProvided),
            token_amount_in@ > 0 && old(self)@.mint_overflows(token_amount_in@) ==> r matches Err(
                AddLiquidityError::TokenAmountTooBig,
            ),
            token_amount_in@ > 0 && !old(self)@.mint_overflows(token_amount_in@) ==> {
                &&& r matches Ok(minted)
                &&& minted@ == old(self)@.minted(token_amount_in@)
                &&& final(self)@ == old(self)@.after_add_liquidity(token_amount_in@)
            },
            token_amount_in@ > 0 && old(self)@.lp_token_amount == 0 ==> {
                &&& r matches Ok(minted)
                &&& minted@ == token_amount_in@
            },
            r is Err ==> *final(self) == *old(self),
    {
        if token_amount_in.raw() == 0 {
            return Err(AddLiquidityError::NoTokensProvided);
        }
        proof {
            self@.lemma_add_liquidity_keeps_inv(token_amount_in@);
        }
        let lp_tokens_raw_amount = match self.lp_token_amount.raw() {
            0 => token_amount_in.raw(),
            lp_amount => {
                let product = match lp_amount.checked_mul(token_amount_in.raw()) {
                    Some(product) => product,
                    None => {
                        return Err(AddLiquidityError::TokenAmountTooBig);
                    },
                };
                let minted: u128 = (product as u128) / self.total_val_wide();
                minted as Uint
            },
        };
        let lp_amount = LpTokenAmount::from_raw_amount(lp_tokens_raw_amount);

        self.token_amount = self.token_amount + token_amount_in;
        self.lp_token_amount = self.lp_token_amount + lp_amount;

        Ok(lp_amount)
    }

    /// Burns `lp_amount_out` LP tokens and returns the share of each reserve
    /// that they redeem: first the tokens, then the staked tokens.
    ///
    /// Fails, leaving the pool as it was, where more LP tokens are to be
    /// burnt than are outstanding, or where a reserve times `lp_amount_out`
    /// exceeds the integer width. Nothing can be withdrawn for no LP token
    /// while none is outstanding: there is no share to take.
    pub fn remove_liquidity(&mut self, lp_amount_out: LpTokenAmount) -> (r: Result<
        (TokenAmount, StakedTokenAmount),
        RemoveLiquidityError,
    >)
        requires
            old(self).wf(),
            lp_amount_out@ > 0 || old(self)@.lp_token_amount > 0,
        ensures
            final(self).wf(),
            lp_amount_out@ > old(self)@.lp_token_amount ==> {
                &&& r matches Err(
                    RemoveLiquidityError::NotEnoughTokens { withdraw_amount, pool_capacity },
                )
                &&& withdraw_amount == lp_amount_out
                &&& pool_capacity@ == old(self)@.lp_token_amount
            },
            lp_amount_out@ <= old(self)@.lp_token_amount && old(self)@.withdrawal_overflows(
                lp_amount_out@,
            ) ==> r matches Err(RemoveLiquidityError::WithdrawCalculationOverflow),
            lp_amount_out@ <= old(self)@.lp_token_amount && !old(self)@.withdrawal_overflows(
                lp_amount_out@,
            ) ==> {
                &&& r matches Ok((token_out, staked_out))
                &&& token_out@ == old(self)@.withdrawn_tokens(lp_amount_out@)
                &&& staked_out@ == old(self)@.withdrawn_staked(lp_amount_out@)
                &&& final(self)@ == old(self)@.after_remove_liquidity(lp_amount_out@)
            },
            r is Err ==> *final(self) == *old(self),
    {
        if lp_amount_out > self.lp_token_amount {
            return Err(
                RemoveLiquidityError::NotEnoughTokens {
                    withdraw_amount: lp_amount_out,
                    pool_capacity: self.lp_token_amount,
                },
            );
        }
        let lp_out = lp_amount_out.raw();
        let lp_total = self.lp_token_amount.raw();
        let token_out = match calculate_raw_out(self.token_amount.raw(), lp_out, lp_total) {
            Ok(share) => TokenAmount::from_raw_amount(share),
            Err(e) => {
                return Err(e);
            },
        };
        let staked_out = match calculate_raw_out(self.st_token_amount.raw(), lp_out, lp_total) {
            Ok(share) => StakedTokenAmount::from_raw_amount(share),
            Err(e) => {
                return Err(e);
            },
        };
        proof {
            self@.lemma_remove_liquidity_keeps_inv(lp_amount_out@);
        }
        self.token_amount = self.token_amount - token_out;
        self.st_token_amount = self.st_token_amount - staked_out;
        self.lp_token_amount = self.lp_token_amount - lp_amount_out;

        Ok((token_out, staked_out))
    }

    /// Takes `swap_amount` staked tokens into the pool and returns the tokens
    /// paid out for them: their value at the pool's price, less the fee.
    ///
    /// Fails, leaving the pool as it was, where no staked tokens are passed,
    /// or where their value before the fee is more than the token reserve.
    pub fn swap(&mut self, swap_amount: StakedTokenAmount) -> (r: Result<TokenAmount, SwapError>)
        requires
            old(self).wf(),
            old(self)@.swap_defined(swap_amount@),
        ensures
            final(self).wf(),
            swap_amount@ == 0 ==> r matches Err(SwapError::ZeroTokensAsArgument),
            swap_amount@ > 0 && old(self)@.quote(swap_amount@) > old(self)@.token_amount ==> {
                &&& r matches Err(SwapError::PoolNotEnoughTokens { token_amount, pool_capacity })
                &&& token_amount@ == old(self)@.quote(swap_amount@)
                &&& pool_capacity@ == old(self)@.token_amount
            },
            swap_amount@ > 0 && old(self)@.quote(swap_amount@) <= old(self)@.token_amount ==> {
                &&& r matches Ok(amount_out)
                &&& amount_out@ == old(self)@.payout(swap_amount@)
                &&& final(self)@ == old(self)@.after_swap(swap_amount@)
            },
            r is Err ==> *final(self) == *old(self),
    {
        if swap_amount.raw() == 0 {
            return Err(SwapError::ZeroTokensAsArgument);
        }
        let amount_out_before_fees = swap_amount.into_token_amount(self.price);
        if amount_out_before_fees > self.token_amount {
            return Err(
                SwapError::PoolNotEnoughTokens {
                    token_amount: amount_out_before_fees,
                    pool_capacity: self.token_amount,
                },
            );
        }
        proof {
            self@.lemma_swap_keeps_inv(swap_amount@);
        }
        let fee = self.fee(self.token_amount - amount_out_before_fees);

        let amount_out = amount_out_before_fees.apply_fee(fee);

        self.token_amount = self.token_amount - amount_out;
        self.st_token_amount = self.st_token_amount + swap_amount;

        Ok(amount_out)
    }

    /// Returns the price of a staked token in tokens.
    pub fn price(&self) -> (r: Price)
        ensures
            r@ == self@.price,
    {
        self.price
    }

    /// Returns the reserve of tokens.
    pub fn token_amount(&self) -> (r: TokenAmount)
        ensures
            r@ == self@.token_amount,
    {
        self.token_amount
    }

    /// Returns the reserve of staked tokens.
    pub fn st_token_amount(&self) -> (r: StakedTokenAmount)
        ensures
            r@ == self@.st_token_amount,
    {
        self.st_token_amount
    }

    /// Returns the LP tokens outstanding.
    pub fn lp_token_amount(&self) -> (r: LpTokenAmount)
        ensures
            r@ == self@.lp_token_amount,
    {
        self.lp_token_amount
    }

    /// Returns the token reserve at which the fee reaches its minimum.
    pub fn liquidity_target(&self) -> (r: TokenAmount)
        ensures
            r@ == self@.liquidity_target,
    {
        self.liquidity_target
    }

    /// Returns the lowest fee.
    pub fn min_fee(&self) -> (r: Percentage)
        ensures
            r@ == self@.min_fee,
    {
        self.min_fee
    }

    /// Returns the highest fee.
    pub fn max_fee(&self) -> (r: Percentage)
        ensures
            r@ == self@.max_fee,
    {
        self.max_fee
    }

    /// Value of both reserves in tokens, in double width.
    fn total_val_wide(&self) -> (r: u128)
        ensures
            r == self@.total_value(),
    {
        let staked_value = mul_scaled_wide(self.st_token_amount.raw(), self.price.raw());
        staked_value + (self.token_amount.raw() as u128)
    }

    /// Returns the value of both reserves in tokens, which must fit the
    /// integer width.
    pub fn total_val(&self) -> (r: TokenAmount)
        requires
            self@.total_value() <= Uint::MAX,
        ensures
            r@ == self@.total_value(),
    {
        let total = self.total_val_wide();
        TokenAmount::from_raw_amount(total as Uint)
    }

    /// Returns the fee for a swap that leaves `amount_after` tokens in the
    /// reserve.
    pub fn fee(&self, amount_after: TokenAmount) -> (r: Percentage)
        requires
            self@.curve_defined(),
        ensures
            r@ == self@.fee(amount_after@),
    {
        let spread = (self.max_fee - self.min_fee).raw();
        let amount = amount_after.raw();
        let max_fee = self.max_fee.raw();
        assert(spread * amount <= Uint::MAX * Uint::MAX) by (nonlinear_arith)
            requires
                spread <= Uint::MAX,
                amount <= Uint::MAX,
        ;
        let target = self.liquidity_target.raw();
        let slope: u128 = (spread as u128) * (amount as u128) / (target as u128);
        // The fall is capped at the highest fee, so that the difference
        // below never goes under zero.
        let fall = if slope < max_fee as u128 {
            slope as Uint
        } else {
            max_fee
        };
        let current_percentage = max_fee - fall;
        if current_percentage < self.min_fee.raw() {
            self.min_fee
        } else {
            Percentage::from_raw_amount(current_percentage)
        }
    }
}

} // verus!
