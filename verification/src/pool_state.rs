//! The pool as a mathematical value, and what its operations do to it.
//!
//! [`PoolState`] is the view of a pool: its parameters and balances as raw
//! scaled natural numbers. Each operation of the pool is described here by
//! spec functions on that value. The integer width enters only where an
//! operation reports an overflow, and in the two predicates that say when
//! the outcome of an operation fits.
//!
//! The proof functions state what holds of these descriptions for every
//! pool: the shape of the fee curve, that every LP token stays backed, and
//! that a deposit redeemed at once returns no more than was deposited.

use vstd::arithmetic::div_mod::{lemma_div_is_ordered, lemma_div_multiples_vanish};
use vstd::prelude::*;

use crate::fixed_point::{
    lemma_less_fee_bounded, lemma_quotient_at_least, lemma_quotient_at_most,
    lemma_scaled_mul_superadditive, lemma_truncated_quotient, less_fee, scaled_mul, Uint, SCALE,
};

verus! {

/// Parameters and balances of a pool, each as a raw scaled value.
pub struct PoolState {
    /// Tokens that one staked token is worth.
    pub price: nat,
    /// Reserve of tokens.
    pub token_amount: nat,
    /// Reserve of staked tokens, taken in by swaps.
    pub st_token_amount: nat,
    /// LP tokens outstanding.
    pub lp_token_amount: nat,
    /// Token reserve at which the fee reaches its minimum.
    pub liquidity_target: nat,
    /// Lowest fee.
    pub min_fee: nat,
    /// Highest fee.
    pub max_fee: nat,
}

/// The share of `reserve` that `lp_out` of `lp_total` LP tokens redeem,
/// truncated toward zero.
pub open spec fn pro_rata(reserve: nat, lp_out: nat, lp_total: nat) -> nat
    recommends
        lp_total > 0,
{
    reserve * lp_out / lp_total
}

impl PoolState {
    /// A pool with the given parameters and no balance.
    pub open spec fn initial(price: nat, min_fee: nat, max_fee: nat, liquidity_target: nat) -> Self {
        PoolState {
            price,
            token_amount: 0,
            st_token_amount: 0,
            lp_token_amount: 0,
            liquidity_target,
            min_fee,
            max_fee,
        }
    }

    /// Value of the staked reserve in tokens.
    pub open spec fn staked_value(self) -> nat {
        scaled_mul(self.st_token_amount, self.price)
    }

    /// Value of both reserves in tokens.
    pub open spec fn total_value(self) -> nat {
        self.token_amount + self.staked_value()
    }

    /// What holds of the balances of every pool: each outstanding LP token is
    /// backed by at least its like in value, and no tokens are held while no
    /// LP token is outstanding.
    pub open spec fn inv(self) -> bool {
        &&& self.lp_token_amount <= self.total_value()
        &&& self.lp_token_amount == 0 ==> self.token_amount == 0
    }

    /// Whether the pool holds nothing while no LP token is outstanding.
    /// Deposits and withdrawals see to it; a swap worth no token into a pool
    /// without LP tokens does not.
    pub open spec fn settled(self) -> bool {
        self.lp_token_amount == 0 ==> self.token_amount == 0 && self.st_token_amount == 0
    }

    /// Whether the fee curve is defined: the target is not zero and the
    /// lowest fee is not above the highest.
    pub open spec fn curve_defined(self) -> bool {
        &&& self.liquidity_target > 0
        &&& self.min_fee <= self.max_fee
    }

    /// Whether the fee curve is defined and stays within the whole.
    pub open spec fn fees_sane(self) -> bool {
        &&& self.curve_defined()
        &&& self.max_fee <= SCALE
    }

    /// The fee for a swap that leaves `amount_after` tokens in the reserve:
    /// the highest fee at an empty reserve, falling in a straight line to
    /// the lowest fee at the target, and the lowest fee beyond it.
    pub open spec fn fee(self, amount_after: nat) -> nat
        recommends
            self.curve_defined(),
    {
        let fall = (self.max_fee - self.min_fee) * amount_after / (self.liquidity_target as int);
        let line = self.max_fee - fall;
        if line < self.min_fee {
            self.min_fee
        } else if line > self.max_fee {
            self.max_fee
        } else {
            line as nat
        }
    }

    /// The fee never leaves the range between the lowest and the highest fee.
    pub proof fn lemma_fee_bounds(self, amount_after: nat)
        requires
            self.curve_defined(),
        ensures
            self.min_fee <= self.fee(amount_after) <= self.max_fee,
    {
    }

    /// At an empty reserve the fee is the highest fee.
    pub proof fn lemma_fee_at_empty_reserve(self)
        requires
            self.curve_defined(),
        ensures
            self.fee(0) == self.max_fee,
    {
        let spread = self.max_fee - self.min_fee;
        assert(spread * 0 == 0) by (nonlinear_arith);
        assert(0int / (self.liquidity_target as int) == 0) by (nonlinear_arith)
            requires
                self.liquidity_target > 0,
        ;
    }

    /// From the target on the fee is the lowest fee.
    pub proof fn lemma_fee_at_target(self, amount_after: nat)
        requires
            self.curve_defined(),
            amount_after >= self.liquidity_target,
        ensures
            self.fee(amount_after) == self.min_fee,
    {
        let spread = (self.max_fee - self.min_fee) as nat;
        assert(spread * self.liquidity_target <= spread * amount_after) by (nonlinear_arith)
            requires
                self.liquidity_target <= amount_after,
        ;
        lemma_quotient_at_least(spread * amount_after, self.liquidity_target, spread);
    }

    /// The fee does not rise as the reserve grows.
    pub proof fn lemma_fee_monotonic(self, smaller: nat, larger: nat)
        requires
            self.curve_defined(),
            smaller <= larger,
        ensures
            self.fee(larger) <= self.fee(smaller),
    {
        let spread = (self.max_fee - self.min_fee) as nat;
        assert(spread * smaller <= spread * larger) by (nonlinear_arith)
            requires
                smaller <= larger,
        ;
        lemma_div_is_ordered(
            (spread * smaller) as int,
            (spread * larger) as int,
            self.liquidity_target as int,
        );
    }

    /// Whether the product that sizes the minted LP tokens exceeds the
    /// integer width.
    pub open spec fn mint_overflows(self, amount: nat) -> bool {
        self.lp_token_amount > 0 && self.lp_token_amount * amount > Uint::MAX
    }

    /// LP tokens minted for a deposit of `amount` tokens: as many as tokens
    /// where none is outstanding, else so many that the value behind each LP
    /// token stays what it was, truncated toward zero.
    pub open spec fn minted(self, amount: nat) -> nat {
        if self.lp_token_amount == 0 {
            amount
        } else {
            self.lp_token_amount * amount / self.total_value()
        }
    }

    /// The pool after a deposit of `amount` tokens.
    pub open spec fn after_add_liquidity(self, amount: nat) -> Self {
        PoolState {
            token_amount: self.token_amount + amount,
            lp_token_amount: self.lp_token_amount + self.minted(amount),
            ..self
        }
    }

    /// Whether the balances after a deposit of `amount` tokens fit the
    /// integer width, where the deposit is accepted.
    pub open spec fn add_liquidity_fits(self, amount: nat) -> bool {
        amount > 0 && !self.mint_overflows(amount) ==> {
            &&& self.after_add_liquidity(amount).token_amount <= Uint::MAX
            &&& self.after_add_liquidity(amount).lp_token_amount <= Uint::MAX
        }
    }

    /// A deposit mints no more LP tokens than it brings tokens, and leaves
    /// every LP token backed.
    pub proof fn lemma_add_liquidity_keeps_inv(self, amount: nat)
        requires
            self.inv(),
            amount > 0,
        ensures
            self.minted(amount) <= amount,
            self.after_add_liquidity(amount).inv(),
    {
        let after = self.after_add_liquidity(amount);
        assert(after.staked_value() == self.staked_value());
        if self.lp_token_amount > 0 {
            let lp = self.lp_token_amount;
            let value = self.total_value();
            assert(lp * amount <= amount * value) by (nonlinear_arith)
                requires
                    lp <= value,
            ;
            lemma_quotient_at_most(lp * amount, value, amount);
        }
    }

    /// Depositing tokens and at once redeeming the LP tokens minted for them
    /// returns no more than was deposited: the tokens returned and the value
    /// of the staked tokens returned are together no more than the deposit,
    /// and so is each alone. A deposit into a pool without balances is
    /// returned in full and in tokens.
    ///
    /// A pool that holds staked tokens while no LP token is outstanding is
    /// left out: its first depositor redeems those staked tokens as well.
    pub proof fn lemma_deposit_then_withdraw(self, amount: nat)
        requires
            self.inv(),
            self.settled(),
            amount > 0,
        ensures
            ({
                let minted = self.minted(amount);
                let after = self.after_add_liquidity(amount);
                let tokens_out = after.withdrawn_tokens(minted);
                let staked_out = after.withdrawn_staked(minted);
                &&& tokens_out + scaled_mul(staked_out, self.price) <= amount
                &&& tokens_out <= amount
                &&& scaled_mul(staked_out, self.price) <= amount
                &&& self.lp_token_amount == 0 ==> tokens_out == amount && staked_out == 0
            }),
    {
        let lp = self.lp_token_amount;
        let tokens = self.token_amount;
        let staked = self.st_token_amount;
        let price = self.price;
        let scale = SCALE as nat;
        let minted = self.minted(amount);
        let after = self.after_add_liquidity(amount);
        let supply = lp + minted;
        let tokens_out = after.withdrawn_tokens(minted);
        let staked_out = after.withdrawn_staked(minted);
        let value_out = scaled_mul(staked_out, price);
        assert(after.lp_token_amount == supply);
        assert(after.token_amount == tokens + amount);
        assert(after.st_token_amount == staked);
        if lp == 0 {
            assert(tokens_out == amount) by (nonlinear_arith)
                requires
                    tokens_out == (amount * amount) / amount,
                    amount > 0,
            ;
            assert(staked_out == 0) by (nonlinear_arith)
                requires
                    staked_out == (0 * amount) / amount,
                    amount > 0,
            ;
            assert(value_out == 0) by (nonlinear_arith)
                requires
                    value_out == (0 * price) / scale,
                    scale > 0,
            ;
        } else {
            let staked_value = self.staked_value();
            let value = self.total_value();
            lemma_truncated_quotient(lp * amount, value);
            lemma_truncated_quotient((tokens + amount) * minted, supply);
            lemma_truncated_quotient(staked * minted, supply);
            lemma_truncated_quotient(staked_out * price, scale);
            lemma_truncated_quotient(staked * price, scale);
            assert(tokens_out * supply * scale <= (tokens + amount) * minted * scale)
                by (nonlinear_arith)
                requires
                    tokens_out * supply <= (tokens + amount) * minted,
            ;
            assert(value_out * scale * supply <= staked_out * price * supply) by (nonlinear_arith)
                requires
                    value_out * scale <= staked_out * price,
            ;
            assert(staked_out * price * supply <= staked * minted * price) by (nonlinear_arith)
                requires
                    staked_out * supply <= staked * minted,
            ;
            assert(staked * minted * price <= minted * scale * (staked_value + 1))
                by (nonlinear_arith)
                requires
                    staked * price < staked_value * scale + scale,
            ;
            assert((tokens_out + value_out) * supply * scale <= minted * scale * (value + amount
                + 1)) by (nonlinear_arith)
                requires
                    tokens_out * supply * scale <= (tokens + amount) * minted * scale,
                    value_out * scale * supply <= staked_out * price * supply,
                    staked_out * price * supply <= staked * minted * price,
                    staked * minted * price <= minted * scale * (staked_value + 1),
                    value == tokens + staked_value,
            ;
            assert((tokens_out + value_out) * supply <= minted * (value + amount + 1))
                by (nonlinear_arith)
                requires
                    (tokens_out + value_out) * supply * scale <= minted * scale * (value + amount
                        + 1),
                    scale > 0,
            ;
            assert(minted * (value + amount + 1) <= amount * supply + minted) by (nonlinear_arith)
                requires
                    minted * value <= lp * amount,
                    supply == lp + minted,
            ;
            assert(tokens_out + value_out <= amount) by (nonlinear_arith)
                requires
                    (tokens_out + value_out) * supply <= amount * supply + minted,
                    minted < supply,
            ;
        }
    }

    /// After a deposit LP tokens are outstanding, so the pool is settled.
    pub proof fn lemma_add_liquidity_settles(self, amount: nat)
        requires
            amount > 0,
        ensures
            self.after_add_liquidity(amount).lp_token_amount > 0,
            self.after_add_liquidity(amount).settled(),
    {
    }

    /// Whether one of the two products that size a withdrawal exceeds the
    /// integer width.
    pub open spec fn withdrawal_overflows(self, lp_out: nat) -> bool {
        ||| self.token_amount * lp_out > Uint::MAX
        ||| self.st_token_amount * lp_out > Uint::MAX
    }

    /// Tokens that `lp_out` LP tokens redeem.
    pub open spec fn withdrawn_tokens(self, lp_out: nat) -> nat {
        pro_rata(self.token_amount, lp_out, self.lp_token_amount)
    }

    /// Staked tokens that `lp_out` LP tokens redeem.
    pub open spec fn withdrawn_staked(self, lp_out: nat) -> nat {
        pro_rata(self.st_token_amount, lp_out, self.lp_token_amount)
    }

    /// The pool after `lp_out` LP tokens were redeemed.
    pub open spec fn after_remove_liquidity(self, lp_out: nat) -> Self {
        PoolState {
            token_amount: (self.token_amount - self.withdrawn_tokens(lp_out)) as nat,
            st_token_amount: (self.st_token_amount - self.withdrawn_staked(lp_out)) as nat,
            lp_token_amount: (self.lp_token_amount - lp_out) as nat,
            ..self
        }
    }

    /// A withdrawal of no more LP tokens than are outstanding takes no more
    /// of a reserve than it holds, and leaves every LP token backed.
    pub proof fn lemma_remove_liquidity_keeps_inv(self, lp_out: nat)
        requires
            self.inv(),
            0 < self.lp_token_amount,
            lp_out <= self.lp_token_amount,
        ensures
            self.withdrawn_tokens(lp_out) <= self.token_amount,
            self.withdrawn_staked(lp_out) <= self.st_token_amount,
            self.after_remove_liquidity(lp_out).inv(),
    {
        let lp = self.lp_token_amount;
        let tokens = self.token_amount;
        let staked = self.st_token_amount;
        let price = self.price;
        let tokens_out = self.withdrawn_tokens(lp_out);
        let staked_out = self.withdrawn_staked(lp_out);
        let left = (lp - lp_out) as nat;
        let scale = SCALE as nat;

        assert(tokens * lp_out <= tokens * lp) by (nonlinear_arith)
            requires
                lp_out <= lp,
        ;
        lemma_quotient_at_most(tokens * lp_out, lp, tokens);
        assert(staked * lp_out <= staked * lp) by (nonlinear_arith)
            requires
                lp_out <= lp,
        ;
        lemma_quotient_at_most(staked * lp_out, lp, staked);

        let after = self.after_remove_liquidity(lp_out);
        let tokens_left = after.token_amount;
        let staked_left = after.st_token_amount;
        assert(tokens_left == tokens - tokens_out);
        assert(staked_left == staked - staked_out);

        // What stays of a reserve is at least its share for the LP tokens that stay.
        lemma_truncated_quotient(tokens * lp_out, lp);
        lemma_truncated_quotient(staked * lp_out, lp);
        assert(tokens_left * lp >= tokens * left) by (nonlinear_arith)
            requires
                tokens_out * lp <= tokens * lp_out,
                tokens_left == tokens - tokens_out,
                left == lp - lp_out,
        ;
        assert(staked_left * lp >= staked * left) by (nonlinear_arith)
            requires
                staked_out * lp <= staked * lp_out,
                staked_left == staked - staked_out,
                left == lp - lp_out,
        ;

        if left == 0 {
            assert(tokens * lp_out == tokens * lp);
            lemma_quotient_at_least(tokens * lp_out, lp, tokens);
        } else if left > tokens_left {
            let value = self.staked_value();
            lemma_truncated_quotient(staked * price, scale);
            let gap = (left - tokens_left) as nat;
            assert(gap * lp <= left * value) by (nonlinear_arith)
                requires
                    gap == left - tokens_left,
                    tokens_left * lp >= tokens * left,
                    lp <= tokens + value,
            ;
            assert(left * value * scale <= left * (staked * price)) by (nonlinear_arith)
                requires
                    value * scale <= staked * price,
            ;
            assert(left * (staked * price) <= staked_left * lp * price) by (nonlinear_arith)
                requires
                    staked_left * lp >= staked * left,
            ;
            assert(gap * scale <= staked_left * price) by (nonlinear_arith)
                requires
                    gap * lp <= left * value,
                    left * value * scale <= left * (staked * price),
                    left * (staked * price) <= staked_left * lp * price,
                    lp > 0,
                    scale > 0,
            ;
            lemma_quotient_at_least(staked_left * price, scale, gap);
        }
    }

    /// A withdrawal leaves the pool settled: that of the whole LP supply
    /// empties both reserves.
    pub proof fn lemma_remove_liquidity_settles(self, lp_out: nat)
        requires
            0 < self.lp_token_amount,
            lp_out <= self.lp_token_amount,
        ensures
            self.after_remove_liquidity(lp_out).settled(),
    {
        let lp = self.lp_token_amount;
        if lp_out == lp {
            lemma_div_multiples_vanish(self.token_amount as int, lp as int);
            lemma_div_multiples_vanish(self.st_token_amount as int, lp as int);
            assert(self.token_amount * lp == lp * self.token_amount) by (nonlinear_arith);
            assert(self.st_token_amount * lp == lp * self.st_token_amount) by (nonlinear_arith);
        }
    }

    /// Tokens that `staked_in` staked tokens are worth before the fee.
    pub open spec fn quote(self, staked_in: nat) -> nat {
        scaled_mul(staked_in, self.price)
    }

    /// The fee for a swap of `staked_in` staked tokens: that of the reserve
    /// as it would be once the quote had left it.
    pub open spec fn swap_fee(self, staked_in: nat) -> nat {
        self.fee((self.token_amount - self.quote(staked_in)) as nat)
    }

    /// Tokens paid out for `staked_in` staked tokens: the quote less the fee.
    pub open spec fn payout(self, staked_in: nat) -> nat {
        less_fee(self.quote(staked_in), self.swap_fee(staked_in))
    }

    /// The pool after a swap of `staked_in` staked tokens. The fee stays in
    /// the token reserve.
    pub open spec fn after_swap(self, staked_in: nat) -> Self {
        PoolState {
            token_amount: (self.token_amount - self.payout(staked_in)) as nat,
            st_token_amount: self.st_token_amount + staked_in,
            ..self
        }
    }

    /// A swap that the reserve covers pays out no more than the quote, and
    /// leaves every LP token backed: the pool is worth no less than before.
    pub proof fn lemma_swap_keeps_inv(self, staked_in: nat)
        requires
            self.inv(),
            self.fees_sane(),
            self.quote(staked_in) <= self.token_amount,
        ensures
            self.payout(staked_in) <= self.quote(staked_in),
            self.total_value() <= self.after_swap(staked_in).total_value(),
            self.after_swap(staked_in).inv(),
    {
        let quote = self.quote(staked_in);
        self.lemma_fee_bounds((self.token_amount - quote) as nat);
        lemma_less_fee_bounded(quote, self.swap_fee(staked_in));
        lemma_scaled_mul_superadditive(self.st_token_amount, staked_in, self.price);
    }

    /// A swap that the reserve covers leaves a pool settled that was so, if
    /// LP tokens are outstanding or a staked token is worth at least a token.
    pub proof fn lemma_swap_keeps_settled(self, staked_in: nat)
        requires
            self.settled(),
            self.lp_token_amount > 0 || self.price >= SCALE,
            staked_in > 0,
            self.quote(staked_in) <= self.token_amount,
        ensures
            self.after_swap(staked_in).settled(),
    {
        if self.lp_token_amount == 0 {
            let scale = SCALE as nat;
            assert(staked_in * scale <= staked_in * self.price) by (nonlinear_arith)
                requires
                    scale <= self.price,
            ;
            lemma_quotient_at_least(staked_in * self.price, scale, staked_in);
        }
    }

    /// Whether a swap of `staked_in` staked tokens can be carried out within
    /// the integer width: the quote fits, and where the reserve covers it the
    /// fees are sane and the staked reserve still fits.
    pub open spec fn swap_defined(self, staked_in: nat) -> bool {
        staked_in > 0 ==> {
            &&& self.quote(staked_in) <= Uint::MAX
            &&& self.quote(staked_in) <= self.token_amount ==> {
                &&& self.fees_sane()
                &&& self.st_token_amount + staked_in <= Uint::MAX
            }
        }
    }
}

} // verus!
