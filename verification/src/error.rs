//! Errors that the pool operations report.
//!
//! Every error is a plain value; the pool is left as it was and stays usable.

use vstd::prelude::*;

use crate::types::{LpTokenAmount, TokenAmount};

verus! {

/// Errors that adding liquidity can report.
#[derive(Debug, Clone, Copy, PartialEq, Eq, Structural)]
pub enum AddLiquidityError {
    /// No tokens were provided.
    NoTokensProvided,
    /// The provided amount times the outstanding LP supply exceeds the
    /// integer width.
    TokenAmountTooBig,
}

/// Errors that removing liquidity can report.
#[derive(Debug, Clone, Copy, PartialEq, Eq, Structural)]
pub enum RemoveLiquidityError {
    /// More LP tokens were to be withdrawn than are outstanding.
    NotEnoughTokens {
        withdraw_amount: LpTokenAmount,
        pool_capacity: LpTokenAmount,
    },
    /// A reserve times the withdrawn LP amount exceeds the integer width.
    WithdrawCalculationOverflow,
}

/// Errors that a swap can report.
#[derive(Debug, Clone, Copy, PartialEq, Eq, Structural)]
pub enum SwapError {
    /// The swap is worth more tokens, before fees, than the pool holds.
    PoolNotEnoughTokens {
        token_amount: TokenAmount,
        pool_capacity: TokenAmount,
    },
    /// No staked tokens were passed.
    ZeroTokensAsArgument,
}

} // verus!
