use unstake_pool::error::{AddLiquidityError, RemoveLiquidityError, SwapError};
use unstake_pool::fixed_point::{Uint, SCALE};
use unstake_pool::lp_pool::LpPool;
use unstake_pool::types::{LpTokenAmount, Percentage, Price, StakedTokenAmount, TokenAmount};

/// Scales a decimal value and truncates it toward zero.
fn scaled(value: f64) -> Uint {
    (value * SCALE as f64) as Uint
}

fn story_example_pool() -> LpPool {
    LpPool::init(
        Price::from_raw_amount(scaled(1.5)),
        Percentage::from_raw_amount(scaled(0.001)),
        Percentage::from_raw_amount(scaled(0.09)),
        TokenAmount::from(90),
    )
    .unwrap()
}

fn empty_pool() -> LpPool {
    LpPool::init(
        Price::from(2),
        Percentage::from_raw_amount(scaled(0.0)),
        Percentage::from_raw_amount(scaled(0.09)),
        TokenAmount::from(100),
    )
    .unwrap()
}

/// A pool that holds both assets: 115 tokens and 30 staked tokens behind
/// 250 LP tokens.
fn non_empty_pool() -> LpPool {
    let mut pool = LpPool::init(
        Price::from(5),
        Percentage::from_raw_amount(scaled(0.1)),
        Percentage::from_raw_amount(scaled(0.2)),
        TokenAmount::from(100),
    )
    .unwrap();
    assert_eq!(
        pool.add_liquidity(TokenAmount::from(250)),
        Ok(LpTokenAmount::from(250))
    );
    assert_eq!(
        pool.swap(StakedTokenAmount::from(30)),
        Ok(TokenAmount::from(135))
    );
    pool
}

/// The seven values of a pool, raw.
fn values(pool: &LpPool) -> [Uint; 7] {
    [
        pool.price().raw(),
        pool.token_amount().raw(),
        pool.st_token_amount().raw(),
        pool.lp_token_amount().raw(),
        pool.liquidity_target().raw(),
        pool.min_fee().raw(),
        pool.max_fee().raw(),
    ]
}

#[test]
fn init_sets_parameters_and_no_balance() {
    let pool = story_example_pool();
    assert_eq!(
        values(&pool),
        [1_500_000, 0, 0, 0, 90_000_000, 1_000, 90_000]
    );
    assert_eq!(pool.total_val().raw(), 0);
}

#[test]
fn init_takes_parameters_as_they_are() {
    let pool = LpPool::init(
        Price::from(0),
        Percentage::from(2),
        Percentage::from(1),
        TokenAmount::from(0),
    )
    .unwrap();
    assert_eq!(values(&pool), [0, 0, 0, 0, 0, 2_000_000, 1_000_000]);
}

#[test]
fn can_calculate_fees() {
    let empty_pool = empty_pool();
    let non_empty_pool = non_empty_pool();
    assert_eq!(
        empty_pool.fee(TokenAmount::from(0)).raw(),
        Percentage::from_raw_amount(scaled(0.09)).raw()
    );
    assert_eq!(
        empty_pool.fee(TokenAmount::from(100)).raw(),
        Percentage::from_raw_amount(scaled(0.0)).raw()
    );
    assert_eq!(
        empty_pool.fee(TokenAmount::from(50)).raw(),
        Percentage::from_raw_amount(scaled(0.045)).raw()
    );

    assert_eq!(
        non_empty_pool.fee(TokenAmount::from(0)).raw(),
        Percentage::from_raw_amount(scaled(0.2)).raw()
    );
    assert_eq!(
        non_empty_pool.fee(TokenAmount::from(100)).raw(),
        Percentage::from_raw_amount(scaled(0.1)).raw()
    );
    assert_eq!(
        non_empty_pool.fee(TokenAmount::from(50)).raw(),
        Percentage::from_raw_amount(scaled(0.15)).raw()
    );
}

#[test]
fn fee_has_exact_values_along_the_curve() {
    let pool = story_example_pool();
    assert_eq!(pool.fee(TokenAmount::from(0)).raw(), 90_000);
    assert_eq!(pool.fee(TokenAmount::from_raw_amount(1)).raw(), 90_000);
    assert_eq!(pool.fee(TokenAmount::from(45)).raw(), 45_500);
    // 0.089 * 56.009 / 90 = 0.05538667..., truncated, off 0.09
    assert_eq!(
        pool.fee(TokenAmount::from_raw_amount(56_009_000)).raw(),
        34_614
    );
    assert_eq!(
        pool.fee(TokenAmount::from_raw_amount(89_999_999)).raw(),
        1_001
    );
    assert_eq!(pool.fee(TokenAmount::from(90)).raw(), 1_000);
    assert_eq!(pool.fee(TokenAmount::from(91)).raw(), 1_000);
    assert_eq!(
        pool.fee(TokenAmount::from_raw_amount(Uint::MAX)).raw(),
        1_000
    );
}

#[test]
fn fee_does_not_rise_as_the_reserve_grows() {
    let pool = story_example_pool();
    let mut last = pool.fee(TokenAmount::from_raw_amount(0));
    assert_eq!(last, pool.max_fee());
    let mut amount: Uint = 0;
    while amount <= 100_000_000 {
        let fee = pool.fee(TokenAmount::from_raw_amount(amount));
        assert!(fee <= last);
        assert!(fee >= pool.min_fee());
        assert!(fee <= pool.max_fee());
        if amount >= 90_000_000 {
            assert_eq!(fee, pool.min_fee());
        }
        last = fee;
        amount += 777_777;
    }
}

#[test]
fn fee_of_a_flat_curve_is_that_fee() {
    let pool = LpPool::init(
        Price::from(1),
        Percentage::from_raw_amount(30_000),
        Percentage::from_raw_amount(30_000),
        TokenAmount::from_raw_amount(1),
    )
    .unwrap();
    assert_eq!(pool.fee(TokenAmount::from(0)).raw(), 30_000);
    assert_eq!(pool.fee(TokenAmount::from(7)).raw(), 30_000);
}

#[test]
fn can_add_liquidity() {
    let mut empty_pool = empty_pool();
    let added = empty_pool.add_liquidity(TokenAmount::from(20)).unwrap();
    assert_eq!(
        added,
        LpTokenAmount::from(20),
        "initial liquidity added should match token amount added"
    );
}

#[test]
fn first_deposit_mints_one_to_one() {
    let mut pool = story_example_pool();
    let minted = pool.add_liquidity(TokenAmount::from_raw_amount(1)).unwrap();
    assert_eq!(minted.raw(), 1);
    assert_eq!(pool.token_amount().raw(), 1);
    assert_eq!(pool.lp_token_amount().raw(), 1);

    let mut pool = story_example_pool();
    let minted = pool
        .add_liquidity(TokenAmount::from_raw_amount(Uint::MAX))
        .unwrap();
    assert_eq!(minted.raw(), Uint::MAX);
    assert_eq!(pool.token_amount().raw(), Uint::MAX);
    assert_eq!(pool.lp_token_amount().raw(), Uint::MAX);
}

#[test]
fn later_deposit_mints_by_pool_value() {
    let mut pool = non_empty_pool();
    // 250 LP tokens stand for 115 + 30 * 5 = 265 tokens of value
    assert_eq!(pool.total_val(), TokenAmount::from(265));
    let minted = pool.add_liquidity(TokenAmount::from(53)).unwrap();
    assert_eq!(minted, LpTokenAmount::from(50));
    assert_eq!(
        values(&pool),
        [5_000_000, 168_000_000, 30_000_000, 300_000_000, 100_000_000, 100_000, 200_000]
    );
    // 300 * 1 / 318 = 0.943396...
    let minted = pool.add_liquidity(TokenAmount::from(1)).unwrap();
    assert_eq!(minted.raw(), 943_396);
}

#[test]
fn errors_on_empty_add_liquidity() {
    let mut story_example_pool = story_example_pool();
    assert!(
        story_example_pool
            .add_liquidity(TokenAmount::from_raw_amount(0))
            .is_err(),
        "adding zero liquidity should fail"
    )
}

#[test]
fn add_liquidity_of_nothing_reports_no_tokens_and_changes_nothing() {
    let mut pool = story_example_pool();
    assert_eq!(
        pool.add_liquidity(TokenAmount::from(0)),
        Err(AddLiquidityError::NoTokensProvided)
    );
    assert_eq!(values(&pool), values(&story_example_pool()));

    let mut pool = non_empty_pool();
    let before = values(&pool);
    assert_eq!(
        pool.add_liquidity(TokenAmount::from_raw_amount(0)),
        Err(AddLiquidityError::NoTokensProvided)
    );
    assert_eq!(values(&pool), before);
}

#[test]
fn add_liquidity_reports_a_product_beyond_the_width() {
    let mut pool = story_example_pool();
    let first: Uint = 1 << 40;
    assert_eq!(
        pool.add_liquidity(TokenAmount::from_raw_amount(first)),
        Ok(LpTokenAmount::from_raw_amount(first))
    );
    let before = values(&pool);
    assert_eq!(
        pool.add_liquidity(TokenAmount::from_raw_amount(1 << 24)),
        Err(AddLiquidityError::TokenAmountTooBig)
    );
    assert_eq!(values(&pool), before);
    // the largest product that fits is accepted
    assert_eq!(
        pool.add_liquidity(TokenAmount::from_raw_amount((1 << 24) - 1)),
        Ok(LpTokenAmount::from_raw_amount((1 << 24) - 1))
    );
}

#[test]
fn can_remove_liquidity() {
    let mut non_empty_pool = non_empty_pool();
    let res = non_empty_pool
        .remove_liquidity(LpTokenAmount::from(10))
        .unwrap();
    assert_ne!(
        res.0,
        TokenAmount::from(0),
        "removing liquidity from the pool consisting of both assets should not yield zero value"
    );
    assert_ne!(
        res.1,
        StakedTokenAmount::from(0),
        "removing liquidity from the pool consisting of both assets should not yield zero value"
    );
}

#[test]
fn remove_liquidity_redeems_both_reserves_pro_rata() {
    let mut pool = non_empty_pool();
    let (tokens, staked) = pool.remove_liquidity(LpTokenAmount::from(10)).unwrap();
    // a twenty-fifth of 115 tokens and of 30 staked tokens
    assert_eq!(tokens.raw(), 4_600_000);
    assert_eq!(staked.raw(), 1_200_000);
    assert_eq!(
        values(&pool),
        [5_000_000, 110_400_000, 28_800_000, 240_000_000, 100_000_000, 100_000, 200_000]
    );
    // a share is truncated: 110.4 * 0.000007 / 240 is below the precision
    let (tokens, staked) = pool
        .remove_liquidity(LpTokenAmount::from_raw_amount(7))
        .unwrap();
    assert_eq!(tokens.raw(), 3);
    assert_eq!(staked.raw(), 0);
    // the whole supply redeems all that is left
    let (tokens, staked) = pool
        .remove_liquidity(LpTokenAmount::from_raw_amount(239_999_993))
        .unwrap();
    assert_eq!(tokens.raw(), 110_399_997);
    assert_eq!(staked.raw(), 28_800_000);
    assert_eq!(
        values(&pool),
        [5_000_000, 0, 0, 0, 100_000_000, 100_000, 200_000]
    );
}

#[test]
fn remove_liquidity_of_nothing_redeems_nothing() {
    let mut pool = non_empty_pool();
    let before = values(&pool);
    assert_eq!(
        pool.remove_liquidity(LpTokenAmount::from(0)),
        Ok((TokenAmount::from(0), StakedTokenAmount::from(0)))
    );
    assert_eq!(values(&pool), before);
}

#[test]
fn errors_on_remove_liquidity_bigger_than_pool() {
    let mut empty_pool = empty_pool();
    let res = empty_pool.remove_liquidity(LpTokenAmount::from(1000));
    assert!(res.is_err());
}

#[test]
fn remove_liquidity_beyond_the_supply_reports_both_amounts_and_changes_nothing() {
    let mut pool = empty_pool();
    assert_eq!(
        pool.remove_liquidity(LpTokenAmount::from(1000)),
        Err(RemoveLiquidityError::NotEnoughTokens {
            withdraw_amount: LpTokenAmount::from(1000),
            pool_capacity: LpTokenAmount::from(0),
        })
    );
    assert_eq!(values(&pool), values(&empty_pool()));

    let mut pool = non_empty_pool();
    let before = values(&pool);
    assert_eq!(
        pool.remove_liquidity(LpTokenAmount::from_raw_amount(250_000_001)),
        Err(RemoveLiquidityError::NotEnoughTokens {
            withdraw_amount: LpTokenAmount::from_raw_amount(250_000_001),
            pool_capacity: LpTokenAmount::from(250),
        })
    );
    assert_eq!(values(&pool), before);
}

#[test]
fn remove_liquidity_reports_a_product_beyond_the_width() {
    let mut pool = story_example_pool();
    let supply: Uint = 1 << 40;
    assert_eq!(
        pool.add_liquidity(TokenAmount::from_raw_amount(supply)),
        Ok(LpTokenAmount::from_raw_amount(supply))
    );
    let before = values(&pool);
    assert_eq!(
        pool.remove_liquidity(LpTokenAmount::from_raw_amount(1 << 24)),
        Err(RemoveLiquidityError::WithdrawCalculationOverflow)
    );
    assert_eq!(values(&pool), before);
    assert_eq!(
        pool.remove_liquidity(LpTokenAmount::from_raw_amount((1 << 24) - 1)),
        Ok((
            TokenAmount::from_raw_amount((1 << 24) - 1),
            StakedTokenAmount::from(0)
        ))
    );
}

#[test]
fn can_execute_swap() {
    let mut non_empty_pool = non_empty_pool();
    let swap_result = non_empty_pool.swap(StakedTokenAmount::from(3)).unwrap();
    assert_ne!(
        swap_result,
        TokenAmount::from(0),
        "successful swap should result in non-zero token amount granted to the caller"
    );
}

#[test]
fn swap_pays_the_quote_less_the_fee_and_keeps_the_fee() {
    let mut pool = non_empty_pool();
    // 3 staked tokens are worth 15 tokens. The fee is that of the reserve
    // less the whole quote, 115 - 15 = 100: the lowest, 10 %.
    let out = pool.swap(StakedTokenAmount::from(3)).unwrap();
    assert_eq!(out.raw(), 13_500_000);
    assert_eq!(
        values(&pool),
        [5_000_000, 101_500_000, 33_000_000, 250_000_000, 100_000_000, 100_000, 200_000]
    );
    // 20 staked tokens are worth 100 tokens; 1.5 are left: fee 0.2 - 0.1 * 1.5 / 100
    let out = pool.swap(StakedTokenAmount::from(20)).unwrap();
    assert_eq!(out.raw(), 80_150_000);
    assert_eq!(pool.token_amount().raw(), 21_350_000);
    assert_eq!(pool.st_token_amount().raw(), 53_000_000);
    assert_eq!(pool.lp_token_amount().raw(), 250_000_000);
}

#[test]
fn swap_may_take_the_whole_quote_from_the_reserve() {
    let mut pool = story_example_pool();
    pool.add_liquidity(TokenAmount::from(9)).unwrap();
    // the quote is the whole reserve: the fee is the highest
    let out = pool.swap(StakedTokenAmount::from(6)).unwrap();
    assert_eq!(out.raw(), 8_190_000);
    assert_eq!(pool.token_amount().raw(), 810_000);
    assert_eq!(pool.st_token_amount().raw(), 6_000_000);
}

#[test]
fn swap_errors_on_not_enough_tokens() {
    let mut empty_pool = empty_pool();
    let swap_result = empty_pool.swap(StakedTokenAmount::from(3));
    assert!(
        swap_result.is_err(),
        "swap on empty pool should always yield err"
    );
}

#[test]
fn swap_beyond_the_reserve_reports_both_amounts_and_changes_nothing() {
    let mut pool = empty_pool();
    assert_eq!(
        pool.swap(StakedTokenAmount::from(3)),
        Err(SwapError::PoolNotEnoughTokens {
            token_amount: TokenAmount::from(6),
            pool_capacity: TokenAmount::from(0),
        })
    );
    assert_eq!(values(&pool), values(&empty_pool()));

    let mut pool = non_empty_pool();
    let before = values(&pool);
    // the quote is held against the reserve before any fee is taken off
    assert_eq!(
        pool.swap(StakedTokenAmount::from_raw_amount(23_000_001)),
        Err(SwapError::PoolNotEnoughTokens {
            token_amount: TokenAmount::from_raw_amount(115_000_005),
            pool_capacity: TokenAmount::from(115),
        })
    );
    assert_eq!(values(&pool), before);
    assert!(pool.swap(StakedTokenAmount::from(23)).is_ok());
}

#[test]
fn swap_errors_on_zero_token_argument() {
    let mut empty_pool = empty_pool();
    let swap_result = empty_pool.swap(StakedTokenAmount::from(0));
    assert!(
        swap_result.is_err(),
        "swap on empty pool should always yield err"
    );
}

#[test]
fn swap_of_nothing_reports_zero_tokens_and_changes_nothing() {
    let mut pool = empty_pool();
    assert_eq!(
        pool.swap(StakedTokenAmount::from(0)),
        Err(SwapError::ZeroTokensAsArgument)
    );
    assert_eq!(values(&pool), values(&empty_pool()));

    let mut pool = non_empty_pool();
    let before = values(&pool);
    assert_eq!(
        pool.swap(StakedTokenAmount::from_raw_amount(0)),
        Err(SwapError::ZeroTokensAsArgument)
    );
    assert_eq!(values(&pool), before);
}

#[test]
fn total_val_values_the_staked_reserve_at_the_price() {
    let mut pool = story_example_pool();
    pool.add_liquidity(TokenAmount::from(100)).unwrap();
    assert_eq!(pool.total_val(), TokenAmount::from(100));
    pool.swap(StakedTokenAmount::from(6)).unwrap();
    // 91.009 tokens and 6 staked tokens at 1.5
    assert_eq!(pool.total_val().raw(), 100_009_000);
}

#[test]
fn deposit_then_withdrawal_returns_no_more_than_the_deposit() {
    // into a pool without balances: all of it, in tokens
    let mut pool = story_example_pool();
    let minted = pool.add_liquidity(TokenAmount::from(10)).unwrap();
    assert_eq!(
        pool.remove_liquidity(minted),
        Ok((TokenAmount::from(10), StakedTokenAmount::from(0)))
    );

    // into a pool that has taken a swap: a share of both reserves
    let mut pool = story_example_pool();
    pool.add_liquidity(TokenAmount::from(100)).unwrap();
    pool.swap(StakedTokenAmount::from(6)).unwrap();
    let price = pool.price();
    let minted = pool.add_liquidity(TokenAmount::from(10)).unwrap();
    let (tokens, staked) = pool.remove_liquidity(minted).unwrap();
    assert_eq!(tokens.raw(), 9_181_885);
    assert_eq!(staked.raw(), 545_409);
    let value = tokens + staked.into_token_amount(price);
    assert_eq!(value.raw(), 9_999_998);
    assert!(value <= TokenAmount::from(10));
}

#[test]
fn story_example() {
    let mut story_example_pool = story_example_pool();
    assert_eq!(
        story_example_pool
            .add_liquidity(TokenAmount::from(100))
            .unwrap(),
        LpTokenAmount::from(100),
        "initial add liquidity"
    );
    assert_eq!(
        story_example_pool.swap(StakedTokenAmount::from(6)).unwrap(),
        TokenAmount::from_raw_amount(scaled(8.991)),
        "first swap"
    );
    assert_eq!(
        story_example_pool
            .add_liquidity(TokenAmount::from(10))
            .unwrap(),
        LpTokenAmount::from_raw_amount(scaled(9.9991)),
        "second add liquidity"
    );
    assert_eq!(
        story_example_pool.swap(StakedTokenAmount::from(30)).unwrap(),
        TokenAmount::from_raw_amount(scaled(43.44237)),
        "second swap"
    );

    let remove_liquidity_result = story_example_pool
        .remove_liquidity(LpTokenAmount::from_raw_amount(scaled(109.9991)))
        .unwrap();
    assert_eq!(
        remove_liquidity_result.0,
        TokenAmount::from_raw_amount(scaled(57.56663)),
        "withdraw"
    );
    assert_eq!(
        remove_liquidity_result.1,
        StakedTokenAmount::from(36),
        "withdraw"
    );
}

#[test]
fn story_example_in_raw_values() {
    let mut pool = story_example_pool();
    assert_eq!(pool.add_liquidity(TokenAmount::from(100)).unwrap().raw(), 100_000_000);
    assert_eq!(pool.swap(StakedTokenAmount::from(6)).unwrap().raw(), 8_991_000);
    assert_eq!(pool.add_liquidity(TokenAmount::from(10)).unwrap().raw(), 9_999_100);
    assert_eq!(pool.swap(StakedTokenAmount::from(30)).unwrap().raw(), 43_442_370);
    let (tokens, staked) = pool
        .remove_liquidity(LpTokenAmount::from_raw_amount(109_999_100))
        .unwrap();
    assert_eq!(tokens.raw(), 57_566_630);
    assert_eq!(staked.raw(), 36_000_000);
    assert_eq!(
        values(&pool),
        [1_500_000, 0, 0, 0, 90_000_000, 1_000, 90_000]
    );
}

#[test]
fn staked_tokens_swapped_for_nothing_go_to_the_first_depositor() {
    // at a price below one the smallest staked amount is worth no token
    let mut pool = LpPool::init(
        Price::from_raw_amount(500_000),
        Percentage::from(0),
        Percentage::from(0),
        TokenAmount::from_raw_amount(1),
    )
    .unwrap();
    assert_eq!(
        pool.swap(StakedTokenAmount::from_raw_amount(1)),
        Ok(TokenAmount::from(0))
    );
    assert_eq!(pool.st_token_amount().raw(), 1);
    assert_eq!(pool.lp_token_amount().raw(), 0);
    let minted = pool.add_liquidity(TokenAmount::from_raw_amount(5)).unwrap();
    assert_eq!(minted.raw(), 5);
    assert_eq!(
        pool.remove_liquidity(minted),
        Ok((
            TokenAmount::from_raw_amount(5),
            StakedTokenAmount::from_raw_amount(1)
        ))
    );
}
