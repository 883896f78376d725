//! A single-sided unstake liquidity pool over fixed-point quantities.

pub mod error;
pub mod fixed_point;
pub mod lp_pool;
pub mod pool_state;
pub mod types;
