//! Liquidity accounting for a two-asset pool whose liquidity is committed to
//! ranges of discrete price ticks.
//!
//! The crate validates a tick range against a pool's grid, turns two deposited
//! amounts into liquidity units, and keeps the pool's aggregate and each
//! owner's position consistent. Token custody and record storage are left to
//! the caller, which hands their answers in as plain values.

pub mod add_liquidity;
pub mod errors;
pub mod initialize_pool;
pub mod keys;
pub mod liquidity;
pub mod state;
pub mod tick_math;
