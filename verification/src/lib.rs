//! Settlement core of a two-asset constant-product liquidity pool.
//!
//! The crate keeps a pair of reserves, prices swaps against them, mints and
//! burns a liquidity-share token, and routes a slice of each swap's fee to a
//! configurable set of destinations.  All amounts are exact integers and every
//! state change is specified and proved against the mathematical formulas the
//! pool is built on.

pub mod amm;
pub mod config;
pub mod errors;
pub mod fee;
pub mod laws;
pub mod liquidity_pool;
pub mod math;
pub mod pool;
pub mod remove_liquidity;
pub mod storage_cache;
pub mod types;
