//! The governance contract of the first bLuna design: epochs of unbonding
//! requests, minting and burning at the pool's exchange rate.

pub mod state;
pub mod math;
pub mod contract;
pub mod config;

