//! The rewards dispatcher: shares the hub's staking rewards between stLuna
//! (restaked as Luna) and bLuna (paid in the reward denom), less a protocol fee.

pub mod rewards;
pub mod msg;
