//! The hub contract: bonding Luna for bLuna or stLuna, unbonding in batches,
//! slashing detection, conversion between the two tokens and withdrawals.

pub mod state;
pub mod math;
pub mod bond;
pub mod slashing;
pub mod unbond;
pub mod withdraw;
pub mod withdraw_rate;
pub mod convert;
pub mod config;
pub mod keys;
pub mod migrate;
pub mod msg;
pub mod validators;
pub mod global;
