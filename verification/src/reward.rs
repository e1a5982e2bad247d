//! The bLuna reward contract: a global reward index that grows with the
//! rewards received, and each holder's index and pending rewards.

pub mod math;
pub mod global;
pub mod user;
