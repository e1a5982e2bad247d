//! Verified core of the bAsset liquid-staking contracts: the hub that bonds and
//! unbonds Luna for bLuna/stLuna, the bLuna reward index, the rewards dispatcher,
//! the legacy governance contract and the airdrop registry.

pub mod coin;
pub mod decimal;
pub mod hub;
pub mod reward;
pub mod tax;
pub mod dispatcher;
pub mod gov;
pub mod airdrop;
pub mod laws;
mod random;
