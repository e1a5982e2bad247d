//! Responses of the hub's queries that carry plain values.

use crate::gov::state::EpochId;
use vstd::prelude::*;

verus! {

/// The epochs in which a user has unbond requests.
#[derive(Clone, Debug, PartialEq, Eq)]
pub struct UnbondEpochsResponse {
    pub unbond_epochs: Vec<u64>,
}

/// The current epoch.
#[derive(Clone, Copy, Debug, PartialEq, Eq, Structural)]
pub struct CurrentEpochResponse {
    pub epoch_id: EpochId,
}

/// When the reward index was last updated.
#[derive(Clone, Copy, Debug, PartialEq, Eq, Structural)]
pub struct LastIndexModificationResponse {
    pub time: u64,
}

/// A claim message of the MIR airdrop, as the hub forwards it.
#[derive(Clone, Copy, Debug, PartialEq, Eq, Structural)]
pub enum MIRMsg {
    MIRClaim {},
}

} // verus!
