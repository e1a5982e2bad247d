//! Messages of the rewards dispatcher without fields.

use vstd::prelude::*;

verus! {

/// The answer to the buffered-rewards query.
#[derive(Clone, Copy, Debug, PartialEq, Eq, Structural)]
pub struct GetBufferedRewardsResponse {}

/// The migration message of the dispatcher.
#[derive(Clone, Copy, Debug, PartialEq, Eq, Structural)]
pub struct MigrateMsg {}

} // verus!
