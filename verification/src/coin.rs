//! Native coins as plain values.

use vstd::prelude::*;

verus! {

/// An amount of a native denomination.
#[derive(Clone, Debug, PartialEq, Eq)]
pub struct Coin {
    pub denom: String,
    pub amount: u128,
}

} // verus!
