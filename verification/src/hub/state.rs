//! The hub's stored data and its exchange-rate bookkeeping.

use crate::decimal::{Decimal, DECIMAL_FRACTIONAL, ratio_atomics};
use vstd::prelude::*;

verus! {

/// Errors of the hub's operations.
#[derive(Clone, Debug, PartialEq, Eq, Structural)]
pub enum HubError {
    /// An intermediate amount cannot be computed: a division by zero, or a
    /// value that exceeds `u128` or drops below zero.
    Arithmetic,
    /// More than one coin was sent along with a bond.
    MoreThanOneCoin,
    /// No positive amount of the underlying denom was sent.
    NoAssetsToBond,
    /// The sender may not perform this operation.
    Unauthorized,
    /// The validators registry has no validator to delegate to.
    EmptyValidatorSet,
    /// A batch would undelegate exactly one unit.
    BurnAmountTooSmall,
    /// Nothing can be withdrawn yet.
    NothingToWithdraw,
    /// The peg recovery fee exceeds one.
    PegRecoveryFeeTooHigh,
    /// A contract address is not registered in the configuration.
    NotRegistered,
    /// The address is not a validator of the chain.
    NotAValidator,
    /// The last whitelisted validator cannot be removed.
    LastValidator,
    /// The hub holds none of the airdropped token.
    NoAirdropBalance,
    /// A conversion takes more Luna from one side than is bonded there.
    ExceedsBondedAmount,
    /// A conversion burns more tokens than were issued.
    ExceedsSupply,
    /// The bLuna token address is set already and cannot change.
    BLunaTokenUpdateForbidden,
    /// The stLuna token address is set already and cannot change.
    StLunaTokenUpdateForbidden,
    /// The contract is paused.
    Paused,
}

/// The hub's global state.
#[derive(Clone, Debug, PartialEq, Eq, Structural)]
pub struct State {
    pub bluna_exchange_rate: Decimal,
    pub stluna_exchange_rate: Decimal,
    pub total_bond_bluna_amount: u128,
    pub total_bond_stluna_amount: u128,
    pub last_index_modification: u64,
    pub prev_hub_balance: u128,
    pub last_unbonded_time: u64,
    pub last_processed_batch: u64,
}

/// The requests collected in the batch that has not been undelegated yet.
#[derive(Clone, Debug, PartialEq, Eq, Structural)]
pub struct CurrentBatch {
    pub id: u64,
    pub requested_bluna_with_fee: u128,
    pub requested_stluna: u128,
}

/// What was undelegated for a batch and at which rates it is paid out.
#[derive(Clone, Debug, PartialEq, Eq, Structural)]
pub struct UnbondHistory {
    pub batch_id: u64,
    pub time: u64,
    pub bluna_amount: u128,
    pub bluna_applied_exchange_rate: Decimal,
    pub bluna_withdraw_rate: Decimal,
    pub stluna_amount: u128,
    pub stluna_applied_exchange_rate: Decimal,
    pub stluna_withdraw_rate: Decimal,
    pub released: bool,
}

/// A user's pending unbond requests in one batch.
#[derive(Clone, Copy, Debug, PartialEq, Eq, Structural)]
pub struct UnbondWaitEntity {
    pub bluna_amount: u128,
    pub stluna_amount: u128,
}

/// Which token an unbond request burns.
#[derive(Clone, Copy, Debug, PartialEq, Eq, Structural)]
pub enum UnbondType {
    BLuna,
    StLuna,
}

/// What a bond mints.
#[derive(Clone, Copy, Debug, PartialEq, Eq, Structural)]
pub enum BondType {
    BLuna,
    StLuna,
    BondRewards,
}

/// The exchange rate `bonded / supply`, or one when either is zero.
pub open spec fn rate_from(bonded: int, supply: int) -> int {
    if bonded == 0 || supply == 0 {
        DECIMAL_FRACTIONAL as int
    } else {
        ratio_atomics(bonded, supply)
    }
}

/// Whether the exchange rate `bonded / (issued + requested)` can be computed in `u128`.
pub open spec fn rate_fits(bonded: int, issued: int, requested: int) -> bool {
    &&& issued + requested <= u128::MAX
    &&& rate_from(bonded, issued + requested) <= u128::MAX
}

/// `bonded / (issued + requested)`, or one when the bonded amount or the supply is zero.
pub fn compute_exchange_rate(bonded: u128, issued: u128, requested: u128) -> (r: Decimal)
    requires
        rate_fits(bonded as int, issued as int, requested as int),
    ensures
        r.atomics == rate_from(bonded as int, issued + requested),
{
    let actual_supply = issued + requested;
    if bonded == 0 || actual_supply == 0 {
        Decimal::one()
    } else {
        Decimal::from_ratio(bonded, actual_supply)
    }
}

impl State {
    /// Sets the bLuna exchange rate to the bonded bLuna amount over the bLuna
    /// supply (issued tokens plus those requested for unbonding).
    pub fn update_bluna_exchange_rate(&mut self, total_issued: u128, requested_with_fee: u128)
        requires
            rate_fits(old(self).total_bond_bluna_amount as int, total_issued as int, requested_with_fee as int),
        ensures
            final(self).bluna_exchange_rate.atomics == rate_from(
                old(self).total_bond_bluna_amount as int,
                total_issued + requested_with_fee,
            ),
            *final(self) == (State { bluna_exchange_rate: final(self).bluna_exchange_rate, ..*old(self) }),
    {
        self.bluna_exchange_rate = compute_exchange_rate(self.total_bond_bluna_amount, total_issued, requested_with_fee);
    }

    /// Sets the stLuna exchange rate to the bonded stLuna amount over the stLuna
    /// supply (issued tokens plus those requested for unbonding).
    pub fn update_stluna_exchange_rate(&mut self, total_issued: u128, requested: u128)
        requires
            rate_fits(old(self).total_bond_stluna_amount as int, total_issued as int, requested as int),
        ensures
            final(self).stluna_exchange_rate.atomics == rate_from(
                old(self).total_bond_stluna_amount as int,
                total_issued + requested,
            ),
            *final(self) == (State { stluna_exchange_rate: final(self).stluna_exchange_rate, ..*old(self) }),
    {
        self.stluna_exchange_rate = compute_exchange_rate(self.total_bond_stluna_amount, total_issued, requested);
    }
}

} // verus!
