//! Moving the single-token hub's stored values to the two-token layout.

use crate::decimal::{Decimal, DECIMAL_FRACTIONAL};
use crate::hub::config::Config;
use crate::hub::state::{CurrentBatch, State, UnbondHistory, UnbondWaitEntity};
use vstd::prelude::*;

verus! {

/// The hub's state before stLuna.
#[derive(Clone, Copy, Debug, PartialEq, Eq, Structural)]
pub struct OldState {
    pub exchange_rate: Decimal,
    pub total_bond_amount: u128,
    pub last_index_modification: u64,
    pub prev_hub_balance: u128,
    pub actual_unbonded_amount: u128,
    pub last_unbonded_time: u64,
    pub last_processed_batch: u64,
}

/// The hub's configuration before stLuna.
#[derive(Clone, Debug, PartialEq, Eq)]
pub struct OldConfig {
    pub creator: String,
    pub reward_contract: Option<String>,
    pub token_contract: Option<String>,
    pub airdrop_registry_contract: Option<String>,
}

/// The current batch before stLuna.
#[derive(Clone, Copy, Debug, PartialEq, Eq, Structural)]
pub struct OldCurrentBatch {
    pub id: u64,
    pub requested_with_fee: u128,
}

/// A history entry before stLuna.
#[derive(Clone, Copy, Debug, PartialEq, Eq, Structural)]
pub struct OldUnbondHistory {
    pub batch_id: u64,
    pub time: u64,
    pub amount: u128,
    pub applied_exchange_rate: Decimal,
    pub withdraw_rate: Decimal,
    pub released: bool,
}

/// The state after migration: all bonded Luna is bLuna's, the stLuna rate is one.
pub fn migrate_state(old: OldState) -> (r: State)
    ensures
        r == (State {
            bluna_exchange_rate: old.exchange_rate,
            stluna_exchange_rate: Decimal { atomics: DECIMAL_FRACTIONAL },
            total_bond_bluna_amount: old.total_bond_amount,
            total_bond_stluna_amount: 0,
            last_index_modification: old.last_index_modification,
            prev_hub_balance: old.prev_hub_balance,
            last_unbonded_time: old.last_unbonded_time,
            last_processed_batch: old.last_processed_batch,
        }),
{
    State {
        bluna_exchange_rate: old.exchange_rate,
        stluna_exchange_rate: Decimal::one(),
        total_bond_bluna_amount: old.total_bond_amount,
        total_bond_stluna_amount: 0,
        last_index_modification: old.last_index_modification,
        prev_hub_balance: old.prev_hub_balance,
        last_unbonded_time: old.last_unbonded_time,
        last_processed_batch: old.last_processed_batch,
    }
}

/// The configuration after migration, with the new contracts registered.
pub fn migrate_config(
    old: OldConfig,
    reward_dispatcher_contract: String,
    validators_registry_contract: String,
    stluna_token_contract: String,
) -> (r: Config)
    ensures
        r == (Config {
            creator: old.creator,
            reward_dispatcher_contract: Some(reward_dispatcher_contract),
            validators_registry_contract: Some(validators_registry_contract),
            bluna_token_contract: old.token_contract,
            airdrop_registry_contract: old.airdrop_registry_contract,
            stluna_token_contract: Some(stluna_token_contract),
        }),
{
    Config {
        creator: old.creator,
        reward_dispatcher_contract: Some(reward_dispatcher_contract),
        validators_registry_contract: Some(validators_registry_contract),
        bluna_token_contract: old.token_contract,
        airdrop_registry_contract: old.airdrop_registry_contract,
        stluna_token_contract: Some(stluna_token_contract),
    }
}

/// The current batch after migration: its requests are all bLuna's.
pub fn migrate_current_batch(old: OldCurrentBatch) -> (r: CurrentBatch)
    ensures
        r == (CurrentBatch { id: old.id, requested_bluna_with_fee: old.requested_with_fee, requested_stluna: 0 }),
{
    CurrentBatch { id: old.id, requested_bluna_with_fee: old.requested_with_fee, requested_stluna: 0 }
}

/// A wait-list amount after migration: a bLuna request.
pub fn migrate_unbond_wait_entry(amount: u128) -> (r: UnbondWaitEntity)
    ensures
        r == (UnbondWaitEntity { bluna_amount: amount, stluna_amount: 0 }),
{
    UnbondWaitEntity { bluna_amount: amount, stluna_amount: 0 }
}

/// A history entry after migration: its amount and rates are bLuna's; the
/// stLuna side is empty with rates of one.
pub fn migrate_unbond_history(old: OldUnbondHistory) -> (r: UnbondHistory)
    ensures
        r == (UnbondHistory {
            batch_id: old.batch_id,
            time: old.time,
            bluna_amount: old.amount,
            bluna_applied_exchange_rate: old.applied_exchange_rate,
            bluna_withdraw_rate: old.withdraw_rate,
            stluna_amount: 0,
            stluna_applied_exchange_rate: Decimal { atomics: DECIMAL_FRACTIONAL },
            stluna_withdraw_rate: Decimal { atomics: DECIMAL_FRACTIONAL },
            released: old.released,
        }),
{
    UnbondHistory {
        batch_id: old.batch_id,
        time: old.time,
        bluna_amount: old.amount,
        bluna_applied_exchange_rate: old.applied_exchange_rate,
        bluna_withdraw_rate: old.withdraw_rate,
        stluna_amount: 0,
        stluna_applied_exchange_rate: Decimal::one(),
        stluna_withdraw_rate: Decimal::one(),
        released: old.released,
    }
}

} // verus!
