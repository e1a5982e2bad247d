//! The reward contract's global index and the swap of received rewards.

use crate::coin::Coin;
use crate::decimal::{Decimal, ratio_atomics, checked_from_ratio};
use vstd::prelude::*;

verus! {

/// Errors of the reward contract.
#[derive(Clone, Debug, PartialEq, Eq, Structural)]
pub enum RewardError {
    /// The sender may not perform this operation.
    Unauthorized,
    /// Nothing is bonded, so rewards cannot be distributed.
    NoAssetBonded,
    /// The holder has no reward to claim.
    NoReward,
    /// A decrease exceeds the holder's balance.
    DecreaseExceedsBalance,
    /// An amount cannot be computed: below zero or above `u128`.
    Arithmetic,
}

/// The reward contract's configuration.
#[derive(Clone, Debug, PartialEq, Eq)]
pub struct RewardConfig {
    pub hub_contract: String,
    pub reward_denom: String,
}

/// The reward contract's global state.
#[derive(Clone, Copy, Debug, PartialEq, Eq, Structural)]
pub struct RewardState {
    /// Rewards per bLuna accumulated so far.
    pub global_index: Decimal,
    /// The bLuna held by all holders.
    pub total_balance: u128,
    /// The reward balance at the last index update.
    pub prev_reward_balance: u128,
}

/// A fresh state: zero index, nothing held.
pub fn init_state() -> (r: RewardState)
    ensures
        r == (RewardState { global_index: Decimal { atomics: 0 }, total_balance: 0, prev_reward_balance: 0 }),
{
    RewardState { global_index: Decimal::zero(), total_balance: 0, prev_reward_balance: 0 }
}

/// Distributes the rewards received since the last update: the index grows by
/// `(balance - prev_reward_balance) / total_balance` and the balance is
/// remembered. Only the hub may call; nothing bonded is an error.
pub fn update_global_index(
    config: &RewardConfig,
    state: &RewardState,
    sender: &String,
    reward_balance: u128,
) -> (r: Result<(RewardState, u128), RewardError>)
    ensures
        sender@ != config.hub_contract@ ==> r == Err::<(RewardState, u128), RewardError>(RewardError::Unauthorized),
        sender@ == config.hub_contract@ && state.total_balance == 0
            ==> r == Err::<(RewardState, u128), RewardError>(RewardError::NoAssetBonded),
        sender@ == config.hub_contract@ && state.total_balance != 0 ==> ({
            let claimed = reward_balance - state.prev_reward_balance;
            let index = state.global_index.atomics + ratio_atomics(claimed, state.total_balance as int);
            if claimed < 0 || ratio_atomics(claimed, state.total_balance as int) > u128::MAX || index > u128::MAX {
                r == Err::<(RewardState, u128), RewardError>(RewardError::Arithmetic)
            } else {
                r == Ok::<(RewardState, u128), RewardError>((
                    RewardState {
                        global_index: Decimal { atomics: index as u128 },
                        prev_reward_balance: reward_balance,
                        ..*state
                    },
                    claimed as u128,
                ))
            }
        }),
{
    if *sender != config.hub_contract {
        return Err(RewardError::Unauthorized);
    }
    if state.total_balance == 0 {
        return Err(RewardError::NoAssetBonded);
    }
    if reward_balance < state.prev_reward_balance {
        return Err(RewardError::Arithmetic);
    }
    let claimed = reward_balance - state.prev_reward_balance;
    let increment = match checked_from_ratio(claimed, state.total_balance) {
        Some(d) => d,
        None => return Err(RewardError::Arithmetic),
    };
    if state.global_index.atomics > u128::MAX - increment.atomics {
        return Err(RewardError::Arithmetic);
    }
    Ok((
        RewardState {
            global_index: state.global_index.add(increment),
            prev_reward_balance: reward_balance,
            ..*state
        },
        claimed,
    ))
}

/// Only the hub may have the received rewards swapped.
pub fn authorize_swap(config: &RewardConfig, sender: &String) -> (r: Result<(), RewardError>)
    ensures
        r == (if sender@ == config.hub_contract@ {
            Ok::<(), RewardError>(())
        } else {
            Err::<(), RewardError>(RewardError::Unauthorized)
        }),
{
    if *sender != config.hub_contract {
        return Err(RewardError::Unauthorized);
    }
    Ok(())
}

/// Whether coin `i` of the balance is swapped to the reward denom: it is not
/// the reward denom, and either all denoms have an exchange rate or this one does.
pub open spec fn swapped(balance: Seq<Coin>, reward_denom: Seq<char>, all_listed: bool, listed: Seq<bool>, i: int) -> bool {
    balance[i].denom@ != reward_denom && (all_listed || listed[i])
}

/// The indices, among the first `n` coins, that are swapped.
pub open spec fn swap_indices(balance: Seq<Coin>, reward_denom: Seq<char>, all_listed: bool, listed: Seq<bool>, n: int) -> Seq<int>
    decreases n,
{
    if n <= 0 {
        Seq::empty()
    } else {
        let prefix = swap_indices(balance, reward_denom, all_listed, listed, n - 1);
        if swapped(balance, reward_denom, all_listed, listed, n - 1) { prefix.push(n - 1) } else { prefix }
    }
}

/// The coins of the contract's balance to swap to the reward denom, in order.
/// `all_listed` says whether the oracle has exchange rates for every denom of
/// the balance; when it has not, `listed[i]` says whether it has one for coin `i`.
pub fn swap_plan(balance: &Vec<Coin>, reward_denom: &String, all_listed: bool, listed: &Vec<bool>) -> (r: Vec<usize>)
    requires
        !all_listed ==> listed.len() == balance.len(),
    ensures
        r@.len() == swap_indices(balance@, reward_denom@, all_listed, listed@, balance.len() as int).len(),
        forall|k: int| 0 <= k < r@.len() ==>
            r@[k] as int == #[trigger] swap_indices(balance@, reward_denom@, all_listed, listed@, balance.len() as int)[k],
{
    let mut r: Vec<usize> = Vec::new();
    let mut i: usize = 0;
    while i < balance.len()
        invariant
            i <= balance.len(),
            !all_listed ==> listed.len() == balance.len(),
            r@.len() == swap_indices(balance@, reward_denom@, all_listed, listed@, i as int).len(),
            forall|k: int| 0 <= k < r@.len() ==>
                r@[k] as int == #[trigger] swap_indices(balance@, reward_denom@, all_listed, listed@, i as int)[k],
        decreases balance.len() - i,
    {
        let is_reward = balance[i].denom == *reward_denom;
        if !is_reward && (all_listed || listed[i]) {
            r.push(i);
        }
        i = i + 1;
    }
    r
}

} // verus!
