//! Holders: rewards accrue to a holder's balance between the holder's index and
//! the global index.

use crate::decimal::{Decimal, checked_mul_uint, mul_floor};
use crate::reward::global::{RewardError, RewardState};
use vstd::prelude::*;

verus! {

/// A bLuna holder as the reward contract tracks it.
#[derive(Clone, Copy, Debug, PartialEq, Eq, Structural)]
pub struct Holder {
    pub balance: u128,
    pub index: Decimal,
    pub pending_rewards: u128,
}

/// A holder that was never seen: nothing held, index zero.
pub fn default_holder() -> (r: Holder)
    ensures
        r == (Holder { balance: 0, index: Decimal { atomics: 0 }, pending_rewards: 0 }),
{
    Holder { balance: 0, index: Decimal::zero(), pending_rewards: 0 }
}

/// `balance * general_index - balance * user_index`, each product rounded down.
pub open spec fn reward_of(general_index: Decimal, user_index: Decimal, balance: u128) -> int {
    mul_floor(balance as int, general_index.atomics as int) - mul_floor(balance as int, user_index.atomics as int)
}

/// Whether the products of `reward_of` fit in `u128` and the difference is not negative.
pub open spec fn reward_computable(general_index: Decimal, user_index: Decimal, balance: u128) -> bool {
    mul_floor(balance as int, general_index.atomics as int) <= u128::MAX
        && mul_floor(balance as int, user_index.atomics as int) <= u128::MAX
        && reward_of(general_index, user_index, balance) >= 0
}

/// The rewards earned by `user_balance` since the holder's index.
pub fn calculate_rewards(general_index: Decimal, user_index: Decimal, user_balance: u128) -> (r: Result<u128, RewardError>)
    ensures
        r == (if reward_computable(general_index, user_index, user_balance) {
            Ok::<u128, RewardError>(reward_of(general_index, user_index, user_balance) as u128)
        } else {
            Err::<u128, RewardError>(RewardError::Arithmetic)
        }),
{
    let g = match checked_mul_uint(user_balance, general_index) {
        Some(v) => v,
        None => return Err(RewardError::Arithmetic),
    };
    let u = match checked_mul_uint(user_balance, user_index) {
        Some(v) => v,
        None => return Err(RewardError::Arithmetic),
    };
    if g < u {
        return Err(RewardError::Arithmetic);
    }
    Ok(g - u)
}

/// What a holder has accrued: the rewards since the holder's index plus the pending ones.
pub open spec fn accrued(state: RewardState, holder: Holder) -> int {
    reward_of(state.global_index, holder.index, holder.balance) + holder.pending_rewards
}

/// The rewards a holder can claim now.
pub fn query_accrued_rewards(state: &RewardState, holder: &Holder) -> (r: Result<u128, RewardError>)
    ensures
        r == (if reward_computable(state.global_index, holder.index, holder.balance)
            && accrued(*state, *holder) <= u128::MAX {
            Ok::<u128, RewardError>(accrued(*state, *holder) as u128)
        } else {
            Err::<u128, RewardError>(RewardError::Arithmetic)
        }),
{
    let rewards = calculate_rewards(state.global_index, holder.index, holder.balance)?;
    if rewards > u128::MAX - holder.pending_rewards {
        return Err(RewardError::Arithmetic);
    }
    Ok(rewards + holder.pending_rewards)
}

/// Claims a holder's rewards: they are paid out, the pending rewards reset and
/// the holder's index moves to the global index. Nothing to claim is an error.
pub fn claim_rewards(state: &RewardState, holder: &Holder) -> (r: Result<(Holder, u128), RewardError>)
    ensures
        ({
            let ok = reward_computable(state.global_index, holder.index, holder.balance)
                && accrued(*state, *holder) <= u128::MAX;
            &&& !ok ==> r == Err::<(Holder, u128), RewardError>(RewardError::Arithmetic)
            &&& ok && accrued(*state, *holder) == 0 ==> r == Err::<(Holder, u128), RewardError>(RewardError::NoReward)
            &&& ok && accrued(*state, *holder) > 0 ==> r == Ok::<(Holder, u128), RewardError>((
                Holder { pending_rewards: 0, index: state.global_index, ..*holder },
                accrued(*state, *holder) as u128,
            ))
        }),
{
    let rewards = query_accrued_rewards(state, holder)?;
    if rewards == 0 {
        return Err(RewardError::NoReward);
    }
    Ok((Holder { pending_rewards: 0, index: state.global_index, ..*holder }, rewards))
}

/// Moves a holder's accrued rewards into the pending rewards and the holder's
/// index to the global index; `None` when an amount cannot be computed.
pub open spec fn settle(state: RewardState, holder: Holder) -> Option<Holder> {
    if reward_computable(state.global_index, holder.index, holder.balance)
        && accrued(state, holder) <= u128::MAX {
        Some(Holder { index: state.global_index, pending_rewards: accrued(state, holder) as u128, ..holder })
    } else {
        None
    }
}

/// Only the bLuna token contract (as registered at the hub) may change balances.
pub fn authorize_token(token_contract: &String, sender: &String) -> (r: Result<(), RewardError>)
    ensures
        r == (if sender@ == token_contract@ {
            Ok::<(), RewardError>(())
        } else {
            Err::<(), RewardError>(RewardError::Unauthorized)
        }),
{
    if *sender != *token_contract {
        return Err(RewardError::Unauthorized);
    }
    Ok(())
}

/// Adds `amount` to a holder's balance (and to the total), settling the
/// rewards accrued so far first.
pub fn increase_balance(state: &RewardState, holder: &Holder, amount: u128) -> (r: Result<(RewardState, Holder), RewardError>)
    ensures
        ({
            let s = settle(*state, *holder);
            if s is None || holder.balance + amount > u128::MAX || state.total_balance + amount > u128::MAX {
                r == Err::<(RewardState, Holder), RewardError>(RewardError::Arithmetic)
            } else {
                r == Ok::<(RewardState, Holder), RewardError>((
                    RewardState { total_balance: (state.total_balance + amount) as u128, ..*state },
                    Holder { balance: (holder.balance + amount) as u128, ..s->0 },
                ))
            }
        }),
{
    let rewards = calculate_rewards(state.global_index, holder.index, holder.balance)?;
    if holder.pending_rewards > u128::MAX - rewards || holder.balance > u128::MAX - amount
        || state.total_balance > u128::MAX - amount {
        return Err(RewardError::Arithmetic);
    }
    Ok((
        RewardState { total_balance: state.total_balance + amount, ..*state },
        Holder {
            index: state.global_index,
            pending_rewards: holder.pending_rewards + rewards,
            balance: holder.balance + amount,
        },
    ))
}

/// Takes `amount` from a holder's balance (and from the total), settling the
/// rewards accrued so far first; more than the balance is an error.
pub fn decrease_balance(state: &RewardState, holder: &Holder, amount: u128) -> (r: Result<(RewardState, Holder), RewardError>)
    ensures
        holder.balance < amount ==> r == Err::<(RewardState, Holder), RewardError>(RewardError::DecreaseExceedsBalance),
        holder.balance >= amount ==> ({
            let s = settle(*state, *holder);
            if s is None || state.total_balance < amount {
                r == Err::<(RewardState, Holder), RewardError>(RewardError::Arithmetic)
            } else {
                r == Ok::<(RewardState, Holder), RewardError>((
                    RewardState { total_balance: (state.total_balance - amount) as u128, ..*state },
                    Holder { balance: (holder.balance - amount) as u128, ..s->0 },
                ))
            }
        }),
{
    if holder.balance < amount {
        return Err(RewardError::DecreaseExceedsBalance);
    }
    let rewards = calculate_rewards(state.global_index, holder.index, holder.balance)?;
    if holder.pending_rewards > u128::MAX - rewards || state.total_balance < amount {
        return Err(RewardError::Arithmetic);
    }
    Ok((
        RewardState { total_balance: state.total_balance - amount, ..*state },
        Holder {
            index: state.global_index,
            pending_rewards: holder.pending_rewards + rewards,
            balance: holder.balance - amount,
        },
    ))
}

} // verus!
