//! Withdrawing unbonded Luna: valuing a user's requests at the withdraw rates
//! of the released batches.

use crate::decimal::{checked_mul_uint, mul_floor};
use crate::hub::state::{HubError, State, UnbondHistory, UnbondWaitEntity};
use vstd::prelude::*;

verus! {

/// A user's request in one batch, with the batch's history when it exists.
#[derive(Clone, Debug, PartialEq, Eq, Structural)]
pub struct WaitEntry {
    pub batch_id: u64,
    pub request: UnbondWaitEntity,
    pub history: Option<UnbondHistory>,
}

/// The Luna that a request is worth at the withdraw rates of its batch.
pub open spec fn request_value(request: UnbondWaitEntity, h: UnbondHistory) -> int {
    mul_floor(request.stluna_amount as int, h.stluna_withdraw_rate.atomics as int)
        + mul_floor(request.bluna_amount as int, h.bluna_withdraw_rate.atomics as int)
}

/// Whether an entry counts: its batch was released, or (by time) its batch was
/// undelegated before `block_time`.
pub open spec fn entry_counts(e: WaitEntry, by_time: bool, block_time: u64) -> bool {
    match e.history {
        Some(h) => if by_time { h.time < block_time } else { h.released },
        None => false,
    }
}

/// Sum of the values of the first `n` entries that count.
pub open spec fn withdrawable_sum(entries: Seq<WaitEntry>, by_time: bool, block_time: u64, n: int) -> int
    decreases n,
{
    if n <= 0 {
        0
    } else {
        let e = entries[n - 1];
        withdrawable_sum(entries, by_time, block_time, n - 1) + (if entry_counts(e, by_time, block_time) {
            request_value(e.request, e.history->0)
        } else {
            0
        })
    }
}

proof fn lemma_value_nonneg(request: UnbondWaitEntity, h: UnbondHistory)
    ensures
        request_value(request, h) >= 0,
        mul_floor(request.stluna_amount as int, h.stluna_withdraw_rate.atomics as int) >= 0,
        mul_floor(request.bluna_amount as int, h.bluna_withdraw_rate.atomics as int) >= 0,
{
    let a = request.stluna_amount as int;
    let b = h.stluna_withdraw_rate.atomics as int;
    let c = request.bluna_amount as int;
    let d = h.bluna_withdraw_rate.atomics as int;
    assert(a * b / 1_000_000_000_000_000_000int >= 0) by (nonlinear_arith)
        requires a >= 0, b >= 0;
    assert(c * d / 1_000_000_000_000_000_000int >= 0) by (nonlinear_arith)
        requires c >= 0, d >= 0;
}

proof fn lemma_withdrawable_monotone(entries: Seq<WaitEntry>, by_time: bool, block_time: u64, i: int, j: int)
    requires
        0 <= i <= j <= entries.len(),
    ensures
        0 <= withdrawable_sum(entries, by_time, block_time, i) <= withdrawable_sum(entries, by_time, block_time, j),
    decreases j,
{
    if j > 0 {
        let e = entries[j - 1];
        if entry_counts(e, by_time, block_time) {
            lemma_value_nonneg(e.request, e.history->0);
        }
        if i < j {
            lemma_withdrawable_monotone(entries, by_time, block_time, i, j - 1);
        } else {
            lemma_withdrawable_monotone(entries, by_time, block_time, j - 1, j - 1);
        }
    }
}

fn sum_withdrawable(entries: &Vec<WaitEntry>, by_time: bool, block_time: u64) -> (r: Result<u128, HubError>)
    ensures
        ({
            let total = withdrawable_sum(entries@, by_time, block_time, entries.len() as int);
            r == (if total <= u128::MAX { Ok::<u128, HubError>(total as u128) } else { Err::<u128, HubError>(HubError::Arithmetic) })
        }),
{
    let mut total: u128 = 0;
    let mut i: usize = 0;
    while i < entries.len()
        invariant
            i <= entries.len(),
            total == withdrawable_sum(entries@, by_time, block_time, i as int),
        decreases entries.len() - i,
    {
        let e = &entries[i];
        proof {
            lemma_withdrawable_monotone(entries@, by_time, block_time, i as int + 1, entries.len() as int);
            lemma_withdrawable_monotone(entries@, by_time, block_time, 0, i as int);
        }
        match &e.history {
            Some(h) => {
                let counts = if by_time { h.time < block_time } else { h.released };
                if counts {
                    proof { lemma_value_nonneg(e.request, *h); }
                    let st = match checked_mul_uint(e.request.stluna_amount, h.stluna_withdraw_rate) {
                        Some(v) => v,
                        None => return Err(HubError::Arithmetic),
                    };
                    let bl = match checked_mul_uint(e.request.bluna_amount, h.bluna_withdraw_rate) {
                        Some(v) => v,
                        None => return Err(HubError::Arithmetic),
                    };
                    if st > u128::MAX - bl || total > u128::MAX - (st + bl) {
                        return Err(HubError::Arithmetic);
                    }
                    total = total + (st + bl);
                }
            },
            None => {},
        }
        i = i + 1;
    }
    proof { lemma_withdrawable_monotone(entries@, by_time, block_time, 0, entries.len() as int); }
    Ok(total)
}

/// The Luna a user can withdraw: the requests of released batches valued at
/// their withdraw rates. An error when the sum exceeds `u128`.
pub fn get_finished_amount(entries: &Vec<WaitEntry>) -> (r: Result<u128, HubError>)
    ensures
        ({
            let total = withdrawable_sum(entries@, false, 0, entries.len() as int);
            r == (if total <= u128::MAX { Ok::<u128, HubError>(total as u128) } else { Err::<u128, HubError>(HubError::Arithmetic) })
        }),
{
    sum_withdrawable(entries, false, 0)
}

/// The Luna a user's requests are worth at their batches' withdraw rates,
/// counting the batches undelegated before `block_time`.
pub fn query_get_finished_amount(entries: &Vec<WaitEntry>, block_time: u64) -> (r: Result<u128, HubError>)
    ensures
        ({
            let total = withdrawable_sum(entries@, true, block_time, entries.len() as int);
            r == (if total <= u128::MAX { Ok::<u128, HubError>(total as u128) } else { Err::<u128, HubError>(HubError::Arithmetic) })
        }),
{
    sum_withdrawable(entries, true, block_time)
}

/// The ids of the first `n` entries whose batch was released.
pub open spec fn released_batches(entries: Seq<WaitEntry>, n: int) -> Seq<u64>
    decreases n,
{
    if n <= 0 {
        Seq::empty()
    } else {
        let e = entries[n - 1];
        let prefix = released_batches(entries, n - 1);
        if entry_counts(e, false, 0) { prefix.push(e.batch_id) } else { prefix }
    }
}

/// The batches of a user's entries that were released (and are paid out by a withdrawal).
pub fn get_unbond_batches(entries: &Vec<WaitEntry>) -> (r: Vec<u64>)
    ensures
        r@ == released_batches(entries@, entries.len() as int),
{
    let mut res: Vec<u64> = Vec::new();
    let mut i: usize = 0;
    while i < entries.len()
        invariant
            i <= entries.len(),
            res@ == released_batches(entries@, i as int),
        decreases entries.len() - i,
    {
        let e = &entries[i];
        match &e.history {
            Some(h) => {
                if h.released {
                    res.push(e.batch_id);
                }
            },
            None => {},
        }
        i = i + 1;
    }
    res
}

/// `now - period`, the latest undelegation time whose batch can be paid out;
/// an error when `period` is longer than `now`.
pub fn past_time(now: u64, period: u64) -> (r: Result<u64, HubError>)
    ensures
        r == (if now >= period { Ok::<u64, HubError>((now - period) as u64) } else { Err::<u64, HubError>(HubError::Arithmetic) }),
{
    if now < period {
        Err(HubError::Arithmetic)
    } else {
        Ok(now - period)
    }
}

/// Completes a withdrawal of `withdraw_amount` out of the hub's `hub_balance`:
/// nothing to withdraw is an error; otherwise the balance left is recorded as the
/// previous hub balance for the next release.
pub fn finish_withdraw(state: &State, hub_balance: u128, withdraw_amount: u128) -> (r: Result<State, HubError>)
    ensures
        withdraw_amount == 0 ==> r == Err::<State, HubError>(HubError::NothingToWithdraw),
        withdraw_amount > 0 && hub_balance < withdraw_amount ==> r == Err::<State, HubError>(HubError::Arithmetic),
        withdraw_amount > 0 && hub_balance >= withdraw_amount ==> r == Ok::<State, HubError>(
            State { prev_hub_balance: (hub_balance - withdraw_amount) as u128, ..*state }),
{
    if withdraw_amount == 0 {
        return Err(HubError::NothingToWithdraw);
    }
    if hub_balance < withdraw_amount {
        return Err(HubError::Arithmetic);
    }
    Ok(State { prev_hub_balance: hub_balance - withdraw_amount, ..*state })
}

} // verus!
