//! Detecting a slashing of the hub's delegations and lowering the exchange
//! rates accordingly.

use crate::coin::Coin;
use crate::decimal::{Decimal, mul_floor, mul_uint, ratio_atomics, lemma_ratio_at_most_one, lemma_mul_floor_at_most};
use crate::hub::bond::compute_exchange_rate_checked;
use crate::hub::state::{CurrentBatch, HubError, State, rate_fits, rate_from};
use vstd::prelude::*;

verus! {

/// Sum of the amounts of the coins of `denom` among the first `n` coins.
pub open spec fn sum_in_denom(coins: Seq<Coin>, denom: Seq<char>, n: int) -> int
    decreases n,
{
    if n <= 0 {
        0
    } else {
        sum_in_denom(coins, denom, n - 1) + (if coins[n - 1].denom@ == denom { coins[n - 1].amount as int } else { 0 })
    }
}

proof fn lemma_sum_in_denom_monotone(coins: Seq<Coin>, denom: Seq<char>, i: int, j: int)
    requires
        0 <= i <= j,
    ensures
        sum_in_denom(coins, denom, i) <= sum_in_denom(coins, denom, j),
    decreases j - i,
{
    if i < j {
        lemma_sum_in_denom_monotone(coins, denom, i, j - 1);
    }
}

/// The total amount delegated in `denom`, or `None` when it exceeds `u128`.
pub fn total_bonded_in_denom(delegations: &Vec<Coin>, denom: &String) -> (r: Option<u128>)
    ensures
        sum_in_denom(delegations@, denom@, delegations.len() as int) >= 0,
        r == (if sum_in_denom(delegations@, denom@, delegations.len() as int) <= u128::MAX {
            Some(sum_in_denom(delegations@, denom@, delegations.len() as int) as u128)
        } else {
            None::<u128>
        }),
{
    let mut total: u128 = 0;
    let mut i: usize = 0;
    while i < delegations.len()
        invariant
            i <= delegations.len(),
            total == sum_in_denom(delegations@, denom@, i as int),
        decreases delegations.len() - i,
    {
        if delegations[i].denom == *denom {
            if total > u128::MAX - delegations[i].amount {
                proof {
                    lemma_sum_in_denom_monotone(delegations@, denom@, i + 1, delegations.len() as int);
                    lemma_sum_in_denom_monotone(delegations@, denom@, 0, delegations.len() as int);
                }
                return None;
            }
            total = total + delegations[i].amount;
        }
        i = i + 1;
    }
    proof {
        lemma_sum_in_denom_monotone(delegations@, denom@, 0, delegations.len() as int);
    }
    Some(total)
}

/// Whether the delegations now hold less than the state believes is bonded.
pub open spec fn slashing_detected(state: State, actual_total_bonded: int) -> bool {
    let state_total = state.total_bond_bluna_amount + state.total_bond_stluna_amount;
    state_total != 0 && actual_total_bonded < state_total
}

/// Whether a slashing was detected: the state's bonded amounts sum to more than
/// the delegations hold. `None` when that sum exceeds `u128`.
pub fn detect_slashing(state: &State, actual_total_bonded: u128) -> (r: Option<bool>)
    ensures
        r == (if state.total_bond_bluna_amount + state.total_bond_stluna_amount <= u128::MAX {
            Some(slashing_detected(*state, actual_total_bonded as int))
        } else {
            None::<bool>
        }),
{
    if state.total_bond_bluna_amount > u128::MAX - state.total_bond_stluna_amount {
        return None;
    }
    let state_total = state.total_bond_bluna_amount + state.total_bond_stluna_amount;
    Some(state_total != 0 && actual_total_bonded < state_total)
}

/// The first step of the slashing check: `Ok(Some(actual))` when the hub has
/// delegations and their total `actual` in the underlying denom is below the
/// bonded amounts of the state (a slashing to apply with `apply_slashing`),
/// `Ok(None)` when there is nothing to do.
pub fn check_slashing(state: &State, delegations: &Vec<Coin>, denom: &String) -> (r: Result<Option<u128>, HubError>)
    ensures
        delegations.len() == 0 ==> r == Ok::<Option<u128>, HubError>(None),
        delegations.len() > 0 ==> (r is Err <==> (sum_in_denom(delegations@, denom@, delegations.len() as int) > u128::MAX
            || state.total_bond_bluna_amount + state.total_bond_stluna_amount > u128::MAX)),
        r is Err ==> r == Err::<Option<u128>, HubError>(HubError::Arithmetic),
        delegations.len() > 0 ==> (r matches Ok(o) ==> (o is Some <==> slashing_detected(*state,
            sum_in_denom(delegations@, denom@, delegations.len() as int)))),
        r matches Ok(Some(a)) ==> a == sum_in_denom(delegations@, denom@, delegations.len() as int),
        r matches Ok(Some(actual)) ==> slashing_detected(*state, actual as int)
            && state.total_bond_bluna_amount + state.total_bond_stluna_amount <= u128::MAX,
{
    if delegations.len() == 0 {
        return Ok(None);
    }
    let actual = match total_bonded_in_denom(delegations, denom) {
        Some(a) => a,
        None => return Err(HubError::Arithmetic),
    };
    match detect_slashing(state, actual) {
        Some(true) => Ok(Some(actual)),
        Some(false) => Ok(None),
        None => Err(HubError::Arithmetic),
    }
}

/// The bLuna part of the actual bonded amount after a slashing: the actual total
/// split in the proportion that the state's bonded amounts had.
pub open spec fn slashed_bluna_bonded(state: State, actual_total_bonded: int) -> int {
    let state_total = state.total_bond_bluna_amount + state.total_bond_stluna_amount;
    mul_floor(actual_total_bonded, ratio_atomics(state.total_bond_bluna_amount as int, state_total))
}

/// Applies a detected slashing: the bonded amounts are set to the actual bonded
/// amount, split between bLuna and stLuna in their previous proportion, and both
/// exchange rates are recomputed against the tokens issued and requested.
pub fn apply_slashing(
    state: &State,
    actual_total_bonded: u128,
    bluna_total_issued: u128,
    stluna_total_issued: u128,
    batch: &CurrentBatch,
) -> (r: Result<State, HubError>)
    requires
        slashing_detected(*state, actual_total_bonded as int),
        state.total_bond_bluna_amount + state.total_bond_stluna_amount <= u128::MAX,
    ensures
        ({
            let bluna = slashed_bluna_bonded(*state, actual_total_bonded as int);
            let stluna = actual_total_bonded - bluna;
            let ok = rate_fits(bluna, bluna_total_issued as int, batch.requested_bluna_with_fee as int)
                && rate_fits(stluna, stluna_total_issued as int, batch.requested_stluna as int);
            &&& r is Ok <==> ok
            &&& r is Err ==> r == Err::<State, HubError>(HubError::Arithmetic)
            &&& r matches Ok(s) ==> {
                &&& s.total_bond_bluna_amount == bluna
                &&& s.total_bond_stluna_amount == stluna
                &&& s.total_bond_bluna_amount + s.total_bond_stluna_amount == actual_total_bonded
                &&& s.bluna_exchange_rate.atomics == rate_from(bluna, bluna_total_issued + batch.requested_bluna_with_fee)
                &&& s.stluna_exchange_rate.atomics == rate_from(stluna, stluna_total_issued + batch.requested_stluna)
                &&& s == (State {
                    total_bond_bluna_amount: s.total_bond_bluna_amount,
                    total_bond_stluna_amount: s.total_bond_stluna_amount,
                    bluna_exchange_rate: s.bluna_exchange_rate,
                    stluna_exchange_rate: s.stluna_exchange_rate,
                    ..*state
                })
            }
        }),
{
    let state_total = state.total_bond_bluna_amount + state.total_bond_stluna_amount;
    proof {
        lemma_ratio_at_most_one(state.total_bond_bluna_amount as int, state_total as int);
    }
    let bluna_bond_ratio = Decimal::from_ratio(state.total_bond_bluna_amount, state_total);
    proof {
        lemma_mul_floor_at_most(actual_total_bonded as int, bluna_bond_ratio.atomics as int);
    }
    let bluna = mul_uint(actual_total_bonded, bluna_bond_ratio);
    let stluna = actual_total_bonded - bluna;
    let bluna_rate = match compute_exchange_rate_checked(bluna, bluna_total_issued, batch.requested_bluna_with_fee) {
        Some(d) => d,
        None => return Err(HubError::Arithmetic),
    };
    let stluna_rate = match compute_exchange_rate_checked(stluna, stluna_total_issued, batch.requested_stluna) {
        Some(d) => d,
        None => return Err(HubError::Arithmetic),
    };
    Ok(State {
        total_bond_bluna_amount: bluna,
        total_bond_stluna_amount: stluna,
        bluna_exchange_rate: bluna_rate,
        stluna_exchange_rate: stluna_rate,
        ..*state
    })
}

} // verus!
