//! Unbonding: requests collected per batch, batches undelegated once per
//! epoch, and the withdrawal of released batches.

use crate::decimal::{Decimal, checked_mul_uint, mul_floor};
use crate::hub::bond::compute_exchange_rate_checked;
use crate::hub::state::{CurrentBatch, HubError, State, UnbondHistory, UnbondType, UnbondWaitEntity, rate_fits, rate_from};
use vstd::prelude::*;

verus! {

/// The bLuna amount that an unbond of `amount` records once the peg recovery fee
/// is taken, or `None` when an intermediate amount cannot be computed.
///
/// Below the threshold rate the fee is the smaller of `amount * recovery_fee`
/// and the excess of the bLuna supply (issued plus requested) over the bonded Luna.
pub open spec fn bluna_unbond_with_fee(
    rate: int,
    threshold: int,
    recovery_fee: int,
    bonded: int,
    requested: int,
    amount: int,
    supply: int,
) -> Option<int> {
    if rate < threshold {
        let max_peg_fee = mul_floor(amount, recovery_fee);
        let with_requested = supply + requested;
        if max_peg_fee > u128::MAX || with_requested > u128::MAX || with_requested < bonded {
            None
        } else {
            let required_peg_fee = with_requested - bonded;
            let peg_fee = if max_peg_fee < required_peg_fee { max_peg_fee } else { required_peg_fee };
            if amount < peg_fee { None } else { Some(amount - peg_fee) }
        }
    } else {
        Some(amount)
    }
}

/// Records a request to unbond `amount` bLuna in the current batch.
///
/// Returns the new state and batch and the amount recorded for the user (the
/// amount net of the peg recovery fee). The burnt tokens leave the supply, so the
/// bLuna exchange rate is recomputed over `total_supply - amount` plus the
/// requests of the batch.
pub fn request_unbond_bluna(
    state: &State,
    er_threshold: Decimal,
    peg_recovery_fee: Decimal,
    batch: &CurrentBatch,
    amount: u128,
    total_supply: u128,
) -> (r: Result<(State, CurrentBatch, u128), HubError>)
    ensures
        ({
            let w = bluna_unbond_with_fee(
                state.bluna_exchange_rate.atomics as int,
                er_threshold.atomics as int,
                peg_recovery_fee.atomics as int,
                state.total_bond_bluna_amount as int,
                batch.requested_bluna_with_fee as int,
                amount as int,
                total_supply as int,
            );
            let requested = batch.requested_bluna_with_fee + w->0;
            let supply = total_supply - amount;
            let ok = w is Some && requested <= u128::MAX && supply >= 0
                && rate_fits(state.total_bond_bluna_amount as int, supply, requested);
            &&& r is Ok <==> ok
            &&& r is Err ==> r == Err::<(State, CurrentBatch, u128), HubError>(HubError::Arithmetic)
            &&& r matches Ok((s, b, recorded)) ==> {
                &&& recorded == w->0
                &&& b == (CurrentBatch { requested_bluna_with_fee: requested as u128, ..*batch })
                &&& s.bluna_exchange_rate.atomics == rate_from(state.total_bond_bluna_amount as int, supply + requested)
                &&& s == (State { bluna_exchange_rate: s.bluna_exchange_rate, ..*state })
            }
        }),
{
    let mut amount_with_fee = amount;
    if state.bluna_exchange_rate.lt(&er_threshold) {
        let max_peg_fee = match checked_mul_uint(amount, peg_recovery_fee) {
            Some(f) => f,
            None => return Err(HubError::Arithmetic),
        };
        if total_supply > u128::MAX - batch.requested_bluna_with_fee {
            return Err(HubError::Arithmetic);
        }
        let with_requested = total_supply + batch.requested_bluna_with_fee;
        if with_requested < state.total_bond_bluna_amount {
            return Err(HubError::Arithmetic);
        }
        let required_peg_fee = with_requested - state.total_bond_bluna_amount;
        let peg_fee = if max_peg_fee < required_peg_fee { max_peg_fee } else { required_peg_fee };
        if amount < peg_fee {
            return Err(HubError::Arithmetic);
        }
        amount_with_fee = amount - peg_fee;
    }
    if batch.requested_bluna_with_fee > u128::MAX - amount_with_fee || total_supply < amount {
        return Err(HubError::Arithmetic);
    }
    let requested = batch.requested_bluna_with_fee + amount_with_fee;
    let supply = total_supply - amount;
    match compute_exchange_rate_checked(state.total_bond_bluna_amount, supply, requested) {
        Some(rate) => Ok((
            State { bluna_exchange_rate: rate, ..*state },
            CurrentBatch { requested_bluna_with_fee: requested, ..*batch },
            amount_with_fee,
        )),
        None => Err(HubError::Arithmetic),
    }
}

/// Records a request to unbond `amount` stLuna in the current batch; the stLuna
/// exchange rate is recomputed over `total_supply - amount` plus the requests.
pub fn request_unbond_stluna(
    state: &State,
    batch: &CurrentBatch,
    amount: u128,
    total_supply: u128,
) -> (r: Result<(State, CurrentBatch), HubError>)
    ensures
        ({
            let requested = batch.requested_stluna + amount;
            let supply = total_supply - amount;
            let ok = requested <= u128::MAX && supply >= 0
                && rate_fits(state.total_bond_stluna_amount as int, supply, requested);
            &&& r is Ok <==> ok
            &&& r is Err ==> r == Err::<(State, CurrentBatch), HubError>(HubError::Arithmetic)
            &&& r matches Ok((s, b)) ==> {
                &&& b == (CurrentBatch { requested_stluna: requested as u128, ..*batch })
                &&& s.stluna_exchange_rate.atomics == rate_from(state.total_bond_stluna_amount as int, supply + requested)
                &&& s == (State { stluna_exchange_rate: s.stluna_exchange_rate, ..*state })
            }
        }),
{
    if batch.requested_stluna > u128::MAX - amount || total_supply < amount {
        return Err(HubError::Arithmetic);
    }
    let requested = batch.requested_stluna + amount;
    let supply = total_supply - amount;
    match compute_exchange_rate_checked(state.total_bond_stluna_amount, supply, requested) {
        Some(rate) => Ok((
            State { stluna_exchange_rate: rate, ..*state },
            CurrentBatch { requested_stluna: requested, ..*batch },
        )),
        None => Err(HubError::Arithmetic),
    }
}

/// Adds an unbond request to a user's entry for a batch (a missing entry counts
/// as empty); `None` when the sum exceeds `u128`.
pub fn add_unbond_request(
    entry: Option<UnbondWaitEntity>,
    amount: u128,
    unbond_type: UnbondType,
) -> (r: Option<UnbondWaitEntity>)
    ensures
        ({
            let e = match entry {
                Some(e) => e,
                None => UnbondWaitEntity { bluna_amount: 0, stluna_amount: 0 },
            };
            match unbond_type {
                UnbondType::BLuna => r == (if e.bluna_amount + amount <= u128::MAX {
                    Some(UnbondWaitEntity { bluna_amount: (e.bluna_amount + amount) as u128, ..e })
                } else {
                    None::<UnbondWaitEntity>
                }),
                UnbondType::StLuna => r == (if e.stluna_amount + amount <= u128::MAX {
                    Some(UnbondWaitEntity { stluna_amount: (e.stluna_amount + amount) as u128, ..e })
                } else {
                    None::<UnbondWaitEntity>
                }),
            }
        }),
{
    let e = match entry {
        Some(e) => e,
        None => UnbondWaitEntity { bluna_amount: 0, stluna_amount: 0 },
    };
    match unbond_type {
        UnbondType::BLuna => {
            if e.bluna_amount > u128::MAX - amount {
                None
            } else {
                Some(UnbondWaitEntity { bluna_amount: e.bluna_amount + amount, ..e })
            }
        },
        UnbondType::StLuna => {
            if e.stluna_amount > u128::MAX - amount {
                None
            } else {
                Some(UnbondWaitEntity { stluna_amount: e.stluna_amount + amount, ..e })
            }
        },
    }
}

/// Whether more than an epoch period has passed since the last undelegation;
/// an error when the block time is before the last undelegation.
pub fn epoch_passed(state: &State, block_time: u64, epoch_period: u64) -> (r: Result<bool, HubError>)
    ensures
        r == (if block_time >= state.last_unbonded_time {
            Ok::<bool, HubError>(block_time - state.last_unbonded_time > epoch_period)
        } else {
            Err::<bool, HubError>(HubError::Arithmetic)
        }),
{
    if block_time < state.last_unbonded_time {
        return Err(HubError::Arithmetic);
    }
    Ok(block_time - state.last_unbonded_time > epoch_period)
}

/// The result of undelegating a batch.
#[derive(Clone, Debug, PartialEq, Eq, Structural)]
pub struct Undelegation {
    pub state: State,
    pub batch: CurrentBatch,
    pub history: UnbondHistory,
    /// The Luna amount to undelegate from the validators.
    pub claim: u128,
}

/// Undelegates the current batch: the requested tokens are valued at the
/// current exchange rates, the bonded amounts drop by those values, the batch is
/// recorded in an unreleased history entry and a new empty batch starts. Both
/// exchange rates are then recomputed over the token supplies (after the burn of
/// this request) with nothing requested.
pub fn process_undelegations(
    state: &State,
    batch: &CurrentBatch,
    bluna_total_supply: u128,
    stluna_total_supply: u128,
    block_time: u64,
) -> (r: Result<Undelegation, HubError>)
    ensures
        ({
            let st = mul_floor(batch.requested_stluna as int, state.stluna_exchange_rate.atomics as int);
            let bl = mul_floor(batch.requested_bluna_with_fee as int, state.bluna_exchange_rate.atomics as int);
            let fits = st <= u128::MAX && bl <= u128::MAX;
            let too_small = bl == 1 || st == 1;
            let new_st = state.total_bond_stluna_amount - st;
            let new_bl = state.total_bond_bluna_amount - bl;
            let ok = fits && !too_small && st + bl <= u128::MAX && new_st >= 0 && new_bl >= 0
                && batch.id + 1 <= u64::MAX && rate_fits(new_bl, bluna_total_supply as int, 0)
                && rate_fits(new_st, stluna_total_supply as int, 0);
            &&& r is Ok <==> ok
            &&& (fits && too_small) ==> r == Err::<Undelegation, HubError>(HubError::BurnAmountTooSmall)
            &&& (!fits || (!too_small && !ok)) ==> r == Err::<Undelegation, HubError>(HubError::Arithmetic)
            &&& r matches Ok(u) ==> {
                &&& u.claim == st + bl
                &&& u.state.total_bond_stluna_amount == new_st
                &&& u.state.total_bond_bluna_amount == new_bl
                &&& u.state.stluna_exchange_rate.atomics == rate_from(new_st, stluna_total_supply as int)
                &&& u.state.bluna_exchange_rate.atomics == rate_from(new_bl, bluna_total_supply as int)
                &&& u.state.last_unbonded_time == block_time
                &&& u.state == (State {
                    total_bond_stluna_amount: u.state.total_bond_stluna_amount,
                    total_bond_bluna_amount: u.state.total_bond_bluna_amount,
                    stluna_exchange_rate: u.state.stluna_exchange_rate,
                    bluna_exchange_rate: u.state.bluna_exchange_rate,
                    last_unbonded_time: block_time,
                    ..*state
                })
                &&& u.batch == (CurrentBatch { id: (batch.id + 1) as u64, requested_bluna_with_fee: 0, requested_stluna: 0 })
                &&& u.history == (UnbondHistory {
                    batch_id: batch.id,
                    time: block_time,
                    stluna_amount: batch.requested_stluna,
                    stluna_applied_exchange_rate: state.stluna_exchange_rate,
                    stluna_withdraw_rate: state.stluna_exchange_rate,
                    bluna_amount: batch.requested_bluna_with_fee,
                    bluna_applied_exchange_rate: state.bluna_exchange_rate,
                    bluna_withdraw_rate: state.bluna_exchange_rate,
                    released: false,
                })
            }
        }),
{
    let st = match checked_mul_uint(batch.requested_stluna, state.stluna_exchange_rate) {
        Some(v) => v,
        None => return Err(HubError::Arithmetic),
    };
    let bl = match checked_mul_uint(batch.requested_bluna_with_fee, state.bluna_exchange_rate) {
        Some(v) => v,
        None => return Err(HubError::Arithmetic),
    };
    if bl == 1 || st == 1 {
        return Err(HubError::BurnAmountTooSmall);
    }
    if bl > u128::MAX - st || state.total_bond_stluna_amount < st || state.total_bond_bluna_amount < bl
        || batch.id == u64::MAX {
        return Err(HubError::Arithmetic);
    }
    let claim = bl + st;
    let new_st = state.total_bond_stluna_amount - st;
    let new_bl = state.total_bond_bluna_amount - bl;
    let history = UnbondHistory {
        batch_id: batch.id,
        time: block_time,
        stluna_amount: batch.requested_stluna,
        stluna_applied_exchange_rate: state.stluna_exchange_rate,
        stluna_withdraw_rate: state.stluna_exchange_rate,
        bluna_amount: batch.requested_bluna_with_fee,
        bluna_applied_exchange_rate: state.bluna_exchange_rate,
        bluna_withdraw_rate: state.bluna_exchange_rate,
        released: false,
    };
    let new_batch = CurrentBatch { id: batch.id + 1, requested_bluna_with_fee: 0, requested_stluna: 0 };
    let bl_rate = match compute_exchange_rate_checked(new_bl, bluna_total_supply, 0) {
        Some(d) => d,
        None => return Err(HubError::Arithmetic),
    };
    let st_rate = match compute_exchange_rate_checked(new_st, stluna_total_supply, 0) {
        Some(d) => d,
        None => return Err(HubError::Arithmetic),
    };
    let new_state = State {
        total_bond_stluna_amount: new_st,
        total_bond_bluna_amount: new_bl,
        stluna_exchange_rate: st_rate,
        bluna_exchange_rate: bl_rate,
        last_unbonded_time: block_time,
        ..*state
    };
    Ok(Undelegation { state: new_state, batch: new_batch, history, claim })
}

} // verus!
