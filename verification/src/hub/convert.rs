//! Converting stLuna to bLuna and back at the current exchange rates.

use crate::decimal::{Decimal, checked_mul_uint, mul_floor};
use crate::hub::bond::compute_exchange_rate_checked;
use crate::hub::math::{checked_decimal_division, div_by_rate};
use crate::hub::state::{HubError, State, rate_fits, rate_from};
use vstd::prelude::*;

verus! {

/// The smaller of two amounts.
pub open spec fn min_int(a: int, b: int) -> int {
    if a < b { a } else { b }
}

/// The state after moving `denom_equiv` Luna from the stLuna side to the bLuna
/// side, or the error of the first step that fails. The bLuna rate is the new
/// bLuna bonded amount over the bLuna supply as it stood before the conversion
/// (plus the requests); the stLuna rate counts the converted stLuna as burnt.
pub open spec fn convert_stluna_bluna_spec(
    state: State,
    er_threshold: int,
    peg_recovery_fee: int,
    requested_bluna_with_fee: int,
    requested_stluna: int,
    stluna_amount: int,
    total_bluna_supply: int,
    total_stluna_supply: int,
) -> Result<(State, u128, u128), HubError> {
    let denom_equiv = mul_floor(stluna_amount, state.stluna_exchange_rate.atomics as int);
    let b_rate = state.bluna_exchange_rate.atomics as int;
    let to_mint = div_by_rate(denom_equiv, b_rate);
    if denom_equiv > u128::MAX || b_rate == 0 || to_mint > u128::MAX {
        Err(HubError::Arithmetic)
    } else {
        let fee = if b_rate < er_threshold {
            let max_peg_fee = mul_floor(to_mint, peg_recovery_fee);
            let with_mint = total_bluna_supply + to_mint + requested_bluna_with_fee;
            let with_equiv = state.total_bond_bluna_amount + denom_equiv;
            if max_peg_fee > u128::MAX || with_mint > u128::MAX || with_equiv > u128::MAX || with_mint < with_equiv {
                None
            } else {
                Some(min_int(max_peg_fee, with_mint - with_equiv))
            }
        } else {
            Some(0)
        };
        if fee is None || to_mint < fee->0 {
            Err(HubError::Arithmetic)
        } else if state.total_bond_bluna_amount + denom_equiv > u128::MAX {
            Err(HubError::Arithmetic)
        } else if state.total_bond_stluna_amount < denom_equiv {
            Err(HubError::ExceedsBondedAmount)
        } else {
            let bluna = state.total_bond_bluna_amount + denom_equiv;
            let stluna = state.total_bond_stluna_amount - denom_equiv;
            if !rate_fits(bluna, total_bluna_supply, requested_bluna_with_fee) {
                Err(HubError::Arithmetic)
            } else if total_stluna_supply < stluna_amount {
                Err(HubError::ExceedsSupply)
            } else if !rate_fits(stluna, total_stluna_supply - stluna_amount, requested_stluna) {
                Err(HubError::Arithmetic)
            } else {
                Ok((
                    State {
                        total_bond_bluna_amount: bluna as u128,
                        total_bond_stluna_amount: stluna as u128,
                        bluna_exchange_rate: Decimal {
                            atomics: rate_from(bluna, total_bluna_supply + requested_bluna_with_fee) as u128,
                        },
                        stluna_exchange_rate: Decimal {
                            atomics: rate_from(stluna, total_stluna_supply - stluna_amount + requested_stluna) as u128,
                        },
                        ..state
                    },
                    (to_mint - fee->0) as u128,
                    to_mint as u128,
                ))
            }
        }
    }
}

/// Converts `stluna_amount` stLuna to bLuna. Returns the new state, the bLuna to
/// mint net of the peg recovery fee, and the bLuna amount before the fee.
pub fn convert_stluna_bluna(
    state: &State,
    er_threshold: Decimal,
    peg_recovery_fee: Decimal,
    requested_bluna_with_fee: u128,
    requested_stluna: u128,
    stluna_amount: u128,
    total_bluna_supply: u128,
    total_stluna_supply: u128,
) -> (r: Result<(State, u128, u128), HubError>)
    ensures
        r == convert_stluna_bluna_spec(*state, er_threshold.atomics as int, peg_recovery_fee.atomics as int,
            requested_bluna_with_fee as int, requested_stluna as int, stluna_amount as int,
            total_bluna_supply as int, total_stluna_supply as int),
{
    let denom_equiv = match checked_mul_uint(stluna_amount, state.stluna_exchange_rate) {
        Some(v) => v,
        None => return Err(HubError::Arithmetic),
    };
    let to_mint = match checked_decimal_division(denom_equiv, state.bluna_exchange_rate) {
        Some(v) => v,
        None => return Err(HubError::Arithmetic),
    };
    let mut fee: u128 = 0;
    if state.bluna_exchange_rate.lt(&er_threshold) {
        let max_peg_fee = match checked_mul_uint(to_mint, peg_recovery_fee) {
            Some(v) => v,
            None => return Err(HubError::Arithmetic),
        };
        if total_bluna_supply > u128::MAX - to_mint
            || total_bluna_supply + to_mint > u128::MAX - requested_bluna_with_fee
            || state.total_bond_bluna_amount > u128::MAX - denom_equiv {
            return Err(HubError::Arithmetic);
        }
        let with_mint = total_bluna_supply + to_mint + requested_bluna_with_fee;
        let with_equiv = state.total_bond_bluna_amount + denom_equiv;
        if with_mint < with_equiv {
            return Err(HubError::Arithmetic);
        }
        let required = with_mint - with_equiv;
        fee = if max_peg_fee < required { max_peg_fee } else { required };
    }
    if to_mint < fee || state.total_bond_bluna_amount > u128::MAX - denom_equiv {
        return Err(HubError::Arithmetic);
    }
    if state.total_bond_stluna_amount < denom_equiv {
        return Err(HubError::ExceedsBondedAmount);
    }
    let bluna = state.total_bond_bluna_amount + denom_equiv;
    let stluna = state.total_bond_stluna_amount - denom_equiv;
    let bluna_rate = match compute_exchange_rate_checked(bluna, total_bluna_supply, requested_bluna_with_fee) {
        Some(d) => d,
        None => return Err(HubError::Arithmetic),
    };
    if total_stluna_supply < stluna_amount {
        return Err(HubError::ExceedsSupply);
    }
    let stluna_rate = match compute_exchange_rate_checked(stluna, total_stluna_supply - stluna_amount, requested_stluna) {
        Some(d) => d,
        None => return Err(HubError::Arithmetic),
    };
    Ok((
        State {
            total_bond_bluna_amount: bluna,
            total_bond_stluna_amount: stluna,
            bluna_exchange_rate: bluna_rate,
            stluna_exchange_rate: stluna_rate,
            ..*state
        },
        to_mint - fee,
        to_mint,
    ))
}

/// The state after moving the bLuna (net of the peg recovery fee) valued in Luna
/// to the stLuna side, and the stLuna to mint; or the error of the first step
/// that fails. The bLuna rate is the new bLuna bonded amount over the bLuna
/// supply as it stood before the conversion (plus the requests); the stLuna rate
/// counts the minted stLuna.
pub open spec fn convert_bluna_stluna_spec(
    state: State,
    er_threshold: int,
    peg_recovery_fee: int,
    requested_bluna_with_fee: int,
    requested_stluna: int,
    bluna_amount: int,
    total_bluna_supply: int,
    total_stluna_supply: int,
) -> Result<(State, u128), HubError> {
    let b_rate = state.bluna_exchange_rate.atomics as int;
    let fee = if b_rate < er_threshold {
        let max_peg_fee = mul_floor(bluna_amount, peg_recovery_fee);
        let with_requested = total_bluna_supply + requested_bluna_with_fee;
        if max_peg_fee > u128::MAX || with_requested > u128::MAX || with_requested < state.total_bond_bluna_amount {
            None
        } else {
            Some(min_int(max_peg_fee, with_requested - state.total_bond_bluna_amount))
        }
    } else {
        Some(0)
    };
    if fee is None || bluna_amount < fee->0 {
        Err(HubError::Arithmetic)
    } else {
        let with_fee = bluna_amount - fee->0;
        let denom_equiv = mul_floor(with_fee, b_rate);
        let st_rate = state.stluna_exchange_rate.atomics as int;
        let to_mint = div_by_rate(denom_equiv, st_rate);
        if denom_equiv > u128::MAX || st_rate == 0 || to_mint > u128::MAX {
            Err(HubError::Arithmetic)
        } else if state.total_bond_bluna_amount < denom_equiv {
            Err(HubError::ExceedsBondedAmount)
        } else if state.total_bond_stluna_amount + denom_equiv > u128::MAX {
            Err(HubError::Arithmetic)
        } else {
            let bluna = state.total_bond_bluna_amount - denom_equiv;
            let stluna = state.total_bond_stluna_amount + denom_equiv;
            if total_bluna_supply < bluna_amount {
                Err(HubError::ExceedsSupply)
            } else if !rate_fits(bluna, total_bluna_supply, requested_bluna_with_fee)
                || total_stluna_supply + to_mint > u128::MAX
                || !rate_fits(stluna, total_stluna_supply + to_mint, requested_stluna) {
                Err(HubError::Arithmetic)
            } else {
                Ok((
                    State {
                        total_bond_bluna_amount: bluna as u128,
                        total_bond_stluna_amount: stluna as u128,
                        bluna_exchange_rate: Decimal {
                            atomics: rate_from(bluna, total_bluna_supply + requested_bluna_with_fee) as u128,
                        },
                        stluna_exchange_rate: Decimal {
                            atomics: rate_from(stluna, total_stluna_supply + to_mint + requested_stluna) as u128,
                        },
                        ..state
                    },
                    to_mint as u128,
                ))
            }
        }
    }
}

/// Converts `bluna_amount` bLuna to stLuna. Returns the new state and the stLuna to mint.
pub fn convert_bluna_stluna(
    state: &State,
    er_threshold: Decimal,
    peg_recovery_fee: Decimal,
    requested_bluna_with_fee: u128,
    requested_stluna: u128,
    bluna_amount: u128,
    total_bluna_supply: u128,
    total_stluna_supply: u128,
) -> (r: Result<(State, u128), HubError>)
    ensures
        r == convert_bluna_stluna_spec(*state, er_threshold.atomics as int, peg_recovery_fee.atomics as int,
            requested_bluna_with_fee as int, requested_stluna as int, bluna_amount as int,
            total_bluna_supply as int, total_stluna_supply as int),
{
    let mut fee: u128 = 0;
    if state.bluna_exchange_rate.lt(&er_threshold) {
        let max_peg_fee = match checked_mul_uint(bluna_amount, peg_recovery_fee) {
            Some(v) => v,
            None => return Err(HubError::Arithmetic),
        };
        if total_bluna_supply > u128::MAX - requested_bluna_with_fee {
            return Err(HubError::Arithmetic);
        }
        let with_requested = total_bluna_supply + requested_bluna_with_fee;
        if with_requested < state.total_bond_bluna_amount {
            return Err(HubError::Arithmetic);
        }
        let required = with_requested - state.total_bond_bluna_amount;
        fee = if max_peg_fee < required { max_peg_fee } else { required };
    }
    if bluna_amount < fee {
        return Err(HubError::Arithmetic);
    }
    let with_fee = bluna_amount - fee;
    let denom_equiv = match checked_mul_uint(with_fee, state.bluna_exchange_rate) {
        Some(v) => v,
        None => return Err(HubError::Arithmetic),
    };
    let to_mint = match checked_decimal_division(denom_equiv, state.stluna_exchange_rate) {
        Some(v) => v,
        None => return Err(HubError::Arithmetic),
    };
    if state.total_bond_bluna_amount < denom_equiv {
        return Err(HubError::ExceedsBondedAmount);
    }
    if state.total_bond_stluna_amount > u128::MAX - denom_equiv {
        return Err(HubError::Arithmetic);
    }
    let bluna = state.total_bond_bluna_amount - denom_equiv;
    let stluna = state.total_bond_stluna_amount + denom_equiv;
    if total_bluna_supply < bluna_amount {
        return Err(HubError::ExceedsSupply);
    }
    let bluna_rate = match compute_exchange_rate_checked(bluna, total_bluna_supply, requested_bluna_with_fee) {
        Some(d) => d,
        None => return Err(HubError::Arithmetic),
    };
    if total_stluna_supply > u128::MAX - to_mint {
        return Err(HubError::Arithmetic);
    }
    let stluna_rate = match compute_exchange_rate_checked(stluna, total_stluna_supply + to_mint, requested_stluna) {
        Some(d) => d,
        None => return Err(HubError::Arithmetic),
    };
    Ok((
        State {
            total_bond_bluna_amount: bluna,
            total_bond_stluna_amount: stluna,
            bluna_exchange_rate: bluna_rate,
            stluna_exchange_rate: stluna_rate,
            ..*state
        },
        to_mint,
    ))
}

} // verus!
