//! Bonding Luna: minting bLuna or stLuna at the current exchange rate.

use crate::coin::Coin;
use crate::decimal::{Decimal, checked_mul_uint, mul_floor};
use crate::hub::math::{checked_decimal_division, div_by_rate};
use crate::hub::state::{HubError, State, rate_fits, rate_from, compute_exchange_rate};
use vstd::prelude::*;

verus! {

/// The amount that pays for a bond: the one coin sent, when it is of the
/// underlying denom and positive.
pub fn find_payment(funds: &Vec<Coin>, denom: &String) -> (r: Result<u128, HubError>)
    ensures
        funds.len() > 1 ==> r == Err::<u128, HubError>(HubError::MoreThanOneCoin),
        funds.len() <= 1 ==> r == (if funds.len() == 1 && funds[0].denom@ == denom@
            && funds[0].amount > 0 {
            Ok::<u128, HubError>(funds[0].amount)
        } else {
            Err::<u128, HubError>(HubError::NoAssetsToBond)
        }),
{
    if funds.len() > 1 {
        return Err(HubError::MoreThanOneCoin);
    }
    if funds.len() == 1 {
        let c = &funds[0];
        if c.denom == *denom && c.amount > 0 {
            return Ok(c.amount);
        }
    }
    Err(HubError::NoAssetsToBond)
}

/// The bLuna minted for `payment` once the peg recovery fee is taken, or `None`
/// when an intermediate amount cannot be computed.
///
/// Below the threshold rate the fee is the smaller of `mint * recovery_fee` and
/// the excess of the bLuna supply (with this mint and the requested unbonds) over
/// the bonded Luna (with this payment).
pub open spec fn bluna_mint_with_fee(
    rate: int,
    threshold: int,
    recovery_fee: int,
    bonded: int,
    requested: int,
    payment: int,
    supply: int,
) -> Option<int> {
    if rate == 0 || div_by_rate(payment, rate) > u128::MAX {
        None
    } else {
        let mint = div_by_rate(payment, rate);
        if rate < threshold {
            let max_peg_fee = mul_floor(mint, recovery_fee);
            let with_mint = supply + mint + requested;
            let with_payment = bonded + payment;
            if max_peg_fee > u128::MAX || with_mint > u128::MAX || with_payment > u128::MAX
                || with_mint < with_payment {
                None
            } else {
                let required_peg_fee = with_mint - with_payment;
                let peg_fee = if max_peg_fee < required_peg_fee { max_peg_fee } else { required_peg_fee };
                if mint < peg_fee { None } else { Some(mint - peg_fee) }
            }
        } else {
            Some(mint)
        }
    }
}

/// Bonds `payment` Luna for bLuna: returns the new state and the amount to mint.
///
/// The bonded bLuna amount grows by the payment and the bLuna exchange rate is
/// recomputed with the minted tokens added to `total_supply`.
pub fn bond_bluna(
    state: &State,
    er_threshold: Decimal,
    peg_recovery_fee: Decimal,
    requested_bluna_with_fee: u128,
    payment: u128,
    total_supply: u128,
) -> (r: Result<(State, u128), HubError>)
    ensures
        ({
            let m = bluna_mint_with_fee(
                state.bluna_exchange_rate.atomics as int,
                er_threshold.atomics as int,
                peg_recovery_fee.atomics as int,
                state.total_bond_bluna_amount as int,
                requested_bluna_with_fee as int,
                payment as int,
                total_supply as int,
            );
            let bonded = state.total_bond_bluna_amount + payment;
            let ok = m is Some && total_supply + m->0 <= u128::MAX && bonded <= u128::MAX
                && rate_fits(bonded, total_supply + m->0, requested_bluna_with_fee as int);
            &&& r is Ok <==> ok
            &&& r is Err ==> r == Err::<(State, u128), HubError>(HubError::Arithmetic)
            &&& r matches Ok((s, minted)) ==> {
                &&& minted == m->0
                &&& s.total_bond_bluna_amount == bonded
                &&& s.bluna_exchange_rate.atomics == rate_from(bonded, total_supply + minted + requested_bluna_with_fee)
                &&& s == (State {
                    total_bond_bluna_amount: s.total_bond_bluna_amount,
                    bluna_exchange_rate: s.bluna_exchange_rate,
                    ..*state
                })
            }
        }),
{
    let rate = state.bluna_exchange_rate;
    let mint_amount = match checked_decimal_division(payment, rate) {
        Some(m) => m,
        None => return Err(HubError::Arithmetic),
    };
    let mut mint_with_fee = mint_amount;
    if rate.lt(&er_threshold) {
        let max_peg_fee = match checked_mul_uint(mint_amount, peg_recovery_fee) {
            Some(f) => f,
            None => return Err(HubError::Arithmetic),
        };
        if total_supply > u128::MAX - mint_amount
            || total_supply + mint_amount > u128::MAX - requested_bluna_with_fee
            || state.total_bond_bluna_amount > u128::MAX - payment {
            return Err(HubError::Arithmetic);
        }
        let with_mint = total_supply + mint_amount + requested_bluna_with_fee;
        let with_payment = state.total_bond_bluna_amount + payment;
        if with_mint < with_payment {
            return Err(HubError::Arithmetic);
        }
        let required_peg_fee = with_mint - with_payment;
        let peg_fee = if max_peg_fee < required_peg_fee { max_peg_fee } else { required_peg_fee };
        if mint_amount < peg_fee {
            return Err(HubError::Arithmetic);
        }
        mint_with_fee = mint_amount - peg_fee;
    }
    if total_supply > u128::MAX - mint_with_fee || state.total_bond_bluna_amount > u128::MAX - payment {
        return Err(HubError::Arithmetic);
    }
    let new_supply = total_supply + mint_with_fee;
    let bonded = state.total_bond_bluna_amount + payment;
    match compute_exchange_rate_checked(bonded, new_supply, requested_bluna_with_fee) {
        Some(new_rate) => {
            let s = State { total_bond_bluna_amount: bonded, bluna_exchange_rate: new_rate, ..*state };
            Ok((s, mint_with_fee))
        },
        None => Err(HubError::Arithmetic),
    }
}

/// Bonds `payment` Luna for stLuna: returns the new state and the amount to mint.
pub fn bond_stluna(
    state: &State,
    requested_stluna: u128,
    payment: u128,
    total_supply: u128,
) -> (r: Result<(State, u128), HubError>)
    ensures
        ({
            let rate = state.stluna_exchange_rate.atomics as int;
            let mint = div_by_rate(payment as int, rate);
            let bonded = state.total_bond_stluna_amount + payment;
            let ok = rate > 0 && mint <= u128::MAX && total_supply + mint <= u128::MAX
                && bonded <= u128::MAX && rate_fits(bonded, total_supply + mint, requested_stluna as int);
            &&& r is Ok <==> ok
            &&& r is Err ==> r == Err::<(State, u128), HubError>(HubError::Arithmetic)
            &&& r matches Ok((s, minted)) ==> {
                &&& minted == mint
                &&& s.total_bond_stluna_amount == bonded
                &&& s.stluna_exchange_rate.atomics == rate_from(bonded, total_supply + minted + requested_stluna)
                &&& s == (State {
                    total_bond_stluna_amount: s.total_bond_stluna_amount,
                    stluna_exchange_rate: s.stluna_exchange_rate,
                    ..*state
                })
            }
        }),
{
    let mint_amount = match checked_decimal_division(payment, state.stluna_exchange_rate) {
        Some(m) => m,
        None => return Err(HubError::Arithmetic),
    };
    if total_supply > u128::MAX - mint_amount || state.total_bond_stluna_amount > u128::MAX - payment {
        return Err(HubError::Arithmetic);
    }
    let new_supply = total_supply + mint_amount;
    let bonded = state.total_bond_stluna_amount + payment;
    match compute_exchange_rate_checked(bonded, new_supply, requested_stluna) {
        Some(new_rate) => {
            let s = State { total_bond_stluna_amount: bonded, stluna_exchange_rate: new_rate, ..*state };
            Ok((s, mint_amount))
        },
        None => Err(HubError::Arithmetic),
    }
}

/// Bonds rewards sent by the rewards dispatcher: the stLuna side grows by
/// `payment` and no token is minted, so the stLuna exchange rate rises.
pub fn bond_rewards(
    state: &State,
    requested_stluna: u128,
    payment: u128,
    total_supply: u128,
) -> (r: Result<State, HubError>)
    ensures
        ({
            let bonded = state.total_bond_stluna_amount + payment;
            let ok = bonded <= u128::MAX && rate_fits(bonded, total_supply as int, requested_stluna as int);
            &&& r is Ok <==> ok
            &&& r is Err ==> r == Err::<State, HubError>(HubError::Arithmetic)
            &&& r matches Ok(s) ==> {
                &&& s.total_bond_stluna_amount == bonded
                &&& s.stluna_exchange_rate.atomics == rate_from(bonded, total_supply + requested_stluna)
                &&& s == (State {
                    total_bond_stluna_amount: s.total_bond_stluna_amount,
                    stluna_exchange_rate: s.stluna_exchange_rate,
                    ..*state
                })
            }
        }),
{
    if state.total_bond_stluna_amount > u128::MAX - payment {
        return Err(HubError::Arithmetic);
    }
    let bonded = state.total_bond_stluna_amount + payment;
    match compute_exchange_rate_checked(bonded, total_supply, requested_stluna) {
        Some(new_rate) => Ok(State { total_bond_stluna_amount: bonded, stluna_exchange_rate: new_rate, ..*state }),
        None => Err(HubError::Arithmetic),
    }
}

/// `compute_exchange_rate`, or `None` when the supply or the rate does not fit in `u128`.
pub fn compute_exchange_rate_checked(bonded: u128, issued: u128, requested: u128) -> (r: Option<Decimal>)
    ensures
        r is Some <==> rate_fits(bonded as int, issued as int, requested as int),
        r matches Some(d) ==> d.atomics == rate_from(bonded as int, issued + requested),
{
    if issued > u128::MAX - requested {
        return None;
    }
    let supply = issued + requested;
    if bonded == 0 || supply == 0 {
        return Some(compute_exchange_rate(bonded, issued, requested));
    }
    match crate::decimal::checked_from_ratio(bonded, supply) {
        Some(d) => Some(d),
        None => None,
    }
}

} // verus!
