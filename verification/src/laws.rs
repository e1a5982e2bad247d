//! Properties that hold across the library's operations.

use crate::decimal::{DECIMAL_FRACTIONAL, mul_floor, ratio_atomics};
use crate::hub::bond::bluna_mint_with_fee;
use crate::hub::convert::{convert_bluna_stluna_spec, convert_stluna_bluna_spec};
use crate::hub::math::div_by_rate;
use crate::hub::state::{State, UnbondHistory};
use crate::decimal::Decimal;
use crate::reward::global::RewardState;
use crate::reward::user::{Holder, accrued, settle};
use crate::dispatcher::rewards::dispatch_of;
use crate::tax::lemma_tax_bounds;
use crate::gov::state::{EPOC, EpocId};
use crate::gov::math::{gov_division, gov_subtraction, scaled};
use crate::airdrop::{other_than, without};
use crate::dispatcher::rewards::swap_info;
use crate::hub::slashing::{slashed_bluna_bonded, slashing_detected};
use crate::decimal::ratio_floor;
use crate::hub::keys::{be_bytes, first_difference, key_before, lemma_be_bytes_ordered, lemma_key_before_asymmetric};
use crate::hub::withdraw_rate::{
    SignedInt, adjusted_unbonded, lemma_first_stop, lemma_term_le_sum, new_withdraw_rate, releasable_len,
    released_history, share_ratio, signed_sub, sum_bluna, sum_stluna, unbonded_bluna, unbonded_stluna,
};
use crate::hub::state::rate_from;
use crate::hub::unbond::bluna_unbond_with_fee;
use crate::hub::withdraw::{WaitEntry, released_batches, withdrawable_sum};
use crate::gov::contract::burn_spec;
use crate::gov::state::EpochId;
use vstd::prelude::*;

verus! {

proof fn lemma_mul_floor_monotone(a: int, b: int, rate: int)
    requires
        0 <= a <= b,
        0 <= rate,
    ensures
        0 <= mul_floor(a, rate) <= mul_floor(b, rate),
{
    let f = DECIMAL_FRACTIONAL as int;
    assert(a * rate <= b * rate) by (nonlinear_arith)
        requires 0 <= a <= b, 0 <= rate;
    assert(0 <= a * rate / f <= b * rate / f) by (nonlinear_arith)
        requires a * rate <= b * rate, 0 <= a * rate, f > 0;
}

proof fn lemma_value_of_quotient(p: int, rate: int)
    requires
        0 <= p,
        0 < rate,
    ensures
        0 <= div_by_rate(p, rate),
        mul_floor(div_by_rate(p, rate), rate) <= p,
{
    let f = DECIMAL_FRACTIONAL as int;
    let q = p * f / rate;
    assert(0 <= q && q * rate <= p * f) by (nonlinear_arith)
        requires 0 <= p, 0 < rate, f > 0, q == p * f / rate;
    assert(q * rate / f <= p) by (nonlinear_arith)
        requires q * rate <= p * f, f > 0, 0 <= q, 0 < rate;
}

/// Bonding for bLuna never mints more tokens than the payment is worth at the
/// bLuna exchange rate: the minted amount valued at that rate is at most the payment.
pub proof fn law_bluna_bond_within_payment(
    rate: u128,
    threshold: u128,
    recovery_fee: u128,
    bonded: u128,
    requested: u128,
    payment: u128,
    supply: u128,
)
    ensures
        bluna_mint_with_fee(rate as int, threshold as int, recovery_fee as int, bonded as int,
            requested as int, payment as int, supply as int) matches Some(m)
            ==> 0 <= m && mul_floor(m, rate as int) <= payment,
{
    if rate > 0 {
        lemma_value_of_quotient(payment as int, rate as int);
        let mint = div_by_rate(payment as int, rate as int);
        let max_peg_fee = mul_floor(mint, recovery_fee as int);
        lemma_mul_floor_monotone(0, mint, recovery_fee as int);
        match bluna_mint_with_fee(rate as int, threshold as int, recovery_fee as int, bonded as int,
            requested as int, payment as int, supply as int) {
            Some(m) => {
                assert(0 <= m <= mint);
                lemma_mul_floor_monotone(m, mint, rate as int);
            },
            None => {},
        }
    }
}

/// Bonding for stLuna never mints more tokens than the payment is worth at the
/// stLuna exchange rate.
pub proof fn law_stluna_bond_within_payment(rate: u128, payment: u128)
    requires
        rate > 0,
    ensures
        mul_floor(div_by_rate(payment as int, rate as int), rate as int) <= payment,
{
    lemma_value_of_quotient(payment as int, rate as int);
}

/// A conversion from stLuna to bLuna moves bonded Luna from one side to the
/// other: the total bonded amount and the fields other than the bonded amounts
/// and the exchange rates are unchanged.
pub proof fn law_convert_stluna_bluna_keeps_bonded(
    state: State,
    er_threshold: u128,
    peg_recovery_fee: u128,
    requested_bluna_with_fee: u128,
    requested_stluna: u128,
    stluna_amount: u128,
    total_bluna_supply: u128,
    total_stluna_supply: u128,
)
    ensures
        convert_stluna_bluna_spec(state, er_threshold as int, peg_recovery_fee as int, requested_bluna_with_fee as int,
            requested_stluna as int, stluna_amount as int, total_bluna_supply as int, total_stluna_supply as int)
            matches Ok((s, net, gross)) ==> {
            &&& s.total_bond_bluna_amount + s.total_bond_stluna_amount
                == state.total_bond_bluna_amount + state.total_bond_stluna_amount
            &&& s.last_index_modification == state.last_index_modification
            &&& s.prev_hub_balance == state.prev_hub_balance
            &&& s.last_unbonded_time == state.last_unbonded_time
            &&& s.last_processed_batch == state.last_processed_batch
        },
{
}

/// A conversion from bLuna to stLuna moves bonded Luna from one side to the
/// other: the total bonded amount and the fields other than the bonded amounts
/// and the exchange rates are unchanged.
pub proof fn law_convert_bluna_stluna_keeps_bonded(
    state: State,
    er_threshold: u128,
    peg_recovery_fee: u128,
    requested_bluna_with_fee: u128,
    requested_stluna: u128,
    bluna_amount: u128,
    total_bluna_supply: u128,
    total_stluna_supply: u128,
)
    ensures
        convert_bluna_stluna_spec(state, er_threshold as int, peg_recovery_fee as int, requested_bluna_with_fee as int,
            requested_stluna as int, bluna_amount as int, total_bluna_supply as int, total_stluna_supply as int)
            matches Ok((s, minted)) ==> {
            &&& s.total_bond_bluna_amount + s.total_bond_stluna_amount
                == state.total_bond_bluna_amount + state.total_bond_stluna_amount
            &&& s.last_index_modification == state.last_index_modification
            &&& s.prev_hub_balance == state.prev_hub_balance
            &&& s.last_unbonded_time == state.last_unbonded_time
            &&& s.last_processed_batch == state.last_processed_batch
        },
{
}

/// A conversion from stLuna to bLuna mints no more bLuna than the converted
/// stLuna is worth: the bLuna minted (before and after the peg fee) valued at
/// the bLuna rate is at most the stLuna valued at the stLuna rate.
pub proof fn law_convert_stluna_bluna_within_value(
    state: State,
    er_threshold: u128,
    peg_recovery_fee: u128,
    requested_bluna_with_fee: u128,
    requested_stluna: u128,
    stluna_amount: u128,
    total_bluna_supply: u128,
    total_stluna_supply: u128,
)
    ensures
        convert_stluna_bluna_spec(state, er_threshold as int, peg_recovery_fee as int, requested_bluna_with_fee as int,
            requested_stluna as int, stluna_amount as int, total_bluna_supply as int, total_stluna_supply as int)
            matches Ok((s, net, gross)) ==> {
            &&& net <= gross
            &&& mul_floor(gross as int, state.bluna_exchange_rate.atomics as int)
                <= mul_floor(stluna_amount as int, state.stluna_exchange_rate.atomics as int)
        },
{
    let denom_equiv = mul_floor(stluna_amount as int, state.stluna_exchange_rate.atomics as int);
    let b_rate = state.bluna_exchange_rate.atomics as int;
    lemma_mul_floor_monotone(0, stluna_amount as int, state.stluna_exchange_rate.atomics as int);
    if b_rate > 0 {
        lemma_value_of_quotient(denom_equiv, b_rate);
        let to_mint = div_by_rate(denom_equiv, b_rate);
        lemma_mul_floor_monotone(0, to_mint, peg_recovery_fee as int);
    }
}

/// A conversion from bLuna to stLuna mints no more stLuna than the converted
/// bLuna is worth: the stLuna minted valued at the stLuna rate is at most the
/// bLuna valued at the bLuna rate.
pub proof fn law_convert_bluna_stluna_within_value(
    state: State,
    er_threshold: u128,
    peg_recovery_fee: u128,
    requested_bluna_with_fee: u128,
    requested_stluna: u128,
    bluna_amount: u128,
    total_bluna_supply: u128,
    total_stluna_supply: u128,
)
    ensures
        convert_bluna_stluna_spec(state, er_threshold as int, peg_recovery_fee as int, requested_bluna_with_fee as int,
            requested_stluna as int, bluna_amount as int, total_bluna_supply as int, total_stluna_supply as int)
            matches Ok((s, minted)) ==> mul_floor(minted as int, state.stluna_exchange_rate.atomics as int)
                <= mul_floor(bluna_amount as int, state.bluna_exchange_rate.atomics as int),
{
    let b_rate = state.bluna_exchange_rate.atomics as int;
    let st_rate = state.stluna_exchange_rate.atomics as int;
    lemma_mul_floor_monotone(0, bluna_amount as int, peg_recovery_fee as int);
    match convert_bluna_stluna_spec(state, er_threshold as int, peg_recovery_fee as int, requested_bluna_with_fee as int,
            requested_stluna as int, bluna_amount as int, total_bluna_supply as int, total_stluna_supply as int) {
        Ok((s, minted)) => {
            let fee: int = if b_rate < er_threshold {
                let max_peg_fee = mul_floor(bluna_amount as int, peg_recovery_fee as int);
                let with_requested = total_bluna_supply + requested_bluna_with_fee;
                if max_peg_fee < with_requested - state.total_bond_bluna_amount { max_peg_fee }
                else { with_requested - state.total_bond_bluna_amount }
            } else { 0 };
            let with_fee = bluna_amount - fee;
            assert(0 <= with_fee <= bluna_amount);
            lemma_mul_floor_monotone(with_fee, bluna_amount as int, b_rate);
            let denom_equiv = mul_floor(with_fee, b_rate);
            lemma_value_of_quotient(denom_equiv, st_rate);
        },
        Err(_) => {},
    }
}

/// Dividing an amount by an exchange rate of one gives the amount back.
pub proof fn law_division_by_one(a: u128)
    ensures
        div_by_rate(a as int, DECIMAL_FRACTIONAL as int) == a,
{
    let f = DECIMAL_FRACTIONAL as int;
    assert((a as int) * f / f == a) by (nonlinear_arith)
        requires f > 0;
}

/// Settling a holder's rewards (as every change of balance does first) keeps
/// what the holder has accrued, whatever the new balance: rewards earned before a
/// change of balance are never lost nor counted twice.
pub proof fn law_settle_keeps_accrued(state: RewardState, holder: Holder, new_balance: u128)
    ensures
        settle(state, holder) matches Some(h) ==> accrued(state, Holder { balance: new_balance, ..h })
            == accrued(state, holder),
{
}

/// After a claim, nothing more is accrued until the global index moves.
pub proof fn law_claim_leaves_nothing(state: RewardState, holder: Holder)
    ensures
        accrued(state, Holder { pending_rewards: 0, index: state.global_index, ..holder }) == 0,
{
}

/// Raising the global index by `claimed / total_balance` never hands out more
/// than the rewards received: the whole bonded balance valued at the increment
/// is at most `claimed`.
pub proof fn law_index_increment_within_claimed(claimed: u128, total_balance: u128)
    requires
        total_balance > 0,
    ensures
        mul_floor(total_balance as int, ratio_atomics(claimed as int, total_balance as int)) <= claimed,
{
    let f = DECIMAL_FRACTIONAL as int;
    let t = total_balance as int;
    let c = claimed as int;
    let q = c * f / t;
    assert(0 <= q && q * t <= c * f) by (nonlinear_arith)
        requires 0 <= c, 0 < t, f > 0, q == c * f / t;
    assert(t * q / f <= c) by (nonlinear_arith)
        requires q * t <= c * f, f > 0, 0 <= q, 0 < t;
}

/// The protocol fee of a side, or zero when none is sent.
pub open spec fn fee_sent(fee: Option<u128>) -> int {
    match fee {
        Some(f) => f as int,
        None => 0,
    }
}

/// The dispatcher never sends more than it holds: on each side, the rewards
/// sent plus the fee sent are at most the balance of that side.
pub proof fn law_dispatch_within_balances(
    stluna_balance: u128,
    bluna_balance: u128,
    fee_rate: u128,
    tax_rate: u128,
    stluna_tax_cap: u128,
    bluna_tax_cap: u128,
)
    ensures
        dispatch_of(stluna_balance as int, bluna_balance as int, fee_rate as int, tax_rate as int,
            stluna_tax_cap as int, bluna_tax_cap as int) matches Some(d) ==> {
            &&& d.stluna_rewards + fee_sent(d.lido_stluna_fee) <= stluna_balance
            &&& d.bluna_rewards + fee_sent(d.lido_bluna_fee) <= bluna_balance
        },
{
    let st_fee = mul_floor(stluna_balance as int, fee_rate as int);
    let bl_fee = mul_floor(bluna_balance as int, fee_rate as int);
    lemma_mul_floor_monotone(0, stluna_balance as int, fee_rate as int);
    lemma_mul_floor_monotone(0, bluna_balance as int, fee_rate as int);
    if st_fee <= stluna_balance && bl_fee <= bluna_balance {
        lemma_tax_bounds(st_fee, tax_rate as int, stluna_tax_cap as int);
        lemma_tax_bounds(bl_fee, tax_rate as int, bluna_tax_cap as int);
        lemma_tax_bounds(stluna_balance - st_fee, tax_rate as int, stluna_tax_cap as int);
        lemma_tax_bounds(bluna_balance - bl_fee, tax_rate as int, bluna_tax_cap as int);
    }
}

/// Right after an epoch is brought up to date at `block_time`, no further epoch
/// has passed at that time, and the epoch id has not gone down.
pub proof fn law_epoch_fresh_after_update(epoch: EpocId, block_time: u64)
    requires
        epoch.current_block_time <= block_time,
    ensures
        ({
            let updated = EpocId {
                epoc_id: (epoch.epoc_id + (block_time - epoch.current_block_time) / (EPOC as int)) as u64,
                current_block_time: block_time,
            };
            &&& !(block_time - updated.current_block_time >= EPOC)
            &&& epoch.epoc_id + (block_time - epoch.current_block_time) / (EPOC as int) >= epoch.epoc_id
        }),
{
}

/// The governance contract's division by an exchange rate of one gives the
/// amount back.
pub proof fn law_gov_division_by_one(a: u128)
    ensures
        gov_division(a as int, DECIMAL_FRACTIONAL as int) == a,
{
    let g = 1_000_000_000int;
    let f = DECIMAL_FRACTIONAL as int;
    assert(g * f / f == g) by (nonlinear_arith)
        requires f == 1_000_000_000_000_000_000int, g == 1_000_000_000int;
    assert((a as int) * f / g == (a as int) * g) by (nonlinear_arith)
        requires f == 1_000_000_000_000_000_000int, g == 1_000_000_000int;
    assert(g * ((a as int) * g) / f == a) by (nonlinear_arith)
        requires f == 1_000_000_000_000_000_000int, g == 1_000_000_000int;
}

/// Removing a token from the registry leaves no entry of it, and keeps every
/// other token.
pub proof fn law_removed_token_absent(tokens: Seq<String>, token: Seq<char>)
    ensures
        forall|i: int| 0 <= i < without(tokens, token).len() ==> (#[trigger] without(tokens, token)[i])@ != token,
        forall|i: int| 0 <= i < tokens.len() && (#[trigger] tokens[i])@ != token
            ==> without(tokens, token).contains(tokens[i]),
{
    let pred = other_than(token);
    broadcast use vstd::seq_lib::group_filter_ensures;
    assert forall|i: int| 0 <= i < without(tokens, token).len() implies (#[trigger] without(tokens, token)[i])@ != token by {
        tokens.lemma_filter_pred(pred, i);
    }
    assert forall|i: int| 0 <= i < tokens.len() && (#[trigger] tokens[i])@ != token
        implies without(tokens, token).contains(tokens[i]) by {
        tokens.lemma_filter_contains(pred, i);
    }
}

/// Adding a token that is not registered and removing it again gives back the
/// registered tokens as they were.
pub proof fn law_add_then_remove(tokens: Seq<String>, token: String)
    requires
        forall|i: int| 0 <= i < tokens.len() ==> (#[trigger] tokens[i])@ != token@,
    ensures
        without(tokens.push(token), token@) == tokens,
    decreases tokens.len(),
{
    reveal(Seq::filter);
    let pushed = tokens.push(token);
    assert(pushed.drop_last() == tokens);
    lemma_filter_keeps_all(tokens, token@);
}

proof fn lemma_filter_keeps_all(tokens: Seq<String>, token: Seq<char>)
    requires
        forall|i: int| 0 <= i < tokens.len() ==> (#[trigger] tokens[i])@ != token,
    ensures
        without(tokens, token) == tokens,
    decreases tokens.len(),
{
    reveal(Seq::filter);
    if tokens.len() > 0 {
        lemma_filter_keeps_all(tokens.drop_last(), token);
        assert(tokens.drop_last().push(tokens.last()) == tokens);
    }
}

/// The swap leaves the stLuna side with its share of all rewards: when stLuna
/// rewards are sold, what is sold is exactly the excess over that share; when
/// they are bought, the bLuna rewards sold are the shortfall valued at the
/// stLuna-to-bLuna rate.
pub proof fn law_swap_restores_stluna_share(
    stluna_total_bonded: u128,
    bluna_total_bonded: u128,
    stluna_rewards: u128,
    bluna_rewards: u128,
    bluna_2_stluna: u128,
    stluna_2_bluna: u128,
)
    ensures
        ({
            let total = stluna_rewards + mul_floor(bluna_rewards as int, bluna_2_stluna as int);
            let share = ratio_floor(total, stluna_total_bonded as int, stluna_total_bonded + bluna_total_bonded);
            match swap_info(stluna_total_bonded as int, bluna_total_bonded as int, stluna_rewards as int,
                bluna_rewards as int, bluna_2_stluna as int, stluna_2_bluna as int) {
                Some((true, sold)) => stluna_rewards - sold == share && sold > 0,
                Some((false, sold)) => stluna_rewards <= share
                    && sold == mul_floor(share - stluna_rewards, stluna_2_bluna as int),
                None => true,
            }
        }),
{
}

/// A slashing never raises the bLuna side: the bLuna part of the smaller actual
/// bonded amount is at most what the bLuna side had.
pub proof fn law_slashing_lowers_bluna_side(state: State, actual_total_bonded: u128)
    requires
        slashing_detected(state, actual_total_bonded as int),
    ensures
        0 <= slashed_bluna_bonded(state, actual_total_bonded as int) <= state.total_bond_bluna_amount,
{
    let f = DECIMAL_FRACTIONAL as int;
    let b = state.total_bond_bluna_amount as int;
    let t = b + state.total_bond_stluna_amount;
    let a = actual_total_bonded as int;
    let r = b * f / t;
    assert(0 <= r && r * t <= b * f) by (nonlinear_arith)
        requires 0 <= b, 0 < t, f > 0, r == b * f / t;
    assert(a * r <= b * f) by (nonlinear_arith)
        requires 0 <= a < t, 0 <= r, r * t <= b * f, 0 <= b, f > 0;
    assert(0 <= a * r / f <= b) by (nonlinear_arith)
        requires a * r <= b * f, 0 <= a, 0 <= r, f > 0;
}

proof fn lemma_share_within_unbonded(u: int, total: int, magnitude: int)
    requires
        0 <= u <= total,
        0 <= magnitude <= total,
    ensures
        0 <= mul_floor(magnitude, if total != 0 { ratio_atomics(u, total) } else { 0 }) <= u,
{
    let f = DECIMAL_FRACTIONAL as int;
    if total != 0 {
        let w = u * f / total;
        assert(0 <= w && w * total <= u * f) by (nonlinear_arith)
            requires 0 <= u, 0 < total, f > 0, w == u * f / total;
        assert(magnitude * w <= u * f) by (nonlinear_arith)
            requires 0 <= magnitude <= total, 0 <= w, w * total <= u * f;
        assert(0 <= magnitude * w / f <= u) by (nonlinear_arith)
            requires magnitude * w <= u * f, 0 <= magnitude, 0 <= w, f > 0;
    }
}

proof fn lemma_rate_not_raised(actual: int, u: int, amount: int, old_atomics: int)
    requires
        0 <= actual <= u,
        u == mul_floor(amount, old_atomics),
        0 <= amount,
        0 <= old_atomics,
    ensures
        amount != 0 ==> ratio_atomics(actual, amount) <= old_atomics,
{
    let f = DECIMAL_FRACTIONAL as int;
    if amount != 0 {
        assert(u * f <= amount * old_atomics) by (nonlinear_arith)
            requires u == amount * old_atomics / f, f > 0, 0 < amount, 0 <= old_atomics;
        assert(actual * f <= amount * old_atomics) by (nonlinear_arith)
            requires 0 <= actual <= u, u * f <= amount * old_atomics, f > 0;
        assert(actual * f / amount <= old_atomics) by (nonlinear_arith)
            requires actual * f <= amount * old_atomics, 0 < amount, 0 <= actual, f > 0;
    }
}

proof fn lemma_one_token_not_raised(u: int, total: int, slashed: SignedInt, amount: int, old: Decimal)
    requires
        0 <= u <= total,
        !slashed.negative,
        slashed.magnitude <= total,
        u == mul_floor(amount, old.atomics as int),
        0 <= amount,
        amount == 0 || u >= 1,
    ensures
        adjusted_unbonded(u, total, slashed) matches Some(v) ==> (
            new_withdraw_rate(v, amount, old) matches Some(d) ==> d.atomics <= old.atomics),
{
    lemma_share_within_unbonded(u, total, slashed.magnitude as int);
    match adjusted_unbonded(u, total, slashed) {
        Some(v) => {
            if amount != 0 {
                assert(0 <= v <= u);
                lemma_rate_not_raised(v, u, amount, old.atomics as int);
            }
        },
        None => {},
    }
}

proof fn lemma_received_within_owed(actual: int, part: int, whole: int)
    requires
        0 <= actual <= whole,
        0 <= part <= whole,
    ensures
        0 <= mul_floor(actual, share_ratio(part, whole)) <= part,
{
    let f = DECIMAL_FRACTIONAL as int;
    if whole > 0 {
        let r = part * f / whole;
        assert(0 <= r && r * whole <= part * f) by (nonlinear_arith)
            requires 0 <= part, 0 < whole, f > 0, r == part * f / whole;
        assert(actual * r <= part * f) by (nonlinear_arith)
            requires 0 <= actual <= whole, 0 <= r, r * whole <= part * f;
        assert(0 <= actual * r / f <= part) by (nonlinear_arith)
            requires actual * r <= part * f, 0 <= actual, 0 <= r, f > 0;
    }
}

/// A shortfall only lowers withdraw rates: when the Luna that arrived since the
/// last withdrawal is no more than the released batches owe, every released
/// batch's new withdraw rates are at most its old ones. A token that the batch
/// did not burn keeps its rate; for a token it burnt, the batch is taken to owe
/// at least one unit of it.
pub proof fn law_shortfall_lowers_withdraw_rates(
    hs: Seq<UnbondHistory>,
    historical_time: u64,
    hub_balance: u128,
    prev_hub_balance: u128,
    k: int,
)
    requires
        hub_balance >= prev_hub_balance,
        0 <= k < releasable_len(hs, historical_time),
        sum_stluna(hs, releasable_len(hs, historical_time)) + sum_bluna(hs, releasable_len(hs, historical_time))
            <= u128::MAX,
        hub_balance - prev_hub_balance <= sum_stluna(hs, releasable_len(hs, historical_time))
            + sum_bluna(hs, releasable_len(hs, historical_time)),
        hs[k].bluna_amount == 0 || unbonded_bluna(hs[k]) >= 1,
        hs[k].stluna_amount == 0 || unbonded_stluna(hs[k]) >= 1,
    ensures
        ({
            let n = releasable_len(hs, historical_time);
            let st = sum_stluna(hs, n);
            let bl = sum_bluna(hs, n);
            let actual = signed_sub(hub_balance, prev_hub_balance).magnitude as int;
            let bl_slashed = signed_sub(bl as u128, mul_floor(actual, share_ratio(bl, st + bl)) as u128);
            let st_slashed = signed_sub(st as u128, mul_floor(actual, share_ratio(st, st + bl)) as u128);
            released_history(hs[k], st, bl, st_slashed, bl_slashed) matches Some(h) ==> {
                &&& h.bluna_withdraw_rate.atomics <= hs[k].bluna_withdraw_rate.atomics
                &&& h.stluna_withdraw_rate.atomics <= hs[k].stluna_withdraw_rate.atomics
            }
        }),
{
    let n = releasable_len(hs, historical_time);
    lemma_first_stop(hs, historical_time, 0);
    lemma_term_le_sum(hs, k, n);
    let st = sum_stluna(hs, n);
    let bl = sum_bluna(hs, n);
    let actual = signed_sub(hub_balance, prev_hub_balance).magnitude as int;
    assert(actual == hub_balance - prev_hub_balance);
    lemma_received_within_owed(actual, bl, st + bl);
    lemma_received_within_owed(actual, st, st + bl);
    let bl_slashed = signed_sub(bl as u128, mul_floor(actual, share_ratio(bl, st + bl)) as u128);
    let st_slashed = signed_sub(st as u128, mul_floor(actual, share_ratio(st, st + bl)) as u128);
    assert(!bl_slashed.negative && bl_slashed.magnitude <= bl);
    assert(!st_slashed.negative && st_slashed.magnitude <= st);
    lemma_one_token_not_raised(unbonded_bluna(hs[k]), bl, bl_slashed, hs[k].bluna_amount as int,
        hs[k].bluna_withdraw_rate);
    lemma_one_token_not_raised(unbonded_stluna(hs[k]), st, st_slashed, hs[k].stluna_amount as int,
        hs[k].stluna_withdraw_rate);
}

proof fn lemma_pushed_keeps_difference(a: Seq<u8>, b: Seq<u8>, k: int)
    requires
        a.len() == 8,
        b.len() == 8,
        k < 8,
        first_difference(a, b, k),
    ensures
        first_difference(a.push(1u8), b, k),
        first_difference(a, b.push(1u8), k),
        first_difference(a.push(1u8), b.push(1u8), k),
{
    assert(a.push(1u8).take(k) == a.take(k));
    assert(b.push(1u8).take(k) == b.take(k));
}

/// A page of unbond history that starts after batch `i` (its start key is the
/// bytes of `i` followed by a one) holds exactly the later batches: the start
/// key comes after the key of `i` and of every earlier batch, and before the key
/// of every later one. Start keys keep the order of the batch ids.
pub proof fn law_history_page_starts_after(i: u64, j: u64)
    ensures
        key_before(be_bytes(i), be_bytes(i).push(1u8)),
        key_before(be_bytes(i).push(1u8), be_bytes(j)) <==> i < j,
        i < j ==> key_before(be_bytes(i).push(1u8), be_bytes(j).push(1u8)),
{
    let key = be_bytes(i).push(1u8);
    assert(key.take(8) == be_bytes(i).take(8));
    assert(first_difference(be_bytes(i), key, 8));
    if i < j {
        lemma_be_bytes_ordered(i, j);
        let k = choose|k: int| k < 8 && #[trigger] first_difference(be_bytes(i), be_bytes(j), k);
        lemma_pushed_keeps_difference(be_bytes(i), be_bytes(j), k);
        assert(first_difference(key, be_bytes(j), k));
        assert(first_difference(key, be_bytes(j).push(1u8), k));
    } else if j < i {
        lemma_be_bytes_ordered(j, i);
        let k = choose|k: int| k < 8 && #[trigger] first_difference(be_bytes(j), be_bytes(i), k);
        lemma_pushed_keeps_difference(be_bytes(j), be_bytes(i), k);
        assert(first_difference(be_bytes(j), key, k));
        lemma_key_before_asymmetric(be_bytes(j), key);
    } else {
        lemma_key_before_asymmetric(be_bytes(i), key);
    }
}


proof fn lemma_rate_of_equal(x: int)
    requires
        x >= 0,
    ensures
        rate_from(x, x) == DECIMAL_FRACTIONAL as int,
{
    let f = DECIMAL_FRACTIONAL as int;
    if x > 0 {
        assert(x * f / x == f) by (nonlinear_arith)
            requires x > 0;
    }
}

proof fn lemma_mul_by_one(u: int)
    ensures
        mul_floor(u, DECIMAL_FRACTIONAL as int) == u,
        div_by_rate(u, DECIMAL_FRACTIONAL as int) == u,
{
    let f = DECIMAL_FRACTIONAL as int;
    assert(u * f / f == u) by (nonlinear_arith)
        requires f > 0;
}

/// After a conversion from stLuna to bLuna, the stLuna exchange rate is the
/// stLuna bonded amount left over the stLuna that remains: the supply less the
/// converted stLuna, plus the stLuna requested for unbonding. So when the
/// stLuna side stood at a rate of one with as much bonded as issued and
/// requested, it stays at one.
pub proof fn law_convert_stluna_bluna_stluna_rate(
    state: State,
    er_threshold: u128,
    peg_recovery_fee: u128,
    requested_bluna_with_fee: u128,
    requested_stluna: u128,
    stluna_amount: u128,
    total_bluna_supply: u128,
    total_stluna_supply: u128,
)
    ensures
        convert_stluna_bluna_spec(state, er_threshold as int, peg_recovery_fee as int, requested_bluna_with_fee as int,
            requested_stluna as int, stluna_amount as int, total_bluna_supply as int, total_stluna_supply as int)
            matches Ok((s, net, gross)) ==> {
            &&& s.stluna_exchange_rate.atomics == rate_from(s.total_bond_stluna_amount as int,
                total_stluna_supply - stluna_amount + requested_stluna)
            &&& (state.stluna_exchange_rate.atomics == DECIMAL_FRACTIONAL
                && state.total_bond_stluna_amount == total_stluna_supply + requested_stluna)
                ==> s.stluna_exchange_rate.atomics == DECIMAL_FRACTIONAL
        },
{
    let r = convert_stluna_bluna_spec(state, er_threshold as int, peg_recovery_fee as int,
        requested_bluna_with_fee as int, requested_stluna as int, stluna_amount as int, total_bluna_supply as int,
        total_stluna_supply as int);
    if r is Ok && state.stluna_exchange_rate.atomics == DECIMAL_FRACTIONAL
        && state.total_bond_stluna_amount == total_stluna_supply + requested_stluna {
        lemma_mul_by_one(stluna_amount as int);
        let left = total_stluna_supply - stluna_amount + requested_stluna;
        lemma_rate_of_equal(left);
    }
}

/// After a conversion from bLuna to stLuna, the stLuna exchange rate is the
/// stLuna bonded amount over the stLuna supply with the minted stLuna added,
/// plus the stLuna requested for unbonding. So when the stLuna side stood at a
/// rate of one with as much bonded as issued and requested, it stays at one.
pub proof fn law_convert_bluna_stluna_stluna_rate(
    state: State,
    er_threshold: u128,
    peg_recovery_fee: u128,
    requested_bluna_with_fee: u128,
    requested_stluna: u128,
    bluna_amount: u128,
    total_bluna_supply: u128,
    total_stluna_supply: u128,
)
    ensures
        convert_bluna_stluna_spec(state, er_threshold as int, peg_recovery_fee as int, requested_bluna_with_fee as int,
            requested_stluna as int, bluna_amount as int, total_bluna_supply as int, total_stluna_supply as int)
            matches Ok((s, minted)) ==> {
            &&& s.stluna_exchange_rate.atomics == rate_from(s.total_bond_stluna_amount as int,
                total_stluna_supply + minted + requested_stluna)
            &&& (state.stluna_exchange_rate.atomics == DECIMAL_FRACTIONAL
                && state.total_bond_stluna_amount == total_stluna_supply + requested_stluna)
                ==> s.stluna_exchange_rate.atomics == DECIMAL_FRACTIONAL
        },
{
    let r = convert_bluna_stluna_spec(state, er_threshold as int, peg_recovery_fee as int,
        requested_bluna_with_fee as int, requested_stluna as int, bluna_amount as int, total_bluna_supply as int,
        total_stluna_supply as int);
    if let Ok((s, minted)) = r {
        if state.stluna_exchange_rate.atomics == DECIMAL_FRACTIONAL
            && state.total_bond_stluna_amount == total_stluna_supply + requested_stluna {
            assert forall|u: int| div_by_rate(u, DECIMAL_FRACTIONAL as int) == u by {
                lemma_mul_by_one(u);
            }
            lemma_rate_of_equal(s.total_bond_stluna_amount as int);
        }
    }
}

/// `x * (1 - fee)` as the governance contract computes it: the fee is cut to
/// nine decimal places and the product rounded down.
pub open spec fn less_gov_fee(x: int, fee_atomics: int) -> int {
    x * (1_000_000_000 - fee_atomics / 1_000_000_000) / 1_000_000_000
}

/// A burn below the threshold rate requests the value of the burnt tokens at
/// the pool's rate less the peg recovery fee (at nine places), so for a positive
/// fee and value strictly less than that value; at or above the threshold it
/// requests the whole value. In both cases the whole value leaves the pool.
pub proof fn law_burn_request_with_peg_fee(
    amount: u128,
    rate_atomics: u128,
    threshold_atomics: u128,
    fee_atomics: u128,
    total_bond_amount: u128,
    epoch: EpochId,
    epoch_time: u64,
    block_time: u64,
    undelegated_so_far: u128,
    all_delegations: u128,
)
    ensures
        burn_spec(amount as int, rate_atomics as int, threshold_atomics as int, fee_atomics as int,
            total_bond_amount as int, epoch, epoch_time as int, block_time as int, undelegated_so_far as int,
            all_delegations as int) matches Some(o) ==> {
            let value = amount * rate_atomics / (DECIMAL_FRACTIONAL as int);
            &&& o.total_bond_amount == total_bond_amount - value
            &&& rate_atomics < threshold_atomics ==> o.request == less_gov_fee(value, fee_atomics as int)
            &&& rate_atomics < threshold_atomics && fee_atomics >= 1_000_000_000 && value > 0 ==> o.request < value
            &&& rate_atomics >= threshold_atomics ==> o.request == value
        },
{
    let value = amount * rate_atomics / (DECIMAL_FRACTIONAL as int);
    let f = DECIMAL_FRACTIONAL as int;
    let g = 1_000_000_000int;
    let fa = fee_atomics as int;
    assert(scaled(f) == g) by (nonlinear_arith)
        requires g == 1_000_000_000, f == g * g, scaled(f) == g * f / f;
    assert(scaled(fa) == fa / g) by (nonlinear_arith)
        requires g == 1_000_000_000, f == g * g, scaled(fa) == g * fa / f, fa >= 0;
    if scaled(f) >= scaled(fa) {
        let c = g - fa / g;
        assert(gov_subtraction(f, fa) == c * g) by (nonlinear_arith)
            requires g == 1_000_000_000, f == g * g, c >= 0,
                gov_subtraction(f, fa) == ratio_atomics(c, g), ratio_atomics(c, g) == c * f / g;
        assert(mul_floor(value, c * g) == value * c / g) by (nonlinear_arith)
            requires g == 1_000_000_000, f == g * g, mul_floor(value, c * g) == value * (c * g) / f;
        if fa >= g && value > 0 {
            assert(value * c / g < value) by (nonlinear_arith)
                requires g == 1_000_000_000, c <= g - 1, c >= 0, value > 0;
        }
    }
}

/// An unbond of bLuna at or above the threshold rate takes no peg recovery fee:
/// the whole amount is recorded. Below it, the fee taken is at most
/// `amount * peg_recovery_fee`.
pub proof fn law_unbond_no_fee_at_threshold(
    rate: u128,
    threshold: u128,
    recovery_fee: u128,
    bonded: u128,
    requested: u128,
    amount: u128,
    supply: u128,
)
    ensures
        rate >= threshold ==> bluna_unbond_with_fee(rate as int, threshold as int, recovery_fee as int,
            bonded as int, requested as int, amount as int, supply as int) == Some(amount as int),
        bluna_unbond_with_fee(rate as int, threshold as int, recovery_fee as int, bonded as int, requested as int,
            amount as int, supply as int) matches Some(recorded)
            ==> amount - mul_floor(amount as int, recovery_fee as int) <= recorded <= amount,
{
    let f = DECIMAL_FRACTIONAL as int;
    assert(amount * recovery_fee / f >= 0) by (nonlinear_arith)
        requires amount >= 0, recovery_fee >= 0, f > 0;
}

/// Whether the entry's batch was released.
pub open spec fn entry_released(e: WaitEntry) -> bool {
    e.history matches Some(h) && h.released
}

/// What a withdrawal pays depends only on the entries whose batches were
/// released: forgetting the history of an entry whose batch is not released
/// changes neither the amount paid nor the batches paid out.
pub proof fn law_unreleased_entry_not_paid(entries: Seq<WaitEntry>, k: int, n: int)
    requires
        0 <= k < n <= entries.len(),
        entries[k].history is Some,
        !entry_released(entries[k]),
    ensures
        withdrawable_sum(entries, false, 0, n)
            == withdrawable_sum(entries.update(k, WaitEntry { history: None, ..entries[k] }), false, 0, n),
        released_batches(entries, n)
            == released_batches(entries.update(k, WaitEntry { history: None, ..entries[k] }), n),
    decreases n,
{
    let other = entries.update(k, WaitEntry { history: None, ..entries[k] });
    if n - 1 > k {
        law_unreleased_entry_not_paid(entries, k, n - 1);
        assert(other[n - 1] == entries[n - 1]);
    } else {
        lemma_prefix_unchanged(entries, other, n - 1);
    }
}

proof fn lemma_prefix_unchanged(a: Seq<WaitEntry>, b: Seq<WaitEntry>, n: int)
    requires
        0 <= n <= a.len(),
        n <= b.len(),
        forall|i: int| 0 <= i < n ==> a[i] == b[i],
    ensures
        withdrawable_sum(a, false, 0, n) == withdrawable_sum(b, false, 0, n),
        released_batches(a, n) == released_batches(b, n),
    decreases n,
{
    if n > 0 {
        lemma_prefix_unchanged(a, b, n - 1);
    }
}

/// When no entry's batch was released, a withdrawal pays nothing and pays out
/// no batch.
pub proof fn law_nothing_released_nothing_paid(entries: Seq<WaitEntry>, n: int)
    requires
        0 <= n <= entries.len(),
        forall|i: int| 0 <= i < n ==> !entry_released(#[trigger] entries[i]),
    ensures
        withdrawable_sum(entries, false, 0, n) == 0,
        released_batches(entries, n) == Seq::<u64>::empty(),
    decreases n,
{
    if n > 0 {
        assert(!entry_released(entries[n - 1]));
        law_nothing_released_nothing_paid(entries, n - 1);
    }
}


/// A conversion from stLuna to bLuna moves the value of the converted stLuna
/// at the stLuna rate from the stLuna side to the bLuna side, and mints that
/// value at the bLuna rate; at or above the threshold rate no peg fee is taken.
pub proof fn law_convert_stluna_bluna_moves_value(
    state: State,
    er_threshold: u128,
    peg_recovery_fee: u128,
    requested_bluna_with_fee: u128,
    requested_stluna: u128,
    stluna_amount: u128,
    total_bluna_supply: u128,
    total_stluna_supply: u128,
)
    ensures
        convert_stluna_bluna_spec(state, er_threshold as int, peg_recovery_fee as int, requested_bluna_with_fee as int,
            requested_stluna as int, stluna_amount as int, total_bluna_supply as int, total_stluna_supply as int)
            matches Ok((s, net, gross)) ==> {
            let value = stluna_amount * state.stluna_exchange_rate.atomics / (DECIMAL_FRACTIONAL as int);
            &&& s.total_bond_bluna_amount == state.total_bond_bluna_amount + value
            &&& s.total_bond_stluna_amount == state.total_bond_stluna_amount - value
            &&& gross == value * (DECIMAL_FRACTIONAL as int) / (state.bluna_exchange_rate.atomics as int)
            &&& net <= gross
            &&& state.bluna_exchange_rate.atomics >= er_threshold ==> net == gross
        },
{
}

/// A conversion from bLuna to stLuna moves the value of the bLuna net of the
/// peg fee at the bLuna rate to the stLuna side, and mints that value at the
/// stLuna rate; at or above the threshold rate no peg fee is taken.
pub proof fn law_convert_bluna_stluna_moves_value(
    state: State,
    er_threshold: u128,
    peg_recovery_fee: u128,
    requested_bluna_with_fee: u128,
    requested_stluna: u128,
    bluna_amount: u128,
    total_bluna_supply: u128,
    total_stluna_supply: u128,
)
    ensures
        convert_bluna_stluna_spec(state, er_threshold as int, peg_recovery_fee as int, requested_bluna_with_fee as int,
            requested_stluna as int, bluna_amount as int, total_bluna_supply as int, total_stluna_supply as int)
            matches Ok((s, minted)) ==> {
            let moved = state.total_bond_bluna_amount - s.total_bond_bluna_amount;
            &&& s.total_bond_stluna_amount == state.total_bond_stluna_amount + moved
            &&& minted == moved * (DECIMAL_FRACTIONAL as int) / (state.stluna_exchange_rate.atomics as int)
            &&& moved <= bluna_amount * state.bluna_exchange_rate.atomics / (DECIMAL_FRACTIONAL as int)
            &&& state.bluna_exchange_rate.atomics >= er_threshold
                ==> moved == bluna_amount * state.bluna_exchange_rate.atomics / (DECIMAL_FRACTIONAL as int)
        },
{
    let r = convert_bluna_stluna_spec(state, er_threshold as int, peg_recovery_fee as int,
        requested_bluna_with_fee as int, requested_stluna as int, bluna_amount as int, total_bluna_supply as int,
        total_stluna_supply as int);
    if r is Ok {
        let b = state.bluna_exchange_rate.atomics as int;
        assert forall|x: int, y: int| 0 <= x <= y implies #[trigger] mul_floor(x, b) <= #[trigger] mul_floor(y, b) by {
            lemma_mul_floor_monotone(x, y, b);
        }
        assert(mul_floor(bluna_amount as int, b) == bluna_amount * b / (DECIMAL_FRACTIONAL as int));
    }
}

} // verus!
