//! Releasing undelegated batches: the Luna that actually arrived at the hub is
//! shared among the batches, and each batch's withdraw rates are adjusted so
//! that slashing during the unbonding period is borne by its requests.

use crate::decimal::{Decimal, checked_mul_uint, mul_floor, mul_uint, ratio_atomics,
    lemma_ratio_at_most_one, lemma_mul_floor_at_most, DECIMAL_FRACTIONAL, checked_from_ratio};
use crate::hub::state::{HubError, State, UnbondHistory};
use vstd::prelude::*;

verus! {

/// The difference of two amounts as a magnitude and a sign.
#[derive(Clone, Copy, Debug, PartialEq, Eq, Structural)]
pub struct SignedInt {
    pub magnitude: u128,
    /// Whether the difference is below zero.
    pub negative: bool,
}

/// `minuend - subtrahend` as a signed integer.
pub open spec fn signed_sub(minuend: u128, subtrahend: u128) -> SignedInt {
    if minuend >= subtrahend {
        SignedInt { magnitude: (minuend - subtrahend) as u128, negative: false }
    } else {
        SignedInt { magnitude: (subtrahend - minuend) as u128, negative: true }
    }
}

impl SignedInt {
    /// `minuend - subtrahend`.
    pub fn from_subtraction(minuend: u128, subtrahend: u128) -> (r: SignedInt)
        ensures
            r == signed_sub(minuend, subtrahend),
    {
        if minuend >= subtrahend {
            SignedInt { magnitude: minuend - subtrahend, negative: false }
        } else {
            SignedInt { magnitude: subtrahend - minuend, negative: true }
        }
    }
}

/// The stLuna Luna a batch owes at its withdraw rate.
pub open spec fn unbonded_stluna(h: UnbondHistory) -> int {
    mul_floor(h.stluna_amount as int, h.stluna_withdraw_rate.atomics as int)
}

/// The bLuna Luna a batch owes at its withdraw rate.
pub open spec fn unbonded_bluna(h: UnbondHistory) -> int {
    mul_floor(h.bluna_amount as int, h.bluna_withdraw_rate.atomics as int)
}

/// Whether a batch can be released: undelegated by `t` and not released yet.
pub open spec fn releasable(h: UnbondHistory, t: u64) -> bool {
    h.time <= t && !h.released
}

/// The index of the first batch from `k` on that cannot be released.
pub open spec fn first_stop(hs: Seq<UnbondHistory>, t: u64, k: int) -> int
    decreases hs.len() - k,
{
    if k < 0 || k >= hs.len() || !releasable(hs[k], t) {
        k
    } else {
        first_stop(hs, t, k + 1)
    }
}

/// How many batches, from the first, are released by this processing.
pub open spec fn releasable_len(hs: Seq<UnbondHistory>, t: u64) -> int {
    first_stop(hs, t, 0)
}

/// Sum of the stLuna Luna owed by the first `n` batches.
pub open spec fn sum_stluna(hs: Seq<UnbondHistory>, n: int) -> int
    decreases n,
{
    if n <= 0 { 0 } else { sum_stluna(hs, n - 1) + unbonded_stluna(hs[n - 1]) }
}

/// Sum of the bLuna Luna owed by the first `n` batches.
pub open spec fn sum_bluna(hs: Seq<UnbondHistory>, n: int) -> int
    decreases n,
{
    if n <= 0 { 0 } else { sum_bluna(hs, n - 1) + unbonded_bluna(hs[n - 1]) }
}

/// The Luna a batch actually receives for one token: its owed amount minus its
/// share (by weight `unbonded / total`) of the slashed amount, rounded against
/// the batch by one unit; a negative slashing (a surplus) is added instead.
pub open spec fn adjusted_unbonded(unbonded: int, total: int, slashed: SignedInt) -> Option<int> {
    let weight = if total != 0 { ratio_atomics(unbonded, total) } else { 0 };
    let share = mul_floor(slashed.magnitude as int, weight);
    if slashed.negative {
        if share == 0 || unbonded + share - 1 > u128::MAX { None } else { Some(unbonded + share - 1) }
    } else {
        let share_up = if slashed.magnitude != 0 { share + 1 } else { share };
        if share_up > u128::MAX {
            None
        } else if unbonded >= share_up {
            Some(unbonded - share_up)
        } else {
            Some(share_up - unbonded)
        }
    }
}

/// The withdraw rate that pays `actual` for `amount` burnt tokens; the old rate
/// when nothing was burnt.
pub open spec fn new_withdraw_rate(actual: int, amount: int, old: Decimal) -> Option<Decimal> {
    if amount != 0 {
        if ratio_atomics(actual, amount) <= u128::MAX {
            Some(Decimal { atomics: ratio_atomics(actual, amount) as u128 })
        } else {
            None
        }
    } else {
        Some(old)
    }
}

/// A batch once released, with its withdraw rates adjusted to the Luna that
/// actually arrived; `None` when an amount cannot be computed.
pub open spec fn released_history(
    h: UnbondHistory,
    stluna_total: int,
    bluna_total: int,
    stluna_slashed: SignedInt,
    bluna_slashed: SignedInt,
) -> Option<UnbondHistory> {
    let st = adjusted_unbonded(unbonded_stluna(h), stluna_total, stluna_slashed);
    let bl = adjusted_unbonded(unbonded_bluna(h), bluna_total, bluna_slashed);
    if st is None || bl is None {
        None
    } else {
        let st_rate = new_withdraw_rate(st->0, h.stluna_amount as int, h.stluna_withdraw_rate);
        let bl_rate = new_withdraw_rate(bl->0, h.bluna_amount as int, h.bluna_withdraw_rate);
        if st_rate is None || bl_rate is None {
            None
        } else {
            Some(UnbondHistory {
                stluna_withdraw_rate: st_rate->0,
                bluna_withdraw_rate: bl_rate->0,
                released: true,
                ..h
            })
        }
    }
}

/// The share of `part` in `total` (zero for an empty total).
pub open spec fn share_ratio(part: int, total: int) -> int {
    if total > 0 { ratio_atomics(part, total) } else { 0 }
}

proof fn lemma_mul_floor_nonneg(u: int, a: int)
    requires
        u >= 0,
        a >= 0,
    ensures
        mul_floor(u, a) >= 0,
{
    assert(u * a / 1_000_000_000_000_000_000int >= 0) by (nonlinear_arith)
        requires u >= 0, a >= 0;
}

proof fn lemma_sums_monotone(hs: Seq<UnbondHistory>, i: int, j: int)
    requires
        0 <= i <= j <= hs.len(),
    ensures
        0 <= sum_stluna(hs, i) <= sum_stluna(hs, j),
        0 <= sum_bluna(hs, i) <= sum_bluna(hs, j),
    decreases j,
{
    if j > 0 {
        lemma_mul_floor_nonneg(hs[j - 1].stluna_amount as int, hs[j - 1].stluna_withdraw_rate.atomics as int);
        lemma_mul_floor_nonneg(hs[j - 1].bluna_amount as int, hs[j - 1].bluna_withdraw_rate.atomics as int);
        if i < j {
            lemma_sums_monotone(hs, i, j - 1);
        } else {
            lemma_sums_monotone(hs, j - 1, j - 1);
        }
    }
}

pub(crate) proof fn lemma_term_le_sum(hs: Seq<UnbondHistory>, k: int, n: int)
    requires
        0 <= k < n <= hs.len(),
    ensures
        0 <= unbonded_stluna(hs[k]) <= sum_stluna(hs, n),
        0 <= unbonded_bluna(hs[k]) <= sum_bluna(hs, n),
{
    lemma_sums_monotone(hs, k, k);
    lemma_sums_monotone(hs, k + 1, n);
    lemma_sums_monotone(hs, 0, k);
    lemma_mul_floor_nonneg(hs[k].stluna_amount as int, hs[k].stluna_withdraw_rate.atomics as int);
    lemma_mul_floor_nonneg(hs[k].bluna_amount as int, hs[k].bluna_withdraw_rate.atomics as int);
}

pub(crate) proof fn lemma_first_stop(hs: Seq<UnbondHistory>, t: u64, k: int)
    requires
        0 <= k <= hs.len(),
    ensures
        k <= first_stop(hs, t, k) <= hs.len(),
        forall|j: int| k <= j < first_stop(hs, t, k) ==> releasable(#[trigger] hs[j], t),
    decreases hs.len() - k,
{
    if k < hs.len() && releasable(hs[k], t) {
        lemma_first_stop(hs, t, k + 1);
    }
}

/// One token's Luna actually received by a batch.
fn adjust_unbonded(unbonded: u128, total: u128, slashed: SignedInt) -> (r: Option<u128>)
    requires
        unbonded <= total,
    ensures
        r == (match adjusted_unbonded(unbonded as int, total as int, slashed) {
            Some(v) => Some(v as u128),
            None => None::<u128>,
        }),
        r is Some ==> adjusted_unbonded(unbonded as int, total as int, slashed) is Some,
        r matches Some(v) ==> v == adjusted_unbonded(unbonded as int, total as int, slashed)->0,
{
    let weight = if total != 0 {
        proof { lemma_ratio_at_most_one(unbonded as int, total as int); }
        Decimal::from_ratio(unbonded, total)
    } else {
        Decimal::zero()
    };
    proof { lemma_mul_floor_at_most(slashed.magnitude as int, weight.atomics as int); }
    let share = mul_uint(slashed.magnitude, weight);
    if slashed.negative {
        if share == 0 || unbonded > u128::MAX - (share - 1) {
            None
        } else {
            Some(unbonded + (share - 1))
        }
    } else {
        let share_up = if slashed.magnitude != 0 {
            if share == u128::MAX {
                return None;
            }
            share + 1
        } else {
            share
        };
        if unbonded >= share_up {
            Some(unbonded - share_up)
        } else {
            Some(share_up - unbonded)
        }
    }
}

fn withdraw_rate_for(actual: u128, amount: u128, old: Decimal) -> (r: Option<Decimal>)
    ensures
        r == new_withdraw_rate(actual as int, amount as int, old),
{
    if amount != 0 {
        checked_from_ratio(actual, amount)
    } else {
        Some(old)
    }
}

/// Releases one batch: `released_history` computed in code.
pub fn release_batch(
    h: &UnbondHistory,
    stluna_total: u128,
    bluna_total: u128,
    stluna_slashed: SignedInt,
    bluna_slashed: SignedInt,
) -> (r: Option<UnbondHistory>)
    requires
        unbonded_stluna(*h) <= stluna_total,
        unbonded_bluna(*h) <= bluna_total,
        0 <= unbonded_stluna(*h),
        0 <= unbonded_bluna(*h),
    ensures
        r == released_history(*h, stluna_total as int, bluna_total as int, stluna_slashed, bluna_slashed),
{
    let st_unbonded = mul_uint(h.stluna_amount, h.stluna_withdraw_rate);
    let bl_unbonded = mul_uint(h.bluna_amount, h.bluna_withdraw_rate);
    let st = match adjust_unbonded(st_unbonded, stluna_total, stluna_slashed) {
        Some(v) => v,
        None => return None,
    };
    let bl = match adjust_unbonded(bl_unbonded, bluna_total, bluna_slashed) {
        Some(v) => v,
        None => return None,
    };
    let st_rate = match withdraw_rate_for(st, h.stluna_amount, h.stluna_withdraw_rate) {
        Some(d) => d,
        None => return None,
    };
    let bl_rate = match withdraw_rate_for(bl, h.bluna_amount, h.bluna_withdraw_rate) {
        Some(d) => d,
        None => return None,
    };
    Some(UnbondHistory {
        stluna_withdraw_rate: st_rate,
        bluna_withdraw_rate: bl_rate,
        released: true,
        ..*h
    })
}

/// Releases the batches that were undelegated by `historical_time`.
///
/// `histories[k]` is the history of batch `state.last_processed_batch + 1 + k`;
/// the leading histories that are not released and were undelegated by
/// `historical_time` are released. The Luna that arrived since the last
/// withdrawal, `|hub_balance - prev_hub_balance|`, is split between the tokens
/// in proportion to what their batches owe; the difference to what they owe is
/// the slashed amount, shared among the batches by weight. Returns the new state
/// (with the last processed batch advanced) and the released histories.
pub fn process_withdraw_rate(
    state: &State,
    histories: &Vec<UnbondHistory>,
    historical_time: u64,
    hub_balance: u128,
) -> (r: Result<(State, Vec<UnbondHistory>), HubError>)
    ensures
        ({
            let hs = histories@;
            let n = releasable_len(hs, historical_time);
            let st = sum_stluna(hs, n);
            let bl = sum_bluna(hs, n);
            let last = state.last_processed_batch as int;
            let sums_ok = last + 1 + n <= u64::MAX && st <= u128::MAX && bl <= u128::MAX && st + bl <= u128::MAX;
            let actual = signed_sub(hub_balance, state.prev_hub_balance).magnitude as int;
            let bl_slashed = signed_sub(bl as u128, mul_floor(actual, share_ratio(bl, st + bl)) as u128);
            let st_slashed = signed_sub(st as u128, mul_floor(actual, share_ratio(st, st + bl)) as u128);
            let batches_ok = forall|k: int| 0 <= k < n ==>
                (#[trigger] released_history(hs[k], st, bl, st_slashed, bl_slashed)) is Some;
            &&& r is Ok <==> (sums_ok && batches_ok)
            &&& r is Err ==> r == Err::<(State, Vec<UnbondHistory>), HubError>(HubError::Arithmetic)
            &&& r matches Ok((s, released)) ==> {
                &&& released.len() == n
                &&& forall|k: int| 0 <= k < n ==>
                    #[trigger] released@[k] == released_history(hs[k], st, bl, st_slashed, bl_slashed)->0
                &&& s == (State {
                    last_processed_batch: (if n >= 1 { last + n } else { last }) as u64,
                    ..*state
                })
            }
        }),
{
    let ghost hs = histories@;
    let ghost t = historical_time;
    proof { lemma_first_stop(hs, t, 0); }
    if state.last_processed_batch == u64::MAX {
        return Err(HubError::Arithmetic);
    }
    let last = state.last_processed_batch;
    let mut n: usize = 0;
    let mut st_total: u128 = 0;
    let mut bl_total: u128 = 0;
    while n < histories.len() && histories[n].time <= historical_time && !histories[n].released
        invariant
            n <= histories.len(),
            hs == histories@,
            t == historical_time,
            last == state.last_processed_batch,
            last < u64::MAX,
            first_stop(hs, t, 0) == first_stop(hs, t, n as int),
            n <= first_stop(hs, t, 0) <= hs.len(),
            last + 1 + n <= u64::MAX,
            st_total == sum_stluna(hs, n as int),
            bl_total == sum_bluna(hs, n as int),
        decreases histories.len() - n,
    {
        let h = &histories[n];
        proof {
            lemma_first_stop(hs, t, n as int + 1);
            lemma_sums_monotone(hs, n as int + 1, first_stop(hs, t, 0));
            lemma_sums_monotone(hs, 0, n as int);
            lemma_mul_floor_nonneg(h.stluna_amount as int, h.stluna_withdraw_rate.atomics as int);
            lemma_mul_floor_nonneg(h.bluna_amount as int, h.bluna_withdraw_rate.atomics as int);
        }
        let st = match checked_mul_uint(h.stluna_amount, h.stluna_withdraw_rate) {
            Some(v) => v,
            None => return Err(HubError::Arithmetic),
        };
        let bl = match checked_mul_uint(h.bluna_amount, h.bluna_withdraw_rate) {
            Some(v) => v,
            None => return Err(HubError::Arithmetic),
        };
        if st_total > u128::MAX - st || bl_total > u128::MAX - bl || last + 1 + (n as u64) == u64::MAX {
            return Err(HubError::Arithmetic);
        }
        st_total = st_total + st;
        bl_total = bl_total + bl;
        n = n + 1;
    }
    let ghost n_spec = releasable_len(hs, t);
    assert(n == n_spec);
    if st_total > u128::MAX - bl_total {
        return Err(HubError::Arithmetic);
    }
    let total = st_total + bl_total;
    let (bl_ratio, st_ratio) = if total > 0 {
        proof {
            lemma_sums_monotone(hs, 0, n as int);
            lemma_ratio_at_most_one(bl_total as int, total as int);
            lemma_ratio_at_most_one(st_total as int, total as int);
        }
        (Decimal::from_ratio(bl_total, total), Decimal::from_ratio(st_total, total))
    } else {
        (Decimal::zero(), Decimal::zero())
    };
    assert(bl_ratio.atomics == share_ratio(bl_total as int, total as int));
    assert(st_ratio.atomics == share_ratio(st_total as int, total as int));
    let balance_change = SignedInt::from_subtraction(hub_balance, state.prev_hub_balance);
    let actual = balance_change.magnitude;
    proof {
        lemma_ratio_bound(bl_total as int, total as int);
        lemma_ratio_bound(st_total as int, total as int);
        lemma_mul_floor_at_most(actual as int, bl_ratio.atomics as int);
        lemma_mul_floor_at_most(actual as int, st_ratio.atomics as int);
    }
    let bl_slashed = SignedInt::from_subtraction(bl_total, mul_uint(actual, bl_ratio));
    let st_slashed = SignedInt::from_subtraction(st_total, mul_uint(actual, st_ratio));
    let ghost spec_bl_slashed = signed_sub(bl_total, mul_floor(actual as int,
        share_ratio(bl_total as int, st_total + bl_total)) as u128);
    let ghost spec_st_slashed = signed_sub(st_total, mul_floor(actual as int,
        share_ratio(st_total as int, st_total + bl_total)) as u128);
    assert(bl_slashed == spec_bl_slashed);
    assert(st_slashed == spec_st_slashed);
    let mut released: Vec<UnbondHistory> = Vec::new();
    let mut k: usize = 0;
    while k < n
        invariant
            n <= histories.len(),
            hs == histories@,
            k <= n,
            released.len() == k,
            n == releasable_len(hs, historical_time),
            bl_slashed == signed_sub(bl_total, mul_floor(signed_sub(hub_balance, state.prev_hub_balance).magnitude as int,
                share_ratio(bl_total as int, st_total + bl_total)) as u128),
            st_slashed == signed_sub(st_total, mul_floor(signed_sub(hub_balance, state.prev_hub_balance).magnitude as int,
                share_ratio(st_total as int, st_total + bl_total)) as u128),
            st_total == sum_stluna(hs, n as int),
            bl_total == sum_bluna(hs, n as int),
            forall|j: int| 0 <= j < k ==>
                #[trigger] released@[j] == released_history(hs[j], st_total as int, bl_total as int, st_slashed, bl_slashed)->0,
            forall|j: int| 0 <= j < k ==>
                (#[trigger] released_history(hs[j], st_total as int, bl_total as int, st_slashed, bl_slashed)) is Some,
        decreases n - k,
    {
        proof { lemma_term_le_sum(hs, k as int, n as int); }
        match release_batch(&histories[k], st_total, bl_total, st_slashed, bl_slashed) {
            Some(h) => released.push(h),
            None => {
                assert(released_history(hs[k as int], st_total as int, bl_total as int, st_slashed, bl_slashed) is None);
                return Err(HubError::Arithmetic);
            },
        }
        k = k + 1;
    }
    let new_state = if n >= 1 {
        State { last_processed_batch: last + (n as u64), ..*state }
    } else {
        State { ..*state }
    };
    Ok((new_state, released))
}

proof fn lemma_ratio_bound(part: int, total: int)
    requires
        0 <= part <= total,
    ensures
        0 <= share_ratio(part, total) <= DECIMAL_FRACTIONAL as int,
{
    if total > 0 {
        lemma_ratio_at_most_one(part, total);
    }
}

} // verus!
