//! Swapping rewards to the two target denoms and dispatching them.

use crate::coin::Coin;
use crate::decimal::{Decimal, checked_mul_uint, checked_multiply_ratio, mul_floor, ratio_floor};
use crate::tax::{compute_lido_fee, deduct_tax, lemma_tax_bounds, tax_of};
use crate::decimal::DECIMAL_FRACTIONAL;
use vstd::prelude::*;

verus! {

/// Errors of the rewards dispatcher.
#[derive(Clone, Debug, PartialEq, Eq, Structural)]
pub enum DispatcherError {
    /// The sender may not perform this operation.
    Unauthorized,
    /// An amount cannot be computed: a division by zero, or a value below zero or above `u128`.
    Arithmetic,
}

/// The dispatcher's configuration.
#[derive(Clone, Debug, PartialEq, Eq)]
pub struct DispatcherConfig {
    pub owner: String,
    pub hub_contract: String,
    pub bluna_reward_contract: String,
    pub stluna_reward_denom: String,
    pub bluna_reward_denom: String,
    pub lido_fee_address: String,
    pub lido_fee_rate: Decimal,
}

/// The dispatcher created by `sender`, who becomes its owner.
pub fn instantiate(
    sender: String,
    hub_contract: String,
    bluna_reward_contract: String,
    bluna_reward_denom: String,
    stluna_reward_denom: String,
    lido_fee_address: String,
    lido_fee_rate: Decimal,
) -> (r: DispatcherConfig)
    ensures
        r == (DispatcherConfig {
            owner: sender,
            hub_contract,
            bluna_reward_contract,
            stluna_reward_denom,
            bluna_reward_denom,
            lido_fee_address,
            lido_fee_rate,
        }),
{
    DispatcherConfig {
        owner: sender,
        hub_contract,
        bluna_reward_contract,
        stluna_reward_denom,
        bluna_reward_denom,
        lido_fee_address,
        lido_fee_rate,
    }
}

/// Only the hub may have the rewards swapped.
pub fn authorize_hub(config: &DispatcherConfig, sender: &String) -> (r: Result<(), DispatcherError>)
    ensures
        r == (if sender@ == config.hub_contract@ {
            Ok::<(), DispatcherError>(())
        } else {
            Err::<(), DispatcherError>(DispatcherError::Unauthorized)
        }),
{
    if *sender != config.hub_contract {
        return Err(DispatcherError::Unauthorized);
    }
    Ok(())
}

/// Which coin to sell and for which denom so that the stLuna side holds its
/// share of all rewards, or `None` when an amount cannot be computed.
///
/// All rewards are valued in the stLuna reward denom; the stLuna share is that
/// total in proportion of the bonded amounts. A surplus of stLuna rewards is sold
/// for the bLuna denom; a shortfall is bought with bLuna rewards.
pub open spec fn swap_info(
    stluna_total_bonded: int,
    bluna_total_bonded: int,
    stluna_rewards: int,
    bluna_rewards: int,
    bluna_2_stluna: int,
    stluna_2_bluna: int,
) -> Option<(bool, int)> {
    let total = stluna_rewards + mul_floor(bluna_rewards, bluna_2_stluna);
    let bonded = stluna_total_bonded + bluna_total_bonded;
    let share = ratio_floor(total, stluna_total_bonded, bonded);
    if mul_floor(bluna_rewards, bluna_2_stluna) > u128::MAX || total > u128::MAX || bonded > u128::MAX
        || bonded == 0 || share > u128::MAX {
        None
    } else if stluna_rewards > share {
        Some((true, stluna_rewards - share))
    } else {
        let sell = mul_floor(share - stluna_rewards, stluna_2_bluna);
        if sell > u128::MAX { None } else { Some((false, sell)) }
    }
}

/// The coin to offer in a swap and the denom to ask for (see `swap_info`;
/// `true` there means the stLuna reward denom is sold).
pub fn get_swap_info(
    config: &DispatcherConfig,
    stluna_total_bonded_amount: u128,
    bluna_total_bonded_amount: u128,
    total_stluna_rewards_available: u128,
    total_bluna_rewards_available: u128,
    bluna_2_stluna_rewards_xchg_rate: Decimal,
    stluna_2_bluna_rewards_xchg_rate: Decimal,
) -> (r: Result<(Coin, String), DispatcherError>)
    ensures
        ({
            let info = swap_info(stluna_total_bonded_amount as int, bluna_total_bonded_amount as int,
                total_stluna_rewards_available as int, total_bluna_rewards_available as int,
                bluna_2_stluna_rewards_xchg_rate.atomics as int, stluna_2_bluna_rewards_xchg_rate.atomics as int);
            &&& r is Ok <==> info is Some
            &&& r is Err ==> r == Err::<(Coin, String), DispatcherError>(DispatcherError::Arithmetic)
            &&& r matches Ok((coin, ask)) ==> info matches Some((sell_stluna, amount)) && {
                &&& coin.amount == amount
                &&& sell_stluna ==> coin.denom@ == config.stluna_reward_denom@ && ask@ == config.bluna_reward_denom@
                &&& !sell_stluna ==> coin.denom@ == config.bluna_reward_denom@ && ask@ == config.stluna_reward_denom@
            }
        }),
{
    let converted = match checked_mul_uint(total_bluna_rewards_available, bluna_2_stluna_rewards_xchg_rate) {
        Some(v) => v,
        None => return Err(DispatcherError::Arithmetic),
    };
    if total_stluna_rewards_available > u128::MAX - converted
        || stluna_total_bonded_amount > u128::MAX - bluna_total_bonded_amount {
        return Err(DispatcherError::Arithmetic);
    }
    let total = total_stluna_rewards_available + converted;
    let bonded = stluna_total_bonded_amount + bluna_total_bonded_amount;
    if bonded == 0 {
        return Err(DispatcherError::Arithmetic);
    }
    let share = match checked_multiply_ratio(total, stluna_total_bonded_amount, bonded) {
        Some(v) => v,
        None => return Err(DispatcherError::Arithmetic),
    };
    if total_stluna_rewards_available > share {
        Ok((
            Coin { denom: config.stluna_reward_denom.clone(), amount: total_stluna_rewards_available - share },
            config.bluna_reward_denom.clone(),
        ))
    } else {
        let to_buy = share - total_stluna_rewards_available;
        let sell = match checked_mul_uint(to_buy, stluna_2_bluna_rewards_xchg_rate) {
            Some(v) => v,
            None => return Err(DispatcherError::Arithmetic),
        };
        Ok((
            Coin { denom: config.bluna_reward_denom.clone(), amount: sell },
            config.stluna_reward_denom.clone(),
        ))
    }
}

/// Sum, over the first `n` coins, of the stLuna reward denom (`keep`) held.
pub open spec fn kept_sum(balance: Seq<Coin>, keep: Seq<char>, n: int) -> int
    decreases n,
{
    if n <= 0 { 0 } else {
        kept_sum(balance, keep, n - 1) + (if balance[n - 1].denom@ == keep { balance[n - 1].amount as int } else { 0 })
    }
}

/// Sum, over the first `n` coins, of the bLuna reward denom (`xchg`) held plus
/// what the other coins (not `keep`) would fetch in `xchg` (`receives[i]`).
pub open spec fn exchanged_sum(balance: Seq<Coin>, keep: Seq<char>, xchg: Seq<char>, receives: Seq<u128>, n: int) -> int
    decreases n,
{
    if n <= 0 { 0 } else {
        exchanged_sum(balance, keep, xchg, receives, n - 1) + (if balance[n - 1].denom@ == keep {
            0
        } else if balance[n - 1].denom@ == xchg {
            balance[n - 1].amount as int
        } else {
            receives[n - 1] as int
        })
    }
}

proof fn lemma_sums_monotone(balance: Seq<Coin>, keep: Seq<char>, xchg: Seq<char>, receives: Seq<u128>, i: int, j: int)
    requires
        0 <= i <= j,
    ensures
        0 <= kept_sum(balance, keep, i) <= kept_sum(balance, keep, j),
        0 <= exchanged_sum(balance, keep, xchg, receives, i) <= exchanged_sum(balance, keep, xchg, receives, j),
    decreases j,
{
    if j > 0 {
        if i < j {
            lemma_sums_monotone(balance, keep, xchg, receives, i, j - 1);
        } else {
            lemma_sums_monotone(balance, keep, xchg, receives, j - 1, j - 1);
        }
    }
}

/// Totals the rewards in the two target denoms: the coins of `denom_to_keep`,
/// and the coins of `denom_to_xchg` plus what every other coin fetches when
/// swapped to it (`swap_receives[i]`, as the market quotes it). Returns the two
/// totals and the indices of the coins to swap.
pub fn convert_to_target_denoms(
    balance: &Vec<Coin>,
    denom_to_keep: &String,
    denom_to_xchg: &String,
    swap_receives: &Vec<u128>,
) -> (r: Result<(u128, u128, Vec<usize>), DispatcherError>)
    requires
        swap_receives.len() == balance.len(),
    ensures
        ({
            let kept = kept_sum(balance@, denom_to_keep@, balance.len() as int);
            let exchanged = exchanged_sum(balance@, denom_to_keep@, denom_to_xchg@, swap_receives@, balance.len() as int);
            &&& r is Ok <==> (kept <= u128::MAX && exchanged <= u128::MAX)
            &&& r is Err ==> r == Err::<(u128, u128, Vec<usize>), DispatcherError>(DispatcherError::Arithmetic)
            &&& r matches Ok((k, x, swaps)) ==> {
                &&& k == kept
                &&& x == exchanged
                &&& forall|j: int| 0 <= j < swaps@.len() ==> {
                    let i = #[trigger] swaps@[j] as int;
                    0 <= i < balance.len() && balance@[i].denom@ != denom_to_keep@ && balance@[i].denom@ != denom_to_xchg@
                }
                &&& forall|i: int| 0 <= i < balance.len() && balance@[i].denom@ != denom_to_keep@
                    && balance@[i].denom@ != denom_to_xchg@ ==> swaps@.contains(i as usize)
                &&& forall|j1: int, j2: int| 0 <= j1 < j2 < swaps@.len() ==> swaps@[j1] < swaps@[j2]
            }
        }),
{
    let mut kept: u128 = 0;
    let mut exchanged: u128 = 0;
    let mut swaps: Vec<usize> = Vec::new();
    let mut i: usize = 0;
    while i < balance.len()
        invariant
            i <= balance.len(),
            swap_receives.len() == balance.len(),
            kept == kept_sum(balance@, denom_to_keep@, i as int),
            exchanged == exchanged_sum(balance@, denom_to_keep@, denom_to_xchg@, swap_receives@, i as int),
            forall|j: int| 0 <= j < swaps@.len() ==> {
                let k = #[trigger] swaps@[j] as int;
                0 <= k < i && balance@[k].denom@ != denom_to_keep@ && balance@[k].denom@ != denom_to_xchg@
            },
            forall|k: int| 0 <= k < i && balance@[k].denom@ != denom_to_keep@
                && balance@[k].denom@ != denom_to_xchg@ ==> swaps@.contains(k as usize),
            forall|j1: int, j2: int| 0 <= j1 < j2 < swaps@.len() ==> swaps@[j1] < swaps@[j2],
        decreases balance.len() - i,
    {
        proof {
            lemma_sums_monotone(balance@, denom_to_keep@, denom_to_xchg@, swap_receives@, i as int + 1, balance.len() as int);
            lemma_sums_monotone(balance@, denom_to_keep@, denom_to_xchg@, swap_receives@, 0, i as int);
        }
        let c = &balance[i];
        if c.denom == *denom_to_keep {
            if kept > u128::MAX - c.amount {
                return Err(DispatcherError::Arithmetic);
            }
            kept = kept + c.amount;
        } else if c.denom == *denom_to_xchg {
            if exchanged > u128::MAX - c.amount {
                return Err(DispatcherError::Arithmetic);
            }
            exchanged = exchanged + c.amount;
        } else {
            if exchanged > u128::MAX - swap_receives[i] {
                return Err(DispatcherError::Arithmetic);
            }
            exchanged = exchanged + swap_receives[i];
            let ghost before = swaps@;
            swaps.push(i);
            proof {
                assert forall|k: int| 0 <= k < i + 1 && balance@[k].denom@ != denom_to_keep@
                    && balance@[k].denom@ != denom_to_xchg@ implies swaps@.contains(k as usize) by {
                    if k < i {
                        let j = choose|j: int| 0 <= j < before.len() && before[j] == k as usize;
                        assert(swaps@[j] == k as usize);
                    } else {
                        assert(swaps@[swaps@.len() - 1] == k as usize);
                    }
                }
            }
        }
        i = i + 1;
    }
    proof {
        lemma_sums_monotone(balance@, denom_to_keep@, denom_to_xchg@, swap_receives@, 0, balance.len() as int);
    }
    Ok((kept, exchanged, swaps))
}

/// What the dispatcher sends: the stLuna rewards to bond, the bLuna rewards for
/// the reward contract and the protocol fees, each net of the transfer tax.
#[derive(Clone, Copy, Debug, PartialEq, Eq, Structural)]
pub struct Dispatch {
    /// Rewards in the stLuna denom bonded back through the hub (after tax; zero when none).
    pub stluna_rewards: u128,
    /// Rewards in the bLuna denom sent to the reward contract (after tax; zero when none).
    pub bluna_rewards: u128,
    /// The protocol fee in the stLuna denom, when it is not zero after tax.
    pub lido_stluna_fee: Option<u128>,
    /// The protocol fee in the bLuna denom, when it is not zero after tax.
    pub lido_bluna_fee: Option<u128>,
    /// Whether the stLuna rewards are bonded at all: their amount before tax is not zero.
    pub bond_stluna_rewards: bool,
    /// Whether the bLuna rewards are sent at all: their amount before tax is not zero.
    pub send_bluna_rewards: bool,
}

/// The part of the fee or reward that is sent: zero stays zero (nothing is
/// sent), otherwise the amount less the tax.
pub open spec fn sent(amount: int, tax_rate: int, cap: int) -> int {
    if amount == 0 { 0 } else { amount - tax_of(amount, tax_rate, cap) }
}

/// How the dispatcher splits its balances: a fee of `fee_rate` is taken from each
/// side, and what is sent is net of the tax.
pub open spec fn dispatch_of(
    stluna_balance: int,
    bluna_balance: int,
    fee_rate: int,
    tax_rate: int,
    stluna_tax_cap: int,
    bluna_tax_cap: int,
) -> Option<Dispatch> {
    let st_fee = mul_floor(stluna_balance, fee_rate);
    let bl_fee = mul_floor(bluna_balance, fee_rate);
    if st_fee > stluna_balance || bl_fee > bluna_balance || tax_rate + DECIMAL_FRACTIONAL as int > u128::MAX {
        None
    } else {
        let st_fee_sent = sent(st_fee, tax_rate, stluna_tax_cap);
        let bl_fee_sent = sent(bl_fee, tax_rate, bluna_tax_cap);
        Some(Dispatch {
            stluna_rewards: sent(stluna_balance - st_fee, tax_rate, stluna_tax_cap) as u128,
            bluna_rewards: sent(bluna_balance - bl_fee, tax_rate, bluna_tax_cap) as u128,
            lido_stluna_fee: if st_fee_sent != 0 { Some(st_fee_sent as u128) } else { None },
            lido_bluna_fee: if bl_fee_sent != 0 { Some(bl_fee_sent as u128) } else { None },
            bond_stluna_rewards: stluna_balance - st_fee != 0,
            send_bluna_rewards: bluna_balance - bl_fee != 0,
        })
    }
}

fn sent_amount(amount: u128, tax_rate: Decimal, cap: u128) -> (r: u128)
    requires
        tax_rate.atomics + DECIMAL_FRACTIONAL <= u128::MAX,
    ensures
        r == sent(amount as int, tax_rate.atomics as int, cap as int),
        r <= amount,
{
    proof { lemma_tax_bounds(amount as int, tax_rate.atomics as int, cap as int); }
    if amount == 0 {
        0
    } else {
        match deduct_tax(amount, tax_rate, cap) {
            Some(v) => v,
            None => 0,
        }
    }
}

/// Splits the dispatcher's balances of the two reward denoms into the rewards to
/// send and the protocol fees. Only the hub may dispatch.
pub fn dispatch_rewards(
    config: &DispatcherConfig,
    sender: &String,
    stluna_balance: u128,
    bluna_balance: u128,
    tax_rate: Decimal,
    stluna_tax_cap: u128,
    bluna_tax_cap: u128,
) -> (r: Result<Dispatch, DispatcherError>)
    ensures
        sender@ != config.hub_contract@ ==> r == Err::<Dispatch, DispatcherError>(DispatcherError::Unauthorized),
        sender@ == config.hub_contract@ ==> r == (match dispatch_of(stluna_balance as int, bluna_balance as int,
            config.lido_fee_rate.atomics as int, tax_rate.atomics as int, stluna_tax_cap as int, bluna_tax_cap as int) {
            Some(d) => Ok::<Dispatch, DispatcherError>(d),
            None => Err::<Dispatch, DispatcherError>(DispatcherError::Arithmetic),
        }),
{
    if *sender != config.hub_contract {
        return Err(DispatcherError::Unauthorized);
    }
    let st_fee = match compute_lido_fee(stluna_balance, config.lido_fee_rate) {
        Some(v) => v,
        None => return Err(DispatcherError::Arithmetic),
    };
    if st_fee > stluna_balance {
        return Err(DispatcherError::Arithmetic);
    }
    let bl_fee = match compute_lido_fee(bluna_balance, config.lido_fee_rate) {
        Some(v) => v,
        None => return Err(DispatcherError::Arithmetic),
    };
    if bl_fee > bluna_balance || tax_rate.atomics > u128::MAX - DECIMAL_FRACTIONAL {
        return Err(DispatcherError::Arithmetic);
    }
    let st_fee_sent = sent_amount(st_fee, tax_rate, stluna_tax_cap);
    let bl_fee_sent = sent_amount(bl_fee, tax_rate, bluna_tax_cap);
    Ok(Dispatch {
        stluna_rewards: sent_amount(stluna_balance - st_fee, tax_rate, stluna_tax_cap),
        bluna_rewards: sent_amount(bluna_balance - bl_fee, tax_rate, bluna_tax_cap),
        lido_stluna_fee: if st_fee_sent != 0 { Some(st_fee_sent) } else { None },
        lido_bluna_fee: if bl_fee_sent != 0 { Some(bl_fee_sent) } else { None },
        bond_stluna_rewards: stluna_balance - st_fee != 0,
        send_bluna_rewards: bluna_balance - bl_fee != 0,
    })
}

/// Updates the configuration; only the owner may.
pub fn update_config(
    config: &DispatcherConfig,
    sender: &String,
    owner: Option<String>,
    hub_contract: Option<String>,
    bluna_reward_contract: Option<String>,
    stluna_reward_denom: Option<String>,
    bluna_reward_denom: Option<String>,
    lido_fee_address: Option<String>,
    lido_fee_rate: Option<Decimal>,
) -> (r: Result<DispatcherConfig, DispatcherError>)
    ensures
        sender@ != config.owner@ ==> r == Err::<DispatcherConfig, DispatcherError>(DispatcherError::Unauthorized),
        sender@ == config.owner@ ==> r == Ok::<DispatcherConfig, DispatcherError>(DispatcherConfig {
            owner: match owner { Some(v) => v, None => config.owner },
            hub_contract: match hub_contract { Some(v) => v, None => config.hub_contract },
            bluna_reward_contract: match bluna_reward_contract { Some(v) => v, None => config.bluna_reward_contract },
            stluna_reward_denom: match stluna_reward_denom { Some(v) => v, None => config.stluna_reward_denom },
            bluna_reward_denom: match bluna_reward_denom { Some(v) => v, None => config.bluna_reward_denom },
            lido_fee_address: match lido_fee_address { Some(v) => v, None => config.lido_fee_address },
            lido_fee_rate: match lido_fee_rate { Some(v) => v, None => config.lido_fee_rate },
        }),
{
    if *sender != config.owner {
        return Err(DispatcherError::Unauthorized);
    }
    Ok(DispatcherConfig {
        owner: match owner { Some(v) => v, None => config.owner.clone() },
        hub_contract: match hub_contract { Some(v) => v, None => config.hub_contract.clone() },
        bluna_reward_contract: match bluna_reward_contract { Some(v) => v, None => config.bluna_reward_contract.clone() },
        stluna_reward_denom: match stluna_reward_denom { Some(v) => v, None => config.stluna_reward_denom.clone() },
        bluna_reward_denom: match bluna_reward_denom { Some(v) => v, None => config.bluna_reward_denom.clone() },
        lido_fee_address: match lido_fee_address { Some(v) => v, None => config.lido_fee_address.clone() },
        lido_fee_rate: match lido_fee_rate { Some(v) => v, None => config.lido_fee_rate },
    })
}

} // verus!
