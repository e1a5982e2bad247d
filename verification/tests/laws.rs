use anchor_basset::decimal::{mul_uint, Decimal};
use anchor_basset::dispatcher::rewards::{dispatch_rewards, get_swap_info, DispatcherConfig};
use anchor_basset::hub::bond::bond_bluna;
use anchor_basset::hub::convert::convert_bluna_stluna;
use anchor_basset::hub::keys;
use anchor_basset::hub::math::decimal_division;
use anchor_basset::hub::slashing::apply_slashing;
use anchor_basset::hub::state::{CurrentBatch, State, UnbondHistory};
use anchor_basset::hub::withdraw_rate::process_withdraw_rate;
use anchor_basset::reward::global::{update_global_index, RewardConfig, RewardState};

fn state(b_rate: Decimal, s_rate: Decimal, bluna: u128, stluna: u128) -> State {
    State {
        bluna_exchange_rate: b_rate,
        stluna_exchange_rate: s_rate,
        total_bond_bluna_amount: bluna,
        total_bond_stluna_amount: stluna,
        last_index_modification: 0,
        prev_hub_balance: 0,
        last_unbonded_time: 0,
        last_processed_batch: 0,
    }
}

#[test]
fn bond_never_mints_more_than_payment_is_worth() {
    let s = state(Decimal::from_ratio(3, 7), Decimal::one(), 300, 0);
    let (_, minted) = bond_bluna(&s, Decimal::zero(), Decimal::zero(), 0, 10, 700).unwrap();
    assert_eq!(minted, 23);
    assert!(mul_uint(minted, s.bluna_exchange_rate) <= 10);
}

#[test]
fn conversion_never_mints_more_than_value() {
    let s = state(Decimal::from_ratio(3, 2), Decimal::from_ratio(7, 5), 3000, 1400);
    let (after, minted) = convert_bluna_stluna(&s, Decimal::zero(), Decimal::zero(), 0, 0, 100, 2000, 1000).unwrap();
    assert!(mul_uint(minted, s.stluna_exchange_rate) <= mul_uint(100, s.bluna_exchange_rate));
    assert_eq!(
        after.total_bond_bluna_amount + after.total_bond_stluna_amount,
        s.total_bond_bluna_amount + s.total_bond_stluna_amount
    );
}

#[test]
fn index_increment_never_exceeds_claimed() {
    let config = RewardConfig { hub_contract: "hub".to_string(), reward_denom: "uusd".to_string() };
    let s = RewardState { global_index: Decimal::zero(), total_balance: 3, prev_reward_balance: 0 };
    let (after, claimed) = update_global_index(&config, &s, &"hub".to_string(), 100).unwrap();
    assert_eq!(claimed, 100);
    assert!(mul_uint(3, after.global_index) <= 100);
}

#[test]
fn dispatch_never_sends_more_than_held() {
    let config = DispatcherConfig {
        owner: "o".to_string(),
        hub_contract: "hub".to_string(),
        bluna_reward_contract: "reward".to_string(),
        stluna_reward_denom: "uluna".to_string(),
        bluna_reward_denom: "uusd".to_string(),
        lido_fee_address: "fee".to_string(),
        lido_fee_rate: Decimal::percent(5),
    };
    let d = dispatch_rewards(&config, &"hub".to_string(), 1001, 77, Decimal::percent(2), 3, 3).unwrap();
    assert!(d.stluna_rewards + d.lido_stluna_fee.unwrap_or(0) <= 1001);
    assert!(d.bluna_rewards + d.lido_bluna_fee.unwrap_or(0) <= 77);
}

#[test]
fn swap_leaves_stluna_its_share() {
    let config = DispatcherConfig {
        owner: "o".to_string(),
        hub_contract: "hub".to_string(),
        bluna_reward_contract: "reward".to_string(),
        stluna_reward_denom: "uluna".to_string(),
        bluna_reward_denom: "uusd".to_string(),
        lido_fee_address: "fee".to_string(),
        lido_fee_rate: Decimal::percent(5),
    };
    // all rewards are worth 100 + 50 = 150 uluna; the stLuna share is 150 * 1 / 3 = 50
    let (offer, ask) = get_swap_info(&config, 1, 2, 100, 100, Decimal::percent(50), Decimal::percent(200)).unwrap();
    assert_eq!(offer.denom, "uluna");
    assert_eq!(100 - offer.amount, 50);
    assert_eq!(ask, "uusd");
}

#[test]
fn slashing_lowers_the_bluna_side() {
    let s = state(Decimal::one(), Decimal::one(), 700, 300);
    let batch = CurrentBatch { id: 1, requested_bluna_with_fee: 0, requested_stluna: 0 };
    let after = apply_slashing(&s, 901, 700, 300, &batch).unwrap();
    assert!(after.total_bond_bluna_amount <= 700);
    assert_eq!(after.total_bond_bluna_amount + after.total_bond_stluna_amount, 901);
}

#[test]
fn division_by_one_is_identity() {
    assert_eq!(decimal_division(123_456, Decimal::one()), 123_456);
    assert_eq!(anchor_basset::gov::math::decimal_division(123_456, Decimal::one()), 123_456);
}

#[test]
fn shortfall_only_lowers_withdraw_rates() {
    let history = |batch_id: u64, bluna: u128, stluna: u128, rate: Decimal| UnbondHistory {
        batch_id,
        time: 10,
        bluna_amount: bluna,
        bluna_applied_exchange_rate: rate,
        bluna_withdraw_rate: rate,
        stluna_amount: stluna,
        stluna_applied_exchange_rate: Decimal::one(),
        stluna_withdraw_rate: Decimal::one(),
        released: false,
    };
    let histories = vec![history(1, 100, 50, Decimal::percent(90)), history(2, 200, 0, Decimal::one())];
    // the batches owe 90 + 50 + 200 = 340; only 300 arrived
    let (_, released) = process_withdraw_rate(&state(Decimal::one(), Decimal::one(), 0, 0), &histories, 40, 300)
        .unwrap();
    assert_eq!(released.len(), 2);
    for (old, new) in histories.iter().zip(released.iter()) {
        assert!(new.bluna_withdraw_rate.atomics <= old.bluna_withdraw_rate.atomics);
        assert!(new.stluna_withdraw_rate.atomics <= old.stluna_withdraw_rate.atomics);
    }
    assert!(released[0].bluna_withdraw_rate.atomics < Decimal::percent(90).atomics);
    // the second batch burnt no stLuna and keeps its rate
    assert_eq!(released[1].stluna_withdraw_rate, Decimal::one());
}

#[test]
fn history_page_starts_after_the_given_batch() {
    let start = keys::convert(Some(5)).unwrap();
    assert!(5u64.to_be_bytes().to_vec() < start);
    assert!(start < 6u64.to_be_bytes().to_vec());
    assert!(start > 4u64.to_be_bytes().to_vec());
    assert!(start < keys::convert(Some(300)).unwrap());
}
