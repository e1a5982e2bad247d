use anchor_basset::reward::global::authorize_swap;
use anchor_basset::reward::user::authorize_token;
use anchor_basset::coin::Coin;
use anchor_basset::reward::global::swap_plan;
use anchor_basset::decimal::Decimal;
use anchor_basset::reward::global::{init_state, update_global_index, RewardConfig, RewardError, RewardState};
use anchor_basset::reward::user::{
    calculate_rewards, claim_rewards, decrease_balance, default_holder, increase_balance, query_accrued_rewards,
    Holder,
};

#[test]
fn proper_calculate_rewards() {
    let global_index = Decimal::from_ratio(9, 100);
    let user_index = Decimal::zero();
    let user_balance = 1000u128;
    let reward = calculate_rewards(global_index, user_index, user_balance).unwrap();
    assert_eq!(reward, 90u128);
}

fn config() -> RewardConfig {
    RewardConfig { hub_contract: "hub".to_string(), reward_denom: "uusd".to_string() }
}

#[test]
fn index_update_distributes_received_rewards() {
    let state = RewardState { total_balance: 1000, ..init_state() };
    let (s, claimed) = update_global_index(&config(), &state, &"hub".to_string(), 100).unwrap();
    assert_eq!(claimed, 100);
    assert_eq!(s.global_index, Decimal::from_ratio(1, 10));
    assert_eq!(s.prev_reward_balance, 100);
    assert_eq!(
        update_global_index(&config(), &state, &"other".to_string(), 100),
        Err(RewardError::Unauthorized)
    );
    assert_eq!(
        update_global_index(&config(), &init_state(), &"hub".to_string(), 100),
        Err(RewardError::NoAssetBonded)
    );
    let spent = RewardState { prev_reward_balance: 200, ..state };
    assert_eq!(update_global_index(&config(), &spent, &"hub".to_string(), 100), Err(RewardError::Arithmetic));
}

#[test]
fn balance_changes_keep_accrued_rewards() {
    let state = RewardState { global_index: Decimal::from_ratio(1, 10), total_balance: 1000, prev_reward_balance: 0 };
    let holder = Holder { balance: 1000, index: Decimal::zero(), pending_rewards: 5 };
    assert_eq!(query_accrued_rewards(&state, &holder), Ok(105));
    let (s2, h2) = increase_balance(&state, &holder, 500).unwrap();
    assert_eq!(s2.total_balance, 1500);
    assert_eq!(h2.balance, 1500);
    assert_eq!(h2.pending_rewards, 105);
    assert_eq!(query_accrued_rewards(&s2, &h2), Ok(105));
    let (s3, h3) = decrease_balance(&s2, &h2, 1500).unwrap();
    assert_eq!(s3.total_balance, 0);
    assert_eq!(h3.balance, 0);
    assert_eq!(query_accrued_rewards(&s3, &h3), Ok(105));
    assert_eq!(decrease_balance(&s3, &h3, 1), Err(RewardError::DecreaseExceedsBalance));
}

#[test]
fn claim_pays_and_resets() {
    let state = RewardState { global_index: Decimal::from_ratio(1, 10), total_balance: 1000, prev_reward_balance: 0 };
    let holder = Holder { balance: 1000, index: Decimal::zero(), pending_rewards: 0 };
    let (h, paid) = claim_rewards(&state, &holder).unwrap();
    assert_eq!(paid, 100);
    assert_eq!(h.pending_rewards, 0);
    assert_eq!(h.index, state.global_index);
    assert_eq!(claim_rewards(&state, &h), Err(RewardError::NoReward));
    assert_eq!(claim_rewards(&state, &default_holder()), Err(RewardError::NoReward));
}

#[test]
fn swap_plan_skips_reward_denom_and_unlisted() {
    let balance = vec![
        Coin { denom: "uusd".to_string(), amount: 10 },
        Coin { denom: "ukrw".to_string(), amount: 10 },
        Coin { denom: "usdr".to_string(), amount: 10 },
    ];
    assert_eq!(swap_plan(&balance, &"uusd".to_string(), true, &vec![]), vec![1, 2]);
    assert_eq!(swap_plan(&balance, &"uusd".to_string(), false, &vec![true, false, true]), vec![2]);
}

#[test]
fn only_hub_and_token_may_call() {


    assert_eq!(authorize_swap(&config(), &"hub".to_string()), Ok(()));
    assert_eq!(authorize_swap(&config(), &"x".to_string()), Err(RewardError::Unauthorized));
    assert_eq!(authorize_token(&"token".to_string(), &"token".to_string()), Ok(()));
    assert_eq!(authorize_token(&"token".to_string(), &"x".to_string()), Err(RewardError::Unauthorized));
}
