use anchor_basset::coin::Coin;
use anchor_basset::decimal::Decimal;
use anchor_basset::dispatcher::rewards::{
    convert_to_target_denoms, dispatch_rewards, get_swap_info, update_config, Dispatch, DispatcherConfig,
    DispatcherError,
};

const MOCK_HUB_CONTRACT_ADDR: &str = "hub";

fn default_init() -> DispatcherConfig {
    DispatcherConfig {
        owner: "creator".to_string(),
        hub_contract: MOCK_HUB_CONTRACT_ADDR.to_string(),
        bluna_reward_contract: "reward".to_string(),
        bluna_reward_denom: "uusd".to_string(),
        stluna_reward_denom: "uluna".to_string(),
        lido_fee_address: "lido_fee".to_string(),
        lido_fee_rate: Decimal::from_ratio(5, 100),
    }
}

#[test]
fn test_dispatch_rewards() {
    // balances 200uluna, 300uusd; the tax rate is 1% with a cap of 1000000
    let config = default_init();
    let d = dispatch_rewards(
        &config,
        &MOCK_HUB_CONTRACT_ADDR.to_string(),
        200,
        300,
        Decimal::percent(1),
        1_000_000,
        1_000_000,
    )
    .unwrap();
    assert_eq!(d.stluna_rewards, 188);
    assert_eq!(d.bluna_rewards, 282);
    assert_eq!(d.lido_stluna_fee, Some(9));
    assert_eq!(d.lido_bluna_fee, Some(14));
}

#[test]
fn dispatch_only_from_hub_and_without_zero_fees() {
    let config = default_init();
    assert_eq!(
        dispatch_rewards(&config, &"other".to_string(), 200, 300, Decimal::percent(1), 1, 1),
        Err(DispatcherError::Unauthorized)
    );
    let d = dispatch_rewards(&config, &MOCK_HUB_CONTRACT_ADDR.to_string(), 0, 10, Decimal::percent(1), 1, 1).unwrap();
    assert_eq!(
        d,
        Dispatch {
            stluna_rewards: 0,
            bluna_rewards: 9,
            lido_stluna_fee: None,
            lido_bluna_fee: None,
            bond_stluna_rewards: false,
            send_bluna_rewards: true,
        }
    );
}

#[test]
fn dispatch_bonds_rewards_that_tax_takes_whole() {
    let config = default_init();
    let d = dispatch_rewards(&config, &MOCK_HUB_CONTRACT_ADDR.to_string(), 1, 0, Decimal::percent(1), 1_000_000, 1_000_000)
        .unwrap();
    assert_eq!(d.stluna_rewards, 0);
    assert!(d.bond_stluna_rewards);
    assert!(!d.send_bluna_rewards);
    assert_eq!(d.lido_stluna_fee, None);
}

#[test]
fn test_get_swap_info() {
    let config = default_init();

    let (offer_coin, _) =
        get_swap_info(&config, 2, 2, 20, 20, Decimal::from_ratio(1, 1), Decimal::from_ratio(1, 1)).unwrap();
    assert_eq!(offer_coin.denom, config.bluna_reward_denom);
    assert_eq!(offer_coin.amount, 0);

    let (offer_coin, _) =
        get_swap_info(&config, 2, 2, 20, 20, Decimal::from_ratio(15, 10), Decimal::from_ratio(10, 15)).unwrap();
    assert_eq!(offer_coin.denom, config.bluna_reward_denom);
    assert_eq!(offer_coin.amount, 3);

    let (offer_coin, _) =
        get_swap_info(&config, 2, 2, 20, 20, Decimal::from_ratio(75, 100), Decimal::from_ratio(100, 75)).unwrap();
    assert_eq!(offer_coin.denom, config.stluna_reward_denom);
    assert_eq!(offer_coin.amount, 3);
}

#[test]
fn swap_info_fails_without_bonded_amount() {
    let config = default_init();
    assert_eq!(
        get_swap_info(&config, 0, 0, 20, 20, Decimal::one(), Decimal::one()),
        Err(DispatcherError::Arithmetic)
    );
}

struct TestCase {
    rewards_balance: Vec<Coin>,
    stluna_total_bonded: u128,
    bluna_total_bonded: u128,
    expected_total_luna_rewards_available: u128,
    expected_total_ust_rewards_available: u128,
    expected_offer_coin_denom: String,
    expected_offer_coin_amount: u128,
    expected_ask_denom: String,
}

fn coin(amount: u128, denom: &str) -> Coin {
    Coin { denom: denom.to_string(), amount }
}

#[test]
fn test_swap_to_reward_denom() {
    // the market gives 2uusd for 1usdr; the oracle quotes 1uluna = 32uusd
    let test_cases: Vec<TestCase> = vec![
        TestCase {
            rewards_balance: vec![coin(200, "uluna"), coin(300, "uusd"), coin(500, "usdr")],
            stluna_total_bonded: 1,
            bluna_total_bonded: 2,
            expected_total_luna_rewards_available: 200,
            expected_total_ust_rewards_available: 1300,
            expected_offer_coin_denom: "uluna".to_string(),
            expected_offer_coin_amount: 120,
            expected_ask_denom: "uusd".to_string(),
        },
        TestCase {
            rewards_balance: vec![coin(200, "uluna"), coin(300, "uusd"), coin(500, "usdr")],
            stluna_total_bonded: 2,
            bluna_total_bonded: 2,
            expected_total_luna_rewards_available: 200,
            expected_total_ust_rewards_available: 1300,
            expected_offer_coin_denom: "uluna".to_string(),
            expected_offer_coin_amount: 80,
            expected_ask_denom: "uusd".to_string(),
        },
        TestCase {
            rewards_balance: vec![coin(200, "uluna"), coin(300, "uusd"), coin(500, "usdr")],
            stluna_total_bonded: 2,
            bluna_total_bonded: 1,
            expected_total_luna_rewards_available: 200,
            expected_total_ust_rewards_available: 1300,
            expected_offer_coin_denom: "uluna".to_string(),
            expected_offer_coin_amount: 40,
            expected_ask_denom: "uusd".to_string(),
        },
        TestCase {
            rewards_balance: vec![coin(0, "uluna"), coin(300, "uusd"), coin(500, "usdr")],
            stluna_total_bonded: 2,
            bluna_total_bonded: 2,
            expected_total_luna_rewards_available: 0,
            expected_total_ust_rewards_available: 1300,
            expected_offer_coin_denom: "uusd".to_string(),
            expected_offer_coin_amount: 640,
            expected_ask_denom: "uluna".to_string(),
        },
    ];

    let config = default_init();
    for test_case in test_cases {
        let receives: Vec<u128> = test_case.rewards_balance.iter().map(|c| c.amount * 2).collect();
        let (luna, ust, swaps) = convert_to_target_denoms(
            &test_case.rewards_balance,
            &config.stluna_reward_denom,
            &config.bluna_reward_denom,
            &receives,
        )
        .unwrap();
        assert_eq!(luna, test_case.expected_total_luna_rewards_available);
        assert_eq!(ust, test_case.expected_total_ust_rewards_available);
        assert_eq!(swaps, vec![2]);
        let (offer_coin, ask_denom) = get_swap_info(
            &config,
            test_case.stluna_total_bonded,
            test_case.bluna_total_bonded,
            luna,
            ust,
            Decimal::from_ratio(1, 32),
            Decimal::from_ratio(32, 1),
        )
        .unwrap();
        assert_eq!(offer_coin.denom, test_case.expected_offer_coin_denom);
        assert_eq!(offer_coin.amount, test_case.expected_offer_coin_amount);
        assert_eq!(ask_denom, test_case.expected_ask_denom);
    }
}


#[test]
fn test_update_config() {
    let config = default_init();
    let owner = "creator".to_string();

    // check call from invalid owner
    let invalid_owner = "invalid_owner".to_string();
    let res = update_config(&config, &invalid_owner, Some("some_addr".to_string()), None, None, None, None, None, None);
    assert_eq!(res, Err(DispatcherError::Unauthorized));

    // change owner
    let new_owner = "new_owner".to_string();
    let config = update_config(&config, &owner, Some(new_owner.clone()), None, None, None, None, None, None).unwrap();
    assert_eq!(config.owner, new_owner);

    let config =
        update_config(&config, &new_owner, None, Some("some_address".to_string()), None, None, None, None, None).unwrap();
    assert_eq!(config.hub_contract, "some_address");

    let config =
        update_config(&config, &new_owner, None, None, Some("some_address".to_string()), None, None, None, None).unwrap();
    assert_eq!(config.bluna_reward_contract, "some_address");

    let config =
        update_config(&config, &new_owner, None, None, None, Some("new_denom".to_string()), None, None, None).unwrap();
    assert_eq!(config.stluna_reward_denom, "new_denom");

    let config =
        update_config(&config, &new_owner, None, None, None, None, Some("new_denom".to_string()), None, None).unwrap();
    assert_eq!(config.bluna_reward_denom, "new_denom");

    let config =
        update_config(&config, &new_owner, None, None, None, None, None, Some("some_address".to_string()), None).unwrap();
    assert_eq!(config.lido_fee_address, "some_address");

    let config = update_config(&config, &new_owner, None, None, None, None, None, None, Some(Decimal::one())).unwrap();
    assert_eq!(config.lido_fee_rate, Decimal::one());
}

#[test]
fn dispatcher_instantiate_and_hub_check() {
    let c = anchor_basset::dispatcher::rewards::instantiate(
        "creator".to_string(),
        "hub".to_string(),
        "reward".to_string(),
        "uusd".to_string(),
        "uluna".to_string(),
        "lido_fee".to_string(),
        Decimal::percent(5),
    );
    assert_eq!(c, default_init());
    assert_eq!(anchor_basset::dispatcher::rewards::authorize_hub(&c, &"hub".to_string()), Ok(()));
    assert_eq!(
        anchor_basset::dispatcher::rewards::authorize_hub(&c, &"x".to_string()),
        Err(DispatcherError::Unauthorized)
    );
}
