use anchor_basset::coin::Coin;
use anchor_basset::decimal::Decimal;
use anchor_basset::gov::config::{
    authorize_burn, deactivate, redelegation_target, register_sub_contract, register_validator, update_params, Deactivated,
    MsgStatus, Registration, SubContracts,
};
use anchor_basset::gov::contract::{
    burn, check_slashing_active, compute_current_epoch, find_sent_funds, finish_amount, finishable_epoch,
    get_past_epoch, initial_gov_state, mint, slashed_pool_rate, slashing_check, undelegation_step, GovError,
};
use anchor_basset::gov::math::{decimal_division, decimal_subtraction};
use anchor_basset::gov::state::{AllEpoc, EpocId, EpochId, EPOC};

#[test]
fn epoc_advances_by_whole_epochs() {
    let mut e = EpocId { epoc_id: 3, current_block_time: 1000 };
    assert!(!e.is_epoc_passed(1000 + EPOC - 1));
    assert!(e.is_epoc_passed(1000 + EPOC));
    e.compute_current_epoc(1000 + 2 * EPOC + 5);
    assert_eq!(e, EpocId { epoc_id: 5, current_block_time: 1000 + 2 * EPOC + 5 });
    assert!(!e.is_epoc_passed(1000 + 2 * EPOC + 5));
    let all = AllEpoc { epoces: vec![e] };
    assert_eq!(all.epoces.len(), 1);
}

#[test]
fn epoch_with_parameter_length() {
    let mut e = EpochId { epoch_id: 0, current_block_time: 100 };
    assert!(!e.is_epoch_passed(129, 30));
    assert!(e.is_epoch_passed(130, 30));
    e.compute_current_epoch(195, 30);
    assert_eq!(e, EpochId { epoch_id: 3, current_block_time: 195 });
    assert_eq!(compute_current_epoch(0, 100, 195, 30), 3);
}

#[test]
fn past_epoch_saturates_at_zero() {
    assert_eq!(get_past_epoch(10, 3), 7);
    assert_eq!(get_past_epoch(2, 3), 0);
    let e = EpochId { epoch_id: 10, current_block_time: 0 };
    assert_eq!(finishable_epoch(e, 100, 10, 5), 15);
    assert_eq!(finish_amount(0), Err(GovError::NotReady));
    assert_eq!(finish_amount(7), Ok(7));
}

#[test]
fn gov_decimal_helpers_at_nine_places() {
    assert_eq!(decimal_division(100, Decimal::from_ratio(10, 50)), 500);
    assert_eq!(decimal_division(100, Decimal::one()), 100);
    assert_eq!(decimal_subtraction(Decimal::one(), Decimal::percent(1)), Decimal::percent(99));
    // digits beyond the ninth place are dropped
    assert_eq!(decimal_subtraction(Decimal::one(), Decimal::raw(1)), Decimal::one());
}

fn funds() -> Vec<Coin> {
    vec![
        Coin { denom: "uluna".to_string(), amount: 0 },
        Coin { denom: "uusd".to_string(), amount: 5 },
        Coin { denom: "uluna".to_string(), amount: 100 },
    ]
}

#[test]
fn mint_values_payment_at_rate() {
    assert_eq!(find_sent_funds(&funds(), &"uluna".to_string()), Ok(100));
    assert_eq!(find_sent_funds(&funds(), &"ukrw".to_string()), Err(GovError::NoTokensSent));
    let denom = "uluna".to_string();
    let o = mint(true, &funds(), &denom, Decimal::one(), Decimal::one(), Decimal::percent(1), 50, 7).unwrap();
    assert_eq!(o.minted, 100);
    assert_eq!(o.total_bond_amount, 150);
    assert_eq!(o.bonded, 107);
    // below the threshold the peg fee is taken
    let o = mint(true, &funds(), &denom, Decimal::percent(50), Decimal::one(), Decimal::percent(1), 0, 0).unwrap();
    assert_eq!(o.minted, 198);
    assert_eq!(
        mint(false, &funds(), &denom, Decimal::one(), Decimal::one(), Decimal::zero(), 0, 0),
        Err(GovError::UnsupportedValidator)
    );
    assert_eq!(
        mint(true, &funds(), &denom, Decimal::zero(), Decimal::one(), Decimal::zero(), 0, 0),
        Err(GovError::Arithmetic)
    );
}

#[test]
fn burn_gathers_requests_in_epoch() {
    let epoch = EpochId { epoch_id: 4, current_block_time: 1000 };
    let one = Decimal::one();
    assert_eq!(
        burn(true, 10, one, one, Decimal::zero(), 100, epoch, 30, 1000, 0, 100),
        Err(GovError::Deactivated)
    );
    assert_eq!(burn(false, 0, one, one, Decimal::zero(), 100, epoch, 30, 1000, 0, 100), Err(GovError::ZeroAmount));
    assert_eq!(burn(false, 200, one, one, Decimal::zero(), 100, epoch, 30, 1000, 0, 100), Err(GovError::Arithmetic));

    // within the epoch
    let o = burn(false, 10, one, Decimal::zero(), Decimal::zero(), 100, epoch, 30, 1010, 5, 100).unwrap();
    assert_eq!(o.total_bond_amount, 90);
    assert_eq!(o.request, 10);
    assert_eq!(o.request_epoch, 4);
    assert_eq!(o.epoch_total, 15);
    assert_eq!(o.undelegate, None);
    assert_eq!(o.all_delegations, 90);
    assert_eq!(o.epoch, epoch);

    // the epoch has passed: the gathered requests are undelegated
    let o = burn(false, 10, one, Decimal::zero(), Decimal::zero(), 100, epoch, 30, 1065, 5, 100).unwrap();
    assert_eq!(o.epoch, EpochId { epoch_id: 6, current_block_time: 1065 });
    assert_eq!(o.request_epoch, 4);
    assert_eq!(o.epoch_total, 0);
    assert_eq!(o.undelegate, Some(15));
    assert_eq!(o.all_delegations, 85);
}

#[test]
fn undelegation_takes_at_most_the_delegation() {
    assert_eq!(undelegation_step(100, 30), (30, 70));
    assert_eq!(undelegation_step(20, 30), (20, 0));
}

#[test]
fn creator_only_messages() {
    let creator = "creator".to_string();
    let other = "other".to_string();
    assert_eq!(update_params(&creator, &other, 1, "uluna".to_string(), 2), Err(GovError::Unauthorized));
    let p = update_params(&creator, &creator, 1, "uluna".to_string(), 2).unwrap();
    assert_eq!((p.epoch_time, p.undelegated_epoch), (1, 2));
    assert_eq!(p.supported_coin_denom, "uluna");
    let status = MsgStatus { slashing: None, burn: None };
    assert_eq!(deactivate(&creator, &other, status, Deactivated::Burn), Err(GovError::Unauthorized));
    assert_eq!(
        deactivate(&creator, &creator, status, Deactivated::Burn),
        Ok(MsgStatus { slashing: None, burn: Some(Deactivated::Burn) })
    );
    let validators = vec!["val1".to_string(), "val2".to_string(), "val3".to_string()];
    let d = redelegation_target(&creator, &creator, &validators, &"val2".to_string(), 12345).unwrap();
    assert_eq!(d.remaining, vec!["val1".to_string(), "val3".to_string()]);
    assert!(d.remaining.contains(&d.target));
    assert_eq!(
        redelegation_target(&creator, &other, &validators, &"val2".to_string(), 1),
        Err(GovError::Unauthorized)
    );
}

#[test]
fn slashing_check_compares_growth_with_bonded() {
    assert_eq!(slashing_check(110, 100, 20), Ok(true));
    assert_eq!(slashing_check(120, 100, 20), Ok(false));
    assert_eq!(slashing_check(90, 100, 0), Err(GovError::Arithmetic));
}

#[test]
fn sub_contracts_register_once() {
    let none = SubContracts { token_account: None, reward_account: None };
    let s = register_sub_contract(none, Registration::Token, "token".to_string()).unwrap();
    assert_eq!(s.token_account, Some("token".to_string()));
    assert_eq!(
        register_sub_contract(s.clone(), Registration::Token, "other".to_string()),
        Err(GovError::InvalidRequest)
    );
    let s = register_sub_contract(s, Registration::Reward, "reward".to_string()).unwrap();
    assert_eq!(s.reward_account, Some("reward".to_string()));
    assert_eq!(authorize_burn(&s.token_account, &"token".to_string()), Ok(()));
    assert_eq!(authorize_burn(&s.token_account, &"x".to_string()), Err(GovError::Unauthorized));
    assert_eq!(authorize_burn(&None, &"token".to_string()), Err(GovError::Unauthorized));
    let creator = "creator".to_string();
    let chain = vec!["val1".to_string()];
    assert_eq!(register_validator(&creator, &creator, &"val1".to_string(), &chain), Ok(()));
    assert_eq!(register_validator(&creator, &creator, &"val2".to_string(), &chain), Err(GovError::InvalidValidator));
    assert_eq!(register_validator(&creator, &"x".to_string(), &"val1".to_string(), &chain), Err(GovError::Unauthorized));
}

/// The block time of the test environment.
const MOCK_TIME: u64 = 1_571_797_419;

#[test]
fn proper_exchange_rate() {
    let (rate, epoch, status) = initial_gov_state(MOCK_TIME);
    assert_eq!(epoch, EpochId { epoch_id: 0, current_block_time: MOCK_TIME });
    assert_eq!(status, MsgStatus { slashing: None, burn: None });
    // the exchange rate when nothing is bonded
    assert_eq!(rate.to_string(), "1");

    // the check before the first mint finds nothing delegated, and the pool stays
    assert_eq!(slashed_pool_rate(0, 0, 0, 0), Ok(None));
    let denom = "uluna".to_string();
    let funds = vec![Coin { denom: "uluna".to_string(), amount: 1000 }];
    let o = mint(true, &funds, &denom, rate, Decimal::one(), Decimal::zero(), 0, 0).unwrap();
    assert_eq!(o.minted, 1000);
    assert_eq!(o.total_bond_amount, 1000);

    // only 900 of the 1000 delegated remain: the pool is reset
    let rate = slashed_pool_rate(900, 0, o.bonded, o.minted).unwrap().unwrap();
    assert_eq!(rate.to_string(), "0.9");
    // the delegations grew by what was bonded: the pool stays
    assert_eq!(slashed_pool_rate(1000, 0, o.bonded, o.minted), Ok(None));
    assert_eq!(slashed_pool_rate(900, 1000, 0, 1000), Err(GovError::Arithmetic));
}

#[test]
fn test_deactivate() {
    let owner = "owner1".to_string();
    let invalid = "invalid".to_string();
    let (_, epoch, status) = initial_gov_state(MOCK_TIME);
    assert_eq!(check_slashing_active(status), Ok(()));
    assert_eq!(deactivate(&owner, &invalid, status, Deactivated::Slashing), Err(GovError::Unauthorized));
    let status = deactivate(&owner, &owner, status, Deactivated::Slashing).unwrap();
    // the slashing check cannot run
    assert_eq!(check_slashing_active(status), Err(GovError::Deactivated));

    assert_eq!(deactivate(&owner, &invalid, status, Deactivated::Burn), Err(GovError::Unauthorized));
    let status = deactivate(&owner, &owner, status, Deactivated::Burn).unwrap();
    // the burn cannot run
    let one = Decimal::one();
    assert_eq!(
        burn(status.burn.is_some(), 10, one, one, Decimal::zero(), 0, epoch, 30, MOCK_TIME, 0, 0),
        Err(GovError::Deactivated)
    );
}
