use anchor_basset::airdrop::{
    add_airdrop, fabricate_claim, instantiate, remove_airdrop, update_airdrop, update_config, AirdropConfig,
    AirdropError, AirdropInfo,
};

fn do_init() -> AirdropConfig {
    instantiate("owner".to_string(), "hub_contract".to_string(), "reward_contract".to_string())
}

fn info(airdrop_contract: &str) -> AirdropInfo {
    AirdropInfo {
        airdrop_token_contract: "airdrop_token_contract".to_string(),
        airdrop_contract: airdrop_contract.to_string(),
        airdrop_swap_contract: "swap_contract".to_string(),
        swap_belief_price: None,
        swap_max_spread: None,
    }
}

fn do_add_airdrop_info(config: AirdropConfig, airdrop_token: &str) -> AirdropConfig {
    add_airdrop(config, &"owner".to_string(), airdrop_token.to_string(), false).unwrap()
}

#[test]
fn proper_add_airdrop_info() {
    let config = do_init();

    // only owner can send this
    let res = add_airdrop(config.clone(), &"invalid".to_string(), "MIR".to_string(), false);
    assert_eq!(res.unwrap_err(), AirdropError::Unauthorized);

    let conf = add_airdrop(config, &"owner".to_string(), "MIR".to_string(), false).unwrap();
    assert_eq!(conf.owner, "owner");
    assert_eq!(conf.hub_contract, "hub_contract");
    assert_eq!(conf.reward_contract, "reward_contract");
    assert_eq!(conf.airdrop_tokens, vec!["MIR".to_string()]);

    // failed message: the token has an entry now
    let res = add_airdrop(conf, &"owner".to_string(), "MIR".to_string(), true).unwrap_err();
    assert_eq!(res, AirdropError::TokenInfoExists("MIR".to_string()));
}

#[test]
fn proper_remove_airdrop_info() {
    let config = do_add_airdrop_info(do_init(), "MIR");

    // only owner can send this
    let res = remove_airdrop(config.clone(), &"invalid".to_string(), "MIR".to_string(), true);
    assert_eq!(res.unwrap_err(), AirdropError::Unauthorized);

    let conf = remove_airdrop(config, &"owner".to_string(), "MIR".to_string(), true).unwrap();
    assert_eq!(conf.airdrop_tokens, Vec::<String>::new());
    assert_eq!(conf.owner, "owner");

    // failed message
    let res = update_airdrop(&conf, &"owner".to_string(), "BUZZ".to_string(), false).unwrap_err();
    assert_eq!(res, AirdropError::NoTokenInfo("BUZZ".to_string()));
}

#[test]
fn proper_update_airdrop_info() {
    let config = do_add_airdrop_info(do_init(), "MIR");

    // only owner can send this
    let res = update_airdrop(&config, &"invalid".to_string(), "MIR".to_string(), true);
    assert_eq!(res.unwrap_err(), AirdropError::Unauthorized);

    assert_eq!(update_airdrop(&config, &"owner".to_string(), "MIR".to_string(), true), Ok(()));

    // failed message
    let res = update_airdrop(&config, &"owner".to_string(), "BUZZ".to_string(), false).unwrap_err();
    assert_eq!(res, AirdropError::NoTokenInfo("BUZZ".to_string()));
}

#[test]
fn tests_proper_update_config() {
    let config = do_add_airdrop_info(do_init(), "MIR");
    assert_eq!(config.airdrop_tokens, vec!["MIR".to_string()]);

    let res = update_config(
        config.clone(),
        &"invalid".to_string(),
        Some("new_owner".to_string()),
        None,
        None,
    );
    assert_eq!(res, Err(AirdropError::Unauthorized));

    let conf = update_config(
        config,
        &"owner".to_string(),
        Some("new_owner".to_string()),
        Some("new_hub_contract".to_string()),
        Some("new_reward_contract".to_string()),
    )
    .unwrap();
    assert_eq!(conf.owner, "new_owner");
    assert_eq!(conf.hub_contract, "new_hub_contract");
    assert_eq!(conf.reward_contract, "new_reward_contract");
    assert_eq!(conf.airdrop_tokens, vec!["MIR".to_string()]);
}

#[test]
fn remove_keeps_other_tokens_in_order() {
    let config = do_add_airdrop_info(do_add_airdrop_info(do_add_airdrop_info(do_init(), "MIR"), "ANC"), "BUZZ");
    let conf = remove_airdrop(config, &"owner".to_string(), "ANC".to_string(), true).unwrap();
    assert_eq!(conf.airdrop_tokens, vec!["MIR".to_string(), "BUZZ".to_string()]);
    let back = remove_airdrop(do_add_airdrop_info(conf.clone(), "ANC"), &"owner".to_string(), "ANC".to_string(), true)
        .unwrap();
    assert_eq!(back.airdrop_tokens, conf.airdrop_tokens);
}

#[test]
fn claim_goes_through_hub_to_reward_contract() {
    let config = do_init();
    let claim = fabricate_claim(&config, &info("airdrop_contract"));
    assert_eq!(claim.hub_contract, "hub_contract");
    assert_eq!(claim.airdrop_token_contract, "airdrop_token_contract");
    assert_eq!(claim.airdrop_contract, "airdrop_contract");
    assert_eq!(claim.airdrop_swap_contract, "swap_contract");
    assert_eq!(claim.swap_to, "reward_contract");
    assert_eq!(claim.belief_price, None);
}

#[test]
fn airdrop_pages_are_capped() {
    assert_eq!(anchor_basset::airdrop::page_limit(None), 10);
    assert_eq!(anchor_basset::airdrop::page_limit(Some(3)), 3);
    assert_eq!(anchor_basset::airdrop::page_limit(Some(31)), 30);
}

#[test]
fn tests_proper_init() {
    let conf = do_init();
    assert_eq!(conf.owner, "owner");
    assert_eq!(conf.hub_contract, "hub_contract");
    assert_eq!(conf.reward_contract, "reward_contract");
    assert_eq!(conf.airdrop_tokens, Vec::<String>::new());
}

#[test]
fn proper_mir_claim() {
    let config = do_add_airdrop_info(do_init(), "MIR");
    assert_eq!(config.airdrop_tokens, vec!["MIR".to_string()]);
    let claim = fabricate_claim(&config, &info("airdrop_contract"));
    assert_eq!(claim.hub_contract, "hub_contract");
    assert_eq!(claim.airdrop_token_contract, "airdrop_token_contract");
    assert_eq!(claim.airdrop_contract, "airdrop_contract");
    assert_eq!(claim.airdrop_swap_contract, "swap_contract");
    assert_eq!((claim.belief_price, claim.max_spread), (None, None));
    assert_eq!(claim.swap_to, "reward_contract");
}

#[test]
fn proper_anc_claim() {
    let config = do_add_airdrop_info(do_init(), "ANC");
    assert_eq!(config.airdrop_tokens, vec!["ANC".to_string()]);
    let claim = fabricate_claim(&config, &info("airdrop_contract"));
    assert_eq!(claim.hub_contract, "hub_contract");
    assert_eq!(claim.airdrop_token_contract, "airdrop_token_contract");
    assert_eq!(claim.airdrop_contract, "airdrop_contract");
    assert_eq!(claim.airdrop_swap_contract, "swap_contract");
    assert_eq!((claim.belief_price, claim.max_spread), (None, None));
    assert_eq!(claim.swap_to, "reward_contract");
}
