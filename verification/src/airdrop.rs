//! The airdrop registry: which airdrop tokens the hub claims, and where the
//! claims and swaps go.

use crate::decimal::Decimal;
use vstd::prelude::*;

verus! {

/// Errors of the airdrop registry.
#[derive(Clone, Debug, PartialEq, Eq)]
pub enum AirdropError {
    /// Only the owner may send this message.
    Unauthorized,
    /// The token already has an airdrop entry.
    TokenInfoExists(String),
    /// The token has no airdrop entry.
    NoTokenInfo(String),
}

/// The registry's configuration.
#[derive(Clone, Debug, PartialEq, Eq)]
pub struct AirdropConfig {
    pub owner: String,
    pub hub_contract: String,
    pub reward_contract: String,
    /// The registered airdrop tokens, in the order they were added.
    pub airdrop_tokens: Vec<String>,
}

/// Where an airdrop is claimed and how its tokens are swapped.
#[derive(Clone, Debug, PartialEq, Eq)]
pub struct AirdropInfo {
    pub airdrop_token_contract: String,
    pub airdrop_contract: String,
    pub airdrop_swap_contract: String,
    pub swap_belief_price: Option<Decimal>,
    pub swap_max_spread: Option<Decimal>,
}

/// The hub's claim of an airdrop: claim at the airdrop contract, then swap the
/// airdropped tokens with the proceeds sent to the reward contract.
#[derive(Clone, Debug, PartialEq, Eq)]
pub struct AirdropClaim {
    pub hub_contract: String,
    pub airdrop_token_contract: String,
    pub airdrop_contract: String,
    pub airdrop_swap_contract: String,
    pub belief_price: Option<Decimal>,
    pub max_spread: Option<Decimal>,
    pub swap_to: String,
}

/// The largest page of airdrop entries that a query returns.
pub const MAX_LIMIT: u32 = 30;
/// The page size when the query names none.
pub const DEFAULT_LIMIT: u32 = 10;

/// The size of a page of airdrop entries: the limit asked for, ten when none
/// is, and never more than thirty.
pub fn page_limit(limit: Option<u32>) -> (r: usize)
    ensures
        r == (match limit {
            Some(l) => if l < MAX_LIMIT { l } else { MAX_LIMIT },
            None => DEFAULT_LIMIT,
        }),
{
    let l = match limit {
        Some(l) => l,
        None => DEFAULT_LIMIT,
    };
    let m = if l < MAX_LIMIT { l } else { MAX_LIMIT };
    m as usize
}

/// The registry created by `sender`, with no airdrop token.
pub fn instantiate(sender: String, hub_contract: String, reward_contract: String) -> (r: AirdropConfig)
    ensures
        r.owner == sender,
        r.hub_contract == hub_contract,
        r.reward_contract == reward_contract,
        r.airdrop_tokens@.len() == 0,
{
    AirdropConfig { owner: sender, hub_contract, reward_contract, airdrop_tokens: Vec::new() }
}

/// The claim the hub makes for an airdrop registered with `info`.
pub fn fabricate_claim(config: &AirdropConfig, info: &AirdropInfo) -> (r: AirdropClaim)
    ensures
        r.hub_contract@ == config.hub_contract@,
        r.airdrop_token_contract@ == info.airdrop_token_contract@,
        r.airdrop_contract@ == info.airdrop_contract@,
        r.airdrop_swap_contract@ == info.airdrop_swap_contract@,
        r.belief_price == info.swap_belief_price,
        r.max_spread == info.swap_max_spread,
        r.swap_to@ == config.reward_contract@,
{
    AirdropClaim {
        hub_contract: config.hub_contract.clone(),
        airdrop_token_contract: info.airdrop_token_contract.clone(),
        airdrop_contract: info.airdrop_contract.clone(),
        airdrop_swap_contract: info.airdrop_swap_contract.clone(),
        belief_price: info.swap_belief_price,
        max_spread: info.swap_max_spread,
        swap_to: config.reward_contract.clone(),
    }
}

/// Updates the configuration; only the owner may.
pub fn update_config(
    config: AirdropConfig,
    sender: &String,
    owner: Option<String>,
    hub_contract: Option<String>,
    reward_contract: Option<String>,
) -> (r: Result<AirdropConfig, AirdropError>)
    ensures
        sender@ != config.owner@ ==> r == Err::<AirdropConfig, AirdropError>(AirdropError::Unauthorized),
        sender@ == config.owner@ ==> r == Ok::<AirdropConfig, AirdropError>(AirdropConfig {
            owner: match owner { Some(o) => o, None => config.owner },
            hub_contract: match hub_contract { Some(h) => h, None => config.hub_contract },
            reward_contract: match reward_contract { Some(w) => w, None => config.reward_contract },
            airdrop_tokens: config.airdrop_tokens,
        }),
{
    if *sender != config.owner {
        return Err(AirdropError::Unauthorized);
    }
    let mut config = config;
    if let Some(o) = owner {
        config.owner = o;
    }
    if let Some(h) = hub_contract {
        config.hub_contract = h;
    }
    if let Some(w) = reward_contract {
        config.reward_contract = w;
    }
    Ok(config)
}

/// Registers `airdrop_token` (`exists` tells whether it has an entry already);
/// only the owner may, and only for a token without an entry.
pub fn add_airdrop(config: AirdropConfig, sender: &String, airdrop_token: String, exists: bool)
    -> (r: Result<AirdropConfig, AirdropError>)
    ensures
        sender@ != config.owner@ ==> r == Err::<AirdropConfig, AirdropError>(AirdropError::Unauthorized),
        sender@ == config.owner@ && exists ==> r == Err::<AirdropConfig, AirdropError>(
            AirdropError::TokenInfoExists(airdrop_token)),
        sender@ == config.owner@ && !exists ==> (r matches Ok(c) && c.owner == config.owner
            && c.hub_contract == config.hub_contract && c.reward_contract == config.reward_contract
            && c.airdrop_tokens@ == config.airdrop_tokens@.push(airdrop_token)),
{
    if *sender != config.owner {
        return Err(AirdropError::Unauthorized);
    }
    if exists {
        return Err(AirdropError::TokenInfoExists(airdrop_token));
    }
    let mut config = config;
    config.airdrop_tokens.push(airdrop_token);
    Ok(config)
}

/// Checks that the owner replaces the entry of a registered token.
pub fn update_airdrop(config: &AirdropConfig, sender: &String, airdrop_token: String, exists: bool)
    -> (r: Result<(), AirdropError>)
    ensures
        sender@ != config.owner@ ==> r == Err::<(), AirdropError>(AirdropError::Unauthorized),
        sender@ == config.owner@ ==> r == (if exists {
            Ok::<(), AirdropError>(())
        } else {
            Err::<(), AirdropError>(AirdropError::NoTokenInfo(airdrop_token))
        }),
{
    if *sender != config.owner {
        return Err(AirdropError::Unauthorized);
    }
    if !exists {
        return Err(AirdropError::NoTokenInfo(airdrop_token));
    }
    Ok(())
}

/// Whether a token is other than `token`.
pub open spec fn other_than(token: Seq<char>) -> spec_fn(String) -> bool {
    |t: String| t@ != token
}

/// The registered tokens other than `token`, in their order.
pub open spec fn without(tokens: Seq<String>, token: Seq<char>) -> Seq<String> {
    tokens.filter(other_than(token))
}

/// Unregisters `airdrop_token`; only the owner may, and only a token with an entry.
pub fn remove_airdrop(config: AirdropConfig, sender: &String, airdrop_token: String, exists: bool)
    -> (r: Result<AirdropConfig, AirdropError>)
    ensures
        sender@ != config.owner@ ==> r == Err::<AirdropConfig, AirdropError>(AirdropError::Unauthorized),
        sender@ == config.owner@ && !exists ==> r == Err::<AirdropConfig, AirdropError>(
            AirdropError::NoTokenInfo(airdrop_token)),
        sender@ == config.owner@ && exists ==> (r matches Ok(c) && c.owner == config.owner
            && c.hub_contract == config.hub_contract && c.reward_contract == config.reward_contract
            && c.airdrop_tokens@ == without(config.airdrop_tokens@, airdrop_token@)),
{
    if *sender != config.owner {
        return Err(AirdropError::Unauthorized);
    }
    if !exists {
        return Err(AirdropError::NoTokenInfo(airdrop_token));
    }
    let mut kept: Vec<String> = Vec::new();
    let tokens = &config.airdrop_tokens;
    let mut i: usize = 0;
    while i < tokens.len()
        invariant
            i <= tokens.len(),
            kept@ == without(tokens@.subrange(0, i as int), airdrop_token@),
        decreases tokens.len() - i,
    {
        proof {
            let s = tokens@.subrange(0, i as int + 1);
            assert(s.drop_last() == tokens@.subrange(0, i as int));
            assert(s.last() == tokens@[i as int]);
            reveal(Seq::filter);
        }
        let t = &tokens[i];
        if *t != airdrop_token {
            kept.push(t.clone());
        }
        i = i + 1;
    }
    assert(tokens@.subrange(0, tokens.len() as int) == tokens@);
    Ok(AirdropConfig {
        owner: config.owner,
        hub_contract: config.hub_contract,
        reward_contract: config.reward_contract,
        airdrop_tokens: kept,
    })
}

} // verus!
