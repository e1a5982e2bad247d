//! The hub's periodic reward update and the airdrop swap hook.

use crate::hub::config::Config;
use crate::hub::state::{HubError, State};
use vstd::prelude::*;

verus! {

/// Starts a reward update at `block_time`: the rewards dispatcher must be
/// registered, and so must the airdrop registry when airdrop hooks are passed
/// on. The state records the time of the update.
pub fn update_global(config: &Config, state: &State, has_airdrop_hooks: bool, block_time: u64)
    -> (r: Result<State, HubError>)
    ensures
        r == (if config.reward_dispatcher_contract is None
            || (has_airdrop_hooks && config.airdrop_registry_contract is None) {
            Err::<State, HubError>(HubError::NotRegistered)
        } else {
            Ok::<State, HubError>(State { last_index_modification: block_time, ..*state })
        }),
{
    if config.reward_dispatcher_contract.is_none() {
        return Err(HubError::NotRegistered);
    }
    if has_airdrop_hooks && config.airdrop_registry_contract.is_none() {
        return Err(HubError::NotRegistered);
    }
    Ok(State { last_index_modification: block_time, ..*state })
}

/// The airdropped tokens to swap: only the hub itself may call the hook, and
/// it swaps the hub's whole balance of the token, which must not be zero.
pub fn swap_hook_amount(sender: &String, contract_address: &String, airdrop_token_balance: u128)
    -> (r: Result<u128, HubError>)
    ensures
        r == (if sender@ != contract_address@ {
            Err::<u128, HubError>(HubError::Unauthorized)
        } else if airdrop_token_balance == 0 {
            Err::<u128, HubError>(HubError::NoAirdropBalance)
        } else {
            Ok::<u128, HubError>(airdrop_token_balance)
        }),
{
    if *sender != *contract_address {
        return Err(HubError::Unauthorized);
    }
    if airdrop_token_balance == 0 {
        return Err(HubError::NoAirdropBalance);
    }
    Ok(airdrop_token_balance)
}

} // verus!
