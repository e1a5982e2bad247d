//! The hub's configuration and parameters, and who may call what.

use crate::decimal::{Decimal, DECIMAL_FRACTIONAL};
use crate::hub::state::{CurrentBatch, HubError, State};
use vstd::prelude::*;

verus! {

/// The addresses the hub works with.
#[derive(Clone, Debug, PartialEq, Eq)]
pub struct Config {
    pub creator: String,
    pub reward_dispatcher_contract: Option<String>,
    pub validators_registry_contract: Option<String>,
    pub bluna_token_contract: Option<String>,
    pub airdrop_registry_contract: Option<String>,
    pub stluna_token_contract: Option<String>,
}

/// The hub's parameters.
#[derive(Clone, Debug, PartialEq, Eq)]
pub struct Parameters {
    pub epoch_period: u64,
    pub underlying_coin_denom: String,
    pub unbonding_period: u64,
    pub peg_recovery_fee: Decimal,
    pub er_threshold: Decimal,
    pub reward_denom: String,
    pub paused: bool,
}

/// What the hub stores when it is created.
pub struct Instantiation {
    pub config: Config,
    pub state: State,
    pub parameters: Parameters,
    pub batch: CurrentBatch,
}

/// Creates the hub: the sender becomes the owner, both exchange rates start at
/// one, the first batch has id 1. A peg recovery fee above one is refused.
pub fn instantiate(
    sender: String,
    block_time: u64,
    epoch_period: u64,
    underlying_coin_denom: String,
    unbonding_period: u64,
    peg_recovery_fee: Decimal,
    er_threshold: Decimal,
    reward_denom: String,
) -> (r: Result<Instantiation, HubError>)
    ensures
        peg_recovery_fee.atomics > DECIMAL_FRACTIONAL ==> r is Err && r->Err_0 == HubError::PegRecoveryFeeTooHigh,
        peg_recovery_fee.atomics <= DECIMAL_FRACTIONAL ==> (r matches Ok(i) && {
            &&& i.config == (Config {
                creator: sender,
                reward_dispatcher_contract: None,
                validators_registry_contract: None,
                bluna_token_contract: None,
                airdrop_registry_contract: None,
                stluna_token_contract: None,
            })
            &&& i.state == (State {
                bluna_exchange_rate: Decimal { atomics: DECIMAL_FRACTIONAL },
                stluna_exchange_rate: Decimal { atomics: DECIMAL_FRACTIONAL },
                total_bond_bluna_amount: 0,
                total_bond_stluna_amount: 0,
                last_index_modification: block_time,
                prev_hub_balance: 0,
                last_unbonded_time: block_time,
                last_processed_batch: 0,
            })
            &&& i.parameters == (Parameters {
                epoch_period,
                underlying_coin_denom,
                unbonding_period,
                peg_recovery_fee,
                er_threshold,
                reward_denom,
                paused: false,
            })
            &&& i.batch == (CurrentBatch { id: 1, requested_bluna_with_fee: 0, requested_stluna: 0 })
        }),
{
    if peg_recovery_fee.atomics > DECIMAL_FRACTIONAL {
        return Err(HubError::PegRecoveryFeeTooHigh);
    }
    Ok(Instantiation {
        config: Config {
            creator: sender,
            reward_dispatcher_contract: None,
            validators_registry_contract: None,
            bluna_token_contract: None,
            airdrop_registry_contract: None,
            stluna_token_contract: None,
        },
        state: State {
            bluna_exchange_rate: Decimal::one(),
            stluna_exchange_rate: Decimal::one(),
            total_bond_bluna_amount: 0,
            total_bond_stluna_amount: 0,
            last_index_modification: block_time,
            prev_hub_balance: 0,
            last_unbonded_time: block_time,
            last_processed_batch: 0,
        },
        parameters: Parameters {
            epoch_period,
            underlying_coin_denom,
            unbonding_period,
            peg_recovery_fee,
            er_threshold,
            reward_denom,
            paused: false,
        },
        batch: CurrentBatch { id: 1, requested_bluna_with_fee: 0, requested_stluna: 0 },
    })
}

/// Whether `a` and `b` hold the same address.
pub fn same_address(a: &String, b: &String) -> (r: bool)
    ensures
        r == (a@ == b@),
{
    *a == *b
}

/// Whether `sender` is the address in `slot`.
pub open spec fn is_registered(slot: Option<String>, sender: String) -> bool {
    match slot {
        Some(a) => a@ == sender@,
        None => false,
    }
}

fn matches_slot(slot: &Option<String>, sender: &String) -> (r: bool)
    ensures
        r == is_registered(*slot, *sender),
{
    match slot {
        Some(a) => *a == *sender,
        None => false,
    }
}

/// Updates the parameters; only the owner may. Each parameter that is not
/// given keeps its stored value. A given peg recovery fee above one is refused,
/// and a given exchange rate threshold above one is capped at one.
pub fn update_params(
    config: &Config,
    params: &Parameters,
    sender: &String,
    epoch_period: Option<u64>,
    unbonding_period: Option<u64>,
    peg_recovery_fee: Option<Decimal>,
    er_threshold: Option<Decimal>,
    paused: Option<bool>,
) -> (r: Result<Parameters, HubError>)
    ensures
        sender@ != config.creator@ ==> r == Err::<Parameters, HubError>(HubError::Unauthorized),
        sender@ == config.creator@ ==> (if peg_recovery_fee matches Some(f) && f.atomics > DECIMAL_FRACTIONAL {
            r == Err::<Parameters, HubError>(HubError::PegRecoveryFeeTooHigh)
        } else {
            r == Ok::<Parameters, HubError>(Parameters {
                epoch_period: match epoch_period { Some(e) => e, None => params.epoch_period },
                unbonding_period: match unbonding_period { Some(u) => u, None => params.unbonding_period },
                peg_recovery_fee: match peg_recovery_fee { Some(f) => f, None => params.peg_recovery_fee },
                er_threshold: match er_threshold {
                    Some(t) => if t.atomics > DECIMAL_FRACTIONAL { Decimal { atomics: DECIMAL_FRACTIONAL } } else { t },
                    None => params.er_threshold,
                },
                paused: match paused { Some(p) => p, None => params.paused },
                ..*params
            })
        }),
{
    if !same_address(sender, &config.creator) {
        return Err(HubError::Unauthorized);
    }
    let fee = match peg_recovery_fee {
        Some(f) => {
            if f.atomics > DECIMAL_FRACTIONAL {
                return Err(HubError::PegRecoveryFeeTooHigh);
            }
            f
        },
        None => params.peg_recovery_fee,
    };
    let threshold = match er_threshold {
        Some(t) => if t.atomics > DECIMAL_FRACTIONAL { Decimal::one() } else { t },
        None => params.er_threshold,
    };
    Ok(Parameters {
        epoch_period: match epoch_period { Some(e) => e, None => params.epoch_period },
        underlying_coin_denom: params.underlying_coin_denom.clone(),
        unbonding_period: match unbonding_period { Some(u) => u, None => params.unbonding_period },
        peg_recovery_fee: fee,
        er_threshold: threshold,
        reward_denom: params.reward_denom.clone(),
        paused: match paused { Some(p) => p, None => params.paused },
    })
}

/// Refuses every operation but the update of the parameters while paused.
pub fn check_not_paused(params: &Parameters) -> (r: Result<(), HubError>)
    ensures
        r == (if params.paused { Err::<(), HubError>(HubError::Paused) } else { Ok::<(), HubError>(()) }),
{
    if params.paused { Err(HubError::Paused) } else { Ok(()) }
}

/// Updates the configuration; only the owner may. The token addresses can be
/// set once and never changed. Returns the new configuration and, when the
/// rewards dispatcher changes, the address that staking rewards must now go to.
pub fn update_config(
    config: &Config,
    sender: &String,
    owner: Option<String>,
    rewards_dispatcher_contract: Option<String>,
    bluna_token_contract: Option<String>,
    stluna_token_contract: Option<String>,
    airdrop_registry_contract: Option<String>,
    validators_registry_contract: Option<String>,
) -> (r: Result<(Config, Option<String>), HubError>)
    ensures
        sender@ != config.creator@ ==> r == Err::<(Config, Option<String>), HubError>(HubError::Unauthorized),
        sender@ == config.creator@ && bluna_token_contract is Some && config.bluna_token_contract is Some
            ==> r == Err::<(Config, Option<String>), HubError>(HubError::BLunaTokenUpdateForbidden),
        sender@ == config.creator@ && !(bluna_token_contract is Some && config.bluna_token_contract is Some)
            && stluna_token_contract is Some && config.stluna_token_contract is Some
            ==> r == Err::<(Config, Option<String>), HubError>(HubError::StLunaTokenUpdateForbidden),
        sender@ == config.creator@ && !(bluna_token_contract is Some && config.bluna_token_contract is Some)
            && !(stluna_token_contract is Some && config.stluna_token_contract is Some) ==> r == Ok::<(Config, Option<String>), HubError>((
            Config {
                creator: match owner { Some(o) => o, None => config.creator },
                reward_dispatcher_contract: match rewards_dispatcher_contract {
                    Some(a) => Some(a), None => config.reward_dispatcher_contract },
                bluna_token_contract: match bluna_token_contract {
                    Some(a) => Some(a), None => config.bluna_token_contract },
                stluna_token_contract: match stluna_token_contract {
                    Some(a) => Some(a), None => config.stluna_token_contract },
                airdrop_registry_contract: match airdrop_registry_contract {
                    Some(a) => Some(a), None => config.airdrop_registry_contract },
                validators_registry_contract: match validators_registry_contract {
                    Some(a) => Some(a), None => config.validators_registry_contract },
            },
            rewards_dispatcher_contract,
        )),
{
    if !same_address(sender, &config.creator) {
        return Err(HubError::Unauthorized);
    }
    if bluna_token_contract.is_some() && config.bluna_token_contract.is_some() {
        return Err(HubError::BLunaTokenUpdateForbidden);
    }
    if stluna_token_contract.is_some() && config.stluna_token_contract.is_some() {
        return Err(HubError::StLunaTokenUpdateForbidden);
    }
    let withdraw_address = rewards_dispatcher_contract.clone();
    Ok((
        Config {
            creator: match owner { Some(o) => o, None => config.creator.clone() },
            reward_dispatcher_contract: match rewards_dispatcher_contract {
                Some(a) => Some(a), None => config.reward_dispatcher_contract.clone() },
            bluna_token_contract: match bluna_token_contract {
                Some(a) => Some(a), None => config.bluna_token_contract.clone() },
            stluna_token_contract: match stluna_token_contract {
                Some(a) => Some(a), None => config.stluna_token_contract.clone() },
            airdrop_registry_contract: match airdrop_registry_contract {
                Some(a) => Some(a), None => config.airdrop_registry_contract.clone() },
            validators_registry_contract: match validators_registry_contract {
                Some(a) => Some(a), None => config.validators_registry_contract.clone() },
        },
        withdraw_address,
    ))
}

/// Which token a cw20 hook came from.
#[derive(Clone, Copy, Debug, PartialEq, Eq, Structural)]
pub enum TokenKind {
    BLuna,
    StLuna,
}

/// Identifies the token contract that sent a cw20 hook: both token contracts
/// must be registered, and any other sender is unauthorized.
pub fn token_of_sender(config: &Config, sender: &String) -> (r: Result<TokenKind, HubError>)
    ensures
        r == (if config.bluna_token_contract is None || config.stluna_token_contract is None {
            Err::<TokenKind, HubError>(HubError::NotRegistered)
        } else if is_registered(config.bluna_token_contract, *sender) {
            Ok::<TokenKind, HubError>(TokenKind::BLuna)
        } else if is_registered(config.stluna_token_contract, *sender) {
            Ok::<TokenKind, HubError>(TokenKind::StLuna)
        } else {
            Err::<TokenKind, HubError>(HubError::Unauthorized)
        }),
{
    if config.bluna_token_contract.is_none() || config.stluna_token_contract.is_none() {
        return Err(HubError::NotRegistered);
    }
    if matches_slot(&config.bluna_token_contract, sender) {
        Ok(TokenKind::BLuna)
    } else if matches_slot(&config.stluna_token_contract, sender) {
        Ok(TokenKind::StLuna)
    } else {
        Err(HubError::Unauthorized)
    }
}

/// Only the rewards dispatcher may bond rewards.
pub fn authorize_bond_rewards(config: &Config, sender: &String) -> (r: Result<(), HubError>)
    ensures
        r == (if config.reward_dispatcher_contract is None {
            Err::<(), HubError>(HubError::NotRegistered)
        } else if is_registered(config.reward_dispatcher_contract, *sender) {
            Ok::<(), HubError>(())
        } else {
            Err::<(), HubError>(HubError::Unauthorized)
        }),
{
    if config.reward_dispatcher_contract.is_none() {
        return Err(HubError::NotRegistered);
    }
    if matches_slot(&config.reward_dispatcher_contract, sender) { Ok(()) } else { Err(HubError::Unauthorized) }
}

/// Only the validators registry or the owner may redelegate; the registry must be registered.
pub fn authorize_redelegation(config: &Config, sender: &String) -> (r: Result<(), HubError>)
    ensures
        r == (if config.validators_registry_contract is None {
            Err::<(), HubError>(HubError::NotRegistered)
        } else if is_registered(config.validators_registry_contract, *sender) || sender@ == config.creator@ {
            Ok::<(), HubError>(())
        } else {
            Err::<(), HubError>(HubError::Unauthorized)
        }),
{
    if config.validators_registry_contract.is_none() {
        return Err(HubError::NotRegistered);
    }
    if matches_slot(&config.validators_registry_contract, sender) || same_address(sender, &config.creator) {
        Ok(())
    } else {
        Err(HubError::Unauthorized)
    }
}

/// Only the airdrop registry may claim airdrops; it must be registered.
pub fn authorize_airdrop_claim(config: &Config, sender: &String) -> (r: Result<(), HubError>)
    ensures
        r == (if config.airdrop_registry_contract is None {
            Err::<(), HubError>(HubError::NotRegistered)
        } else if is_registered(config.airdrop_registry_contract, *sender) {
            Ok::<(), HubError>(())
        } else {
            Err::<(), HubError>(HubError::Unauthorized)
        }),
{
    if config.airdrop_registry_contract.is_none() {
        return Err(HubError::NotRegistered);
    }
    if matches_slot(&config.airdrop_registry_contract, sender) { Ok(()) } else { Err(HubError::Unauthorized) }
}

} // verus!
