//! The creator's messages to the governance contract: parameters, switching
//! messages off, and removing a validator.

use crate::gov::contract::GovError;
use crate::hub::validators::{is_listed, listed, remaining_validators, without_validator};
use crate::random::{gen_index, seeded_rng};
use vstd::prelude::*;

verus! {

/// The governance contract's parameters.
#[derive(Clone, Debug, PartialEq, Eq)]
pub struct GovParameters {
    pub epoch_time: u64,
    pub supported_coin_denom: String,
    pub undelegated_epoch: u64,
}

/// A message that the creator can switch off.
#[derive(Clone, Copy, Debug, PartialEq, Eq, Structural)]
pub enum Deactivated {
    Slashing,
    Burn,
}

/// Which messages are switched off.
#[derive(Clone, Copy, Debug, PartialEq, Eq, Structural)]
pub struct MsgStatus {
    pub slashing: Option<Deactivated>,
    pub burn: Option<Deactivated>,
}

/// Replaces the parameters; only the creator may.
pub fn update_params(
    creator: &String,
    sender: &String,
    epoch_time: u64,
    coin_denom: String,
    undelegated_epoch: u64,
) -> (r: Result<GovParameters, GovError>)
    ensures
        sender@ != creator@ ==> r == Err::<GovParameters, GovError>(GovError::Unauthorized),
        sender@ == creator@ ==> (r matches Ok(p) && p.epoch_time == epoch_time
            && p.supported_coin_denom == coin_denom && p.undelegated_epoch == undelegated_epoch),
{
    if *sender != *creator {
        return Err(GovError::Unauthorized);
    }
    Ok(GovParameters { epoch_time, supported_coin_denom: coin_denom, undelegated_epoch })
}

/// Switches a message off; only the creator may.
pub fn deactivate(creator: &String, sender: &String, status: MsgStatus, msg: Deactivated)
    -> (r: Result<MsgStatus, GovError>)
    ensures
        sender@ != creator@ ==> r == Err::<MsgStatus, GovError>(GovError::Unauthorized),
        sender@ == creator@ ==> r == Ok::<MsgStatus, GovError>(match msg {
            Deactivated::Slashing => MsgStatus { slashing: Some(msg), burn: status.burn },
            Deactivated::Burn => MsgStatus { slashing: status.slashing, burn: Some(msg) },
        }),
{
    if *sender != *creator {
        return Err(GovError::Unauthorized);
    }
    match msg {
        Deactivated::Slashing => Ok(MsgStatus { slashing: Some(msg), burn: status.burn }),
        Deactivated::Burn => Ok(MsgStatus { slashing: status.slashing, burn: Some(msg) }),
    }
}

/// The contracts that the governance contract created and that registered
/// back with it.
#[derive(Clone, Debug, PartialEq, Eq)]
pub struct SubContracts {
    pub token_account: Option<String>,
    pub reward_account: Option<String>,
}

/// Which sub-contract registers.
#[derive(Clone, Copy, Debug, PartialEq, Eq, Structural)]
pub enum Registration {
    Token,
    Reward,
}

/// Records `sender` as the token or the reward contract; each can register once.
pub fn register_sub_contract(contracts: SubContracts, contract: Registration, sender: String)
    -> (r: Result<SubContracts, GovError>)
    ensures
        r == (match contract {
            Registration::Token => if contracts.token_account is Some {
                Err::<SubContracts, GovError>(GovError::InvalidRequest)
            } else {
                Ok(SubContracts { token_account: Some(sender), ..contracts })
            },
            Registration::Reward => if contracts.reward_account is Some {
                Err::<SubContracts, GovError>(GovError::InvalidRequest)
            } else {
                Ok(SubContracts { reward_account: Some(sender), ..contracts })
            },
        }),
{
    match contract {
        Registration::Token => {
            if contracts.token_account.is_some() {
                return Err(GovError::InvalidRequest);
            }
            Ok(SubContracts { token_account: Some(sender), ..contracts })
        },
        Registration::Reward => {
            if contracts.reward_account.is_some() {
                return Err(GovError::InvalidRequest);
            }
            Ok(SubContracts { reward_account: Some(sender), ..contracts })
        },
    }
}

/// Only the token contract may start a burn through its hook.
pub fn authorize_burn(token_account: &Option<String>, sender: &String) -> (r: Result<(), GovError>)
    ensures
        r == (match token_account {
            Some(t) => if t@ == sender@ { Ok::<(), GovError>(()) } else { Err::<(), GovError>(GovError::Unauthorized) },
            None => Err::<(), GovError>(GovError::Unauthorized),
        }),
{
    match token_account {
        Some(t) => if *t == *sender { Ok(()) } else { Err(GovError::Unauthorized) },
        None => Err(GovError::Unauthorized),
    }
}

/// Whitelists `validator`: only the creator may, and only an address among the
/// chain's validators.
pub fn register_validator(creator: &String, sender: &String, validator: &String, chain_validators: &Vec<String>)
    -> (r: Result<(), GovError>)
    ensures
        r == (if sender@ != creator@ {
            Err::<(), GovError>(GovError::Unauthorized)
        } else if !listed(chain_validators@, validator@) {
            Err::<(), GovError>(GovError::InvalidValidator)
        } else {
            Ok::<(), GovError>(())
        }),
{
    if *sender != *creator {
        return Err(GovError::Unauthorized);
    }
    if !is_listed(chain_validators, validator) {
        return Err(GovError::InvalidValidator);
    }
    Ok(())
}

/// What removing a validator leaves, and where its delegation moves.
#[derive(Clone, Debug, PartialEq, Eq)]
pub struct Redelegation {
    /// The whitelist after the removal.
    pub remaining: Vec<String>,
    /// The validator that receives the removed validator's delegation.
    pub target: String,
}

/// Removes `validator` from the whitelist: only the creator may, and its
/// delegation moves to a validator drawn from the remaining ones with the block
/// height as seed.
pub fn redelegation_target(
    creator: &String,
    sender: &String,
    validators: &Vec<String>,
    validator: &String,
    block_height: u64,
) -> (r: Result<Redelegation, GovError>)
    requires
        sender@ == creator@ ==> remaining_validators(validators@, validator@).len() > 0,
    ensures
        sender@ != creator@ ==> r == Err::<Redelegation, GovError>(GovError::Unauthorized),
        sender@ == creator@ ==> (r matches Ok(d) && d.remaining@ == remaining_validators(validators@, validator@)
            && listed(d.remaining@, d.target@)),
{
    if *sender != *creator {
        return Err(GovError::Unauthorized);
    }
    let remaining = without_validator(validators, validator);
    let mut rng = seeded_rng(block_height);
    let i = gen_index(&mut rng, remaining.len());
    let target = remaining[i].clone();
    assert(target@ == remaining@[i as int]@);
    Ok(Redelegation { remaining, target })
}

} // verus!
