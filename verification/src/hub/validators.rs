//! The hub's whitelist of validators and the choice of where to delegate.

use crate::hub::config::Config;
use crate::hub::state::HubError;
use crate::random::{gen_index, seeded_rng};
use vstd::prelude::*;

verus! {

/// Whether `v` is one of `validators` (compared as text).
pub open spec fn listed(validators: Seq<String>, v: Seq<char>) -> bool {
    exists|i: int| 0 <= i < validators.len() && (#[trigger] validators[i])@ == v
}

/// Whether `v` is one of `validators`.
pub fn is_listed(validators: &Vec<String>, v: &String) -> (r: bool)
    ensures
        r == listed(validators@, v@),
{
    let mut i: usize = 0;
    while i < validators.len()
        invariant
            i <= validators.len(),
            forall|j: int| 0 <= j < i ==> (#[trigger] validators@[j])@ != v@,
        decreases validators.len() - i,
    {
        if validators[i] == *v {
            assert(validators@[i as int]@ == v@);
            return true;
        }
        i = i + 1;
    }
    false
}

/// Checks that a bond can be delegated: the validators registry is registered
/// and offers at least one validator.
pub fn check_delegation_targets(config: &Config, validator_count: usize) -> (r: Result<(), HubError>)
    ensures
        r == (if config.validators_registry_contract is None {
            Err::<(), HubError>(HubError::NotRegistered)
        } else if validator_count == 0 {
            Err::<(), HubError>(HubError::EmptyValidatorSet)
        } else {
            Ok::<(), HubError>(())
        }),
{
    if config.validators_registry_contract.is_none() {
        return Err(HubError::NotRegistered);
    }
    if validator_count == 0 {
        return Err(HubError::EmptyValidatorSet);
    }
    Ok(())
}

/// Whitelists `validator`: the owner or the hub itself may, and only for an
/// address among the chain's validators.
pub fn register_validator(
    config: &Config,
    sender: &String,
    contract_address: &String,
    validator: &String,
    chain_validators: &Vec<String>,
) -> (r: Result<(), HubError>)
    ensures
        r == (if sender@ != config.creator@ && sender@ != contract_address@ {
            Err::<(), HubError>(HubError::Unauthorized)
        } else if !listed(chain_validators@, validator@) {
            Err::<(), HubError>(HubError::NotAValidator)
        } else {
            Ok::<(), HubError>(())
        }),
{
    if *sender != config.creator && *sender != *contract_address {
        return Err(HubError::Unauthorized);
    }
    if !is_listed(chain_validators, validator) {
        return Err(HubError::NotAValidator);
    }
    Ok(())
}

/// The whitelist without `validator`, in its order.
pub open spec fn remaining_validators(validators: Seq<String>, validator: Seq<char>) -> Seq<String> {
    validators.filter(|v: String| v@ != validator)
}

/// The whitelist without `validator`, keeping the order of the others.
pub fn without_validator(validators: &Vec<String>, validator: &String) -> (r: Vec<String>)
    ensures
        r@ == remaining_validators(validators@, validator@),
{
    let mut remaining: Vec<String> = Vec::new();
    let mut i: usize = 0;
    while i < validators.len()
        invariant
            i <= validators.len(),
            remaining@ == remaining_validators(validators@.subrange(0, i as int), validator@),
        decreases validators.len() - i,
    {
        proof {
            let s = validators@.subrange(0, i as int + 1);
            assert(s.drop_last() == validators@.subrange(0, i as int));
            assert(s.last() == validators@[i as int]);
            reveal(Seq::filter);
        }
        if validators[i] != *validator {
            remaining.push(validators[i].clone());
        }
        i = i + 1;
    }
    assert(validators@.subrange(0, validators.len() as int) == validators@);
    remaining
}

/// What removing a validator from the whitelist leaves and where its
/// delegation moves.
#[derive(Clone, Debug, PartialEq, Eq)]
pub struct Deregistration {
    /// The whitelist after the removal.
    pub remaining: Vec<String>,
    /// The validator drawn to receive the delegation, when the delegation to the
    /// removed validator could be queried (it is moved only if there is one).
    pub replacement: Option<String>,
}

/// Removes `validator` from the whitelist; only the owner may, and not the last
/// whitelisted validator. When the hub's delegation to it could be queried
/// (`delegation_queried`), a validator is drawn from the remaining ones with the
/// block height as seed to receive that delegation.
pub fn deregister_validator(
    config: &Config,
    sender: &String,
    validators: &Vec<String>,
    validator: &String,
    delegation_queried: bool,
    block_height: u64,
) -> (r: Result<Deregistration, HubError>)
    requires
        sender@ == config.creator@ && validators.len() != 1 && delegation_queried
            ==> remaining_validators(validators@, validator@).len() > 0,
    ensures
        sender@ != config.creator@ ==> r == Err::<Deregistration, HubError>(HubError::Unauthorized),
        sender@ == config.creator@ && validators.len() == 1
            ==> r == Err::<Deregistration, HubError>(HubError::LastValidator),
        sender@ == config.creator@ && validators.len() != 1 ==> (r matches Ok(d) && {
            &&& d.remaining@ == remaining_validators(validators@, validator@)
            &&& delegation_queried ==> (d.replacement matches Some(v) && listed(d.remaining@, v@))
            &&& !delegation_queried ==> d.replacement is None
        }),
{
    if *sender != config.creator {
        return Err(HubError::Unauthorized);
    }
    if validators.len() == 1 {
        return Err(HubError::LastValidator);
    }
    let remaining = without_validator(validators, validator);
    if !delegation_queried {
        return Ok(Deregistration { remaining, replacement: None });
    }
    let mut rng = seeded_rng(block_height);
    let k = gen_index(&mut rng, remaining.len());
    let v = remaining[k].clone();
    assert(remaining@[k as int]@ == v@);
    Ok(Deregistration { remaining, replacement: Some(v) })
}

} // verus!
