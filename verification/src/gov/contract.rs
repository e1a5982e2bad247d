//! Decisions of the governance contract: minting, burning into epochs,
//! finishing burns and re-delegating from a removed validator.

use crate::coin::Coin;
use crate::decimal::{Decimal, DECIMAL_FRACTIONAL, mul_floor, mul_uint, ratio_atomics, checked_mul_uint};
use crate::gov::math::{GOV_FRACTIONAL, decimal_division, decimal_subtraction, gov_division, gov_subtraction, scaled};
use crate::gov::config::MsgStatus;
use crate::gov::state::EpochId;
use crate::hub::bond::compute_exchange_rate_checked;
use crate::hub::state::{rate_fits, rate_from};
use vstd::prelude::*;

verus! {

/// Errors of the governance contract.
#[derive(Clone, Debug, PartialEq, Eq, Structural)]
pub enum GovError {
    /// Only the creator may send this message.
    Unauthorized,
    /// The validator is not on the white list.
    UnsupportedValidator,
    /// No positive amount of the supported denom was sent.
    NoTokensSent,
    /// A burn of zero tokens.
    ZeroAmount,
    /// The message is temporarily deactivated.
    Deactivated,
    /// The burn requested in the finished epoch is not ready yet.
    NotReady,
    /// A sub-contract is registered already, or a message is not understood.
    InvalidRequest,
    /// The address is not a validator of the chain.
    InvalidValidator,
    /// An amount does not fit, or would fall below zero.
    Arithmetic,
}

/// The epoch reached at `current_time`, counting whole periods of `epoch_time`
/// from `prev_time`, when `epoch_id` was current.
pub fn compute_current_epoch(epoch_id: u64, prev_time: u64, current_time: u64, epoch_time: u64) -> (r: u64)
    requires
        epoch_time > 0,
        prev_time <= current_time,
        epoch_id + (current_time - prev_time) / (epoch_time as int) <= u64::MAX,
    ensures
        r == epoch_id + (current_time - prev_time) / (epoch_time as int),
{
    epoch_id + (current_time - prev_time) / epoch_time
}

/// The epoch `undelegated_period` epochs before `current_epoch`, or zero when
/// there is none.
pub fn get_past_epoch(current_epoch: u64, undelegated_period: u64) -> (r: u64)
    ensures
        r == (if current_epoch < undelegated_period { 0 } else { current_epoch - undelegated_period }),
{
    if current_epoch < undelegated_period {
        return 0;
    }
    current_epoch - undelegated_period
}

/// Whether the coin pays in `denom` with a positive amount.
pub open spec fn pays(c: Coin, denom: Seq<char>) -> bool {
    c.denom@ == denom && c.amount > 0
}

/// The first coin sent that pays in `denom`.
pub fn find_sent_funds(funds: &Vec<Coin>, denom: &String) -> (r: Result<u128, GovError>)
    ensures
        r matches Ok(v) ==> exists|i: int| 0 <= i < funds.len() && #[trigger] pays(funds@[i], denom@)
            && v == funds@[i].amount && forall|j: int| 0 <= j < i ==> !pays(#[trigger] funds@[j], denom@),
        r is Err ==> r == Err::<u128, GovError>(GovError::NoTokensSent)
            && forall|i: int| 0 <= i < funds.len() ==> !pays(#[trigger] funds@[i], denom@),
{
    let mut i: usize = 0;
    while i < funds.len()
        invariant
            i <= funds.len(),
            forall|j: int| 0 <= j < i ==> !pays(#[trigger] funds@[j], denom@),
        decreases funds.len() - i,
    {
        let c = &funds[i];
        if c.denom == *denom && c.amount > 0 {
            assert(pays(funds@[i as int], denom@));
            return Ok(c.amount);
        }
        i = i + 1;
    }
    Err(GovError::NoTokensSent)
}

/// The peg fee factor `1 - peg_recovery_fee` at nine decimal places, when it is
/// not below zero.
pub open spec fn peg_factor(fee_atomics: int) -> Option<int> {
    if scaled(DECIMAL_FRACTIONAL as int) >= scaled(fee_atomics) {
        Some(gov_subtraction(DECIMAL_FRACTIONAL as int, fee_atomics))
    } else {
        None
    }
}

/// `amount` with the peg recovery fee taken when the exchange rate is below
/// the threshold; `None` when the fee is above one.
pub open spec fn with_peg_fee(amount: int, rate_atomics: int, threshold_atomics: int, fee_atomics: int) -> Option<int> {
    if rate_atomics < threshold_atomics {
        match peg_factor(fee_atomics) {
            Some(peg) => Some(mul_floor(amount, peg)),
            None => None,
        }
    } else {
        Some(amount)
    }
}

proof fn lemma_peg_factor(fee_atomics: int)
    requires
        0 <= fee_atomics,
    ensures
        peg_factor(fee_atomics) matches Some(p) ==> 0 <= p <= DECIMAL_FRACTIONAL as int,
{
    let g = GOV_FRACTIONAL as int;
    let f = DECIMAL_FRACTIONAL as int;
    assert(scaled(f) == g) by (nonlinear_arith)
        requires g == 1_000_000_000, f == g * g, scaled(f) == g * f / f;
    assert(0 <= scaled(fee_atomics)) by (nonlinear_arith)
        requires 0 <= fee_atomics, scaled(fee_atomics) == g * fee_atomics / f, g > 0, f > 0;
    if scaled(f) >= scaled(fee_atomics) {
        let c = scaled(f) - scaled(fee_atomics);
        assert(0 <= c <= g);
        assert(gov_subtraction(f, fee_atomics) == c * f / g);
        assert(0 <= c * f / g <= f) by (nonlinear_arith)
            requires 0 <= c <= g, g == 1_000_000_000, f == g * g;
    }
}

/// Applies the peg recovery fee to `amount` below the threshold rate.
fn apply_peg_fee(amount: u128, exchange_rate: Decimal, er_threshold: Decimal, peg_recovery_fee: Decimal)
    -> (r: Result<u128, GovError>)
    ensures
        r is Err <==> with_peg_fee(amount as int, exchange_rate.atomics as int, er_threshold.atomics as int,
            peg_recovery_fee.atomics as int) is None,
        r is Err ==> r == Err::<u128, GovError>(GovError::Arithmetic),
        r matches Ok(v) ==> v <= amount && with_peg_fee(amount as int, exchange_rate.atomics as int,
            er_threshold.atomics as int, peg_recovery_fee.atomics as int) == Some(v as int),
{
    if exchange_rate.atomics < er_threshold.atomics {
        proof {
            lemma_peg_factor(peg_recovery_fee.atomics as int);
            let g = GOV_FRACTIONAL as int;
            let f = DECIMAL_FRACTIONAL as int;
            assert(scaled(f) == g) by (nonlinear_arith)
                requires g == 1_000_000_000, f == g * g, scaled(f) == g * f / f;
        }
        if mul_uint(GOV_FRACTIONAL, Decimal::one()) < mul_uint(GOV_FRACTIONAL, peg_recovery_fee) {
            return Err(GovError::Arithmetic);
        }
        let peg_fee = decimal_subtraction(Decimal::one(), peg_recovery_fee);
        proof { crate::decimal::lemma_mul_floor_at_most(amount as int, peg_fee.atomics as int); }
        Ok(mul_uint(amount, peg_fee))
    } else {
        Ok(amount)
    }
}

/// The tokens minted for `payment` at `exchange_rate` with the peg fee, when
/// every step can be computed.
pub open spec fn mint_amount(payment: int, rate_atomics: int, threshold_atomics: int, fee_atomics: int) -> Option<int> {
    if scaled(rate_atomics) > 0 && ratio_atomics(payment, scaled(rate_atomics)) <= u128::MAX {
        with_peg_fee(gov_division(payment, rate_atomics), rate_atomics, threshold_atomics, fee_atomics)
    } else {
        None
    }
}

/// What a mint changes: the tokens minted, the pool's new bonded amount and the
/// new amount bonded since the last slashing check.
#[derive(Clone, Copy, Debug, PartialEq, Eq, Structural)]
pub struct MintOutcome {
    pub minted: u128,
    pub total_bond_amount: u128,
    pub bonded: u128,
}

/// Whether coin `i` is the first one that pays in `denom`.
pub open spec fn first_payer(funds: Seq<Coin>, denom: Seq<char>, i: int) -> bool {
    &&& 0 <= i < funds.len()
    &&& pays(funds[i], denom)
    &&& forall|j: int| 0 <= j < i ==> !pays(#[trigger] funds[j], denom)
}

/// Whether a payment `p` can be minted for and added to the bonded amounts.
pub open spec fn mint_fits(p: int, rate_atomics: int, threshold_atomics: int, fee_atomics: int,
    total_bond_amount: int, bonded: int) -> bool {
    &&& mint_amount(p, rate_atomics, threshold_atomics, fee_atomics) is Some
    &&& total_bond_amount + p <= u128::MAX
    &&& bonded + p <= u128::MAX
}

proof fn lemma_first_payer_unique(funds: Seq<Coin>, denom: Seq<char>, i: int, j: int)
    requires
        first_payer(funds, denom, i),
        first_payer(funds, denom, j),
    ensures
        i == j,
{
    if i < j {
        assert(!pays(funds[i], denom));
    } else if j < i {
        assert(!pays(funds[j], denom));
    }
}

/// Mints for the funds sent to a white-listed validator: the first positive
/// coin of the supported denom pays; it is valued at the pool's exchange rate
/// with the peg fee, and added to the bonded amounts.
pub fn mint(
    validator_is_valid: bool,
    funds: &Vec<Coin>,
    coin_denom: &String,
    exchange_rate: Decimal,
    er_threshold: Decimal,
    peg_recovery_fee: Decimal,
    total_bond_amount: u128,
    bonded: u128,
) -> (r: Result<MintOutcome, GovError>)
    ensures
        !validator_is_valid ==> r == Err::<MintOutcome, GovError>(GovError::UnsupportedValidator),
        validator_is_valid && (forall|i: int| 0 <= i < funds.len() ==> !pays(#[trigger] funds@[i], coin_denom@))
            ==> r == Err::<MintOutcome, GovError>(GovError::NoTokensSent),
        validator_is_valid ==> forall|i: int| #[trigger] first_payer(funds@, coin_denom@, i) ==> {
            let p = funds@[i].amount as int;
            &&& r is Ok <==> mint_fits(p, exchange_rate.atomics as int, er_threshold.atomics as int,
                peg_recovery_fee.atomics as int, total_bond_amount as int, bonded as int)
            &&& r is Err ==> r == Err::<MintOutcome, GovError>(GovError::Arithmetic)
            &&& r matches Ok(o) ==> {
                &&& mint_amount(p, exchange_rate.atomics as int, er_threshold.atomics as int,
                    peg_recovery_fee.atomics as int) == Some(o.minted as int)
                &&& o.total_bond_amount == total_bond_amount + p
                &&& o.bonded == bonded + p
            }
        },
        r is Ok ==> validator_is_valid && exists|i: int| #[trigger] first_payer(funds@, coin_denom@, i),
{
    if !validator_is_valid {
        return Err(GovError::UnsupportedValidator);
    }
    let payment = match find_sent_funds(funds, coin_denom) {
        Ok(p) => p,
        Err(e) => return Err(e),
    };
    let ghost k = choose|i: int| 0 <= i < funds.len() && #[trigger] pays(funds@[i], coin_denom@)
        && payment == funds@[i].amount && forall|j: int| 0 <= j < i ==> !pays(#[trigger] funds@[j], coin_denom@);
    assert(first_payer(funds@, coin_denom@, k));
    assert forall|i: int| #[trigger] first_payer(funds@, coin_denom@, i) implies i == k by {
        lemma_first_payer_unique(funds@, coin_denom@, i, k);
    }
    if exchange_rate.atomics < 1_000_000_000 {
        proof {
            let f = DECIMAL_FRACTIONAL as int;
            assert(scaled(exchange_rate.atomics as int) == 0) by (nonlinear_arith)
                requires exchange_rate.atomics < 1_000_000_000, f == 1_000_000_000_000_000_000,
                    scaled(exchange_rate.atomics as int) == 1_000_000_000 * exchange_rate.atomics / f;
        }
        return Err(GovError::Arithmetic);
    }
    proof {
        let f = DECIMAL_FRACTIONAL as int;
        assert(scaled(exchange_rate.atomics as int) > 0) by (nonlinear_arith)
            requires exchange_rate.atomics >= 1_000_000_000, f == 1_000_000_000_000_000_000,
                scaled(exchange_rate.atomics as int) == 1_000_000_000 * exchange_rate.atomics / f;
    }
    let denom = mul_uint(GOV_FRACTIONAL, exchange_rate);
    if crate::decimal::checked_from_ratio(payment, denom).is_none() {
        return Err(GovError::Arithmetic);
    }
    let amount = decimal_division(payment, exchange_rate);
    let minted = match apply_peg_fee(amount, exchange_rate, er_threshold, peg_recovery_fee) {
        Ok(v) => v,
        Err(e) => return Err(e),
    };
    if total_bond_amount > u128::MAX - payment || bonded > u128::MAX - payment {
        return Err(GovError::Arithmetic);
    }
    Ok(MintOutcome { minted, total_bond_amount: total_bond_amount + payment, bonded: bonded + payment })
}

/// What a burn changes.
#[derive(Clone, Copy, Debug, PartialEq, Eq, Structural)]
pub struct BurnOutcome {
    /// The pool's bonded amount, less the value of the burnt tokens.
    pub total_bond_amount: u128,
    /// The current epoch after the burn.
    pub epoch: EpochId,
    /// The Luna owed for this burn, with the peg fee taken.
    pub request: u128,
    /// The epoch whose wait list records the request.
    pub request_epoch: u64,
    /// The total recorded for the current epoch after the burn.
    pub epoch_total: u128,
    /// When the epoch has passed: the Luna to undelegate for the epoch that closed.
    pub undelegate: Option<u128>,
    /// The delegations recorded after the burn.
    pub all_delegations: u128,
}

/// The outcome of burning `amount` tokens, or `None` when an amount cannot be
/// computed or falls below zero.
pub open spec fn burn_spec(
    amount: int,
    rate_atomics: int,
    threshold_atomics: int,
    fee_atomics: int,
    total_bond_amount: int,
    epoch: EpochId,
    epoch_time: int,
    block_time: int,
    undelegated_so_far: int,
    all_delegations: int,
) -> Option<BurnOutcome> {
    let luna = mul_floor(amount, rate_atomics);
    if luna > u128::MAX || luna > total_bond_amount {
        None
    } else {
        match with_peg_fee(luna, rate_atomics, threshold_atomics, fee_atomics) {
            None => None,
            Some(request) => {
                let so_far = undelegated_so_far + request;
                if so_far > u128::MAX {
                    None
                } else if block_time - epoch.current_block_time >= epoch_time {
                    if so_far > all_delegations {
                        None
                    } else {
                        Some(BurnOutcome {
                            total_bond_amount: (total_bond_amount - luna) as u128,
                            epoch: EpochId {
                                epoch_id: (epoch.epoch_id + (block_time - epoch.current_block_time) / epoch_time) as u64,
                                current_block_time: block_time as u64,
                            },
                            request: request as u128,
                            request_epoch: epoch.epoch_id,
                            epoch_total: 0,
                            undelegate: Some(so_far as u128),
                            all_delegations: (all_delegations - so_far) as u128,
                        })
                    }
                } else if request > all_delegations {
                    None
                } else {
                    Some(BurnOutcome {
                        total_bond_amount: (total_bond_amount - luna) as u128,
                        epoch: epoch,
                        request: request as u128,
                        request_epoch: epoch.epoch_id,
                        epoch_total: so_far as u128,
                        undelegate: None,
                        all_delegations: (all_delegations - request) as u128,
                    })
                }
            },
        }
    }
}

/// Burns `amount` tokens: their value at the pool's exchange rate leaves the
/// pool, and the value with the peg fee is requested back in the current epoch.
/// Once an epoch has passed, the requests gathered in it are undelegated
/// together, and a new epoch starts with nothing gathered.
pub fn burn(
    burn_deactivated: bool,
    amount: u128,
    exchange_rate: Decimal,
    er_threshold: Decimal,
    peg_recovery_fee: Decimal,
    total_bond_amount: u128,
    epoch: EpochId,
    epoch_time: u64,
    block_time: u64,
    undelegated_so_far: u128,
    all_delegations: u128,
) -> (r: Result<BurnOutcome, GovError>)
    requires
        !burn_deactivated && amount != 0 ==> {
            &&& epoch_time > 0
            &&& epoch.current_block_time <= block_time
            &&& epoch.epoch_id + (block_time - epoch.current_block_time) / (epoch_time as int) <= u64::MAX
        },
    ensures
        burn_deactivated ==> r == Err::<BurnOutcome, GovError>(GovError::Deactivated),
        !burn_deactivated && amount == 0 ==> r == Err::<BurnOutcome, GovError>(GovError::ZeroAmount),
        !burn_deactivated && amount != 0 ==> r == (match burn_spec(amount as int, exchange_rate.atomics as int,
            er_threshold.atomics as int, peg_recovery_fee.atomics as int, total_bond_amount as int, epoch,
            epoch_time as int, block_time as int, undelegated_so_far as int, all_delegations as int) {
            Some(o) => Ok::<BurnOutcome, GovError>(o),
            None => Err::<BurnOutcome, GovError>(GovError::Arithmetic),
        }),
{
    if burn_deactivated {
        return Err(GovError::Deactivated);
    }
    if amount == 0 {
        return Err(GovError::ZeroAmount);
    }
    let luna = match checked_mul_uint(amount, exchange_rate) {
        Some(v) => v,
        None => return Err(GovError::Arithmetic),
    };
    if luna > total_bond_amount {
        return Err(GovError::Arithmetic);
    }
    let request = match apply_peg_fee(luna, exchange_rate, er_threshold, peg_recovery_fee) {
        Ok(v) => v,
        Err(e) => return Err(e),
    };
    if undelegated_so_far > u128::MAX - request {
        return Err(GovError::Arithmetic);
    }
    let so_far = undelegated_so_far + request;
    let mut next = epoch;
    if next.is_epoch_passed(block_time, epoch_time) {
        if so_far > all_delegations {
            return Err(GovError::Arithmetic);
        }
        let last_epoch = epoch.epoch_id;
        next.compute_current_epoch(block_time, epoch_time);
        Ok(BurnOutcome {
            total_bond_amount: total_bond_amount - luna,
            epoch: next,
            request,
            request_epoch: last_epoch,
            epoch_total: 0,
            undelegate: Some(so_far),
            all_delegations: all_delegations - so_far,
        })
    } else {
        if request > all_delegations {
            return Err(GovError::Arithmetic);
        }
        Ok(BurnOutcome {
            total_bond_amount: total_bond_amount - luna,
            epoch: next,
            request,
            request_epoch: epoch.epoch_id,
            epoch_total: so_far,
            undelegate: None,
            all_delegations: all_delegations - request,
        })
    }
}

/// Whether the pool must be reset to the delegated amount after a slashing
/// check: the Luna bonded since the last check is more than the growth of the
/// delegations over the recorded ones. An error when the delegations shrank.
pub fn slashing_check(delegated: u128, all_delegations: u128, bonded: u128) -> (r: Result<bool, GovError>)
    ensures
        r == (if delegated < all_delegations {
            Err::<bool, GovError>(GovError::Arithmetic)
        } else {
            Ok::<bool, GovError>(bonded > delegated - all_delegations)
        }),
{
    if delegated < all_delegations {
        return Err(GovError::Arithmetic);
    }
    Ok(bonded > delegated - all_delegations)
}

/// One undelegation from a validator holding `delegated` while `claimed` is
/// still to undelegate: the amount undelegated from it and what remains.
pub fn undelegation_step(claimed: u128, delegated: u128) -> (r: (u128, u128))
    ensures
        r.0 == (if delegated > claimed { claimed } else { delegated }),
        r.0 + r.1 == claimed,
{
    if delegated > claimed {
        (claimed, 0)
    } else {
        (delegated, claimed - delegated)
    }
}

/// The epoch whose burns can be finished at `block_time`: the current epoch
/// less the unbonding period, counted in epochs.
pub fn finishable_epoch(epoch: EpochId, block_time: u64, epoch_time: u64, undelegated_epoch: u64) -> (r: u64)
    requires
        epoch_time > 0,
        epoch.current_block_time <= block_time,
        epoch.epoch_id + (block_time - epoch.current_block_time) / (epoch_time as int) <= u64::MAX,
    ensures
        ({
            let current = epoch.epoch_id + (block_time - epoch.current_block_time) / (epoch_time as int);
            r == (if current < undelegated_epoch { 0 } else { current - undelegated_epoch })
        }),
{
    let current = compute_current_epoch(epoch.epoch_id, epoch.current_block_time, block_time, epoch_time);
    get_past_epoch(current, undelegated_epoch)
}

/// The amount paid out when finishing a burn: an error while nothing is payable.
pub fn finish_amount(payable_amount: u128) -> (r: Result<u128, GovError>)
    ensures
        r == (if payable_amount == 0 {
            Err::<u128, GovError>(GovError::NotReady)
        } else {
            Ok::<u128, GovError>(payable_amount)
        }),
{
    if payable_amount == 0 {
        return Err(GovError::NotReady);
    }
    Ok(payable_amount)
}

/// What the governance contract starts with at `block_time`: an exchange rate
/// of one, epoch zero starting at the block time, and no message switched off.
pub fn initial_gov_state(block_time: u64) -> (r: (Decimal, EpochId, MsgStatus))
    ensures
        r == (Decimal { atomics: DECIMAL_FRACTIONAL },
            EpochId { epoch_id: 0, current_block_time: block_time },
            MsgStatus { slashing: None, burn: None }),
{
    (Decimal::one(), EpochId { epoch_id: 0, current_block_time: block_time }, MsgStatus { slashing: None, burn: None })
}

/// Refuses the slashing check while it is switched off.
pub fn check_slashing_active(status: MsgStatus) -> (r: Result<(), GovError>)
    ensures
        r == (if status.slashing is Some { Err::<(), GovError>(GovError::Deactivated) } else { Ok::<(), GovError>(()) }),
{
    if status.slashing.is_some() {
        return Err(GovError::Deactivated);
    }
    Ok(())
}

/// The pool's new exchange rate after a slashing check, when the pool is reset:
/// when the Luna bonded since the last check is more than the delegations grew
/// (`slashing_check`), the pool's bonded amount becomes the `delegated` amount
/// and its exchange rate that amount over the `total_issued` tokens (one when
/// either is zero); `None` when the pool stays. An error when the delegations
/// shrank or the rate does not fit.
pub fn slashed_pool_rate(delegated: u128, all_delegations: u128, bonded: u128, total_issued: u128)
    -> (r: Result<Option<Decimal>, GovError>)
    ensures
        delegated < all_delegations ==> r == Err::<Option<Decimal>, GovError>(GovError::Arithmetic),
        delegated >= all_delegations && bonded <= delegated - all_delegations
            ==> r == Ok::<Option<Decimal>, GovError>(None),
        delegated >= all_delegations && bonded > delegated - all_delegations ==> r == (
            if rate_fits(delegated as int, total_issued as int, 0) {
                Ok::<Option<Decimal>, GovError>(Some(Decimal { atomics: rate_from(delegated as int, total_issued as int) as u128 }))
            } else {
                Err::<Option<Decimal>, GovError>(GovError::Arithmetic)
            }),
{
    let reset = match slashing_check(delegated, all_delegations, bonded) {
        Ok(b) => b,
        Err(e) => return Err(e),
    };
    if !reset {
        return Ok(None);
    }
    match compute_exchange_rate_checked(delegated, total_issued, 0) {
        Some(d) => Ok(Some(d)),
        None => Err(GovError::Arithmetic),
    }
}

} // verus!
