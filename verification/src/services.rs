//! Typed reads and writes of the ledger's records, and the accrual formula.

use crate::context::{AccountId, Address, ContractId, DataKey, Record, State};
use crate::errors::Error;
use crate::storage::Storage;
use vstd::prelude::*;

verus! {

//
// What a store holds, record by record
//
/// The lifecycle state that `records` holds; `NotInititd` where none was written.
pub open spec fn state_of(records: Map<DataKey, Record>) -> State {
    if records.contains_key(DataKey::State) {
        match records[DataKey::State] {
            Record::State(state) => state,
            _ => State::NotInititd,
        }
    } else {
        State::NotInititd
    }
}

/// The custodian that `records` holds, if one was written.
pub open spec fn admin_of(records: Map<DataKey, Record>) -> Option<AccountId> {
    if records.contains_key(DataKey::Admin) {
        match records[DataKey::Admin] {
            Record::Admin(admin) => Some(admin),
            _ => None,
        }
    } else {
        None
    }
}

/// The asset contract that `records` holds, if one was written.
pub open spec fn token_address_of(records: Map<DataKey, Record>) -> Option<ContractId> {
    if records.contains_key(DataKey::TokenAddr) {
        match records[DataKey::TokenAddr] {
            Record::TokenAddr(token_address) => Some(token_address),
            _ => None,
        }
    } else {
        None
    }
}

/// The step period that `records` holds, if one was written.
pub open spec fn step_period_of(records: Map<DataKey, Record>) -> Option<u64> {
    if records.contains_key(DataKey::StpPeriod) {
        match records[DataKey::StpPeriod] {
            Record::StpPeriod(step_period) => Some(step_period),
            _ => None,
        }
    } else {
        None
    }
}

/// The start of the allowance period that `records` holds, if one was written.
pub open spec fn start_period_of(records: Map<DataKey, Record>) -> Option<u64> {
    if records.contains_key(DataKey::StrtPeriod) {
        match records[DataKey::StrtPeriod] {
            Record::StrtPeriod(start_period) => Some(start_period),
            _ => None,
        }
    } else {
        None
    }
}

/// The end of the allowance period that `records` holds, if one was written.
pub open spec fn end_period_of(records: Map<DataKey, Record>) -> Option<u64> {
    if records.contains_key(DataKey::EndPeriod) {
        match records[DataKey::EndPeriod] {
            Record::EndPeriod(end_period) => Some(end_period),
            _ => None,
        }
    } else {
        None
    }
}

/// The per-step allowance that `records` holds for `child_account`, if one was set.
pub open spec fn allowance_of(records: Map<DataKey, Record>, child_account: AccountId) -> Option<
    i128,
> {
    if records.contains_key(DataKey::Allowance(child_account)) {
        match records[DataKey::Allowance(child_account)] {
            Record::Allowance(_, allowance) => Some(allowance),
            _ => None,
        }
    } else {
        None
    }
}

/// The total that `records` holds as withdrawn by `child_account`; 0 where none
/// was recorded.
pub open spec fn withdrawn_of(records: Map<DataKey, Record>, child_account: AccountId) -> i128 {
    if records.contains_key(DataKey::WithdAllow(child_account)) {
        match records[DataKey::WithdAllow(child_account)] {
            Record::WithdAllow(_, amount) => amount,
            _ => 0,
        }
    } else {
        0
    }
}

/// A value that must have been written: the value itself, or `NotInitialized`.
pub open spec fn required<T>(value: Option<T>) -> Result<T, Error> {
    match value {
        Some(v) => Ok(v),
        None => Err(Error::NotInitialized),
    }
}

//
// Write functions
//
/// Stores the lifecycle state.
pub fn write_state(store: &mut Storage, state: State)
    ensures
        final(store)@ == old(store)@.insert(DataKey::State, Record::State(state)),
        state_of(final(store)@) == state,
{
    store.set(Record::State(state));
}

/// Stores the custodian.
pub fn write_admin(store: &mut Storage, admin: AccountId)
    ensures
        final(store)@ == old(store)@.insert(DataKey::Admin, Record::Admin(admin)),
        admin_of(final(store)@) == Some(admin),
{
    store.set(Record::Admin(admin));
}

/// Stores the asset contract.
pub fn write_token_address(store: &mut Storage, token_address: ContractId)
    ensures
        final(store)@ == old(store)@.insert(DataKey::TokenAddr, Record::TokenAddr(token_address)),
        token_address_of(final(store)@) == Some(token_address),
{
    store.set(Record::TokenAddr(token_address));
}

/// Sets the per-step allowance of `child_account`, replacing any earlier one.
pub fn write_allowance(store: &mut Storage, child_account: AccountId, allowance: i128)
    ensures
        final(store)@ == old(store)@.insert(
            DataKey::Allowance(child_account),
            Record::Allowance(child_account, allowance),
        ),
        allowance_of(final(store)@, child_account) == Some(allowance),
{
    store.set(Record::Allowance(child_account, allowance));
}

/// Stores the start of the allowance period.
pub fn write_start_period(store: &mut Storage, start_period: u64)
    ensures
        final(store)@ == old(store)@.insert(DataKey::StrtPeriod, Record::StrtPeriod(start_period)),
        start_period_of(final(store)@) == Some(start_period),
{
    store.set(Record::StrtPeriod(start_period));
}

/// Stores the end of the allowance period.
pub fn write_end_period(store: &mut Storage, end_period: u64)
    ensures
        final(store)@ == old(store)@.insert(DataKey::EndPeriod, Record::EndPeriod(end_period)),
        end_period_of(final(store)@) == Some(end_period),
{
    store.set(Record::EndPeriod(end_period));
}

/// Stores the step period.
pub fn write_step_period(store: &mut Storage, step_period: u64)
    ensures
        final(store)@ == old(store)@.insert(DataKey::StpPeriod, Record::StpPeriod(step_period)),
        step_period_of(final(store)@) == Some(step_period),
{
    store.set(Record::StpPeriod(step_period));
}

/// Overwrites the total withdrawn by `child_account` with `amount`. The store does
/// not add: the caller passes the new total.
pub fn write_withdrawn_allowance(store: &mut Storage, child_account: AccountId, amount: i128)
    ensures
        final(store)@ == old(store)@.insert(
            DataKey::WithdAllow(child_account),
            Record::WithdAllow(child_account, amount),
        ),
        withdrawn_of(final(store)@, child_account) == amount,
{
    store.set(Record::WithdAllow(child_account, amount));
}

//
// Read functions
//
/// The lifecycle state; `NotInititd` if none has been stored.
pub fn read_state(store: &Storage) -> (state: State)
    ensures
        state == state_of(store@),
{
    match store.get(&DataKey::State) {
        Some(Record::State(state)) => state,
        _ => State::NotInititd,
    }
}

/// The custodian, or `NotInitialized` if none has been stored.
pub fn read_admin(store: &Storage) -> (admin: Result<AccountId, Error>)
    ensures
        admin == required(admin_of(store@)),
{
    match store.get(&DataKey::Admin) {
        Some(Record::Admin(admin)) => Ok(admin),
        _ => Err(Error::NotInitialized),
    }
}

/// The per-step allowance of `child_account`, or `NotInitialized` if none was ever
/// set for that account.
pub fn read_allowance(store: &Storage, child_account: AccountId) -> (allowance: Result<
    i128,
    Error,
>)
    ensures
        allowance == required(allowance_of(store@, child_account)),
{
    match store.get(&DataKey::Allowance(child_account)) {
        Some(Record::Allowance(_, allowance)) => Ok(allowance),
        _ => Err(Error::NotInitialized),
    }
}

/// The start of the allowance period, or `NotInitialized` if none has been stored.
pub fn read_start_period(store: &Storage) -> (start_period: Result<u64, Error>)
    ensures
        start_period == required(start_period_of(store@)),
{
    match store.get(&DataKey::StrtPeriod) {
        Some(Record::StrtPeriod(start_period)) => Ok(start_period),
        _ => Err(Error::NotInitialized),
    }
}

/// The end of the allowance period, or `NotInitialized` if none has been stored.
pub fn read_end_period(store: &Storage) -> (end_period: Result<u64, Error>)
    ensures
        end_period == required(end_period_of(store@)),
{
    match store.get(&DataKey::EndPeriod) {
        Some(Record::EndPeriod(end_period)) => Ok(end_period),
        _ => Err(Error::NotInitialized),
    }
}

/// The step period, or `NotInitialized` if none has been stored.
pub fn read_step_period(store: &Storage) -> (step_period: Result<u64, Error>)
    ensures
        step_period == required(step_period_of(store@)),
{
    match store.get(&DataKey::StpPeriod) {
        Some(Record::StpPeriod(step_period)) => Ok(step_period),
        _ => Err(Error::NotInitialized),
    }
}

/// The asset contract, or `NotInitialized` if none has been stored.
pub fn read_token_address(store: &Storage) -> (token_address: Result<ContractId, Error>)
    ensures
        token_address == required(token_address_of(store@)),
{
    match store.get(&DataKey::TokenAddr) {
        Some(Record::TokenAddr(token_address)) => Ok(token_address),
        _ => Err(Error::NotInitialized),
    }
}

/// The total withdrawn by `child_account` so far; 0 for an account that never
/// withdrew, registered or not.
pub fn read_withdrawn_allowance(store: &Storage, child_account: AccountId) -> (amount: i128)
    ensures
        amount == withdrawn_of(store@, child_account),
{
    match store.get(&DataKey::WithdAllow(child_account)) {
        Some(Record::WithdAllow(_, amount)) => amount,
        _ => 0,
    }
}

//
// Accrual
//
/// The number of whole steps between `start_period` and `current_time`. A step that
/// has only begun does not count.
pub open spec fn steps_elapsed(current_time: int, start_period: int, step_period: int) -> int {
    (current_time - start_period) / step_period
}

/// What has accrued at `current_time`: the allowance once for each whole step.
pub open spec fn allowance_accrued(
    current_time: int,
    start_period: int,
    step_period: int,
    child_allowance: int,
) -> int {
    steps_elapsed(current_time, start_period, step_period) * child_allowance
}

/// What is available at `current_time`: what has accrued, less what was withdrawn.
/// It is negative where more was withdrawn than has accrued.
pub open spec fn allowance_available(
    current_time: int,
    start_period: int,
    step_period: int,
    child_allowance: int,
    withdrawn_allowance: int,
) -> int {
    allowance_accrued(current_time, start_period, step_period, child_allowance)
        - withdrawn_allowance
}

/// Whether `amount` can be held in an `i128`.
pub open spec fn fits_i128(amount: int) -> bool {
    i128::MIN <= amount <= i128::MAX
}

/// Whether the available amount can be computed within an `i128`: the time does not
/// lie before the start, the step period is not zero, and both the accrued amount
/// and the available amount fit.
pub open spec fn allowance_computable(
    current_time: u64,
    start_period: u64,
    step_period: u64,
    child_allowance: i128,
    withdrawn_allowance: i128,
) -> bool {
    &&& start_period <= current_time
    &&& step_period > 0
    &&& fits_i128(
        allowance_accrued(
            current_time as int,
            start_period as int,
            step_period as int,
            child_allowance as int,
        ),
    )
    &&& fits_i128(
        allowance_available(
            current_time as int,
            start_period as int,
            step_period as int,
            child_allowance as int,
            withdrawn_allowance as int,
        ),
    )
}

/// The number of whole steps between `start_period` and `current_time`.
fn count_steps(current_time: u64, start_period: u64, step_period: u64) -> (steps: i128)
    requires
        start_period <= current_time,
        step_period > 0,
    ensures
        steps == steps_elapsed(current_time as int, start_period as int, step_period as int),
        0 <= steps <= u64::MAX,
{
    let seconds_elapsed: u64 = current_time - start_period;
    (seconds_elapsed / step_period) as i128
}

/// The amount available to a beneficiary at `current_time`: the allowance for each
/// whole step since `start_period`, less `withdrawn_allowance`. Nothing is clamped:
/// the result is negative where more was withdrawn than has accrued.
///
/// The time must not lie before the start, the step period must not be zero, and
/// the accrued amount and the result must fit in an `i128`:
/// [`checked_allowance_available`] asks for none of that and answers `None` instead.
pub fn calculate_allowance_available(
    current_time: u64,
    start_period: u64,
    step_period: u64,
    child_allowance: i128,
    withdrawn_allowance: i128,
) -> (available: i128)
    requires
        allowance_computable(
            current_time,
            start_period,
            step_period,
            child_allowance,
            withdrawn_allowance,
        ),
    ensures
        available == allowance_available(
            current_time as int,
            start_period as int,
            step_period as int,
            child_allowance as int,
            withdrawn_allowance as int,
        ),
{
    let steps: i128 = count_steps(current_time, start_period, step_period);
    steps * child_allowance - withdrawn_allowance
}

/// The amount available to a beneficiary at `current_time`, or `None` where it
/// cannot be computed: the time lies before the start, the step period is zero, or
/// the accrued amount or the result does not fit in an `i128`.
pub fn checked_allowance_available(
    current_time: u64,
    start_period: u64,
    step_period: u64,
    child_allowance: i128,
    withdrawn_allowance: i128,
) -> (available: Option<i128>)
    ensures
        available.is_some() == allowance_computable(
            current_time,
            start_period,
            step_period,
            child_allowance,
            withdrawn_allowance,
        ),
        available matches Some(amount) ==> amount == allowance_available(
            current_time as int,
            start_period as int,
            step_period as int,
            child_allowance as int,
            withdrawn_allowance as int,
        ),
{
    if current_time < start_period || step_period == 0 {
        return None;
    }
    let steps: i128 = count_steps(current_time, start_period, step_period);
    match steps.checked_mul(child_allowance) {
        Some(accrued) => accrued.checked_sub(withdrawn_allowance),
        None => None,
    }
}

/// Whether what has accrued at `current_time` covers `amount`: whether
/// the available amount, with `amount` taken as withdrawn, is not negative. The
/// answer is exact for every allowance and amount, also where the accrued amount
/// itself would not fit in an `i128`.
pub fn allowance_covers(
    current_time: u64,
    start_period: u64,
    step_period: u64,
    child_allowance: i128,
    amount: i128,
) -> (covered: bool)
    requires
        start_period <= current_time,
        step_period > 0,
    ensures
        covered == (allowance_available(
            current_time as int,
            start_period as int,
            step_period as int,
            child_allowance as int,
            amount as int,
        ) >= 0),
{
    let steps: i128 = count_steps(current_time, start_period, step_period);
    match steps.checked_mul(child_allowance) {
        Some(accrued) => match accrued.checked_sub(amount) {
            Some(available) => available >= 0,
            None => amount < 0,
        },
        None => {
            proof {
                lemma_product_sign(steps as int, child_allowance as int);
            }
            child_allowance > 0
        },
    }
}

/// A product of a non-negative number has the sign of its other factor, or is 0.
proof fn lemma_product_sign(steps: int, allowance: int)
    by (nonlinear_arith)
    requires
        0 <= steps,
    ensures
        allowance >= 0 ==> steps * allowance >= 0,
        allowance <= 0 ==> steps * allowance <= 0,
{
}

/// The account behind an address, or `InvalidInvoker` for an address that is not an
/// end-user account.
pub fn to_account(address: Address) -> (account: Result<AccountId, Error>)
    ensures
        account == (match address {
            Address::Account(id) => Ok::<AccountId, Error>(id),
            Address::Contract(_) => Err(Error::InvalidInvoker),
        }),
{
    match address {
        Address::Account(id) => Ok(id),
        _ => Err(Error::InvalidInvoker),
    }
}

} // verus!
