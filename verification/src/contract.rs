//! The ledger's operations: one-time initialization, allowances, and withdrawal.
//!
//! Every operation works on a [`Storage`] that the caller passes in. Operations that
//! depend on the time take the clock reading as `current_time`; `withdraw` takes the
//! address that invoked it. Nothing here moves the asset: a granted withdrawal is
//! recorded and returned as a [`Transfer`], which the caller carries out once.

#![allow(non_snake_case)]

use crate::context::{AccountId, Address, ContractId, DataKey, Record, State};
use crate::errors::Error;
use crate::services::{
    admin_of, allowance_available, allowance_accrued, allowance_covers, allowance_of,
    calculate_allowance_available, end_period_of, fits_i128, read_admin, read_allowance,
    read_end_period, read_start_period, read_state, read_step_period, read_token_address,
    read_withdrawn_allowance, required, start_period_of, state_of, step_period_of, to_account,
    token_address_of, withdrawn_of, write_admin, write_allowance, write_end_period,
    write_start_period, write_state, write_step_period, write_token_address,
    write_withdrawn_allowance,
};
use crate::storage::Storage;
use vstd::prelude::*;

verus! {

/// The ledger's operations. It holds no data of its own: the records live in the
/// [`Storage`] that each operation is given.
pub struct ParentAllowance;

/// An instruction to move `amount` of the asset that `token_address` manages from
/// the custodian `from` to the beneficiary `to`.
#[derive(Clone, Copy, Debug, PartialEq, Eq, Structural)]
pub struct Transfer {
    pub token_address: ContractId,
    pub from: AccountId,
    pub to: AccountId,
    pub amount: i128,
}

/// Which amount a withdrawal request is held against what has accrued.
///
/// The two rules differ once a beneficiary has withdrawn before: `RequestOnly` then
/// still grants any single request up to the whole accrued amount, so that the
/// recorded total can come to exceed what has accrued.
#[derive(Clone, Copy, Debug, PartialEq, Eq, Structural)]
pub enum DrawRule {
    /// The requested amount alone must not exceed what has accrued; what was
    /// withdrawn before is not counted. [`ParentAllowance::withdraw`] uses this rule.
    RequestOnly,
    /// The requested amount together with what was withdrawn before must not exceed
    /// what has accrued.
    Cumulative,
}

/// The amount that `rule` holds against what has accrued.
pub open spec fn amount_to_cover(rule: DrawRule, withdrawn: int, draw_amount: int) -> int {
    match rule {
        DrawRule::RequestOnly => draw_amount,
        DrawRule::Cumulative => withdrawn + draw_amount,
    }
}

/// The start of the allowance period that initialization stores: the time of the
/// call where the caller passed 0, else the time passed.
pub open spec fn resolved_start_period(current_time: u64, start_period: u64) -> u64 {
    if start_period == 0 {
        current_time
    } else {
        start_period
    }
}

/// What `initialize` answers on `records`: it refuses a ledger that has left its
/// initial state, then a zero step period.
pub open spec fn initialize_outcome(records: Map<DataKey, Record>, step_period: u64) -> Result<
    (),
    Error,
> {
    if state_of(records) != State::NotInititd {
        Err(Error::AlreadyInitialized)
    } else if step_period == 0 {
        Err(Error::InvalidArguments)
    } else {
        Ok(())
    }
}

/// The records after a successful initialization.
pub open spec fn initialized_records(
    records: Map<DataKey, Record>,
    current_time: u64,
    admin: AccountId,
    token_address: ContractId,
    step_period: u64,
    start_period: u64,
    end_period: u64,
) -> Map<DataKey, Record> {
    records.insert(DataKey::State, Record::State(State::Initiated)).insert(
        DataKey::Admin,
        Record::Admin(admin),
    ).insert(DataKey::TokenAddr, Record::TokenAddr(token_address)).insert(
        DataKey::StpPeriod,
        Record::StpPeriod(step_period),
    ).insert(DataKey::EndPeriod, Record::EndPeriod(end_period)).insert(
        DataKey::StrtPeriod,
        Record::StrtPeriod(resolved_start_period(current_time, start_period)),
    )
}

/// The records after a call of `initialize`, granted or refused.
pub open spec fn records_after_initialize(
    records: Map<DataKey, Record>,
    current_time: u64,
    admin: AccountId,
    token_address: ContractId,
    step_period: u64,
    start_period: u64,
    end_period: u64,
) -> Map<DataKey, Record> {
    if initialize_outcome(records, step_period) is Ok {
        initialized_records(
            records,
            current_time,
            admin,
            token_address,
            step_period,
            start_period,
            end_period,
        )
    } else {
        records
    }
}

/// What `getAlwAv` answers on `records` at `current_time`.
pub open spec fn available_outcome(
    records: Map<DataKey, Record>,
    current_time: u64,
    child_account: AccountId,
) -> Result<int, Error> {
    if start_period_of(records) is None || step_period_of(records) is None || allowance_of(
        records,
        child_account,
    ) is None {
        Err(Error::NotInitialized)
    } else if current_time < start_period_of(records)->0 {
        Err(Error::AllowancePeriodNotSarted)
    } else if step_period_of(records)->0 == 0 {
        Err(Error::InvalidArguments)
    } else {
        Ok(
            allowance_available(
                current_time as int,
                start_period_of(records)->0 as int,
                step_period_of(records)->0 as int,
                allowance_of(records, child_account)->0 as int,
                withdrawn_of(records, child_account) as int,
            ),
        )
    }
}

/// Whether the amount that `getAlwAv` is asked for, and the accrued amount that it
/// is computed from, can be held in an `i128`.
pub open spec fn available_fits(
    records: Map<DataKey, Record>,
    current_time: u64,
    child_account: AccountId,
) -> bool {
    available_outcome(records, current_time, child_account) matches Ok(available) ==> fits_i128(
        available,
    ) && fits_i128(
        allowance_accrued(
            current_time as int,
            start_period_of(records)->0 as int,
            step_period_of(records)->0 as int,
            allowance_of(records, child_account)->0 as int,
        ),
    )
}

/// What a withdrawal request is answered on `records` at `current_time`: the
/// transfer to make, or the first of the refusals that applies, in this order.
/// The caller is no end-user account; the start of the period was never stored;
/// the time lies before it; the end of the period was never stored; an end is
/// set and the time lies past it; the beneficiary's allowance, the asset contract,
/// the step period or the custodian was never stored; the stored step period is
/// zero; what has accrued does not cover the amount that `rule` holds against it.
pub open spec fn withdraw_outcome(
    records: Map<DataKey, Record>,
    rule: DrawRule,
    invoker: Address,
    current_time: u64,
    child_account: AccountId,
    draw_amount: i128,
) -> Result<Transfer, Error> {
    if !(invoker is Account) {
        Err(Error::InvalidInvoker)
    } else if start_period_of(records) is None {
        Err(Error::NotInitialized)
    } else if current_time < start_period_of(records)->0 {
        Err(Error::AllowancePeriodNotSarted)
    } else if end_period_of(records) is None {
        Err(Error::NotInitialized)
    } else if end_period_of(records)->0 > 0 && current_time > end_period_of(records)->0 {
        Err(Error::AllowancePeriodEnded)
    } else if allowance_of(records, child_account) is None || token_address_of(records) is None
        || step_period_of(records) is None || admin_of(records) is None {
        Err(Error::NotInitialized)
    } else if step_period_of(records)->0 == 0 {
        Err(Error::InvalidArguments)
    } else if allowance_available(
        current_time as int,
        start_period_of(records)->0 as int,
        step_period_of(records)->0 as int,
        allowance_of(records, child_account)->0 as int,
        amount_to_cover(rule, withdrawn_of(records, child_account) as int, draw_amount as int),
    ) < 0 {
        Err(Error::InsufficientAllowance)
    } else {
        Ok(
            Transfer {
                token_address: token_address_of(records)->0,
                from: admin_of(records)->0,
                to: child_account,
                amount: draw_amount,
            },
        )
    }
}

/// The records after a withdrawal request, granted or refused: a granted request
/// adds the amount to the beneficiary's withdrawn total, a refused one changes
/// nothing.
pub open spec fn records_after_withdraw(
    records: Map<DataKey, Record>,
    rule: DrawRule,
    invoker: Address,
    current_time: u64,
    child_account: AccountId,
    draw_amount: i128,
) -> Map<DataKey, Record> {
    if withdraw_outcome(records, rule, invoker, current_time, child_account, draw_amount) is Ok {
        records.insert(
            DataKey::WithdAllow(child_account),
            Record::WithdAllow(
                child_account,
                (withdrawn_of(records, child_account) + draw_amount) as i128,
            ),
        )
    } else {
        records
    }
}

/// Whether the total that a withdrawal would record can be held in an `i128`,
/// wherever the request is granted or `rule` needs the total to decide.
pub open spec fn withdrawal_fits(
    records: Map<DataKey, Record>,
    rule: DrawRule,
    invoker: Address,
    current_time: u64,
    child_account: AccountId,
    draw_amount: i128,
) -> bool {
    (rule is Cumulative || withdraw_outcome(
        records,
        rule,
        invoker,
        current_time,
        child_account,
        draw_amount,
    ) is Ok) ==> fits_i128(withdrawn_of(records, child_account) + draw_amount)
}

impl ParentAllowance {
    /// Sets the ledger up, once. It is refused with `AlreadyInitialized` unless the
    /// ledger is in its initial state, and else with `InvalidArguments` if
    /// `step_period` is 0; a refused call changes nothing. A granted call stores the
    /// custodian, the asset contract, the step period and the end period as given,
    /// stores the start period as given or, where 0 was given, as `current_time`,
    /// and moves the ledger to `Initiated`.
    pub fn initialize(
        store: &mut Storage,
        current_time: u64,
        admin: AccountId,
        token_address: ContractId,
        step_period: u64,
        start_period: u64,
        end_period: u64,
    ) -> (outcome: Result<(), Error>)
        ensures
            outcome == initialize_outcome(old(store)@, step_period),
            final(store)@ == records_after_initialize(
                old(store)@,
                current_time,
                admin,
                token_address,
                step_period,
                start_period,
                end_period,
            ),
    {
        if read_state(store) != State::NotInititd {
            return Err(Error::AlreadyInitialized);
        }
        // A step period of 0 would make the accrual divide by zero.
        if step_period == 0 {
            return Err(Error::InvalidArguments);
        }
        write_state(store, State::Initiated);
        write_admin(store, admin);
        write_token_address(store, token_address);
        write_step_period(store, step_period);
        write_end_period(store, end_period);
        if start_period == 0 {
            write_start_period(store, current_time);
        } else {
            write_start_period(store, start_period);
        }
        Ok(())
    }

    /// Sets the amount that `child_account` accrues per step, replacing any earlier
    /// one. No other record changes; in particular what the account has withdrawn
    /// stays as it is. Whether the caller may do this is not checked here.
    pub fn setAllow(store: &mut Storage, child_account: AccountId, allowance: i128)
        ensures
            final(store)@ == old(store)@.insert(
                DataKey::Allowance(child_account),
                Record::Allowance(child_account, allowance),
            ),
    {
        write_allowance(store, child_account, allowance);
    }

    /// The amount that `child_account` accrues per step, or `NotInitialized` if none
    /// was ever set.
    pub fn getAllow(store: &Storage, child_account: AccountId) -> (allowance: Result<i128, Error>)
        ensures
            allowance == required(allowance_of(store@, child_account)),
    {
        read_allowance(store, child_account)
    }

    /// The start of the allowance period, or `NotInitialized` before initialization.
    pub fn getStartP(store: &Storage) -> (start_period: Result<u64, Error>)
        ensures
            start_period == required(start_period_of(store@)),
    {
        read_start_period(store)
    }

    /// The step period, or `NotInitialized` before initialization.
    pub fn getStepP(store: &Storage) -> (step_period: Result<u64, Error>)
        ensures
            step_period == required(step_period_of(store@)),
    {
        read_step_period(store)
    }

    /// The end of the allowance period (0 for none), or `NotInitialized` before
    /// initialization.
    pub fn getEndP(store: &Storage) -> (end_period: Result<u64, Error>)
        ensures
            end_period == required(end_period_of(store@)),
    {
        read_end_period(store)
    }

    /// The amount available to `child_account` at `current_time`: what has accrued
    /// in whole steps since the start, less what the account has withdrawn. It is
    /// refused with `NotInitialized` if the start period, the step period or the
    /// account's allowance was never stored, else with `AllowancePeriodNotSarted`
    /// if the time lies before the start, else with `InvalidArguments` if the stored
    /// step period is zero.
    pub fn getAlwAv(store: &Storage, current_time: u64, child_account: AccountId) -> (available:
        Result<i128, Error>)
        requires
            available_fits(store@, current_time, child_account),
        ensures
            match available_outcome(store@, current_time, child_account) {
                Ok(amount) => available matches Ok(value) && value == amount,
                Err(error) => available == Err::<i128, Error>(error),
            },
    {
        let start_period = read_start_period(store)?;
        let step_period = read_step_period(store)?;
        let child_allowance = read_allowance(store, child_account)?;
        let withdrawn_allowance = read_withdrawn_allowance(store, child_account);
        if current_time < start_period {
            return Err(Error::AllowancePeriodNotSarted);
        }
        if step_period == 0 {
            return Err(Error::InvalidArguments);
        }
        Ok(
            calculate_allowance_available(
                current_time,
                start_period,
                step_period,
                child_allowance,
                withdrawn_allowance,
            ),
        )
    }

    /// The total that `child_account` has withdrawn so far; 0 for an account that
    /// never withdrew, whether or not an allowance was ever set for it.
    pub fn getWthdrwn(store: &Storage, child_account: AccountId) -> (amount: i128)
        ensures
            amount == withdrawn_of(store@, child_account),
    {
        read_withdrawn_allowance(store, child_account)
    }

    /// Decides a withdrawal request without recording anything: the transfer that
    /// granting it would call for, or the reason for which it is refused.
    pub fn check_withdraw(
        store: &Storage,
        rule: DrawRule,
        invoker: Address,
        current_time: u64,
        child_account: AccountId,
        draw_amount: i128,
    ) -> (outcome: Result<Transfer, Error>)
        requires
            rule is Cumulative ==> fits_i128(withdrawn_of(store@, child_account) + draw_amount),
        ensures
            outcome == withdraw_outcome(
                store@,
                rule,
                invoker,
                current_time,
                child_account,
                draw_amount,
            ),
    {
        // The request must come from a user account, not from a contract.
        let _ = to_account(invoker)?;

        // The allowance runs from the start period on.
        let start_period = read_start_period(store)?;
        if current_time < start_period {
            return Err(Error::AllowancePeriodNotSarted);
        }
        // It runs up to the end period, or without end where that is 0.
        let end_period = read_end_period(store)?;
        if current_time > end_period && end_period > 0 {
            return Err(Error::AllowancePeriodEnded);
        }
        let child_allowance = read_allowance(store, child_account)?;
        let token_address = read_token_address(store)?;
        let step_period = read_step_period(store)?;
        let withdrawn_allowance = read_withdrawn_allowance(store, child_account);
        let parent_account = read_admin(store)?;
        if step_period == 0 {
            return Err(Error::InvalidArguments);
        }
        let held_against: i128 = match rule {
            DrawRule::RequestOnly => draw_amount,
            DrawRule::Cumulative => withdrawn_allowance + draw_amount,
        };
        if !allowance_covers(
            current_time,
            start_period,
            step_period,
            child_allowance,
            held_against,
        ) {
            return Err(Error::InsufficientAllowance);
        }
        Ok(
            Transfer {
                token_address,
                from: parent_account,
                to: child_account,
                amount: draw_amount,
            },
        )
    }

    /// Decides a withdrawal request under `rule` and records it if it is granted:
    /// the beneficiary's withdrawn total grows by `draw_amount`, and the transfer
    /// to make is returned. A refused request changes nothing.
    pub fn withdraw_under(
        store: &mut Storage,
        rule: DrawRule,
        invoker: Address,
        current_time: u64,
        child_account: AccountId,
        draw_amount: i128,
    ) -> (outcome: Result<Transfer, Error>)
        requires
            withdrawal_fits(
                old(store)@,
                rule,
                invoker,
                current_time,
                child_account,
                draw_amount,
            ),
        ensures
            outcome == withdraw_outcome(
                old(store)@,
                rule,
                invoker,
                current_time,
                child_account,
                draw_amount,
            ),
            final(store)@ == records_after_withdraw(
                old(store)@,
                rule,
                invoker,
                current_time,
                child_account,
                draw_amount,
            ),
    {
        let transfer = Self::check_withdraw(
            store,
            rule,
            invoker,
            current_time,
            child_account,
            draw_amount,
        )?;
        let withdrawn_allowance = read_withdrawn_allowance(store, child_account);
        write_withdrawn_allowance(store, child_account, draw_amount + withdrawn_allowance);
        Ok(transfer)
    }

    /// Withdraws `draw_amount` for `child_account` if that much has accrued. The
    /// request is refused, in this order: with `InvalidInvoker` if `invoker` is no
    /// end-user account; with `AllowancePeriodNotSarted` if `current_time` lies
    /// before the start period; with `AllowancePeriodEnded` if an end period is set
    /// and `current_time` lies past it; with `InsufficientAllowance` if what has
    /// accrued, less `draw_amount`, is negative; and with `NotInitialized` where it
    /// comes to read a record that was never stored. A granted request adds
    /// `draw_amount` to the withdrawn total and returns the transfer from the
    /// custodian to the beneficiary that the caller is to make, once.
    ///
    /// The amount is held against what has accrued by itself
    /// ([`DrawRule::RequestOnly`]): what the account has withdrawn before does not
    /// count against the request, though it is added to when the request is
    /// recorded. [`ParentAllowance::withdraw_under`] with [`DrawRule::Cumulative`]
    /// counts it.
    pub fn withdraw(
        store: &mut Storage,
        invoker: Address,
        current_time: u64,
        child_account: AccountId,
        draw_amount: i128,
    ) -> (outcome: Result<Transfer, Error>)
        requires
            withdrawal_fits(
                old(store)@,
                DrawRule::RequestOnly,
                invoker,
                current_time,
                child_account,
                draw_amount,
            ),
        ensures
            outcome == withdraw_outcome(
                old(store)@,
                DrawRule::RequestOnly,
                invoker,
                current_time,
                child_account,
                draw_amount,
            ),
            final(store)@ == records_after_withdraw(
                old(store)@,
                DrawRule::RequestOnly,
                invoker,
                current_time,
                child_account,
                draw_amount,
            ),
    {
        Self::withdraw_under(
            store,
            DrawRule::RequestOnly,
            invoker,
            current_time,
            child_account,
            draw_amount,
        )
    }
}

} // verus!
