//! What holds of the ledger over all records, times and amounts.
//!
//! Each function here is a theorem about the operations in [`crate::contract`]
//! and the accrual formula in [`crate::services`], stated over the same functions
//! that their contracts use.

use crate::context::{AccountId, Address, ContractId, DataKey, Record, State};
use crate::contract::{
    available_outcome, initialize_outcome, records_after_initialize, records_after_withdraw,
    resolved_start_period, withdraw_outcome, withdrawal_fits, DrawRule, Transfer,
};
use crate::errors::Error;
use crate::services::{
    admin_of, allowance_accrued, allowance_available, allowance_of, end_period_of,
    start_period_of, state_of, step_period_of, steps_elapsed, token_address_of, withdrawn_of,
};
use vstd::arithmetic::div_mod::{lemma_div_is_ordered, lemma_fundamental_div_mod, lemma_mod_bound};
use vstd::arithmetic::mul::lemma_mul_inequality;
use vstd::prelude::*;

verus! {

//
// Initialization
//
/// A granted initialization leaves the ledger `Initiated` and holding what was
/// passed: custodian, asset contract, end period, a step period that is not zero,
/// and as start period the one passed or, where 0 was passed, the time of the call.
/// It touches no beneficiary's allowance or withdrawn total.
pub proof fn law_initialize_stores_configuration(
    records: Map<DataKey, Record>,
    current_time: u64,
    admin: AccountId,
    token_address: ContractId,
    step_period: u64,
    start_period: u64,
    end_period: u64,
    child_account: AccountId,
)
    requires
        initialize_outcome(records, step_period) is Ok,
    ensures
        ({
            let after = records_after_initialize(
                records,
                current_time,
                admin,
                token_address,
                step_period,
                start_period,
                end_period,
            );
            &&& state_of(after) == State::Initiated
            &&& admin_of(after) == Some(admin)
            &&& token_address_of(after) == Some(token_address)
            &&& step_period_of(after) == Some(step_period)
            &&& step_period > 0
            &&& end_period_of(after) == Some(end_period)
            &&& start_period_of(after) == Some(resolved_start_period(current_time, start_period))
            &&& start_period != 0 ==> start_period_of(after) == Some(start_period)
            &&& start_period == 0 ==> start_period_of(after) == Some(current_time)
            &&& allowance_of(after, child_account) == allowance_of(records, child_account)
            &&& withdrawn_of(after, child_account) == withdrawn_of(records, child_account)
        }),
{
}

/// After a call of `initialize`, every further call is refused with
/// `AlreadyInitialized`, whatever its arguments. This leaves out a first call that
/// was itself refused for a zero step period on a ledger in its initial state: that
/// call changes nothing, so the ledger can still be initialized.
pub proof fn law_initialize_only_once(
    records: Map<DataKey, Record>,
    current_time: u64,
    admin: AccountId,
    token_address: ContractId,
    step_period: u64,
    start_period: u64,
    end_period: u64,
    next_step_period: u64,
)
    requires
        !(state_of(records) == State::NotInititd && step_period == 0),
    ensures
        initialize_outcome(
            records_after_initialize(
                records,
                current_time,
                admin,
                token_address,
                step_period,
                start_period,
                end_period,
            ),
            next_step_period,
        ) == Err::<(), Error>(Error::AlreadyInitialized),
{
}

/// On a ledger in its initial state, `initialize` with a step period of 0 is
/// refused with `InvalidArguments`. On any ledger it is refused, and the records,
/// the lifecycle state among them, stay as they were.
pub proof fn law_zero_step_period_rejected(
    records: Map<DataKey, Record>,
    current_time: u64,
    admin: AccountId,
    token_address: ContractId,
    start_period: u64,
    end_period: u64,
)
    ensures
        state_of(records) == State::NotInititd ==> initialize_outcome(records, 0) == Err::<
            (),
            Error,
        >(Error::InvalidArguments),
        initialize_outcome(records, 0) is Err,
        records_after_initialize(
            records,
            current_time,
            admin,
            token_address,
            0,
            start_period,
            end_period,
        ) == records,
        state_of(
            records_after_initialize(
                records,
                current_time,
                admin,
                token_address,
                0,
                start_period,
                end_period,
            ),
        ) == state_of(records),
{
}

//
// Accrual
//
/// The number of whole steps is the floor of the elapsed time over the step period:
/// the one number `q` with `q * step_period <= elapsed < (q + 1) * step_period`.
/// With nothing withdrawn, the available amount is that number times the allowance.
pub proof fn law_available_is_whole_steps(
    current_time: int,
    start_period: int,
    step_period: int,
    child_allowance: int,
)
    requires
        start_period <= current_time,
        step_period > 0,
    ensures
        ({
            let steps = steps_elapsed(current_time, start_period, step_period);
            &&& 0 <= steps
            &&& steps * step_period <= current_time - start_period < (steps + 1) * step_period
            &&& allowance_available(current_time, start_period, step_period, child_allowance, 0)
                == steps * child_allowance
        }),
{
    let elapsed = current_time - start_period;
    lemma_fundamental_div_mod(elapsed, step_period);
    lemma_mod_bound(elapsed, step_period);
    lemma_whole_steps(elapsed, step_period, elapsed / step_period, elapsed % step_period);
}

proof fn lemma_whole_steps(elapsed: int, step_period: int, steps: int, rest: int)
    by (nonlinear_arith)
    requires
        0 <= elapsed,
        0 < step_period,
        elapsed == step_period * steps + rest,
        0 <= rest < step_period,
    ensures
        0 <= steps,
        steps * step_period <= elapsed < (steps + 1) * step_period,
{
}

/// With an allowance that is not negative, the available amount never falls as
/// time goes on, the start, the step period and the withdrawn amount being equal.
pub proof fn law_available_monotonic(
    earlier: int,
    later: int,
    start_period: int,
    step_period: int,
    child_allowance: int,
    withdrawn_allowance: int,
)
    requires
        earlier <= later,
        step_period > 0,
        child_allowance >= 0,
    ensures
        allowance_available(
            earlier,
            start_period,
            step_period,
            child_allowance,
            withdrawn_allowance,
        ) <= allowance_available(
            later,
            start_period,
            step_period,
            child_allowance,
            withdrawn_allowance,
        ),
{
    lemma_div_is_ordered(earlier - start_period, later - start_period, step_period);
    lemma_mul_inequality(
        steps_elapsed(earlier, start_period, step_period),
        steps_elapsed(later, start_period, step_period),
        child_allowance,
    );
}

/// What is available is what has accrued less what was withdrawn, so each unit
/// withdrawn lowers it by one.
pub proof fn law_available_falls_by_withdrawn(
    current_time: int,
    start_period: int,
    step_period: int,
    child_allowance: int,
    withdrawn_allowance: int,
    draw_amount: int,
)
    ensures
        allowance_available(
            current_time,
            start_period,
            step_period,
            child_allowance,
            withdrawn_allowance + draw_amount,
        ) == allowance_available(
            current_time,
            start_period,
            step_period,
            child_allowance,
            withdrawn_allowance,
        ) - draw_amount,
{
}

//
// Withdrawal
//
/// Before the start of the allowance period, a request from an end-user account is
/// refused with `AllowancePeriodNotSarted`, under either rule and whatever else the
/// ledger holds.
pub proof fn law_withdraw_before_start_refused(
    records: Map<DataKey, Record>,
    rule: DrawRule,
    invoker: Address,
    current_time: u64,
    child_account: AccountId,
    draw_amount: i128,
)
    requires
        invoker is Account,
        start_period_of(records) matches Some(start_period) && current_time < start_period,
    ensures
        withdraw_outcome(records, rule, invoker, current_time, child_account, draw_amount) == Err::<
            Transfer,
            Error,
        >(Error::AllowancePeriodNotSarted),
        records_after_withdraw(records, rule, invoker, current_time, child_account, draw_amount)
            == records,
{
}

/// Past an end period that is not 0, a request from an end-user account on a
/// ledger whose period has started is refused with `AllowancePeriodEnded`, under
/// either rule, however much has accrued.
pub proof fn law_withdraw_after_end_refused(
    records: Map<DataKey, Record>,
    rule: DrawRule,
    invoker: Address,
    current_time: u64,
    child_account: AccountId,
    draw_amount: i128,
)
    requires
        invoker is Account,
        start_period_of(records) matches Some(start_period) && start_period <= current_time,
        end_period_of(records) matches Some(end_period) && end_period != 0 && current_time
            > end_period,
    ensures
        withdraw_outcome(records, rule, invoker, current_time, child_account, draw_amount) == Err::<
            Transfer,
            Error,
        >(Error::AllowancePeriodEnded),
        records_after_withdraw(records, rule, invoker, current_time, child_account, draw_amount)
            == records,
{
}

/// A request that does not come from an end-user account is refused with
/// `InvalidInvoker` before anything else is looked at.
pub proof fn law_withdraw_needs_end_user(
    records: Map<DataKey, Record>,
    rule: DrawRule,
    invoker: Address,
    current_time: u64,
    child_account: AccountId,
    draw_amount: i128,
)
    requires
        invoker is Contract,
    ensures
        withdraw_outcome(records, rule, invoker, current_time, child_account, draw_amount) == Err::<
            Transfer,
            Error,
        >(Error::InvalidInvoker),
{
}

/// A granted request was made inside the allowance period by an end-user account,
/// what has accrued covers the amount held against it, and the transfer moves
/// exactly the requested amount from the custodian to the beneficiary.
pub proof fn law_granted_withdrawal(
    records: Map<DataKey, Record>,
    rule: DrawRule,
    invoker: Address,
    current_time: u64,
    child_account: AccountId,
    draw_amount: i128,
)
    requires
        withdraw_outcome(records, rule, invoker, current_time, child_account, draw_amount) is Ok,
    ensures
        ({
            let transfer = withdraw_outcome(
                records,
                rule,
                invoker,
                current_time,
                child_account,
                draw_amount,
            )->Ok_0;
            &&& invoker is Account
            &&& start_period_of(records) matches Some(start_period) && start_period
                <= current_time
            &&& end_period_of(records) matches Some(end_period) && (end_period == 0
                || current_time <= end_period)
            &&& step_period_of(records) matches Some(step_period) && step_period > 0
            &&& allowance_of(records, child_account) is Some
            &&& transfer.amount == draw_amount
            &&& transfer.to == child_account
            &&& Some(transfer.from) == admin_of(records)
            &&& Some(transfer.token_address) == token_address_of(records)
            &&& rule is RequestOnly ==> draw_amount <= allowance_accrued(
                current_time as int,
                start_period_of(records)->0 as int,
                step_period_of(records)->0 as int,
                allowance_of(records, child_account)->0 as int,
            )
            &&& rule is Cumulative ==> withdrawn_of(records, child_account) + draw_amount
                <= allowance_accrued(
                current_time as int,
                start_period_of(records)->0 as int,
                step_period_of(records)->0 as int,
                allowance_of(records, child_account)->0 as int,
            )
        }),
{
}

/// A granted request adds the requested amount to the beneficiary's withdrawn
/// total, so a request for an amount that is not negative never lowers it. Under
/// the cumulative rule the new total does not exceed what has accrued.
pub proof fn law_withdrawal_recorded(
    records: Map<DataKey, Record>,
    rule: DrawRule,
    invoker: Address,
    current_time: u64,
    child_account: AccountId,
    draw_amount: i128,
)
    requires
        withdraw_outcome(records, rule, invoker, current_time, child_account, draw_amount) is Ok,
        withdrawal_fits(records, rule, invoker, current_time, child_account, draw_amount),
    ensures
        ({
            let after = records_after_withdraw(
                records,
                rule,
                invoker,
                current_time,
                child_account,
                draw_amount,
            );
            &&& withdrawn_of(after, child_account) == withdrawn_of(records, child_account)
                + draw_amount
            &&& draw_amount >= 0 ==> withdrawn_of(after, child_account) >= withdrawn_of(
                records,
                child_account,
            )
            &&& rule is Cumulative ==> withdrawn_of(after, child_account) <= allowance_accrued(
                current_time as int,
                start_period_of(records)->0 as int,
                step_period_of(records)->0 as int,
                allowance_of(records, child_account)->0 as int,
            )
        }),
{
}

/// A request, granted or refused, changes nothing but the withdrawn total of the
/// beneficiary it names: the configuration, every allowance, and the withdrawn
/// total of every other account stay as they were.
pub proof fn law_withdrawal_touches_one_total(
    records: Map<DataKey, Record>,
    rule: DrawRule,
    invoker: Address,
    current_time: u64,
    child_account: AccountId,
    draw_amount: i128,
    other_account: AccountId,
)
    ensures
        ({
            let after = records_after_withdraw(
                records,
                rule,
                invoker,
                current_time,
                child_account,
                draw_amount,
            );
            &&& state_of(after) == state_of(records)
            &&& admin_of(after) == admin_of(records)
            &&& token_address_of(after) == token_address_of(records)
            &&& step_period_of(after) == step_period_of(records)
            &&& start_period_of(after) == start_period_of(records)
            &&& end_period_of(after) == end_period_of(records)
            &&& allowance_of(after, other_account) == allowance_of(records, other_account)
            &&& other_account != child_account ==> withdrawn_of(after, other_account)
                == withdrawn_of(records, other_account)
        }),
{
}

/// After a granted request, what is available to the beneficiary at that time is
/// what was available before, less the requested amount.
pub proof fn law_available_after_withdrawal(
    records: Map<DataKey, Record>,
    rule: DrawRule,
    invoker: Address,
    current_time: u64,
    child_account: AccountId,
    draw_amount: i128,
)
    requires
        withdraw_outcome(records, rule, invoker, current_time, child_account, draw_amount) is Ok,
        withdrawal_fits(records, rule, invoker, current_time, child_account, draw_amount),
    ensures
        available_outcome(records, current_time, child_account) is Ok,
        available_outcome(
            records_after_withdraw(
                records,
                rule,
                invoker,
                current_time,
                child_account,
                draw_amount,
            ),
            current_time,
            child_account,
        ) == Ok::<int, Error>(
            available_outcome(records, current_time, child_account)->Ok_0 - draw_amount,
        ),
{
}

/// The cumulative rule is the stricter one for an account whose withdrawn total is
/// not negative: what it grants, the request-only rule grants too. The two agree
/// where nothing was withdrawn before.
pub proof fn law_cumulative_rule_is_stricter(
    records: Map<DataKey, Record>,
    invoker: Address,
    current_time: u64,
    child_account: AccountId,
    draw_amount: i128,
)
    requires
        withdrawn_of(records, child_account) >= 0,
    ensures
        withdraw_outcome(
            records,
            DrawRule::Cumulative,
            invoker,
            current_time,
            child_account,
            draw_amount,
        ) is Ok ==> withdraw_outcome(
            records,
            DrawRule::RequestOnly,
            invoker,
            current_time,
            child_account,
            draw_amount,
        ) is Ok,
        withdrawn_of(records, child_account) == 0 ==> withdraw_outcome(
            records,
            DrawRule::Cumulative,
            invoker,
            current_time,
            child_account,
            draw_amount,
        ) == withdraw_outcome(
            records,
            DrawRule::RequestOnly,
            invoker,
            current_time,
            child_account,
            draw_amount,
        ),
{
}

//
// Withdrawn totals
//
/// An account for which no withdrawal was ever recorded has a withdrawn total of 0,
/// whether or not an allowance was set for it. So it is on an empty ledger, on a
/// newly initialized one, and after any allowance has been set.
pub proof fn law_withdrawn_defaults_to_zero(
    records: Map<DataKey, Record>,
    child_account: AccountId,
    registered: AccountId,
    allowance: i128,
)
    requires
        !records.contains_key(DataKey::WithdAllow(child_account)),
    ensures
        withdrawn_of(records, child_account) == 0,
        withdrawn_of(Map::<DataKey, Record>::empty(), child_account) == 0,
        withdrawn_of(
            records.insert(
                DataKey::Allowance(registered),
                Record::Allowance(registered, allowance),
            ),
            child_account,
        ) == 0,
{
}

/// Setting an allowance changes that one allowance and nothing else: no withdrawn
/// total, no other account's allowance, and none of the configuration.
pub proof fn law_set_allowance_touches_one_allowance(
    records: Map<DataKey, Record>,
    child_account: AccountId,
    allowance: i128,
    other_account: AccountId,
)
    ensures
        ({
            let after = records.insert(
                DataKey::Allowance(child_account),
                Record::Allowance(child_account, allowance),
            );
            &&& allowance_of(after, child_account) == Some(allowance)
            &&& withdrawn_of(after, other_account) == withdrawn_of(records, other_account)
            &&& other_account != child_account ==> allowance_of(after, other_account)
                == allowance_of(records, other_account)
            &&& state_of(after) == state_of(records)
            &&& admin_of(after) == admin_of(records)
            &&& token_address_of(after) == token_address_of(records)
            &&& step_period_of(after) == step_period_of(records)
            &&& start_period_of(after) == start_period_of(records)
            &&& end_period_of(after) == end_period_of(records)
        }),
{
}

} // verus!
