// The store, the typed reads and writes, and the accrual formula.

use parent_allowance::context::{AccountId, Address, ContractId, DataKey, Record, State};
use parent_allowance::errors::Error;
use parent_allowance::services::{
    allowance_covers, calculate_allowance_available, checked_allowance_available, read_admin,
    read_allowance, read_end_period, read_start_period, read_state, read_step_period,
    read_token_address, read_withdrawn_allowance, to_account, write_admin, write_allowance,
    write_end_period, write_start_period, write_state, write_step_period, write_token_address,
    write_withdrawn_allowance,
};
use parent_allowance::storage::Storage;

const START: u64 = 1669726146;
const DAY: u64 = 86400;

fn account(n: u128) -> AccountId {
    AccountId { hi: 0, lo: n }
}

#[test]
fn error_codes_are_one_to_nine() {
    assert_eq!(Error::AlreadyInitialized.code(), 1);
    assert_eq!(Error::NotInitialized.code(), 2);
    assert_eq!(Error::NotStarted.code(), 3);
    assert_eq!(Error::NotAuthorized.code(), 4);
    assert_eq!(Error::InvalidArguments.code(), 5);
    assert_eq!(Error::InvalidInvoker.code(), 6);
    assert_eq!(Error::InsufficientAllowance.code(), 7);
    assert_eq!(Error::AllowancePeriodEnded.code(), 8);
    assert_eq!(Error::AllowancePeriodNotSarted.code(), 9);
}

#[test]
fn errors_are_ordered_by_code() {
    assert!(Error::AlreadyInitialized < Error::NotInitialized);
    assert!(Error::AllowancePeriodEnded < Error::AllowancePeriodNotSarted);
    assert!(Error::InvalidArguments > Error::NotAuthorized);
}

#[test]
fn a_record_sits_under_the_key_of_its_name() {
    let who = account(4);
    assert_eq!(Record::Admin(who).key(), DataKey::Admin);
    assert_eq!(Record::Allowance(who, 5).key(), DataKey::Allowance(who));
    assert_eq!(Record::WithdAllow(who, 5).key(), DataKey::WithdAllow(who));
    assert_eq!(Record::StpPeriod(5).key(), DataKey::StpPeriod);
    assert_eq!(Record::StrtPeriod(5).key(), DataKey::StrtPeriod);
    assert_eq!(Record::EndPeriod(5).key(), DataKey::EndPeriod);
    assert_eq!(Record::TokenAddr(ContractId { hi: 1, lo: 2 }).key(), DataKey::TokenAddr);
    assert_eq!(Record::State(State::Started).key(), DataKey::State);
}

#[test]
fn an_empty_store_holds_nothing() {
    let store = Storage::new();
    assert_eq!(store.get(&DataKey::State), None);
    assert_eq!(store.get(&DataKey::Allowance(account(1))), None);
    assert!(!store.has(&DataKey::Admin));
}

#[test]
fn set_replaces_the_record_under_the_same_key_only() {
    let mut store = Storage::new();
    store.set(Record::StpPeriod(10));
    store.set(Record::Allowance(account(1), 7));
    store.set(Record::Allowance(account(2), 8));
    store.set(Record::WithdAllow(account(1), 3));
    store.set(Record::Allowance(account(1), 9));
    assert_eq!(store.get(&DataKey::Allowance(account(1))), Some(Record::Allowance(account(1), 9)));
    assert_eq!(store.get(&DataKey::Allowance(account(2))), Some(Record::Allowance(account(2), 8)));
    assert_eq!(store.get(&DataKey::WithdAllow(account(1))), Some(Record::WithdAllow(account(1), 3)));
    assert_eq!(store.get(&DataKey::StpPeriod), Some(Record::StpPeriod(10)));
    assert!(store.has(&DataKey::StpPeriod));
    assert!(!store.has(&DataKey::WithdAllow(account(2))));
    assert!(!store.has(&DataKey::StrtPeriod));
    store.set(Record::StpPeriod(11));
    assert_eq!(store.get(&DataKey::StpPeriod), Some(Record::StpPeriod(11)));
    assert_eq!(store.get(&DataKey::Allowance(account(1))), Some(Record::Allowance(account(1), 9)));
}

#[test]
fn state_defaults_to_not_initiated() {
    let mut store = Storage::new();
    assert_eq!(read_state(&store), State::NotInititd);
    write_state(&mut store, State::Initiated);
    assert_eq!(read_state(&store), State::Initiated);
    write_state(&mut store, State::Finished);
    assert_eq!(read_state(&store), State::Finished);
    write_state(&mut store, State::Started);
    assert_eq!(read_state(&store), State::Started);
}

#[test]
fn each_write_is_read_back() {
    let mut store = Storage::new();
    let admin = account(1);
    let token = ContractId { hi: 3, lo: 4 };
    assert_eq!(read_admin(&store), Err(Error::NotInitialized));
    assert_eq!(read_token_address(&store), Err(Error::NotInitialized));
    assert_eq!(read_start_period(&store), Err(Error::NotInitialized));
    assert_eq!(read_end_period(&store), Err(Error::NotInitialized));
    assert_eq!(read_step_period(&store), Err(Error::NotInitialized));
    assert_eq!(read_allowance(&store, account(2)), Err(Error::NotInitialized));
    assert_eq!(read_withdrawn_allowance(&store, account(2)), 0);
    write_admin(&mut store, admin);
    write_token_address(&mut store, token);
    write_start_period(&mut store, 11);
    write_end_period(&mut store, 12);
    write_step_period(&mut store, 13);
    write_allowance(&mut store, account(2), 14);
    write_withdrawn_allowance(&mut store, account(2), 15);
    assert_eq!(read_admin(&store), Ok(admin));
    assert_eq!(read_token_address(&store), Ok(token));
    assert_eq!(read_start_period(&store), Ok(11));
    assert_eq!(read_end_period(&store), Ok(12));
    assert_eq!(read_step_period(&store), Ok(13));
    assert_eq!(read_allowance(&store, account(2)), Ok(14));
    assert_eq!(read_withdrawn_allowance(&store, account(2)), 15);
    // The allowance and the withdrawn total of one account are two records.
    assert_eq!(read_allowance(&store, account(3)), Err(Error::NotInitialized));
    assert_eq!(read_withdrawn_allowance(&store, account(3)), 0);
    assert_eq!(read_state(&store), State::NotInititd);
}

#[test]
fn the_withdrawn_total_is_overwritten_not_added_to() {
    let mut store = Storage::new();
    write_withdrawn_allowance(&mut store, account(2), 50);
    write_withdrawn_allowance(&mut store, account(2), 20);
    assert_eq!(read_withdrawn_allowance(&store, account(2)), 20);
}

#[test]
fn available_counts_whole_steps_only() {
    assert_eq!(calculate_allowance_available(START, START, DAY, 100, 0), 0);
    assert_eq!(calculate_allowance_available(START + DAY - 1, START, DAY, 100, 0), 0);
    assert_eq!(calculate_allowance_available(START + DAY, START, DAY, 100, 0), 100);
    assert_eq!(calculate_allowance_available(START + DAY + 1000, START, DAY, 100, 0), 100);
    assert_eq!(calculate_allowance_available(START + 2 * DAY - 1, START, DAY, 100, 0), 100);
    assert_eq!(calculate_allowance_available(START + 2 * DAY + 1000, START, DAY, 150, 0), 300);
    assert_eq!(calculate_allowance_available(1000, 0, 7, 3, 0), 426);
}

#[test]
fn available_subtracts_what_was_withdrawn() {
    assert_eq!(calculate_allowance_available(START + DAY + 1000, START, DAY, 100, 50), 50);
    assert_eq!(calculate_allowance_available(START + 2 * DAY + 1000, START, DAY, 150, 70), 230);
    assert_eq!(calculate_allowance_available(START + DAY + 1000, START, DAY, 100, 110), -10);
    assert_eq!(calculate_allowance_available(START, START, DAY, 100, 1), -1);
    assert_eq!(calculate_allowance_available(START + DAY, START, DAY, 100, -5), 105);
    assert_eq!(calculate_allowance_available(START + 3 * DAY, START, DAY, -10, 5), -35);
}

#[test]
fn available_never_falls_with_time() {
    let mut last = calculate_allowance_available(START, START, DAY, 100, 30);
    let mut now = START;
    while now < START + 5 * DAY {
        now += 7200;
        let next = calculate_allowance_available(now, START, DAY, 100, 30);
        assert!(next >= last);
        last = next;
    }
    assert_eq!(last, 470);
}

#[test]
fn available_at_the_limits() {
    assert_eq!(calculate_allowance_available(u64::MAX, 0, 1, 1, 0), u64::MAX as i128);
    assert_eq!(calculate_allowance_available(u64::MAX, 0, u64::MAX, i128::MAX, 0), i128::MAX);
    assert_eq!(calculate_allowance_available(u64::MAX, 0, u64::MAX, i128::MIN, 0), i128::MIN);
    assert_eq!(calculate_allowance_available(5, 5, 1, i128::MAX, i128::MAX), -i128::MAX);
}

#[test]
fn checked_available_agrees_where_it_can_be_computed() {
    assert_eq!(checked_allowance_available(START + DAY + 1000, START, DAY, 100, 50), Some(50));
    assert_eq!(checked_allowance_available(START + DAY + 1000, START, DAY, 100, 110), Some(-10));
    assert_eq!(checked_allowance_available(START, START, DAY, 100, 0), Some(0));
}

#[test]
fn checked_available_is_none_where_it_cannot() {
    // Before the start.
    assert_eq!(checked_allowance_available(START - 1, START, DAY, 100, 0), None);
    // A step period of zero.
    assert_eq!(checked_allowance_available(START, START, 0, 100, 0), None);
    // The accrued amount does not fit.
    assert_eq!(checked_allowance_available(2, 0, 1, i128::MAX, 0), None);
    assert_eq!(checked_allowance_available(2, 0, 1, i128::MAX, i128::MAX), None);
    // The accrued amount fits, the difference does not.
    assert_eq!(checked_allowance_available(1, 0, 1, i128::MAX, -1), None);
    assert_eq!(checked_allowance_available(1, 0, 1, i128::MIN, 1), None);
    assert_eq!(checked_allowance_available(1, 0, 1, i128::MAX, 0), Some(i128::MAX));
}

#[test]
fn covers_is_the_sign_of_the_available_amount() {
    assert!(allowance_covers(START + DAY + 1000, START, DAY, 100, 100));
    assert!(!allowance_covers(START + DAY + 1000, START, DAY, 100, 101));
    assert!(allowance_covers(START, START, DAY, 100, 0));
    assert!(!allowance_covers(START, START, DAY, 100, 1));
    assert!(allowance_covers(START, START, DAY, 100, -1));
}

#[test]
fn covers_is_exact_beyond_the_range_of_the_amounts() {
    // The accrued amount overflows upwards, or downwards.
    assert!(allowance_covers(2, 0, 1, i128::MAX, i128::MAX));
    assert!(!allowance_covers(2, 0, 1, i128::MIN, i128::MIN));
    // The accrued amount fits, the difference overflows.
    assert!(allowance_covers(1, 0, 1, i128::MAX, -1));
    assert!(allowance_covers(1, 0, 1, 0, i128::MIN));
    assert!(!allowance_covers(1, 0, 1, i128::MIN, 1));
    assert!(!allowance_covers(1, 0, 1, -2, i128::MAX));
    assert!(allowance_covers(1, 0, 1, i128::MIN, i128::MIN));
}

#[test]
fn only_an_account_address_is_an_account() {
    assert_eq!(to_account(Address::Account(account(3))), Ok(account(3)));
    assert_eq!(
        to_account(Address::Contract(ContractId { hi: 0, lo: 3 })),
        Err(Error::InvalidInvoker)
    );
}
