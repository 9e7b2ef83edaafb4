//! The values that the ledger stores and the keys under which it stores them.

use vstd::prelude::*;

verus! {

/// Where the ledger stands in its life. Only the step from `NotInititd` to
/// `Initiated` is ever taken; `Started` and `Finished` are reserved.
#[derive(Clone, Copy, Debug, PartialEq, Eq, Structural)]
pub enum State {
    NotInititd,
    Initiated,
    Started,
    Finished,
}

/// The identity of an end-user account: a 256-bit key, held as two halves.
#[derive(Clone, Copy, Debug, PartialEq, Eq, Structural)]
pub struct AccountId {
    pub hi: u128,
    pub lo: u128,
}

/// The identity of a contract, such as the one that moves the asset: a 256-bit
/// value, held as two halves.
#[derive(Clone, Copy, Debug, PartialEq, Eq, Structural)]
pub struct ContractId {
    pub hi: u128,
    pub lo: u128,
}

/// Who invoked an operation: an end user, or a contract acting on someone's behalf.
#[derive(Clone, Copy, Debug, PartialEq, Eq, Structural)]
pub enum Address {
    Account(AccountId),
    Contract(ContractId),
}

/// The key of one stored record.
#[derive(Clone, Copy, Debug, PartialEq, Eq, Structural)]
pub enum DataKey {
    /// The custodian who funds withdrawals.
    Admin,
    /// The amount a beneficiary accrues per step.
    Allowance(AccountId),
    /// The total a beneficiary has withdrawn so far.
    WithdAllow(AccountId),
    /// The length of one accrual step, in seconds.
    StpPeriod,
    /// The time at which accrual starts.
    StrtPeriod,
    /// The time after which withdrawals are refused; 0 for none.
    EndPeriod,
    /// The contract that moves the asset.
    TokenAddr,
    /// The lifecycle state.
    State,
}

/// One stored record: a key together with the value kept under it. A record of
/// one variant always belongs under the key of the same name, so a value of the
/// wrong type can never sit under a key.
#[derive(Clone, Copy, Debug, PartialEq, Eq, Structural)]
pub enum Record {
    Admin(AccountId),
    Allowance(AccountId, i128),
    WithdAllow(AccountId, i128),
    StpPeriod(u64),
    StrtPeriod(u64),
    EndPeriod(u64),
    TokenAddr(ContractId),
    State(State),
}

impl Record {
    /// The key under which this record is stored.
    pub open spec fn spec_key(self) -> DataKey {
        match self {
            Record::Admin(_) => DataKey::Admin,
            Record::Allowance(who, _) => DataKey::Allowance(who),
            Record::WithdAllow(who, _) => DataKey::WithdAllow(who),
            Record::StpPeriod(_) => DataKey::StpPeriod,
            Record::StrtPeriod(_) => DataKey::StrtPeriod,
            Record::EndPeriod(_) => DataKey::EndPeriod,
            Record::TokenAddr(_) => DataKey::TokenAddr,
            Record::State(_) => DataKey::State,
        }
    }

    /// The key under which this record is stored.
    pub fn key(&self) -> (k: DataKey)
        ensures
            k == self.spec_key(),
    {
        match self {
            Record::Admin(_) => DataKey::Admin,
            Record::Allowance(who, _) => DataKey::Allowance(*who),
            Record::WithdAllow(who, _) => DataKey::WithdAllow(*who),
            Record::StpPeriod(_) => DataKey::StpPeriod,
            Record::StrtPeriod(_) => DataKey::StrtPeriod,
            Record::EndPeriod(_) => DataKey::EndPeriod,
            Record::TokenAddr(_) => DataKey::TokenAddr,
            Record::State(_) => DataKey::State,
        }
    }
}

} // verus!
