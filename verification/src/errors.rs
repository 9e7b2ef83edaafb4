//! The failures that ledger operations report.

use vstd::prelude::*;

verus! {

/// Why an operation was refused. Each kind ends the current call; none is retried.
#[derive(Copy, Clone, Debug, PartialEq, Eq, Structural, PartialOrd, Ord)]
pub enum Error {
    /// The ledger has left its initial state, so it cannot be initialized again.
    AlreadyInitialized,
    /// A record that the operation reads has never been written.
    NotInitialized,
    /// Reserved; no operation reports it.
    NotStarted,
    /// Reserved; no operation reports it.
    NotAuthorized,
    /// The step period is zero.
    InvalidArguments,
    /// The caller is not an end-user account.
    InvalidInvoker,
    /// The requested amount exceeds what has accrued.
    InsufficientAllowance,
    /// The current time is past the end of the allowance period.
    AllowancePeriodEnded,
    /// The current time is before the start of the allowance period.
    AllowancePeriodNotSarted,
}

impl Error {
    /// The number under which this kind is reported to a host.
    pub open spec fn spec_code(self) -> int {
        match self {
            Error::AlreadyInitialized => 1,
            Error::NotInitialized => 2,
            Error::NotStarted => 3,
            Error::NotAuthorized => 4,
            Error::InvalidArguments => 5,
            Error::InvalidInvoker => 6,
            Error::InsufficientAllowance => 7,
            Error::AllowancePeriodEnded => 8,
            Error::AllowancePeriodNotSarted => 9,
        }
    }

    /// The number under which this kind is reported to a host: 1 to 9, in the order
    /// of declaration.
    pub fn code(&self) -> (n: u32)
        ensures
            n == self.spec_code(),
    {
        match self {
            Error::AlreadyInitialized => 1,
            Error::NotInitialized => 2,
            Error::NotStarted => 3,
            Error::NotAuthorized => 4,
            Error::InvalidArguments => 5,
            Error::InvalidInvoker => 6,
            Error::InsufficientAllowance => 7,
            Error::AllowancePeriodEnded => 8,
            Error::AllowancePeriodNotSarted => 9,
        }
    }
}

} // verus!
