use vstd::prelude::*;

verus! {

/// Error messages reported by the bank.
#[derive(Debug, Clone, Copy, PartialEq, Eq, Structural)]
pub enum Error {
    /// Bad origin error, e.g., wrong caller
    BadOrigin,
    /// Bank is close
    BankIsClose,
    /// Bank account maximum reached
    BankAccountMaxOut,
    /// There is already an existing account
    AccountAlreadyExist,
    /// Account not found
    AccountNotFound,
    /// Account balance insufficient
    AccountBalanceInsufficient,
    /// Account balance overflow
    AccountBalanceOverflow,
    /// Account frozen
    AccountFrozen,
}

/// Failure of the host's asset-transfer call.
#[derive(Debug, Clone, Copy, PartialEq, Eq, Structural)]
pub enum RuntimeError {
    /// Failed to dispatch a runtime call.
    CallRuntimeFailed,
}

/// Unified contract error type.
#[derive(Debug, Clone, Copy, PartialEq, Eq, Structural)]
pub enum ContractError {
    /// Internal errors.
    Internal(Error),
    /// Runtime call errors.
    Runtime(RuntimeError),
}

impl From<Error> for ContractError {
    fn from(err: Error) -> (r: Self)
        ensures
            r == ContractError::Internal(err),
    {
        ContractError::Internal(err)
    }
}

impl vstd::std_specs::convert::FromSpecImpl<Error> for ContractError {
    open spec fn obeys_from_spec() -> bool {
        true
    }

    open spec fn from_spec(err: Error) -> ContractError {
        ContractError::Internal(err)
    }
}

impl From<RuntimeError> for ContractError {
    fn from(err: RuntimeError) -> (r: Self)
        ensures
            r == ContractError::Runtime(err),
    {
        ContractError::Runtime(err)
    }
}

impl vstd::std_specs::convert::FromSpecImpl<RuntimeError> for ContractError {
    open spec fn obeys_from_spec() -> bool {
        true
    }

    open spec fn from_spec(err: RuntimeError) -> ContractError {
        ContractError::Runtime(err)
    }
}

} // verus!
