//! A permissioned balance ledger: one manager mediates deposits, withdrawals,
//! credits and debits on a bounded set of accounts backed by a single asset.
//!
//! Every operation takes the authenticated caller as an argument and hands back
//! the event that the host should emit, so the whole state machine is verified
//! here while the host only performs the asset transfer and the emission.

pub mod bank;
pub mod errors;
pub mod proofs;

pub use bank::{
    AccountId, AssetTransfer, Bank, BankTransactionStatus, BankingEvent, Ledger, Success,
    Withdrawal,
};
pub use errors::{ContractError, Error, RuntimeError};
