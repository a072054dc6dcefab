use bank::bank::{ACCOUNT_FROZEN, ACCOUNT_LIQUID, BANK_CLOSED, BANK_OPEN};
use bank::{
    AccountId, AssetTransfer, Bank, BankTransactionStatus, BankingEvent, ContractError, Error,
    Ledger, RuntimeError, Success, Withdrawal,
};

fn id(n: u8) -> AccountId {
    AccountId::new([n; 32])
}

fn ok(caller: AccountId, s: Success) -> Result<BankingEvent, Error> {
    Ok(BankingEvent { operator: caller, status: BankTransactionStatus::EmitSuccess(s) })
}

fn soft(caller: AccountId, e: Error) -> Result<BankingEvent, Error> {
    Ok(BankingEvent { operator: caller, status: BankTransactionStatus::EmitError(e) })
}

fn ledger(account: AccountId, balance: u128) -> Ledger {
    Ledger { account, balance, status: ACCOUNT_LIQUID }
}

/// Owner O, manager M, room for two accounts, open.
fn fresh_bank() -> Bank {
    let mut b = Bank::new(id(1), 9, 2);
    assert_eq!(b.setup(id(1), 9, id(2), 2), ok(id(1), Success::BankSetupSuccess));
    b
}

#[test]
fn lib_default_works() {
    let b = Bank::default(id(1));
    assert_eq!(b.get(), (0, id(1), id(1), 0, BANK_OPEN));
    assert!(b.ledgers.is_empty());
}

#[test]
fn account_ids_compare_by_bytes() {
    let mut bytes = [3u8; 32];
    assert_eq!(id(3), AccountId::new(bytes));
    bytes[31] = 4;
    assert_ne!(id(3), AccountId::new(bytes));
}

#[test]
fn get_balance_of_missing_account_fails() {
    let mut b = fresh_bank();
    assert_eq!(b.get_balance(id(5)), Err(Error::AccountNotFound));
    b.deposit(id(2), id(6), 10).unwrap();
    assert_eq!(b.get_balance(id(5)), Err(Error::AccountNotFound));
    assert_eq!(b.get_balance(id(6)), Ok(ledger(id(6), 10)));
}

#[test]
fn scenario_deposit_withdraw_credit_debit() {
    let (m, a) = (id(2), id(10));
    let mut b = fresh_bank();
    assert_eq!(b.deposit(m, a, 100), ok(m, Success::AccountDepositSuccess));
    assert_eq!(b.ledgers, vec![ledger(a, 100)]);
    assert_eq!(b.deposit(m, a, 50), ok(m, Success::AccountDepositSuccess));
    assert_eq!(b.ledgers, vec![ledger(a, 150)]);
    let soft_insufficient = BankingEvent {
        operator: m,
        status: BankTransactionStatus::EmitError(Error::AccountBalanceInsufficient),
    };
    assert_eq!(b.withdraw(m, a, 200), Withdrawal::Reported(soft_insufficient));
    assert_eq!(b.get_balance(a).unwrap().balance, 150);
    assert_eq!(b.credit(m, a, 10), ok(m, Success::AccountCreditSuccess));
    assert_eq!(b.get_balance(a).unwrap().balance, 160);
    assert_eq!(b.debit(a, 160), ok(a, Success::AccountDebitSuccess));
    assert_eq!(b.get_balance(a).unwrap().balance, 0);
    assert_eq!(b.debit(a, 1), soft(a, Error::AccountBalanceInsufficient));
    assert_eq!(b.get_balance(a).unwrap().balance, 0);
}

#[test]
fn deposits_sum_up() {
    let (m, a) = (id(2), id(10));
    let mut b = fresh_bank();
    for amount in [1u128, 20, 300, 4000] {
        b.deposit(m, a, amount).unwrap();
    }
    assert_eq!(b.get_balance(a).unwrap().balance, 4321);
}

#[test]
fn overflowing_deposit_fails_hard() {
    let (m, a) = (id(2), id(10));
    let mut b = fresh_bank();
    b.deposit(m, a, u128::MAX - 5).unwrap();
    assert_eq!(b.deposit(m, a, 6), Err(Error::AccountBalanceOverflow));
    assert_eq!(b.get_balance(a).unwrap().balance, u128::MAX - 5);
    assert_eq!(b.deposit(m, a, 5), ok(m, Success::AccountDepositSuccess));
    assert_eq!(b.get_balance(a).unwrap().balance, u128::MAX);
}

#[test]
fn third_account_maxes_out() {
    let m = id(2);
    let mut b = fresh_bank();
    b.deposit(m, id(10), 1).unwrap();
    b.deposit(m, id(11), 2).unwrap();
    assert_eq!(b.deposit(m, id(12), 3), soft(m, Error::BankAccountMaxOut));
    assert_eq!(b.ledgers, vec![ledger(id(10), 1), ledger(id(11), 2)]);
    assert_eq!(b.get_balance(id(12)), Err(Error::AccountNotFound));
    assert_eq!(b.deposit(m, id(11), 3), ok(m, Success::AccountDepositSuccess));
    assert_eq!(b.get_balance(id(11)).unwrap().balance, 5);
}

#[test]
fn zero_bound_admits_no_account() {
    let mut b = Bank::default(id(1));
    assert_eq!(b.deposit(id(1), id(10), 3), soft(id(1), Error::BankAccountMaxOut));
    assert!(b.ledgers.is_empty());
}

#[test]
fn setup_by_stranger_changes_nothing() {
    let m = id(2);
    let mut b = fresh_bank();
    b.deposit(m, id(10), 7).unwrap();
    b.close(m).unwrap();
    assert_eq!(b.setup(id(3), 44, id(3), 9), soft(id(3), Error::BadOrigin));
    assert_eq!(b.setup(m, 44, id(3), 9), soft(m, Error::BadOrigin));
    assert_eq!(b.get(), (9, id(1), m, 2, BANK_CLOSED));
    assert_eq!(b.ledgers, vec![ledger(id(10), 7)]);
}

#[test]
fn setup_by_owner_resets() {
    let m = id(2);
    let mut b = fresh_bank();
    b.deposit(m, id(10), 7).unwrap();
    b.close(m).unwrap();
    assert_eq!(b.setup(id(1), 44, id(3), 9), ok(id(1), Success::BankSetupSuccess));
    assert_eq!(b.get(), (44, id(1), id(3), 9, BANK_OPEN));
    assert!(b.ledgers.is_empty());
    assert_eq!(b.get_balance(id(10)), Err(Error::AccountNotFound));
}

#[test]
fn closed_bank_refuses_then_reopens() {
    let (m, a) = (id(2), id(10));
    let mut b = fresh_bank();
    b.deposit(m, a, 5).unwrap();
    assert_eq!(b.close(m), ok(m, Success::BankCloseSuccess));
    assert_eq!(b.deposit(m, a, 5), soft(m, Error::BankIsClose));
    assert_eq!(b.credit(m, a, 5), soft(m, Error::BankIsClose));
    assert_eq!(b.debit(a, 1), soft(a, Error::BankIsClose));
    let closed = BankingEvent { operator: m, status: BankTransactionStatus::EmitError(Error::BankIsClose) };
    assert_eq!(b.withdraw(m, a, 1), Withdrawal::Reported(closed));
    assert_eq!(b.ledgers, vec![ledger(a, 5)]);
    assert_eq!(b.open(m), ok(m, Success::BankOpenSuccess));
    assert_eq!(b.deposit(m, a, 5), ok(m, Success::AccountDepositSuccess));
    assert_eq!(b.get_balance(a).unwrap().balance, 10);
}

#[test]
fn only_manager_opens_and_closes() {
    let mut b = fresh_bank();
    assert_eq!(b.close(id(1)), soft(id(1), Error::BadOrigin));
    assert_eq!(b.get().4, BANK_OPEN);
    assert_eq!(b.close(id(2)), ok(id(2), Success::BankCloseSuccess));
    assert_eq!(b.open(id(9)), soft(id(9), Error::BadOrigin));
    assert_eq!(b.get().4, BANK_CLOSED);
}

#[test]
fn only_manager_moves_balances() {
    let (m, a, x) = (id(2), id(10), id(9));
    let mut b = fresh_bank();
    b.deposit(m, a, 5).unwrap();
    assert_eq!(b.deposit(x, a, 5), soft(x, Error::BadOrigin));
    assert_eq!(b.credit(x, a, 5), soft(x, Error::BadOrigin));
    let bad = BankingEvent { operator: x, status: BankTransactionStatus::EmitError(Error::BadOrigin) };
    assert_eq!(b.withdraw(x, a, 5), Withdrawal::Reported(bad));
    assert_eq!(b.ledgers, vec![ledger(a, 5)]);
}

#[test]
fn withdraw_debits_then_asks_for_transfer() {
    let (m, a) = (id(2), id(10));
    let mut b = fresh_bank();
    b.deposit(m, a, 50).unwrap();
    let step = b.withdraw(m, a, 20);
    assert_eq!(step, Withdrawal::Transfer(AssetTransfer { asset_id: 9, target: a, amount: 20 }));
    assert_eq!(b.get_balance(a).unwrap().balance, 30);
    assert_eq!(Bank::complete_withdraw(m, Ok(())), Ok(BankingEvent {
        operator: m,
        status: BankTransactionStatus::EmitSuccess(Success::AccountWithdrawalSuccess),
    }));
    assert_eq!(
        Bank::complete_withdraw(m, Err(RuntimeError::CallRuntimeFailed)),
        Err(ContractError::Runtime(RuntimeError::CallRuntimeFailed))
    );
}

#[test]
fn withdraw_of_whole_balance_and_missing_account() {
    let (m, a) = (id(2), id(10));
    let mut b = fresh_bank();
    b.deposit(m, a, 50).unwrap();
    assert!(matches!(b.withdraw(m, a, 50), Withdrawal::Transfer(_)));
    assert_eq!(b.get_balance(a).unwrap().balance, 0);
    let missing = BankingEvent { operator: m, status: BankTransactionStatus::EmitError(Error::AccountNotFound) };
    assert_eq!(b.withdraw(m, id(11), 1), Withdrawal::Reported(missing));
}

#[test]
fn credit_errors_are_soft() {
    let (m, a) = (id(2), id(10));
    let mut b = fresh_bank();
    assert_eq!(b.credit(m, a, 1), soft(m, Error::AccountNotFound));
    b.deposit(m, a, u128::MAX).unwrap();
    assert_eq!(b.credit(m, a, 1), soft(m, Error::AccountBalanceOverflow));
    assert_eq!(b.get_balance(a).unwrap().balance, u128::MAX);
}

#[test]
fn frozen_account_refuses_credit_and_debit() {
    let (m, a) = (id(2), id(10));
    let mut b = fresh_bank();
    b.ledgers.push(Ledger { account: a, balance: 40, status: ACCOUNT_FROZEN });
    assert_eq!(b.credit(m, a, 1), soft(m, Error::AccountFrozen));
    assert_eq!(b.debit(a, 1), soft(a, Error::AccountFrozen));
    assert_eq!(b.get_balance(a).unwrap().balance, 40);
}

#[test]
fn debit_of_unknown_caller() {
    let mut b = fresh_bank();
    assert_eq!(b.debit(id(7), 0), soft(id(7), Error::AccountNotFound));
}

#[test]
fn errors_convert_into_contract_error() {
    assert_eq!(ContractError::from(Error::BankIsClose), ContractError::Internal(Error::BankIsClose));
    assert_eq!(
        ContractError::from(RuntimeError::CallRuntimeFailed),
        ContractError::Runtime(RuntimeError::CallRuntimeFailed)
    );
}
