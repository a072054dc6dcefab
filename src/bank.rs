use vstd::prelude::*;

use crate::errors::{ContractError, Error, RuntimeError};

verus! {

/// Bank status: deposits, withdrawals, credits and debits are accepted.
pub const BANK_OPEN: u8 = 0;

/// Bank status: every balance operation is refused with `BankIsClose`.
pub const BANK_CLOSED: u8 = 1;

/// Account status: credits and debits are refused with `AccountFrozen`.
pub const ACCOUNT_FROZEN: u8 = 0;

/// Account status: the account may be credited and debited.
pub const ACCOUNT_LIQUID: u8 = 1;

/// A 32-byte account identity, as supplied by the host.
#[derive(Debug, Clone, Copy)]
pub struct AccountId {
    pub bytes: [u8; 32],
}

impl AccountId {
    /// The identity with the given bytes.
    pub fn new(bytes: [u8; 32]) -> (r: AccountId)
        ensures
            r.bytes == bytes,
    {
        AccountId { bytes }
    }
}

impl PartialEq for AccountId {
    fn eq(&self, other: &AccountId) -> (r: bool) {
        let mut i: usize = 0;
        while i < 32
            invariant
                0 <= i <= 32,
                forall|j: int| 0 <= j < i ==> self.bytes[j] == other.bytes[j],
            decreases 32 - i,
        {
            if self.bytes[i] != other.bytes[i] {
                return false;
            }
            i = i + 1;
        }
        assert(self.bytes =~= other.bytes);
        true
    }
}

impl vstd::std_specs::cmp::PartialEqSpecImpl for AccountId {
    open spec fn obeys_eq_spec() -> bool {
        true
    }

    open spec fn eq_spec(&self, other: &AccountId) -> bool {
        self.bytes == other.bytes
    }
}

impl Eq for AccountId {

}


/// What a successful operation reports.
#[derive(Debug, Clone, Copy, PartialEq, Eq, Structural)]
pub enum Success {
    /// Bank setup successful
    BankSetupSuccess,
    /// Bank close successful
    BankCloseSuccess,
    /// Bank open successful
    BankOpenSuccess,
    /// Account deposit successful
    AccountDepositSuccess,
    /// Account withdrawal successful
    AccountWithdrawalSuccess,
    /// Account debit success
    AccountDebitSuccess,
    /// Account credit success
    AccountCreditSuccess,
}

/// Outcome carried by a banking event.
#[derive(Debug, Clone, Copy, PartialEq, Eq, Structural)]
pub enum BankTransactionStatus {
    EmitSuccess(Success),
    EmitError(Error),
}

/// The event that the host emits at the end of an operation.
#[derive(Debug, Clone, Copy, PartialEq, Eq)]
pub struct BankingEvent {
    /// The caller of the operation.
    pub operator: AccountId,
    pub status: BankTransactionStatus,
}

/// One account's record in the bank.
#[derive(Debug, Clone, Copy, PartialEq, Eq)]
pub struct Ledger {
    /// Account address
    pub account: AccountId,
    /// Free balance
    pub balance: u128,
    /// Status (`ACCOUNT_FROZEN` or `ACCOUNT_LIQUID`)
    pub status: u8,
}

/// The asset transfer that the host must perform to complete a withdrawal.
#[derive(Debug, Clone, Copy, PartialEq, Eq)]
pub struct AssetTransfer {
    pub asset_id: u128,
    pub target: AccountId,
    pub amount: u128,
}

/// First half of a withdrawal: either it ended with an event, or the balance
/// was debited and the asset must now be transferred.
#[derive(Debug, Clone, Copy, PartialEq, Eq)]
pub enum Withdrawal {
    Reported(BankingEvent),
    Transfer(AssetTransfer),
}

/// The bank: configuration, status and the ordered account records.
pub struct Bank {
    /// Bank asset
    pub asset_id: u128,
    /// Bank owner
    pub owner: AccountId,
    /// Bank manager
    pub manager: AccountId,
    /// Maximum accounts the bank ledger can handle
    pub maximum_accounts: u16,
    /// Bank ledgers
    pub ledgers: Vec<Ledger>,
    /// Status (`BANK_OPEN` or `BANK_CLOSED`)
    pub status: u8,
}

/// Mathematical model of a bank.
pub struct BankView {
    pub asset_id: u128,
    pub owner: AccountId,
    pub manager: AccountId,
    pub maximum_accounts: u16,
    pub ledgers: Seq<Ledger>,
    pub status: u8,
}

impl View for Bank {
    type V = BankView;

    open spec fn view(&self) -> BankView {
        BankView {
            asset_id: self.asset_id,
            owner: self.owner,
            manager: self.manager,
            maximum_accounts: self.maximum_accounts,
            ledgers: self.ledgers@,
            status: self.status,
        }
    }
}

/// Some record of `s` belongs to `a`.
pub open spec fn holds_account(s: Seq<Ledger>, a: AccountId) -> bool {
    exists|i: int| 0 <= i < s.len() && s[i].account == a
}

/// The index of the record of `a` in `s` (meaningful when `holds_account(s, a)`).
pub open spec fn position(s: Seq<Ledger>, a: AccountId) -> int {
    choose|i: int| 0 <= i < s.len() && s[i].account == a
}

/// No two records belong to the same account.
pub open spec fn accounts_unique(s: Seq<Ledger>) -> bool {
    forall|i: int, j: int|
        0 <= i < s.len() && 0 <= j < s.len() && s[i].account == s[j].account ==> i == j
}

/// In a ledger of unique accounts, a record of `a` sits at `position(s, a)`.
pub proof fn lemma_position(s: Seq<Ledger>, a: AccountId, i: int)
    requires
        accounts_unique(s),
        0 <= i < s.len(),
        s[i].account == a,
    ensures
        holds_account(s, a),
        position(s, a) == i,
{
    assert(holds_account(s, a));
    let p = position(s, a);
    assert(s[p].account == s[i].account);
}

/// The record of `a` in `s` (meaningful when `holds_account(s, a)`).
pub open spec fn record_of(s: Seq<Ledger>, a: AccountId) -> Ledger {
    s[position(s, a)]
}

/// `s` with the balance of the record at `i` replaced by `b`.
pub open spec fn with_balance(s: Seq<Ledger>, i: int, b: u128) -> Seq<Ledger> {
    s.update(i, Ledger { balance: b, ..s[i] })
}

/// The event reported to `caller` with `status`.
pub open spec fn event(caller: AccountId, status: BankTransactionStatus) -> BankingEvent {
    BankingEvent { operator: caller, status }
}

/// A soft error: reported by event while the call itself succeeds.
pub open spec fn soft_error(e: Error) -> BankTransactionStatus {
    BankTransactionStatus::EmitError(e)
}

/// A successful outcome.
pub open spec fn success(s: Success) -> BankTransactionStatus {
    BankTransactionStatus::EmitSuccess(s)
}

impl BankView {
    /// Accounts are unique and the ledger respects its bound.
    pub open spec fn wf(self) -> bool {
        &&& accounts_unique(self.ledgers)
        &&& self.ledgers.len() <= self.maximum_accounts
    }

    /// Balance operations are accepted.
    pub open spec fn is_open(self) -> bool {
        self.status == BANK_OPEN
    }

    /// The same bank with other account records.
    pub open spec fn with_ledgers(self, ledgers: Seq<Ledger>) -> BankView {
        BankView { ledgers, ..self }
    }

    /// Reconfigure the bank, on behalf of `caller`: only the owner may, and doing
    /// so clears every account and opens the bank.
    pub open spec fn setup(self, caller: AccountId, asset_id: u128, manager: AccountId, maximum_accounts: u16) -> (
        BankView,
        BankTransactionStatus,
    ) {
        if caller != self.owner {
            (self, soft_error(Error::BadOrigin))
        } else {
            (
                BankView {
                    asset_id,
                    manager,
                    maximum_accounts,
                    ledgers: Seq::empty(),
                    status: BANK_OPEN,
                    ..self
                },
                success(Success::BankSetupSuccess),
            )
        }
    }

    /// Close the bank, on behalf of `caller`.
    pub open spec fn close(self, caller: AccountId) -> (BankView, BankTransactionStatus) {
        if caller != self.manager {
            (self, soft_error(Error::BadOrigin))
        } else {
            (BankView { status: BANK_CLOSED, ..self }, success(Success::BankCloseSuccess))
        }
    }

    /// Open the bank, on behalf of `caller`.
    pub open spec fn open(self, caller: AccountId) -> (BankView, BankTransactionStatus) {
        if caller != self.manager {
            (self, soft_error(Error::BadOrigin))
        } else {
            (BankView { status: BANK_OPEN, ..self }, success(Success::BankOpenSuccess))
        }
    }

    /// Credit `amount` to `account`, on behalf of `caller`.
    pub open spec fn credit(self, caller: AccountId, account: AccountId, amount: u128) -> (
        BankView,
        BankTransactionStatus,
    ) {
        if caller != self.manager {
            (self, soft_error(Error::BadOrigin))
        } else if !self.is_open() {
            (self, soft_error(Error::BankIsClose))
        } else if !holds_account(self.ledgers, account) {
            (self, soft_error(Error::AccountNotFound))
        } else {
            let l = record_of(self.ledgers, account);
            if l.status != ACCOUNT_LIQUID {
                (self, soft_error(Error::AccountFrozen))
            } else if l.balance + amount > u128::MAX {
                (self, soft_error(Error::AccountBalanceOverflow))
            } else {
                (
                    self.with_ledgers(
                        with_balance(
                            self.ledgers,
                            position(self.ledgers, account),
                            (l.balance + amount) as u128,
                        ),
                    ),
                    success(Success::AccountCreditSuccess),
                )
            }
        }
    }
    /// Deposit `amount` to `account`, on behalf of `caller`; `Err` is a hard failure.
    pub open spec fn deposit(self, caller: AccountId, account: AccountId, amount: u128) -> Result<
        (BankView, BankTransactionStatus),
        Error,
    > {
        if caller != self.manager {
            Ok((self, soft_error(Error::BadOrigin)))
        } else if !self.is_open() {
            Ok((self, soft_error(Error::BankIsClose)))
        } else if holds_account(self.ledgers, account) {
            let l = record_of(self.ledgers, account);
            if l.balance + amount > u128::MAX {
                Err(Error::AccountBalanceOverflow)
            } else {
                Ok(
                    (
                        self.with_ledgers(
                            with_balance(
                                self.ledgers,
                                position(self.ledgers, account),
                                (l.balance + amount) as u128,
                            ),
                        ),
                        success(Success::AccountDepositSuccess),
                    ),
                )
            }
        } else if self.ledgers.len() >= self.maximum_accounts {
            Ok((self, soft_error(Error::BankAccountMaxOut)))
        } else {
            Ok(
                (
                    self.with_ledgers(
                        self.ledgers.push(
                            Ledger { account, balance: amount, status: ACCOUNT_LIQUID },
                        ),
                    ),
                    success(Success::AccountDepositSuccess),
                ),
            )
        }
    }

    /// First half of a withdrawal of `amount` from `account`, on behalf of `caller`.
    pub open spec fn withdraw(self, caller: AccountId, account: AccountId, amount: u128) -> (
        BankView,
        Withdrawal,
    ) {
        if caller != self.manager {
            (self, Withdrawal::Reported(event(caller, soft_error(Error::BadOrigin))))
        } else if !self.is_open() {
            (self, Withdrawal::Reported(event(caller, soft_error(Error::BankIsClose))))
        } else if !holds_account(self.ledgers, account) {
            (self, Withdrawal::Reported(event(caller, soft_error(Error::AccountNotFound))))
        } else {
            let l = record_of(self.ledgers, account);
            if l.balance < amount {
                (
                    self,
                    Withdrawal::Reported(event(caller, soft_error(Error::AccountBalanceInsufficient))),
                )
            } else {
                (
                    self.with_ledgers(
                        with_balance(
                            self.ledgers,
                            position(self.ledgers, account),
                            (l.balance - amount) as u128,
                        ),
                    ),
                    Withdrawal::Transfer(
                        AssetTransfer { asset_id: self.asset_id, target: account, amount },
                    ),
                )
            }
        }
    }

    /// Debit `amount` from the caller's own account.
    pub open spec fn debit(self, caller: AccountId, amount: u128) -> (
        BankView,
        BankTransactionStatus,
    ) {
        if !self.is_open() {
            (self, soft_error(Error::BankIsClose))
        } else if !holds_account(self.ledgers, caller) {
            (self, soft_error(Error::AccountNotFound))
        } else {
            let l = record_of(self.ledgers, caller);
            if l.status != ACCOUNT_LIQUID {
                (self, soft_error(Error::AccountFrozen))
            } else if l.balance < amount {
                (self, soft_error(Error::AccountBalanceInsufficient))
            } else {
                (
                    self.with_ledgers(
                        with_balance(
                            self.ledgers,
                            position(self.ledgers, caller),
                            (l.balance - amount) as u128,
                        ),
                    ),
                    success(Success::AccountDebitSuccess),
                )
            }
        }
    }
}

impl Bank {
    /// Create a new bank; `caller` becomes both owner and manager.
    pub fn new(caller: AccountId, asset_id: u128, maximum_accounts: u16) -> (r: Bank)
        ensures
            r.wf(),
            r@ == (BankView {
                asset_id,
                owner: caller,
                manager: caller,
                maximum_accounts,
                ledgers: Seq::empty(),
                status: BANK_OPEN,
            }),
    {
        Bank {
            asset_id,
            owner: caller,
            manager: caller,
            maximum_accounts,
            ledgers: Vec::new(),
            status: BANK_OPEN,
        }
    }

    /// A bank for asset 0 that admits no account.
    pub fn default(caller: AccountId) -> (r: Bank)
        ensures
            r.wf(),
            r@ == (BankView {
                asset_id: 0,
                owner: caller,
                manager: caller,
                maximum_accounts: 0,
                ledgers: Seq::empty(),
                status: BANK_OPEN,
            }),
    {
        Bank::new(caller, 0, 0)
    }

    /// Setup bank. Only the owner may; it deletes all existing accounts.
    pub fn setup(
        &mut self,
        caller: AccountId,
        asset_id: u128,
        manager: AccountId,
        maximum_accounts: u16,
    ) -> (r: Result<BankingEvent, Error>)
        ensures
            old(self).wf() || caller == old(self).owner ==> final(self).wf(),
            final(self)@ == old(self)@.setup(caller, asset_id, manager, maximum_accounts).0,
            r == Ok::<BankingEvent, Error>(
                event(caller, old(self)@.setup(caller, asset_id, manager, maximum_accounts).1),
            ),
            caller != old(self).owner ==> final(self)@ == old(self)@ && r == Ok::<
                BankingEvent,
                Error,
            >(event(caller, soft_error(Error::BadOrigin))),
            caller == old(self).owner ==> final(self).ledgers@.len() == 0 && final(self).status
                == BANK_OPEN,
    {
        if caller != self.owner {
            return Ok(BankingEvent { operator: caller, status: BankTransactionStatus::EmitError(Error::BadOrigin) });
        }
        self.asset_id = asset_id;
        self.manager = manager;
        self.maximum_accounts = maximum_accounts;
        self.ledgers = Vec::new();
        self.status = BANK_OPEN;
        proof {
            assert(self.ledgers@ =~= Seq::<Ledger>::empty());
        }
        Ok(BankingEvent { operator: caller, status: BankTransactionStatus::EmitSuccess(Success::BankSetupSuccess) })
    }

    /// Get the bank information: asset, owner, manager, maximum accounts, status.
    pub fn get(&self) -> (r: (u128, AccountId, AccountId, u16, u8))
        ensures
            r == (self.asset_id, self.owner, self.manager, self.maximum_accounts, self.status),
    {
        (self.asset_id, self.owner, self.manager, self.maximum_accounts, self.status)
    }

    /// Close the bank. Only the manager may.
    pub fn close(&mut self, caller: AccountId) -> (r: Result<BankingEvent, Error>)
        requires
            old(self).wf(),
        ensures
            final(self).wf(),
            final(self)@ == old(self)@.close(caller).0,
            r == Ok::<BankingEvent, Error>(event(caller, old(self)@.close(caller).1)),
    {
        if caller != self.manager {
            return Ok(BankingEvent { operator: caller, status: BankTransactionStatus::EmitError(Error::BadOrigin) });
        }
        self.status = BANK_CLOSED;
        Ok(BankingEvent { operator: caller, status: BankTransactionStatus::EmitSuccess(Success::BankCloseSuccess) })
    }

    /// Open the bank. Only the manager may.
    pub fn open(&mut self, caller: AccountId) -> (r: Result<BankingEvent, Error>)
        requires
            old(self).wf(),
        ensures
            final(self).wf(),
            final(self)@ == old(self)@.open(caller).0,
            r == Ok::<BankingEvent, Error>(event(caller, old(self)@.open(caller).1)),
    {
        if caller != self.manager {
            return Ok(BankingEvent { operator: caller, status: BankTransactionStatus::EmitError(Error::BadOrigin) });
        }
        self.status = BANK_OPEN;
        Ok(BankingEvent { operator: caller, status: BankTransactionStatus::EmitSuccess(Success::BankOpenSuccess) })
    }

    /// Get the record of an account; a missing account is a hard error.
    pub fn get_balance(&self, account: AccountId) -> (r: Result<Ledger, Error>)
        requires
            self.wf(),
        ensures
            holds_account(self.ledgers@, account) ==> r == Ok::<Ledger, Error>(
                record_of(self.ledgers@, account),
            ),
            !holds_account(self.ledgers@, account) ==> r == Err::<Ledger, Error>(
                Error::AccountNotFound,
            ),
    {
        match self.find(&account) {
            Some(i) => Ok(self.ledgers[i]),
            None => Err(Error::AccountNotFound),
        }
    }

    /// The bank's model is well formed.
    pub open spec fn wf(&self) -> bool {
        self@.wf()
    }

    /// Index of the record of `account`, by a linear scan.
    fn find(&self, account: &AccountId) -> (r: Option<usize>)
        requires
            accounts_unique(self.ledgers@),
        ensures
            match r {
                Some(i) => holds_account(self.ledgers@, *account) && i == position(
                    self.ledgers@,
                    *account,
                ),
                None => !holds_account(self.ledgers@, *account),
            },
    {
        let mut i: usize = 0;
        while i < self.ledgers.len()
            invariant
                0 <= i <= self.ledgers@.len(),
                accounts_unique(self.ledgers@),
                forall|j: int| 0 <= j < i ==> self.ledgers@[j].account != *account,
            decreases self.ledgers@.len() - i,
        {
            if self.ledgers[i].account == *account {
                proof {
                    lemma_position(self.ledgers@, *account, i as int);
                }
                return Some(i);
            }
            i = i + 1;
        }
        None
    }

    /// Credit to the account (add). This is done by the manager only.
    pub fn credit(&mut self, caller: AccountId, account: AccountId, amount: u128) -> (r: Result<
        BankingEvent,
        Error,
    >)
        requires
            old(self).wf(),
        ensures
            final(self).wf(),
            final(self)@ == old(self)@.credit(caller, account, amount).0,
            r == Ok::<BankingEvent, Error>(
                event(caller, old(self)@.credit(caller, account, amount).1),
            ),
    {
        if caller != self.manager {
            return Ok(BankingEvent { operator: caller, status: BankTransactionStatus::EmitError(Error::BadOrigin) });
        }
        if self.status != BANK_OPEN {
            return Ok(BankingEvent { operator: caller, status: BankTransactionStatus::EmitError(Error::BankIsClose) });
        }
        match self.find(&account) {
            None => Ok(BankingEvent { operator: caller, status: BankTransactionStatus::EmitError(Error::AccountNotFound) }),
            Some(i) => {
                if self.ledgers[i].status != ACCOUNT_LIQUID {
                    return Ok(BankingEvent { operator: caller, status: BankTransactionStatus::EmitError(Error::AccountFrozen) });
                }
                match self.ledgers[i].balance.checked_add(amount) {
                    None => Ok(BankingEvent { operator: caller, status: BankTransactionStatus::EmitError(Error::AccountBalanceOverflow) }),
                    Some(b) => {
                        self.ledgers[i].balance = b;
                        assert(self.ledgers@ =~= with_balance(old(self).ledgers@, i as int, b));
                        Ok(BankingEvent { operator: caller, status: BankTransactionStatus::EmitSuccess(Success::AccountCreditSuccess) })
                    },
                }
            },
        }
    }
    /// Deposit to the bank. Only the manager may deposit; an overflowing balance
    /// fails the whole call and leaves the bank unchanged.
    pub fn deposit(&mut self, caller: AccountId, account: AccountId, amount: u128) -> (r: Result<
        BankingEvent,
        Error,
    >)
        requires
            old(self).wf(),
        ensures
            final(self).wf(),
            match old(self)@.deposit(caller, account, amount) {
                Ok((v, status)) => final(self)@ == v && r == Ok::<BankingEvent, Error>(
                    event(caller, status),
                ),
                Err(e) => final(self)@ == old(self)@ && r == Err::<BankingEvent, Error>(e),
            },
    {
        if caller != self.manager {
            return Ok(BankingEvent { operator: caller, status: BankTransactionStatus::EmitError(Error::BadOrigin) });
        }
        if self.status != BANK_OPEN {
            return Ok(BankingEvent { operator: caller, status: BankTransactionStatus::EmitError(Error::BankIsClose) });
        }
        match self.find(&account) {
            Some(i) => {
                match self.ledgers[i].balance.checked_add(amount) {
                    None => {
                        return Err(Error::AccountBalanceOverflow);
                    },
                    Some(b) => {
                        self.ledgers[i].balance = b;
                        assert(self.ledgers@ =~= with_balance(old(self).ledgers@, i as int, b));
                    },
                }
            },
            None => {
                if self.ledgers.len() >= self.maximum_accounts as usize {
                    return Ok(BankingEvent { operator: caller, status: BankTransactionStatus::EmitError(Error::BankAccountMaxOut) });
                }
                self.ledgers.push(Ledger { account, balance: amount, status: ACCOUNT_LIQUID });
                proof {
                    let s = self.ledgers@;
                    assert forall|x: int, y: int|
                        0 <= x < s.len() && 0 <= y < s.len() && s[x].account == s[y].account
                        implies x == y by {
                        if x == s.len() - 1 && y < s.len() - 1 {
                            assert(old(self).ledgers@[y].account == account);
                        }
                        if y == s.len() - 1 && x < s.len() - 1 {
                            assert(old(self).ledgers@[x].account == account);
                        }
                    }
                }
            },
        }
        Ok(BankingEvent { operator: caller, status: BankTransactionStatus::EmitSuccess(Success::AccountDepositSuccess) })
    }

    /// Withdraw from the bank, first half. Only the manager may withdraw. When the
    /// balance suffices it is debited at once, and the returned transfer must be
    /// performed by the host and its outcome passed to `complete_withdraw`.
    pub fn withdraw(&mut self, caller: AccountId, account: AccountId, amount: u128) -> (r: Withdrawal)
        requires
            old(self).wf(),
        ensures
            final(self).wf(),
            final(self)@ == old(self)@.withdraw(caller, account, amount).0,
            r == old(self)@.withdraw(caller, account, amount).1,
    {
        if caller != self.manager {
            return Withdrawal::Reported(BankingEvent { operator: caller, status: BankTransactionStatus::EmitError(Error::BadOrigin) });
        }
        if self.status != BANK_OPEN {
            return Withdrawal::Reported(BankingEvent { operator: caller, status: BankTransactionStatus::EmitError(Error::BankIsClose) });
        }
        match self.find(&account) {
            None => Withdrawal::Reported(BankingEvent { operator: caller, status: BankTransactionStatus::EmitError(Error::AccountNotFound) }),
            Some(i) => {
                if self.ledgers[i].balance < amount {
                    return Withdrawal::Reported(BankingEvent { operator: caller, status: BankTransactionStatus::EmitError(Error::AccountBalanceInsufficient) });
                }
                let b = self.ledgers[i].balance - amount;
                self.ledgers[i].balance = b;
                assert(self.ledgers@ =~= with_balance(old(self).ledgers@, i as int, b));
                Withdrawal::Transfer(AssetTransfer { asset_id: self.asset_id, target: account, amount })
            },
        }
    }

    /// Withdraw from the bank, second half: the outcome of the host's transfer
    /// decides between the success event and a hard runtime failure.
    pub fn complete_withdraw(caller: AccountId, transfer: Result<(), RuntimeError>) -> (r: Result<
        BankingEvent,
        ContractError,
    >)
        ensures
            match transfer {
                Ok(()) => r == Ok::<BankingEvent, ContractError>(
                    event(caller, success(Success::AccountWithdrawalSuccess)),
                ),
                Err(e) => r == Err::<BankingEvent, ContractError>(ContractError::Runtime(e)),
            },
    {
        match transfer {
            Ok(()) => Ok(BankingEvent { operator: caller, status: BankTransactionStatus::EmitSuccess(Success::AccountWithdrawalSuccess) }),
            Err(e) => Err(ContractError::from(e)),
        }
    }

    /// Debit to the account (deduct). Any depositor may debit its own account.
    pub fn debit(&mut self, caller: AccountId, amount: u128) -> (r: Result<BankingEvent, Error>)
        requires
            old(self).wf(),
        ensures
            final(self).wf(),
            final(self)@ == old(self)@.debit(caller, amount).0,
            r == Ok::<BankingEvent, Error>(event(caller, old(self)@.debit(caller, amount).1)),
    {
        if self.status != BANK_OPEN {
            return Ok(BankingEvent { operator: caller, status: BankTransactionStatus::EmitError(Error::BankIsClose) });
        }
        match self.find(&caller) {
            None => Ok(BankingEvent { operator: caller, status: BankTransactionStatus::EmitError(Error::AccountNotFound) }),
            Some(i) => {
                if self.ledgers[i].status != ACCOUNT_LIQUID {
                    return Ok(BankingEvent { operator: caller, status: BankTransactionStatus::EmitError(Error::AccountFrozen) });
                }
                if self.ledgers[i].balance < amount {
                    return Ok(BankingEvent { operator: caller, status: BankTransactionStatus::EmitError(Error::AccountBalanceInsufficient) });
                }
                let b = self.ledgers[i].balance - amount;
                self.ledgers[i].balance = b;
                assert(self.ledgers@ =~= with_balance(old(self).ledgers@, i as int, b));
                Ok(BankingEvent { operator: caller, status: BankTransactionStatus::EmitSuccess(Success::AccountDebitSuccess) })
            },
        }
    }
}

} // verus!
