use vstd::prelude::*;

use crate::bank::{
    accounts_unique, holds_account, lemma_position, position, record_of, soft_error,
    with_balance, AccountId, BankTransactionStatus, BankView, Ledger, BANK_OPEN,
};
use crate::errors::Error;

verus! {

/// Sum of a sequence of amounts.
pub open spec fn total(amounts: Seq<u128>) -> int
    decreases amounts.len(),
{
    if amounts.len() == 0 {
        0
    } else {
        total(amounts.drop_last()) + amounts.last()
    }
}

/// Balance of `account` in `v`, zero for an account without a record.
pub open spec fn balance_in(v: BankView, account: AccountId) -> int {
    if holds_account(v.ledgers, account) {
        record_of(v.ledgers, account).balance as int
    } else {
        0
    }
}

/// The bank after `caller` deposits each of `amounts` to `account` in turn; a
/// deposit that fails hard leaves the bank as it was before it.
pub open spec fn deposit_all(
    v: BankView,
    caller: AccountId,
    account: AccountId,
    amounts: Seq<u128>,
) -> BankView
    decreases amounts.len(),
{
    if amounts.len() == 0 {
        v
    } else {
        let prev = deposit_all(v, caller, account, amounts.drop_last());
        match prev.deposit(caller, account, amounts.last()) {
            Ok((w, _)) => w,
            Err(_) => prev,
        }
    }
}

/// Changing one balance keeps the accounts, so it keeps their positions.
proof fn lemma_with_balance(s: Seq<Ledger>, a: AccountId, b: u128)
    requires
        accounts_unique(s),
        holds_account(s, a),
    ensures
        accounts_unique(with_balance(s, position(s, a), b)),
        holds_account(with_balance(s, position(s, a), b), a),
        record_of(with_balance(s, position(s, a), b), a) == (Ledger { balance: b, ..record_of(s, a) }),
{
    let p = position(s, a);
    let t = with_balance(s, p, b);
    assert(forall|i: int| 0 <= i < s.len() ==> t[i].account == s[i].account);
    lemma_position(t, a, p);
}

/// Appending the record of a new account keeps accounts unique and puts it last.
proof fn lemma_push_new(s: Seq<Ledger>, l: Ledger)
    requires
        accounts_unique(s),
        !holds_account(s, l.account),
    ensures
        accounts_unique(s.push(l)),
        holds_account(s.push(l), l.account),
        record_of(s.push(l), l.account) == l,
{
    let t = s.push(l);
    assert forall|x: int, y: int|
        0 <= x < t.len() && 0 <= y < t.len() && t[x].account == t[y].account implies x == y by {
        if x < s.len() && y == s.len() {
            assert(s[x].account == l.account);
        }
        if y < s.len() && x == s.len() {
            assert(s[y].account == l.account);
        }
    }
    lemma_position(t, l.account, s.len() as int);
}

/// A deposit keeps the bank well formed and changes neither its roles, its
/// bound nor its status.
pub proof fn lemma_deposit_keeps_shape(
    v: BankView,
    caller: AccountId,
    account: AccountId,
    amount: u128,
)
    requires
        v.wf(),
    ensures
        v.deposit(caller, account, amount) matches Ok((w, _)) ==> {
            &&& w.wf()
            &&& w.owner == v.owner
            &&& w.manager == v.manager
            &&& w.maximum_accounts == v.maximum_accounts
            &&& w.status == v.status
        },
{
    if caller == v.manager && v.is_open() {
        if holds_account(v.ledgers, account) {
            let l = record_of(v.ledgers, account);
            if l.balance + amount <= u128::MAX {
                lemma_with_balance(v.ledgers, account, (l.balance + amount) as u128);
            }
        } else if v.ledgers.len() < v.maximum_accounts {
            lemma_push_new(
                v.ledgers,
                Ledger { account, balance: amount, status: crate::bank::ACCOUNT_LIQUID },
            );
        }
    }
}

/// Deposits add up: when the manager of an open, well-formed bank makes a run
/// of deposits to one account that either holds a record or still fits under
/// the bound, and the starting balance plus the sum of the amounts fits in
/// 128 bits, the account ends with exactly that balance.
pub proof fn lemma_deposits_add_up(
    v: BankView,
    caller: AccountId,
    account: AccountId,
    amounts: Seq<u128>,
)
    requires
        v.wf(),
        caller == v.manager,
        v.is_open(),
        holds_account(v.ledgers, account) || v.ledgers.len() < v.maximum_accounts,
        balance_in(v, account) + total(amounts) <= u128::MAX,
    ensures
        balance_in(deposit_all(v, caller, account, amounts), account) == balance_in(v, account)
            + total(amounts),
        amounts.len() > 0 ==> holds_account(deposit_all(v, caller, account, amounts).ledgers, account),
        deposit_all(v, caller, account, amounts).wf(),
        deposit_all(v, caller, account, amounts).manager == v.manager,
        deposit_all(v, caller, account, amounts).status == v.status,
        deposit_all(v, caller, account, amounts).maximum_accounts == v.maximum_accounts,
    decreases amounts.len(),
{
    if amounts.len() > 0 {
        let rest = amounts.drop_last();
        let a = amounts.last();
        lemma_total_nonneg(rest);
        lemma_deposits_add_up(v, caller, account, rest);
        let prev = deposit_all(v, caller, account, rest);
        lemma_deposit_keeps_shape(prev, caller, account, a);
        if holds_account(prev.ledgers, account) {
            let l = record_of(prev.ledgers, account);
            lemma_with_balance(prev.ledgers, account, (l.balance + a) as u128);
        } else {
            assert(rest.len() == 0);
            lemma_push_new(
                prev.ledgers,
                Ledger { account, balance: a, status: crate::bank::ACCOUNT_LIQUID },
            );
        }
    }
}

proof fn lemma_total_nonneg(amounts: Seq<u128>)
    ensures
        total(amounts) >= 0,
    decreases amounts.len(),
{
    if amounts.len() > 0 {
        lemma_total_nonneg(amounts.drop_last());
    }
}

/// A deposit to an existing account that would overflow its balance fails
/// hard with `AccountBalanceOverflow`, so the balance stays as it was.
pub proof fn lemma_overflowing_deposit_fails(
    v: BankView,
    caller: AccountId,
    account: AccountId,
    amount: u128,
)
    requires
        v.wf(),
        caller == v.manager,
        v.is_open(),
        holds_account(v.ledgers, account),
        record_of(v.ledgers, account).balance + amount > u128::MAX,
    ensures
        v.deposit(caller, account, amount) == Err::<(BankView, BankTransactionStatus), Error>(
            Error::AccountBalanceOverflow,
        ),
{
}

/// The ledger never outgrows its bound: every deposit keeps the number of
/// records at most `maximum_accounts`, and once the bound is reached a new
/// account is refused with `BankAccountMaxOut` and not inserted.
pub proof fn lemma_bound_is_kept(
    v: BankView,
    caller: AccountId,
    account: AccountId,
    amount: u128,
)
    requires
        v.wf(),
    ensures
        v.deposit(caller, account, amount) matches Ok((w, _)) ==> w.ledgers.len()
            <= w.maximum_accounts,
        caller == v.manager && v.is_open() && !holds_account(v.ledgers, account)
            && v.ledgers.len() == v.maximum_accounts ==> v.deposit(caller, account, amount) == Ok::<
            (BankView, BankTransactionStatus),
            Error,
        >((v, soft_error(Error::BankAccountMaxOut))),
{
    lemma_deposit_keeps_shape(v, caller, account, amount);
}

/// Closing gates deposits: after the manager closes the bank a deposit is
/// refused with `BankIsClose` and leaves the bank unchanged, and reopening an
/// open bank that was closed restores it exactly, so deposits behave as before.
pub proof fn lemma_close_then_open(
    v: BankView,
    caller: AccountId,
    account: AccountId,
    amount: u128,
)
    requires
        v.wf(),
        caller == v.manager,
    ensures
        v.close(caller).0.deposit(caller, account, amount) == Ok::<
            (BankView, BankTransactionStatus),
            Error,
        >((v.close(caller).0, soft_error(Error::BankIsClose))),
        v.close(caller).0.open(caller).0.is_open(),
        v.status == BANK_OPEN ==> v.close(caller).0.open(caller).0 == v,
        v.status == BANK_OPEN ==> v.close(caller).0.open(caller).0.deposit(caller, account, amount)
            == v.deposit(caller, account, amount),
{
}

} // verus!
