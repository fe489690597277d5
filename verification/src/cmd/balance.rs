//! Reporting the balances of accounts.

use crate::hnt::{amount_text, Hnt};
use vstd::prelude::*;

verus! {

/// What the ledger says of an account.
#[derive(Clone, Debug, PartialEq, Eq)]
pub struct Account {
    /// The balance, in bones.
    pub balance: u64,
    /// The balance of data credits.
    pub dc_balance: u64,
    /// The balance of security tokens.
    pub sec_balance: u64,
}

/// The answer to asking the ledger for one account.
#[derive(Clone, Debug, PartialEq, Eq)]
pub enum Lookup {
    /// The account was found.
    Found(Account),
    /// The ledger could not be asked or did not know; the reason as text.
    Failed(String),
}

/// The balances of one account.
#[derive(Clone, Debug, PartialEq, Eq)]
pub struct Balance {
    pub address: String,
    /// The balance in whole units, with eight decimals.
    pub balance: String,
    pub dc_balance: u64,
    pub sec_balance: u64,
}

/// One line of the table of balances.
#[derive(Clone, Debug, PartialEq, Eq)]
pub enum Row {
    /// The balances of an account.
    Account(Balance),
    /// An account that could not be looked up, with the reason.
    Failure { address: String, reason: String },
}

/// The mathematical value of the balances of one account.
pub struct BalanceView {
    pub address: Seq<char>,
    pub balance: Seq<char>,
    pub dc_balance: u64,
    pub sec_balance: u64,
}

impl View for Balance {
    type V = BalanceView;

    open spec fn view(&self) -> BalanceView {
        BalanceView {
            address: self.address@,
            balance: self.balance@,
            dc_balance: self.dc_balance,
            sec_balance: self.sec_balance,
        }
    }
}

/// The balances reported for an account at an address.
pub open spec fn balance_of(address: Seq<char>, account: Account) -> BalanceView {
    BalanceView {
        address,
        balance: amount_text(account.balance),
        dc_balance: account.dc_balance,
        sec_balance: account.sec_balance,
    }
}

/// The balances of the accounts that were found, in order.
pub open spec fn found_balances(results: Seq<(String, Lookup)>) -> Seq<BalanceView>
    decreases results.len(),
{
    if results.len() == 0 {
        Seq::empty()
    } else {
        match results.last().1 {
            Lookup::Found(account) => found_balances(results.drop_last()).push(
                balance_of(results.last().0@, account),
            ),
            Lookup::Failed(_) => found_balances(results.drop_last()),
        }
    }
}

/// The views of a list of balances, in order.
pub open spec fn balances_view(balances: Seq<Balance>) -> Seq<BalanceView> {
    Seq::new(balances.len(), |i: int| balances[i]@)
}

/// The line of the table for one answer.
pub open spec fn row_matches(row: Row, address: Seq<char>, lookup: Lookup) -> bool {
    match lookup {
        Lookup::Found(account) => row matches Row::Account(b) && b@ == balance_of(
            address,
            account,
        ),
        Lookup::Failed(why) => row matches Row::Failure { address: a, reason } && a@ == address
            && reason@ == why@,
    }
}

/// The balances of one account that was found.
fn balance_row(address: &String, account: &Account) -> (r: Balance)
    ensures
        r@ == balance_of(address@, *account),
{
    Balance {
        address: address.clone(),
        balance: Hnt::from_bones(account.balance).to_text(),
        dc_balance: account.dc_balance,
        sec_balance: account.sec_balance,
    }
}

/// The table of balances: one line for each address asked for, in order,
/// with the balances where the account was found and the reason where it
/// was not.
pub fn table_rows(results: &Vec<(String, Lookup)>) -> (r: Vec<Row>)
    ensures
        r@.len() == results@.len(),
        forall|i: int|
            0 <= i < results@.len() ==> row_matches(
                #[trigger] r@[i],
                results@[i].0@,
                results@[i].1,
            ),
{
    let mut rows: Vec<Row> = Vec::new();
    let mut i: usize = 0;
    while i < results.len()
        invariant
            i <= results@.len(),
            rows@.len() == i,
            forall|j: int|
                0 <= j < i ==> row_matches(#[trigger] rows@[j], results@[j].0@, results@[j].1),
        decreases results@.len() - i,
    {
        let row = match &results[i].1 {
            Lookup::Found(account) => Row::Account(balance_row(&results[i].0, account)),
            Lookup::Failed(why) => Row::Failure {
                address: results[i].0.clone(),
                reason: why.clone(),
            },
        };
        rows.push(row);
        i += 1;
    }
    rows
}

/// The balances for the machine-readable report: those of the accounts
/// that were found, in order. Accounts that were not found are left out.
pub fn json_rows(results: &Vec<(String, Lookup)>) -> (r: Vec<Balance>)
    ensures
        balances_view(r@) == found_balances(results@),
{
    let mut rows: Vec<Balance> = Vec::new();
    let mut i: usize = 0;
    assert(results@.take(0) =~= Seq::<(String, Lookup)>::empty());
    assert(balances_view(rows@) =~= Seq::<BalanceView>::empty());
    while i < results.len()
        invariant
            i <= results@.len(),
            balances_view(rows@) == found_balances(results@.take(i as int)),
        decreases results@.len() - i,
    {
        let ghost before = balances_view(rows@);
        let ghost head = results@.take(i + 1);
        assert(head.drop_last() =~= results@.take(i as int));
        assert(head.last() == results@[i as int]);
        match &results[i].1 {
            Lookup::Found(account) => {
                let row = balance_row(&results[i].0, account);
                rows.push(row);
                assert(balances_view(rows@) =~= before.push(row@));
            },
            Lookup::Failed(_) => {},
        }
        i += 1;
    }
    assert(results@.take(i as int) =~= results@);
    rows
}

} // verus!
