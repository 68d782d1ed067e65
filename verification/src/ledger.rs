//! The balance ledger: an amount per account, moved between accounts without
//! ever changing the sum.

use vstd::prelude::*;
use crate::amounts::{
    amount_at, check_optional, total, total_after_insert, total_of_empty, two_amounts_within_total,
    Amounts,
};
use crate::error::TokenError;
use crate::table::{distinct_keys, entries_map, same_bytes, AmountTable, Entry};

verus! {

/// The balances after `amount` has moved from `from` to `to`. Moving an amount
/// from an account to itself changes nothing.
pub open spec fn moved(m: Amounts, from: Seq<u8>, to: Seq<u8>, amount: u64) -> Amounts {
    if from == to {
        m
    } else {
        m.insert(from, (amount_at(m, from) - amount) as u64).insert(
            to,
            (amount_at(m, to) + amount) as u64,
        )
    }
}

/// Moving an amount that the source holds keeps the sum of all balances.
pub proof fn moved_keeps_total(m: Amounts, from: Seq<u8>, to: Seq<u8>, amount: u64)
    requires
        m.dom().finite(),
        total(m) <= u64::MAX,
        amount <= amount_at(m, from),
    ensures
        moved(m, from, to, amount).dom().finite(),
        total(moved(m, from, to, amount)) == total(m),
{
    if from != to {
        two_amounts_within_total(m, from, to);
        let debited = m.insert(from, (amount_at(m, from) - amount) as u64);
        total_after_insert(m, from, (amount_at(m, from) - amount) as u64);
        total_after_insert(debited, to, (amount_at(m, to) + amount) as u64);
    }
}

/// Balances by account. An account without an entry holds zero.
pub struct Ledger {
    table: AmountTable,
}

impl View for Ledger {
    type V = Amounts;

    closed spec fn view(&self) -> Amounts {
        self.table@
    }
}

impl Ledger {
    /// The ledger's invariant: no account has two entries, and the sum of all
    /// balances fits in 64 bits.
    pub closed spec fn wf(&self) -> bool {
        &&& self.table.wf()
        &&& total(self.table@) <= u64::MAX
    }

    /// The sum of all balances.
    pub open spec fn supply(&self) -> nat {
        total(self@)
    }

    /// What the invariant gives to callers: a finite set of accounts and a sum
    /// that fits in 64 bits.
    pub proof fn wf_bounds(&self)
        requires
            self.wf(),
        ensures
            self@.dom().finite(),
            self.supply() <= u64::MAX,
    {
        self.table.finite();
    }

    /// A ledger on which every account holds zero.
    pub fn new() -> (ledger: Self)
        ensures
            ledger.wf(),
            ledger@ == Map::<Seq<u8>, u64>::empty(),
            ledger.supply() == 0,
    {
        proof {
            total_of_empty();
        }
        Ledger { table: AmountTable::new() }
    }

    /// The ledger that a list of entries stands for, or `None` where the sum of
    /// its balances does not fit in 64 bits.
    pub fn from_entries(entries: &Vec<Entry>) -> (restored: Option<Self>)
        ensures
            match restored {
                Some(ledger) => ledger.wf() && ledger@ == entries_map(entries@),
                None => total(entries_map(entries@)) > u64::MAX,
            },
    {
        let table = AmountTable::from_entries(entries);
        match table.sum() {
            Some(_) => Some(Ledger { table }),
            None => None,
        }
    }

    /// The entries of the ledger, each account once.
    pub fn to_entries(&self) -> (entries: Vec<Entry>)
        requires
            self.wf(),
        ensures
            distinct_keys(entries@),
            entries_map(entries@) == self@,
    {
        self.table.to_entries()
    }

    /// The sum of all balances.
    pub fn total_supply(&self) -> (sum: u64)
        requires
            self.wf(),
        ensures
            sum == self.supply(),
    {
        check_optional(self.table.sum())
    }

    /// The balance of `account`: zero where it has no entry.
    pub fn balance_of(&self, account: &Vec<u8>) -> (balance: u64)
        requires
            self.wf(),
        ensures
            balance == amount_at(self@, account@),
    {
        check_optional(self.table.get(account))
    }

    /// Sets the balance of `account` to `amount`. This is the mint at genesis:
    /// the only operation that changes the sum of all balances.
    pub(crate) fn credit(&mut self, account: Vec<u8>, amount: u64)
        requires
            old(self).wf(),
            old(self).supply() - amount_at(old(self)@, account@) + amount <= u64::MAX,
        ensures
            final(self).wf(),
            final(self)@ == old(self)@.insert(account@, amount),
            final(self).supply() == old(self).supply() - amount_at(old(self)@, account@) + amount,
    {
        proof {
            self.table.finite();
            total_after_insert(self.table@, account@, amount);
        }
        self.table.insert(account, amount);
    }

    /// Moves `amount` from `from` to `to`. Where `from` holds less than `amount`
    /// the transfer is refused and the ledger stays as it was; otherwise the two
    /// balances change together, and the sum of all balances stays the same.
    pub fn transfer(&mut self, from: Vec<u8>, to: Vec<u8>, amount: u64) -> (outcome: Result<
        (),
        TokenError,
    >)
        requires
            old(self).wf(),
        ensures
            final(self).wf(),
            final(self).supply() == old(self).supply(),
            amount > amount_at(old(self)@, from@) ==> outcome == Err::<(), TokenError>(
                TokenError::InsufficientBalance,
            ) && *final(self) == *old(self),
            amount <= amount_at(old(self)@, from@) ==> outcome == Ok::<(), TokenError>(())
                && final(self)@ == moved(old(self)@, from@, to@, amount),
    {
        let from_balance: u64 = self.balance_of(&from);
        if amount > from_balance {
            return Err(TokenError::InsufficientBalance);
        }
        if same_bytes(&from, &to) {
            return Ok(());
        }
        let to_balance: u64 = self.balance_of(&to);
        proof {
            self.table.finite();
            two_amounts_within_total(self@, from@, to@);
            moved_keeps_total(self@, from@, to@, amount);
        }
        self.table.insert(from, from_balance - amount);
        self.table.insert(to, to_balance + amount);
        Ok(())
    }
}

} // verus!
