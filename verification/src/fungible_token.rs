//! A token with a fixed supply, minted to its creator when the token is made,
//! with direct transfers and delegated spending.

use vstd::prelude::*;
use crate::account::{account_bytes, account_id};
use crate::allowance::AllowanceRegistry;
use crate::amounts::total;
use crate::ledger::Ledger;
use crate::state::TokenState;
use crate::table::{distinct_keys, entries_map, Entry};

verus! {

/// The supply of every `FungibleToken`.
pub const FUNGIBLE_SUPPLY: u64 = 1_000_000_000;

/// The name of every `FungibleToken`.
pub open spec fn fungible_name() -> Seq<char> {
    "FungToken"@
}

/// A token whose whole supply went to its creator when it was made.
pub struct FungibleToken {
    balances: Ledger,
    allowances: AllowanceRegistry,
    creator: Vec<u8>,
    name: String,
    max_supply: u64,
}

impl View for FungibleToken {
    type V = TokenState;

    closed spec fn view(&self) -> TokenState {
        TokenState {
            creator: self.creator@,
            name: self.name@,
            max_supply: self.max_supply,
            initialized: true,
            balances: self.balances@,
            allowances: self.allowances@,
        }
    }
}

impl FungibleToken {
    /// The token's invariant: its parts are well formed and its state is valid.
    pub closed spec fn wf(&self) -> bool {
        &&& self.balances.wf()
        &&& self.allowances.wf()
        &&& self@.valid()
    }

    /// A well-formed token is past genesis, and its balances sum to its supply.
    pub proof fn wf_conserves_supply(&self)
        requires
            self.wf(),
        ensures
            self@.valid(),
            self@.initialized,
            total(self@.balances) == self@.max_supply,
    {
    }

    /// Makes the token: `creator` receives the whole supply, and no allowance
    /// is granted.
    pub fn new(creator: Vec<u8>) -> (token: Self)
        ensures
            token.wf(),
            token@ == TokenState::genesis(creator@, fungible_name(), FUNGIBLE_SUPPLY),
    {
        let mut balances = Ledger::new();
        balances.credit(creator.clone(), FUNGIBLE_SUPPLY);
        proof {
            balances.wf_bounds();
        }
        FungibleToken {
            balances,
            allowances: AllowanceRegistry::new(),
            creator,
            name: "FungToken".to_owned(),
            max_supply: FUNGIBLE_SUPPLY,
        }
    }

    /// Rebuilds a token from a snapshot of its state. Returns `None` where the
    /// balances of the snapshot do not sum to `max_supply`.
    pub fn restore(
        creator: Vec<u8>,
        name: String,
        max_supply: u64,
        balances: &Vec<Entry>,
        allowances: &Vec<Entry>,
    ) -> (restored: Option<Self>)
        ensures
            restored is Some <==> total(entries_map(balances@)) == max_supply,
            match restored {
                Some(token) => token.wf() && token@ == (TokenState {
                    creator: creator@,
                    name: name@,
                    max_supply,
                    initialized: true,
                    balances: entries_map(balances@),
                    allowances: entries_map(allowances@),
                }),
                None => true,
            },
    {
        match Ledger::from_entries(balances) {
            Some(ledger) => {
                proof {
                    ledger.wf_bounds();
                }
                if ledger.total_supply() == max_supply {
                    Some(
                        FungibleToken {
                            balances: ledger,
                            allowances: AllowanceRegistry::from_entries(allowances),
                            creator,
                            name,
                            max_supply,
                        },
                    )
                } else {
                    None
                }
            },
            None => None,
        }
    }

    /// The balances, one entry for each account that has one.
    pub fn balance_entries(&self) -> (entries: Vec<Entry>)
        requires
            self.wf(),
        ensures
            distinct_keys(entries@),
            entries_map(entries@) == self@.balances,
    {
        self.balances.to_entries()
    }

    /// The allowances, one entry for each pair that has one, under the pair's key.
    pub fn allowance_entries(&self) -> (entries: Vec<Entry>)
        requires
            self.wf(),
        ensures
            distinct_keys(entries@),
            entries_map(entries@) == self@.allowances,
    {
        self.allowances.to_entries()
    }

    /// The account that received the supply.
    pub fn creator(&self) -> (creator: &Vec<u8>)
        ensures
            creator@ == self@.creator,
    {
        &self.creator
    }

    /// The token's name.
    pub fn name(&self) -> (name: &String)
        ensures
            name@ == self@.name,
    {
        &self.name
    }

    /// The supply, which never changes.
    pub fn max_supply(&self) -> (supply: u64)
        ensures
            supply == self@.max_supply,
    {
        self.max_supply
    }

    /// Lets `spender` draw up to `allowance` from `caller`, in place of any
    /// earlier grant. Always succeeds.
    pub fn set_allowance(&mut self, caller: Vec<u8>, spender: &String, allowance: u64) -> (done: bool)
        requires
            old(self).wf(),
        ensures
            done,
            final(self).wf(),
            final(self)@ == old(self)@.after_set_allowance(caller@, account_id(spender@), allowance),
    {
        let spender_id = account_bytes(spender);
        self.allowances.set_allowance(&caller, &spender_id, allowance);
        true
    }

    /// Moves `amount` from `caller` to `to`. Returns `false`, and changes
    /// nothing, where `caller` holds less than `amount`.
    pub fn transfer(&mut self, caller: Vec<u8>, to: &String, amount: u64) -> (done: bool)
        requires
            old(self).wf(),
        ensures
            final(self).wf(),
            done == old(self)@.transfer_ok(caller@, amount),
            final(self)@ == old(self)@.after_transfer(caller@, account_id(to@), amount),
            !done ==> *final(self) == *old(self),
    {
        let to_id = account_bytes(to);
        proof {
            self.balances.wf_bounds();
        }
        let outcome = self.balances.transfer(caller, to_id, amount);
        proof {
            self.balances.wf_bounds();
        }
        outcome.is_ok()
    }

    /// Moves `amount` from `from` to `to` on behalf of `caller`, against what
    /// `from` lets `caller` draw. Returns `false`, and changes nothing, where
    /// that allowance or the balance of `from` is less than `amount`.
    pub fn transfer_from(&mut self, caller: Vec<u8>, from: &String, to: &String, amount: u64) -> (done:
        bool)
        requires
            old(self).wf(),
        ensures
            final(self).wf(),
            done == (old(self)@.transfer_from_outcome(caller@, account_id(from@), amount) is Ok),
            final(self)@ == old(self)@.after_transfer_from(
                caller@,
                account_id(from@),
                account_id(to@),
                amount,
            ),
            !done ==> *final(self) == *old(self),
    {
        let from_id = account_bytes(from);
        let to_id = account_bytes(to);
        let outcome = self.allowances.consume(&mut self.balances, from_id, &caller, to_id, amount);
        proof {
            self.balances.wf_bounds();
        }
        outcome.is_ok()
    }

    /// What `spender` may still draw from `owner`: zero where nothing was granted.
    pub fn get_allowance_of(&self, owner: &String, spender: &String) -> (allowance: u64)
        requires
            self.wf(),
        ensures
            allowance == self@.allowance(account_id(owner@), account_id(spender@)),
    {
        let owner_id = account_bytes(owner);
        let spender_id = account_bytes(spender);
        self.allowances.allowance_of(&owner_id, &spender_id)
    }

    /// The balance of `owner`: zero for an account that never received anything.
    pub fn get_balance_of(&self, owner: &String) -> (balance: u64)
        requires
            self.wf(),
        ensures
            balance == self@.balance(account_id(owner@)),
    {
        let owner_id = account_bytes(owner);
        self.balances.balance_of(&owner_id)
    }
}

} // verus!
