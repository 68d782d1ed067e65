//! A token in two phases: it is made blank, and the first `init` mints the
//! whole supply to its caller. It has direct transfers and no allowances.

use vstd::prelude::*;
use crate::account::{account_bytes, account_id};
use crate::amounts::{amount_within_total, total, total_of_empty};
use crate::ledger::Ledger;
use crate::state::TokenState;
use crate::table::{distinct_keys, entries_map, Entry};

verus! {

/// A token that is blank until its first `init`.
pub struct UnlimitedAllowanceToken {
    balances: Ledger,
    creator: Vec<u8>,
    name: String,
    max_supply: u64,
    initialized: bool,
}

impl View for UnlimitedAllowanceToken {
    type V = TokenState;

    closed spec fn view(&self) -> TokenState {
        TokenState {
            creator: self.creator@,
            name: self.name@,
            max_supply: self.max_supply,
            initialized: self.initialized,
            balances: self.balances@,
            allowances: Map::empty(),
        }
    }
}

impl Default for UnlimitedAllowanceToken {
    /// The blank token: no creator, no name, no supply, not initialized.
    fn default() -> (token: Self)
        ensures
            token.wf(),
            token@ == TokenState::blank(),
    {
        proof {
            total_of_empty();
        }
        UnlimitedAllowanceToken {
            balances: Ledger::new(),
            creator: Vec::new(),
            name: String::new(),
            max_supply: 0,
            initialized: false,
        }
    }
}

impl UnlimitedAllowanceToken {
    /// The token's invariant: its ledger is well formed and its state is valid.
    pub closed spec fn wf(&self) -> bool {
        &&& self.balances.wf()
        &&& self@.valid()
    }

    /// The balances of a well-formed token sum to its supply, which is zero
    /// before genesis; the token never holds an allowance.
    pub proof fn wf_conserves_supply(&self)
        requires
            self.wf(),
        ensures
            self@.valid(),
            total(self@.balances) == self@.max_supply,
            self@.allowances == Map::<Seq<u8>, u64>::empty(),
    {
    }

    /// Rebuilds a token from a snapshot of its state. Returns `None` where the
    /// balances of the snapshot do not sum to `max_supply`, or where the
    /// snapshot is from before genesis and yet has a supply.
    pub fn restore(
        creator: Vec<u8>,
        name: String,
        max_supply: u64,
        initialized: bool,
        balances: &Vec<Entry>,
    ) -> (restored: Option<Self>)
        ensures
            restored is Some <==> total(entries_map(balances@)) == max_supply && (initialized
                || max_supply == 0),
            match restored {
                Some(token) => token.wf() && token@ == (TokenState {
                    creator: creator@,
                    name: name@,
                    max_supply,
                    initialized,
                    balances: entries_map(balances@),
                    allowances: Map::empty(),
                }),
                None => true,
            },
    {
        if !initialized && max_supply != 0 {
            return None;
        }
        match Ledger::from_entries(balances) {
            Some(ledger) => {
                proof {
                    ledger.wf_bounds();
                }
                if ledger.total_supply() == max_supply {
                    Some(
                        UnlimitedAllowanceToken {
                            balances: ledger,
                            creator,
                            name,
                            max_supply,
                            initialized,
                        },
                    )
                } else {
                    None
                }
            },
            None => None,
        }
    }

    /// The balances, one entry for each account that has one.
    pub fn balance_entries(&self) -> (entries: Vec<Entry>)
        requires
            self.wf(),
        ensures
            distinct_keys(entries@),
            entries_map(entries@) == self@.balances,
    {
        self.balances.to_entries()
    }

    /// The account that received the supply; empty before genesis.
    pub fn creator(&self) -> (creator: &Vec<u8>)
        ensures
            creator@ == self@.creator,
    {
        &self.creator
    }

    /// The token's name; empty before genesis.
    pub fn name(&self) -> (name: &String)
        ensures
            name@ == self@.name,
    {
        &self.name
    }

    /// The supply; zero before genesis, and fixed from then on.
    pub fn max_supply(&self) -> (supply: u64)
        ensures
            supply == self@.max_supply,
    {
        self.max_supply
    }

    /// Whether genesis has happened.
    pub fn initialized(&self) -> (initialized: bool)
        ensures
            initialized == self@.initialized,
    {
        self.initialized
    }

    /// Genesis. The first call makes `caller` the creator, sets the name and
    /// the supply, and mints the whole supply to `caller`. Any later call
    /// changes nothing, whatever its arguments.
    pub fn init(&mut self, caller: Vec<u8>, name: String, max_supply: u64)
        requires
            old(self).wf(),
        ensures
            final(self).wf(),
            final(self)@ == old(self)@.after_init(caller@, name@, max_supply),
            old(self)@.initialized ==> *final(self) == *old(self),
    {
        if !self.initialized {
            proof {
                self.balances.wf_bounds();
                amount_within_total(self.balances@, caller@);
            }
            self.balances.credit(caller.clone(), max_supply);
            self.creator = caller;
            self.name = name;
            self.max_supply = max_supply;
            self.initialized = true;
            proof {
                self.balances.wf_bounds();
            }
        }
    }

    /// The balance of `owner`: zero for an account that never received anything.
    pub fn get_balance_of(&self, owner: String) -> (balance: u64)
        requires
            self.wf(),
        ensures
            balance == self@.balance(account_id(owner@)),
    {
        let owner_id = account_bytes(&owner);
        self.balances.balance_of(&owner_id)
    }

    /// Moves `amount` from `caller` to `to`. Returns `false`, and changes
    /// nothing, where `caller` holds less than `amount`.
    pub fn transfer(&mut self, caller: Vec<u8>, to: String, amount: u64) -> (done: bool)
        requires
            old(self).wf(),
        ensures
            final(self).wf(),
            done == old(self)@.transfer_ok(caller@, amount),
            final(self)@ == old(self)@.after_transfer(caller@, account_id(to@), amount),
            !done ==> *final(self) == *old(self),
    {
        let to_id = account_bytes(&to);
        proof {
            self.balances.wf_bounds();
        }
        let outcome = self.balances.transfer(caller, to_id, amount);
        proof {
            self.balances.wf_bounds();
        }
        outcome.is_ok()
    }
}

} // verus!
