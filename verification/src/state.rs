//! The token's state as a mathematical value, the effect of each operation on
//! it, and the laws that hold of every run of operations.

use vstd::prelude::*;
use crate::allowance::{consume_outcome, other_pairs_unchanged, pair_key};
use crate::amounts::{
    amount_at, amount_within_total, total, total_after_insert, two_amounts_within_total, Amounts,
};
use crate::error::TokenError;
use crate::ledger::{moved, moved_keeps_total};

verus! {

/// The state of a token.
pub struct TokenState {
    /// The account that received the whole supply at genesis.
    pub creator: Seq<u8>,
    /// The token's name.
    pub name: Seq<char>,
    /// The supply minted at genesis.
    pub max_supply: u64,
    /// Whether genesis has happened.
    pub initialized: bool,
    /// The balance of each account.
    pub balances: Amounts,
    /// The allowance of each pair of owner and spender, under the pair's key.
    pub allowances: Amounts,
}

/// One operation on a token, with the identity of its caller.
pub enum Call {
    /// Genesis, asked for by `caller`.
    Init { caller: Seq<u8>, name: Seq<char>, max_supply: u64 },
    /// `caller` moves `amount` of its own balance to `to`.
    Transfer { caller: Seq<u8>, to: Seq<u8>, amount: u64 },
    /// `caller` lets `spender` draw up to `amount` from it.
    SetAllowance { caller: Seq<u8>, spender: Seq<u8>, amount: u64 },
    /// `caller` moves `amount` from `owner` to `to`, against its allowance.
    TransferFrom { caller: Seq<u8>, owner: Seq<u8>, to: Seq<u8>, amount: u64 },
}

impl TokenState {
    /// The state before genesis: nothing minted, nothing granted.
    pub open spec fn blank() -> TokenState {
        TokenState {
            creator: Seq::empty(),
            name: Seq::empty(),
            max_supply: 0,
            initialized: false,
            balances: Map::empty(),
            allowances: Map::empty(),
        }
    }

    /// The state right after a genesis that mints `max_supply` to `creator`.
    pub open spec fn genesis(creator: Seq<u8>, name: Seq<char>, max_supply: u64) -> TokenState {
        TokenState {
            creator,
            name,
            max_supply,
            initialized: true,
            balances: Map::<Seq<u8>, u64>::empty().insert(creator, max_supply),
            allowances: Map::empty(),
        }
    }

    /// The balance of `account`.
    pub open spec fn balance(self, account: Seq<u8>) -> u64 {
        amount_at(self.balances, account)
    }

    /// What `spender` may still draw from `owner`.
    pub open spec fn allowance(self, owner: Seq<u8>, spender: Seq<u8>) -> u64 {
        amount_at(self.allowances, pair_key(owner, spender))
    }

    /// The state's invariant: finitely many accounts, whose balances sum to the
    /// supply; before genesis the supply is zero.
    pub open spec fn valid(self) -> bool {
        &&& self.balances.dom().finite()
        &&& total(self.balances) == self.max_supply
        &&& !self.initialized ==> self.max_supply == 0
    }

    /// The state after `init`: the first call makes `caller` the creator and
    /// mints the supply to it; any later call changes nothing.
    pub open spec fn after_init(self, caller: Seq<u8>, name: Seq<char>, max_supply: u64) -> TokenState {
        if self.initialized {
            self
        } else {
            TokenState {
                creator: caller,
                name,
                max_supply,
                initialized: true,
                balances: self.balances.insert(caller, max_supply),
                allowances: self.allowances,
            }
        }
    }

    /// Whether `caller` holds enough to transfer `amount`.
    pub open spec fn transfer_ok(self, caller: Seq<u8>, amount: u64) -> bool {
        amount <= self.balance(caller)
    }

    /// The state after `caller` asks to transfer `amount` to `to`.
    pub open spec fn after_transfer(self, caller: Seq<u8>, to: Seq<u8>, amount: u64) -> TokenState {
        if self.transfer_ok(caller, amount) {
            TokenState { balances: moved(self.balances, caller, to, amount), ..self }
        } else {
            self
        }
    }

    /// The state after `owner` sets what `spender` may draw to `amount`.
    pub open spec fn after_set_allowance(self, owner: Seq<u8>, spender: Seq<u8>, amount: u64) -> TokenState {
        TokenState { allowances: self.allowances.insert(pair_key(owner, spender), amount), ..self }
    }

    /// How a delegated transfer of `amount` from `owner` by `spender` ends.
    pub open spec fn transfer_from_outcome(self, spender: Seq<u8>, owner: Seq<u8>, amount: u64) -> Result<
        (),
        TokenError,
    > {
        consume_outcome(self.allowance(owner, spender), self.balance(owner), amount)
    }

    /// The state after `spender` asks to move `amount` from `owner` to `to`.
    pub open spec fn after_transfer_from(
        self,
        spender: Seq<u8>,
        owner: Seq<u8>,
        to: Seq<u8>,
        amount: u64,
    ) -> TokenState {
        if self.transfer_from_outcome(spender, owner, amount) is Ok {
            TokenState {
                balances: moved(self.balances, owner, to, amount),
                allowances: self.allowances.insert(
                    pair_key(owner, spender),
                    (self.allowance(owner, spender) - amount) as u64,
                ),
                ..self
            }
        } else {
            self
        }
    }

    /// The state after one operation.
    pub open spec fn step(self, call: Call) -> TokenState {
        match call {
            Call::Init { caller, name, max_supply } => self.after_init(caller, name, max_supply),
            Call::Transfer { caller, to, amount } => self.after_transfer(caller, to, amount),
            Call::SetAllowance { caller, spender, amount } => self.after_set_allowance(
                caller,
                spender,
                amount,
            ),
            Call::TransferFrom { caller, owner, to, amount } => self.after_transfer_from(
                caller,
                owner,
                to,
                amount,
            ),
        }
    }

    /// The state after a run of operations, the first of `calls` first.
    pub open spec fn run(self, calls: Seq<Call>) -> TokenState
        decreases calls.len(),
    {
        if calls.len() == 0 {
            self
        } else {
            self.run(calls.drop_last()).step(calls.last())
        }
    }
}

/// Conservation, one operation at a time: whatever the operation and whoever
/// calls it, a valid state stays valid, so the balances still sum to the supply.
pub proof fn step_keeps_valid(s: TokenState, call: Call)
    requires
        s.valid(),
    ensures
        s.step(call).valid(),
{
    match call {
        Call::Init { caller, name, max_supply } => {
            total_after_insert(s.balances, caller, max_supply);
            if !s.initialized {
                amount_within_total(s.balances, caller);
            }
        },
        Call::Transfer { caller, to, amount } => {
            if s.transfer_ok(caller, amount) {
                moved_keeps_total(s.balances, caller, to, amount);
            }
        },
        Call::SetAllowance { caller, spender, amount } => {},
        Call::TransferFrom { caller, owner, to, amount } => {
            if s.transfer_from_outcome(caller, owner, amount) is Ok {
                moved_keeps_total(s.balances, owner, to, amount);
            }
        },
    }
}

/// Conservation: after any run of operations on a valid state, the balances sum
/// to the supply.
pub proof fn run_conserves_supply(s: TokenState, calls: Seq<Call>)
    requires
        s.valid(),
    ensures
        s.run(calls).valid(),
        total(s.run(calls).balances) == s.run(calls).max_supply,
    decreases calls.len(),
{
    if calls.len() > 0 {
        run_conserves_supply(s, calls.drop_last());
        step_keeps_valid(s.run(calls.drop_last()), calls.last());
    }
}

/// After any run of operations on a valid state, no balance is negative or
/// above the supply, and no allowance is negative.
pub proof fn run_keeps_amounts_in_range(
    s: TokenState,
    calls: Seq<Call>,
    account: Seq<u8>,
    owner: Seq<u8>,
    spender: Seq<u8>,
)
    requires
        s.valid(),
    ensures
        0 <= s.run(calls).balance(account) <= s.run(calls).max_supply,
        0 <= s.run(calls).allowance(owner, spender),
{
    run_conserves_supply(s, calls);
    amount_within_total(s.run(calls).balances, account);
}

/// Once genesis has happened, no run of operations changes the creator, the
/// name or the supply.
pub proof fn run_keeps_genesis(s: TokenState, calls: Seq<Call>)
    requires
        s.initialized,
    ensures
        s.run(calls).initialized,
        s.run(calls).creator == s.creator,
        s.run(calls).name == s.name,
        s.run(calls).max_supply == s.max_supply,
    decreases calls.len(),
{
    if calls.len() > 0 {
        run_keeps_genesis(s, calls.drop_last());
    }
}

/// A transfer that succeeds takes exactly `amount` from the caller and gives
/// exactly `amount` to the receiver: neither balance wraps around, and a
/// transfer to oneself leaves the balance as it was.
pub proof fn transfer_moves_amount(s: TokenState, caller: Seq<u8>, to: Seq<u8>, amount: u64)
    requires
        s.valid(),
        s.transfer_ok(caller, amount),
    ensures
        caller != to ==> s.after_transfer(caller, to, amount).balance(caller) == s.balance(caller)
            - amount,
        caller != to ==> s.after_transfer(caller, to, amount).balance(to) == s.balance(to) + amount,
        caller == to ==> s.after_transfer(caller, to, amount).balance(caller) == s.balance(caller),
        forall|other: Seq<u8>|
            other != caller && other != to ==> s.after_transfer(caller, to, amount).balance(other)
                == s.balance(other),
{
    if caller != to {
        two_amounts_within_total(s.balances, caller, to);
    }
}

/// A transfer of more than the caller holds is refused and changes nothing.
pub proof fn transfer_refused_changes_nothing(s: TokenState, caller: Seq<u8>, to: Seq<u8>, amount: u64)
    requires
        amount > s.balance(caller),
    ensures
        !s.transfer_ok(caller, amount),
        s.after_transfer(caller, to, amount) == s,
        s.after_transfer(caller, to, amount).balance(caller) == s.balance(caller),
        s.after_transfer(caller, to, amount).balance(to) == s.balance(to),
{
}

/// After `owner` grants `spender` an allowance of `granted`, a delegated
/// transfer of `amount` within both that allowance and the owner's balance
/// succeeds, lowers the allowance by exactly `amount`, and moves exactly
/// `amount` from `owner` to `to`.
pub proof fn grant_then_transfer_from(
    s: TokenState,
    owner: Seq<u8>,
    spender: Seq<u8>,
    to: Seq<u8>,
    granted: u64,
    amount: u64,
)
    requires
        s.valid(),
        amount <= granted,
        amount <= s.balance(owner),
    ensures
        ({
            let granted_state = s.after_set_allowance(owner, spender, granted);
            let end = granted_state.after_transfer_from(spender, owner, to, amount);
            &&& granted_state.allowance(owner, spender) == granted
            &&& granted_state.transfer_from_outcome(spender, owner, amount) == Ok::<(), TokenError>(())
            &&& end.allowance(owner, spender) == granted - amount
            &&& owner != to ==> end.balance(owner) == s.balance(owner) - amount
            &&& owner != to ==> end.balance(to) == s.balance(to) + amount
            &&& owner == to ==> end.balance(owner) == s.balance(owner)
            &&& end.valid()
        }),
{
    let granted_state = s.after_set_allowance(owner, spender, granted);
    if owner != to {
        two_amounts_within_total(s.balances, owner, to);
    }
    moved_keeps_total(s.balances, owner, to, amount);
}

/// A delegated transfer of more than the allowance is refused for want of
/// allowance, and changes neither the balances nor the allowances.
pub proof fn transfer_from_beyond_allowance(
    s: TokenState,
    spender: Seq<u8>,
    owner: Seq<u8>,
    to: Seq<u8>,
    amount: u64,
)
    requires
        amount > s.allowance(owner, spender),
    ensures
        s.transfer_from_outcome(spender, owner, amount) == Err::<(), TokenError>(
            TokenError::InsufficientAllowance,
        ),
        s.after_transfer_from(spender, owner, to, amount) == s,
{
}

/// A delegated transfer within the allowance but beyond the owner's balance is
/// refused for want of balance, and changes nothing.
pub proof fn transfer_from_beyond_balance(
    s: TokenState,
    spender: Seq<u8>,
    owner: Seq<u8>,
    to: Seq<u8>,
    amount: u64,
)
    requires
        amount <= s.allowance(owner, spender),
        amount > s.balance(owner),
    ensures
        s.transfer_from_outcome(spender, owner, amount) == Err::<(), TokenError>(
            TokenError::InsufficientBalance,
        ),
        s.after_transfer_from(spender, owner, to, amount) == s,
{
}

/// A second `init` changes nothing, whatever its caller and arguments: the
/// values of the first stay in effect.
pub proof fn init_twice_keeps_first(
    s: TokenState,
    first_caller: Seq<u8>,
    first_name: Seq<char>,
    first_supply: u64,
    second_caller: Seq<u8>,
    second_name: Seq<char>,
    second_supply: u64,
)
    ensures
        s.after_init(first_caller, first_name, first_supply).after_init(
            second_caller,
            second_name,
            second_supply,
        ) == s.after_init(first_caller, first_name, first_supply),
        !s.initialized ==> {
            let first = s.after_init(first_caller, first_name, first_supply);
            &&& first.creator == first_caller
            &&& first.name == first_name
            &&& first.max_supply == first_supply
            &&& first.balance(first_caller) == first_supply
        },
{
}

/// Setting or drawing on the allowance of one pair leaves the allowance of
/// every other pair as it was.
pub proof fn allowance_of_other_pair(
    s: TokenState,
    owner: Seq<u8>,
    spender: Seq<u8>,
    amount: u64,
    other_owner: Seq<u8>,
    other_spender: Seq<u8>,
)
    requires
        owner.len() <= u64::MAX,
        other_owner.len() <= u64::MAX,
        owner != other_owner || spender != other_spender,
    ensures
        s.after_set_allowance(owner, spender, amount).allowance(other_owner, other_spender)
            == s.allowance(other_owner, other_spender),
        forall|to: Seq<u8>|
            (#[trigger] s.after_transfer_from(spender, owner, to, amount)).allowance(
                other_owner,
                other_spender,
            ) == s.allowance(other_owner, other_spender),
{
    other_pairs_unchanged(s.allowances, owner, spender, amount, other_owner, other_spender);
    other_pairs_unchanged(
        s.allowances,
        owner,
        spender,
        (s.allowance(owner, spender) - amount) as u64,
        other_owner,
        other_spender,
    );
}

} // verus!
