//! Delegated spending: for each pair of an owner and a spender, the amount that
//! the spender may still move out of the owner's balance.

use vstd::prelude::*;
use vstd::bytes::{lemma_auto_spec_u64_to_from_le_bytes, spec_u64_to_le_bytes, u64_to_le_bytes};
use crate::amounts::{amount_at, check_optional, Amounts};
use crate::error::TokenError;
use crate::ledger::{moved, Ledger};
use crate::table::{distinct_keys, entries_map, AmountTable, Entry};

verus! {

/// The key under which the allowance that `owner` grants to `spender` is
/// recorded: the owner's length as eight little-endian bytes, then the owner,
/// then the spender.
pub open spec fn pair_key(owner: Seq<u8>, spender: Seq<u8>) -> Seq<u8> {
    spec_u64_to_le_bytes(owner.len() as u64) + owner + spender
}

/// Two pairs with the same key are the same pair: the length in front says
/// where the owner ends and the spender begins.
pub proof fn pair_key_injective(
    owner_a: Seq<u8>,
    spender_a: Seq<u8>,
    owner_b: Seq<u8>,
    spender_b: Seq<u8>,
)
    requires
        owner_a.len() <= u64::MAX,
        owner_b.len() <= u64::MAX,
        pair_key(owner_a, spender_a) == pair_key(owner_b, spender_b),
    ensures
        owner_a == owner_b,
        spender_a == spender_b,
{
    lemma_auto_spec_u64_to_from_le_bytes();
    let key_a = pair_key(owner_a, spender_a);
    let key_b = pair_key(owner_b, spender_b);
    let len_a = owner_a.len() as u64;
    let len_b = owner_b.len() as u64;
    assert(key_a.subrange(0, 8) =~= spec_u64_to_le_bytes(len_a));
    assert(key_b.subrange(0, 8) =~= spec_u64_to_le_bytes(len_b));
    assert(len_a == len_b);
    let owner_end = 8 + owner_a.len() as int;
    assert(key_a.subrange(8, owner_end) =~= owner_a);
    assert(key_b.subrange(8, owner_end) =~= owner_b);
    assert(key_a.subrange(owner_end, key_a.len() as int) =~= spender_a);
    assert(key_b.subrange(owner_end, key_b.len() as int) =~= spender_b);
}

/// Computes the key of the pair `(owner, spender)`.
pub fn allowance_key(owner: &Vec<u8>, spender: &Vec<u8>) -> (key: Vec<u8>)
    ensures
        key@ == pair_key(owner@, spender@),
{
    let mut key = u64_to_le_bytes(owner.len() as u64);
    key.extend_from_slice(owner.as_slice());
    key.extend_from_slice(spender.as_slice());
    assert(key@ =~= pair_key(owner@, spender@));
    key
}

/// Allowances by owner and spender. A pair without an entry has allowance zero.
pub struct AllowanceRegistry {
    table: AmountTable,
}

impl View for AllowanceRegistry {
    type V = Amounts;

    /// The allowances, each under the key of its pair.
    closed spec fn view(&self) -> Amounts {
        self.table@
    }
}

impl AllowanceRegistry {
    /// The registry's invariant.
    pub closed spec fn wf(&self) -> bool {
        self.table.wf()
    }

    /// What `spender` may still draw from `owner`.
    pub open spec fn allowance(&self, owner: Seq<u8>, spender: Seq<u8>) -> u64 {
        amount_at(self@, pair_key(owner, spender))
    }

    /// A registry in which every allowance is zero.
    pub fn new() -> (registry: Self)
        ensures
            registry.wf(),
            registry@ == Map::<Seq<u8>, u64>::empty(),
    {
        AllowanceRegistry { table: AmountTable::new() }
    }

    /// The registry that a list of entries stands for, each allowance under the
    /// key of its pair.
    pub fn from_entries(entries: &Vec<Entry>) -> (registry: Self)
        ensures
            registry.wf(),
            registry@ == entries_map(entries@),
    {
        AllowanceRegistry { table: AmountTable::from_entries(entries) }
    }

    /// The entries of the registry, each pair once, under its key.
    pub fn to_entries(&self) -> (entries: Vec<Entry>)
        requires
            self.wf(),
        ensures
            distinct_keys(entries@),
            entries_map(entries@) == self@,
    {
        self.table.to_entries()
    }

    /// What `spender` may still draw from `owner`: zero where nothing was granted.
    pub fn allowance_of(&self, owner: &Vec<u8>, spender: &Vec<u8>) -> (amount: u64)
        requires
            self.wf(),
        ensures
            amount == self.allowance(owner@, spender@),
    {
        let key = allowance_key(owner, spender);
        check_optional(self.table.get(&key))
    }

    /// Sets what `spender` may draw from `owner` to `amount`, replacing any
    /// earlier grant.
    pub fn set_allowance(&mut self, owner: &Vec<u8>, spender: &Vec<u8>, amount: u64)
        requires
            old(self).wf(),
        ensures
            final(self).wf(),
            final(self)@ == old(self)@.insert(pair_key(owner@, spender@), amount),
    {
        let key = allowance_key(owner, spender);
        self.table.insert(key, amount);
    }

    /// Lets `spender` move `amount` from `owner` to `to` on `ledger`. The
    /// allowance is tested first, then the owner's balance; where either falls
    /// short, the matching error comes back and neither the registry nor the
    /// ledger changes. Otherwise the amount moves and the allowance drops by it.
    pub fn consume(
        &mut self,
        ledger: &mut Ledger,
        owner: Vec<u8>,
        spender: &Vec<u8>,
        to: Vec<u8>,
        amount: u64,
    ) -> (outcome: Result<(), TokenError>)
        requires
            old(self).wf(),
            old(ledger).wf(),
        ensures
            final(self).wf(),
            final(ledger).wf(),
            final(ledger).supply() == old(ledger).supply(),
            outcome == consume_outcome(
                old(self).allowance(owner@, spender@),
                amount_at(old(ledger)@, owner@),
                amount,
            ),
            outcome is Err ==> *final(self) == *old(self) && *final(ledger) == *old(ledger),
            outcome is Ok ==> final(ledger)@ == moved(old(ledger)@, owner@, to@, amount)
                && final(self)@ == old(self)@.insert(
                pair_key(owner@, spender@),
                (old(self).allowance(owner@, spender@) - amount) as u64,
            ),
    {
        let key = allowance_key(&owner, spender);
        let allowed: u64 = check_optional(self.table.get(&key));
        if amount > allowed {
            return Err(TokenError::InsufficientAllowance);
        }
        if amount > ledger.balance_of(&owner) {
            return Err(TokenError::InsufficientBalance);
        }
        let outcome = ledger.transfer(owner, to, amount);
        self.table.insert(key, allowed - amount);
        outcome
    }
}

/// How an attempt to draw `amount` ends, given what the spender may draw and
/// what the owner holds: the allowance is tested before the balance.
pub open spec fn consume_outcome(allowance: u64, balance: u64, amount: u64) -> Result<
    (),
    TokenError,
> {
    if amount > allowance {
        Err(TokenError::InsufficientAllowance)
    } else if amount > balance {
        Err(TokenError::InsufficientBalance)
    } else {
        Ok(())
    }
}

/// Writing the allowance of one pair leaves the allowance of every other pair
/// as it was.
pub proof fn other_pairs_unchanged(
    m: Amounts,
    owner: Seq<u8>,
    spender: Seq<u8>,
    amount: u64,
    other_owner: Seq<u8>,
    other_spender: Seq<u8>,
)
    requires
        owner.len() <= u64::MAX,
        other_owner.len() <= u64::MAX,
        owner != other_owner || spender != other_spender,
    ensures
        amount_at(m.insert(pair_key(owner, spender), amount), pair_key(other_owner, other_spender))
            == amount_at(m, pair_key(other_owner, other_spender)),
{
    if pair_key(owner, spender) == pair_key(other_owner, other_spender) {
        pair_key_injective(owner, spender, other_owner, other_spender);
    }
}

} // verus!
