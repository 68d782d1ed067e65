//! Mathematical model of an amount table: a finite map from byte-string keys to
//! unsigned 64-bit amounts, where a missing key stands for the amount zero.

use vstd::prelude::*;

verus! {

/// The model of a table of amounts.
pub type Amounts = Map<Seq<u8>, u64>;

/// The amount recorded under `key`; zero where the table has no entry for it.
pub open spec fn amount_at(m: Amounts, key: Seq<u8>) -> u64 {
    if m.dom().contains(key) {
        m[key]
    } else {
        0
    }
}

/// The amount that a lookup stands for: what was found, or zero where nothing was.
pub open spec fn amount_or_zero(found: Option<u64>) -> u64 {
    match found {
        Some(amount) => amount,
        None => 0,
    }
}

/// Turns the result of a lookup into an amount: a missing entry counts as zero.
pub fn check_optional(optional: Option<u64>) -> (amount: u64)
    ensures
        amount == amount_or_zero(optional),
{
    match optional {
        Some(data) => data,
        None => 0,
    }
}

/// The sum of every amount in a finite table.
pub open spec fn total(m: Amounts) -> nat
    decreases m.dom().len(),
    when m.dom().finite()
{
    if m.dom().len() == 0 {
        0
    } else {
        let k = m.dom().choose();
        m[k] as nat + total(m.remove(k))
    }
}

/// The empty table sums to zero.
pub proof fn total_of_empty()
    ensures
        total(Map::<Seq<u8>, u64>::empty()) == 0,
{
    assert(Map::<Seq<u8>, u64>::empty().dom() =~= Set::empty());
}

/// Any entry can be split off the sum: the total is that entry's amount plus the
/// total of the table without it.
pub proof fn total_split(m: Amounts, key: Seq<u8>)
    requires
        m.dom().finite(),
        m.dom().contains(key),
    ensures
        total(m) == m[key] as nat + total(m.remove(key)),
    decreases m.dom().len(),
{
    let k = m.dom().choose();
    if m.dom().len() == 0 {
        m.dom().lemma_len0_is_empty();
    } else if k != key {
        let rest = m.remove(k).remove(key);
        assert(m.remove(key).remove(k) =~= rest);
        total_split(m.remove(k), key);
        total_split(m.remove(key), k);
    }
}

/// Writing `amount` under `key` changes the total by the difference between the
/// new amount and the one that was there before.
pub proof fn total_after_insert(m: Amounts, key: Seq<u8>, amount: u64)
    requires
        m.dom().finite(),
    ensures
        total(m.insert(key, amount)) == total(m) - amount_at(m, key) + amount,
{
    let after = m.insert(key, amount);
    total_split(after, key);
    assert(after.remove(key) =~= m.remove(key));
    if m.dom().contains(key) {
        total_split(m, key);
    } else {
        assert(m.remove(key) =~= m);
    }
}

/// No single amount exceeds the total.
pub proof fn amount_within_total(m: Amounts, key: Seq<u8>)
    requires
        m.dom().finite(),
    ensures
        amount_at(m, key) <= total(m),
{
    if m.dom().contains(key) {
        total_split(m, key);
    }
}

/// The amounts under two different keys together do not exceed the total.
pub proof fn two_amounts_within_total(m: Amounts, a: Seq<u8>, b: Seq<u8>)
    requires
        m.dom().finite(),
        a != b,
    ensures
        amount_at(m, a) + amount_at(m, b) <= total(m),
{
    if m.dom().contains(a) {
        total_split(m, a);
        amount_within_total(m.remove(a), b);
    } else {
        amount_within_total(m, b);
    }
}

} // verus!
