//! An amount table held in memory: a list of entries with pairwise different
//! keys, read and written through its model, a map from keys to amounts.

use vstd::prelude::*;
use crate::amounts::{total, total_after_insert, total_of_empty, Amounts};

verus! {

/// One entry of a table: a key and the amount recorded under it.
pub struct Entry {
    pub key: Vec<u8>,
    pub amount: u64,
}

/// The map that a list of entries stands for; of two entries with one key the
/// later one counts.
pub open spec fn entries_map(s: Seq<Entry>) -> Amounts
    decreases s.len(),
{
    if s.len() == 0 {
        Map::empty()
    } else {
        entries_map(s.drop_last()).insert(s.last().key@, s.last().amount)
    }
}

/// No two entries of the list have the same key.
pub open spec fn distinct_keys(s: Seq<Entry>) -> bool {
    forall|i: int, j: int| 0 <= i < j < s.len() ==> s[i].key@ != s[j].key@
}

/// The map of a list has a finite domain, which holds exactly the keys of the list.
pub proof fn entries_map_domain(s: Seq<Entry>)
    ensures
        entries_map(s).dom().finite(),
        forall|k: Seq<u8>|
            entries_map(s).dom().contains(k) <==> exists|i: int|
                0 <= i < s.len() && #[trigger] s[i].key@ == k,
    decreases s.len(),
{
    if s.len() > 0 {
        let front = s.drop_last();
        entries_map_domain(front);
        assert forall|k: Seq<u8>|
            entries_map(s).dom().contains(k) <==> exists|i: int|
                0 <= i < s.len() && #[trigger] s[i].key@ == k by {
            if k == s.last().key@ {
                assert(s[s.len() - 1].key@ == k);
            } else if entries_map(front).dom().contains(k) {
                let i = choose|i: int| 0 <= i < front.len() && #[trigger] front[i].key@ == k;
                assert(s[i].key@ == k);
            } else if exists|i: int| 0 <= i < s.len() && #[trigger] s[i].key@ == k {
                let i = choose|i: int| 0 <= i < s.len() && #[trigger] s[i].key@ == k;
                assert(front[i].key@ == k);
            }
        }
    }
}

/// In a list with distinct keys, the map records each entry's amount under its key.
pub proof fn entries_map_at(s: Seq<Entry>, i: int)
    requires
        distinct_keys(s),
        0 <= i < s.len(),
    ensures
        entries_map(s).dom().contains(s[i].key@),
        entries_map(s)[s[i].key@] == s[i].amount,
    decreases s.len(),
{
    if i < s.len() - 1 {
        entries_map_at(s.drop_last(), i);
    }
}

/// Replacing the amount of one entry of a list with distinct keys writes that
/// amount under the entry's key and changes nothing else.
pub proof fn entries_map_update(s: Seq<Entry>, i: int, e: Entry)
    requires
        distinct_keys(s),
        0 <= i < s.len(),
        e.key@ == s[i].key@,
    ensures
        distinct_keys(s.update(i, e)),
        entries_map(s.update(i, e)) == entries_map(s).insert(e.key@, e.amount),
    decreases s.len(),
{
    let t = s.update(i, e);
    if i == s.len() - 1 {
        assert(t.drop_last() =~= s.drop_last());
    } else {
        entries_map_update(s.drop_last(), i, e);
        assert(t.drop_last() =~= s.drop_last().update(i, e));
    }
    assert(entries_map(t) =~= entries_map(s).insert(e.key@, e.amount));
}

/// Two lists whose entries agree, place by place, in key and amount stand for
/// the same map.
pub proof fn entries_map_agree(s: Seq<Entry>, t: Seq<Entry>)
    requires
        s.len() == t.len(),
        forall|i: int| 0 <= i < s.len() ==> s[i].key@ == t[i].key@ && s[i].amount == t[i].amount,
    ensures
        entries_map(s) == entries_map(t),
        distinct_keys(s) ==> distinct_keys(t),
    decreases s.len(),
{
    if s.len() > 0 {
        entries_map_agree(s.drop_last(), t.drop_last());
    }
}

/// In a list with distinct keys, the last entry adds its amount to the total
/// of the entries before it.
pub proof fn entries_total_last(s: Seq<Entry>)
    requires
        distinct_keys(s),
        s.len() > 0,
    ensures
        total(entries_map(s)) == total(entries_map(s.drop_last())) + s.last().amount,
{
    let front = s.drop_last();
    entries_map_domain(front);
    if entries_map(front).dom().contains(s.last().key@) {
        let i = choose|i: int| 0 <= i < front.len() && #[trigger] front[i].key@ == s.last().key@;
        assert(s[i].key@ == s[s.len() - 1].key@);
    }
    total_after_insert(entries_map(front), s.last().key@, s.last().amount);
}

/// In a list with distinct keys, the total of the first `n` entries does not
/// exceed the total of all.
pub proof fn entries_total_prefix(s: Seq<Entry>, n: int)
    requires
        distinct_keys(s),
        0 <= n <= s.len(),
    ensures
        total(entries_map(s.take(n))) <= total(entries_map(s)),
    decreases s.len(),
{
    if n == s.len() {
        assert(s.take(n) =~= s);
    } else {
        entries_total_prefix(s.drop_last(), n);
        entries_total_last(s);
        assert(s.drop_last().take(n) =~= s.take(n));
    }
}

/// Whether two byte strings are equal.
pub fn same_bytes(a: &Vec<u8>, b: &Vec<u8>) -> (same: bool)
    ensures
        same == (a@ == b@),
{
    if a.len() != b.len() {
        return false;
    }
    let mut i: usize = 0;
    while i < a.len()
        invariant
            a.len() == b.len(),
            i <= a.len(),
            forall|j: int| 0 <= j < i ==> a@[j] == b@[j],
        decreases a.len() - i,
    {
        if a[i] != b[i] {
            return false;
        }
        i += 1;
    }
    assert(a@ =~= b@);
    true
}

/// A table of amounts keyed by byte strings.
pub struct AmountTable {
    entries: Vec<Entry>,
}

impl View for AmountTable {
    type V = Amounts;

    closed spec fn view(&self) -> Amounts {
        entries_map(self.entries@)
    }
}

impl AmountTable {
    /// The table's invariant: every key occurs in at most one entry.
    pub closed spec fn wf(&self) -> bool {
        distinct_keys(self.entries@)
    }

    /// A table has finitely many entries.
    pub proof fn finite(&self)
        ensures
            self@.dom().finite(),
    {
        entries_map_domain(self.entries@);
    }

    /// The empty table.
    pub fn new() -> (table: Self)
        ensures
            table.wf(),
            table@ == Map::<Seq<u8>, u64>::empty(),
    {
        AmountTable { entries: Vec::new() }
    }

    /// The table that a list of entries stands for; of two entries with one key
    /// the later one counts.
    pub fn from_entries(entries: &Vec<Entry>) -> (table: Self)
        ensures
            table.wf(),
            table@ == entries_map(entries@),
    {
        let mut table = AmountTable::new();
        let mut i: usize = 0;
        while i < entries.len()
            invariant
                i <= entries.len(),
                table.wf(),
                table@ == entries_map(entries@.take(i as int)),
            decreases entries.len() - i,
        {
            proof {
                assert(entries@.take(i + 1).drop_last() =~= entries@.take(i as int));
            }
            table.insert(entries[i].key.clone(), entries[i].amount);
            i += 1;
        }
        proof {
            assert(entries@.take(i as int) =~= entries@);
        }
        table
    }

    /// The entries of the table, each key once.
    pub fn to_entries(&self) -> (entries: Vec<Entry>)
        requires
            self.wf(),
        ensures
            distinct_keys(entries@),
            entries_map(entries@) == self@,
    {
        let mut entries: Vec<Entry> = Vec::new();
        let mut i: usize = 0;
        while i < self.entries.len()
            invariant
                i <= self.entries.len(),
                entries.len() == i,
                forall|j: int|
                    0 <= j < i ==> entries@[j].key@ == self.entries@[j].key@ && entries@[j].amount
                        == self.entries@[j].amount,
            decreases self.entries.len() - i,
        {
            entries.push(Entry { key: self.entries[i].key.clone(), amount: self.entries[i].amount });
            i += 1;
        }
        proof {
            entries_map_agree(self.entries@, entries@);
        }
        entries
    }

    /// The sum of all amounts, or `None` where it does not fit in 64 bits.
    pub fn sum(&self) -> (sum: Option<u64>)
        requires
            self.wf(),
        ensures
            sum == (if total(self@) <= u64::MAX {
                Some(total(self@) as u64)
            } else {
                None
            }),
    {
        let mut sum: u64 = 0;
        let mut i: usize = 0;
        proof {
            total_of_empty();
            assert(self.entries@.take(0) =~= Seq::<Entry>::empty());
        }
        while i < self.entries.len()
            invariant
                self.wf(),
                i <= self.entries.len(),
                sum == total(entries_map(self.entries@.take(i as int))),
            decreases self.entries.len() - i,
        {
            let amount: u64 = self.entries[i].amount;
            proof {
                let next = self.entries@.take(i + 1);
                assert(next.drop_last() =~= self.entries@.take(i as int));
                entries_total_last(next);
                entries_total_prefix(self.entries@, i + 1);
            }
            if amount > u64::MAX - sum {
                return None;
            }
            sum += amount;
            i += 1;
        }
        proof {
            assert(self.entries@.take(i as int) =~= self.entries@);
        }
        Some(sum)
    }

    /// The position of the entry for `key`, if there is one.
    fn find(&self, key: &Vec<u8>) -> (at: Option<usize>)
        ensures
            match at {
                Some(i) => i < self.entries@.len() && self.entries@[i as int].key@ == key@,
                None => forall|j: int| 0 <= j < self.entries@.len() ==> self.entries@[j].key@ != key@,
            },
    {
        let mut i: usize = 0;
        while i < self.entries.len()
            invariant
                i <= self.entries@.len(),
                forall|j: int| 0 <= j < i ==> self.entries@[j].key@ != key@,
            decreases self.entries@.len() - i,
        {
            if same_bytes(&self.entries[i].key, key) {
                return Some(i);
            }
            i += 1;
        }
        None
    }

    /// The amount recorded under `key`, or `None` where the table has no entry for it.
    pub fn get(&self, key: &Vec<u8>) -> (found: Option<u64>)
        requires
            self.wf(),
        ensures
            found == (if self@.dom().contains(key@) {
                Some(self@[key@])
            } else {
                None
            }),
    {
        proof {
            entries_map_domain(self.entries@);
        }
        match self.find(key) {
            Some(i) => {
                proof {
                    entries_map_at(self.entries@, i as int);
                }
                Some(self.entries[i].amount)
            },
            None => None,
        }
    }

    /// Records `amount` under `key`, in place of what was recorded there before.
    pub fn insert(&mut self, key: Vec<u8>, amount: u64)
        requires
            old(self).wf(),
        ensures
            final(self).wf(),
            final(self)@ == old(self)@.insert(key@, amount),
    {
        let at = self.find(&key);
        let entry = Entry { key, amount };
        match at {
            Some(i) => {
                proof {
                    entries_map_update(self.entries@, i as int, entry);
                }
                self.entries.set(i, entry);
            },
            None => {
                proof {
                    assert(self.entries@.push(entry).drop_last() =~= self.entries@);
                }
                self.entries.push(entry);
            },
        }
    }
}

} // verus!
