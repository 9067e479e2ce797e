//! Insertion-ordered tables keyed by account.

use crate::account::AccountId;
use vstd::prelude::*;

verus! {

/// Whether some entry of `entries` is filed under `key`.
pub open spec fn has_key<V>(entries: Seq<(Seq<char>, V)>, key: Seq<char>) -> bool {
    exists|i: int| 0 <= i < entries.len() && (#[trigger] entries[i]).0 == key
}

/// The place of an entry filed under `key`, where there is one.
pub open spec fn index_of<V>(entries: Seq<(Seq<char>, V)>, key: Seq<char>) -> int {
    choose|i: int| 0 <= i < entries.len() && (#[trigger] entries[i]).0 == key
}

/// The value filed under `key`, if any.
pub open spec fn lookup<V>(entries: Seq<(Seq<char>, V)>, key: Seq<char>) -> Option<V> {
    if has_key(entries, key) {
        Some(entries[index_of(entries, key)].1)
    } else {
        None
    }
}

/// No two entries are filed under the same key.
pub open spec fn distinct_keys<V>(entries: Seq<(Seq<char>, V)>) -> bool {
    forall|i: int, j: int|
        0 <= i < j < entries.len() ==> (#[trigger] entries[i]).0 != (#[trigger] entries[j]).0
}

/// `entries` with `value` filed under `key`: in place where the key is known,
/// at the end where it is new.
pub open spec fn put<V>(entries: Seq<(Seq<char>, V)>, key: Seq<char>, value: V) -> Seq<
    (Seq<char>, V),
> {
    if has_key(entries, key) {
        entries.update(index_of(entries, key), (key, value))
    } else {
        entries.push((key, value))
    }
}

/// `entries` without the entry filed under `key`; the others keep their order.
pub open spec fn without<V>(entries: Seq<(Seq<char>, V)>, key: Seq<char>) -> Seq<(Seq<char>, V)> {
    if has_key(entries, key) {
        entries.remove(index_of(entries, key))
    } else {
        entries
    }
}

/// With distinct keys, the entry at place `i` is the one that its key finds.
pub proof fn lemma_lookup_at<V>(entries: Seq<(Seq<char>, V)>, i: int)
    requires
        distinct_keys(entries),
        0 <= i < entries.len(),
    ensures
        has_key(entries, entries[i].0),
        index_of(entries, entries[i].0) == i,
        lookup(entries, entries[i].0) == Some(entries[i].1),
{
    let key = entries[i].0;
    let j = index_of(entries, key);
    assert(0 <= j < entries.len() && entries[j].0 == key);
    if j < i {
        assert(entries[j].0 != entries[i].0);
    }
    if i < j {
        assert(entries[i].0 != entries[j].0);
    }
}

/// What `put` does, seen from any key.
pub proof fn lemma_put<V>(entries: Seq<(Seq<char>, V)>, key: Seq<char>, value: V, other: Seq<char>)
    requires
        distinct_keys(entries),
    ensures
        distinct_keys(put(entries, key, value)),
        lookup(put(entries, key, value), key) == Some(value),
        other != key ==> lookup(put(entries, key, value), other) == lookup(entries, other),
        has_key(put(entries, key, value), other) <==> other == key || has_key(entries, other),
{
    let after = put(entries, key, value);
    if has_key(entries, key) {
        let k = index_of(entries, key);
        assert(0 <= k < entries.len() && entries[k].0 == key);
        assert(after.len() == entries.len());
        assert forall|i: int| 0 <= i < after.len() implies (#[trigger] after[i]).0
            == entries[i].0 by {}
        assert(distinct_keys(after));
        assert(after[k] == (key, value));
        lemma_lookup_at(after, k);
        if has_key(entries, other) {
            let o = index_of(entries, other);
            assert(0 <= o < entries.len() && entries[o].0 == other);
            assert(after[o].0 == other);
            lemma_lookup_at(after, o);
            lemma_lookup_at(entries, o);
        } else {
            if has_key(after, other) {
                let o = index_of(after, other);
                assert(0 <= o < after.len() && after[o].0 == other);
                assert(entries[o].0 == other);
            }
        }
    } else {
        let n = entries.len() as int;
        assert(after.len() == n + 1);
        assert(after[n] == (key, value));
        assert forall|i: int| 0 <= i < n implies (#[trigger] after[i]) == entries[i] by {}
        assert forall|i: int, j: int| 0 <= i < j < after.len() implies (#[trigger] after[i]).0 != (
        #[trigger] after[j]).0 by {
            if j < n {
                assert(entries[i].0 != entries[j].0);
            } else {
                assert(entries[i].0 != key);
            }
        }
        lemma_lookup_at(after, n);
        if has_key(entries, other) {
            let o = index_of(entries, other);
            assert(0 <= o < entries.len() && entries[o].0 == other);
            assert(after[o].0 == other);
            lemma_lookup_at(after, o);
            lemma_lookup_at(entries, o);
        } else {
            if has_key(after, other) {
                let o = index_of(after, other);
                assert(0 <= o < after.len() && after[o].0 == other);
                if o < n {
                    assert(entries[o].0 == other);
                }
            }
        }
    }
}

/// What `without` does, seen from any key.
pub proof fn lemma_without<V>(entries: Seq<(Seq<char>, V)>, key: Seq<char>, other: Seq<char>)
    requires
        distinct_keys(entries),
    ensures
        distinct_keys(without(entries, key)),
        lookup(without(entries, key), key) is None,
        other != key ==> lookup(without(entries, key), other) == lookup(entries, other),
        has_key(without(entries, key), other) <==> other != key && has_key(entries, other),
{
    let after = without(entries, key);
    if has_key(entries, key) {
        let k = index_of(entries, key);
        assert(0 <= k < entries.len() && entries[k].0 == key);
        assert(after.len() == entries.len() - 1);
        assert forall|i: int| 0 <= i < after.len() implies #[trigger] after[i] == entries[if i
            < k {
            i
        } else {
            i + 1
        }] by {}
        assert forall|i: int, j: int| 0 <= i < j < after.len() implies (#[trigger] after[i]).0 != (
        #[trigger] after[j]).0 by {
            let a = if i < k { i } else { i + 1 };
            let b = if j < k { j } else { j + 1 };
            assert(entries[a].0 != entries[b].0);
        }
        if has_key(after, key) {
            let o = index_of(after, key);
            assert(0 <= o < after.len() && after[o].0 == key);
            let a = if o < k { o } else { o + 1 };
            assert(entries[a].0 == key);
            if a < k {
                assert(entries[a].0 != entries[k].0);
            } else {
                assert(entries[k].0 != entries[a].0);
            }
        }
        if other != key {
            if has_key(entries, other) {
                let o = index_of(entries, other);
                assert(0 <= o < entries.len() && entries[o].0 == other);
                let a = if o < k { o } else { o - 1 };
                assert(after[a] == entries[o]);
                lemma_lookup_at(after, a);
                lemma_lookup_at(entries, o);
            } else {
                if has_key(after, other) {
                    let o = index_of(after, other);
                    assert(0 <= o < after.len() && after[o].0 == other);
                    let a = if o < k { o } else { o + 1 };
                    assert(entries[a].0 == other);
                }
            }
        }
    }
}

/// A list of entries, with each account taken as its name.
pub open spec fn entries_view<V>(entries: Seq<(AccountId, V)>) -> Seq<(Seq<char>, V)> {
    Seq::new(entries.len(), |i: int| (entries[i].0@, entries[i].1))
}

/// An insertion-ordered table from account names to values, with at most one
/// entry for each account.
pub struct AccountMap<V> {
    entries: Vec<(AccountId, V)>,
}

impl<V> View for AccountMap<V> {
    type V = Seq<(Seq<char>, V)>;

    closed spec fn view(&self) -> Seq<(Seq<char>, V)> {
        entries_view(self.entries@)
    }
}

impl<V> AccountMap<V> {
    /// No account has two entries.
    #[verifier::type_invariant]
    pub open spec fn wf(&self) -> bool {
        distinct_keys(self@)
    }
}

impl<V: Copy> AccountMap<V> {
    /// A table without entries.
    pub fn new() -> (table: Self)
        ensures
            table@ == Seq::<(Seq<char>, V)>::empty(),
    {
        AccountMap { entries: Vec::new() }
    }

    /// The table that holds `entries` in their order, unless two of them are
    /// filed under the same account.
    pub fn from_entries(entries: Vec<(AccountId, V)>) -> (table: Option<Self>)
        ensures
            table is Some <==> distinct_keys(entries_view(entries@)),
            table matches Some(t) ==> t@ == entries_view(entries@),
    {
        let ghost names = entries_view(entries@);
        let mut i: usize = 0;
        while i < entries.len()
            invariant
                i <= entries@.len(),
                names == entries_view(entries@),
                forall|a: int, b: int|
                    0 <= a < b < i ==> (#[trigger] names[a]).0 != (#[trigger] names[b]).0,
            decreases entries@.len() - i,
        {
            let mut j: usize = 0;
            while j < i
                invariant
                    j <= i < entries@.len(),
                    names == entries_view(entries@),
                    forall|a: int| 0 <= a < j ==> (#[trigger] names[a]).0 != names[i as int].0,
                decreases i - j,
            {
                if entries[j].0 == entries[i].0 {
                    assert(names[j as int].0 == names[i as int].0);
                    return None;
                }
                j += 1;
            }
            i += 1;
        }
        Some(AccountMap { entries })
    }

    /// The entries, oldest first.
    pub fn to_entries(&self) -> (entries: Vec<(AccountId, V)>)
        ensures
            entries_view(entries@) == self@,
            distinct_keys(self@),
    {
        proof {
            use_type_invariant(self);
        }
        let mut entries: Vec<(AccountId, V)> = Vec::new();
        let mut i: usize = 0;
        while i < self.entries.len()
            invariant
                i <= self.entries@.len(),
                entries@.len() == i,
                forall|k: int|
                    0 <= k < i ==> (#[trigger] entries@[k]).0@ == self.entries@[k].0@
                        && entries@[k].1 == self.entries@[k].1,
            decreases self.entries@.len() - i,
        {
            entries.push((self.entries[i].0.clone(), self.entries[i].1));
            i += 1;
        }
        entries
    }

    /// The number of entries.
    pub fn len(&self) -> (n: usize)
        ensures
            n == self@.len(),
            distinct_keys(self@),
    {
        proof {
            use_type_invariant(self);
        }
        self.entries.len()
    }

    fn position(&self, key: &AccountId) -> (place: Option<usize>)
        ensures
            distinct_keys(self@),
            match place {
                Some(i) => i < self@.len() && self@[i as int].0 == key@ && index_of(self@, key@)
                    == i,
                None => !has_key(self@, key@),
            },
    {
        proof {
            use_type_invariant(self);
        }
        let mut i: usize = 0;
        while i < self.entries.len()
            invariant
                i <= self.entries@.len(),
                self@.len() == self.entries@.len(),
                distinct_keys(self@),
                forall|j: int| 0 <= j < i ==> (#[trigger] self@[j]).0 != key@,
            decreases self.entries@.len() - i,
        {
            if self.entries[i].0 == *key {
                proof {
                    lemma_lookup_at(self@, i as int);
                }
                return Some(i);
            }
            i += 1;
        }
        None
    }

    /// The value filed under `key`, if any.
    pub fn get(&self, key: &AccountId) -> (value: Option<V>)
        ensures
            value == lookup(self@, key@),
            distinct_keys(self@),
    {
        match self.position(key) {
            Some(i) => Some(self.entries[i].1),
            None => None,
        }
    }

    /// Whether an entry is filed under `key`.
    pub fn contains_key(&self, key: &AccountId) -> (found: bool)
        ensures
            found == has_key(self@, key@),
            distinct_keys(self@),
    {
        self.position(key).is_some()
    }

    /// Files `value` under `key`: in place of the value that was there, or as
    /// the last entry.
    pub fn set(&mut self, key: AccountId, value: V)
        ensures
            final(self)@ == put(old(self)@, key@, value),
            distinct_keys(old(self)@),
            distinct_keys(final(self)@),
    {
        let place = self.position(&key);
        proof {
            lemma_put(self@, key@, value, key@);
        }
        let ghost before = self@;
        let mut entries: Vec<(AccountId, V)> = Vec::new();
        core::mem::swap(&mut self.entries, &mut entries);
        match place {
            Some(i) => {
                entries.set(i, (key, value));
            },
            None => {
                entries.push((key, value));
            },
        }
        assert(entries_view(entries@) =~= put(before, key@, value));
        self.entries = entries;
    }

    /// Takes out the entry filed under `key` and hands back its value.
    pub fn remove(&mut self, key: &AccountId) -> (value: Option<V>)
        ensures
            final(self)@ == without(old(self)@, key@),
            value == lookup(old(self)@, key@),
            distinct_keys(old(self)@),
            distinct_keys(final(self)@),
    {
        match self.position(key) {
            Some(i) => {
                proof {
                    lemma_without(self@, key@, key@);
                }
                let ghost before = self@;
                let mut entries: Vec<(AccountId, V)> = Vec::new();
                core::mem::swap(&mut self.entries, &mut entries);
                let gone = entries.remove(i);
                assert(entries_view(entries@) =~= without(before, key@));
                self.entries = entries;
                Some(gone.1)
            },
            None => None,
        }
    }

    /// The entry at place `i`, counted from the oldest.
    pub fn entry(&self, i: usize) -> (pair: (AccountId, V))
        requires
            i < self@.len(),
        ensures
            pair.0@ == self@[i as int].0,
            pair.1 == self@[i as int].1,
    {
        (self.entries[i].0.clone(), self.entries[i].1)
    }
}

} // verus!
