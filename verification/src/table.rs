//! Keyed stores: finite maps held as lists of entries, and the traits that
//! their keys and values implement.

use vstd::prelude::*;

verus! {

/// A value that can be copied, the copy having the same model.
pub trait Stored: DeepView + Sized {
    fn replicate(&self) -> (r: Self)
        ensures
            r.deep_view() == self.deep_view(),
    ;
}

/// A key of a keyed store: two keys can be compared, and the answer is that of
/// their models.
pub trait Key: Stored {
    fn same(&self, other: &Self) -> (b: bool)
        ensures
            b == (self.deep_view() == other.deep_view()),
    ;
}

impl Stored for String {
    fn replicate(&self) -> (r: Self) {
        self.clone()
    }
}

impl Key for String {
    fn same(&self, other: &Self) -> (b: bool) {
        *self == *other
    }
}

impl Stored for u128 {
    fn replicate(&self) -> (r: Self) {
        *self
    }
}

impl Stored for (String, u64) {
    fn replicate(&self) -> (r: Self) {
        (self.0.clone(), self.1)
    }
}

impl Key for (String, u64) {
    fn same(&self, other: &Self) -> (b: bool) {
        self.0 == other.0 && self.1 == other.1
    }
}

impl<T: Stored> Stored for Option<T> {
    fn replicate(&self) -> (r: Self) {
        match self {
            Some(t) => Some(t.replicate()),
            None => None,
        }
    }
}

impl<T: Stored> Stored for Vec<T> {
    fn replicate(&self) -> (r: Self) {
        let mut out: Vec<T> = Vec::new();
        let mut i: usize = 0;
        while i < self.len()
            invariant
                i <= self@.len(),
                out@.len() == i,
                forall|j: int| 0 <= j < i ==> (#[trigger] out@[j]).deep_view() == self@[j].deep_view(),
            decreases self@.len() - i,
        {
            out.push(self[i].replicate());
            i += 1;
        }
        assert(out.deep_view() =~= self.deep_view());
        out
    }
}

/// The map that a list of entries stands for: a later entry wins over an earlier one.
pub open spec fn entries_map<K: DeepView, V: DeepView>(s: Seq<(K, V)>) -> Map<K::V, V::V>
    decreases s.len(),
{
    if s.len() == 0 {
        Map::empty()
    } else {
        entries_map(s.drop_last()).insert(s.last().0.deep_view(), s.last().1.deep_view())
    }
}

/// No key occurs in two entries.
pub open spec fn distinct_keys<K: DeepView, V>(s: Seq<(K, V)>) -> bool {
    forall|i: int, j: int|
        0 <= i < j < s.len() ==> (#[trigger] s[i]).0.deep_view() != (#[trigger] s[j]).0.deep_view()
}

/// The sum of the amounts that a list of entries holds.
pub open spec fn amounts_sum<K>(s: Seq<(K, u128)>) -> nat
    decreases s.len(),
{
    if s.len() == 0 {
        0
    } else {
        amounts_sum(s.drop_last()) + s.last().1 as nat
    }
}

/// A key that heads no entry is not in the map.
pub proof fn lemma_entries_map_absent<K: DeepView, V: DeepView>(s: Seq<(K, V)>, k: K::V)
    requires
        forall|i: int| 0 <= i < s.len() ==> (#[trigger] s[i]).0.deep_view() != k,
    ensures
        !entries_map(s).contains_key(k),
    decreases s.len(),
{
    if s.len() > 0 {
        lemma_entries_map_absent(s.drop_last(), k);
    }
}

/// Where no key occurs twice, each entry is found in the map under its key.
pub proof fn lemma_entries_map_present<K: DeepView, V: DeepView>(s: Seq<(K, V)>, i: int)
    requires
        distinct_keys(s),
        0 <= i < s.len(),
    ensures
        entries_map(s).contains_key(s[i].0.deep_view()),
        entries_map(s)[s[i].0.deep_view()] == s[i].1.deep_view(),
    decreases s.len(),
{
    if i < s.len() - 1 {
        lemma_entries_map_present(s.drop_last(), i);
        assert(s.drop_last()[i] == s[i]);
        assert(s[i].0.deep_view() != s[s.len() - 1].0.deep_view());
    }
}

/// Replacing the entry of a key is inserting into the map.
pub proof fn lemma_entries_map_update<K: DeepView, V: DeepView>(s: Seq<(K, V)>, i: int, e: (K, V))
    requires
        distinct_keys(s),
        0 <= i < s.len(),
        e.0.deep_view() == s[i].0.deep_view(),
    ensures
        distinct_keys(s.update(i, e)),
        entries_map(s.update(i, e)) == entries_map(s).insert(e.0.deep_view(), e.1.deep_view()),
    decreases s.len(),
{
    let t = s.update(i, e);
    assert(distinct_keys(t)) by {
        assert forall|a: int, b: int| 0 <= a < b < t.len() implies (#[trigger] t[a]).0.deep_view()
            != (#[trigger] t[b]).0.deep_view() by {
            assert(s[a].0.deep_view() != s[b].0.deep_view());
        }
    }
    if i == s.len() - 1 {
        assert(t.drop_last() =~= s.drop_last());
        assert(entries_map(t) =~= entries_map(s).insert(e.0.deep_view(), e.1.deep_view()));
    } else {
        assert(t.drop_last() =~= s.drop_last().update(i, e));
        assert(s.drop_last()[i] == s[i]);
        lemma_entries_map_update(s.drop_last(), i, e);
        assert(s[i].0.deep_view() != s[s.len() - 1].0.deep_view());
        assert(t.last() == s.last());
        assert(entries_map(t) =~= entries_map(s).insert(e.0.deep_view(), e.1.deep_view()));
    }
}

/// Replacing one amount changes the sum by the difference.
pub proof fn lemma_amounts_sum_update<K>(s: Seq<(K, u128)>, i: int, e: (K, u128))
    requires
        0 <= i < s.len(),
    ensures
        amounts_sum(s.update(i, e)) + s[i].1 == amounts_sum(s) + e.1,
        s[i].1 <= amounts_sum(s),
    decreases s.len(),
{
    let t = s.update(i, e);
    if i == s.len() - 1 {
        assert(t.drop_last() =~= s.drop_last());
    } else {
        assert(t.drop_last() =~= s.drop_last().update(i, e));
        assert(s.drop_last()[i] == s[i]);
        lemma_amounts_sum_update(s.drop_last(), i, e);
        assert(t.last() == s.last());
    }
}

/// The amounts of a prefix sum to no more than those of the whole list.
pub proof fn lemma_amounts_sum_prefix<K>(s: Seq<(K, u128)>, n: int)
    requires
        0 <= n <= s.len(),
    ensures
        amounts_sum(s.take(n)) <= amounts_sum(s),
    decreases s.len(),
{
    if n == s.len() {
        assert(s.take(n) =~= s);
    } else {
        assert(s.drop_last().take(n) =~= s.take(n));
        lemma_amounts_sum_prefix(s.drop_last(), n);
    }
}

/// Two lists that hold the same amounts in the same order have the same sum.
pub proof fn lemma_same_amounts<K>(a: Seq<(K, u128)>, b: Seq<(K, u128)>)
    requires
        a.len() == b.len(),
        forall|j: int| 0 <= j < a.len() ==> (#[trigger] a[j]).1 == b[j].1,
    ensures
        amounts_sum(a) == amounts_sum(b),
    decreases a.len(),
{
    if a.len() > 0 {
        lemma_same_amounts(a.drop_last(), b.drop_last());
    }
}

/// A keyed store: a finite map from keys to values, in which no key is held twice.
pub struct Table<K, V> {
    entries: Vec<(K, V)>,
}

impl<K: Key, V: Stored> Table<K, V> {
    /// No key is held twice.
    pub closed spec fn wf(&self) -> bool {
        distinct_keys(self.entries@)
    }

    /// The map that the store holds.
    pub closed spec fn view(&self) -> Map<K::V, V::V> {
        entries_map(self.entries@)
    }

    /// The empty store.
    pub fn new() -> (t: Self)
        ensures
            t.wf(),
            t@ == Map::<K::V, V::V>::empty(),
    {
        Table { entries: Vec::new() }
    }

    fn position(&self, key: &K) -> (r: Option<usize>)
        ensures
            match r {
                Some(i) => i < self.entries@.len() && self.entries@[i as int].0.deep_view()
                    == key.deep_view(),
                None => forall|i: int|
                    0 <= i < self.entries@.len() ==> (#[trigger] self.entries@[i]).0.deep_view()
                        != key.deep_view(),
            },
    {
        let mut i: usize = 0;
        while i < self.entries.len()
            invariant
                i <= self.entries@.len(),
                forall|j: int|
                    0 <= j < i ==> (#[trigger] self.entries@[j]).0.deep_view() != key.deep_view(),
            decreases self.entries@.len() - i,
        {
            if self.entries[i].0.same(key) {
                return Some(i);
            }
            i += 1;
        }
        None
    }

    /// Whether the store holds the key.
    pub fn contains(&self, key: &K) -> (b: bool)
        requires
            self.wf(),
        ensures
            b == self@.contains_key(key.deep_view()),
    {
        match self.position(key) {
            Some(i) => {
                proof {
                    lemma_entries_map_present(self.entries@, i as int);
                }
                true
            },
            None => {
                proof {
                    lemma_entries_map_absent(self.entries@, key.deep_view());
                }
                false
            },
        }
    }

    /// The value held under the key, if there is one. The store is left as it is.
    pub fn get(&self, key: &K) -> (r: Option<&V>)
        requires
            self.wf(),
        ensures
            match r {
                Some(v) => self@.contains_key(key.deep_view()) && self@[key.deep_view()]
                    == v.deep_view(),
                None => !self@.contains_key(key.deep_view()),
            },
    {
        match self.position(key) {
            Some(i) => {
                proof {
                    lemma_entries_map_present(self.entries@, i as int);
                }
                Some(&self.entries[i].1)
            },
            None => {
                proof {
                    lemma_entries_map_absent(self.entries@, key.deep_view());
                }
                None
            },
        }
    }

    /// Puts the value under the key, in place of what was there.
    pub fn insert(&mut self, key: K, value: V)
        requires
            old(self).wf(),
        ensures
            final(self).wf(),
            final(self)@ == old(self)@.insert(key.deep_view(), value.deep_view()),
    {
        match self.position(&key) {
            Some(i) => {
                proof {
                    lemma_entries_map_update(self.entries@, i as int, (key, value));
                }
                self.entries.set(i, (key, value));
            },
            None => {
                proof {
                    assert(self.entries@.push((key, value)).drop_last() =~= self.entries@);
                }
                self.entries.push((key, value));
            },
        }
    }

    proof fn lemma_same_models(a: Seq<(K, V)>, b: Seq<(K, V)>)
        requires
            a.len() == b.len(),
            forall|j: int|
                0 <= j < a.len() ==> (#[trigger] a[j]).0.deep_view() == b[j].0.deep_view()
                    && a[j].1.deep_view() == b[j].1.deep_view(),
        ensures
            entries_map(a) == entries_map(b),
            distinct_keys(b) ==> distinct_keys(a),
        decreases a.len(),
    {
        if a.len() > 0 {
            Self::lemma_same_models(a.drop_last(), b.drop_last());
            assert(a.last().0.deep_view() == b.last().0.deep_view());
        }
        if distinct_keys(b) {
            assert forall|i: int, j: int| 0 <= i < j < a.len() implies (#[trigger] a[i]).0.deep_view()
                != (#[trigger] a[j]).0.deep_view() by {
                assert(b[i].0.deep_view() != b[j].0.deep_view());
            }
        }
    }

    /// The entries of the store, one for each key that it holds.
    pub fn entries(&self) -> (r: &Vec<(K, V)>)
        ensures
            entries_map(r@) == self@,
            self.wf() ==> distinct_keys(r@),
    {
        &self.entries
    }

    /// The store that holds the given entries, a later one winning over an earlier one
    /// with the same key.
    pub fn from_entries(entries: &Vec<(K, V)>) -> (t: Self)
        ensures
            t.wf(),
            t@ == entries_map(entries@),
    {
        let mut t: Self = Table::new();
        let mut i: usize = 0;
        while i < entries.len()
            invariant
                i <= entries@.len(),
                t.wf(),
                t@ == entries_map(entries@.take(i as int)),
            decreases entries@.len() - i,
        {
            let k = entries[i].0.replicate();
            let v = entries[i].1.replicate();
            proof {
                assert(entries@.take(i + 1).drop_last() =~= entries@.take(i as int));
                assert(entries@.take(i + 1).last() == entries@[i as int]);
            }
            t.insert(k, v);
            i += 1;
        }
        proof {
            assert(entries@.take(i as int) =~= entries@);
        }
        t
    }
}

impl<K: Key> Table<K, u128> {
    /// The sum of all amounts held.
    pub closed spec fn total(&self) -> nat {
        amounts_sum(self.entries@)
    }

    /// The amount held under a key: 0 where the store does not hold the key.
    pub open spec fn amount_of(&self, key: K::V) -> u128 {
        if self@.contains_key(key) {
            self@[key]
        } else {
            0
        }
    }

    /// No amount is above the sum of all.
    pub proof fn lemma_amount_le_total(&self, key: K::V)
        requires
            self.wf(),
        ensures
            self.amount_of(key) <= self.total(),
    {
        if self@.contains_key(key) {
            if exists|i: int|
                0 <= i < self.entries@.len() && (#[trigger] self.entries@[i]).0.deep_view() == key {
                let i = choose|i: int|
                    0 <= i < self.entries@.len() && (#[trigger] self.entries@[i]).0.deep_view()
                        == key;
                lemma_entries_map_present(self.entries@, i);
                lemma_amounts_sum_update(self.entries@, i, self.entries@[i]);
            } else {
                lemma_entries_map_absent(self.entries@, key);
            }
        }
    }

    /// The empty store holds nothing.
    pub proof fn lemma_total_of_empty(&self)
        requires
            self@ == Map::<K::V, u128>::empty(),
            self.wf(),
        ensures
            self.total() == 0,
    {
        if self.entries@.len() > 0 {
            lemma_entries_map_present(self.entries@, 0);
        }
    }

    /// The store that holds the given amounts, a later one winning over an earlier one
    /// with the same key. Where no key is given twice, the store holds what the list
    /// sums to.
    pub fn from_amounts(entries: &Vec<(K, u128)>) -> (t: Self)
        ensures
            t.wf(),
            t@ == entries_map(entries@),
            distinct_keys(entries@) ==> t.total() == amounts_sum(entries@),
    {
        let mut t: Self = Table::new();
        let mut i: usize = 0;
        proof {
            t.lemma_total_of_empty();
            assert(entries@.take(0) =~= Seq::empty());
        }
        while i < entries.len()
            invariant
                i <= entries@.len(),
                t.wf(),
                t@ == entries_map(entries@.take(i as int)),
                distinct_keys(entries@) ==> t.total() == amounts_sum(entries@.take(i as int)),
            decreases entries@.len() - i,
        {
            let k = entries[i].0.replicate();
            proof {
                let next = entries@.take(i + 1);
                assert(next.drop_last() =~= entries@.take(i as int));
                assert(next.last() == entries@[i as int]);
                if distinct_keys(entries@) {
                    assert forall|j: int| 0 <= j < i implies (#[trigger] entries@.take(
                        i as int,
                    )[j]).0.deep_view() != k.deep_view() by {
                        assert(entries@[j].0.deep_view() != entries@[i as int].0.deep_view());
                    }
                    lemma_entries_map_absent(entries@.take(i as int), k.deep_view());
                }
            }
            t.set_amount(k, entries[i].1);
            i += 1;
        }
        proof {
            assert(entries@.take(i as int) =~= entries@);
        }
        t
    }

    /// A copy of the store, which holds the same amounts.
    pub fn duplicate_amounts(&self) -> (t: Self)
        requires
            self.wf(),
        ensures
            t.wf(),
            t@ == self@,
            t.total() == self.total(),
    {
        let mut out: Vec<(K, u128)> = Vec::new();
        let mut i: usize = 0;
        while i < self.entries.len()
            invariant
                i <= self.entries@.len(),
                out@.len() == i,
                forall|j: int|
                    0 <= j < i ==> (#[trigger] out@[j]).0.deep_view()
                        == self.entries@[j].0.deep_view() && out@[j].1 == self.entries@[j].1,
            decreases self.entries@.len() - i,
        {
            let k = self.entries[i].0.replicate();
            out.push((k, self.entries[i].1));
            i += 1;
        }
        proof {
            Self::lemma_same_models(out@, self.entries@);
            lemma_same_amounts(out@, self.entries@);
        }
        Table { entries: out }
    }

    /// The sum of all amounts held, where it fits in 128 bits.
    pub fn checked_total(&self) -> (r: Option<u128>)
        ensures
            match r {
                Some(t) => t == self.total(),
                None => self.total() > u128::MAX,
            },
    {
        let mut sum: u128 = 0;
        let mut i: usize = 0;
        while i < self.entries.len()
            invariant
                i <= self.entries@.len(),
                sum == amounts_sum(self.entries@.take(i as int)),
            decreases self.entries@.len() - i,
        {
            proof {
                assert(self.entries@.take(i + 1).drop_last() =~= self.entries@.take(i as int));
                assert(self.entries@.take(i + 1).last() == self.entries@[i as int]);
                lemma_amounts_sum_prefix(self.entries@, i + 1);
            }
            match sum.checked_add(self.entries[i].1) {
                Some(next) => {
                    sum = next;
                },
                None => {
                    return None;
                },
            }
            i += 1;
        }
        proof {
            assert(self.entries@.take(i as int) =~= self.entries@);
        }
        Some(sum)
    }

    /// Sets the amount held under a key. The sum of all amounts changes by the
    /// difference.
    pub fn set_amount(&mut self, key: K, amount: u128)
        requires
            old(self).wf(),
        ensures
            final(self).wf(),
            final(self)@ == old(self)@.insert(key.deep_view(), amount),
            final(self).total() + old(self).amount_of(key.deep_view()) == old(self).total()
                + amount,
    {
        match self.position(&key) {
            Some(i) => {
                proof {
                    lemma_entries_map_update(self.entries@, i as int, (key, amount));
                    lemma_entries_map_present(self.entries@, i as int);
                    lemma_amounts_sum_update(self.entries@, i as int, (key, amount));
                }
                self.entries.set(i, (key, amount));
            },
            None => {
                proof {
                    assert(self.entries@.push((key, amount)).drop_last() =~= self.entries@);
                    lemma_entries_map_absent(self.entries@, key.deep_view());
                }
                self.entries.push((key, amount));
            },
        }
    }
}

} // verus!
