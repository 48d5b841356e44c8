//! A table of values under distinct keys, kept in a vector.

use vstd::prelude::*;

verus! {

/// A key that can be compared for equality.
pub trait Key: Copy {
    /// Tells whether two keys are the same.
    fn same(&self, other: &Self) -> (b: bool)
        ensures
            b == (*self == *other),
    ;
}

/// Values under distinct keys.
#[derive(Debug)]
pub struct Table<K: Key, V> {
    entries: Vec<(K, V)>,
}

/// The position of `k` in `s`, or `s.len()` where it is not there.
pub open spec fn position_of<K, V>(s: Seq<(K, V)>, k: K) -> int
    decreases s.len(),
{
    if s.len() == 0 {
        0
    } else if s[0].0 == k {
        0
    } else {
        1 + position_of(s.drop_first(), k)
    }
}

/// `position_of` finds the first entry under `k`.
proof fn lemma_position<K, V>(s: Seq<(K, V)>, k: K)
    ensures
        0 <= position_of(s, k) <= s.len(),
        position_of(s, k) < s.len() ==> s[position_of(s, k)].0 == k,
        forall|j: int| 0 <= j < position_of(s, k) ==> s[j].0 != k,
    decreases s.len(),
{
    if s.len() > 0 && s[0].0 != k {
        lemma_position(s.drop_first(), k);
        assert forall|j: int| 0 <= j < position_of(s, k) implies s[j].0 != k by {
            if j > 0 {
                assert(s.drop_first()[j - 1].0 != k);
            }
        }
    }
}

/// No key stands twice.
pub open spec fn distinct<K, V>(s: Seq<(K, V)>) -> bool {
    forall|i: int, j: int| 0 <= i < j < s.len() ==> (#[trigger] s[i]).0 != (#[trigger] s[j]).0
}

/// The map that a list of entries writes down.
pub open spec fn map_of<K, V>(s: Seq<(K, V)>) -> Map<K, V> {
    Map::new(|k: K| position_of(s, k) < s.len(), |k: K| s[position_of(s, k)].1)
}

/// With distinct keys, the entry under `k` is the one at its position.
proof fn lemma_distinct_position<K, V>(s: Seq<(K, V)>, i: int)
    requires
        distinct(s),
        0 <= i < s.len(),
    ensures
        position_of(s, s[i].0) == i,
{
    lemma_position(s, s[i].0);
    let p = position_of(s, s[i].0);
    if p < i {
        assert(s[p].0 != s[i].0);
    }
}

impl<K: Key, V> View for Table<K, V> {
    type V = Map<K, V>;

    closed spec fn view(&self) -> Map<K, V> {
        map_of(self.entries@)
    }
}

impl<K: Key, V> Table<K, V> {
    #[verifier::type_invariant]
    spec fn keys_distinct(self) -> bool {
        distinct(self.entries@)
    }

    /// A table without entries.
    pub fn new() -> (r: Self)
        ensures
            r@ == Map::<K, V>::empty(),
    {
        let r = Table { entries: Vec::new() };
        assert(r@ =~= Map::<K, V>::empty());
        r
    }

    /// The index of the entry under `k`.
    fn find(&self, k: &K) -> (r: Option<usize>)
        ensures
            match r {
                Some(i) => position_of(self.entries@, *k) == i && i < self.entries.len(),
                None => position_of(self.entries@, *k) == self.entries.len(),
            },
    {
        let mut i: usize = 0;
        proof {
            lemma_position(self.entries@, *k);
        }
        while i < self.entries.len()
            invariant
                i <= self.entries.len(),
                0 <= position_of(self.entries@, *k) <= self.entries@.len(),
                position_of(self.entries@, *k) < self.entries@.len() ==> self.entries@[position_of(
                    self.entries@,
                    *k,
                )].0 == *k,
                forall|j: int|
                    0 <= j < position_of(self.entries@, *k) ==> self.entries@[j].0 != *k,
                forall|j: int| 0 <= j < i ==> self.entries@[j].0 != *k,
            decreases self.entries.len() - i,
        {
            if self.entries[i].0.same(k) {
                return Some(i);
            }
            i += 1;
        }
        None
    }

    /// The value under `k`.
    pub fn get(&self, k: &K) -> (r: Option<&V>)
        ensures
            match r {
                Some(v) => self@.dom().contains(*k) && self@[*k] == *v,
                None => !self@.dom().contains(*k),
            },
    {
        match self.find(k) {
            Some(i) => Some(&self.entries[i].1),
            None => None,
        }
    }

    /// Tells whether there is a value under `k`.
    pub fn contains(&self, k: &K) -> (b: bool)
        ensures
            b == self@.dom().contains(*k),
    {
        match self.find(k) {
            Some(_) => true,
            None => false,
        }
    }

    /// Puts `v` under `k`, in place of what was there.
    pub fn insert(&mut self, k: K, v: V)
        ensures
            final(self)@ == old(self)@.insert(k, v),
    {
        proof {
            use_type_invariant(&*self);
        }
        let found = self.find(&k);
        let mut entries: Vec<(K, V)> = Vec::new();
        std::mem::swap(&mut entries, &mut self.entries);
        let ghost before = entries@;
        proof {
            lemma_position(before, k);
        }
        match found {
            Some(i) => {
                entries.set(i, (k, v));
            },
            None => {
                entries.push((k, v));
            },
        }
        proof {
            let after = entries@;
            if found is None {
                assert(after.drop_last() =~= before);
            }
            assert(distinct(after));
            assert forall|q: K| #[trigger]
                map_of(after).dom().contains(q) == map_of(before).insert(k, v).dom().contains(
                    q,
                ) by {
                lemma_position(after, q);
                lemma_position(before, q);
                lemma_same_positions(before, after, k, q);
            }
            assert forall|q: K| #[trigger]
                map_of(after).dom().contains(q) implies map_of(after)[q] == map_of(before).insert(
                k,
                v,
            )[q] by {
                lemma_position(after, q);
                lemma_position(before, q);
                lemma_same_positions(before, after, k, q);
            }
            assert(map_of(after) =~= map_of(before).insert(k, v));
        }
        self.entries = entries;
    }

    /// Takes the value under `k` out.
    pub fn remove(&mut self, k: &K)
        ensures
            final(self)@ == old(self)@.remove(*k),
    {
        proof {
            use_type_invariant(&*self);
        }
        let found = self.find(k);
        let mut entries: Vec<(K, V)> = Vec::new();
        std::mem::swap(&mut entries, &mut self.entries);
        let ghost before = entries@;
        proof {
            lemma_position(before, *k);
        }
        match found {
            Some(i) => {
                let _ = entries.remove(i);
                proof {
                    let after = entries@;
                    assert(after == before.remove(i as int));
                    assert(distinct(after));
                    assert forall|q: K| #[trigger]
                        map_of(after).dom().contains(q) == map_of(before).remove(
                            *k,
                        ).dom().contains(q) by {
                        lemma_removed_positions(before, i as int, q);
                    }
                    assert forall|q: K| #[trigger]
                        map_of(after).dom().contains(q) implies map_of(after)[q] == map_of(
                        before,
                    ).remove(*k)[q] by {
                        lemma_removed_positions(before, i as int, q);
                    }
                    assert(map_of(after) =~= map_of(before).remove(*k));
                }
            },
            None => {
                assert(map_of(before) =~= map_of(before).remove(*k));
            },
        }
        self.entries = entries;
    }

    /// Takes everything out.
    pub fn clear(&mut self)
        ensures
            final(self)@ == Map::<K, V>::empty(),
    {
        *self = Table::new();
    }

    /// Tells whether the table has no entry.
    pub fn is_empty(&self) -> (b: bool)
        ensures
            b == (self@ == Map::<K, V>::empty()),
    {
        proof {
            if self.entries@.len() == 0 {
                assert(self@ =~= Map::<K, V>::empty());
            } else {
                let k = self.entries@[0].0;
                assert(self@.dom().contains(k));
            }
        }
        self.entries.len() == 0
    }
}

/// Replacing or appending the entry under `k` moves no other key.
proof fn lemma_same_positions<K, V>(before: Seq<(K, V)>, after: Seq<(K, V)>, k: K, q: K)
    requires
        distinct(before),
        distinct(after),
        ({
            let p = position_of(before, k);
            ||| p < before.len() && after.len() == before.len() && after[p].0 == k && forall|j: int|
                0 <= j < before.len() && j != p ==> after[j] == before[j]
            ||| p == before.len() && after.len() == before.len() + 1 && after.last().0 == k && after.drop_last()
                == before
        }),
    ensures
        q != k ==> (position_of(after, q) < after.len() <==> position_of(before, q) < before.len()),
        q != k && position_of(before, q) < before.len() ==> position_of(after, q) == position_of(
            before,
            q,
        ) && after[position_of(after, q)] == before[position_of(before, q)],
        position_of(after, k) < after.len(),
        position_of(after, k) == position_of(before, k),
{
    lemma_position(before, k);
    lemma_position(after, k);
    lemma_position(before, q);
    lemma_position(after, q);
    let p = position_of(before, k);
    assert(after[p].0 == k);
    lemma_distinct_position(after, p);
    if q != k {
        let b = position_of(before, q);
        let a = position_of(after, q);
        if b < before.len() {
            assert(after[b] == before[b]) by {
                if p == before.len() {
                    assert(after.drop_last()[b] == before[b]);
                }
            }
            lemma_distinct_position(after, b);
        }
        if a < after.len() {
            assert(a != p);
            assert(a < before.len() && after[a] == before[a]) by {
                if p == before.len() {
                    assert(after.drop_last()[a] == before[a]);
                }
            }
            lemma_distinct_position(before, a);
        }
    }
}

/// Taking one entry out leaves every other key with its value.
proof fn lemma_removed_positions<K, V>(s: Seq<(K, V)>, i: int, q: K)
    requires
        distinct(s),
        0 <= i < s.len(),
    ensures
        ({
            let t = s.remove(i);
            &&& position_of(t, q) < t.len() <==> position_of(s, q) < s.len() && q != s[i].0
            &&& position_of(t, q) < t.len() ==> t[position_of(t, q)] == s[position_of(s, q)]
        }),
{
    let t = s.remove(i);
    lemma_position(s, q);
    lemma_position(t, q);
    let a = position_of(s, q);
    let b = position_of(t, q);
    if a < s.len() && q != s[i].0 {
        let c = if a < i {
            a
        } else {
            a - 1
        };
        assert(t[c] == s[a]);
        assert(distinct(t));
        lemma_distinct_position(t, c);
    }
    if b < t.len() {
        let c = if b < i {
            b
        } else {
            b + 1
        };
        assert(t[b] == s[c]);
        lemma_distinct_position(s, c);
    }
}

} // verus!
