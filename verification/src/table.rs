//! A keyed table: the rows that a contract keeps under one family of storage keys.

use vstd::prelude::*;

verus! {

/// A value that rows are looked up by. Two keys are the same row exactly when their views agree.
pub trait Key: View + Sized {
    fn same(&self, other: &Self) -> (r: bool)
        ensures
            r == (self@ == other@),
    ;
}

impl Key for u64 {
    fn same(&self, other: &Self) -> (r: bool) {
        *self == *other
    }
}

/// Rows of a contract's storage, seen as a map from keys to values.
pub struct Table<K, V> {
    rows: Vec<(K, V)>,
}

/// Whether row `i` is the one that key `k` finds.
spec fn found_at<K: Key, V>(rows: Seq<(K, V)>, k: K::V, i: int) -> bool {
    &&& 0 <= i < rows.len()
    &&& rows[i].0@ == k
    &&& forall|j: int| 0 <= j < i ==> (#[trigger] rows[j]).0@ != k
}

impl<K: Key, V> View for Table<K, V> {
    type V = Map<K::V, V>;

    closed spec fn view(&self) -> Map<K::V, V> {
        as_map(self.rows@)
    }
}

impl<K: Key, V> Table<K, V> {
    /// A table without rows.
    pub fn new() -> (table: Self)
        ensures
            table@ == Map::<K::V, V>::empty(),
    {
        let table = Table { rows: Vec::new() };
        assert(table@ =~= Map::<K::V, V>::empty());
        table
    }

    /// The position of the row under `key`, if there is one.
    fn position(&self, key: &K) -> (r: Option<usize>)
        ensures
            match r {
                Some(i) => found_at(self.rows@, key@, i as int),
                None => forall|i: int| 0 <= i < self.rows@.len() ==> (#[trigger] self.rows@[i]).0@
                    != key@,
            },
    {
        let mut i: usize = 0;
        while i < self.rows.len()
            invariant
                i <= self.rows@.len(),
                forall|j: int| 0 <= j < i ==> (#[trigger] self.rows@[j]).0@ != key@,
            decreases self.rows@.len() - i,
        {
            if self.rows[i].0.same(key) {
                return Some(i);
            }
            i += 1;
        }
        None
    }

    /// The value stored under `key`.
    pub fn get(&self, key: &K) -> (r: Option<&V>)
        ensures
            match r {
                Some(v) => self@.contains_key(key@) && *v == self@[key@],
                None => !self@.contains_key(key@),
            },
    {
        match self.position(key) {
            Some(i) => {
                proof {
                    lemma_found_once(self.rows@, key@, i as int);
                }
                Some(&self.rows[i].1)
            },
            None => None,
        }
    }

    /// Stores `value` under `key`, in place of what was there.
    pub fn set(&mut self, key: K, value: V)
        ensures
            final(self)@ == old(self)@.insert(key@, value),
    {
        let ghost before = self.rows@;
        match self.position(&key) {
            Some(i) => {
                self.rows.set(i, (key, value));
                proof {
                    lemma_replaced(before, self.rows@, key, value, i as int);
                }
            },
            None => {
                self.rows.push((key, value));
                proof {
                    lemma_appended(before, self.rows@, key, value);
                }
            },
        }
    }
}

/// The map that a sequence of rows stands for.
spec fn as_map<K: Key, V>(rows: Seq<(K, V)>) -> Map<K::V, V> {
    Map::new(
        |k: K::V| exists|i: int| found_at(rows, k, i),
        |k: K::V| rows[choose|i: int| found_at(rows, k, i)].1,
    )
}

proof fn lemma_found_once<K: Key, V>(rows: Seq<(K, V)>, k: K::V, i: int)
    requires
        found_at(rows, k, i),
    ensures
        (choose|j: int| found_at(rows, k, j)) == i,
{
    let at = choose|j: int| found_at(rows, k, j);
    assert(found_at(rows, k, at));
    if at < i {
        assert(rows[at].0@ != k);
    } else if i < at {
        assert(rows[i].0@ != k);
    }
}

proof fn lemma_replaced<K: Key, V>(
    before: Seq<(K, V)>,
    after: Seq<(K, V)>,
    key: K,
    value: V,
    i: int,
)
    requires
        found_at(before, key@, i),
        after == before.update(i, (key, value)),
    ensures
        as_map(after) == as_map(before).insert(key@, value),
{
    assert forall|k: K::V, j: int| found_at(before, k, j) implies found_at(after, k, j) by {}
    assert forall|k: K::V, j: int| found_at(after, k, j) implies found_at(before, k, j) by {
        assert forall|m: int| 0 <= m < j implies (#[trigger] before[m]).0@ != k by {
            assert(after[m].0@ != k);
        }
    }
    assert forall|k: K::V| as_map(after).contains_key(k) implies #[trigger] as_map(after)[k]
        == as_map(before).insert(key@, value)[k] by {
        let j = choose|j: int| found_at(after, k, j);
        lemma_found_once(after, k, j);
        lemma_found_once(before, k, j);
        if k == key@ {
            lemma_found_once(before, k, i);
        } else {
            assert(j != i);
        }
    }
    assert(as_map(after) =~= as_map(before).insert(key@, value));
}

proof fn lemma_appended<K: Key, V>(before: Seq<(K, V)>, after: Seq<(K, V)>, key: K, value: V)
    requires
        forall|i: int| 0 <= i < before.len() ==> (#[trigger] before[i]).0@ != key@,
        after == before.push((key, value)),
    ensures
        as_map(after) == as_map(before).insert(key@, value),
{
    let last = before.len() as int;
    assert(found_at(after, key@, last));
    assert forall|k: K::V, j: int| found_at(before, k, j) implies found_at(after, k, j) by {}
    assert forall|k: K::V, j: int| found_at(after, k, j) && k != key@ implies found_at(
        before,
        k,
        j,
    ) by {
        assert(j != last);
        assert forall|m: int| 0 <= m < j implies (#[trigger] before[m]).0@ != k by {
            assert(after[m].0@ != k);
        }
    }
    assert forall|k: K::V| as_map(after).contains_key(k) implies #[trigger] as_map(after)[k]
        == as_map(before).insert(key@, value)[k] by {
        let j = choose|j: int| found_at(after, k, j);
        lemma_found_once(after, k, j);
        if k == key@ {
            lemma_found_once(after, k, last);
        } else {
            lemma_found_once(before, k, j);
        }
    }
    assert(as_map(after) =~= as_map(before).insert(key@, value));
}

/// Changing every value of a map and storing one more commute.
pub proof fn lemma_map_values_insert<A, B, C>(m: Map<A, B>, f: spec_fn(B) -> C, k: A, v: B)
    ensures
        m.insert(k, v).map_values(f) == m.map_values(f).insert(k, f(v)),
{
    assert(m.insert(k, v).map_values(f) =~= m.map_values(f).insert(k, f(v)));
}

} // verus!
