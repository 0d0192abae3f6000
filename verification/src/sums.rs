//! Sums over the values of a map.

use vstd::prelude::*;

verus! {

/// The sum of all values of a finite map.
pub open spec fn sum_values<K>(m: Map<K, int>) -> int
    decreases m.dom().len(),
    when m.dom().finite()
{
    if m.dom().len() == 0 {
        0
    } else {
        let k = m.dom().choose();
        m[k] + sum_values(m.remove(k))
    }
}

/// The value under a key, or zero where there is none.
pub open spec fn value_or_zero<K>(m: Map<K, int>, k: K) -> int {
    if m.contains_key(k) {
        m[k]
    } else {
        0
    }
}

/// Taking any key out of a map takes its value out of the sum.
pub proof fn lemma_sum_remove<K>(m: Map<K, int>, k: K)
    requires
        m.dom().finite(),
        m.contains_key(k),
    ensures
        sum_values(m) == m[k] + sum_values(m.remove(k)),
    decreases m.dom().len(),
{
    let first = m.dom().choose();
    assert(m.dom().contains(k));
    assert(m.dom().len() != 0);
    if first != k {
        assert(m.remove(first).dom() =~= m.dom().remove(first));
        assert(m.remove(k).dom() =~= m.dom().remove(k));
        lemma_sum_remove(m.remove(first), k);
        lemma_sum_remove(m.remove(k), first);
        assert(m.remove(first).remove(k) =~= m.remove(k).remove(first));
    }
}

/// Storing a value under a key replaces what the key contributed to the sum.
pub proof fn lemma_sum_insert<K>(m: Map<K, int>, k: K, v: int)
    requires
        m.dom().finite(),
    ensures
        m.insert(k, v).dom().finite(),
        sum_values(m.insert(k, v)) == sum_values(m) - value_or_zero(m, k) + v,
{
    let after = m.insert(k, v);
    assert(after.dom() =~= m.dom().insert(k));
    lemma_sum_remove(after, k);
    if m.contains_key(k) {
        lemma_sum_remove(m, k);
        assert(after.remove(k) =~= m.remove(k));
    } else {
        assert(after.remove(k) =~= m);
    }
}

/// Where no value is negative, no value exceeds the sum.
pub proof fn lemma_sum_bounds<K>(m: Map<K, int>)
    requires
        m.dom().finite(),
        forall|k: K| m.contains_key(k) ==> 0 <= #[trigger] m[k],
    ensures
        0 <= sum_values(m),
        forall|k: K| m.contains_key(k) ==> #[trigger] m[k] <= sum_values(m),
    decreases m.dom().len(),
{
    if m.dom().len() != 0 {
        let first = m.dom().choose();
        assert(m.remove(first).dom() =~= m.dom().remove(first));
        lemma_sum_bounds(m.remove(first));
        assert forall|k: K| m.contains_key(k) implies #[trigger] m[k] <= sum_values(m) by {
            if k != first {
                assert(m.remove(first).contains_key(k));
                assert(m.remove(first)[k] == m[k]);
            }
        }
    } else {
        assert forall|k: K| m.contains_key(k) implies #[trigger] m[k] <= sum_values(m) by {
            assert(m.dom().contains(k));
            assert(m.dom() =~= Set::<K>::empty());
        }
    }
}

} // verus!
