//! The mathematical model of a cache: the sequence of its entries, with unique keys.

use vstd::prelude::*;
use crate::cache::entry::CacheEntry;

verus! {

/// Some entry of `s` has the key `k`.
pub open spec fn has_key<V>(s: Seq<CacheEntry<V>>, k: Seq<char>) -> bool {
    exists|i: int| 0 <= i < s.len() && #[trigger] s[i].key@ == k
}

/// The position of an entry of `s` with the key `k` (meaningful when there is one).
pub open spec fn key_index<V>(s: Seq<CacheEntry<V>>, k: Seq<char>) -> int {
    choose|i: int| 0 <= i < s.len() && #[trigger] s[i].key@ == k
}

/// No two entries of `s` share a key.
pub open spec fn keys_unique<V>(s: Seq<CacheEntry<V>>) -> bool {
    forall|i: int, j: int|
        0 <= i < s.len() && 0 <= j < s.len() && i != j ==> #[trigger] s[i].key@ != #[trigger] s[j].key@
}

/// The entry of `s` with the key `k`, if any.
pub open spec fn lookup<V>(s: Seq<CacheEntry<V>>, k: Seq<char>) -> Option<CacheEntry<V>> {
    if has_key(s, k) {
        Some(s[key_index(s, k)])
    } else {
        None
    }
}

/// The cache as a map from keys to entries.
pub open spec fn entry_map<V>(s: Seq<CacheEntry<V>>) -> Map<Seq<char>, CacheEntry<V>> {
    Map::new(|k: Seq<char>| has_key(s, k), |k: Seq<char>| s[key_index(s, k)])
}

/// `s` with `e` stored under its key: in place of the entry with that key, or at the end.
pub open spec fn spec_put<V>(s: Seq<CacheEntry<V>>, e: CacheEntry<V>) -> Seq<CacheEntry<V>> {
    if has_key(s, e.key@) {
        s.update(key_index(s, e.key@), e)
    } else {
        s.push(e)
    }
}

/// `s` without the entry with the key `k`.
pub open spec fn spec_remove_key<V>(s: Seq<CacheEntry<V>>, k: Seq<char>) -> Seq<CacheEntry<V>> {
    if has_key(s, k) {
        s.remove(key_index(s, k))
    } else {
        s
    }
}

/// The elements of `s` whose decision in `d` is `true`, in order.
pub open spec fn select<T>(s: Seq<T>, d: Seq<bool>) -> Seq<T>
    decreases s.len(),
{
    if s.len() == 0 {
        Seq::empty()
    } else {
        let rest = select(s.drop_last(), d.take(s.len() - 1));
        if d[s.len() - 1] {
            rest.push(s.last())
        } else {
            rest
        }
    }
}

/// The number of `true` decisions among the first `n`.
pub open spec fn count_true(d: Seq<bool>, n: int) -> nat
    decreases n,
{
    if n <= 0 {
        0
    } else if d[n - 1] {
        count_true(d, n - 1) + 1
    } else {
        count_true(d, n - 1)
    }
}

/// In a sequence with unique keys, the entry found at a key is the one at `i`.
pub proof fn lemma_key_index_unique<V>(s: Seq<CacheEntry<V>>, i: int)
    requires
        keys_unique(s),
        0 <= i < s.len(),
    ensures
        has_key(s, s[i].key@),
        key_index(s, s[i].key@) == i,
        lookup(s, s[i].key@) == Some(s[i]),
{
    assert(s[i].key@ == s[i].key@);
}

/// Storing an entry keeps the keys unique and changes only that key.
pub proof fn lemma_put<V>(s: Seq<CacheEntry<V>>, e: CacheEntry<V>)
    requires
        keys_unique(s),
    ensures
        keys_unique(spec_put(s, e)),
        entry_map(spec_put(s, e)) =~= entry_map(s).insert(e.key@, e),
        lookup(spec_put(s, e), e.key@) == Some(e),
        forall|k: Seq<char>| k != e.key@ ==> lookup(spec_put(s, e), k) == lookup(s, k),
{
    let t = spec_put(s, e);
    if has_key(s, e.key@) {
        let idx = key_index(s, e.key@);
        assert(keys_unique(t)) by {
            assert forall|i: int, j: int|
                0 <= i < t.len() && 0 <= j < t.len() && i != j implies #[trigger] t[i].key@ != #[trigger] t[j].key@ by {
                if i == idx {
                    assert(s[idx].key@ == e.key@);
                } else if j == idx {
                    assert(s[idx].key@ == e.key@);
                }
            }
        }
    } else {
        assert(keys_unique(t)) by {
            assert forall|i: int, j: int|
                0 <= i < t.len() && 0 <= j < t.len() && i != j implies #[trigger] t[i].key@ != #[trigger] t[j].key@ by {
                if i == s.len() as int {
                    assert(s[j].key@ == t[j].key@);
                } else if j == s.len() as int {
                    assert(s[i].key@ == t[i].key@);
                }
            }
        }
    }
    assert forall|k: Seq<char>| #[trigger] has_key(t, k) == (has_key(s, k) || k == e.key@) by {
        if has_key(s, k) {
            let i = key_index(s, k);
            assert(t[i].key@ == k || t[i] == e);
        }
        if has_key(t, k) {
            let i = key_index(t, k);
            if t[i] != e {
                assert(s[i] == t[i]);
            }
        }
        if k == e.key@ {
            if has_key(s, k) {
                assert(t[key_index(s, k)] == e);
            } else {
                assert(t[s.len() as int] == e);
            }
        }
    }
    assert forall|k: Seq<char>| has_key(t, k) implies #[trigger] t[key_index(t, k)] == (if k == e.key@ {
        e
    } else {
        s[key_index(s, k)]
    }) by {
        let i = key_index(t, k);
        lemma_key_index_unique(t, i);
        if k == e.key@ {
            if has_key(s, k) {
                let j = key_index(s, k);
                assert(t[j] == e);
                lemma_key_index_unique(t, j);
            } else {
                assert(t[s.len() as int] == e);
                lemma_key_index_unique(t, s.len() as int);
            }
        } else {
            let j = key_index(s, k);
            assert(t[j] == s[j]);
            lemma_key_index_unique(t, j);
        }
    }
}

/// Removing a key keeps the other keys unique and leaves the other entries alone.
pub proof fn lemma_remove_key<V>(s: Seq<CacheEntry<V>>, k: Seq<char>)
    requires
        keys_unique(s),
    ensures
        keys_unique(spec_remove_key(s, k)),
        entry_map(spec_remove_key(s, k)) =~= entry_map(s).remove(k),
        lookup(spec_remove_key(s, k), k) is None,
        forall|k2: Seq<char>| k2 != k ==> lookup(spec_remove_key(s, k), k2) == lookup(s, k2),
{
    let t = spec_remove_key(s, k);
    if has_key(s, k) {
        let idx = key_index(s, k);
        assert forall|i: int| 0 <= i < t.len() implies #[trigger] t[i] == (if i < idx {
            s[i]
        } else {
            s[i + 1]
        }) by {}
        assert(keys_unique(t)) by {
            assert forall|i: int, j: int|
                0 <= i < t.len() && 0 <= j < t.len() && i != j implies #[trigger] t[i].key@ != #[trigger] t[j].key@ by {
                let si = if i < idx { i } else { i + 1 };
                let sj = if j < idx { j } else { j + 1 };
                assert(t[i] == s[si]);
                assert(t[j] == s[sj]);
            }
        }
        assert forall|k2: Seq<char>| #[trigger] has_key(t, k2) == (has_key(s, k2) && k2 != k) by {
            if has_key(t, k2) {
                let i = key_index(t, k2);
                let si = if i < idx { i } else { i + 1 };
                assert(t[i] == s[si]);
                assert(si != idx);
            }
            if has_key(s, k2) && k2 != k {
                let j = key_index(s, k2);
                assert(j != idx);
                let tj = if j < idx { j } else { j - 1 };
                assert(t[tj] == s[j]);
            }
        }
        assert forall|k2: Seq<char>| has_key(t, k2) implies #[trigger] t[key_index(t, k2)] == s[key_index(s, k2)] by {
            let i = key_index(t, k2);
            let si = if i < idx { i } else { i + 1 };
            assert(t[i] == s[si]);
            lemma_key_index_unique(s, si);
        }
    }
}

/// Every element of a selection comes from the selected sequence.
pub proof fn lemma_select_from<T>(s: Seq<T>, d: Seq<bool>)
    requires
        d.len() == s.len(),
    ensures
        select(s, d).len() == count_true(d, s.len() as int),
        forall|i: int| 0 <= i < select(s, d).len() ==> exists|j: int| 0 <= j < s.len() && d[j] && #[trigger] select(s, d)[i] == s[j],
    decreases s.len(),
{
    if s.len() > 0 {
        let n = s.len() - 1;
        lemma_select_from(s.drop_last(), d.take(n));
        lemma_count_true_take(d, n);
        let rest = select(s.drop_last(), d.take(n));
        assert forall|i: int| 0 <= i < select(s, d).len() implies exists|j: int| 0 <= j < s.len() && d[j] && #[trigger] select(s, d)[i] == s[j] by {
            if i < rest.len() {
                let j = choose|j: int| 0 <= j < n && d.take(n)[j] && rest[i] == s.drop_last()[j];
                assert(select(s, d)[i] == s[j]);
            } else {
                assert(select(s, d)[i] == s[n]);
            }
        }
    }
}

proof fn lemma_count_true_take(d: Seq<bool>, n: int)
    requires
        0 <= n <= d.len(),
    ensures
        count_true(d.take(n), n) == count_true(d, n),
    decreases n,
{
    if n > 0 {
        lemma_count_true_take_shift(d, n, n - 1);
    }
}

proof fn lemma_count_true_take_shift(d: Seq<bool>, n: int, m: int)
    requires
        0 <= m <= n <= d.len(),
    ensures
        count_true(d.take(n), m) == count_true(d, m),
    decreases m,
{
    if m > 0 {
        lemma_count_true_take_shift(d, n, m - 1);
    }
}

/// Selecting entries keeps their keys unique.
pub proof fn lemma_select_keys_unique<V>(s: Seq<CacheEntry<V>>, d: Seq<bool>)
    requires
        keys_unique(s),
        d.len() == s.len(),
    ensures
        keys_unique(select(s, d)),
    decreases s.len(),
{
    if s.len() > 0 {
        let n = s.len() - 1;
        let s0 = s.drop_last();
        assert(keys_unique(s0)) by {
            assert forall|i: int, j: int|
                0 <= i < s0.len() && 0 <= j < s0.len() && i != j implies #[trigger] s0[i].key@ != #[trigger] s0[j].key@ by {
                assert(s0[i] == s[i] && s0[j] == s[j]);
            }
        }
        lemma_select_keys_unique(s0, d.take(n));
        lemma_select_from(s0, d.take(n));
        let rest = select(s0, d.take(n));
        if d[n] {
            let t = rest.push(s[n]);
            assert forall|i: int, j: int|
                0 <= i < t.len() && 0 <= j < t.len() && i != j implies #[trigger] t[i].key@ != #[trigger] t[j].key@ by {
                if i == rest.len() as int {
                    let jj = choose|jj: int| 0 <= jj < s0.len() && d.take(n)[jj] && #[trigger] rest[j] == s0[jj];
                    assert(s[jj] == rest[j]);
                } else if j == rest.len() as int {
                    let ii = choose|ii: int| 0 <= ii < s0.len() && d.take(n)[ii] && #[trigger] rest[i] == s0[ii];
                    assert(s[ii] == rest[i]);
                }
            }
            assert(select(s, d) == t);
        }
    }
}

} // verus!

verus! {

/// One more element considered: the selection grows by it exactly when it is chosen.
pub proof fn lemma_select_step<T>(s: Seq<T>, d: Seq<bool>, i: int, b: bool)
    requires
        0 <= i < s.len(),
        d.len() == i,
    ensures
        select(s.take(i + 1), d.push(b)) == (if b {
            select(s.take(i), d).push(s[i])
        } else {
            select(s.take(i), d)
        }),
{
    let t = s.take(i + 1);
    assert(t.drop_last() =~= s.take(i));
    assert(d.push(b).take(i) =~= d);
    assert(t.last() == s[i]);
}

/// Taking a whole sequence gives it back.
pub proof fn lemma_take_all<T>(s: Seq<T>)
    ensures
        s.take(s.len() as int) == s,
{
    assert(s.take(s.len() as int) =~= s);
}

/// The count of `true` decisions is positive only if some decision is `true`.
pub proof fn lemma_count_true_witness(d: Seq<bool>, n: int)
    requires
        0 <= n <= d.len(),
        count_true(d, n) > 0,
    ensures
        exists|j: int| 0 <= j < n && d[j],
    decreases n,
{
    if n > 0 && !d[n - 1] {
        lemma_count_true_witness(d, n - 1);
    }
}

/// Turning one `true` decision into `false` lowers the count by one.
pub proof fn lemma_count_true_clear(d: Seq<bool>, n: int, b: int)
    requires
        0 <= b < n <= d.len(),
        d[b],
    ensures
        count_true(d.update(b, false), n) == count_true(d, n) - 1,
    decreases n,
{
    if n - 1 == b {
        lemma_count_true_same(d, d.update(b, false), b);
    } else {
        lemma_count_true_clear(d, n - 1, b);
    }
}

/// The count depends only on the decisions it covers.
pub proof fn lemma_count_true_same(d1: Seq<bool>, d2: Seq<bool>, n: int)
    requires
        0 <= n <= d1.len(),
        n <= d2.len(),
        forall|j: int| 0 <= j < n ==> d1[j] == d2[j],
    ensures
        count_true(d1, n) == count_true(d2, n),
    decreases n,
{
    if n > 0 {
        lemma_count_true_same(d1, d2, n - 1);
    }
}

/// With every decision `true`, the count is the length.
pub proof fn lemma_count_true_all(d: Seq<bool>, n: int)
    requires
        0 <= n <= d.len(),
        forall|j: int| 0 <= j < n ==> d[j],
    ensures
        count_true(d, n) == n,
    decreases n,
{
    if n > 0 {
        lemma_count_true_all(d, n - 1);
    }
}

} // verus!
