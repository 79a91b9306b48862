//! Config instances keyed by their identifiers: a sequence in which no identifier
//! occurs twice, seen as a map from identifiers to instances.

use vstd::prelude::*;
use crate::models::config_instance::ConfigInstance;
use crate::strings::str_eq;

verus! {

/// Some instance of `s` has the identifier `k`.
pub open spec fn has_id(s: Seq<ConfigInstance>, k: Seq<char>) -> bool {
    exists|i: int| 0 <= i < s.len() && #[trigger] s[i].id@ == k
}

/// The position of an instance of `s` with the identifier `k` (meaningful when there is one).
pub open spec fn id_index(s: Seq<ConfigInstance>, k: Seq<char>) -> int {
    choose|i: int| 0 <= i < s.len() && #[trigger] s[i].id@ == k
}

/// No two instances of `s` share an identifier.
pub open spec fn ids_unique(s: Seq<ConfigInstance>) -> bool {
    forall|i: int, j: int|
        0 <= i < s.len() && 0 <= j < s.len() && i != j ==> #[trigger] s[i].id@ != #[trigger] s[j].id@
}

/// The instance of `s` with the identifier `k`, if any.
pub open spec fn lookup_id(s: Seq<ConfigInstance>, k: Seq<char>) -> Option<ConfigInstance> {
    if has_id(s, k) {
        Some(s[id_index(s, k)])
    } else {
        None
    }
}

/// The instances as a map from identifiers.
pub open spec fn by_id(s: Seq<ConfigInstance>) -> Map<Seq<char>, ConfigInstance> {
    Map::new(|k: Seq<char>| has_id(s, k), |k: Seq<char>| s[id_index(s, k)])
}

/// `s` with `e` stored under its identifier: in place of the instance with it, or at the end.
pub open spec fn spec_put_id(s: Seq<ConfigInstance>, e: ConfigInstance) -> Seq<ConfigInstance> {
    if has_id(s, e.id@) {
        s.update(id_index(s, e.id@), e)
    } else {
        s.push(e)
    }
}

/// `s` without the instance with the identifier `k`.
pub open spec fn spec_remove_id(s: Seq<ConfigInstance>, k: Seq<char>) -> Seq<ConfigInstance> {
    if has_id(s, k) {
        s.remove(id_index(s, k))
    } else {
        s
    }
}

/// In a sequence with unique identifiers, the instance found at one is the one at `i`.
pub proof fn lemma_id_index_unique(s: Seq<ConfigInstance>, i: int)
    requires
        ids_unique(s),
        0 <= i < s.len(),
    ensures
        has_id(s, s[i].id@),
        id_index(s, s[i].id@) == i,
        lookup_id(s, s[i].id@) == Some(s[i]),
{
    assert(s[i].id@ == s[i].id@);
}

/// Storing an instance keeps the identifiers unique and changes only its own.
pub proof fn lemma_put_id(s: Seq<ConfigInstance>, e: ConfigInstance)
    requires
        ids_unique(s),
    ensures
        ids_unique(spec_put_id(s, e)),
        by_id(spec_put_id(s, e)) =~= by_id(s).insert(e.id@, e),
        lookup_id(spec_put_id(s, e), e.id@) == Some(e),
        forall|k: Seq<char>| k != e.id@ ==> lookup_id(spec_put_id(s, e), k) == lookup_id(s, k),
{
    let t = spec_put_id(s, e);
    if has_id(s, e.id@) {
        let idx = id_index(s, e.id@);
        assert(ids_unique(t)) by {
            assert forall|i: int, j: int|
                0 <= i < t.len() && 0 <= j < t.len() && i != j implies #[trigger] t[i].id@ != #[trigger] t[j].id@ by {
                if i == idx {
                    assert(s[idx].id@ == e.id@);
                } else if j == idx {
                    assert(s[idx].id@ == e.id@);
                }
            }
        }
    } else {
        assert(ids_unique(t)) by {
            assert forall|i: int, j: int|
                0 <= i < t.len() && 0 <= j < t.len() && i != j implies #[trigger] t[i].id@ != #[trigger] t[j].id@ by {
                if i == s.len() as int {
                    assert(s[j].id@ == t[j].id@);
                } else if j == s.len() as int {
                    assert(s[i].id@ == t[i].id@);
                }
            }
        }
    }
    assert forall|k: Seq<char>| #[trigger] has_id(t, k) == (has_id(s, k) || k == e.id@) by {
        if has_id(s, k) {
            let i = id_index(s, k);
            assert(t[i].id@ == k || t[i] == e);
        }
        if has_id(t, k) {
            let i = id_index(t, k);
            if t[i] != e {
                assert(s[i] == t[i]);
            }
        }
        if k == e.id@ {
            if has_id(s, k) {
                assert(t[id_index(s, k)] == e);
            } else {
                assert(t[s.len() as int] == e);
            }
        }
    }
    assert forall|k: Seq<char>| has_id(t, k) implies #[trigger] t[id_index(t, k)] == (if k == e.id@ {
        e
    } else {
        s[id_index(s, k)]
    }) by {
        let i = id_index(t, k);
        lemma_id_index_unique(t, i);
        if k == e.id@ {
            if has_id(s, k) {
                let j = id_index(s, k);
                assert(t[j] == e);
                lemma_id_index_unique(t, j);
            } else {
                assert(t[s.len() as int] == e);
                lemma_id_index_unique(t, s.len() as int);
            }
        } else {
            let j = id_index(s, k);
            assert(t[j] == s[j]);
            lemma_id_index_unique(t, j);
        }
    }
}

/// Removing an identifier keeps the others unique and leaves their instances alone.
pub proof fn lemma_remove_id(s: Seq<ConfigInstance>, k: Seq<char>)
    requires
        ids_unique(s),
    ensures
        ids_unique(spec_remove_id(s, k)),
        by_id(spec_remove_id(s, k)) =~= by_id(s).remove(k),
        lookup_id(spec_remove_id(s, k), k) is None,
        forall|k2: Seq<char>| k2 != k ==> lookup_id(spec_remove_id(s, k), k2) == lookup_id(s, k2),
{
    let t = spec_remove_id(s, k);
    if has_id(s, k) {
        let idx = id_index(s, k);
        assert forall|i: int| 0 <= i < t.len() implies #[trigger] t[i] == (if i < idx {
            s[i]
        } else {
            s[i + 1]
        }) by {}
        assert(ids_unique(t)) by {
            assert forall|i: int, j: int|
                0 <= i < t.len() && 0 <= j < t.len() && i != j implies #[trigger] t[i].id@ != #[trigger] t[j].id@ by {
                let si = if i < idx { i } else { i + 1 };
                let sj = if j < idx { j } else { j + 1 };
                assert(t[i] == s[si]);
                assert(t[j] == s[sj]);
            }
        }
        assert forall|k2: Seq<char>| #[trigger] has_id(t, k2) == (has_id(s, k2) && k2 != k) by {
            if has_id(t, k2) {
                let i = id_index(t, k2);
                let si = if i < idx { i } else { i + 1 };
                assert(t[i] == s[si]);
                assert(si != idx);
            }
            if has_id(s, k2) && k2 != k {
                let j = id_index(s, k2);
                assert(j != idx);
                let tj = if j < idx { j } else { j - 1 };
                assert(t[tj] == s[j]);
            }
        }
        assert forall|k2: Seq<char>| has_id(t, k2) implies #[trigger] t[id_index(t, k2)] == s[id_index(s, k2)] by {
            let i = id_index(t, k2);
            let si = if i < idx { i } else { i + 1 };
            assert(t[i] == s[si]);
            lemma_id_index_unique(s, si);
        }
    }
}

/// The position of the instance with the identifier `id`, if any.
fn find_id(v: &Vec<ConfigInstance>, id: &str) -> (r: Option<usize>)
    requires
        ids_unique(v@),
    ensures
        r matches Some(i) ==> i < v@.len() && id_index(v@, id@) == i && has_id(v@, id@),
        r is None ==> !has_id(v@, id@),
{
    let mut i: usize = 0;
    while i < v.len()
        invariant
            0 <= i <= v@.len(),
            ids_unique(v@),
            forall|j: int| 0 <= j < i ==> #[trigger] v@[j].id@ != id@,
        decreases v@.len() - i,
    {
        if str_eq(v[i].id.as_str(), id) {
            proof {
                lemma_id_index_unique(v@, i as int);
            }
            return Some(i);
        }
        i = i + 1;
    }
    None
}

/// Stores `inst` under its identifier, in place of the instance it replaces.
pub fn insert_by_id(v: &mut Vec<ConfigInstance>, inst: ConfigInstance)
    requires
        ids_unique(old(v)@),
    ensures
        final(v)@ == spec_put_id(old(v)@, inst),
        ids_unique(final(v)@),
        by_id(final(v)@) == by_id(old(v)@).insert(inst.id@, inst),
{
    proof {
        lemma_put_id(v@, inst);
    }
    match find_id(v, inst.id.as_str()) {
        Some(i) => {
            v.set(i, inst);
        },
        None => {
            v.push(inst);
        },
    }
}

/// Removes the instance with the identifier `id`, if any.
pub fn remove_by_id(v: &mut Vec<ConfigInstance>, id: &str)
    requires
        ids_unique(old(v)@),
    ensures
        final(v)@ == spec_remove_id(old(v)@, id@),
        ids_unique(final(v)@),
        by_id(final(v)@) == by_id(old(v)@).remove(id@),
{
    proof {
        lemma_remove_id(v@, id@);
    }
    match find_id(v, id) {
        Some(i) => {
            v.remove(i);
        },
        None => {},
    }
}

} // verus!
