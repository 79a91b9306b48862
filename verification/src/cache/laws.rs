//! What the operations of a cache promise together.

use vstd::prelude::*;
use crate::cache::entry::CacheEntry;
use crate::cache::file::{spec_after_read, spec_read, written_entry};
use crate::cache::table::{keys_unique, lemma_put, lemma_remove_key, lookup, spec_put, spec_remove_key};

verus! {

/// A read of a key gives back the entry last written at it (with the access recorded
/// when the read asks for it), and writing one key changes no read of another.
pub proof fn lemma_write_then_read<V>(s: Seq<CacheEntry<V>>, e: CacheEntry<V>, k: Seq<char>, update: bool, now: i64)
    requires
        keys_unique(s),
    ensures
        spec_read(spec_put(s, e), e.key@, false, now) == Some(e),
        spec_read(spec_put(s, e), e.key@, true, now) == Some(CacheEntry { last_accessed: now, ..e }),
        k != e.key@ ==> spec_read(spec_put(s, e), k, update, now) == spec_read(s, k, update, now),
        keys_unique(spec_put(s, e)),
{
    lemma_put(s, e);
}

/// A write keeps the creation time of the entry it replaces and stamps a new key with
/// the time of the write.
pub proof fn lemma_write_keeps_creation_time<V>(
    s: Seq<CacheEntry<V>>,
    key: String,
    value: V,
    dirty: bool,
    now: i64,
)
    requires
        keys_unique(s),
    ensures
        ({
            let old = lookup(s, key@);
            let t = spec_put(s, written_entry(old, key, value, dirty, now));
            &&& lookup(t, key@) matches Some(e) && e.created_at == (match old {
                Some(o) => o.created_at,
                None => now,
            }) && e.last_accessed == now && e.value == value && e.is_dirty == dirty
        }),
{
    lemma_put(s, written_entry(lookup(s, key@), key, value, dirty, now));
}

/// After a delete, a read of the key finds nothing, and reads of other keys are as
/// before.
pub proof fn lemma_delete_then_read<V>(s: Seq<CacheEntry<V>>, k: Seq<char>, k2: Seq<char>, update: bool, now: i64)
    requires
        keys_unique(s),
    ensures
        spec_read(spec_remove_key(s, k), k, update, now) is None,
        k2 != k ==> spec_read(spec_remove_key(s, k), k2, update, now) == spec_read(s, k2, update, now),
        keys_unique(spec_remove_key(s, k)),
{
    lemma_remove_key(s, k);
}

/// Reading twice gives the same entry: a read changes only the last access of what it
/// reads.
pub proof fn lemma_read_is_stable<V>(s: Seq<CacheEntry<V>>, k: Seq<char>, now: i64, later: i64)
    requires
        keys_unique(s),
    ensures
        spec_read(spec_after_read(s, k, true, now), k, false, later) == spec_read(s, k, true, now),
{
    match lookup(s, k) {
        Some(e) => {
            crate::cache::table::lemma_key_index_unique(s, crate::cache::table::key_index(s, k));
            lemma_put(s, CacheEntry { last_accessed: now, ..e });
        },
        None => {},
    }
}

} // verus!
