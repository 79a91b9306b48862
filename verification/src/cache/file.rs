//! The single-threaded cache: the entries of one cache file, held in memory while the
//! agent works on them. The caller loads them from the file and stores them back.

use vstd::prelude::*;
use crate::cache::entry::{CacheEntry, CacheValue};
use crate::cache::errors::{
    CacheElementNotFound, CacheErr, CannotOverwriteCacheElement, FoundTooManyCacheElements,
};
use crate::cache::table::{
    count_true, has_key, key_index, keys_unique, lemma_key_index_unique, lemma_put,
    lemma_remove_key, lemma_select_from, lemma_select_keys_unique, lemma_select_step, lemma_take_all,
    lemma_count_true_all, lemma_count_true_clear, lemma_count_true_witness, lookup, select, spec_put,
    spec_remove_key,
};
use crate::strings::str_eq;

verus! {

/// The text of the error for a key that no entry has.
pub open spec fn key_not_found_msg(key: Seq<char>) -> Seq<char> {
    "Unable to find cache entry with key: '"@ + key + "'"@
}

/// The text of the error for a filter that no entry passes.
pub open spec fn filter_not_found_msg(filter_name: Seq<char>) -> Seq<char> {
    "Unable to find cache entry with filter: '"@ + filter_name + "'"@
}

fn key_not_found(key: &str) -> (r: CacheErr)
    ensures
        r matches CacheErr::CacheElementNotFound(e) && e.msg@ == key_not_found_msg(key@),
{
    let mut msg = String::new();
    msg.append("Unable to find cache entry with key: '");
    msg.append(key);
    msg.append("'");
    CacheErr::CacheElementNotFound(CacheElementNotFound { msg })
}

fn filter_not_found(filter_name: &str) -> (r: CacheErr)
    ensures
        r matches CacheErr::CacheElementNotFound(e) && e.msg@ == filter_not_found_msg(filter_name@),
{
    let mut msg = String::new();
    msg.append("Unable to find cache entry with filter: '");
    msg.append(filter_name);
    msg.append("'");
    CacheErr::CacheElementNotFound(CacheElementNotFound { msg })
}

/// `s` with the entries `es` stored in turn under their keys.
pub open spec fn spec_put_all<V>(s: Seq<CacheEntry<V>>, es: Seq<CacheEntry<V>>) -> Seq<CacheEntry<V>>
    decreases es.len(),
{
    if es.len() == 0 {
        s
    } else {
        spec_put(spec_put_all(s, es.drop_last()), es.last())
    }
}

/// The decisions `d` are ones that `filter` gives on the entries of `s`.
pub open spec fn entry_decisions<V, F: Fn(&CacheEntry<V>) -> bool>(
    filter: F,
    s: Seq<CacheEntry<V>>,
    d: Seq<bool>,
) -> bool {
    &&& d.len() == s.len()
    &&& forall|j: int| 0 <= j < s.len() ==> filter.ensures((&s[j],), #[trigger] d[j])
}

/// The decisions `d` are ones that `filter` gives on the values of `s`.
pub open spec fn value_decisions<V, F: Fn(&V) -> bool>(filter: F, s: Seq<CacheEntry<V>>, d: Seq<bool>) -> bool {
    &&& d.len() == s.len()
    &&& forall|j: int| 0 <= j < s.len() ==> filter.ensures((&s[j].value,), #[trigger] d[j])
}

pub open spec fn values_of<V>(s: Seq<CacheEntry<V>>) -> Seq<V> {
    s.map_values(|e: CacheEntry<V>| e.value)
}

/// The entries of one cache, with no two sharing a key.
pub struct SingleThreadFileCache<V> {
    entries: Vec<CacheEntry<V>>,
}

impl<V> View for SingleThreadFileCache<V> {
    type V = Seq<CacheEntry<V>>;

    closed spec fn view(&self) -> Seq<CacheEntry<V>> {
        self.entries@
    }
}

impl<V> SingleThreadFileCache<V> {
    /// No two entries share a key.
    #[verifier::type_invariant]
    pub open spec fn inv(&self) -> bool {
        keys_unique(self@)
    }
}

impl<V: CacheValue> SingleThreadFileCache<V> {
    /// An empty cache.
    pub fn new() -> (r: Self)
        ensures
            r@ == Seq::<CacheEntry<V>>::empty(),
    {
        SingleThreadFileCache { entries: Vec::new() }
    }

    /// A cache holding `entries`, each stored in turn under its key (so a later entry
    /// replaces an earlier one with the same key).
    pub fn from_entries(entries: Vec<CacheEntry<V>>) -> (r: Self)
        ensures
            r@ == spec_put_all(Seq::empty(), entries@),
            keys_unique(r@),
    {
        let mut cache = SingleThreadFileCache::new();
        let mut i: usize = 0;
        while i < entries.len()
            invariant
                0 <= i <= entries@.len(),
                cache@ == spec_put_all(Seq::empty(), entries@.take(i as int)),
            decreases entries@.len() - i,
        {
            let e = entries[i].duplicate();
            cache.put(e);
            proof {
                let t = entries@.take(i + 1);
                assert(t.drop_last() =~= entries@.take(i as int));
                assert(t.last() == entries@[i as int]);
            }
            i = i + 1;
        }
        proof {
            use_type_invariant(&cache);
            assert(entries@.take(entries@.len() as int) =~= entries@);
        }
        cache
    }

    /// The entries, in their stored order.
    pub fn into_entries(self) -> (r: Vec<CacheEntry<V>>)
        ensures
            r@ == self@,
            keys_unique(r@),
    {
        proof {
            use_type_invariant(&self);
        }
        self.entries
    }

    /// The position of the entry with the key `key`, if any.
    fn find_index(&self, key: &str) -> (r: Option<usize>)
        ensures
            r matches Some(i) ==> i < self@.len() && key_index(self@, key@) == i && has_key(self@, key@),
            r is None ==> !has_key(self@, key@),
    {
        proof {
            use_type_invariant(self);
        }
        let mut i: usize = 0;
        while i < self.entries.len()
            invariant
                0 <= i <= self.entries@.len(),
                keys_unique(self.entries@),
                forall|j: int| 0 <= j < i ==> #[trigger] self.entries@[j].key@ != key@,
            decreases self.entries@.len() - i,
        {
            if str_eq(self.entries[i].key.as_str(), key) {
                proof {
                    lemma_key_index_unique(self.entries@, i as int);
                }
                return Some(i);
            }
            i = i + 1;
        }
        None
    }

    /// Stores `e` under its key.
    fn put(&mut self, e: CacheEntry<V>)
        ensures
            final(self)@ == spec_put(old(self)@, e),
            keys_unique(final(self)@),
    {
        proof {
            use_type_invariant(&*self);
            lemma_put(self.entries@, e);
        }
        let found = self.find_index(e.key.as_str());
        let mut entries: Vec<CacheEntry<V>> = Vec::new();
        std::mem::swap(&mut entries, &mut self.entries);
        match found {
            Some(i) => {
                entries.set(i, e);
            },
            None => {
                entries.push(e);
            },
        }
        self.entries = entries;
    }

    // -------------------------------- CUSTOM METHODS --------------------------------- //
    /// The entry with the key `key`, if any.
    pub fn read_entry_impl(&self, key: &str) -> (r: Option<CacheEntry<V>>)
        ensures
            r == lookup(self@, key@),
    {
        match self.find_index(key) {
            Some(i) => Some(self.entries[i].duplicate()),
            None => None,
        }
    }

    /// Stores a copy of `entry` under its key, unless `overwrite` is off and the key is
    /// taken.
    pub fn write_entry_impl(&mut self, entry: &CacheEntry<V>, overwrite: bool) -> (r: Result<(), CacheErr>)
        ensures
            !overwrite && has_key(old(self)@, entry.key@) ==> {
                &&& r matches Err(CacheErr::CannotOverwriteCacheElement(e)) && e.key@ == entry.key@
                &&& final(self)@ == old(self)@
            },
            overwrite || !has_key(old(self)@, entry.key@) ==> {
                &&& r is Ok
                &&& final(self)@ == spec_put(old(self)@, *entry)
            },
            keys_unique(final(self)@),
    {
        proof {
            use_type_invariant(&*self);
        }
        if !overwrite && self.find_index(entry.key.as_str()).is_some() {
            return Err(CacheErr::CannotOverwriteCacheElement(CannotOverwriteCacheElement { key: entry.key.clone() }));
        }
        self.put(entry.duplicate());
        Ok(())
    }

    /// Removes the entry with the key `key`, if any.
    pub fn delete_entry_impl(&mut self, key: &str) -> (r: Result<(), CacheErr>)
        ensures
            r is Ok,
            final(self)@ == spec_remove_key(old(self)@, key@),
            keys_unique(final(self)@),
    {
        proof {
            use_type_invariant(&*self);
            lemma_remove_key(self.entries@, key@);
        }
        let found = self.find_index(key);
        let mut entries: Vec<CacheEntry<V>> = Vec::new();
        std::mem::swap(&mut entries, &mut self.entries);
        match found {
            Some(i) => {
                entries.remove(i);
            },
            None => {},
        }
        self.entries = entries;
        Ok(())
    }

    /// The number of entries.
    pub fn size(&self) -> (r: usize)
        ensures
            r == self@.len(),
    {
        self.entries.len()
    }

    /// A file cache holds no entry that fails to parse, so there is nothing to prune.
    pub fn prune_invalid_entries(&self) -> (r: Result<(), CacheErr>)
        ensures
            r is Ok,
    {
        Ok(())
    }

    /// Copies of all entries, in their stored order.
    pub fn entries(&self) -> (r: Vec<CacheEntry<V>>)
        ensures
            r@ == self@,
    {
        let mut r: Vec<CacheEntry<V>> = Vec::new();
        let mut i: usize = 0;
        while i < self.entries.len()
            invariant
                0 <= i <= self.entries@.len(),
                r@ == self.entries@.take(i as int),
            decreases self.entries@.len() - i,
        {
            r.push(self.entries[i].duplicate());
            i = i + 1;
        }
        proof {
            assert(self.entries@.take(self.entries@.len() as int) =~= self.entries@);
        }
        r
    }

    /// Copies of all values, in the stored order of their entries.
    pub fn values(&self) -> (r: Vec<V>)
        ensures
            r@ == values_of(self@),
    {
        let mut r: Vec<V> = Vec::new();
        let mut i: usize = 0;
        while i < self.entries.len()
            invariant
                0 <= i <= self.entries@.len(),
                r@ == values_of(self.entries@.take(i as int)),
            decreases self.entries@.len() - i,
        {
            r.push(self.entries[i].value.duplicate());
            proof {
                assert(values_of(self.entries@.take(i + 1)) =~= values_of(self.entries@.take(i as int)).push(
                    self.entries@[i as int].value,
                ));
            }
            i = i + 1;
        }
        proof {
            assert(self.entries@.take(self.entries@.len() as int) =~= self.entries@);
        }
        r
    }
}


/// `e` with its last access moved to `now`.
pub open spec fn accessed_at<V>(e: CacheEntry<V>, now: i64) -> CacheEntry<V> {
    CacheEntry { last_accessed: now, ..e }
}

/// The cache after reading the entry at `key` (and, when `update`, recording the access
/// at `now`).
pub open spec fn spec_after_read<V>(s: Seq<CacheEntry<V>>, key: Seq<char>, update: bool, now: i64) -> Seq<CacheEntry<V>> {
    match lookup(s, key) {
        Some(e) => if update {
            spec_put(s, accessed_at(e, now))
        } else {
            s
        },
        None => s,
    }
}

/// The entry a read at `key` returns.
pub open spec fn spec_read<V>(s: Seq<CacheEntry<V>>, key: Seq<char>, update: bool, now: i64) -> Option<CacheEntry<V>> {
    match lookup(s, key) {
        Some(e) => if update {
            Some(accessed_at(e, now))
        } else {
            Some(e)
        },
        None => None,
    }
}

/// `d` is a verdict that `is_dirty` can give on the entry stored before a write, if
/// any, and the new value.
pub open spec fn dirty_verdict<V, F: Fn(Option<&CacheEntry<V>>, &V) -> bool>(
    is_dirty: F,
    old: Option<CacheEntry<V>>,
    value: V,
    d: bool,
) -> bool {
    match old {
        Some(e) => is_dirty.ensures((Some(&e), &value), d),
        None => is_dirty.ensures((None, &value), d),
    }
}

/// The entry that a write of `value` at `key` stores at `now`: it keeps the creation
/// time of the entry it replaces.
pub open spec fn written_entry<V>(
    old: Option<CacheEntry<V>>,
    key: String,
    value: V,
    d: bool,
    now: i64,
) -> CacheEntry<V> {
    CacheEntry {
        key: key,
        value: value,
        is_dirty: d,
        created_at: match old {
            Some(e) => e.created_at,
            None => now,
        },
        last_accessed: now,
    }
}

/// `r` is what a search for at most one match answers when the matches are `m`.
pub open spec fn found_at_most_one<T>(m: Seq<T>, r: Result<Option<T>, CacheErr>, filter_name: Seq<char>) -> bool {
    match r {
        Ok(None) => m.len() == 0,
        Ok(Some(x)) => m.len() == 1 && x == m[0],
        Err(CacheErr::FoundTooManyCacheElements(e)) => {
            &&& m.len() > 1
            &&& e.expected_count == 1
            &&& e.actual_count == m.len()
            &&& e.filter_name@ == filter_name
        },
        Err(_) => false,
    }
}

/// `r` is what a search for exactly one match answers when the matches are `m`.
pub open spec fn found_exactly_one<T>(m: Seq<T>, r: Result<T, CacheErr>, filter_name: Seq<char>) -> bool {
    match r {
        Ok(x) => m.len() == 1 && x == m[0],
        Err(CacheErr::CacheElementNotFound(e)) => m.len() == 0 && e.msg@ == filter_not_found_msg(filter_name),
        Err(CacheErr::FoundTooManyCacheElements(e)) => {
            &&& m.len() > 1
            &&& e.expected_count == 1
            &&& e.actual_count == m.len()
            &&& e.filter_name@ == filter_name
        },
        Err(_) => false,
    }
}

/// The flags that mark the dirty entries of `s`.
pub open spec fn dirty_flags<V>(s: Seq<CacheEntry<V>>) -> Seq<bool> {
    s.map_values(|e: CacheEntry<V>| e.is_dirty)
}

impl<V: CacheValue> SingleThreadFileCache<V> {
    // -------------------------------- TRAIT METHODS ---------------------------------- //
    /// The entry at `key`, if any; with `update_last_accessed`, the access is recorded at
    /// `now` (in the cache and in the returned entry).
    pub fn read_entry_optional(&mut self, key: &str, update_last_accessed: bool, now: i64) -> (r: Result<
        Option<CacheEntry<V>>,
        CacheErr,
    >)
        ensures
            r matches Ok(x) && x == spec_read(old(self)@, key@, update_last_accessed, now),
            final(self)@ == spec_after_read(old(self)@, key@, update_last_accessed, now),
    {
        let mut entry = match self.read_entry_impl(key) {
            Some(entry) => entry,
            None => return Ok(None),
        };
        // update the last accessed time
        if update_last_accessed {
            self.update_last_accessed(&mut entry, now)?;
        }
        Ok(Some(entry))
    }

    /// The entry at `key`; an error when there is none.
    pub fn read_entry(&mut self, key: &str, update_last_accessed: bool, now: i64) -> (r: Result<CacheEntry<V>, CacheErr>)
        ensures
            match spec_read(old(self)@, key@, update_last_accessed, now) {
                Some(e) => r matches Ok(x) && x == e,
                None => r matches Err(CacheErr::CacheElementNotFound(e)) && e.msg@ == key_not_found_msg(key@),
            },
            final(self)@ == spec_after_read(old(self)@, key@, update_last_accessed, now),
    {
        let result = self.read_entry_optional(key, update_last_accessed, now)?;
        match result {
            Some(entry) => Ok(entry),
            None => Err(key_not_found(key)),
        }
    }

    /// The value at `key`, if any, recording the access at `now`.
    pub fn read_optional(&mut self, key: &str, now: i64) -> (r: Result<Option<V>, CacheErr>)
        ensures
            match spec_read(old(self)@, key@, true, now) {
                Some(e) => r matches Ok(Some(v)) && v == e.value,
                None => r matches Ok(None),
            },
            final(self)@ == spec_after_read(old(self)@, key@, true, now),
    {
        let entry = self.read_entry_optional(key, true, now)?;
        match entry {
            Some(entry) => Ok(Some(entry.value)),
            None => Ok(None),
        }
    }

    /// The value at `key`, recording the access at `now`; an error when there is none.
    pub fn read(&mut self, key: &str, now: i64) -> (r: Result<V, CacheErr>)
        ensures
            match spec_read(old(self)@, key@, true, now) {
                Some(e) => r matches Ok(v) && v == e.value,
                None => r matches Err(CacheErr::CacheElementNotFound(e)) && e.msg@ == key_not_found_msg(key@),
            },
            final(self)@ == spec_after_read(old(self)@, key@, true, now),
    {
        Ok(self.read_entry(key, true, now)?.value)
    }

    /// Stores a copy of `entry` under its key, unless `overwrite` is off and the key is
    /// taken.
    pub fn write_entry(&mut self, entry: &CacheEntry<V>, overwrite: bool) -> (r: Result<(), CacheErr>)
        ensures
            !overwrite && has_key(old(self)@, entry.key@) ==> {
                &&& r matches Err(CacheErr::CannotOverwriteCacheElement(e)) && e.key@ == entry.key@
                &&& final(self)@ == old(self)@
            },
            overwrite || !has_key(old(self)@, entry.key@) ==> {
                &&& r is Ok
                &&& final(self)@ == spec_put(old(self)@, *entry)
            },
    {
        self.write_entry_impl(entry, overwrite)
    }

    /// Writes `value` at `key` at the instant `now`. The entry keeps the creation time of
    /// the one it replaces, and `is_dirty` decides its dirtiness from that entry and the
    /// new value. Without `overwrite`, an existing key is an error.
    pub fn write<F>(&mut self, key: String, value: V, is_dirty: F, overwrite: bool, now: i64) -> (r: Result<(), CacheErr>)
        where
            F: Fn(Option<&CacheEntry<V>>, &V) -> bool,
        requires
            is_dirty.requires((None, &value)),
            forall|e: CacheEntry<V>| is_dirty.requires((Some(&e), &value)),
        ensures
            !overwrite && has_key(old(self)@, key@) ==> {
                &&& r matches Err(CacheErr::CannotOverwriteCacheElement(e)) && e.key@ == key@
                &&& final(self)@ == old(self)@
            },
            overwrite || !has_key(old(self)@, key@) ==> {
                &&& r is Ok
                &&& exists|d: bool|
                    dirty_verdict(is_dirty, lookup(old(self)@, key@), value, d) && final(self)@ == spec_put(
                        old(self)@,
                        written_entry(lookup(old(self)@, key@), key, value, d, now),
                    )
            },
    {
        // if the entry already exists, keep the original created_at time
        let existing = self.read_entry_impl(key.as_str());
        let (created_at, last_accessed, dirty) = match &existing {
            Some(existing_entry) => (existing_entry.created_at, now, is_dirty(Some(existing_entry), &value)),
            None => (now, now, is_dirty(None, &value)),
        };
        let ghost key_spec = key;
        let ghost value_spec = value;
        let entry = CacheEntry { key, value, created_at, last_accessed, is_dirty: dirty };
        proof {
            assert(entry == written_entry(lookup(old(self)@, key@), key_spec, value_spec, dirty, now));
            assert(dirty_verdict(is_dirty, lookup(old(self)@, key@), value_spec, dirty));
        }
        // write the entry
        self.write_entry(&entry, overwrite)
    }

    /// Records an access of `entry` at `now` and stores it.
    pub fn update_last_accessed(&mut self, entry: &mut CacheEntry<V>, now: i64) -> (r: Result<(), CacheErr>)
        ensures
            *final(entry) == accessed_at(*old(entry), now),
            r is Ok,
            final(self)@ == spec_put(old(self)@, accessed_at(*old(entry), now)),
    {
        entry.last_accessed = now;
        self.write_entry(entry, true)?;
        Ok(())
    }

    /// Removes the entry at `key`, if any.
    pub fn delete(&mut self, key: &str) -> (r: Result<(), CacheErr>)
        ensures
            r is Ok,
            final(self)@ == spec_remove_key(old(self)@, key@),
    {
        self.delete_entry_impl(key)?;
        Ok(())
    }

    /// Copies of the entries that `filter` accepts, in their stored order.
    pub fn find_entries_where<F>(&self, filter: F) -> (r: Vec<CacheEntry<V>>)
        where
            F: Fn(&CacheEntry<V>) -> bool,
        requires
            forall|e: CacheEntry<V>| filter.requires((&e,)),
        ensures
            exists|d: Seq<bool>| entry_decisions(filter, self@, d) && r@ == select(self@, d),
    {
        let mut r: Vec<CacheEntry<V>> = Vec::new();
        let ghost mut d: Seq<bool> = Seq::empty();
        let mut i: usize = 0;
        while i < self.entries.len()
            invariant
                0 <= i <= self.entries@.len(),
                forall|e: CacheEntry<V>| filter.requires((&e,)),
                d.len() == i,
                forall|j: int| 0 <= j < i ==> filter.ensures((&self.entries@[j],), #[trigger] d[j]),
                r@ == select(self.entries@.take(i as int), d),
            decreases self.entries@.len() - i,
        {
            let keep = filter(&self.entries[i]);
            proof {
                lemma_select_step(self.entries@, d, i as int, keep);
                d = d.push(keep);
            }
            if keep {
                r.push(self.entries[i].duplicate());
            }
            i = i + 1;
        }
        proof {
            lemma_take_all(self.entries@);
            assert(entry_decisions(filter, self@, d));
        }
        r
    }

    /// Copies of the values that `filter` accepts, in the stored order of their entries.
    pub fn find_where<F>(&self, filter: F) -> (r: Vec<V>)
        where
            F: Fn(&V) -> bool,
        requires
            forall|v: V| filter.requires((&v,)),
        ensures
            exists|d: Seq<bool>| value_decisions(filter, self@, d) && r@ == values_of(select(self@, d)),
    {
        let mut r: Vec<V> = Vec::new();
        let ghost mut d: Seq<bool> = Seq::empty();
        let mut i: usize = 0;
        while i < self.entries.len()
            invariant
                0 <= i <= self.entries@.len(),
                forall|v: V| filter.requires((&v,)),
                d.len() == i,
                forall|j: int| 0 <= j < i ==> filter.ensures((&self.entries@[j].value,), #[trigger] d[j]),
                r@ == values_of(select(self.entries@.take(i as int), d)),
            decreases self.entries@.len() - i,
        {
            let keep = filter(&self.entries[i].value);
            proof {
                lemma_select_step(self.entries@, d, i as int, keep);
                let sel = select(self.entries@.take(i as int), d);
                assert(values_of(sel.push(self.entries@[i as int])) =~= values_of(sel).push(self.entries@[i as int].value));
                d = d.push(keep);
            }
            if keep {
                r.push(self.entries[i].value.duplicate());
            }
            i = i + 1;
        }
        proof {
            lemma_take_all(self.entries@);
            assert(value_decisions(filter, self@, d));
        }
        r
    }

    /// The single entry that `filter` accepts, if any; an error when several pass.
    pub fn find_one_entry_optional<F>(&self, filter_name: &str, filter: F) -> (r: Result<Option<CacheEntry<V>>, CacheErr>)
        where
            F: Fn(&CacheEntry<V>) -> bool,
        requires
            forall|e: CacheEntry<V>| filter.requires((&e,)),
        ensures
            exists|d: Seq<bool>|
                entry_decisions(filter, self@, d) && found_at_most_one(select(self@, d), r, filter_name@),
    {
        let mut entries = self.find_entries_where(filter);
        if entries.len() > 1 {
            return Err(CacheErr::FoundTooManyCacheElements(FoundTooManyCacheElements {
                expected_count: 1,
                actual_count: entries.len(),
                filter_name: filter_name.to_owned(),
            }));
        }
        Ok(entries.pop())
    }

    /// The single value that `filter` accepts, if any; an error when several pass.
    pub fn find_one_optional<F>(&self, filter_name: &str, filter: F) -> (r: Result<Option<V>, CacheErr>)
        where
            F: Fn(&V) -> bool,
        requires
            forall|v: V| filter.requires((&v,)),
        ensures
            exists|d: Seq<bool>|
                value_decisions(filter, self@, d) && found_at_most_one(values_of(select(self@, d)), r, filter_name@),
    {
        let mut values = self.find_where(filter);
        if values.len() > 1 {
            return Err(CacheErr::FoundTooManyCacheElements(FoundTooManyCacheElements {
                expected_count: 1,
                actual_count: values.len(),
                filter_name: filter_name.to_owned(),
            }));
        }
        Ok(values.pop())
    }

    /// The single entry that `filter` accepts; an error when none or several pass.
    pub fn find_one_entry<F>(&self, filter_name: &str, filter: F) -> (r: Result<CacheEntry<V>, CacheErr>)
        where
            F: Fn(&CacheEntry<V>) -> bool,
        requires
            forall|e: CacheEntry<V>| filter.requires((&e,)),
        ensures
            exists|d: Seq<bool>|
                entry_decisions(filter, self@, d) && found_exactly_one(select(self@, d), r, filter_name@),
    {
        let entry = self.find_one_entry_optional(filter_name, filter)?;
        match entry {
            Some(entry) => Ok(entry),
            None => Err(filter_not_found(filter_name)),
        }
    }

    /// The single value that `filter` accepts; an error when none or several pass.
    pub fn find_one<F>(&self, filter_name: &str, filter: F) -> (r: Result<V, CacheErr>)
        where
            F: Fn(&V) -> bool,
        requires
            forall|v: V| filter.requires((&v,)),
        ensures
            exists|d: Seq<bool>|
                value_decisions(filter, self@, d) && found_exactly_one(values_of(select(self@, d)), r, filter_name@),
    {
        let value = self.find_one_optional(filter_name, filter)?;
        match value {
            Some(value) => Ok(value),
            None => Err(filter_not_found(filter_name)),
        }
    }

    /// Copies of the dirty entries, in their stored order.
    pub fn get_dirty_entries(&self) -> (r: Vec<CacheEntry<V>>)
        ensures
            r@ == select(self@, dirty_flags(self@)),
    {
        let mut r: Vec<CacheEntry<V>> = Vec::new();
        let mut i: usize = 0;
        while i < self.entries.len()
            invariant
                0 <= i <= self.entries@.len(),
                r@ == select(self.entries@.take(i as int), dirty_flags(self.entries@).take(i as int)),
            decreases self.entries@.len() - i,
        {
            proof {
                let flags = dirty_flags(self.entries@);
                lemma_select_step(self.entries@, flags.take(i as int), i as int, flags[i as int]);
                assert(flags.take(i as int).push(flags[i as int]) =~= flags.take(i + 1));
            }
            if self.entries[i].is_dirty {
                r.push(self.entries[i].duplicate());
            }
            i = i + 1;
        }
        proof {
            lemma_take_all(self.entries@);
            lemma_take_all(dirty_flags(self.entries@));
        }
        r
    }
}


/// Entry `i` of `s` was accessed before entry `j`: earlier, or at the same instant and
/// stored first.
pub open spec fn accessed_before<V>(s: Seq<CacheEntry<V>>, i: int, j: int) -> bool {
    ||| s[i].last_accessed < s[j].last_accessed
    ||| s[i].last_accessed == s[j].last_accessed && i < j
}

/// `keep` marks `max_size` entries of `s`, and every entry it drops was accessed before
/// every entry it keeps.
pub open spec fn keeps_most_recent<V>(s: Seq<CacheEntry<V>>, keep: Seq<bool>, max_size: int) -> bool {
    &&& keep.len() == s.len()
    &&& count_true(keep, s.len() as int) == max_size
    &&& forall|i: int, j: int|
        0 <= i < s.len() && 0 <= j < s.len() && !keep[i] && keep[j] ==> #[trigger] accessed_before(s, i, j)
}

impl<V: CacheValue> SingleThreadFileCache<V> {
    /// The position of the kept entry accessed first.
    fn oldest_kept(&self, keep: &Vec<bool>) -> (m: usize)
        requires
            keep@.len() == self@.len(),
            count_true(keep@, self@.len() as int) > 0,
        ensures
            m < self@.len(),
            keep@[m as int],
            forall|j: int| 0 <= j < self@.len() && keep@[j] && j != m ==> accessed_before(self@, m as int, j),
    {
        proof {
            lemma_count_true_witness(keep@, self@.len() as int);
        }
        let mut found = false;
        let mut m: usize = 0;
        let mut i: usize = 0;
        while i < self.entries.len()
            invariant
                0 <= i <= self.entries@.len(),
                keep@.len() == self.entries@.len(),
                found ==> m < i && keep@[m as int],
                found ==> forall|j: int| 0 <= j < i && keep@[j] && j != m ==> accessed_before(self.entries@, m as int, j),
                !found ==> forall|j: int| 0 <= j < i ==> !keep@[j],
            decreases self.entries@.len() - i,
        {
            if keep[i] && (!found || self.entries[i].last_accessed < self.entries[m].last_accessed) {
                m = i;
                found = true;
            }
            i = i + 1;
        }
        m
    }

    /// Shrinks the cache to `max_size` entries when it holds more, dropping the entries
    /// accessed longest ago (among entries accessed at the same instant, those stored
    /// first). The entries that stay keep their order.
    pub fn prune(&mut self, max_size: usize) -> (r: Result<(), CacheErr>)
        ensures
            r is Ok,
            old(self)@.len() <= max_size ==> final(self)@ == old(self)@,
            old(self)@.len() > max_size ==> {
                &&& final(self)@.len() == max_size
                &&& exists|keep: Seq<bool>|
                    keeps_most_recent(old(self)@, keep, max_size as int) && final(self)@ == select(old(self)@, keep)
            },
    {
        proof {
            use_type_invariant(&*self);
        }
        let n = self.entries.len();
        if n <= max_size {
            return Ok(());
        }
        // prune the invalid entries first
        self.prune_invalid_entries()?;

        // prune by last accessed time
        let num_delete = n - max_size;
        let mut keep: Vec<bool> = Vec::new();
        let mut i: usize = 0;
        while i < n
            invariant
                0 <= i <= n,
                keep@.len() == i,
                forall|j: int| 0 <= j < i ==> keep@[j],
            decreases n - i,
        {
            keep.push(true);
            i = i + 1;
        }
        proof {
            lemma_count_true_all(keep@, n as int);
        }
        let mut t: usize = 0;
        while t < num_delete
            invariant
                n == self.entries@.len(),
                keys_unique(self.entries@),
                num_delete == n - max_size,
                0 <= t <= num_delete,
                keep@.len() == n,
                count_true(keep@, n as int) == n - t,
                forall|i: int, j: int|
                    0 <= i < n && 0 <= j < n && !keep@[i] && keep@[j] ==> #[trigger] accessed_before(
                        self.entries@,
                        i,
                        j,
                    ),
            decreases num_delete - t,
        {
            let m = self.oldest_kept(&keep);
            let ghost before = keep@;
            keep.set(m, false);
            proof {
                lemma_count_true_clear(before, n as int, m as int);
                assert(keep@ == before.update(m as int, false));
            }
            t = t + 1;
        }
        let mut kept: Vec<CacheEntry<V>> = Vec::new();
        let mut i: usize = 0;
        while i < n
            invariant
                0 <= i <= n,
                n == self.entries@.len(),
                keep@.len() == n,
                kept@ == select(self.entries@.take(i as int), keep@.take(i as int)),
            decreases n - i,
        {
            proof {
                lemma_select_step(self.entries@, keep@.take(i as int), i as int, keep@[i as int]);
                assert(keep@.take(i as int).push(keep@[i as int]) =~= keep@.take(i + 1));
            }
            if keep[i] {
                kept.push(self.entries[i].duplicate());
            }
            i = i + 1;
        }
        proof {
            lemma_take_all(self.entries@);
            lemma_take_all(keep@);
            lemma_select_keys_unique(self.entries@, keep@);
            lemma_select_from(self.entries@, keep@);
            assert(keeps_most_recent(self.entries@, keep@, max_size as int));
        }
        self.entries = kept;
        Ok(())
    }
}

} // verus!
